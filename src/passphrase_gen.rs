use crate::random::choose_token;
use crate::segments::{join_with, lemma_split_join, push_char, split_on};
use crate::{construction_error, PassGen, PassGenError};
use vstd::prelude::*;

verus! {

/// What `str::to_lowercase` returns for the given characters.
pub uninterp spec fn lower_of(s: Seq<char>) -> Seq<char>;

/// What `str::to_uppercase` returns for the given characters.
pub uninterp spec fn upper_of(s: Seq<char>) -> Seq<char>;

/// Relies on std's `str::to_lowercase`: the lowercase form of the text,
/// which depends on its characters alone.
#[verifier::external_body]
fn lowercase(s: &str) -> (r: String)
    ensures
        r@ == lower_of(s@),
{
    s.to_lowercase()
}

/// Relies on std's `str::to_uppercase`: the uppercase form of the text,
/// which depends on its characters alone.
#[verifier::external_body]
fn uppercase(s: &str) -> (r: String)
    ensures
        r@ == upper_of(s@),
{
    s.to_uppercase()
}

/// A word rendered in the chosen case.
pub open spec fn cased(word: Seq<char>, upper: bool) -> Seq<char> {
    if upper {
        upper_of(word)
    } else {
        lower_of(word)
    }
}

/// Each word rendered in the chosen case.
pub open spec fn cased_words(words: Seq<Seq<char>>, upper: bool) -> Seq<Seq<char>> {
    Seq::new(words.len(), |i: int| cased(words[i], upper))
}

/// The passphrase made of the drawn words: each rendered in the chosen case,
/// joined in draw order by `sep`.
pub open spec fn passphrase_text(words: Seq<Seq<char>>, sep: char, upper: bool) -> Seq<char> {
    join_with(cased_words(words, upper), sep)
}

/// The characters of each string, in order.
pub open spec fn string_views(v: Seq<String>) -> Seq<Seq<char>> {
    Seq::new(v.len(), |i: int| v[i]@)
}

/// A generator of passphrases: `length` words drawn with replacement from a
/// word list, each rendered upper or lower case, joined by a separator.
#[derive(Debug)]
pub struct PassphraseGen {
    length: usize,
    tokenset: Vec<String>,
    separator: char,
    word_case: bool,
}

impl PassphraseGen {
    /// The character that joins the words.
    pub closed spec fn sep(&self) -> char {
        self.separator
    }

    /// Whether words are rendered in upper case (else in lower case).
    pub closed spec fn upper(&self) -> bool {
        self.word_case
    }

    /// Whether `w` is the text of one of the words of the list.
    pub open spec fn is_word(&self, w: Seq<char>) -> bool {
        exists|k: int| 0 <= k < self.tokens().len() && (#[trigger] self.tokens()[k])@ == w
    }

    /// Builds the passphrase from words already drawn: each is rendered in
    /// the configured case and they are joined by the separator.
    pub fn render(&self, draws: &Vec<String>) -> (r: String)
        ensures
            r@ == passphrase_text(string_views(draws@), self.sep(), self.upper()),
    {
        let ghost dv = string_views(draws@);
        let mut out = String::new();
        let mut i: usize = 0;
        while i < draws.len()
            invariant
                i <= draws@.len(),
                dv == string_views(draws@),
                out@ == passphrase_text(dv.take(i as int), self.separator, self.word_case),
            decreases draws.len() - i,
        {
            let word = if self.word_case {
                uppercase(draws[i].as_str())
            } else {
                lowercase(draws[i].as_str())
            };
            let ghost before = out@;
            if i > 0 {
                push_char(&mut out, self.separator);
            }
            out.append(word.as_str());
            proof {
                let prev = cased_words(dv.take(i as int), self.word_case);
                let next = cased_words(dv.take(i + 1), self.word_case);
                assert(next.drop_last() =~= prev);
                assert(next.last() == word@);
                if i == 0 {
                    assert(before =~= Seq::<char>::empty());
                    assert(out@ =~= word@);
                } else {
                    assert(out@ =~= before + seq![self.separator] + word@);
                }
            }
            i = i + 1;
        }
        assert(dv.take(draws@.len() as int) =~= dv);
        out
    }
}

/// Splitting a generated passphrase on its separator gives exactly as many
/// segments as the configured length, and each segment is a word of the list
/// rendered in the configured case, provided that no rendered word holds the
/// separator.
pub proof fn lemma_passphrase_segments(g: &PassphraseGen, s: Seq<char>)
    requires
        g.wf(),
        g.is_output(s),
        forall|k: int|
            0 <= k < g.tokens().len() ==> !cased((#[trigger] g.tokens()[k])@, g.upper()).contains(g.sep()),
    ensures
        split_on(s, g.sep()).len() == g.gen_length(),
        forall|i: int|
            0 <= i < split_on(s, g.sep()).len() ==> exists|k: int|
                0 <= k < g.tokens().len() && #[trigger] split_on(s, g.sep())[i] == cased(
                    g.tokens()[k]@,
                    g.upper(),
                ),
{
    let words = choose|words: Seq<Seq<char>>|
        words.len() == g.gen_length()
            && (forall|i: int| 0 <= i < words.len() ==> g.is_word(#[trigger] words[i]))
            && s == passphrase_text(words, g.sep(), g.upper());
    let cw = cased_words(words, g.upper());
    assert forall|i: int| 0 <= i < cw.len() implies !(#[trigger] cw[i]).contains(g.sep()) by {
        assert(g.is_word(words[i]));
        let k = choose|k: int| 0 <= k < g.tokens().len() && (#[trigger] g.tokens()[k])@ == words[i];
        assert(cw[i] == cased(g.tokens()[k]@, g.upper()));
    }
    lemma_split_join(cw, g.sep());
    assert forall|i: int| 0 <= i < split_on(s, g.sep()).len() implies exists|k: int|
        0 <= k < g.tokens().len() && #[trigger] split_on(s, g.sep())[i] == cased(
            g.tokens()[k]@,
            g.upper(),
        ) by {
        assert(g.is_word(words[i]));
        let k = choose|k: int| 0 <= k < g.tokens().len() && (#[trigger] g.tokens()[k])@ == words[i];
        assert(split_on(s, g.sep())[i] == cased(g.tokens()[k]@, g.upper()));
    }
}

impl PassGen<String> for PassphraseGen {
    closed spec fn wf(&self) -> bool {
        self.length > 0 && self.tokenset@.len() > 0
    }

    closed spec fn gen_length(&self) -> nat {
        self.length as nat
    }

    closed spec fn tokens(&self) -> Seq<String> {
        self.tokenset@
    }

    /// An absent separator means `-`; an absent word case means lower case.
    open spec fn configured(&self, separator: Option<char>, word_case: Option<bool>) -> bool {
        self.sep() == (match separator {
            Some(c) => c,
            None => '-',
        }) && self.upper() == (match word_case {
            Some(b) => b,
            None => false,
        })
    }

    open spec fn is_output(&self, s: Seq<char>) -> bool {
        exists|words: Seq<Seq<char>>|
            words.len() == self.gen_length()
                && (forall|i: int| 0 <= i < words.len() ==> self.is_word(#[trigger] words[i]))
                && s == passphrase_text(words, self.sep(), self.upper())
    }

    fn new(
        length: usize,
        tokenset: Vec<String>,
        separator: Option<char>,
        word_case: Option<bool>,
    ) -> (r: Result<Self, PassGenError>) {
        if length == 0 {
            return Err(PassGenError::InvalidLength);
        }
        if tokenset.len() == 0 {
            return Err(PassGenError::EmptyTokenSet);
        }
        let separator = match separator {
            Some(c) => c,
            None => '-',
        };
        let word_case = match word_case {
            Some(b) => b,
            None => false,
        };
        Ok(PassphraseGen { length, tokenset, separator, word_case })
    }

    fn generate(&self) -> (r: String) {
        let mut draws: Vec<String> = Vec::new();
        let mut i: usize = 0;
        while i < self.length
            invariant
                self.wf(),
                i <= self.length,
                draws@.len() == i,
                forall|j: int| 0 <= j < i ==> self.is_word(#[trigger] draws@[j]@),
            decreases self.length - i,
        {
            let word = choose_token(&self.tokenset);
            let copy = word.clone();
            proof {
                let k = choose|k: int| 0 <= k < self.tokenset@.len() && self.tokenset@[k] == *word;
                assert(self.tokens()[k]@ == copy@);
            }
            draws.push(copy);
            proof {
                assert forall|j: int| 0 <= j < i + 1 implies self.is_word(#[trigger] draws@[j]@) by {
                    if j == i {
                        assert(draws@[j] == copy);
                    }
                }
            }
            i = i + 1;
        }
        let r = self.render(&draws);
        let ghost words = string_views(draws@);
        assert forall|i: int| 0 <= i < words.len() implies self.is_word(#[trigger] words[i]) by {
            assert(words[i] == draws@[i]@);
        }
        r
    }
}

} // verus!
