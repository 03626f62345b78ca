use vstd::prelude::*;

verus! {

/// The words joined in order, with `sep` between each two neighbours.
pub open spec fn join_with(words: Seq<Seq<char>>, sep: char) -> Seq<char>
    decreases words.len(),
{
    if words.len() == 0 {
        Seq::empty()
    } else if words.len() == 1 {
        words[0]
    } else {
        join_with(words.drop_last(), sep) + seq![sep] + words.last()
    }
}

/// The pieces of `s` between occurrences of `sep`, as `str::split` gives
/// them: always at least one, possibly empty.
pub open spec fn split_on(s: Seq<char>, sep: char) -> Seq<Seq<char>>
    decreases s.len(),
{
    if s.len() == 0 {
        seq![Seq::empty()]
    } else if s.last() == sep {
        split_on(s.drop_last(), sep).push(Seq::empty())
    } else {
        let head = split_on(s.drop_last(), sep);
        head.update(head.len() - 1, head.last().push(s.last()))
    }
}

/// `split_on` never yields an empty list of pieces.
pub proof fn lemma_split_nonempty(s: Seq<char>, sep: char)
    ensures
        split_on(s, sep).len() >= 1,
    decreases s.len(),
{
    if s.len() > 0 {
        lemma_split_nonempty(s.drop_last(), sep);
    }
}

/// Appending text free of `sep` only extends the last piece.
pub proof fn lemma_split_extend(a: Seq<char>, b: Seq<char>, sep: char)
    requires
        !b.contains(sep),
    ensures
        split_on(a + b, sep).len() == split_on(a, sep).len(),
        split_on(a + b, sep) == split_on(a, sep).update(
            split_on(a, sep).len() - 1,
            split_on(a, sep).last() + b,
        ),
    decreases b.len(),
{
    lemma_split_nonempty(a, sep);
    let pa = split_on(a, sep);
    if b.len() == 0 {
        assert(a + b =~= a);
        assert(pa.last() + b =~= pa.last());
        assert(pa.update(pa.len() - 1, pa.last()) =~= pa);
    } else {
        let b0 = b.drop_last();
        assert(!b0.contains(sep)) by {
            if b0.contains(sep) {
                let k = choose|k: int| 0 <= k < b0.len() && b0[k] == sep;
                assert(b[k] == sep);
            }
        }
        lemma_split_extend(a, b0, sep);
        assert((a + b).drop_last() =~= a + b0);
        assert((a + b).last() == b.last());
        assert(b.last() != sep) by {
            assert(b[b.len() - 1] == b.last());
        }
        let p0 = split_on(a + b0, sep);
        assert(p0.last() == pa.last() + b0);
        assert((pa.last() + b0).push(b.last()) =~= pa.last() + b);
        assert(split_on(a + b, sep) =~= pa.update(pa.len() - 1, pa.last() + b));
    }
}

/// Splitting on the separator gives back the joined words, provided there is
/// at least one word and no word holds the separator.
pub proof fn lemma_split_join(words: Seq<Seq<char>>, sep: char)
    requires
        words.len() >= 1,
        forall|i: int| 0 <= i < words.len() ==> !(#[trigger] words[i]).contains(sep),
    ensures
        split_on(join_with(words, sep), sep) == words,
    decreases words.len(),
{
    if words.len() == 1 {
        let w = words[0];
        lemma_split_extend(Seq::empty(), w, sep);
        assert(Seq::<char>::empty() + w =~= w);
        assert(split_on(Seq::<char>::empty(), sep).last() + w =~= w);
        assert(split_on(w, sep) =~= words);
    } else {
        let init = words.drop_last();
        assert forall|i: int| 0 <= i < init.len() implies !(#[trigger] init[i]).contains(sep) by {
            assert(init[i] == words[i]);
        }
        lemma_split_join(init, sep);
        let prefix = join_with(init, sep) + seq![sep];
        assert(prefix.drop_last() =~= join_with(init, sep));
        assert(split_on(prefix, sep) == init.push(Seq::empty()));
        assert(!words.last().contains(sep)) by {
            assert(words[words.len() - 1] == words.last());
        }
        lemma_split_extend(prefix, words.last(), sep);
        assert(Seq::<char>::empty() + words.last() =~= words.last());
        assert(split_on(join_with(words, sep), sep) =~= words);
    }
}

/// Relies on std's `String::push`: appends the character at the end.
#[verifier::external_body]
pub(crate) fn push_char(s: &mut String, c: char)
    ensures
        final(s)@ == old(s)@.push(c),
{
    s.push(c)
}

} // verus!
