use crate::random::choose_token;
use crate::segments::push_char;
use crate::{construction_error, PassGen, PassGenError};
use vstd::prelude::*;

verus! {

/// A generator of passwords: `length` characters drawn with replacement
/// from a character set.
#[derive(Debug)]
pub struct PasswordGen {
    length: usize,
    tokenset: Vec<char>,
}

impl PassGen<char> for PasswordGen {
    closed spec fn wf(&self) -> bool {
        self.length > 0 && self.tokenset@.len() > 0
    }

    closed spec fn gen_length(&self) -> nat {
        self.length as nat
    }

    closed spec fn tokens(&self) -> Seq<char> {
        self.tokenset@
    }

    /// The separator and the word case do not apply to passwords.
    open spec fn configured(&self, separator: Option<char>, word_case: Option<bool>) -> bool {
        true
    }

    open spec fn is_output(&self, s: Seq<char>) -> bool {
        s.len() == self.gen_length() && forall|i: int| 0 <= i < s.len() ==> self.tokens().contains(#[trigger] s[i])
    }

    fn new(
        length: usize,
        tokenset: Vec<char>,
        _separator: Option<char>,
        _word_case: Option<bool>,
    ) -> (r: Result<Self, PassGenError>) {
        if length == 0 {
            return Err(PassGenError::InvalidLength);
        }
        if tokenset.len() == 0 {
            return Err(PassGenError::EmptyTokenSet);
        }
        Ok(PasswordGen { length, tokenset })
    }

    fn generate(&self) -> (r: String) {
        let mut password = String::new();
        let mut i: usize = 0;
        while i < self.length
            invariant
                self.wf(),
                i <= self.length,
                password@.len() == i,
                forall|j: int| 0 <= j < i ==> self.tokenset@.contains(#[trigger] password@[j]),
            decreases self.length - i,
        {
            let c = *choose_token(&self.tokenset);
            push_char(&mut password, c);
            i = i + 1;
        }
        password
    }
}

} // verus!
