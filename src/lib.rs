use vstd::prelude::*;

pub mod passphrase_gen;
pub mod password_gen;
pub mod random;
pub mod segments;


pub use passphrase_gen::PassphraseGen;
pub use password_gen::PasswordGen;

verus! {

/// An error that can occur while building a generator.
#[derive(Debug, Clone, Copy, PartialEq, Eq, Structural)]
pub enum PassGenError {
    /// Length must be greater than 0.
    InvalidLength,
    /// Token set must not be empty.
    EmptyTokenSet,
}

impl PassGenError {
    /// The human-readable text of the error.
    pub fn message(&self) -> (r: String)
        ensures
            *self == PassGenError::InvalidLength ==> r@ == "Length must be greater than 0"@,
            *self == PassGenError::EmptyTokenSet ==> r@ == "Token set must not be empty"@,
    {
        match self {
            PassGenError::InvalidLength => String::from_str("Length must be greater than 0"),
            PassGenError::EmptyTokenSet => String::from_str("Token set must not be empty"),
        }
    }
}

/// The error, if any, that construction reports for the given length and
/// number of tokens.
pub open spec fn construction_error(length: nat, n_tokens: nat) -> Option<PassGenError> {
    if length == 0 {
        Some(PassGenError::InvalidLength)
    } else if n_tokens == 0 {
        Some(PassGenError::EmptyTokenSet)
    } else {
        None
    }
}

/// A generator of credential strings drawn from a set of tokens of type `T`.
pub trait PassGen<T>: Sized {
    /// The generator holds a positive length and a non-empty token set.
    spec fn wf(&self) -> bool;

    /// The number of tokens that each generated string is made of.
    spec fn gen_length(&self) -> nat;

    /// The tokens that each draw picks from.
    spec fn tokens(&self) -> Seq<T>;

    /// Whether the generator was configured with these options.
    spec fn configured(&self, separator: Option<char>, word_case: Option<bool>) -> bool;

    /// Whether `s` is one of the strings that `generate` may return.
    spec fn is_output(&self, s: Seq<char>) -> bool;

    /// Creates a generator, failing on a zero length or an empty token set.
    fn new(
        length: usize,
        tokenset: Vec<T>,
        separator: Option<char>,
        word_case: Option<bool>,
    ) -> (r: Result<Self, PassGenError>)
        ensures
            match construction_error(length as nat, tokenset@.len()) {
                Some(e) => r == Err::<Self, PassGenError>(e),
                None => r is Ok && r->Ok_0.wf() && r->Ok_0.gen_length() == length
                    && r->Ok_0.tokens() == tokenset@ && r->Ok_0.configured(separator, word_case),
            },
    ;

    /// Draws a fresh string from the token set.
    fn generate(&self) -> (r: String)
        requires
            self.wf(),
        ensures
            self.is_output(r@),
    ;
}

} // verus!
