//! The ways in which an operation on the registry is refused.

use vstd::prelude::*;

verus! {

/// Why an operation on the registry was refused. A refused call leaves the
/// registry as it was.
#[derive(Clone, Copy, Debug, PartialEq, Eq, Structural)]
pub enum NftError {
    /// The caller may not act for the principal that the call depends on.
    Unauthorized,
    /// No token has the given identifier.
    NotFound,
    /// The principal does not own the token.
    NotOwner,
}

impl NftError {
    /// The sentence that tells a caller why the call was refused.
    pub open spec fn text(self) -> Seq<char> {
        match self {
            NftError::Unauthorized => "Caller is not authorized"@,
            NftError::NotFound => "Token does not exist"@,
            NftError::NotOwner => "Not the owner"@,
        }
    }

    /// The sentence that tells a caller why the call was refused.
    pub fn message(&self) -> (text: &'static str)
        ensures
            text@ == self.text(),
    {
        match self {
            NftError::Unauthorized => "Caller is not authorized",
            NftError::NotFound => "Token does not exist",
            NftError::NotOwner => "Not the owner",
        }
    }
}

} // verus!
