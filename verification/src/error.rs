//! The closed set of failures.

use vstd::prelude::*;

verus! {

/// An ECDSA error.
#[derive(Copy, Clone, Debug, PartialEq, Eq, Structural)]
pub enum Error {
    /// The signature is well formed but does not verify.
    IncorrectSignature,
    /// The message digest has the wrong length.
    InvalidMessage,
    /// The public key is malformed or not on the curve.
    InvalidPublicKey,
    /// The signature is malformed, or recovery failed.
    InvalidSignature,
    /// The secret key is zero or out of range.
    InvalidSecretKey,
    /// The provider could not sign well-formed inputs.
    SignFailed,
    /// The provider answered outside its documented set.
    Unknown,
}

impl Error {
    /// The text shown to a user: the name of the variant.
    pub open spec fn spec_text(self) -> Seq<char> {
        match self {
            Error::IncorrectSignature => "IncorrectSignature"@,
            Error::InvalidMessage => "InvalidMessage"@,
            Error::InvalidPublicKey => "InvalidPublicKey"@,
            Error::InvalidSignature => "InvalidSignature"@,
            Error::InvalidSecretKey => "InvalidSecretKey"@,
            Error::SignFailed => "SignFailed"@,
            Error::Unknown => "Unknown"@,
        }
    }

    /// Renders the error for a user, by the name of its variant.
    pub fn to_string(&self) -> (text: String)
        ensures
            text@ == self.spec_text(),
    {
        match self {
            Error::IncorrectSignature => "IncorrectSignature".to_owned(),
            Error::InvalidMessage => "InvalidMessage".to_owned(),
            Error::InvalidPublicKey => "InvalidPublicKey".to_owned(),
            Error::InvalidSignature => "InvalidSignature".to_owned(),
            Error::InvalidSecretKey => "InvalidSecretKey".to_owned(),
            Error::SignFailed => "SignFailed".to_owned(),
            Error::Unknown => "Unknown".to_owned(),
        }
    }
}

} // verus!
