use vstd::prelude::*;

verus! {

/// Every fallible operation of this crate reports one of these kinds.
///
/// `TransportError`: the HTTP exchange could not be completed, or the
/// gateway answered with a non-success status. Never retried internally.
/// `LoginError`: the handshake completed, but the session identifier the
/// gateway returned is still the reserved all-zero sentinel.
/// `ParseError`: the XML collaborator could not make sense of a response.
#[derive(Debug, Clone)]
pub enum FritzError {
    TransportError(String),
    LoginError(String),
    ParseError(String),
}

impl FritzError {
    /// The human-readable description carried by this error.
    pub fn message(&self) -> (r: &str)
        ensures
            r@ == self.message_spec(),
    {
        match self {
            FritzError::TransportError(m) => m.as_str(),
            FritzError::LoginError(m) => m.as_str(),
            FritzError::ParseError(m) => m.as_str(),
        }
    }

    pub open spec fn message_spec(&self) -> Seq<char> {
        match self {
            FritzError::TransportError(m) => m@,
            FritzError::LoginError(m) => m@,
            FritzError::ParseError(m) => m@,
        }
    }
}

} // verus!
