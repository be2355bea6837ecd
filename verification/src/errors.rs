use vstd::prelude::*;

verus! {

/// Why a client operation failed, following the error taxonomy of the
/// exchange protocol: a malformed base64 secret, a response that is not
/// JSON, a response missing an expected field, a numeric string that does
/// not parse, or a lookup that found nothing (for example an order with
/// no fills).
#[derive(Clone, Copy, Debug, PartialEq, Eq, Structural)]
pub enum ClientError {
    Decode,
    Protocol,
    Parse,
    NotFound,
}

impl ClientError {
    /// A short diagnostic label for display by callers.
    pub fn describe(&self) -> (r: &'static str)
        ensures
            r@ == match self {
                ClientError::Decode => "invalid base64 secret"@,
                ClientError::Protocol => "response missing an expected field"@,
                ClientError::Parse => "numeric field did not parse"@,
                ClientError::NotFound => "no matching record"@,
            },
    {
        match self {
            ClientError::Decode => "invalid base64 secret",
            ClientError::Protocol => "response missing an expected field",
            ClientError::Parse => "numeric field did not parse",
            ClientError::NotFound => "no matching record",
        }
    }
}

} // verus!
