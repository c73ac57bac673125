//! The credential check: a presented credential against the configured secret.

use vstd::prelude::*;
use vstd::string::*;
use vstd::utf8::encode_utf8;
use subtle::ConstantTimeEq;
use crate::error::{ErrorKind, MiddlewareError};

verus! {

/// Relies on subtle's `ConstantTimeEq` for byte slices: the result is true
/// exactly when both slices hold the same bytes, and the comparison does not
/// stop at the first differing byte (only at a difference of length).
#[verifier::external_body]
fn bytes_equal_constant_time(a: &[u8], b: &[u8]) -> (r: bool)
    ensures
        r == (a@ == b@),
{
    a.ct_eq(b).into()
}

/// Whether the presented credential's bytes are, byte for byte, the UTF-8
/// encoding of the configured secret.
pub open spec fn credential_matches(presented: Option<Vec<u8>>, secret: Seq<char>) -> bool {
    match presented {
        Some(b) => b@ == encode_utf8(secret),
        None => false,
    }
}

/// The configured secret as characters, `None` where there is none.
pub open spec fn secret_view(configured: Option<&String>) -> Option<Seq<char>> {
    match configured {
        Some(s) => Some(s@),
        None => None,
    }
}

/// The failure, as its kind and text, that the credential check ends a
/// request in, or `None` where it lets the request through.
pub open spec fn gate_refusal(configured: Option<Seq<char>>, presented: Option<Vec<u8>>) -> Option<
    (ErrorKind, Seq<char>),
> {
    match configured {
        None => Some((ErrorKind::Configuration, "Passkey not configured"@)),
        Some(secret) => if credential_matches(presented, secret) {
            None
        } else {
            Some((ErrorKind::Unauthorized, Seq::empty()))
        },
    }
}

/// Checks a presented credential (the raw bytes of the request's
/// authorization header, if it has one) against the configured secret.
///
/// A missing secret is a configuration fault of the service, reported before
/// the credential is looked at. Otherwise the request passes only when the
/// credential is, byte for byte, the secret; the bytes are compared in
/// constant time.
pub fn authorize(presented: &Option<Vec<u8>>, configured: Option<&String>) -> (r: Result<
    (),
    MiddlewareError,
>)
    ensures
        r matches Err(MiddlewareError::Configuration(m)) ==> m@ == "Passkey not configured"@,
        (r matches Err(MiddlewareError::Configuration(_))) <==> configured is None,
        r is Ok <==> (configured matches Some(secret) && credential_matches(*presented, secret@)),
        (r matches Err(MiddlewareError::Unauthorized)) <==> (configured matches Some(secret)
            && !credential_matches(*presented, secret@)),
{
    let secret = match configured {
        None => {
            return Err(MiddlewareError::Configuration(String::from_str("Passkey not configured")));
        },
        Some(secret) => secret,
    };
    match presented {
        Some(b) => {
            if bytes_equal_constant_time(b.as_slice(), secret.as_str().as_bytes()) {
                Ok(())
            } else {
                Err(MiddlewareError::Unauthorized)
            }
        },
        None => Err(MiddlewareError::Unauthorized),
    }
}

} // verus!
