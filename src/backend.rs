use vstd::prelude::*;
use crate::common::{json_addr_member, Hello, HelloResponse};
use crate::rules::{admits, rule_views};

verus! {

/// Why the relay server dropped a tunnel connection.
#[derive(PartialEq, Eq, Structural, Debug, Clone, Copy)]
pub enum BackendError {
    /// The connection ended before its first message.
    NoHello,
    /// The first message was no `Hello`.
    DecodeError,
    /// The destination is not on the allow-list.
    RuleDenied,
    /// The response could not be encoded.
    EncodeError,
}

/// Checks the first message of a tunnel connection: it must decode as a
/// `Hello` whose destination the allow-list admits. On `Ok` the caller connects
/// to the destination and then sends `accept_message()`; on `Err` it closes the
/// connection without any response.
pub fn admit_hello(msg: Option<&[u8]>, allowed: &[String]) -> (r: Result<Hello, BackendError>)
    ensures
        match msg {
            None => r == Err::<Hello, BackendError>(BackendError::NoHello),
            Some(m) => match json_addr_member(m@) {
                None => r == Err::<Hello, BackendError>(BackendError::DecodeError),
                Some(a) => if admits(a, rule_views(allowed)) {
                    r matches Ok(h) && h.addr@ == a
                } else {
                    r == Err::<Hello, BackendError>(BackendError::RuleDenied)
                },
            },
        },
{
    match msg {
        None => Err(BackendError::NoHello),
        Some(m) => match Hello::parse(m) {
            Err(_) => Err(BackendError::DecodeError),
            Ok(h) => if crate::rules::matches(h.addr.as_str(), allowed) {
                Ok(h)
            } else {
                Err(BackendError::RuleDenied)
            },
        },
    }
}

/// The message that confirms a connection to the destination.
pub fn accept_message() -> (r: Result<Vec<u8>, BackendError>)
    ensures
        r matches Ok(v) && (HelloResponse::Accepted).to_vec_spec(v@),
{
    match HelloResponse::Accepted.to_vec() {
        Ok(v) => Ok(v),
        Err(_) => Err(BackendError::EncodeError),
    }
}

} // verus!
