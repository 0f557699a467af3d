//! The responses of the service's routes, built from the operations' results.

use vstd::prelude::*;
use crate::Response;
use crate::payload::Payload;
use crate::pylon::PylonError;

verus! {

/// The status of a successful request.
pub const STATUS_OK: u16 = 200;

/// The status of a request that failed.
pub const STATUS_ERROR: u16 = 500;

/// Generic index route that indicates whether the service is up and running.
pub fn index() -> (r: &'static str)
    ensures
        r@ == "Hello, world!"@,
{
    "Hello, world!"
}

/// Wraps an operation's result: on success the data under [`STATUS_OK`] and no
/// message, on failure the error's description under [`STATUS_ERROR`] and no data.
pub fn respond<S>(result: Result<S, PylonError>) -> (r: Response<S>)
    ensures
        match result {
            Ok(d) => r.code == STATUS_OK && r.message is None && r.data == Some(d),
            Err(e) => r.code == STATUS_ERROR && (r.message matches Some(m) && m@ == e.text())
                && r.data is None,
        },
{
    match result {
        Ok(d) => Response { code: STATUS_OK, message: None, data: Some(d) },
        Err(e) => Response { code: STATUS_ERROR, message: Some(e.message()), data: None },
    }
}

/// The response of the send route: success carries no data beyond itself.
pub fn acknowledge(result: Result<Payload, PylonError>) -> (r: Response<()>)
    ensures
        match result {
            Ok(_) => r.code == STATUS_OK && r.message is None && r.data == Some(()),
            Err(e) => r.code == STATUS_ERROR && (r.message matches Some(m) && m@ == e.text())
                && r.data is None,
        },
{
    match result {
        Ok(_) => respond(Ok(())),
        Err(e) => respond(Err(e)),
    }
}

} // verus!
