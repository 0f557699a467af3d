//! A service that carries one short text message between two parties over an
//! end-to-end encrypted wormhole channel, rendezvousing on a short code.
//!
//! The library holds the logic of that exchange: the message envelope, the
//! lifecycle of a channel handle, the registry that hands a pending handle to
//! exactly one consumer, and the decisions of the three operations. Waiting on
//! the network is left to the caller, who performs the actions the library
//! chooses and hands back what came of them.

pub mod consts;
pub mod payload;
pub mod pylon;
pub mod registry;
pub mod controllers;
pub mod routes;

use vstd::prelude::*;

verus! {

/// A structured API response.
pub struct Response<S> {
    /// The HTTP status code.
    pub code: u16,
    /// An optional message: the error's description on failure.
    pub message: Option<String>,
    /// An optional data payload: the result on success.
    pub data: Option<S>,
}

} // verus!
