//! Constants for configuration of the core and other modules.

use vstd::prelude::*;

verus! {

/// The application identity under which both parties meet at the rendezvous server.
pub const APP_ID: &'static str = "com.nikhil-prabhu.pylon-web";

/// The number of words in a generated wormhole code.
pub const CODE_LENGTH: usize = 2;

/// The application version announced to the rendezvous server.
pub const APP_VERSION: &'static str = "0.1.0";

} // verus!
