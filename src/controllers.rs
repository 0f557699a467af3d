//! The three operations of the service: generating a code, sending a payload
//! to the holder of a code, and receiving one with a code.
//!
//! Each one decides, from the registry and from what the network delivered,
//! what comes next; connecting and transferring are done by the caller.

use vstd::prelude::*;
use crate::payload::{Payload, Timestamp, constructed, prepared_for_send};
use crate::pylon::{Activation, ConnView, Pylon, PylonError, activation_for};
use crate::registry::{CodeRegistry, take_result};

verus! {

/// Registers a freshly created sender handle under its generated code, so that
/// a later send with that code finds it, and returns the code.
///
/// Fails with [`PylonError::CodeGeneration`], leaving the registry as it was,
/// if the handle could not be created or carries no code.
pub fn gen_code<F, E>(
    registry: &mut CodeRegistry<Pylon<F, E>>,
    created: Result<Pylon<F, E>, PylonError>,
) -> (r: Result<String, PylonError>)
    requires
        old(registry).wf(),
    ensures
        final(registry).wf(),
        match created {
            Ok(p) => match p@ {
                ConnView::Pending { code, .. } => (r matches Ok(c) && c@ == code
                    && final(registry)@ == old(registry)@.insert(code, p)),
                ConnView::Established { .. } => (r matches Err(PylonError::CodeGeneration)
                    && final(registry)@ == old(registry)@),
            },
            Err(_) => (r matches Err(PylonError::CodeGeneration) && final(registry)@ == old(
                registry,
            )@),
        },
{
    match created {
        Ok(pylon) => match pylon.code() {
            Some(code) => {
                registry.register(code.clone(), pylon);
                Ok(code)
            },
            None => Err(PylonError::CodeGeneration),
        },
        Err(_) => Err(PylonError::CodeGeneration),
    }
}

/// Sends a payload to the holder of its code.
///
/// The handle registered under the payload's code is removed from the registry.
/// If there is none, nothing is sent and the payload comes back as it was. If
/// there is, the payload is stamped with `now`, its length and checksum are
/// derived anew from its message (both absent without one), and the handle is
/// activated with it: the transfer to perform is returned with the payload.
pub fn send_payload<F, E>(
    registry: &mut CodeRegistry<Pylon<F, E>>,
    payload: Payload,
    now: Timestamp,
) -> (r: (Payload, Option<Activation<F, E>>))
    requires
        old(registry).wf(),
    ensures
        final(registry).wf(),
        final(registry)@ == take_result(old(registry)@, payload.code@).1,
        match take_result(old(registry)@, payload.code@).0 {
            None => r.0@ == payload@ && r.1 is None,
            Some(h) => r.0@ == prepared_for_send(payload@, now) && (r.1 matches Some(a)
                && activation_for(h@, r.0@, a)),
        },
{
    let mut payload = payload;
    match registry.take(&payload.code) {
        Some(pylon) => {
            payload.stamp_for_send(now);
            payload.refresh_derived_fields();
            let activation = pylon.activate(Some(&payload));
            match activation {
                Ok(a) => (payload, Some(a)),
                Err(_) => (payload, None),
            }
        },
        None => (payload, None),
    }
}

/// Completes a receive with what the channel delivered: the sender's payload,
/// verbatim, or [`PylonError::ReceivedEmpty`] if nothing came.
pub fn receive_payload(received: Option<Payload>) -> (r: Result<Payload, PylonError>)
    ensures
        match received {
            Some(p) => r == Ok::<Payload, PylonError>(p),
            None => r matches Err(PylonError::ReceivedEmpty),
        },
{
    match received {
        Some(p) => Ok(p),
        None => Err(PylonError::ReceivedEmpty),
    }
}

/// Round trip: a payload built from a message and a code, sent through a
/// pending handle and delivered verbatim to the receiver, arrives equal to the
/// one built on message, code, length and checksum, with the sender's send
/// time.
pub proof fn lemma_round_trip<F, E>(
    message: Seq<char>,
    code: Seq<char>,
    now: Timestamp,
    handle: ConnView<F, E>,
    activation: Activation<F, E>,
    received: Payload,
)
    requires
        handle is Pending,
        activation_for(handle, prepared_for_send(constructed(message, code), now), activation),
        activation matches Activation::Send { payload, .. } && received@ == payload@,
    ensures
        received@.same_content(constructed(message, code)),
        received@.time == Some(now),
{
}

} // verus!
