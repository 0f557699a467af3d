//! The channel handle: one wormhole session, either still waiting for its peer
//! (the initiator's side) or already connected (the responder's side).
//!
//! Connecting and transmitting are done by the caller. The handle decides what
//! is to be done: [`connect_request`] says how to reach the rendezvous server,
//! [`Pylon::new`] accepts what came of it, and [`Pylon::activate`] consumes the
//! handle and names the single transfer to perform on its connection.

use vstd::prelude::*;
use crate::consts::CODE_LENGTH;
use crate::payload::{Payload, PayloadView};

verus! {

/// The Pylon mode.
#[derive(Clone, Copy, Debug, PartialEq, Eq, Structural)]
pub enum Mode {
    /// Mode used to send messages.
    Sender,
    /// Mode used to receive messages.
    Receiver,
}

/// The errors of a wormhole exchange.
#[derive(Debug)]
pub enum PylonError {
    /// The rendezvous service could not be reached, or the handshake or the
    /// transfer failed; the text is the service's own description.
    Connection(String),
    /// A responder was asked for without a wormhole code.
    MissingCode,
    /// A send was attempted without a payload.
    EmptyPayload,
    /// A receive completed without yielding a payload.
    ReceivedEmpty,
    /// No code could be handed out: the sender's connection could not be made,
    /// or it came without a usable code.
    CodeGeneration,
}

impl PylonError {
    /// The human-readable description of the error.
    pub open spec fn text(&self) -> Seq<char> {
        match self {
            PylonError::Connection(s) => s@,
            PylonError::MissingCode => "Wormhole code is required to establish the connection"@,
            PylonError::EmptyPayload => "Payload cannot be empty in Sender mode"@,
            PylonError::ReceivedEmpty => "Received empty payload"@,
            PylonError::CodeGeneration => "Code generation failed"@,
        }
    }

    /// Returns the human-readable description of the error.
    pub fn message(&self) -> (r: String)
        ensures
            r@ == self.text(),
    {
        match self {
            PylonError::Connection(s) => s.clone(),
            PylonError::MissingCode => String::from_str("Wormhole code is required to establish the connection"),
            PylonError::EmptyPayload => String::from_str("Payload cannot be empty in Sender mode"),
            PylonError::ReceivedEmpty => String::from_str("Received empty payload"),
            PylonError::CodeGeneration => String::from_str("Code generation failed"),
        }
    }
}

/// How to reach the rendezvous server for a new session.
pub enum Connect {
    /// Open a session and let the service generate a code of this many words.
    WithoutCode { code_length: usize },
    /// Join the session that this code names, completing the handshake.
    WithCode { code: String },
}

/// Decides how a handle in `mode` is to connect. A sender asks the service
/// for a fresh code; a receiver needs the code of an existing session, and a
/// missing or empty one is an error.
pub fn connect_request(mode: Mode, code: Option<String>) -> (r: Result<Connect, PylonError>)
    ensures
        mode == Mode::Sender ==> (r matches Ok(Connect::WithoutCode { code_length })
            && code_length == CODE_LENGTH),
        mode == Mode::Receiver ==> match code {
            Some(c) if c@.len() > 0 => (r matches Ok(Connect::WithCode { code: k }) && k@ == c@),
            _ => r matches Err(PylonError::MissingCode),
        },
{
    match mode {
        Mode::Sender => Ok(Connect::WithoutCode { code_length: CODE_LENGTH }),
        Mode::Receiver => match code {
            Some(c) => {
                if c.as_str().is_empty() {
                    Err(PylonError::MissingCode)
                } else {
                    Ok(Connect::WithCode { code: c })
                }
            },
            None => Err(PylonError::MissingCode),
        },
    }
}

/// The connection of a session, as the rendezvous service hands it out.
pub enum Conn<F, E> {
    /// A sender's connection that must still be awaited to complete the
    /// handshake, with the code the service generated for it.
    Pending { future: F, code: String },
    /// A receiver's connection whose handshake is complete.
    Established { channel: E },
}

/// The mathematical value of a [`Conn`].
pub enum ConnView<F, E> {
    Pending { future: F, code: Seq<char> },
    Established { channel: E },
}

impl<F, E> ConnView<F, E> {
    /// A pending session always carries a non-empty code.
    pub open spec fn wf(self) -> bool {
        match self {
            ConnView::Pending { code, .. } => code.len() > 0,
            ConnView::Established { .. } => true,
        }
    }
}

impl<F, E> View for Conn<F, E> {
    type V = ConnView<F, E>;

    open spec fn view(&self) -> ConnView<F, E> {
        match self {
            Conn::Pending { future, code } => ConnView::Pending { future: *future, code: code@ },
            Conn::Established { channel } => ConnView::Established { channel: *channel },
        }
    }
}

/// The single transfer that activating a handle calls for.
pub enum Activation<F, E> {
    /// Await the pending connection, then write this payload to it.
    Send { future: F, payload: Payload },
    /// Read one payload from the established connection.
    Receive { channel: E },
}

/// `a` is the transfer that activating a handle of value `h` with a payload
/// of value `sent` calls for.
pub open spec fn activation_for<F, E>(
    h: ConnView<F, E>,
    sent: PayloadView,
    a: Activation<F, E>,
) -> bool {
    match h {
        ConnView::Pending { future, .. } => (a matches Activation::Send { future: f, payload: q } && f
            == future && q@ == sent),
        ConnView::Established { channel } => (a matches Activation::Receive { channel: c } && c
            == channel),
    }
}

/// An object that can send or receive messages using an encrypted wormhole
/// tunnel. Named after the pylons in Terraria.
///
/// Its connection is fixed when it is made and it is consumed by its one
/// activation, so it can neither change role nor be activated twice.
pub struct Pylon<F, E> {
    conn: Conn<F, E>,
}

impl<F, E> View for Pylon<F, E> {
    type V = ConnView<F, E>;

    closed spec fn view(&self) -> ConnView<F, E> {
        self.conn@
    }
}

impl<F, E> Pylon<F, E> {
    #[verifier::type_invariant]
    spec fn inv(&self) -> bool {
        self.conn@.wf()
    }

    /// Wraps the connection that the rendezvous service handed out. A pending
    /// connection without a code cannot be completed by anyone and is refused.
    pub fn new(conn: Conn<F, E>) -> (r: Result<Pylon<F, E>, PylonError>)
        ensures
            conn@.wf() ==> (r matches Ok(p) && p@ == conn@),
            !conn@.wf() ==> r matches Err(PylonError::CodeGeneration),
    {
        let ok = match &conn {
            Conn::Pending { code, .. } => !code.as_str().is_empty(),
            Conn::Established { .. } => true,
        };
        if ok {
            Ok(Pylon { conn })
        } else {
            Err(PylonError::CodeGeneration)
        }
    }

    /// The generated wormhole code (only a sender has one).
    pub fn code(&self) -> (r: Option<String>)
        ensures
            match self@ {
                ConnView::Pending { code, .. } => (r matches Some(c) && c@ == code && c@.len() > 0),
                ConnView::Established { .. } => r is None,
            },
    {
        proof {
            use_type_invariant(self);
        }
        match &self.conn {
            Conn::Pending { code, .. } => Some(code.clone()),
            Conn::Established { .. } => None,
        }
    }

    /// "Activates" the Pylon, consuming it, and names the transfer to perform.
    ///
    /// A sender needs a payload, which is to be written once its connection
    /// completes; without one it fails. A receiver ignores the payload and is
    /// to read one from its connection.
    pub fn activate(self, payload: Option<&Payload>) -> (r: Result<Activation<F, E>, PylonError>)
        ensures
            match payload {
                Some(p) => (r matches Ok(a) && activation_for(self@, p@, a)),
                None => match self@ {
                    ConnView::Pending { .. } => r matches Err(PylonError::EmptyPayload),
                    ConnView::Established { channel } => (r matches Ok(a) && a == Activation::<
                        F,
                        E,
                    >::Receive { channel }),
                },
            },
    {
        match self.conn {
            Conn::Pending { future, .. } => match payload {
                Some(p) => Ok(Activation::Send { future, payload: p.duplicate() }),
                None => Err(PylonError::EmptyPayload),
            },
            Conn::Established { channel } => Ok(Activation::Receive { channel }),
        }
    }
}

} // verus!
