//! The message envelope carried through the wormhole channel.

use vstd::prelude::*;

verus! {

/// The number of user-perceived characters (extended grapheme clusters) of a text.
pub uninterp spec fn grapheme_count(s: Seq<char>) -> usize;

/// The lowercase hexadecimal SHA-256 digest of the UTF-8 encoding of a text.
pub uninterp spec fn sha256_hex(s: Seq<char>) -> Seq<char>;

/// Relies on `unic_segment::Graphemes`: iterating the extended grapheme clusters
/// of `s` and counting them. Each cluster holds at least one character, and an
/// empty text has none.
#[verifier::external_body]
fn count_graphemes(s: &str) -> (r: usize)
    ensures
        r == grapheme_count(s@),
        r <= s@.len(),
        s@.len() == 0 <==> r == 0,
{
    unic_segment::Graphemes::new(s).count()
}

/// Relies on `sha256::digest`: the hex encoding of the 32-byte SHA-256 digest
/// of the text's bytes, two characters per byte.
#[verifier::external_body]
fn digest_hex(s: &str) -> (r: String)
    ensures
        r@ == sha256_hex(s@),
        r@.len() == 64,
{
    sha256::digest(s)
}

/// The instant at which a payload was handed to the channel, as the whole
/// seconds and the remaining nanoseconds elapsed since the Unix epoch.
#[derive(Clone, Copy, Debug, PartialEq, Eq, Structural)]
pub struct Timestamp {
    pub secs: u64,
    pub nanos: u32,
}

/// Represents the message payload.
///
/// This payload can be sent and received through the encrypted wormhole tunnel.
#[derive(Debug)]
pub struct Payload {
    /// The message to send (sender mode)/that was received (receiver mode).
    pub message: Option<String>,
    /// The message length, in user-perceived characters.
    pub length: Option<usize>,
    /// The wormhole code for authentication.
    pub code: String,
    /// The time the message was sent.
    pub time: Option<Timestamp>,
    /// The SHA-256 checksum of the message, in hexadecimal.
    pub checksum: Option<String>,
}

/// The mathematical value of a [`Payload`]: its texts as character sequences.
pub struct PayloadView {
    pub message: Option<Seq<char>>,
    pub length: Option<usize>,
    pub code: Seq<char>,
    pub time: Option<Timestamp>,
    pub checksum: Option<Seq<char>>,
}

/// The characters of an optional text.
pub open spec fn text_of(o: Option<String>) -> Option<Seq<char>> {
    match o {
        Some(s) => Some(s@),
        None => None,
    }
}

/// The length derived from an optional message: present exactly when the message is.
pub open spec fn length_of(message: Option<Seq<char>>) -> Option<usize> {
    match message {
        Some(m) => Some(grapheme_count(m)),
        None => None,
    }
}

/// The checksum derived from an optional message: present exactly when the message is.
pub open spec fn checksum_of(message: Option<Seq<char>>) -> Option<Seq<char>> {
    match message {
        Some(m) => Some(sha256_hex(m)),
        None => None,
    }
}

/// The payload built from a message and a code: its length and checksum are
/// derived from the message, and it has not been sent yet.
pub open spec fn constructed(message: Seq<char>, code: Seq<char>) -> PayloadView {
    PayloadView {
        message: Some(message),
        length: Some(grapheme_count(message)),
        code,
        time: None,
        checksum: Some(sha256_hex(message)),
    }
}

/// The payload as it is handed to the channel: stamped with the send time,
/// its length and checksum derived anew from its message.
pub open spec fn prepared_for_send(p: PayloadView, at: Timestamp) -> PayloadView {
    PayloadView {
        time: Some(at),
        length: length_of(p.message),
        checksum: checksum_of(p.message),
        ..p
    }
}

impl PayloadView {
    /// Length and checksum are those derived from the message (both absent without one).
    pub open spec fn derived_fields_consistent(self) -> bool {
        &&& self.length == length_of(self.message)
        &&& self.checksum == checksum_of(self.message)
    }

    /// Equal on everything but the send time, which each side observes on its own clock.
    pub open spec fn same_content(self, other: PayloadView) -> bool {
        &&& self.message == other.message
        &&& self.code == other.code
        &&& self.length == other.length
        &&& self.checksum == other.checksum
    }
}

/// Building a payload is deterministic: two payloads built from the same
/// message and code agree on every field, and neither carries a send time.
pub proof fn lemma_construct_deterministic(
    message: Seq<char>,
    code: Seq<char>,
    first: PayloadView,
    second: PayloadView,
)
    requires
        first == constructed(message, code),
        second == constructed(message, code),
    ensures
        first == second,
        first.time is None,
        first.derived_fields_consistent(),
{
}

impl View for Payload {
    type V = PayloadView;

    open spec fn view(&self) -> PayloadView {
        PayloadView {
            message: text_of(self.message),
            length: self.length,
            code: self.code@,
            time: self.time,
            checksum: text_of(self.checksum),
        }
    }
}

fn copy_text(o: &Option<String>) -> (r: Option<String>)
    ensures
        text_of(r) == text_of(*o),
{
    match o {
        Some(s) => Some(s.clone()),
        None => None,
    }
}

fn same_text(a: &Option<String>, b: &Option<String>) -> (r: bool)
    ensures
        r == (text_of(*a) == text_of(*b)),
{
    match (a, b) {
        (Some(x), Some(y)) => *x == *y,
        (None, None) => true,
        _ => false,
    }
}

fn same_length(a: Option<usize>, b: Option<usize>) -> (r: bool)
    ensures
        r == (a == b),
{
    match (a, b) {
        (Some(x), Some(y)) => x == y,
        (None, None) => true,
        _ => false,
    }
}

impl Payload {
    /// Builds a payload from a message and a wormhole code, deriving its length
    /// (in grapheme clusters) and its checksum (hex SHA-256) from the message.
    /// It carries no send time: that is stamped just before transmission.
    pub fn construct(message: &str, code: &str) -> (r: Payload)
        ensures
            r@ == constructed(message@, code@),
    {
        let length = count_graphemes(message);
        let checksum = digest_hex(message);
        Payload {
            message: Some(message.to_owned()),
            length: Some(length),
            code: code.to_owned(),
            time: None,
            checksum: Some(checksum),
        }
    }

    /// Sets the length and checksum to those derived from the current message,
    /// overwriting whatever they held; without a message both become absent.
    pub fn refresh_derived_fields(&mut self)
        ensures
            final(self)@ == (PayloadView {
                length: length_of(old(self)@.message),
                checksum: checksum_of(old(self)@.message),
                ..old(self)@
            }),
            final(self)@.derived_fields_consistent(),
    {
        let (length, checksum) = match &self.message {
            Some(m) => (Some(count_graphemes(m.as_str())), Some(digest_hex(m.as_str()))),
            None => (None, None),
        };
        self.length = length;
        self.checksum = checksum;
    }

    /// Records the instant at which the payload is handed to the channel.
    pub fn stamp_for_send(&mut self, at: Timestamp)
        ensures
            final(self)@ == (PayloadView { time: Some(at), ..old(self)@ }),
    {
        self.time = Some(at);
    }

    /// A copy of this payload, field for field.
    pub fn duplicate(&self) -> (r: Payload)
        ensures
            r@ == self@,
    {
        Payload {
            message: copy_text(&self.message),
            length: self.length,
            code: self.code.clone(),
            time: self.time,
            checksum: copy_text(&self.checksum),
        }
    }
}

impl PartialEq for Payload {
    /// Two payloads are equal when message, code, length and checksum agree;
    /// the send time is not compared.
    fn eq(&self, other: &Payload) -> (r: bool) {
        same_text(&self.message, &other.message) && self.code == other.code
            && same_length(self.length, other.length) && same_text(&self.checksum, &other.checksum)
    }
}

impl vstd::std_specs::cmp::PartialEqSpecImpl for Payload {
    open spec fn obeys_eq_spec() -> bool {
        true
    }

    open spec fn eq_spec(&self, other: &Payload) -> bool {
        self@.same_content(other@)
    }
}

impl<'a, 'b> From<(&'a str, &'b str)> for Payload {
    /// Creates a Payload from a tuple: the first element is the message, the
    /// second the wormhole code (see [`Payload::construct`]).
    fn from(values: (&'a str, &'b str)) -> (r: Payload)
        ensures
            r@ == constructed(values.0@, values.1@),
    {
        Payload::construct(values.0, values.1)
    }
}

/// A payload holds strings, which no spec function can build, so the
/// conversion is described by the `ensures` of `from` instead of `from_spec`.
impl<'a, 'b> vstd::std_specs::convert::FromSpecImpl<(&'a str, &'b str)> for Payload {
    open spec fn obeys_from_spec() -> bool {
        false
    }

    open spec fn from_spec(values: (&'a str, &'b str)) -> Payload {
        vstd::pervasive::arbitrary()
    }
}

} // verus!
