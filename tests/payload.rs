use pylon_web::payload::{Payload, Timestamp};

use sha256::digest;
use unic_segment::Graphemes;

const HELLO_DIGEST: &str = "64ec88ca00b268e5ba1a35678a1b5316d212f4f366b2477232534a8aeca37f3c";

/// Tests if a Payload can be created from a (&str, &str).
#[test]
fn test_payload_from() {
    let msg = "Hello world";
    let code = "1-hello-world";

    let payload = Payload {
        message: Some(msg.into()),
        length: Some(Graphemes::new(msg).count()),
        code: code.into(),
        time: None,
        checksum: Some(digest(msg)),
    };
    let derived_payload = Payload::from((msg, code));

    assert_eq!(payload.message, derived_payload.message);
    assert_eq!(payload.code, derived_payload.code);
    assert_eq!(payload.length, derived_payload.length);
}

/// Tests whether a (&str, &str) can be converted to a Payload.
#[test]
fn test_tuple_into() {
    let msg = "Hello world";
    let code = "1-hello-world";

    let payload = Payload {
        message: Some(msg.into()),
        length: Some(Graphemes::new(msg).count()),
        code: code.into(),
        time: None,
        checksum: Some(digest(msg)),
    };
    let derived_payload: Payload = (msg, code).into();

    assert_eq!(payload.message, derived_payload.message);
    assert_eq!(payload.code, derived_payload.code);
    assert_eq!(payload.length, derived_payload.length);
}

#[test]
fn construct_derives_length_and_checksum() {
    let p = Payload::construct("Hello world", "7-crossover-clockwork");
    assert_eq!(p.message.as_deref(), Some("Hello world"));
    assert_eq!(p.length, Some(11));
    assert_eq!(p.checksum.as_deref(), Some(HELLO_DIGEST));
    assert_eq!(p.code, "7-crossover-clockwork");
    assert_eq!(p.time, None);
}

#[test]
fn construct_counts_grapheme_clusters_not_chars() {
    // "e" followed by a combining acute accent is one user-perceived character.
    let p = Payload::construct("e\u{301}t\u{e9}", "3-x");
    assert_eq!(p.length, Some(3));
    let family = Payload::construct("\u{1F468}\u{200D}\u{1F469}\u{200D}\u{1F467}", "3-x");
    assert_eq!(family.length, Some(1));
}

#[test]
fn construct_empty_message() {
    let p = Payload::construct("", "3-x");
    assert_eq!(p.length, Some(0));
    assert_eq!(
        p.checksum.as_deref(),
        Some("e3b0c44298fc1c149afbf4c8996fb92427ae41e4649b934ca495991b7852b855")
    );
}

#[test]
fn construct_is_deterministic() {
    let a = Payload::construct("Hello world", "4-a-b");
    let b = Payload::construct("Hello world", "4-a-b");
    assert_eq!(a.message, b.message);
    assert_eq!(a.length, b.length);
    assert_eq!(a.code, b.code);
    assert_eq!(a.time, b.time);
    assert_eq!(a.checksum, b.checksum);
    assert!(a == b);
}

#[test]
fn equality_ignores_time_only() {
    let a = Payload::construct("Hello world", "4-a-b");
    let mut b = a.duplicate();
    b.stamp_for_send(Timestamp { secs: 17, nanos: 5 });
    assert!(a == b);
    let c = Payload::construct("Hello world", "4-a-c");
    assert!(a != c);
    let d = Payload::construct("Hello there", "4-a-b");
    assert!(a != d);
}

#[test]
fn refresh_overwrites_caller_values() {
    let mut p = Payload {
        message: Some("Hello world".to_string()),
        length: Some(99),
        code: "5-q".to_string(),
        time: None,
        checksum: Some("bogus".to_string()),
    };
    p.refresh_derived_fields();
    assert_eq!(p.length, Some(11));
    assert_eq!(p.checksum.as_deref(), Some(HELLO_DIGEST));

    let mut q = Payload {
        message: None,
        length: Some(4),
        code: "5-q".to_string(),
        time: None,
        checksum: Some("bogus".to_string()),
    };
    q.refresh_derived_fields();
    assert_eq!(q.length, None);
    assert_eq!(q.checksum, None);
}
