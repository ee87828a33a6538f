use dcf_networking::message::{send_message, DcfMessage};

fn reply_to(payload: &str) -> String {
    send_message(DcfMessage::new(payload)).data
}

#[test]
fn echo_reply_for_hi() {
    assert_eq!(reply_to("hi"), "Echo: hi");
}

#[test]
fn echo_reply_for_ping() {
    assert_eq!(reply_to("ping"), "Echo: ping");
}

#[test]
fn echo_reply_for_empty_payload() {
    assert_eq!(reply_to(""), "Echo: ");
}

#[test]
fn echo_reply_keeps_control_and_unicode() {
    assert_eq!(reply_to("a\tb\n\u{0}é日本"), "Echo: a\tb\n\u{0}é日本");
}

#[test]
fn echo_reply_is_repeatable() {
    let m = DcfMessage::new("same");
    let first = send_message(m.clone()).data;
    let second = send_message(m).data;
    assert_eq!(first, second);
    assert_eq!(first, "Echo: same");
}

#[test]
fn echo_replies_do_not_mix() {
    let a = reply_to("alpha");
    let b = reply_to("beta");
    assert_ne!(a, b);
    assert_eq!(a, "Echo: alpha");
    assert_eq!(b, "Echo: beta");
}

#[test]
fn default_message_is_empty() {
    let m = DcfMessage::default();
    assert_eq!(m.data, "");
}
