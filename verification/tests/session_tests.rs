use shadow_core::session::{audit_event, content_bytes, message_from_row, message_row, session_row};

#[test]
fn session_row_as_inserted() {
    let row = session_row("local-admin", "stub", "CLI-Chat", 1_725_029_869);
    assert_eq!(row.id.len(), 36);
    assert_eq!(row.user_id, "local-admin");
    assert_eq!(row.title, "CLI-Chat");
    assert_eq!(row.model_id, "stub");
    assert_eq!(row.created_at, 1_725_029_869);
    assert_eq!(row.updated_at, 1_725_029_869);
}

#[test]
fn message_row_keeps_fields() {
    let row = message_row("s1", "assistant", vec![1, 2, 3], Some("Stop"), 77);
    assert_eq!(row.id.len(), 36);
    assert_eq!(row.session_id, "s1");
    assert_eq!(row.role, "assistant");
    assert_eq!(row.content_enc, vec![1, 2, 3]);
    assert_eq!(row.content_plain, 0);
    assert_eq!(row.finish_reason.as_deref(), Some("Stop"));
    assert_eq!(row.created_at, 77);
    let row = message_row("s1", "user", vec![], None, -5);
    assert_eq!(row.created_at, -5);
    assert_eq!(row.finish_reason, None);
}

#[test]
fn message_from_row_reads_utf8() {
    let m = message_from_row(
        "m1".into(),
        "s1".into(),
        "user".into(),
        "Grüße".as_bytes().to_vec(),
        None,
        42,
    )
    .unwrap();
    assert_eq!(m.content, "Grüße");
    assert_eq!(m.id, "m1");
    assert_eq!(m.session_id, "s1");
    assert_eq!(m.role, "user");
    assert_eq!(m.created_at, 42);
}

#[test]
fn message_from_row_rejects_invalid_utf8() {
    let r = message_from_row("m1".into(), "s1".into(), "user".into(), vec![0xff, 0xfe], None, 1);
    assert!(r.is_err());
    let r = message_from_row("m1".into(), "s1".into(), "user".into(), vec![0xed, 0xa0, 0x80], None, 1);
    assert!(r.is_err());
}

#[test]
fn content_roundtrip() {
    for text in ["", "hallo", "Grüße 🌍", "a\u{0}b"] {
        let bytes = content_bytes(text);
        assert_eq!(bytes, text.as_bytes());
        let m = message_from_row("i".into(), "s".into(), "user".into(), bytes, None, 0).unwrap();
        assert_eq!(m.content, text);
    }
}

#[test]
fn audit_event_fields() {
    let ev = audit_event("local-admin", "export.denied", "s1", "{\"session\":\"s1\"}".into(), 1234);
    assert_eq!(ev.id.len(), 36);
    assert_eq!(ev.actor, "local-admin");
    assert_eq!(ev.action, "export.denied");
    assert_eq!(ev.target, "s1");
    assert_eq!(ev.detail_json, "{\"session\":\"s1\"}");
    assert_eq!(ev.timestamp, 1234);
}

#[test]
fn append_then_read_back() {
    let t = 1_725_029_869;
    let row = message_row("s1", "user", content_bytes("Grüße"), None, t);
    let m = message_from_row(
        row.id.clone(),
        row.session_id.clone(),
        row.role.clone(),
        row.content_enc.clone(),
        row.finish_reason.clone(),
        row.created_at,
    )
    .unwrap();
    assert_eq!(m.id, row.id);
    assert_eq!(m.session_id, "s1");
    assert_eq!(m.role, "user");
    assert_eq!(m.content, "Grüße");
    assert_eq!(m.finish_reason, None);
    assert_eq!(m.created_at, t);
}
