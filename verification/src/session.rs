//! The records of the session store: sessions, their messages and audit
//! events, as the store writes them and reads them back.

use vstd::prelude::*;
use vstd::utf8::{valid_utf8, decode_utf8, encode_utf8};
use crate::ident::{is_v4_uuid_text, new_id};

verus! {

/// One message of a session, with its content in clear text.
#[derive(Debug, Clone)]
pub struct Message {
    pub id: String,
    pub session_id: String,
    pub role: String,
    pub content: String,
    pub finish_reason: Option<String>,
    pub created_at: i64,
}

/// The metadata of a session.
#[derive(Debug, Clone)]
pub struct SessionMeta {
    pub id: String,
    pub user_id: String,
    pub title: String,
    pub model_id: String,
    pub created_at: i64,
    pub updated_at: i64,
}

/// A message row as the store writes it: the content only in sealed form.
#[derive(Debug)]
pub struct MessageRow {
    pub id: String,
    pub session_id: String,
    pub role: String,
    pub content_enc: Vec<u8>,
    /// Whether `content_enc` holds clear text; only stub and debug data do.
    pub content_plain: i64,
    pub finish_reason: Option<String>,
    pub created_at: i64,
}

/// An audit event (administrative actions such as exports).
#[derive(Debug)]
pub struct AuditEvent {
    pub id: String,
    pub timestamp: i64,
    pub actor: String,
    pub action: String,
    pub target: String,
    pub detail_json: String,
}

#[verifier::external_type_specification]
#[verifier::external_body]
pub struct ExFromUtf8Error(std::string::FromUtf8Error);

/// The text that `bytes` encode, if they are valid UTF-8.
pub open spec fn utf8_text(bytes: Seq<u8>) -> Option<Seq<char>> {
    if valid_utf8(bytes) {
        Some(decode_utf8(bytes))
    } else {
        None
    }
}

/// `String::from_utf8`: the text of `bytes` where they are valid UTF-8, the
/// error otherwise.
#[verifier::external_body]
fn string_from_utf8(bytes: Vec<u8>) -> (res: Result<String, std::string::FromUtf8Error>)
    ensures
        res is Ok <==> valid_utf8(bytes@),
        res matches Ok(s) ==> s@ == decode_utf8(bytes@),
{
    String::from_utf8(bytes)
}

fn opt_to_owned(s: Option<&str>) -> (res: Option<String>)
    ensures
        match s {
            Some(t) => res matches Some(r) && r@ == t@,
            None => res is None,
        },
{
    match s {
        Some(t) => Some(t.to_owned()),
        None => None,
    }
}

/// The session row that `create_session` inserts for `user_id`, `model_id`
/// and `title` at time `now`: a fresh id, and both timestamps `now`.
pub fn session_row(user_id: &str, model_id: &str, title: &str, now: i64) -> (row: SessionMeta)
    ensures
        is_v4_uuid_text(row.id@),
        row.user_id@ == user_id@,
        row.title@ == title@,
        row.model_id@ == model_id@,
        row.created_at == now,
        row.updated_at == now,
{
    let id = new_id();
    SessionMeta {
        id,
        user_id: user_id.to_owned(),
        title: title.to_owned(),
        model_id: model_id.to_owned(),
        created_at: now,
        updated_at: now,
    }
}

/// The message row that `append_message` inserts at time `now`: a fresh id,
/// the sealed content as given (never marked as clear text), and `now` as its
/// creation time, which also becomes the session's `updated_at`.
pub fn message_row(
    session_id: &str,
    role: &str,
    content_enc: Vec<u8>,
    finish_reason: Option<&str>,
    now: i64,
) -> (row: MessageRow)
    ensures
        is_v4_uuid_text(row.id@),
        row.session_id@ == session_id@,
        row.role@ == role@,
        row.content_enc@ == content_enc@,
        row.content_plain == 0,
        match finish_reason {
            Some(f) => row.finish_reason matches Some(r) && r@ == f@,
            None => row.finish_reason is None,
        },
        row.created_at == now,
{
    let id = new_id();
    MessageRow {
        id,
        session_id: session_id.to_owned(),
        role: role.to_owned(),
        content_enc,
        content_plain: 0,
        finish_reason: opt_to_owned(finish_reason),
        created_at: now,
    }
}

/// The message that a stored row gives back once its content is opened:
/// the opened bytes must be UTF-8 text, else the UTF-8 error comes back.
pub fn message_from_row(
    id: String,
    session_id: String,
    role: String,
    content: Vec<u8>,
    finish_reason: Option<String>,
    created_at: i64,
) -> (res: Result<Message, std::string::FromUtf8Error>)
    ensures
        res is Ok <==> utf8_text(content@) is Some,
        res matches Ok(m) ==> {
            &&& utf8_text(content@) == Some(m.content@)
            &&& m.id == id
            &&& m.session_id == session_id
            &&& m.role == role
            &&& m.finish_reason == finish_reason
            &&& m.created_at == created_at
        },
{
    let text = string_from_utf8(content)?;
    Ok(Message { id, session_id, role, content: text, finish_reason, created_at })
}

/// The bytes that are sealed for a message's content (`str::as_bytes`).
pub fn content_bytes(content: &str) -> (bytes: Vec<u8>)
    ensures
        bytes@ == encode_utf8(content@),
{
    let b: &[u8] = content.as_bytes();
    vstd::slice::slice_to_vec(b)
}

/// Reading a message back gives the content that was written: the bytes
/// that are sealed for a content are valid UTF-8 and decode to that content.
pub proof fn lemma_content_roundtrip(content: Seq<char>)
    ensures
        utf8_text(encode_utf8(content)) == Some(content),
{
    vstd::utf8::encode_utf8_valid_utf8(content);
    vstd::utf8::encode_utf8_decode_utf8(content);
}

/// The audit event that `audit` inserts at time `now`: a fresh id and `now`
/// as its timestamp, with the given actor, action, target and serialized detail.
pub fn audit_event(actor: &str, action: &str, target: &str, detail_json: String, now: i64) -> (ev: AuditEvent)
    ensures
        is_v4_uuid_text(ev.id@),
        ev.timestamp == now,
        ev.actor@ == actor@,
        ev.action@ == action@,
        ev.target@ == target@,
        ev.detail_json == detail_json,
{
    let id = new_id();
    AuditEvent {
        id,
        timestamp: now,
        actor: actor.to_owned(),
        action: action.to_owned(),
        target: target.to_owned(),
        detail_json,
    }
}

} // verus!
