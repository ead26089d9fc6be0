//! Export control: where an export is written, whether it is allowed, and
//! which audit event each attempt leaves.

use vstd::prelude::*;
use vstd::string::StringExecFns;

verus! {

#[verifier::external_type_specification]
#[verifier::external_body]
pub struct ExPath(std::path::Path);

#[verifier::external_type_specification]
#[verifier::external_body]
pub struct ExPathBuf(std::path::PathBuf);

/// The path that `Path::join` makes of `base` and the relative `name`.
pub uninterp spec fn joined_path(base: &std::path::Path, name: Seq<char>) -> std::path::PathBuf;

/// `Path::join`: `name` adjoined to `base`.
#[verifier::external_body]
fn path_join(base: &std::path::Path, name: &str) -> (res: std::path::PathBuf)
    ensures
        res == joined_path(base, name@),
{
    base.join(name)
}

/// The path that `PathBuf::from` makes of a text.
pub uninterp spec fn path_from_text(text: Seq<char>) -> std::path::PathBuf;

/// `PathBuf::from(String)`: the path spelled by `text`.
#[verifier::external_body]
pub(crate) fn path_buf_from(text: String) -> (res: std::path::PathBuf)
    ensures
        res == path_from_text(text@),
{
    std::path::PathBuf::from(text)
}

/// The file name of the export of a session: `export-<session_id>.json`.
pub open spec fn export_file_name_spec(session_id: Seq<char>) -> Seq<char> {
    seq!['e', 'x', 'p', 'o', 'r', 't', '-'] + session_id + seq!['.', 'j', 's', 'o', 'n']
}

/// The file name of the export of `session_id`.
pub fn export_file_name(session_id: &str) -> (name: String)
    ensures
        name@ == export_file_name_spec(session_id@),
        name@.len() == session_id@.len() + 12,
        name@.subrange(0, 7) == "export-"@,
        name@.subrange(7, 7 + session_id@.len() as int) == session_id@,
        name@.subrange(7 + session_id@.len() as int, name@.len() as int) == ".json"@,
{
    let mut name = String::from_str("export-");
    name.append(session_id);
    name.append(".json");
    proof {
        reveal_strlit("export-");
        reveal_strlit(".json");
    }
    assert(name@ =~= export_file_name_spec(session_id@));
    proof {
        lemma_export_file_name_holds_whole_id(session_id@);
    }
    name
}

/// The export file name of a session is `export-`, then the whole session
/// id, then `.json`, for every session id: twelve characters more than the
/// id, which stands unchanged at positions 7 onward.
pub proof fn lemma_export_file_name_holds_whole_id(session_id: Seq<char>)
    ensures
        export_file_name_spec(session_id).len() == session_id.len() + 12,
        export_file_name_spec(session_id).subrange(0, 7) == "export-"@,
        export_file_name_spec(session_id).subrange(7, 7 + session_id.len() as int) == session_id,
        export_file_name_spec(session_id).subrange(7 + session_id.len() as int, session_id.len() + 12 as int) == ".json"@,
{
    reveal_strlit("export-");
    reveal_strlit(".json");
    let n = export_file_name_spec(session_id);
    assert(n.subrange(0, 7) =~= "export-"@);
    assert(n.subrange(7, 7 + session_id.len() as int) =~= session_id);
    assert(n.subrange(7 + session_id.len() as int, session_id.len() + 12 as int) =~= ".json"@);
}

/// Two sessions never share an export file: distinct session ids give
/// distinct export file names.
pub proof fn lemma_export_file_names_distinct(a: Seq<char>, b: Seq<char>)
    requires
        a != b,
    ensures
        export_file_name_spec(a) != export_file_name_spec(b),
{
    lemma_export_file_name_holds_whole_id(a);
    lemma_export_file_name_holds_whole_id(b);
    if export_file_name_spec(a) == export_file_name_spec(b) {
        assert(a.len() == b.len());
        assert(a =~= b);
    }
}

/// Where the export of `session_id` is written: its file name inside `data_dir`.
pub fn export_path(data_dir: &std::path::Path, session_id: &str) -> (path: std::path::PathBuf)
    ensures
        path == joined_path(data_dir, export_file_name_spec(session_id@)),
{
    let name = export_file_name(session_id);
    path_join(data_dir, name.as_str())
}


/// The outcome of an export request.
#[derive(Debug, Clone, Copy, PartialEq, Eq, Structural)]
pub enum ExportOutcome {
    /// The session does not exist: nothing is written or audited.
    SessionNotFound,
    /// The session's model does not allow export: the refusal is audited.
    Denied,
    /// The export is written, then audited.
    Written,
}

/// What an export request does for a session that was found or not, whose
/// model allows export or not.
pub open spec fn export_outcome_spec(session_found: bool, export_allowed: bool) -> ExportOutcome {
    if !session_found {
        ExportOutcome::SessionNotFound
    } else if export_allowed {
        ExportOutcome::Written
    } else {
        ExportOutcome::Denied
    }
}

/// The audit action that an outcome records, if any.
pub open spec fn audit_action_spec(outcome: ExportOutcome) -> Option<Seq<char>> {
    match outcome {
        ExportOutcome::SessionNotFound => None,
        ExportOutcome::Denied => Some("export.denied"@),
        ExportOutcome::Written => Some("export"@),
    }
}

/// The process exit code after an outcome.
pub open spec fn exit_code_spec(outcome: ExportOutcome) -> i32 {
    match outcome {
        ExportOutcome::Written => 0,
        _ => 1,
    }
}

/// Export control: a session's messages are exported only where its model
/// has `export_allowed`.
pub fn export_outcome(session_found: bool, export_allowed: bool) -> (outcome: ExportOutcome)
    ensures
        outcome == export_outcome_spec(session_found, export_allowed),
{
    if !session_found {
        ExportOutcome::SessionNotFound
    } else if export_allowed {
        ExportOutcome::Written
    } else {
        ExportOutcome::Denied
    }
}

/// The audit action recorded for an outcome: `export.denied` for a refusal,
/// `export` for a written export, none where the session was not found.
pub fn export_audit_action(outcome: ExportOutcome) -> (action: Option<String>)
    ensures
        match audit_action_spec(outcome) {
            Some(a) => action matches Some(s) && s@ == a,
            None => action is None,
        },
{
    match outcome {
        ExportOutcome::SessionNotFound => None,
        ExportOutcome::Denied => Some(String::from_str("export.denied")),
        ExportOutcome::Written => Some(String::from_str("export")),
    }
}

/// The exit code of the export command after an outcome: 0 only once written.
pub fn export_exit_code(outcome: ExportOutcome) -> (code: i32)
    ensures
        code == exit_code_spec(outcome),
{
    match outcome {
        ExportOutcome::Written => 0,
        _ => 1,
    }
}

/// Export control: for an existing session, the export is written exactly
/// when its model allows export, and every attempt, written or refused, is
/// audited under its own action; the command succeeds only once written.
pub proof fn lemma_export_control(export_allowed: bool)
    ensures
        (export_outcome_spec(true, export_allowed) == ExportOutcome::Written) == export_allowed,
        audit_action_spec(export_outcome_spec(true, export_allowed)) is Some,
        audit_action_spec(export_outcome_spec(true, true)) != audit_action_spec(export_outcome_spec(true, false)),
        (exit_code_spec(export_outcome_spec(true, export_allowed)) == 0) == export_allowed,
        export_outcome_spec(false, export_allowed) == ExportOutcome::SessionNotFound,
{
    reveal_strlit("export");
    reveal_strlit("export.denied");
    assert("export"@.len() != "export.denied"@.len());
}

} // verus!
