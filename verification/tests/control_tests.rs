use shadow_core::chat::{
    chat_input, chat_start, python_launch_command, ChatAction, ChatHistory, ChatInput, ChatSession, ChatStart,
};
use shadow_core::doctor::{
    configured_model_file, count_problems, doctor_exit_code, keystore_status, model_file_status,
    quick_check_status, CheckStatus,
};
use shadow_core::export::{export_audit_action, export_exit_code, export_file_name, export_outcome, export_path, ExportOutcome};
use shadow_core::json::JsonValue;
use shadow_core::migration::{migration_plan, password_columns_needed, MigrationPlan};

#[test]
fn migration_plan_by_version() {
    assert_eq!(migration_plan(None), MigrationPlan { apply_v1: true, apply_v2: true });
    assert_eq!(migration_plan(Some(0)), MigrationPlan { apply_v1: true, apply_v2: true });
    assert_eq!(migration_plan(Some(1)), MigrationPlan { apply_v1: false, apply_v2: true });
    assert_eq!(migration_plan(Some(2)), MigrationPlan { apply_v1: false, apply_v2: false });
    assert_eq!(migration_plan(Some(7)), MigrationPlan { apply_v1: false, apply_v2: false });
}

#[test]
fn migration_v2_columns_once() {
    assert!(password_columns_needed(0));
    assert!(!password_columns_needed(1));
}

#[test]
fn export_file_and_path() {
    assert_eq!(export_file_name("abc"), "export-abc.json");
    let p = export_path(std::path::Path::new("/data/shadow"), "abc");
    assert_eq!(p, std::path::PathBuf::from("/data/shadow/export-abc.json"));
}

#[test]
fn export_control() {
    assert_eq!(export_outcome(true, true), ExportOutcome::Written);
    assert_eq!(export_outcome(true, false), ExportOutcome::Denied);
    assert_eq!(export_outcome(false, true), ExportOutcome::SessionNotFound);
    assert_eq!(export_audit_action(ExportOutcome::Written).as_deref(), Some("export"));
    assert_eq!(export_audit_action(ExportOutcome::Denied).as_deref(), Some("export.denied"));
    assert_eq!(export_audit_action(ExportOutcome::SessionNotFound), None);
    assert_eq!(export_exit_code(ExportOutcome::Written), 0);
    assert_eq!(export_exit_code(ExportOutcome::Denied), 1);
    assert_eq!(export_exit_code(ExportOutcome::SessionNotFound), 1);
}

fn caps(members: Vec<(&str, JsonValue)>) -> JsonValue {
    JsonValue::Object(members.into_iter().map(|(k, v)| (k.to_string(), v)).collect())
}

#[test]
fn configured_model_file_needs_both_strings() {
    let c = caps(vec![
        ("weights_path", JsonValue::String("/m/model.bin".into())),
        ("sha256", JsonValue::String("ab12".into())),
    ]);
    assert_eq!(
        configured_model_file(&c),
        Some((std::path::PathBuf::from("/m/model.bin"), "ab12".to_string()))
    );
    let c = caps(vec![("note", JsonValue::String("via shadow_ai Prozess".into()))]);
    assert_eq!(configured_model_file(&c), None);
    let c = caps(vec![
        ("weights_path", JsonValue::String("/m/model.bin".into())),
        ("sha256", JsonValue::Number("12".into())),
    ]);
    assert_eq!(configured_model_file(&c), None);
    assert_eq!(configured_model_file(&JsonValue::Null), None);
    assert_eq!(configured_model_file(&JsonValue::String("weights_path".into())), None);
}

#[test]
fn doctor_verdicts() {
    assert_eq!(quick_check_status(Some("ok")), CheckStatus::Pass);
    assert_eq!(quick_check_status(Some("*** in database main ***")), CheckStatus::Fail);
    assert_eq!(quick_check_status(None), CheckStatus::Fail);
    assert_eq!(keystore_status(Some(true)), CheckStatus::Pass);
    assert_eq!(keystore_status(Some(false)), CheckStatus::Warn);
    assert_eq!(keystore_status(None), CheckStatus::Fail);
    assert_eq!(model_file_status(true, Some("ab"), "ab"), CheckStatus::Pass);
    assert_eq!(model_file_status(true, Some("ab"), "AB"), CheckStatus::Fail);
    assert_eq!(model_file_status(false, Some("ab"), "ab"), CheckStatus::Fail);
    assert_eq!(model_file_status(true, None, "ab"), CheckStatus::Fail);
}

#[test]
fn doctor_counts_problems() {
    let all_ok = vec![CheckStatus::Pass, CheckStatus::Pass];
    assert_eq!(count_problems(&all_ok), 0);
    assert_eq!(doctor_exit_code(count_problems(&all_ok)), 0);
    let some = vec![CheckStatus::Pass, CheckStatus::Warn, CheckStatus::Fail, CheckStatus::Pass];
    assert_eq!(count_problems(&some), 2);
    assert_eq!(doctor_exit_code(count_problems(&some)), 1);
    assert_eq!(count_problems(&vec![]), 0);
}

#[test]
fn chat_adapter_choice() {
    assert_eq!(chat_start(true, "stub"), ChatStart::Stub);
    assert_eq!(chat_start(true, "python-echo"), ChatStart::PythonEcho);
    assert_eq!(chat_start(true, "llama"), ChatStart::UnsupportedAdapter);
    assert_eq!(chat_start(false, "stub"), ChatStart::ModelNotEnabled);
}

#[test]
fn chat_input_lines() {
    assert!(matches!(chat_input(0, ""), ChatInput::Stop));
    assert!(matches!(chat_input(1, "\n"), ChatInput::Stop));
    assert!(matches!(chat_input(7, "/exit\n"), ChatInput::Stop));
    assert!(matches!(chat_input(9, "  /exit \n"), ChatInput::Stop));
    match chat_input(12, "  hallo du\t\n") {
        ChatInput::Send(t) => assert_eq!(t, "hallo du"),
        ChatInput::Stop => panic!("stopped"),
    }
    match chat_input(8, "/exitus\n") {
        ChatInput::Send(t) => assert_eq!(t, "/exitus"),
        ChatInput::Stop => panic!("stopped"),
    }
    match chat_input(6, "\u{3000}x\u{a0}\n") {
        ChatInput::Send(t) => assert_eq!(t, "x"),
        ChatInput::Stop => panic!("stopped"),
    }
}

#[test]
fn python_launch() {
    let cmd = python_launch_command("/opt/shadow-ai");
    assert_eq!(cmd.len(), 3);
    assert_eq!(cmd[0], "python3");
    assert_eq!(cmd[1], "-c");
    assert_eq!(
        cmd[2],
        "import sys, runpy; sys.path.insert(0, \"/opt/shadow-ai\"); runpy.run_module('shadow_ai', run_name='__main__')"
    );
    let cmd = python_launch_command("a\"b");
    assert_eq!(
        cmd[2],
        "import sys, runpy; sys.path.insert(0, \"a\\\"b\"); runpy.run_module('shadow_ai', run_name='__main__')"
    );
}

#[test]
fn chat_history_alternates() {
    let mut h = ChatHistory::new();
    assert_eq!(h.len(), 0);
    h.push_user("hallo");
    h.push_assistant("Hallo zurück");
    h.push_user("wie geht's?");
    let m = h.messages();
    assert_eq!(m.len(), 3);
    assert_eq!((m[0].role.as_str(), m[0].content.as_str()), ("user", "hallo"));
    assert_eq!((m[1].role.as_str(), m[1].content.as_str()), ("assistant", "Hallo zurück"));
    assert_eq!((m[2].role.as_str(), m[2].content.as_str()), ("user", "wie geht's?"));
}

#[test]
fn chat_session_turns() {
    let mut s = ChatSession::new();
    match s.on_line(8, "  hallo\n") {
        ChatAction::SendUser { content } => assert_eq!(content, "hallo"),
        other => panic!("{other:?}"),
    }
    assert_eq!(s.history().len(), 1);
    match s.on_reply("Hallo zurück", "Stop") {
        ChatAction::StoreReply { content, finish_reason } => {
            assert_eq!(content, "Hallo zurück");
            assert_eq!(finish_reason, "Stop");
        }
        other => panic!("{other:?}"),
    }
    let m = s.history().messages();
    assert_eq!(m.len(), 2);
    assert_eq!(m[0].role, "user");
    assert_eq!(m[1].role, "assistant");
    assert!(matches!(s.on_line(6, "/exit\n"), ChatAction::Stop));
    assert!(matches!(s.on_line(0, ""), ChatAction::Stop));
    assert_eq!(s.history().len(), 2);
}
