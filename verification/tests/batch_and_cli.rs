use choragos::args::{select_cli_target, RunPlanArgs, RunTarget, TargetError};
use choragos::cerebrum::{
    check_reply, find_plan, ids_from_reply, ids_to_forget, plan_from_reply, plan_scope, RecallEntry,
};
use choragos::change::{default_required, repo_name_from_workspace};
use choragos::error::CoreError;
use choragos::failure::FailureClass;
use choragos::ledger::{default_schema_version, jsonl_line, worst_exit_code, LedgerRecord, CURRENT_SCHEMA_VERSION};
use choragos::runner::{commit_count, executor_exit_code, pr_url_from, telegram_credentials, telegram_endpoint};

fn make_record(failure_class: FailureClass) -> LedgerRecord {
    LedgerRecord {
        run_id: "run-1".to_string(),
        plan_id: "plan-1".to_string(),
        repo: "repo".to_string(),
        branch: "feat/x".to_string(),
        profile: "default".to_string(),
        exit_code: 0,
        attempts: 1,
        failure_class,
        base_sha: "abc".to_string(),
        head_sha: "def".to_string(),
        commits_ahead: 1,
        pr_url: None,
        reason: None,
        started_at: "2024-01-01T00:00:00Z".to_string(),
        finished_at: "2024-01-01T00:01:00Z".to_string(),
        schema_version: 3,
        change_id: None,
    }
}

#[test]
fn empty_slice_is_red() {
    assert_eq!(worst_exit_code(&[]), 2);
}

#[test]
fn single_green_record_is_zero() {
    let records = [make_record(FailureClass::Green)];
    assert_eq!(worst_exit_code(&records), 0);
}

#[test]
fn single_orange_record_is_one() {
    let records = [make_record(FailureClass::Orange)];
    assert_eq!(worst_exit_code(&records), 1);
}

#[test]
fn single_red_record_is_two() {
    let records = [make_record(FailureClass::Red)];
    assert_eq!(worst_exit_code(&records), 2);
}

#[test]
fn worst_of_mixed_batch_wins() {
    let records = [make_record(FailureClass::Green), make_record(FailureClass::Orange)];
    assert_eq!(worst_exit_code(&records), 1);
}

#[test]
fn red_beats_everything() {
    let records = [
        make_record(FailureClass::Green),
        make_record(FailureClass::Orange),
        make_record(FailureClass::Red),
    ];
    assert_eq!(worst_exit_code(&records), 2);
}

#[test]
fn worst_does_not_depend_on_order() {
    let records = [
        make_record(FailureClass::Red),
        make_record(FailureClass::Green),
        make_record(FailureClass::Orange),
    ];
    assert_eq!(worst_exit_code(&records), 2);
    let records = [make_record(FailureClass::Orange), make_record(FailureClass::Green)];
    assert_eq!(worst_exit_code(&records), 1);
}

#[test]
fn cli_definition_is_valid() {
    assert!(matches!(
        select_cli_target(Some("p".to_string()), None),
        Ok(RunTarget::Plan { plan_ref }) if plan_ref == "p"
    ));
    assert!(matches!(
        select_cli_target(None, Some("c".to_string())),
        Ok(RunTarget::Change { change_ref }) if change_ref == "c"
    ));
}

#[test]
fn requires_plan_ref_or_change_ref() {
    assert!(select_cli_target(None, None).is_err());
}

#[test]
fn plan_ref_and_change_ref_are_mutually_exclusive() {
    assert!(matches!(
        select_cli_target(Some("p".to_string()), Some("c".to_string())),
        Err(TargetError::Conflict)
    ));
}

#[test]
fn tool_target_defaults_to_plan_md_and_refuses_both() {
    let args = RunPlanArgs { plan_path: None, change_ref: None, profile: None, slug: None };
    assert!(matches!(args.target(), Ok(RunTarget::Plan { plan_ref }) if plan_ref == "PLAN.md"));
    let args = RunPlanArgs {
        plan_path: Some("x.md".to_string()),
        change_ref: Some("c".to_string()),
        profile: None,
        slug: None,
    };
    assert!(matches!(args.target(), Err(TargetError::Conflict)));
    let args = RunPlanArgs { plan_path: None, change_ref: Some("c".to_string()), profile: None, slug: None };
    assert!(matches!(args.target(), Ok(RunTarget::Change { change_ref }) if change_ref == "c"));
}

#[test]
fn repo_names_follow_path_file_name() {
    for (path, name) in [
        ("/repo-a", "repo-a"),
        ("/work/repo-b/", "repo-b"),
        ("repo-c/.", "repo-c"),
        ("/", "unknown"),
        ("", "unknown"),
        ("a/..", "unknown"),
        (".", "unknown"),
        ("a//b//", "b"),
    ] {
        assert_eq!(repo_name_from_workspace(path), name, "{path:?}");
        let expected = std::path::Path::new(path)
            .file_name()
            .and_then(|n| n.to_str())
            .unwrap_or("unknown");
        assert_eq!(repo_name_from_workspace(path), expected, "{path:?}");
    }
}

#[test]
fn manifest_defaults() {
    assert!(default_required());
    assert_eq!(default_schema_version(), 1);
    assert_eq!(CURRENT_SCHEMA_VERSION, 3);
}

#[test]
fn jsonl_line_appends_one_newline() {
    assert_eq!(jsonl_line("{\"a\":1}"), "{\"a\":1}\n");
}

fn entry(id: Option<&str>, scope: Option<&str>, content: Option<&str>) -> RecallEntry {
    RecallEntry {
        id: id.map(str::to_string),
        scope: scope.map(str::to_string),
        content: content.map(str::to_string),
    }
}

#[test]
fn find_plan_picks_the_exact_scope_entry() {
    let entries = vec![
        entry(Some("g1"), Some("global"), Some("NOISE global body")),
        entry(Some("p1"), Some("plan:abc"), Some("# Real Plan\nbody")),
    ];
    assert_eq!(plan_scope("abc"), "plan:abc");
    let body = find_plan(&entries, "abc").expect("find_plan");
    assert!(body.contains("Real Plan"));
}

#[test]
fn find_plan_with_only_global_results_is_not_found() {
    let entries = vec![entry(Some("g1"), Some("global"), Some("global only"))];
    match find_plan(&entries, "abc") {
        Err(CoreError::NotFound(msg)) => assert_eq!(msg, "plan_ref 'abc'"),
        other => panic!("unexpected result: {other:?}"),
    }
}

#[test]
fn cleanup_forgets_each_id_in_order() {
    let entries = vec![
        entry(Some("s1"), Some("session:abc:123"), Some("n")),
        entry(None, Some("session:abc:123"), Some("n")),
        entry(Some("s2"), Some("session:abc:123"), Some("n")),
    ];
    assert_eq!(ids_to_forget(&entries), vec!["s1".to_string(), "s2".to_string()]);
}

#[test]
fn runner_output_readers() {
    assert_eq!(commit_count(" 12\n"), 12);
    assert_eq!(commit_count(""), 0);
    assert_eq!(commit_count("x"), 0);
    assert_eq!(pr_url_from("  https://u/1\n").as_deref(), Some("https://u/1"));
    assert_eq!(pr_url_from(" \n"), None);
    assert_eq!(executor_exit_code(Some(2)), 2);
    assert_eq!(executor_exit_code(None), 3);
    assert_eq!(telegram_endpoint("T"), "https://api.telegram.org/botT/sendMessage");
    assert!(telegram_credentials(&Some("t".to_string()), &None).is_none());
    assert_eq!(
        telegram_credentials(&Some("t".to_string()), &Some("c".to_string())),
        Some(("t".to_string(), "c".to_string()))
    );
}

#[test]
fn session_ids_carry_plan_and_nanos() {
    let id = choragos::cerebrum::new_session_id("abc");
    assert!(id.starts_with("session:abc:"), "{id}");
    let nanos = &id["session:abc:".len()..];
    assert!(!nanos.is_empty() && nanos.chars().all(|c| c.is_ascii_digit() || c == '-'), "{id}");
    assert_eq!(choragos::orchestrator::run_id_from_session(&id), format!("run-{nanos}"));
    let id = choragos::cerebrum::new_session_id("plan:x:y");
    let nanos = &id["session:plan:x:y:".len()..];
    assert_eq!(choragos::orchestrator::run_id_from_session(&id), format!("run-{nanos}"));
}

// ── cerebrum replies ─────────────────────────────────────────────────────

#[test]
fn plan_from_reply_takes_the_exact_plan_scope() {
    let reply = r##"{"success":true,"count":2,"results":[
        {"id":"g1","content":"NOISE global body","scope":"global"},
        {"id":"p1","content":"# Real Plan\nbody","scope":"plan:abc"}]}"##;
    assert_eq!(plan_from_reply(reply, "abc").unwrap(), "# Real Plan\nbody");
}

#[test]
fn plan_from_reply_with_only_global_result_is_not_found() {
    let reply = r#"{"results":[{"id":"g1","content":"global only","scope":"global"}]}"#;
    match plan_from_reply(reply, "abc") {
        Err(CoreError::NotFound(what)) => assert_eq!(what, "plan_ref 'abc'"),
        other => panic!("unexpected result: {other:?}"),
    }
}

#[test]
fn plan_from_reply_without_results_is_not_found() {
    assert!(matches!(plan_from_reply(r#"{"success":true}"#, "abc"), Err(CoreError::NotFound(_))));
    assert!(matches!(plan_from_reply(r#"{"results":"nope"}"#, "abc"), Err(CoreError::NotFound(_))));
}

#[test]
fn plan_from_reply_rejects_text_that_is_not_json() {
    assert!(matches!(plan_from_reply("not json", "abc"), Err(CoreError::Json(_))));
}

#[test]
fn ids_from_reply_lists_string_ids_in_order() {
    let reply = r#"{"results":[
        {"id":"s1","content":"n","scope":"session:abc:123"},
        {"id":7,"content":"n","scope":"session:abc:123"},
        {"id":"s2","content":"n","scope":"session:abc:123"}]}"#;
    assert_eq!(ids_from_reply(reply).unwrap(), vec!["s1".to_string(), "s2".to_string()]);
    assert!(ids_from_reply(r#"{"success":true}"#).unwrap().is_empty());
    assert!(matches!(ids_from_reply("{"), Err(CoreError::Json(_))));
}

#[test]
fn check_reply_accepts_json_only() {
    assert!(check_reply(r#"{"success":true,"memory_id":"mem-1"}"#).is_ok());
    assert!(matches!(check_reply("oops"), Err(CoreError::Json(_))));
}
