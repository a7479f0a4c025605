use std::collections::VecDeque;

use choragos::change::{start_batch, BatchAction, ChangeManifest, RepoJob};
use choragos::config::Config;
use choragos::error::CoreError;
use choragos::failure::FailureClass;
use choragos::ledger::LedgerRecord;
use choragos::ledger_line::LedgerLine;
use choragos::orchestrator::{run_id_from_session, start, Action, Event, RunInputs};
use choragos::runner::Rollup;

/// A scripted stand-in for git, the executor, cerebrum and the sinks.
struct FakeRunner {
    exit_codes: VecDeque<i32>,
    plan_contents: String,
    is_on_main: bool,
    tree_clean: bool,
    local_matches_remote: bool,
    branch_exists: bool,
    branch_contains: bool,
    head_sha: String,
    commits_ahead: u32,
    post_run_tree_dirty: bool,
    clean_call_count: u32,
    create_pr_should_fail: bool,
    fetch_plan_should_fail: bool,
    cleanup_should_fail: bool,
    append_should_fail: bool,
    telegram_should_fail: bool,
    existing_pr: Option<String>,
    include_ledger_correlation: bool,
    sent_telegrams: Vec<String>,
    appended_records: Vec<LedgerRecord>,
    branch_ops: Vec<String>,
    sessions_begun: Vec<String>,
    progress_notes: Vec<(String, String)>,
    sessions_cleaned: Vec<String>,
    push_head_calls: u32,
    create_pr_calls: u32,
    run_plan_cycle_dry_run_flags: Vec<bool>,
}

impl FakeRunner {
    fn new() -> Self {
        FakeRunner {
            exit_codes: VecDeque::new(),
            plan_contents: "# Feature: test plan\n\nsome body".to_string(),
            is_on_main: true,
            tree_clean: true,
            local_matches_remote: true,
            branch_exists: false,
            branch_contains: true,
            head_sha: "sha-base".to_string(),
            commits_ahead: 1,
            post_run_tree_dirty: false,
            clean_call_count: 0,
            create_pr_should_fail: false,
            fetch_plan_should_fail: false,
            cleanup_should_fail: false,
            append_should_fail: false,
            telegram_should_fail: false,
            existing_pr: None,
            include_ledger_correlation: true,
            sent_telegrams: Vec::new(),
            appended_records: Vec::new(),
            branch_ops: Vec::new(),
            sessions_begun: Vec::new(),
            progress_notes: Vec::new(),
            sessions_cleaned: Vec::new(),
            push_head_calls: 0,
            create_pr_calls: 0,
            run_plan_cycle_dry_run_flags: Vec::new(),
        }
    }

    fn push_exit_code(&mut self, code: i32) {
        self.exit_codes.push_back(code);
    }

    fn set_exit_codes(&mut self, codes: impl IntoIterator<Item = i32>) {
        self.exit_codes.clear();
        self.exit_codes.extend(codes);
    }

    fn respond(&mut self, action: &Action) -> Event {
        match action {
            Action::GitFetch { .. } => Event::Unit(Ok(())),
            Action::CurrentBranch => Event::Text(Ok(if self.is_on_main {
                "main".to_string()
            } else {
                "other-branch".to_string()
            })),
            Action::IsWorkingTreeClean => {
                self.clean_call_count += 1;
                if self.post_run_tree_dirty && self.clean_call_count >= 2 {
                    Event::Flag(Ok(false))
                } else {
                    Event::Flag(Ok(self.tree_clean))
                }
            }
            Action::LocalMatchesRemote { .. } => Event::Flag(Ok(self.local_matches_remote)),
            Action::HeadSha => Event::Text(Ok(self.head_sha.clone())),
            Action::FetchPlan { .. } => {
                if self.fetch_plan_should_fail {
                    Event::Text(Err(CoreError::Message("fetch_plan failed (scripted)".to_string())))
                } else {
                    Event::Text(Ok(self.plan_contents.clone()))
                }
            }
            Action::BranchExists { .. } => Event::Flag(Ok(self.branch_exists)),
            Action::BranchContains { .. } => Event::Flag(Ok(self.branch_contains)),
            Action::BeginSession { plan_ref } => {
                self.sessions_begun.push(plan_ref.clone());
                Event::Text(Ok(format!("session:{plan_ref}")))
            }
            Action::CreateBranch { name } => {
                self.branch_ops.push(format!("create:{name}"));
                Event::Unit(Ok(()))
            }
            Action::SwitchBranch { name } => {
                self.branch_ops.push(format!("switch:{name}"));
                Event::Unit(Ok(()))
            }
            Action::NoteProgress { session, text } => {
                self.progress_notes.push((session.clone(), text.clone()));
                Event::Unit(Ok(()))
            }
            Action::RunPlanCycle { dry_run, .. } => {
                self.run_plan_cycle_dry_run_flags.push(*dry_run);
                let code = self.exit_codes.pop_front().unwrap_or(0);
                let rollup = if self.include_ledger_correlation {
                    Rollup {
                        exit_code: code,
                        run_id: Some("run-fake-1".to_string()),
                        ledger_path: Some("/tmp/fake-ledger.jsonl".to_string()),
                        ledger_lines: vec![LedgerLine {
                            schema_version: 1,
                            run_id: "run-fake-1".to_string(),
                            ts: "2024-01-01T00:00:00Z".to_string(),
                            kind: "run_finished".to_string(),
                            phase: None,
                            step: None,
                            op_id: None,
                            payload: serde_json::Value::Null,
                        }],
                    }
                } else {
                    Rollup { exit_code: code, run_id: None, ledger_path: None, ledger_lines: Vec::new() }
                };
                Event::Cycle(Ok(rollup))
            }
            Action::CommitsAhead { .. } => Event::Count(Ok(self.commits_ahead)),
            Action::PushHead => {
                self.push_head_calls += 1;
                Event::Unit(Ok(()))
            }
            Action::FindPr { .. } => Event::MaybeText(Ok(self.existing_pr.clone())),
            Action::CreatePr { .. } => {
                self.create_pr_calls += 1;
                if self.create_pr_should_fail {
                    Event::Text(Err(CoreError::Command {
                        context: "gh pr create".to_string(),
                        message: "aborted: you must first push the current branch to a remote"
                            .to_string(),
                    }))
                } else {
                    Event::Text(Ok("https://github.com/x/y/pull/1".to_string()))
                }
            }
            Action::AppendLedger { record } => {
                self.appended_records.push(record.duplicate());
                if self.append_should_fail {
                    Event::Unit(Err(CoreError::Io("ledger append failed (scripted)".to_string())))
                } else {
                    Event::Unit(Ok(()))
                }
            }
            Action::SendTelegram { text } => {
                self.sent_telegrams.push(text.clone());
                if self.telegram_should_fail {
                    Event::Unit(Err(CoreError::Message("telegram failed (scripted)".to_string())))
                } else {
                    Event::Unit(Ok(()))
                }
            }
            Action::CleanupSession { session } => {
                self.sessions_cleaned.push(session.clone());
                if self.cleanup_should_fail {
                    Event::Unit(Err(CoreError::Message("cleanup_session failed (scripted)".to_string())))
                } else {
                    Event::Unit(Ok(()))
                }
            }
            Action::Finish(_) => panic!("a finished run asks for nothing"),
        }
    }
}

/// Drives a run to its end against the fake.
fn run(runner: &mut FakeRunner, cfg: &Config, inputs: RunInputs) -> Result<LedgerRecord, CoreError> {
    let (mut state, mut action) = start(cfg, inputs);
    loop {
        if let Action::Finish(result) = action {
            return result;
        }
        let event = runner.respond(&action);
        assert!(state.accepts(&event), "the fake answered {action:?} with {event:?}");
        let (next_state, next_action) = state.step(event);
        state = next_state;
        action = next_action;
    }
}

/// Drives a batch to its end, with a fresh fake per repo.
fn run_multi(
    cfg: &Config,
    manifest: ChangeManifest,
    change_id: Option<&str>,
    make_runner: impl Fn(&RepoJob) -> FakeRunner,
) -> Vec<LedgerRecord> {
    run_multi_with_ledger(cfg, manifest, change_id, false, make_runner).0
}

/// Drives a batch to its end, and also gives every record appended to the
/// ledger by any of the fakes, in order.
fn run_multi_with_ledger(
    cfg: &Config,
    manifest: ChangeManifest,
    change_id: Option<&str>,
    dry_run: bool,
    make_runner: impl Fn(&RepoJob) -> FakeRunner,
) -> (Vec<LedgerRecord>, Vec<LedgerRecord>) {
    let (mut batch, mut action) = start_batch(cfg, manifest, change_id.map(str::to_string), dry_run);
    let mut ledger: Vec<LedgerRecord> = Vec::new();
    let mut last: Option<FakeRunner> = None;
    loop {
        match action {
            BatchAction::Done => {
                if let Some(runner) = last.take() {
                    ledger.extend(runner.appended_records.iter().map(LedgerRecord::duplicate));
                }
                return (batch.into_records(), ledger);
            }
            BatchAction::RunJob { job, inputs } => {
                if let Some(runner) = last.take() {
                    ledger.extend(runner.appended_records.iter().map(LedgerRecord::duplicate));
                }
                let mut runner = make_runner(&job);
                let result = run(&mut runner, cfg, inputs);
                assert!(batch.is_running());
                let (next_batch, next_action) = batch.step(result);
                batch = next_batch;
                action = next_action;
                last = Some(runner);
            }
            BatchAction::AppendLedger { record } => {
                let runner = last.as_mut().expect("an append follows a run");
                let reply = runner.respond(&Action::AppendLedger { record });
                let result = match reply {
                    Event::Unit(r) => r,
                    other => panic!("unexpected reply {other:?}"),
                };
                assert!(batch.is_appending());
                let (next_batch, next_action) = batch.appended(result);
                batch = next_batch;
                action = next_action;
            }
        }
    }
}

fn test_cfg(max_attempts: u32) -> Config {
    Config {
        ai_coding_monorepo: "/ai".to_string(),
        default_profile: "default".to_string(),
        max_attempts,
        telegram_bot_token: None,
        telegram_chat_id: None,
        cerebrum_bin: "/nix/store/xyz-cerebrum/bin/cerebrum".to_string(),
    }
}

fn test_inputs() -> RunInputs {
    RunInputs {
        workspace: "/workspace".to_string(),
        repo: "my-repo".to_string(),
        plan_ref: "plan-ref-123".to_string(),
        profile: None,
        slug_override: None,
        trunk: RunInputs::default_trunk(),
        change_id: None,
        dry_run: false,
    }
}

fn dry_inputs(dry_run: bool) -> RunInputs {
    let mut inputs = test_inputs();
    inputs.dry_run = dry_run;
    inputs
}

fn reason_of(record: &LedgerRecord) -> &str {
    record.reason.as_deref().unwrap_or("")
}

// ── run ids ──────────────────────────────────────────────────────────────

#[test]
fn run_id_from_session_well_formed_is_nonempty_and_deterministic() {
    let session = "session:plan-abc:123456789";
    let a = run_id_from_session(session);
    let b = run_id_from_session(session);
    assert!(!a.is_empty());
    assert_eq!(a, b);
    assert_eq!(a, "run-123456789");
}

#[test]
fn run_id_from_session_malformed_does_not_panic_and_is_nonempty() {
    let session = "session:plan-abc";
    let id = run_id_from_session(session);
    assert!(!id.is_empty());
}

#[test]
fn run_id_from_session_edge_shapes() {
    assert_eq!(run_id_from_session("session:plan-abc"), "run-session:plan-abc");
    assert_eq!(run_id_from_session("session:plan:abc:42"), "run-42");
    assert_eq!(run_id_from_session("a:b:"), "run-a:b:");
    assert_eq!(run_id_from_session(":x"), "run-:x");
    assert_eq!(run_id_from_session("::x"), "run-x");
    assert_eq!(run_id_from_session("no-colon"), "run-no-colon");
    assert_eq!(run_id_from_session("trailing:"), "run-trailing:");
    assert_eq!(run_id_from_session(""), "run-");
}

// ── correlation ──────────────────────────────────────────────────────────

#[test]
fn missing_ledger_correlation_prevents_green_and_names_diagnosis() {
    let mut runner = FakeRunner::new();
    runner.push_exit_code(0);
    runner.commits_ahead = 1;
    runner.include_ledger_correlation = false;
    let record = run(&mut runner, &test_cfg(1), test_inputs()).expect("run");
    assert_ne!(record.failure_class, FailureClass::Green);
    assert!(reason_of(&record).contains("diagnosis"), "reason must mention 'diagnosis', got: {:?}", record.reason);
}

#[test]
fn present_ledger_correlation_allows_green() {
    let mut runner = FakeRunner::new();
    runner.push_exit_code(0);
    runner.commits_ahead = 1;
    runner.include_ledger_correlation = true;
    let record = run(&mut runner, &test_cfg(3), test_inputs()).expect("run");
    assert_eq!(record.failure_class, FailureClass::Green);
}

#[test]
fn ledger_record_run_id_is_nonempty_and_session_derived() {
    let mut runner = FakeRunner::new();
    runner.push_exit_code(0);
    runner.commits_ahead = 1;
    let record = run(&mut runner, &test_cfg(3), test_inputs()).expect("run");
    assert!(!record.run_id.is_empty());
    assert!(record.run_id.starts_with("run-"));
}

#[test]
fn missing_correlation_reason_is_the_exact_diagnosis() {
    let mut runner = FakeRunner::new();
    runner.push_exit_code(0);
    runner.include_ledger_correlation = false;
    let record = run(&mut runner, &test_cfg(1), test_inputs()).expect("run");
    assert_eq!(record.failure_class, FailureClass::Orange);
    assert_eq!(record.exit_code, 2);
    assert_eq!(
        reason_of(&record),
        "max attempts reached without success (diagnosis: missing or empty ledger correlation \
         (run_id present: false, ledger_path present: false, ledger_lines non-empty: false) \
         \u{2014} a technically-successful exit must not be reported green without its own \
         ledger being found and correlated)"
    );
}

// ── clean-start gate ─────────────────────────────────────────────────────

#[test]
fn dirty_tree_yields_red_and_no_branch() {
    let mut runner = FakeRunner::new();
    runner.tree_clean = false;
    let record = run(&mut runner, &test_cfg(3), test_inputs()).expect("run");
    assert_eq!(record.failure_class, FailureClass::Red);
    assert_eq!(record.exit_code, -1);
    assert_eq!(record.attempts, 0);
    assert!(record.reason.is_some());
    assert!(runner.branch_ops.is_empty(), "no branch should be created on abort");
    assert_eq!(runner.appended_records.len(), 1, "append_ledger called once");
    assert_eq!(runner.sent_telegrams.len(), 1);
}

#[test]
fn green_exit_but_head_not_descended_from_base_is_red_override() {
    let mut runner = FakeRunner::new();
    runner.push_exit_code(0);
    runner.commits_ahead = 2;
    runner.branch_exists = false;
    runner.branch_contains = false;
    let record = run(&mut runner, &test_cfg(3), test_inputs()).expect("run");
    assert_eq!(record.failure_class, FailureClass::Red);
    assert!(record.pr_url.is_none());
    assert!(
        reason_of(&record).contains("does not descend"),
        "reason should mention HEAD not descending from base, got: {:?}",
        record.reason
    );
    assert_eq!(runner.appended_records.len(), 1);
    assert_eq!(runner.sent_telegrams.len(), 1);
}

#[test]
fn off_main_yields_red_and_no_branch() {
    let mut runner = FakeRunner::new();
    runner.is_on_main = false;
    let record = run(&mut runner, &test_cfg(3), test_inputs()).expect("run");
    assert_eq!(record.failure_class, FailureClass::Red);
    assert_eq!(record.attempts, 0);
    assert!(runner.branch_ops.is_empty());
    assert_eq!(runner.appended_records.len(), 1);
    assert_eq!(runner.sent_telegrams.len(), 1);
}

#[test]
fn custom_trunk_mismatch_yields_red_and_no_branch() {
    let mut runner = FakeRunner::new();
    let mut inputs = test_inputs();
    inputs.trunk = "develop".to_string();
    let record = run(&mut runner, &test_cfg(3), inputs).expect("run");
    assert_eq!(record.failure_class, FailureClass::Red);
    assert_eq!(record.branch, "develop");
    assert!(
        reason_of(&record).contains("not 'develop'"),
        "reason should reference the configured trunk, got: {:?}",
        record.reason
    );
}

#[test]
fn change_id_reaches_the_appended_ledger_record_not_just_the_return_value() {
    let mut runner = FakeRunner::new();
    runner.push_exit_code(0);
    runner.commits_ahead = 1;
    let mut inputs = test_inputs();
    inputs.change_id = Some("change-abc".to_string());
    let returned = run(&mut runner, &test_cfg(3), inputs).expect("run");
    assert_eq!(returned.change_id.as_deref(), Some("change-abc"));
    assert_eq!(runner.appended_records.len(), 1);
    assert_eq!(
        runner.appended_records[0].change_id.as_deref(),
        Some("change-abc"),
        "the record actually passed to append_ledger must carry change_id"
    );
}

#[test]
fn main_behind_remote_yields_red_and_no_branch() {
    let mut runner = FakeRunner::new();
    runner.local_matches_remote = false;
    let record = run(&mut runner, &test_cfg(3), test_inputs()).expect("run");
    assert_eq!(record.failure_class, FailureClass::Red);
    assert_eq!(record.attempts, 0);
    assert!(runner.branch_ops.is_empty());
    assert_eq!(runner.appended_records.len(), 1);
    assert_eq!(runner.sent_telegrams.len(), 1);
}

#[test]
fn gate_reasons_are_exact() {
    let mut runner = FakeRunner::new();
    runner.is_on_main = false;
    let record = run(&mut runner, &test_cfg(3), test_inputs()).expect("run");
    assert_eq!(reason_of(&record), "current branch is 'other-branch', not 'main'");
    assert_eq!(record.branch, "main");
    assert_eq!(record.plan_id, "");
    assert!(record.run_id.starts_with("run-"));

    let mut runner = FakeRunner::new();
    runner.tree_clean = false;
    let record = run(&mut runner, &test_cfg(3), test_inputs()).expect("run");
    assert_eq!(reason_of(&record), "working tree is not clean");

    let mut runner = FakeRunner::new();
    runner.local_matches_remote = false;
    let record = run(&mut runner, &test_cfg(3), test_inputs()).expect("run");
    assert_eq!(reason_of(&record), "local main is behind remote");
    assert!(runner.sessions_begun.is_empty());
}

// ── happy paths ──────────────────────────────────────────────────────────

#[test]
fn green_first_attempt_with_commits_ahead_opens_pr() {
    let mut runner = FakeRunner::new();
    runner.push_exit_code(0);
    runner.commits_ahead = 2;
    let record = run(&mut runner, &test_cfg(3), test_inputs()).expect("run");
    assert_eq!(record.failure_class, FailureClass::Green);
    assert_eq!(record.attempts, 1);
    assert!(record.pr_url.is_some(), "expected a PR URL");
    assert_eq!(record.base_sha, "sha-base");
    assert_eq!(runner.appended_records.len(), 1);
    assert_eq!(runner.sent_telegrams.len(), 1);
    assert_eq!(runner.branch_ops.len(), 1);
    assert!(runner.branch_ops[0].starts_with("create:"));
    assert_eq!(runner.sessions_begun.len(), 1);
    assert_eq!(runner.sessions_cleaned.len(), 1);
    assert!(
        runner.progress_notes.iter().any(|(_, text)| text == "attempt 1 started"),
        "expected an 'attempt 1 started' progress note, got: {:?}",
        runner.progress_notes
    );
}

#[test]
fn green_with_pr_creation_failure_stays_green_and_writes_ledger() {
    let mut runner = FakeRunner::new();
    runner.push_exit_code(0);
    runner.commits_ahead = 2;
    runner.create_pr_should_fail = true;
    let record = run(&mut runner, &test_cfg(3), test_inputs())
        .expect("run should not hard-fail on a PR creation error");
    assert_eq!(record.failure_class, FailureClass::Green);
    assert!(record.pr_url.is_none());
    assert!(
        reason_of(&record).contains("PR creation failed"),
        "reason should mention the PR failure, got: {:?}",
        record.reason
    );
    assert_eq!(runner.appended_records.len(), 1, "ledger must still be written");
    assert_eq!(runner.sent_telegrams.len(), 1, "telegram must still be attempted");
}

#[test]
fn green_with_no_commits_ahead_gives_no_pr_and_reason() {
    let mut runner = FakeRunner::new();
    runner.push_exit_code(0);
    runner.commits_ahead = 0;
    let record = run(&mut runner, &test_cfg(3), test_inputs()).expect("run");
    assert_eq!(record.failure_class, FailureClass::Green);
    assert!(record.pr_url.is_none());
    assert_eq!(record.reason.as_deref(), Some("no changes to land"));
    assert_eq!(runner.appended_records.len(), 1);
    assert_eq!(runner.sent_telegrams.len(), 1);
}

#[test]
fn green_with_dirty_post_run_tree_gives_red_override_no_pr() {
    let mut runner = FakeRunner::new();
    runner.push_exit_code(0);
    runner.commits_ahead = 2;
    runner.post_run_tree_dirty = true;
    let record = run(&mut runner, &test_cfg(3), test_inputs()).expect("run");
    assert_eq!(record.failure_class, FailureClass::Red);
    assert!(record.pr_url.is_none());
    assert!(reason_of(&record).contains("dirty"), "reason should mention dirty tree");
    assert_eq!(runner.appended_records.len(), 1);
    assert_eq!(runner.sent_telegrams.len(), 1);
}

#[test]
fn three_exit2_attempts_gives_orange_no_pr() {
    let mut runner = FakeRunner::new();
    runner.set_exit_codes([2, 2, 2]);
    runner.commits_ahead = 1;
    let record = run(&mut runner, &test_cfg(3), test_inputs()).expect("run");
    assert_eq!(record.failure_class, FailureClass::Orange);
    assert_eq!(record.attempts, 3);
    assert!(record.pr_url.is_none());
    assert_eq!(runner.appended_records.len(), 1);
    assert_eq!(runner.sent_telegrams.len(), 1);
}

#[test]
fn exit2_then_exit0_gives_green_attempts_2() {
    let mut runner = FakeRunner::new();
    runner.set_exit_codes([2, 0]);
    runner.commits_ahead = 1;
    let record = run(&mut runner, &test_cfg(3), test_inputs()).expect("run");
    assert_eq!(record.failure_class, FailureClass::Green);
    assert_eq!(record.attempts, 2);
    assert!(record.pr_url.is_some());
    assert_eq!(runner.appended_records.len(), 1);
    assert_eq!(runner.sent_telegrams.len(), 1);
}

#[test]
fn exit3_gives_red_attempts_1() {
    let mut runner = FakeRunner::new();
    runner.push_exit_code(3);
    let record = run(&mut runner, &test_cfg(3), test_inputs()).expect("run");
    assert_eq!(record.failure_class, FailureClass::Red);
    assert_eq!(record.attempts, 1);
    assert!(record.pr_url.is_none());
    assert_eq!(runner.appended_records.len(), 1);
    assert_eq!(runner.sent_telegrams.len(), 1);
}

#[test]
fn existing_branch_causes_switch_not_create() {
    let mut runner = FakeRunner::new();
    runner.push_exit_code(0);
    runner.commits_ahead = 1;
    runner.branch_exists = true;
    runner.branch_contains = true;
    let record = run(&mut runner, &test_cfg(3), test_inputs()).expect("run");
    assert_eq!(record.failure_class, FailureClass::Green);
    assert_eq!(runner.branch_ops.len(), 1);
    assert!(runner.branch_ops[0].starts_with("switch:"), "expected switch, got: {}", runner.branch_ops[0]);
    assert_eq!(runner.appended_records.len(), 1);
    assert_eq!(runner.sent_telegrams.len(), 1);
}

#[test]
fn stale_existing_branch_yields_red_no_switch_no_session() {
    let mut runner = FakeRunner::new();
    runner.branch_exists = true;
    runner.branch_contains = false;
    runner.push_exit_code(0);
    runner.commits_ahead = 0;
    let record = run(&mut runner, &test_cfg(3), test_inputs()).expect("run");
    assert_eq!(record.failure_class, FailureClass::Red);
    assert_eq!(record.exit_code, -1);
    assert_eq!(record.attempts, 0);
    assert!(reason_of(&record).contains("stale"), "reason should mention the branch is stale, got: {:?}", record.reason);
    assert!(runner.branch_ops.is_empty(), "no branch switch/create should happen on a stale-branch abort");
    assert_eq!(runner.appended_records.len(), 1);
    assert_eq!(runner.sent_telegrams.len(), 1);
    assert!(runner.sessions_begun.is_empty(), "stale-branch abort must not open a cerebrum session");
}

#[test]
fn stale_reason_names_branch_trunk_and_base() {
    let mut runner = FakeRunner::new();
    runner.branch_exists = true;
    runner.branch_contains = false;
    let record = run(&mut runner, &test_cfg(3), test_inputs()).expect("run");
    assert_eq!(
        reason_of(&record),
        "existing branch 'feat/test-plan' is stale: it does not contain the current main tip \
         sha-base; delete the branch or pass --slug/--change-ref"
    );
    assert_eq!(record.plan_id, "test-plan");
    assert_eq!(record.branch, "feat/test-plan");
    assert_eq!(record.base_sha, "sha-base");
}

#[test]
fn base_sha_captured_before_branch_creation() {
    let mut runner = FakeRunner::new();
    runner.push_exit_code(0);
    runner.commits_ahead = 1;
    runner.head_sha = "sha-before-branch".to_string();
    let record = run(&mut runner, &test_cfg(3), test_inputs()).expect("run");
    assert_eq!(record.base_sha, "sha-before-branch");
    assert_eq!(runner.branch_ops.len(), 1);
    assert!(runner.branch_ops[0].starts_with("create:"));
}

#[test]
fn session_outlives_retries_across_attempts() {
    let mut runner = FakeRunner::new();
    runner.set_exit_codes([2, 0]);
    runner.commits_ahead = 1;
    let record = run(&mut runner, &test_cfg(3), test_inputs()).expect("run");
    assert_eq!(record.attempts, 2);
    assert_eq!(runner.sessions_begun.len(), 1);
    assert_eq!(runner.sessions_cleaned.len(), 1);
    let session_ids: std::collections::HashSet<_> =
        runner.progress_notes.iter().map(|(s, _)| s.clone()).collect();
    assert_eq!(session_ids.len(), 1, "both attempts must share one session id");
    assert!(runner.progress_notes.iter().any(|(_, text)| text == "attempt 1 started"));
    assert!(runner.progress_notes.iter().any(|(_, text)| text == "attempt 2 started"));
}

#[test]
fn fetch_plan_failure_propagates_and_opens_no_branch() {
    let mut runner = FakeRunner::new();
    runner.fetch_plan_should_fail = true;
    let result = run(&mut runner, &test_cfg(3), test_inputs());
    assert!(result.is_err(), "fetch_plan failure must propagate");
    assert!(runner.branch_ops.is_empty(), "no branch should be created");
}

#[test]
fn plan_without_heading_is_an_error() {
    let mut runner = FakeRunner::new();
    runner.plan_contents = "no heading here".to_string();
    match run(&mut runner, &test_cfg(3), test_inputs()) {
        Err(CoreError::Message(msg)) => assert_eq!(msg, "no level-1 heading found in plan 'plan-ref-123'"),
        other => panic!("unexpected result: {other:?}"),
    }
    assert!(runner.sessions_begun.is_empty());
}

#[test]
fn cleanup_session_failure_is_best_effort() {
    let mut runner = FakeRunner::new();
    runner.push_exit_code(0);
    runner.commits_ahead = 2;
    runner.cleanup_should_fail = true;
    let record = run(&mut runner, &test_cfg(3), test_inputs())
        .expect("run should not hard-fail on a cleanup error");
    assert_eq!(record.failure_class, FailureClass::Green);
    assert_eq!(runner.appended_records.len(), 1, "ledger must still be written");
    assert_eq!(runner.sent_telegrams.len(), 1, "telegram must still be attempted");
}

#[test]
fn abort_path_opens_no_session() {
    let mut runner = FakeRunner::new();
    runner.tree_clean = false;
    let _record = run(&mut runner, &test_cfg(3), test_inputs()).expect("run");
    assert!(runner.sessions_begun.is_empty(), "clean-start abort must not open a session");
}

#[test]
fn existing_open_pr_is_reused_and_create_pr_not_called() {
    let mut runner = FakeRunner::new();
    runner.push_exit_code(0);
    runner.commits_ahead = 2;
    runner.existing_pr = Some("https://github.com/x/y/pull/7".to_string());
    let record = run(&mut runner, &test_cfg(3), test_inputs()).expect("run");
    assert_eq!(record.failure_class, FailureClass::Green);
    assert_eq!(record.pr_url.as_deref(), Some("https://github.com/x/y/pull/7"));
    assert_eq!(runner.create_pr_calls, 0, "create_pr must not be called when an open PR already exists");
    assert_eq!(runner.push_head_calls, 1, "push_head must still run before the find_pr lookup");
}

#[test]
fn no_existing_pr_pushes_then_creates() {
    let mut runner = FakeRunner::new();
    runner.push_exit_code(0);
    runner.commits_ahead = 2;
    let record = run(&mut runner, &test_cfg(3), test_inputs()).expect("run");
    assert_eq!(record.failure_class, FailureClass::Green);
    assert!(record.pr_url.is_some());
    assert_eq!(runner.create_pr_calls, 1);
    assert_eq!(runner.push_head_calls, 1, "push_head must run before create_pr");
}

#[test]
fn zero_max_attempts_runs_no_cycle_and_gives_up_orange() {
    let mut runner = FakeRunner::new();
    runner.commits_ahead = 1;
    let record = run(&mut runner, &test_cfg(0), test_inputs()).expect("run");
    assert_eq!(record.attempts, 0);
    assert_eq!(record.exit_code, 2);
    assert_eq!(record.failure_class, FailureClass::Orange);
    assert!(record.pr_url.is_none());
    assert_eq!(runner.push_head_calls, 0);
    assert_eq!(runner.create_pr_calls, 0);
    assert!(runner.run_plan_cycle_dry_run_flags.is_empty());
    assert!(runner.progress_notes.is_empty());
}

#[test]
fn other_exit_codes_are_red_without_retry() {
    let mut runner = FakeRunner::new();
    runner.set_exit_codes([1, 0]);
    let record = run(&mut runner, &test_cfg(3), test_inputs()).expect("run");
    assert_eq!(record.attempts, 1);
    assert_eq!(record.exit_code, 1);
    assert_eq!(record.failure_class, FailureClass::Red);
    assert!(record.pr_url.is_none());
    assert_eq!(runner.run_plan_cycle_dry_run_flags.len(), 1);

    let mut runner = FakeRunner::new();
    runner.set_exit_codes([2, 5, 0]);
    let record = run(&mut runner, &test_cfg(3), test_inputs()).expect("run");
    assert_eq!(record.attempts, 2);
    assert_eq!(record.exit_code, 5);
    assert_eq!(record.failure_class, FailureClass::Red);
}

#[test]
fn exit_code_three_is_red_without_retry() {
    let mut runner = FakeRunner::new();
    runner.set_exit_codes([3, 0]);
    let record = run(&mut runner, &test_cfg(3), test_inputs()).expect("run");
    assert_eq!(record.attempts, 1);
    assert_eq!(record.failure_class, FailureClass::Red);
}

#[test]
fn failed_ledger_append_is_swallowed_and_run_still_notifies_and_cleans_up() {
    let mut runner = FakeRunner::new();
    runner.push_exit_code(0);
    runner.commits_ahead = 1;
    runner.append_should_fail = true;
    let record = run(&mut runner, &test_cfg(3), test_inputs()).expect("a failed append must not fail the run");
    assert_eq!(record.failure_class, FailureClass::Green);
    assert_eq!(runner.appended_records.len(), 1);
    assert_eq!(runner.sent_telegrams.len(), 1);
    assert_eq!(runner.sessions_cleaned.len(), 1);
}

#[test]
fn failed_ledger_append_on_gate_refusal_is_swallowed() {
    let mut runner = FakeRunner::new();
    runner.is_on_main = false;
    runner.append_should_fail = true;
    let record = run(&mut runner, &test_cfg(3), test_inputs()).expect("run");
    assert_eq!(record.failure_class, FailureClass::Red);
    assert_eq!(runner.sent_telegrams.len(), 1);
}

#[test]
fn failed_telegram_is_swallowed_and_session_still_cleaned() {
    let mut runner = FakeRunner::new();
    runner.push_exit_code(0);
    runner.commits_ahead = 1;
    runner.telegram_should_fail = true;
    let record = run(&mut runner, &test_cfg(3), test_inputs()).expect("run");
    assert_eq!(record.failure_class, FailureClass::Green);
    assert_eq!(runner.sessions_cleaned.len(), 1);
}

#[test]
fn run_id_comes_from_the_session_shape() {
    let mut runner = FakeRunner::new();
    runner.push_exit_code(0);
    let record = run(&mut runner, &test_cfg(3), test_inputs()).expect("run");
    assert_eq!(record.run_id, "run-session:plan-ref-123");
}

// ── produce / publish ────────────────────────────────────────────────────

#[test]
fn happy_path_green_with_pr() {
    let mut runner = FakeRunner::new();
    runner.push_exit_code(0);
    runner.commits_ahead = 1;
    let record = run(&mut runner, &test_cfg(3), test_inputs()).expect("run");
    assert_eq!(record.failure_class, FailureClass::Green);
    assert!(record.pr_url.is_some());
}

#[test]
fn missing_ledger_correlation_prevents_green() {
    let mut runner = FakeRunner::new();
    runner.push_exit_code(0);
    runner.commits_ahead = 1;
    runner.include_ledger_correlation = false;
    let record = run(&mut runner, &test_cfg(1), test_inputs()).expect("run");
    assert_ne!(record.failure_class, FailureClass::Green);
    assert!(reason_of(&record).contains("diagnosis"), "reason must mention diagnosis, got: {:?}", record.reason);
}

#[test]
fn post_run_dirty_tree_invariant() {
    let mut runner = FakeRunner::new();
    runner.push_exit_code(0);
    runner.commits_ahead = 1;
    runner.post_run_tree_dirty = true;
    let record = run(&mut runner, &test_cfg(3), test_inputs()).expect("run");
    assert_eq!(record.failure_class, FailureClass::Red);
    assert!(reason_of(&record).contains("dirty"));
}

#[test]
fn stale_head_invariant() {
    let mut runner = FakeRunner::new();
    runner.push_exit_code(0);
    runner.commits_ahead = 1;
    runner.branch_exists = false;
    runner.branch_contains = false;
    let record = run(&mut runner, &test_cfg(3), test_inputs()).expect("run");
    assert_eq!(record.failure_class, FailureClass::Red);
    let reason = reason_of(&record);
    assert!(reason.contains("descend") || reason.contains("divergent"), "reason should mention descend/divergent, got: {reason}");
}

#[test]
fn pr_creation_failure_degrades_gracefully() {
    let mut runner = FakeRunner::new();
    runner.push_exit_code(0);
    runner.commits_ahead = 1;
    runner.create_pr_should_fail = true;
    let record = run(&mut runner, &test_cfg(3), test_inputs()).expect("run");
    assert_eq!(record.failure_class, FailureClass::Green);
    assert!(record.pr_url.is_none());
    assert!(reason_of(&record).contains("PR creation failed"));
}

#[test]
fn existing_pr_is_reused() {
    let mut runner = FakeRunner::new();
    runner.push_exit_code(0);
    runner.commits_ahead = 1;
    runner.existing_pr = Some("https://github.com/x/y/pull/9".to_string());
    let record = run(&mut runner, &test_cfg(3), test_inputs()).expect("run");
    assert_eq!(record.failure_class, FailureClass::Green);
    assert_eq!(record.pr_url.as_deref(), Some("https://github.com/x/y/pull/9"));
    assert_eq!(runner.create_pr_calls, 0);
}

#[test]
fn no_changes_to_land() {
    let mut runner = FakeRunner::new();
    runner.push_exit_code(0);
    runner.commits_ahead = 0;
    let record = run(&mut runner, &test_cfg(3), test_inputs()).expect("run");
    assert_eq!(record.failure_class, FailureClass::Green);
    assert!(record.pr_url.is_none());
    assert_eq!(record.reason.as_deref(), Some("no changes to land"));
}

#[test]
fn orange_after_exhausted_retries() {
    let mut runner = FakeRunner::new();
    runner.set_exit_codes([2, 2, 2]);
    runner.commits_ahead = 1;
    let record = run(&mut runner, &test_cfg(3), test_inputs()).expect("run");
    assert_eq!(record.failure_class, FailureClass::Orange);
    assert!(record.pr_url.is_none());
    assert!(reason_of(&record).contains("max attempts reached"));
}

#[test]
fn red_on_hard_failure_exit_code() {
    let mut runner = FakeRunner::new();
    runner.push_exit_code(3);
    let record = run(&mut runner, &test_cfg(3), test_inputs()).expect("run");
    assert_eq!(record.failure_class, FailureClass::Red);
    assert!(record.pr_url.is_none());
    assert!(reason_of(&record).contains("hard failure"));
}

#[test]
fn pr_body_and_base_follow_slug_and_trunk() {
    let mut runner = FakeRunner::new();
    runner.push_exit_code(0);
    let (mut state, mut action) = start(&test_cfg(3), test_inputs());
    loop {
        if let Action::CreatePr { base, title, body } = &action {
            assert_eq!(base, "main");
            assert_eq!(title, "test plan");
            assert_eq!(body, "Automated run of plan `test-plan` on branch `feat/test-plan`.");
            break;
        }
        if let Action::Finish(_) = action {
            panic!("the run ended without creating a PR");
        }
        let event = runner.respond(&action);
        let (s, a) = state.step(event);
        state = s;
        action = a;
    }
}

// ── dry runs ─────────────────────────────────────────────────────────────

#[test]
fn dry_run_true_is_recorded_on_run_plan_cycle_calls() {
    let mut runner = FakeRunner::new();
    runner.push_exit_code(0);
    runner.commits_ahead = 1;
    let _record = run(&mut runner, &test_cfg(3), dry_inputs(true)).expect("run");
    assert_eq!(runner.run_plan_cycle_dry_run_flags.len(), 1);
    assert!(runner.run_plan_cycle_dry_run_flags[0], "dry_run=true must be passed through to run_plan_cycle");
}

#[test]
fn dry_run_false_is_recorded_on_run_plan_cycle_calls() {
    let mut runner = FakeRunner::new();
    runner.push_exit_code(0);
    runner.commits_ahead = 1;
    let _record = run(&mut runner, &test_cfg(3), dry_inputs(false)).expect("run");
    assert_eq!(runner.run_plan_cycle_dry_run_flags.len(), 1);
    assert!(!runner.run_plan_cycle_dry_run_flags[0], "dry_run=false must be passed through to run_plan_cycle");
}

#[test]
fn dry_run_skips_branch_push_and_pr_but_still_reaches_preconditions() {
    let mut runner = FakeRunner::new();
    runner.push_exit_code(0);
    runner.commits_ahead = 1;
    let record = run(&mut runner, &test_cfg(3), dry_inputs(true)).expect("run");
    assert!(runner.branch_ops.is_empty(), "dry run must not create or switch branches");
    assert_eq!(runner.push_head_calls, 0, "dry run must not push");
    assert_eq!(runner.create_pr_calls, 0, "dry run must not create a PR");
    assert!(record.pr_url.is_none());
    assert_eq!(runner.sessions_begun.len(), 1, "dry run should still open a session after preconditions pass");
    assert!(runner.appended_records.is_empty());
    assert_eq!(
        record.reason.as_deref(),
        Some("dry run: no branch/push/PR/ledger side effects performed")
    );
}

#[test]
fn non_dry_run_control_takes_the_mutating_path() {
    let mut runner = FakeRunner::new();
    runner.set_exit_codes([2, 2, 2]);
    runner.commits_ahead = 1;
    let record = run(&mut runner, &test_cfg(3), dry_inputs(false)).expect("run");
    assert_eq!(record.attempts, 3, "must retry up to max_attempts");
    assert_eq!(runner.branch_ops.len(), 1, "a branch must be created for a real run");
    assert!(runner.branch_ops[0].starts_with("create:"));
    assert_eq!(runner.run_plan_cycle_dry_run_flags.len(), 3);
    assert!(runner.run_plan_cycle_dry_run_flags.iter().all(|f| !f));
}

// ── multi-repo batches ───────────────────────────────────────────────────

fn job(workspace: &str, required: bool) -> RepoJob {
    RepoJob {
        workspace: workspace.to_string(),
        plan_ref: "plan-ref".to_string(),
        trunk: None,
        required,
        profile: None,
        slug_override: None,
    }
}

#[test]
fn all_green_runs_every_repo_and_stamps_change_id() {
    let manifest = ChangeManifest { repos: vec![job("/repo-a", true), job("/repo-b", true)] };
    let records = run_multi(&test_cfg(3), manifest, Some("change-123"), |_job| {
        let mut runner = FakeRunner::new();
        runner.push_exit_code(0);
        runner.commits_ahead = 1;
        runner
    });
    assert_eq!(records.len(), 2, "both repos should have run");
    assert!(records.iter().all(|r| r.failure_class == FailureClass::Green));
    assert!(
        records.iter().all(|r| r.change_id.as_deref() == Some("change-123")),
        "every record must be stamped with the batch's change_id"
    );
}

#[test]
fn required_repo_failure_stops_the_batch() {
    let manifest = ChangeManifest { repos: vec![job("/repo-a", true), job("/repo-b", true)] };
    let records = run_multi(&test_cfg(3), manifest, None, |job| {
        let mut runner = FakeRunner::new();
        if job.workspace == "/repo-a" {
            runner.push_exit_code(3);
        } else {
            runner.push_exit_code(0);
            runner.commits_ahead = 1;
        }
        runner
    });
    assert_eq!(records.len(), 1, "batch must stop after the first required repo goes Red, never reaching repo-b");
    assert_eq!(records[0].failure_class, FailureClass::Red);
    assert_eq!(records[0].repo, "repo-a");
}

#[test]
fn non_required_repo_failure_does_not_stop_the_batch() {
    let manifest = ChangeManifest { repos: vec![job("/repo-a", false), job("/repo-b", true)] };
    let records = run_multi(&test_cfg(3), manifest, None, |job| {
        let mut runner = FakeRunner::new();
        if job.workspace == "/repo-a" {
            runner.push_exit_code(3);
        } else {
            runner.push_exit_code(0);
            runner.commits_ahead = 1;
        }
        runner
    });
    assert_eq!(records.len(), 2, "a non-required repo's failure must not stop the batch");
    assert_eq!(records[0].failure_class, FailureClass::Red);
    assert_eq!(records[1].failure_class, FailureClass::Green);
}

#[test]
fn fetch_plan_error_produces_a_red_record_instead_of_aborting() {
    let manifest = ChangeManifest { repos: vec![job("/repo-a", true)] };
    let records = run_multi(&test_cfg(3), manifest, None, |_job| {
        let mut runner = FakeRunner::new();
        runner.fetch_plan_should_fail = true;
        runner
    });
    assert_eq!(records.len(), 1);
    assert_eq!(records[0].failure_class, FailureClass::Red);
    assert!(
        reason_of(&records[0]).contains("run failed before completion"),
        "reason should explain the hard error, got: {:?}",
        records[0].reason
    );
}

#[test]
fn error_record_fields_are_exact() {
    let mut j = job("/work/repo-z/", true);
    j.profile = Some("fast".to_string());
    let manifest = ChangeManifest { repos: vec![j] };
    let records = run_multi(&test_cfg(3), manifest, Some("chg"), |_job| {
        let mut runner = FakeRunner::new();
        runner.fetch_plan_should_fail = true;
        runner
    });
    let r = &records[0];
    assert_eq!(r.run_id, "run-repo-z-error");
    assert_eq!(r.repo, "repo-z");
    assert_eq!(r.branch, "main");
    assert_eq!(r.profile, "fast");
    assert_eq!(r.exit_code, -1);
    assert_eq!(r.attempts, 0);
    assert_eq!(r.change_id.as_deref(), Some("chg"));
    assert_eq!(reason_of(r), "run failed before completion: fetch_plan failed (scripted)");
}

#[test]
fn empty_manifest_gives_no_record() {
    let manifest = ChangeManifest { repos: Vec::new() };
    let records = run_multi(&test_cfg(3), manifest, None, |_job| FakeRunner::new());
    assert!(records.is_empty());
}

#[test]
fn error_record_of_a_failed_run_is_appended_to_the_ledger() {
    let manifest = ChangeManifest { repos: vec![job("/repo-a", false), job("/repo-b", true)] };
    let (records, ledger) = run_multi_with_ledger(&test_cfg(3), manifest, Some("chg-9"), false, |job| {
        let mut runner = FakeRunner::new();
        if job.workspace == "/repo-a" {
            runner.fetch_plan_should_fail = true;
        } else {
            runner.push_exit_code(0);
            runner.commits_ahead = 1;
        }
        runner
    });
    assert_eq!(records.len(), 2);
    assert_eq!(records[0].run_id, "run-repo-a-error");
    assert_eq!(ledger.len(), 2, "the error record and repo-b's record are both in the ledger");
    assert_eq!(ledger[0].run_id, "run-repo-a-error");
    assert_eq!(ledger[0].change_id.as_deref(), Some("chg-9"));
    assert_eq!(ledger[1].repo, "repo-b");
}

#[test]
fn failed_append_of_an_error_record_does_not_stop_the_batch() {
    let manifest = ChangeManifest { repos: vec![job("/repo-a", false), job("/repo-b", true)] };
    let (records, _) = run_multi_with_ledger(&test_cfg(3), manifest, None, false, |job| {
        let mut runner = FakeRunner::new();
        if job.workspace == "/repo-a" {
            runner.fetch_plan_should_fail = true;
            runner.append_should_fail = true;
        } else {
            runner.push_exit_code(0);
            runner.commits_ahead = 1;
        }
        runner
    });
    assert_eq!(records.len(), 2);
    assert_eq!(records[1].failure_class, FailureClass::Green);
}

#[test]
fn dry_run_batch_appends_no_error_record() {
    let manifest = ChangeManifest { repos: vec![job("/repo-a", true)] };
    let (records, ledger) = run_multi_with_ledger(&test_cfg(3), manifest, None, true, |_job| {
        let mut runner = FakeRunner::new();
        runner.fetch_plan_should_fail = true;
        runner
    });
    assert_eq!(records.len(), 1);
    assert!(ledger.is_empty());
}
