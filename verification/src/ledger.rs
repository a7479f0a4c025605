//! The run-ledger record and the helpers around it.

use vstd::prelude::*;
use crate::failure::{FailureClass, severity};
use crate::text::{copy_opt, opt_view, push_char};

verus! {

/// Current schema version written by this build of choragos.
///
/// Bump this whenever [`LedgerRecord`]'s shape changes in a
/// backwards-compatible way (new optional field). Old ledger lines lacking
/// `schema_version` are treated as version 1 (see [`default_schema_version`]).
pub const CURRENT_SCHEMA_VERSION: u32 = 3;

/// The schema version of a ledger line written before the field existed.
pub fn default_schema_version() -> (v: u32)
    ensures
        v == 1,
{
    1
}

/// A single entry in the choragos run-ledger.
///
/// Every completed orchestrator run (including clean-start aborts) appends
/// one record as a compact JSON line to the ledger file.
#[derive(Debug)]
pub struct LedgerRecord {
    /// Opaque identifier for this run (distinct from `plan_id`).
    pub run_id: String,
    /// Opaque identifier for the plan (typically the branch slug).
    pub plan_id: String,
    /// Repository name (directory basename of the workspace).
    pub repo: String,
    /// Feature branch name used for this run.
    pub branch: String,
    /// Pipeline profile that was passed to the plan-cycle executor.
    pub profile: String,
    /// Raw process exit code returned by the plan-cycle executor.
    pub exit_code: i32,
    /// Number of plan-cycle attempts made in this run.
    pub attempts: u32,
    /// Derived failure classification.
    pub failure_class: FailureClass,
    /// SHA of the trunk at the moment the feature branch was created.
    pub base_sha: String,
    /// SHA of `HEAD` on the feature branch after the run finished.
    pub head_sha: String,
    /// Number of commits on the feature branch ahead of `base_sha`.
    pub commits_ahead: u32,
    /// URL of the pull request opened on a green run, if any.
    pub pr_url: Option<String>,
    /// Human-readable explanation when no PR was opened or the run failed.
    pub reason: Option<String>,
    /// RFC 3339 timestamp recorded at the start of the run.
    pub started_at: String,
    /// RFC 3339 timestamp recorded at the end of the run.
    pub finished_at: String,
    /// Ledger record schema version.
    pub schema_version: u32,
    /// Identifier correlating this record with a multi-repo change; `None`
    /// for single-repo runs.
    pub change_id: Option<String>,
}

/// The mathematical value of a [`LedgerRecord`].
pub struct LedgerRecordView {
    pub run_id: Seq<char>,
    pub plan_id: Seq<char>,
    pub repo: Seq<char>,
    pub branch: Seq<char>,
    pub profile: Seq<char>,
    pub exit_code: i32,
    pub attempts: u32,
    pub failure_class: FailureClass,
    pub base_sha: Seq<char>,
    pub head_sha: Seq<char>,
    pub commits_ahead: u32,
    pub pr_url: Option<Seq<char>>,
    pub reason: Option<Seq<char>>,
    pub started_at: Seq<char>,
    pub finished_at: Seq<char>,
    pub schema_version: u32,
    pub change_id: Option<Seq<char>>,
}

impl View for LedgerRecord {
    type V = LedgerRecordView;

    open spec fn view(&self) -> LedgerRecordView {
        LedgerRecordView {
            run_id: self.run_id@,
            plan_id: self.plan_id@,
            repo: self.repo@,
            branch: self.branch@,
            profile: self.profile@,
            exit_code: self.exit_code,
            attempts: self.attempts,
            failure_class: self.failure_class,
            base_sha: self.base_sha@,
            head_sha: self.head_sha@,
            commits_ahead: self.commits_ahead,
            pr_url: opt_view(self.pr_url),
            reason: opt_view(self.reason),
            started_at: self.started_at@,
            finished_at: self.finished_at@,
            schema_version: self.schema_version,
            change_id: opt_view(self.change_id),
        }
    }
}

impl LedgerRecord {
    /// A copy of the record.
    pub fn duplicate(&self) -> (r: LedgerRecord)
        ensures
            r@ == self@,
    {
        LedgerRecord {
            run_id: self.run_id.clone(),
            plan_id: self.plan_id.clone(),
            repo: self.repo.clone(),
            branch: self.branch.clone(),
            profile: self.profile.clone(),
            exit_code: self.exit_code,
            attempts: self.attempts,
            failure_class: self.failure_class,
            base_sha: self.base_sha.clone(),
            head_sha: self.head_sha.clone(),
            commits_ahead: self.commits_ahead,
            pr_url: copy_opt(&self.pr_url),
            reason: copy_opt(&self.reason),
            started_at: self.started_at.clone(),
            finished_at: self.finished_at.clone(),
            schema_version: self.schema_version,
            change_id: copy_opt(&self.change_id),
        }
    }
}

/// Frames a serialised record as one ledger line: the JSON text followed by
/// a single newline.
pub fn jsonl_line(json: &str) -> (line: String)
    ensures
        line@ == json@.push('\n'),
{
    let mut line = String::from_str(json);
    push_char(&mut line, '\n');
    line
}

/// The greatest severity among the classes of `records`.
pub open spec fn max_severity(records: Seq<LedgerRecordView>) -> int
    decreases records.len(),
{
    if records.len() == 0 {
        0
    } else {
        let rest = max_severity(records.drop_last());
        let last = severity(records.last().failure_class);
        if rest >= last {
            rest
        } else {
            last
        }
    }
}

/// The exit code of the command-line tool for a batch of records: the
/// severity of the worst class among them (Green 0, Orange 1, Red 2), and 2
/// for an empty batch.
pub open spec fn batch_exit_code(records: Seq<LedgerRecordView>) -> int {
    if records.len() == 0 {
        2
    } else {
        max_severity(records)
    }
}

/// Maps a batch of records to a process exit code reflecting the worst
/// (highest-severity) failure class across all of them; an empty batch is Red.
pub fn worst_exit_code(records: &[LedgerRecord]) -> (code: i32)
    ensures
        code == batch_exit_code(records@.map_values(|r: LedgerRecord| r@)),
{
    let ghost views = records@.map_values(|r: LedgerRecord| r@);
    if records.len() == 0 {
        return 2;
    }
    let mut worst: i32 = 0;
    let mut i: usize = 0;
    while i < records.len()
        invariant
            i <= records.len(),
            views == records@.map_values(|r: LedgerRecord| r@),
            worst == max_severity(views.take(i as int)),
        decreases records.len() - i,
    {
        let s = records[i].failure_class.severity();
        assert(views.take(i + 1).drop_last() == views.take(i as int));
        if s > worst {
            worst = s;
        }
        i += 1;
    }
    assert(views.take(records.len() as int) == views);
    worst
}

/// The severity of a batch is at least that of each record, and equals the
/// severity of one of them: the worst class wins, whatever the order.
pub proof fn lemma_worst_is_maximum(records: Seq<LedgerRecordView>)
    requires
        records.len() > 0,
    ensures
        forall|i: int| 0 <= i < records.len() ==> severity(records[i].failure_class)
            <= batch_exit_code(records),
        exists|i: int| 0 <= i < records.len() && severity(records[i].failure_class)
            == batch_exit_code(records),
    decreases records.len(),
{
    let rest = records.drop_last();
    if rest.len() > 0 {
        lemma_worst_is_maximum(rest);
        assert forall|i: int| 0 <= i < records.len() implies severity(records[i].failure_class)
            <= batch_exit_code(records) by {
            if i < rest.len() {
                assert(rest[i] == records[i]);
            }
        }
        let j = choose|j: int| 0 <= j < rest.len() && severity(rest[j].failure_class)
            == batch_exit_code(rest);
        if max_severity(rest) >= severity(records.last().failure_class) {
            assert(rest[j] == records[j]);
        } else {
            assert(severity(records[records.len() - 1].failure_class) == batch_exit_code(records));
        }
    } else {
        assert(max_severity(rest) == 0);
        assert(severity(records[0].failure_class) == batch_exit_code(records));
    }
}

} // verus!
