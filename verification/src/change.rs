//! Multi-repo change fan-out.
//!
//! A change manifest lists an ordered set of per-repo plan runs, executed
//! sequentially. Each repo goes through the single-repo orchestrator flow
//! unchanged; the per-repo records are rolled up into one ordered batch,
//! stopping early the first time a `required` repo ends non-Green.
//!
//! The batch's decisions are a state machine: [`start_batch`] gives the
//! first [`BatchAction`], [`BatchState::step`] takes the result of each
//! repo's run, and [`BatchState::appended`] takes the reply of a ledger
//! append. A run that fails before completion gives a Red error record,
//! which the batch appends to the ledger itself (the ledger is written on
//! every path), except in a dry run.

use vstd::prelude::*;
use crate::clock::{Timestamp, TimestampView, is_reading, read_clock};
use crate::config::Config;
use crate::error::{CoreError, CoreErrorView, error_text, result_view};
use crate::failure::FailureClass;
use crate::ledger::{CURRENT_SCHEMA_VERSION, LedgerRecord, LedgerRecordView};
use crate::orchestrator::{RunInputs, RunInputsView, initial_state, main_trunk};
use crate::text::{chars_of, concat2, concat3, copy_opt, opt_view, owned, string_of_range};

verus! {

/// Whether a repo of a manifest that says nothing about it is required: yes.
pub fn default_required() -> (b: bool)
    ensures
        b,
{
    true
}

/// One repo's worth of work within a change manifest.
#[derive(Debug)]
pub struct RepoJob {
    /// Absolute path to the repo's workspace root.
    pub workspace: String,
    /// Reference to this repo's plan in cerebrum.
    pub plan_ref: String,
    /// Trunk branch override; `"main"` when omitted.
    pub trunk: Option<String>,
    /// When `true` (the default), this repo ending non-Green stops the rest
    /// of the batch. When `false`, a failure here is recorded but the batch
    /// continues.
    pub required: bool,
    /// Pipeline profile override; the configuration's default when omitted.
    pub profile: Option<String>,
    /// Branch-slug override; derived from the plan's title when omitted.
    pub slug_override: Option<String>,
}

/// The mathematical value of a [`RepoJob`].
pub struct RepoJobView {
    pub workspace: Seq<char>,
    pub plan_ref: Seq<char>,
    pub trunk: Option<Seq<char>>,
    pub required: bool,
    pub profile: Option<Seq<char>>,
    pub slug_override: Option<Seq<char>>,
}

impl View for RepoJob {
    type V = RepoJobView;

    open spec fn view(&self) -> RepoJobView {
        RepoJobView {
            workspace: self.workspace@,
            plan_ref: self.plan_ref@,
            trunk: opt_view(self.trunk),
            required: self.required,
            profile: opt_view(self.profile),
            slug_override: opt_view(self.slug_override),
        }
    }
}

impl RepoJob {
    /// A copy of the job.
    pub fn duplicate(&self) -> (j: RepoJob)
        ensures
            j@ == self@,
    {
        RepoJob {
            workspace: self.workspace.clone(),
            plan_ref: self.plan_ref.clone(),
            trunk: copy_opt(&self.trunk),
            required: self.required,
            profile: copy_opt(&self.profile),
            slug_override: copy_opt(&self.slug_override),
        }
    }
}

/// The parsed body of a change manifest: an ordered list of per-repo jobs,
/// run in list order.
#[derive(Debug)]
pub struct ChangeManifest {
    /// Repos to run, in order.
    pub repos: Vec<RepoJob>,
}

// ───────────────────────────── repo names ─────────────────────────────

/// The index of the last `'/'` in `s`, or `-1` when there is none.
pub open spec fn last_slash(s: Seq<char>) -> int
    decreases s.len(),
{
    if s.len() == 0 {
        -1
    } else if s.last() == '/' {
        s.len() - 1
    } else {
        last_slash(s.drop_last())
    }
}

/// The last `'/'` of a path is inside it, and no `'/'` follows it.
pub proof fn lemma_last_slash_bounds(s: Seq<char>)
    ensures
        -1 <= last_slash(s) < s.len(),
        last_slash(s) >= 0 ==> s[last_slash(s)] == '/',
        forall|i: int| last_slash(s) < i < s.len() ==> s[i] != '/',
    decreases s.len(),
{
    if s.len() > 0 && s.last() != '/' {
        lemma_last_slash_bounds(s.drop_last());
        assert forall|i: int| last_slash(s) < i < s.len() implies s[i] != '/' by {
            if i < s.len() - 1 {
                assert(s.drop_last()[i] == s[i]);
            }
        }
    }
}

/// The last component of a path that is neither empty nor `"."` (the empty
/// sequence when there is none).
pub open spec fn last_component(s: Seq<char>) -> Seq<char>
    decreases s.len(),
{
    let k = last_slash(s);
    let segment = s.skip(k + 1);
    if segment.len() == 0 || segment == seq!['.'] {
        if k < 0 {
            Seq::empty()
        } else {
            proof {
                lemma_last_slash_bounds(s);
            }
            last_component(s.take(k))
        }
    } else {
        segment
    }
}

/// The final component of a path, as `std::path::Path::file_name` gives it:
/// `None` for a path with no normal final component, such as `"/"` or one
/// that ends in `".."`.
pub open spec fn file_name(path: Seq<char>) -> Option<Seq<char>> {
    let c = last_component(path);
    if c.len() == 0 || c == seq!['.', '.'] {
        None
    } else {
        Some(c)
    }
}

/// The repo name of a workspace: its final path component, or `"unknown"`.
pub open spec fn repo_name(workspace: Seq<char>) -> Seq<char> {
    match file_name(workspace) {
        Some(name) => name,
        None => "unknown"@,
    }
}

/// Derives a repo name from a workspace path's final path component,
/// falling back to `"unknown"`.
pub fn repo_name_from_workspace(workspace: &str) -> (r: String)
    ensures
        r@ == repo_name(workspace@),
{
    let chars = chars_of(workspace);
    let ghost s = chars@;
    let mut end = chars.len();
    assert(s.take(end as int) == s);
    loop
        invariant
            end <= chars.len(),
            s == chars@,
            s == workspace@,
            last_component(s) == last_component(s.take(end as int)),
        decreases end,
    {
        let ghost t = s.take(end as int);
        assert(t.take(end as int) == t);
        let mut k = end;
        while k > 0 && chars[k - 1] != '/'
            invariant
                k <= end <= chars.len(),
                s == chars@,
                t == s.take(end as int),
                last_slash(t) == last_slash(t.take(k as int)),
            decreases k,
        {
            assert(t.take(k as int).drop_last() == t.take(k - 1));
            k -= 1;
        }
        assert(t.take(end as int) == t);
        proof {
            lemma_last_slash_bounds(t);
        }
        let ghost slash = last_slash(t);
        assert(slash == k - 1) by {
            if k > 0 {
                assert(t.take(k as int).last() == '/');
            }
        }
        assert(t.skip(k as int) =~= s.subrange(k as int, end as int));
        let empty_or_dot = k == end || (end - k == 1 && chars[k] == '.');
        assert(empty_or_dot == (t.skip(slash + 1).len() == 0 || t.skip(slash + 1) == seq!['.']))
            by {
            if end - k == 1 && chars@[k as int] == '.' {
                assert(t.skip(slash + 1) =~= seq!['.']);
            }
            if t.skip(slash + 1) == seq!['.'] {
                assert(t.skip(slash + 1)[0] == chars@[k as int]);
            }
        }
        if !empty_or_dot {
            let is_dotdot = end - k == 2 && chars[k] == '.' && chars[k + 1] == '.';
            assert(is_dotdot == (s.subrange(k as int, end as int) == seq!['.', '.'])) by {
                if is_dotdot {
                    assert(s.subrange(k as int, end as int) =~= seq!['.', '.']);
                }
                if s.subrange(k as int, end as int) == seq!['.', '.'] {
                    assert(s.subrange(k as int, end as int)[0] == chars@[k as int]);
                    assert(s.subrange(k as int, end as int)[1] == chars@[k + 1]);
                }
            }
            if is_dotdot {
                return owned("unknown");
            }
            return string_of_range(&chars, k, end);
        }
        if k == 0 {
            return owned("unknown");
        }
        assert(t.take(k - 1) == s.take(k - 1));
        end = k - 1;
    }
}

} // verus!

verus! {

// ───────────────────────────── per-repo runs ─────────────────────────────

/// The trunk of a job: its override, or `"main"`.
pub open spec fn job_trunk(job: RepoJobView) -> Seq<char> {
    match job.trunk {
        Some(t) => t,
        None => main_trunk(),
    }
}

/// The profile of a job: its override, or the batch's default.
pub open spec fn job_profile(job: RepoJobView, default_profile: Seq<char>) -> Seq<char> {
    match job.profile {
        Some(p) => p,
        None => default_profile,
    }
}

/// The inputs of the single-repo run of a job.
pub open spec fn job_inputs(
    job: RepoJobView,
    default_profile: Seq<char>,
    change_id: Option<Seq<char>>,
    dry_run: bool,
) -> RunInputsView {
    RunInputsView {
        workspace: job.workspace,
        repo: repo_name(job.workspace),
        plan_ref: job.plan_ref,
        profile: Some(job_profile(job, default_profile)),
        slug_override: job.slug_override,
        trunk: job_trunk(job),
        change_id,
        dry_run,
    }
}

/// The Red record of a repo whose run stopped with an error instead of a record.
pub open spec fn error_record(
    job: RepoJobView,
    profile: Seq<char>,
    started_at: Seq<char>,
    change_id: Option<Seq<char>>,
    err: CoreErrorView,
    finished_at: Seq<char>,
) -> LedgerRecordView {
    LedgerRecordView {
        run_id: "run-"@ + repo_name(job.workspace) + "-error"@,
        plan_id: Seq::empty(),
        repo: repo_name(job.workspace),
        branch: job_trunk(job),
        profile,
        exit_code: -1i32,
        attempts: 0,
        failure_class: FailureClass::Red,
        base_sha: Seq::empty(),
        head_sha: Seq::empty(),
        commits_ahead: 0,
        pr_url: None,
        reason: Some("run failed before completion: "@ + error_text(err)),
        started_at,
        finished_at,
        schema_version: CURRENT_SCHEMA_VERSION,
        change_id,
    }
}

fn job_trunk_exec(job: &RepoJob) -> (t: String)
    ensures
        t@ == job_trunk(job@),
{
    match &job.trunk {
        Some(t) => t.clone(),
        None => RunInputs::default_trunk(),
    }
}

fn job_profile_exec(job: &RepoJob, default_profile: &String) -> (p: String)
    ensures
        p@ == job_profile(job@, default_profile@),
{
    match &job.profile {
        Some(p) => p.clone(),
        None => default_profile.clone(),
    }
}

/// Builds the inputs of the single-repo run of a job.
pub fn job_run_inputs(
    job: &RepoJob,
    default_profile: &String,
    change_id: &Option<String>,
    dry_run: bool,
) -> (inputs: RunInputs)
    ensures
        inputs@ == job_inputs(job@, default_profile@, opt_view(*change_id), dry_run),
{
    RunInputs {
        workspace: job.workspace.clone(),
        repo: repo_name_from_workspace(job.workspace.as_str()),
        plan_ref: job.plan_ref.clone(),
        profile: Some(job_profile_exec(job, default_profile)),
        slug_override: copy_opt(&job.slug_override),
        trunk: job_trunk_exec(job),
        change_id: copy_opt(change_id),
        dry_run,
    }
}

/// Builds a synthetic Red record for a repo whose run returned an error
/// (e.g. a plan fetch failure) rather than a record, so that one repo's
/// error never aborts the whole batch.
pub fn make_error_record(
    job: &RepoJob,
    profile: &str,
    started_at: &str,
    change_id: &Option<String>,
    error: &CoreError,
    finished_at: String,
) -> (r: LedgerRecord)
    ensures
        r@ == error_record(job@, profile@, started_at@, opt_view(*change_id), error@, finished_at@),
{
    let repo = repo_name_from_workspace(job.workspace.as_str());
    let text = error.to_display_string();
    LedgerRecord {
        run_id: concat3("run-", repo.as_str(), "-error"),
        plan_id: String::new(),
        repo,
        branch: job_trunk_exec(job),
        profile: owned(profile),
        exit_code: -1,
        attempts: 0,
        failure_class: FailureClass::Red,
        base_sha: String::new(),
        head_sha: String::new(),
        commits_ahead: 0,
        pr_url: None,
        reason: Some(concat2("run failed before completion: ", text.as_str())),
        started_at: owned(started_at),
        finished_at,
        schema_version: CURRENT_SCHEMA_VERSION,
        change_id: copy_opt(change_id),
    }
}

// ───────────────────────────── the batch ─────────────────────────────

/// The mathematical value of a [`BatchState`].
pub struct BatchStateView {
    pub jobs: Seq<RepoJobView>,
    pub default_profile: Seq<char>,
    pub change_id: Option<Seq<char>>,
    pub dry_run: bool,
    /// One record per job run so far, in order.
    pub records: Seq<LedgerRecordView>,
    /// Whether a required repo ended non-Green.
    pub stopped: bool,
    /// When the current job started.
    pub started_at: Seq<char>,
    /// Whether the last record is an error record waiting to be appended.
    pub appending: bool,
}

/// What the caller does next in a batch.
#[derive(Debug)]
pub enum BatchAction {
    /// Run the job: make a runner for it, and run the orchestrator with `inputs`.
    RunJob { job: RepoJob, inputs: RunInputs },
    /// Append the error record of the job that just failed to the ledger
    /// (best-effort), and hand the reply to [`BatchState::appended`].
    AppendLedger { record: LedgerRecord },
    /// The batch is over; [`BatchState::into_records`] gives its records.
    Done,
}

/// The mathematical value of a [`BatchAction`].
pub enum BatchActionView {
    RunJob { job: RepoJobView, inputs: RunInputsView },
    AppendLedger { record: LedgerRecordView },
    Done,
}

impl View for BatchAction {
    type V = BatchActionView;

    open spec fn view(&self) -> BatchActionView {
        match self {
            BatchAction::RunJob { job, inputs } => BatchActionView::RunJob {
                job: job@,
                inputs: inputs@,
            },
            BatchAction::AppendLedger { record } => BatchActionView::AppendLedger { record: record@ },
            BatchAction::Done => BatchActionView::Done,
        }
    }
}

/// The views of a sequence of jobs.
pub open spec fn job_views(jobs: Seq<RepoJob>) -> Seq<RepoJobView> {
    jobs.map_values(|j: RepoJob| j@)
}

/// Whether a batch still has a job to run: no error record waits to be
/// appended, none of its required repos ended non-Green, and some job has
/// not run yet.
pub open spec fn running(b: BatchStateView) -> bool {
    !b.appending && !b.stopped && b.records.len() < b.jobs.len()
}

/// What a batch asks for next: the append of a waiting error record, else
/// the next job, else nothing.
pub open spec fn batch_request(b: BatchStateView) -> BatchActionView {
    if b.appending {
        BatchActionView::AppendLedger { record: b.records.last() }
    } else if running(b) {
        let job = b.jobs[b.records.len() as int];
        BatchActionView::RunJob {
            job,
            inputs: job_inputs(job, b.default_profile, b.change_id, b.dry_run),
        }
    } else {
        BatchActionView::Done
    }
}

/// The record that a job's run gives the batch: the run's own record, or
/// the error record.
pub open spec fn settled_record(
    b: BatchStateView,
    result: Result<LedgerRecordView, CoreErrorView>,
    now: TimestampView,
) -> LedgerRecordView {
    let job = b.jobs[b.records.len() as int];
    match result {
        Ok(r) => r,
        Err(e) => error_record(
            job,
            job_profile(job, b.default_profile),
            b.started_at,
            b.change_id,
            e,
            now.rfc3339,
        ),
    }
}

/// The batch after the current job's run gave `result`, the clock reading `now`.
pub open spec fn batch_next(
    b: BatchStateView,
    result: Result<LedgerRecordView, CoreErrorView>,
    now: TimestampView,
) -> BatchStateView {
    let job = b.jobs[b.records.len() as int];
    let record = settled_record(b, result, now);
    BatchStateView {
        records: b.records.push(record),
        stopped: record.failure_class != FailureClass::Green && job.required,
        started_at: now.rfc3339,
        appending: result is Err && !b.dry_run,
        ..b
    }
}

/// The batch after the append of its waiting error record, whatever the
/// ledger replied: the append is best-effort.
pub open spec fn batch_appended(b: BatchStateView) -> BatchStateView {
    BatchStateView { appending: false, ..b }
}

/// The first state of a batch.
pub open spec fn initial_batch(
    jobs: Seq<RepoJobView>,
    default_profile: Seq<char>,
    change_id: Option<Seq<char>>,
    dry_run: bool,
    now: TimestampView,
) -> BatchStateView {
    BatchStateView {
        jobs,
        default_profile,
        change_id,
        dry_run,
        records: Seq::empty(),
        stopped: false,
        started_at: now.rfc3339,
        appending: false,
    }
}

/// The state of a batch between two runs. Only [`start_batch`] and
/// [`BatchState::step`] make one.
#[derive(Debug)]
pub struct BatchState {
    jobs: Vec<RepoJob>,
    default_profile: String,
    change_id: Option<String>,
    dry_run: bool,
    records: Vec<LedgerRecord>,
    stopped: bool,
    started_at: String,
    appending: bool,
}

impl View for BatchState {
    type V = BatchStateView;

    closed spec fn view(&self) -> BatchStateView {
        BatchStateView {
            jobs: job_views(self.jobs@),
            default_profile: self.default_profile@,
            change_id: opt_view(self.change_id),
            dry_run: self.dry_run,
            records: self.records@.map_values(|r: LedgerRecord| r@),
            stopped: self.stopped,
            started_at: self.started_at@,
            appending: self.appending,
        }
    }
}

/// Begins a batch with the clock reading `now`: the first state and what to do first.
pub fn start_batch_at(
    cfg: &Config,
    manifest: ChangeManifest,
    change_id: Option<String>,
    dry_run: bool,
    now: Timestamp,
) -> (r: (BatchState, BatchAction))
    ensures
        r.0@ == initial_batch(
            job_views(manifest.repos@),
            cfg.default_profile@,
            opt_view(change_id),
            dry_run,
            now@,
        ),
        r.1@ == batch_request(r.0@),
{
    let state = BatchState {
        jobs: manifest.repos,
        default_profile: cfg.default_profile.clone(),
        change_id,
        dry_run,
        records: Vec::new(),
        stopped: false,
        started_at: now.rfc3339,
        appending: false,
    };
    assert(state@.records =~= Seq::<LedgerRecordView>::empty());
    let action = state.request();
    (state, action)
}

/// Begins a batch, reading the clock for the first job's start time.
pub fn start_batch(cfg: &Config, manifest: ChangeManifest, change_id: Option<String>, dry_run: bool) -> (r: (
    BatchState,
    BatchAction,
))
    ensures
        exists|now: TimestampView|
            is_reading(now) && r.0@ == #[trigger] initial_batch(
                job_views(manifest.repos@),
                cfg.default_profile@,
                opt_view(change_id),
                dry_run,
                now,
            ) && r.1@ == batch_request(r.0@),
{
    let now = read_clock();
    start_batch_at(cfg, manifest, change_id, dry_run, now)
}

impl BatchState {
    /// Whether the batch still has a job to run.
    pub fn is_running(&self) -> (b: bool)
        ensures
            b == running(self@),
    {
        !self.appending && !self.stopped && self.records.len() < self.jobs.len()
    }

    /// Whether the batch waits for the reply of a ledger append.
    pub fn is_appending(&self) -> (b: bool)
        ensures
            b == self@.appending,
    {
        self.appending
    }

    fn request(&self) -> (a: BatchAction)
        requires
            self@.appending ==> self@.records.len() > 0,
        ensures
            a@ == batch_request(self@),
    {
        if self.appending {
            let last = self.records.len() - 1;
            BatchAction::AppendLedger { record: self.records[last].duplicate() }
        } else if !self.stopped && self.records.len() < self.jobs.len() {
            let job = &self.jobs[self.records.len()];
            let inputs = job_run_inputs(job, &self.default_profile, &self.change_id, self.dry_run);
            BatchAction::RunJob { job: job.duplicate(), inputs }
        } else {
            BatchAction::Done
        }
    }

    /// Takes the result of the current job's run, with the clock reading
    /// `now`, and gives the next state and what to do next.
    pub fn step_at(self, result: Result<LedgerRecord, CoreError>, now: Timestamp) -> (r: (
        BatchState,
        BatchAction,
    ))
        requires
            running(self@),
        ensures
            r.0@ == batch_next(self@, result_view(result), now@),
            r.1@ == batch_request(r.0@),
    {
        let ghost old_view = self@;
        let index = self.records.len();
        let job = &self.jobs[index];
        let failed = result.is_err();
        let record = match result {
            Ok(r) => r,
            Err(e) => {
                let profile = job_profile_exec(job, &self.default_profile);
                make_error_record(
                    job,
                    profile.as_str(),
                    self.started_at.as_str(),
                    &self.change_id,
                    &e,
                    now.rfc3339.clone(),
                )
            },
        };
        let stop = !(record.failure_class == FailureClass::Green) && job.required;
        let mut records = self.records;
        let ghost record_view = record@;
        records.push(record);
        let appending = failed && !self.dry_run;
        let state = BatchState { records, stopped: stop, started_at: now.rfc3339, appending, ..self };
        assert(state@.records =~= old_view.records.push(record_view));
        let action = state.request();
        (state, action)
    }

    /// Takes the result of the current job's run, reads the clock, and gives
    /// the next state and what to do next.
    pub fn step(self, result: Result<LedgerRecord, CoreError>) -> (r: (BatchState, BatchAction))
        requires
            running(self@),
        ensures
            exists|now: TimestampView|
                is_reading(now) && r.0@ == #[trigger] batch_next(self@, result_view(result), now) && r.1@ == batch_request(
                    r.0@,
                ),
    {
        let now = read_clock();
        self.step_at(result, now)
    }

    /// Takes the reply of the ledger append of the waiting error record and
    /// gives the next state and what to do next; a failed append is not an
    /// error of the batch.
    pub fn appended(self, result: Result<(), CoreError>) -> (r: (BatchState, BatchAction))
        requires
            self@.appending,
        ensures
            r.0@ == batch_appended(self@),
            r.1@ == batch_request(r.0@),
    {
        let state = BatchState { appending: false, ..self };
        let action = state.request();
        (state, action)
    }

    /// The records of the batch, one per job run, in order.
    pub fn into_records(self) -> (records: Vec<LedgerRecord>)
        ensures
            records@.map_values(|r: LedgerRecord| r@) == self@.records,
    {
        self.records
    }
}

} // verus!

verus! {

// ───────────────────────────── laws ─────────────────────────────

/// Whether the record of job `i` stops a batch: it is not Green and the job is required.
pub open spec fn stops_batch(b: BatchStateView, i: int) -> bool {
    b.records[i].failure_class != FailureClass::Green && b.jobs[i].required
}

/// What every state of a batch satisfies: one record per job run, in order,
/// and the batch stopped exactly at the first required repo that ended
/// non-Green.
pub open spec fn batch_consistent(b: BatchStateView) -> bool {
    &&& b.records.len() <= b.jobs.len()
    &&& forall|i: int|
        0 <= i < b.records.len() && (i + 1 < b.records.len() || !b.stopped) ==> !stops_batch(b, i)
    &&& b.stopped ==> b.records.len() > 0 && stops_batch(b, b.records.len() - 1)
    &&& b.appending ==> b.records.len() > 0
}

/// A batch starts consistent, with no record.
pub proof fn lemma_batch_start(
    jobs: Seq<RepoJobView>,
    default_profile: Seq<char>,
    change_id: Option<Seq<char>>,
    dry_run: bool,
    now: TimestampView,
)
    ensures
        batch_consistent(initial_batch(jobs, default_profile, change_id, dry_run, now)),
        initial_batch(jobs, default_profile, change_id, dry_run, now).records.len() == 0,
{
}

/// Ordered stop on failure: each run adds exactly one record, for the job in
/// list order; the batch goes on after a non-Green repo only when that repo
/// is not required, and is done when it stopped or every job ran. A run that
/// failed before completion has its error record appended to the ledger
/// next, unless the batch is a dry run.
pub proof fn lemma_batch_step(
    b: BatchStateView,
    result: Result<LedgerRecordView, CoreErrorView>,
    now: TimestampView,
)
    requires
        batch_consistent(b),
        running(b),
    ensures
        batch_consistent(batch_next(b, result, now)),
        batch_next(b, result, now).records == b.records.push(settled_record(b, result, now)),
        batch_next(b, result, now).stopped == stops_batch(
            batch_next(b, result, now),
            b.records.len() as int,
        ),
        batch_request(batch_next(b, result, now)) is AppendLedger <==> (result is Err
            && !b.dry_run),
        batch_request(batch_next(b, result, now)) matches BatchActionView::AppendLedger { record }
            ==> record == settled_record(b, result, now),
        !(result is Err && !b.dry_run) ==> (batch_request(batch_next(b, result, now)) is Done <==> (
        batch_next(b, result, now).stopped || b.records.len() + 1 == b.jobs.len())),
{
    let b2 = batch_next(b, result, now);
    assert forall|i: int|
        0 <= i < b2.records.len() && (i + 1 < b2.records.len() || !b2.stopped) implies !stops_batch(
        b2,
        i,
    ) by {
        if i < b.records.len() {
            assert(b2.records[i] == b.records[i]);
            assert(!stops_batch(b, i));
        }
    }
}

/// After the append of a waiting error record, whatever the ledger replied,
/// the batch keeps its records and goes on as it would have: done when it
/// stopped or every job ran, the next job otherwise.
pub proof fn lemma_batch_appended(b: BatchStateView)
    requires
        batch_consistent(b),
        b.appending,
    ensures
        batch_consistent(batch_appended(b)),
        batch_appended(b).records == b.records,
        !(batch_request(batch_appended(b)) is AppendLedger),
        batch_request(batch_appended(b)) is Done <==> (b.stopped || b.records.len() == b.jobs.len()),
{
    let b2 = batch_appended(b);
    assert forall|i: int| 0 <= i < b2.records.len() implies stops_batch(b2, i) == stops_batch(b, i) by {}
}

/// The run of a job uses what the job names: its workspace and plan, its
/// own trunk (`"main"` only when it names none), its own profile (the
/// batch's default only when it names none), its slug override, and the
/// batch's change id and dry-run flag; and that run's profile is the job's
/// whatever the configured default.
pub proof fn lemma_job_inputs_follow_the_job(
    job: RepoJobView,
    default_profile: Seq<char>,
    change_id: Option<Seq<char>>,
    dry_run: bool,
    max_attempts: u32,
    other_default: Seq<char>,
    now: TimestampView,
)
    ensures
        ({
            let i = job_inputs(job, default_profile, change_id, dry_run);
            &&& i.workspace == job.workspace
            &&& i.plan_ref == job.plan_ref
            &&& job.trunk matches Some(t) ==> i.trunk == t
            &&& job.trunk is None ==> i.trunk == seq!['m', 'a', 'i', 'n']
            &&& job.profile matches Some(p) ==> i.profile == Some(p)
            &&& job.profile is None ==> i.profile == Some(default_profile)
            &&& i.slug_override == job.slug_override
            &&& i.change_id == change_id
            &&& i.dry_run == dry_run
            &&& job.profile matches Some(p) ==> initial_state(max_attempts, other_default, i, now).profile
                == p
        }),
{
}

/// Every record of a batch carries the batch's change id, as long as each
/// run's own record carries it (the orchestrator stamps the change id of its
/// inputs, which the batch sets to its own); error records carry it too.
pub proof fn lemma_batch_stamps(
    b: BatchStateView,
    result: Result<LedgerRecordView, CoreErrorView>,
    now: TimestampView,
)
    requires
        running(b),
        forall|i: int| 0 <= i < b.records.len() ==> #[trigger] b.records[i].change_id == b.change_id,
        result matches Ok(r) ==> r.change_id == b.change_id,
    ensures
        forall|i: int|
            0 <= i < batch_next(b, result, now).records.len() ==> #[trigger] batch_next(
                b,
                result,
                now,
            ).records[i].change_id == b.change_id,
        batch_request(b) matches BatchActionView::RunJob { inputs, .. } ==> inputs.change_id
            == b.change_id,
        batch_request(batch_next(b, result, now)) matches BatchActionView::AppendLedger { record }
            ==> record.change_id == b.change_id,
{
    let b2 = batch_next(b, result, now);
    assert forall|i: int| 0 <= i < b2.records.len() implies #[trigger] b2.records[i].change_id
        == b.change_id by {
        if i < b.records.len() {
            assert(b2.records[i] == b.records[i]);
        }
    }
}

} // verus!
