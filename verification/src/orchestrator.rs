//! Orchestrator: the decisions of a plan-cycle run.
//!
//! A run alternates work outside the library (git, the plan-cycle executor,
//! cerebrum, the ledger, Telegram) with decisions. The decisions live here as
//! a state machine: [`start`] gives the first state and the first [`Action`]
//! to perform; [`RunState::step`] takes the [`Event`] that the action
//! produced and gives the next state and action, until [`Action::Finish`]
//! hands back the run's result.
//!
//! The flow:
//!
//! 1. **Clean-start gate**: fetch `origin/<trunk>`, then the current branch
//!    must be `<trunk>`, the working tree clean, and the local `<trunk>` equal
//!    to the remote one. A failure gives a Red record at once (appended to the
//!    ledger and announced), without creating any branch.
//! 2. **Branch-staleness gate**: capture `base_sha`, fetch the plan, derive
//!    slug and branch. An existing branch that does not contain `base_sha`
//!    gives a Red record, without touching the branch or opening a session.
//! 3. **Branch management**: create or switch to the feature branch.
//! 4. **Retry loop**: run the plan cycle up to `max_attempts` times; only
//!    exit code `2` (Orange) is retried, every other code stops the loop. A
//!    run allowed no attempt gives up as exit code `2`.
//! 5. **Post-run invariants**: a green exit with a dirty tree, or with a
//!    `HEAD` that does not descend from `base_sha`, is overridden to Red.
//! 6. **PR decision**: a PR is opened (or an open one reused) only on a green
//!    run with commits ahead of `base_sha`.
//! 7. **Finalise**: the record is appended to the ledger and announced, and
//!    the session is cleaned up, all best-effort: a failure of any of the
//!    three is left to the caller to log, and the run still returns its
//!    record.

use vstd::prelude::*;
use crate::cerebrum::session_id_of;
use crate::clock::{Timestamp, TimestampView, is_reading, read_clock};
use crate::config::Config;
use crate::error::{CoreError, CoreErrorView, error_text};
use crate::failure::{FailureClass, class_of_exit_code};
use crate::ledger::{CURRENT_SCHEMA_VERSION, LedgerRecord, LedgerRecordView};
use crate::plan::{branch_name, branch_of, feat_prefix, markdown_title, parse_title, slug_of, slugify};
use crate::runner::{Rollup, RollupView};
use crate::telegram::{message_text, render};
use crate::text::{
    bool_string, bool_text, chars_of, concat2, concat3, copy_opt, decimal, decimal_text, opt_view,
    owned, push_char, signed_decimal, signed_decimal_text, string_of_range,
};

verus! {

// ───────────────────────────── run inputs ─────────────────────────────

/// Inputs supplied by the caller (MCP tool or CLI) for a single run.
#[derive(Debug)]
pub struct RunInputs {
    /// Absolute path to the workspace repository root.
    pub workspace: String,
    /// Repository name (typically the workspace directory basename).
    pub repo: String,
    /// Reference to the plan stored in cerebrum.
    pub plan_ref: String,
    /// Pipeline profile to use; the configuration's default when `None`.
    pub profile: Option<String>,
    /// Override of the branch slug; derived from the plan title when `None`.
    pub slug_override: Option<String>,
    /// Trunk branch name (the clean-start gate branch and the PR base).
    pub trunk: String,
    /// Correlates this run's record with a multi-repo batch; `None` for a
    /// standalone run.
    pub change_id: Option<String>,
    /// When `true`, runs the executor's dry-run mode: no branch, push, PR
    /// or ledger side effects.
    pub dry_run: bool,
}

/// The mathematical value of [`RunInputs`].
pub struct RunInputsView {
    pub workspace: Seq<char>,
    pub repo: Seq<char>,
    pub plan_ref: Seq<char>,
    pub profile: Option<Seq<char>>,
    pub slug_override: Option<Seq<char>>,
    pub trunk: Seq<char>,
    pub change_id: Option<Seq<char>>,
    pub dry_run: bool,
}

impl View for RunInputs {
    type V = RunInputsView;

    open spec fn view(&self) -> RunInputsView {
        RunInputsView {
            workspace: self.workspace@,
            repo: self.repo@,
            plan_ref: self.plan_ref@,
            profile: opt_view(self.profile),
            slug_override: opt_view(self.slug_override),
            trunk: self.trunk@,
            change_id: opt_view(self.change_id),
            dry_run: self.dry_run,
        }
    }
}

/// `"main"`, the trunk assumed when a caller does not name one.
pub open spec fn main_trunk() -> Seq<char> {
    seq!['m', 'a', 'i', 'n']
}

impl RunInputs {
    /// The trunk branch name assumed when a caller doesn't set one: `"main"`.
    pub fn default_trunk() -> (t: String)
        ensures
            t@ == main_trunk(),
    {
        let mut t = String::new();
        push_char(&mut t, 'm');
        push_char(&mut t, 'a');
        push_char(&mut t, 'i');
        push_char(&mut t, 'n');
        assert(t@ =~= main_trunk());
        t
    }
}

// ───────────────────────────── run ids ─────────────────────────────

/// The index of the last `':'` in `s`, or `-1` when there is none.
pub open spec fn last_colon(s: Seq<char>) -> int
    decreases s.len(),
{
    if s.len() == 0 {
        -1
    } else if s.last() == ':' {
        s.len() - 1
    } else {
        last_colon(s.drop_last())
    }
}

/// Whether a session id has the shape `<scope>:<...>:<nanos>`: a last `':'`
/// with another `':'` before it and some text after it.
pub open spec fn has_nanos_segment(session: Seq<char>) -> bool {
    let k = last_colon(session);
    k >= 0 && k + 1 < session.len() && last_colon(session.take(k)) >= 0
}

/// The run id derived from a session id `session:{plan_ref}:{nanos}`:
/// `"run-"` followed by the text after the last `':'`. A session id of any
/// other shape (no `':'`, a single one as in `"session:{plan_ref}"`, or
/// nothing after the last one) gives `"run-"` followed by the whole id.
pub open spec fn run_id_of(session: Seq<char>) -> Seq<char> {
    let k = last_colon(session);
    if has_nanos_segment(session) {
        "run-"@ + session.skip(k + 1)
    } else {
        "run-"@ + session
    }
}

proof fn lemma_last_colon_bounds(s: Seq<char>)
    ensures
        -1 <= last_colon(s) < s.len(),
        last_colon(s) >= 0 ==> s[last_colon(s)] == ':',
    decreases s.len(),
{
    if s.len() > 0 && s.last() != ':' {
        lemma_last_colon_bounds(s.drop_last());
    }
}

/// Derives a run-id from a session string of the form
/// `session:{plan_ref}:{nanos}` by taking the final `:`-delimited segment.
/// Falls back to one derived from the whole session string when the shape
/// doesn't match. Never panics, never returns an empty string.
pub fn run_id_from_session(session: &str) -> (r: String)
    ensures
        r@ == run_id_of(session@),
{
    let chars = chars_of(session);
    let ghost s = chars@;
    let n = chars.len();
    let mut j = n;
    assert(s.take(n as int) == s);
    while j > 0 && chars[j - 1] != ':'
        invariant
            j <= n == chars.len(),
            s == chars@,
            last_colon(s) == last_colon(s.take(j as int)),
        decreases j,
    {
        assert(s.take(j as int).drop_last() == s.take(j - 1));
        j -= 1;
    }
    assert(s.take(n as int) == s);
    let mut earlier = false;
    if j > 0 && j < n {
        let mut i = j - 1;
        assert(s.take(i as int) == s.take(j - 1));
        while i > 0 && chars[i - 1] != ':'
            invariant
                i < j <= n == chars.len(),
                s == chars@,
                last_colon(s.take(j - 1)) == last_colon(s.take(i as int)),
            decreases i,
        {
            assert(s.take(i as int).drop_last() == s.take(i - 1));
            i -= 1;
        }
        proof {
            lemma_last_colon_bounds(s.take(i as int));
            if i > 0 {
                assert(s.take(i as int).last() == ':');
            }
        }
        earlier = i > 0;
    }
    if j > 0 && j < n && earlier {
        assert(last_colon(s) == j - 1);
        let tail = string_of_range(&chars, j, n);
        assert(s.subrange(j as int, n as int) == s.skip(j as int));
        concat2("run-", tail.as_str())
    } else {
        proof {
            lemma_last_colon_bounds(s);
            if j > 0 && j < n {
                assert(last_colon(s) == j - 1);
            }
        }
        concat2("run-", session)
    }
}

proof fn lemma_last_colon_append(x: Seq<char>, d: Seq<char>)
    requires
        forall|i: int| 0 <= i < d.len() ==> d[i] != ':',
    ensures
        last_colon(x + d) == last_colon(x),
    decreases d.len(),
{
    if d.len() > 0 {
        assert((x + d).drop_last() =~= x + d.drop_last());
        lemma_last_colon_append(x, d.drop_last());
    } else {
        assert(x + d =~= x);
    }
}

proof fn lemma_last_colon_at_least(s: Seq<char>, i: int)
    requires
        0 <= i < s.len(),
        s[i] == ':',
    ensures
        last_colon(s) >= i,
    decreases s.len(),
{
    if s.last() != ':' {
        lemma_last_colon_at_least(s.drop_last(), i);
    }
}

proof fn lemma_decimal_has_no_colon(n: nat)
    ensures
        decimal(n).len() >= 1,
        forall|i: int| 0 <= i < decimal(n).len() ==> decimal(n)[i] != ':',
    decreases n,
{
    let ds = seq!['0', '1', '2', '3', '4', '5', '6', '7', '8', '9'];
    assert forall|d: int| 0 <= d < 10 implies ds[d] != ':' by {}
    if n >= 10 {
        lemma_decimal_has_no_colon(n / 10);
    }
}

/// A minted session id `session:<plan_ref>:<nanos>` gives the run id
/// `"run-<nanos>"`, whatever the plan reference holds.
pub proof fn lemma_minted_run_id(plan_ref: Seq<char>, now: TimestampView)
    ensures
        run_id_of(session_id_of(plan_ref, now)) == "run-"@ + signed_decimal(
            match now.nanos {
                Some(n) => n as int,
                None => 0,
            },
        ),
{
    reveal_strlit("session:");
    reveal_strlit(":");
    let v: int = match now.nanos {
        Some(n) => n as int,
        None => 0,
    };
    let d = signed_decimal(v);
    let m: nat = if v < 0 { (-v) as nat } else { v as nat };
    lemma_decimal_has_no_colon(m);
    assert forall|i: int| 0 <= i < d.len() implies d[i] != ':' by {
        if v < 0 {
            assert(d =~= seq!['-'] + decimal(m));
            if i > 0 {
                assert(d[i] == decimal(m)[i - 1]);
            }
        }
    }
    let a = "session:"@ + plan_ref;
    let session = session_id_of(plan_ref, now);
    assert(session =~= (a + ":"@) + d);
    lemma_last_colon_append(a + ":"@, d);
    assert((a + ":"@).drop_last() =~= a);
    let k = a.len() as int;
    assert(last_colon(session) == k);
    assert(session.take(k) =~= a);
    lemma_last_colon_at_least(a, 7);
    assert(has_nanos_segment(session));
    assert(session.skip(k + 1) =~= d);
}

/// Whatever the session id, its run id starts with `"run-"` and is not empty.
pub proof fn lemma_run_id_shape(session: Seq<char>)
    ensures
        run_id_of(session).len() >= 4,
        run_id_of(session).subrange(0, 4) == "run-"@,
{
    reveal_strlit("run-");
    lemma_last_colon_bounds(session);
    let k = last_colon(session);
    if has_nanos_segment(session) {
        assert(("run-"@ + session.skip(k + 1)).subrange(0, 4) =~= "run-"@);
    } else {
        assert(("run-"@ + session).subrange(0, 4) =~= "run-"@);
    }
}

} // verus!

verus! {

// ───────────────────────────── protocol ─────────────────────────────

/// Where a run stands: each phase waits for the reply to one action.
#[derive(Debug, Clone, Copy, PartialEq, Eq, Structural)]
pub enum Phase {
    /// Waiting for `git fetch origin <trunk>`.
    Fetching,
    /// Waiting for the current branch's name.
    ReadingBranch,
    /// Waiting to learn whether the working tree is clean (clean-start gate).
    CheckingClean,
    /// Waiting to learn whether the local trunk matches the remote one.
    CheckingRemote,
    /// A gate refused the run: waiting for the ledger append of the Red record.
    AbortLedger,
    /// A gate refused the run: waiting for the notification to be sent.
    AbortNotice,
    /// Waiting for the trunk's `HEAD` SHA (the base of the run).
    ReadingBase,
    /// Waiting for the plan's text.
    FetchingPlan,
    /// Waiting to learn whether the feature branch already exists (staleness gate).
    ProbingStale,
    /// Waiting to learn whether the existing branch contains the base SHA.
    CheckingContains,
    /// Waiting for a session id.
    OpeningSession,
    /// Waiting to learn whether the feature branch exists (branch management).
    ProbingBranch,
    /// Waiting for the switch to the existing feature branch.
    Switching,
    /// Waiting for the creation of the feature branch.
    Creating,
    /// Waiting for the progress note of the current attempt.
    Noting,
    /// Waiting for the plan cycle of the current attempt.
    Cycling,
    /// Waiting for the `HEAD` SHA after the run.
    ReadingHead,
    /// Waiting for the number of commits ahead of the base.
    CountingAhead,
    /// Waiting to learn whether the tree is clean after the run.
    PostClean,
    /// Waiting to learn whether `HEAD` descends from the base.
    PostDescends,
    /// Waiting for the push of `HEAD`.
    Pushing,
    /// Waiting for the lookup of an open PR for the branch.
    FindingPr,
    /// Waiting for the creation of a PR.
    CreatingPr,
    /// Waiting for the ledger append of the record.
    Appending,
    /// Waiting for the notification to be sent.
    Notifying,
    /// Waiting for the session cleanup.
    Cleaning,
    /// The run is over.
    Finished,
}

/// The work that the caller performs next, with its arguments.
#[derive(Debug)]
pub enum Action {
    /// Fetch `branch` from `remote`; reply [`Event::Unit`].
    GitFetch { remote: String, branch: String },
    /// Read the current branch's name; reply [`Event::Text`].
    CurrentBranch,
    /// Tell whether the working tree is clean; reply [`Event::Flag`].
    IsWorkingTreeClean,
    /// Tell whether the local `branch` matches its remote; reply [`Event::Flag`].
    LocalMatchesRemote { branch: String },
    /// Read the SHA of `HEAD`; reply [`Event::Text`].
    HeadSha,
    /// Fetch the plan's text; reply [`Event::Text`].
    FetchPlan { plan_ref: String },
    /// Tell whether a local branch exists; reply [`Event::Flag`].
    BranchExists { name: String },
    /// Tell whether `branch` contains `commit`; reply [`Event::Flag`].
    BranchContains { branch: String, commit: String },
    /// Open a session for the plan; reply [`Event::Text`] with its id.
    BeginSession { plan_ref: String },
    /// Create the branch and switch to it; reply [`Event::Unit`].
    CreateBranch { name: String },
    /// Switch to the existing branch; reply [`Event::Unit`].
    SwitchBranch { name: String },
    /// Record a progress note (best-effort); reply [`Event::Unit`].
    NoteProgress { session: String, text: String },
    /// Run the plan cycle; reply [`Event::Cycle`].
    RunPlanCycle { workspace: String, plan_ref: String, profile: String, session: String, dry_run: bool },
    /// Count the commits of `HEAD` not reachable from `base_sha`; reply [`Event::Count`].
    CommitsAhead { base_sha: String },
    /// Push `HEAD` to `origin`; reply [`Event::Unit`].
    PushHead,
    /// Look up an open PR for `branch`; reply [`Event::MaybeText`].
    FindPr { branch: String },
    /// Create a PR; reply [`Event::Text`] with its URL.
    CreatePr { base: String, title: String, body: String },
    /// Append the record to the ledger; reply [`Event::Unit`].
    AppendLedger { record: LedgerRecord },
    /// Send a notification (best-effort); reply [`Event::Unit`].
    SendTelegram { text: String },
    /// Clean up the session (best-effort); reply [`Event::Unit`].
    CleanupSession { session: String },
    /// The run is over: its result.
    Finish(Result<LedgerRecord, CoreError>),
}

/// The mathematical value of an [`Action`].
pub enum ActionView {
    GitFetch { remote: Seq<char>, branch: Seq<char> },
    CurrentBranch,
    IsWorkingTreeClean,
    LocalMatchesRemote { branch: Seq<char> },
    HeadSha,
    FetchPlan { plan_ref: Seq<char> },
    BranchExists { name: Seq<char> },
    BranchContains { branch: Seq<char>, commit: Seq<char> },
    BeginSession { plan_ref: Seq<char> },
    CreateBranch { name: Seq<char> },
    SwitchBranch { name: Seq<char> },
    NoteProgress { session: Seq<char>, text: Seq<char> },
    RunPlanCycle {
        workspace: Seq<char>,
        plan_ref: Seq<char>,
        profile: Seq<char>,
        session: Seq<char>,
        dry_run: bool,
    },
    CommitsAhead { base_sha: Seq<char> },
    PushHead,
    FindPr { branch: Seq<char> },
    CreatePr { base: Seq<char>, title: Seq<char>, body: Seq<char> },
    AppendLedger { record: LedgerRecordView },
    SendTelegram { text: Seq<char> },
    CleanupSession { session: Seq<char> },
    Finish(Result<LedgerRecordView, CoreErrorView>),
}

impl View for Action {
    type V = ActionView;

    open spec fn view(&self) -> ActionView {
        match self {
            Action::GitFetch { remote, branch } => ActionView::GitFetch {
                remote: remote@,
                branch: branch@,
            },
            Action::CurrentBranch => ActionView::CurrentBranch,
            Action::IsWorkingTreeClean => ActionView::IsWorkingTreeClean,
            Action::LocalMatchesRemote { branch } => ActionView::LocalMatchesRemote {
                branch: branch@,
            },
            Action::HeadSha => ActionView::HeadSha,
            Action::FetchPlan { plan_ref } => ActionView::FetchPlan { plan_ref: plan_ref@ },
            Action::BranchExists { name } => ActionView::BranchExists { name: name@ },
            Action::BranchContains { branch, commit } => ActionView::BranchContains {
                branch: branch@,
                commit: commit@,
            },
            Action::BeginSession { plan_ref } => ActionView::BeginSession { plan_ref: plan_ref@ },
            Action::CreateBranch { name } => ActionView::CreateBranch { name: name@ },
            Action::SwitchBranch { name } => ActionView::SwitchBranch { name: name@ },
            Action::NoteProgress { session, text } => ActionView::NoteProgress {
                session: session@,
                text: text@,
            },
            Action::RunPlanCycle { workspace, plan_ref, profile, session, dry_run } => {
                ActionView::RunPlanCycle {
                    workspace: workspace@,
                    plan_ref: plan_ref@,
                    profile: profile@,
                    session: session@,
                    dry_run: *dry_run,
                }
            },
            Action::CommitsAhead { base_sha } => ActionView::CommitsAhead { base_sha: base_sha@ },
            Action::PushHead => ActionView::PushHead,
            Action::FindPr { branch } => ActionView::FindPr { branch: branch@ },
            Action::CreatePr { base, title, body } => ActionView::CreatePr {
                base: base@,
                title: title@,
                body: body@,
            },
            Action::AppendLedger { record } => ActionView::AppendLedger { record: record@ },
            Action::SendTelegram { text } => ActionView::SendTelegram { text: text@ },
            Action::CleanupSession { session } => ActionView::CleanupSession {
                session: session@,
            },
            Action::Finish(r) => ActionView::Finish(
                match r {
                    Ok(rec) => Ok(rec@),
                    Err(e) => Err(e@),
                },
            ),
        }
    }
}

/// What an action produced, handed back to the state machine.
#[derive(Debug)]
pub enum Event {
    /// The reply to an action that returns nothing.
    Unit(Result<(), CoreError>),
    /// The reply to an action that returns a text (a name, a SHA, a plan, a URL).
    Text(Result<String, CoreError>),
    /// The reply to an action that answers yes or no.
    Flag(Result<bool, CoreError>),
    /// The reply to [`Action::CommitsAhead`].
    Count(Result<u32, CoreError>),
    /// The reply to [`Action::RunPlanCycle`].
    Cycle(Result<Rollup, CoreError>),
    /// The reply to [`Action::FindPr`].
    MaybeText(Result<Option<String>, CoreError>),
}

/// The mathematical value of an [`Event`].
pub enum EventView {
    Unit(Result<(), CoreErrorView>),
    Text(Result<Seq<char>, CoreErrorView>),
    Flag(Result<bool, CoreErrorView>),
    Count(Result<u32, CoreErrorView>),
    Cycle(Result<RollupView, CoreErrorView>),
    MaybeText(Result<Option<Seq<char>>, CoreErrorView>),
}

impl View for Event {
    type V = EventView;

    open spec fn view(&self) -> EventView {
        match self {
            Event::Unit(r) => EventView::Unit(
                match r {
                    Ok(u) => Ok(*u),
                    Err(e) => Err(e@),
                },
            ),
            Event::Text(r) => EventView::Text(
                match r {
                    Ok(s) => Ok(s@),
                    Err(e) => Err(e@),
                },
            ),
            Event::Flag(r) => EventView::Flag(
                match r {
                    Ok(b) => Ok(*b),
                    Err(e) => Err(e@),
                },
            ),
            Event::Count(r) => EventView::Count(
                match r {
                    Ok(n) => Ok(*n),
                    Err(e) => Err(e@),
                },
            ),
            Event::Cycle(r) => EventView::Cycle(
                match r {
                    Ok(rollup) => Ok(rollup@),
                    Err(e) => Err(e@),
                },
            ),
            Event::MaybeText(r) => EventView::MaybeText(
                match r {
                    Ok(o) => Ok(opt_view(*o)),
                    Err(e) => Err(e@),
                },
            ),
        }
    }
}

/// Whether `e` is the kind of reply that a state in phase `p` waits for.
pub open spec fn accepts(p: Phase, e: EventView) -> bool {
    match p {
        Phase::Fetching | Phase::AbortLedger | Phase::AbortNotice | Phase::Switching
        | Phase::Creating | Phase::Noting | Phase::Pushing | Phase::Appending | Phase::Notifying
        | Phase::Cleaning => e is Unit,
        Phase::ReadingBranch | Phase::ReadingBase | Phase::FetchingPlan | Phase::OpeningSession
        | Phase::ReadingHead | Phase::CreatingPr => e is Text,
        Phase::CheckingClean | Phase::CheckingRemote | Phase::ProbingStale
        | Phase::CheckingContains | Phase::ProbingBranch | Phase::PostClean
        | Phase::PostDescends => e is Flag,
        Phase::Cycling => e is Cycle,
        Phase::CountingAhead => e is Count,
        Phase::FindingPr => e is MaybeText,
        Phase::Finished => false,
    }
}

/// The mathematical value of a [`RunState`]: the phase, what the run was
/// given, and what it has learnt so far.
pub struct RunStateView {
    pub phase: Phase,
    pub max_attempts: u32,
    pub inputs: RunInputsView,
    pub profile: Seq<char>,
    pub started_at: Seq<char>,
    pub base_sha: Seq<char>,
    pub title: Seq<char>,
    pub slug: Seq<char>,
    pub branch: Seq<char>,
    pub session: Seq<char>,
    /// The current attempt while one runs; afterwards, the number of attempts made.
    pub attempt: u32,
    /// The exit code that decides the class (after the correlation check).
    pub exit_code: i32,
    /// The diagnosis of a green exit that came without its ledger correlation.
    pub correlation: Option<Seq<char>>,
    pub head_sha: Seq<char>,
    pub commits_ahead: u32,
    pub finished_at: Seq<char>,
    /// The record being appended, announced and returned.
    pub record: LedgerRecordView,
}

} // verus!

verus! {

// ───────────────────────────── texts ─────────────────────────────

/// Why the clean-start gate refuses a run that is not on the trunk.
pub open spec fn off_trunk_reason(current: Seq<char>, trunk: Seq<char>) -> Seq<char> {
    "current branch is '"@ + current + "', not '"@ + trunk + "'"@
}

/// Why the clean-start gate refuses a run whose local trunk differs from the remote one.
pub open spec fn behind_reason(trunk: Seq<char>) -> Seq<char> {
    "local "@ + trunk + " is behind remote"@
}

/// The error of a plan without a level-1 heading.
pub open spec fn no_heading_error(plan_ref: Seq<char>) -> CoreErrorView {
    CoreErrorView::Message("no level-1 heading found in plan '"@ + plan_ref + "'"@)
}

/// Why the staleness gate refuses an existing branch that lacks the base.
pub open spec fn stale_reason(branch: Seq<char>, trunk: Seq<char>, base: Seq<char>) -> Seq<char> {
    "existing branch '"@ + branch + "' is stale: it does not contain the current "@ + trunk
        + " tip "@ + base + "; delete the branch or pass --slug/--change-ref"@
}

/// The progress note of an attempt.
pub open spec fn attempt_note(n: u32) -> Seq<char> {
    "attempt "@ + decimal(n as nat) + " started"@
}

/// The diagnosis of a green exit that came without its ledger correlation.
pub open spec fn correlation_diagnosis(run_id_ok: bool, path_ok: bool, lines_ok: bool) -> Seq<
    char,
> {
    "diagnosis: missing or empty ledger correlation (run_id present: "@ + bool_text(run_id_ok)
        + ", ledger_path present: "@ + bool_text(path_ok) + ", ledger_lines non-empty: "@
        + bool_text(lines_ok)
        + ") \u{2014} a technically-successful exit must not be reported green without its own ledger being found and correlated"@
}

/// Why a green exit that left the tree dirty is Red.
pub open spec fn dirty_reason() -> Seq<char> {
    "executor left tree dirty (pipeline invariant violation)"@
}

/// Why a green exit whose `HEAD` does not descend from the base is Red.
pub open spec fn diverged_reason(head: Seq<char>, base: Seq<char>) -> Seq<char> {
    "post-run invariant: HEAD "@ + head + " does not descend from base "@ + base
        + " \u{2014} adopted a divergent/stale branch"@
}

/// The body of the pull request of a run.
pub open spec fn pr_body(slug: Seq<char>, branch: Seq<char>) -> Seq<char> {
    "Automated run of plan `"@ + slug + "` on branch `"@ + branch + "`."@
}

/// The reason of a green run with nothing to land.
pub open spec fn no_changes_reason() -> Seq<char> {
    "no changes to land"@
}

/// The reason of an Orange run.
pub open spec fn exhausted_reason() -> Seq<char> {
    "max attempts reached without success"@
}

/// The reason of a Red run that the executor's exit code decided.
pub open spec fn hard_failure_reason() -> Seq<char> {
    "plan cycle exited with hard failure"@
}

/// The reason of a green run whose push failed.
pub open spec fn push_failed_reason(e: CoreErrorView) -> Seq<char> {
    "plan succeeded but branch push failed: "@ + error_text(e)
}

/// The reason of a green run whose PR lookup failed.
pub open spec fn lookup_failed_reason(e: CoreErrorView) -> Seq<char> {
    "plan succeeded but PR lookup failed: "@ + error_text(e)
}

/// The reason of a green run whose PR creation failed.
pub open spec fn creation_failed_reason(e: CoreErrorView) -> Seq<char> {
    "plan succeeded but PR creation failed: "@ + error_text(e)
}

/// The reason of a dry run.
pub open spec fn dry_run_reason() -> Seq<char> {
    "dry run: no branch/push/PR/ledger side effects performed"@
}

/// The publish reason joined with the correlation diagnosis: the diagnosis
/// alone when there is no reason, and `"<reason> (<diagnosis>)"` when there are both.
pub open spec fn combined_reason(reason: Option<Seq<char>>, correlation: Option<Seq<char>>) -> Option<
    Seq<char>,
> {
    match reason {
        None => correlation,
        Some(r) => match correlation {
            Some(extra) => Some(r + " ("@ + extra + ")"@),
            None => Some(r),
        },
    }
}

/// Whether a green exit came with its ledger correlation: a non-empty run
/// id, a ledger path, and at least one ledger line.
pub open spec fn correlated(r: RollupView) -> bool {
    &&& r.run_id matches Some(id) && id.len() > 0
    &&& r.ledger_path is Some
    &&& r.ledger_line_count > 0
}

// ───────────────────────────── records ─────────────────────────────

/// The run id of a record written before a session exists: `"run-<nanos>"`.
pub open spec fn clock_run_id(now: TimestampView) -> Seq<char> {
    "run-"@ + signed_decimal(
        match now.nanos {
            Some(n) => n as int,
            None => 0,
        },
    )
}

/// The Red record of a run that the clean-start gate refused.
pub open spec fn gate_record(s: RunStateView, reason: Seq<char>, now: TimestampView) -> LedgerRecordView {
    LedgerRecordView {
        run_id: clock_run_id(now),
        plan_id: Seq::empty(),
        repo: s.inputs.repo,
        branch: s.inputs.trunk,
        profile: s.profile,
        exit_code: -1i32,
        attempts: 0,
        failure_class: FailureClass::Red,
        base_sha: Seq::empty(),
        head_sha: Seq::empty(),
        commits_ahead: 0,
        pr_url: None,
        reason: Some(reason),
        started_at: s.started_at,
        finished_at: now.rfc3339,
        schema_version: CURRENT_SCHEMA_VERSION,
        change_id: s.inputs.change_id,
    }
}

/// The Red record of a run that the staleness gate refused.
pub open spec fn stale_record(s: RunStateView, now: TimestampView) -> LedgerRecordView {
    LedgerRecordView {
        run_id: clock_run_id(now),
        plan_id: s.slug,
        repo: s.inputs.repo,
        branch: s.branch,
        profile: s.profile,
        exit_code: -1i32,
        attempts: 0,
        failure_class: FailureClass::Red,
        base_sha: s.base_sha,
        head_sha: Seq::empty(),
        commits_ahead: 0,
        pr_url: None,
        reason: Some(stale_reason(s.branch, s.inputs.trunk, s.base_sha)),
        started_at: s.started_at,
        finished_at: now.rfc3339,
        schema_version: CURRENT_SCHEMA_VERSION,
        change_id: s.inputs.change_id,
    }
}

/// The record of a run that went through the plan cycle.
pub open spec fn run_record(
    s: RunStateView,
    class: FailureClass,
    pr_url: Option<Seq<char>>,
    reason: Option<Seq<char>>,
) -> LedgerRecordView {
    LedgerRecordView {
        run_id: run_id_of(s.session),
        plan_id: s.slug,
        repo: s.inputs.repo,
        branch: s.branch,
        profile: s.profile,
        exit_code: s.exit_code,
        attempts: s.attempt,
        failure_class: class,
        base_sha: s.base_sha,
        head_sha: s.head_sha,
        commits_ahead: s.commits_ahead,
        pr_url,
        reason,
        started_at: s.started_at,
        finished_at: s.finished_at,
        schema_version: CURRENT_SCHEMA_VERSION,
        change_id: s.inputs.change_id,
    }
}

/// The record of a dry run: classed by the exit code alone, never a PR.
pub open spec fn dry_record(s: RunStateView) -> LedgerRecordView {
    run_record(s, class_of_exit_code(s.exit_code), None, Some(dry_run_reason()))
}

/// The record with no content, held until a record is decided.
pub open spec fn blank_record() -> LedgerRecordView {
    LedgerRecordView {
        run_id: Seq::empty(),
        plan_id: Seq::empty(),
        repo: Seq::empty(),
        branch: Seq::empty(),
        profile: Seq::empty(),
        exit_code: 0,
        attempts: 0,
        failure_class: FailureClass::Red,
        base_sha: Seq::empty(),
        head_sha: Seq::empty(),
        commits_ahead: 0,
        pr_url: None,
        reason: None,
        started_at: Seq::empty(),
        finished_at: Seq::empty(),
        schema_version: CURRENT_SCHEMA_VERSION,
        change_id: None,
    }
}

// ───────────────────────────── transitions ─────────────────────────────

/// The first state of a run.
pub open spec fn initial_state(max_attempts: u32, default_profile: Seq<char>, inputs: RunInputsView, now: TimestampView) -> RunStateView {
    RunStateView {
        phase: Phase::Fetching,
        max_attempts,
        inputs,
        profile: match inputs.profile {
            Some(p) => p,
            None => default_profile,
        },
        started_at: now.rfc3339,
        base_sha: Seq::empty(),
        title: Seq::empty(),
        slug: Seq::empty(),
        branch: Seq::empty(),
        session: Seq::empty(),
        attempt: 0,
        exit_code: 0,
        correlation: None,
        head_sha: Seq::empty(),
        commits_ahead: 0,
        finished_at: Seq::empty(),
        record: blank_record(),
    }
}

/// The action that a state waits on (for a finished run: its result).
pub open spec fn request(s: RunStateView) -> ActionView {
    match s.phase {
        Phase::Fetching => ActionView::GitFetch { remote: "origin"@, branch: s.inputs.trunk },
        Phase::ReadingBranch => ActionView::CurrentBranch,
        Phase::CheckingClean => ActionView::IsWorkingTreeClean,
        Phase::CheckingRemote => ActionView::LocalMatchesRemote { branch: s.inputs.trunk },
        Phase::AbortLedger => ActionView::AppendLedger { record: s.record },
        Phase::AbortNotice => ActionView::SendTelegram { text: message_text(s.record) },
        Phase::ReadingBase => ActionView::HeadSha,
        Phase::FetchingPlan => ActionView::FetchPlan { plan_ref: s.inputs.plan_ref },
        Phase::ProbingStale => ActionView::BranchExists { name: s.branch },
        Phase::CheckingContains => ActionView::BranchContains {
            branch: s.branch,
            commit: s.base_sha,
        },
        Phase::OpeningSession => ActionView::BeginSession { plan_ref: s.inputs.plan_ref },
        Phase::ProbingBranch => ActionView::BranchExists { name: s.branch },
        Phase::Switching => ActionView::SwitchBranch { name: s.branch },
        Phase::Creating => ActionView::CreateBranch { name: s.branch },
        Phase::Noting => ActionView::NoteProgress {
            session: s.session,
            text: attempt_note(s.attempt),
        },
        Phase::Cycling => ActionView::RunPlanCycle {
            workspace: s.inputs.workspace,
            plan_ref: s.inputs.plan_ref,
            profile: s.profile,
            session: s.session,
            dry_run: s.inputs.dry_run,
        },
        Phase::ReadingHead => ActionView::HeadSha,
        Phase::CountingAhead => ActionView::CommitsAhead { base_sha: s.base_sha },
        Phase::PostClean => ActionView::IsWorkingTreeClean,
        Phase::PostDescends => ActionView::BranchContains { branch: "HEAD"@, commit: s.base_sha },
        Phase::Pushing => ActionView::PushHead,
        Phase::FindingPr => ActionView::FindPr { branch: s.branch },
        Phase::CreatingPr => ActionView::CreatePr {
            base: s.inputs.trunk,
            title: s.title,
            body: pr_body(s.slug, s.branch),
        },
        Phase::Appending => ActionView::AppendLedger { record: s.record },
        Phase::Notifying => ActionView::SendTelegram { text: message_text(s.record) },
        Phase::Cleaning => ActionView::CleanupSession { session: s.session },
        Phase::Finished => ActionView::Finish(Ok(s.record)),
    }
}

/// The outcome of a reply: the run goes on in a new state, or stops with an error.
pub enum Advance {
    Continue(RunStateView),
    Fail(CoreErrorView),
}

/// The state after a refusal of the clean-start gate.
pub open spec fn refuse(s: RunStateView, reason: Seq<char>, now: TimestampView) -> RunStateView {
    RunStateView { phase: Phase::AbortLedger, record: gate_record(s, reason, now), ..s }
}

/// The state that starts the attempts: the first note, or, when no attempt
/// is allowed, the post-run reads with the run given up as exit code 2
/// (Orange): a run whose plan never ran is never Green.
pub open spec fn begin_attempts(s: RunStateView) -> RunStateView {
    if s.max_attempts == 0 {
        RunStateView { phase: Phase::ReadingHead, exit_code: 2, ..s }
    } else {
        RunStateView { phase: Phase::Noting, attempt: 1, ..s }
    }
}

/// The state that records the publish decision.
pub open spec fn conclude(
    s: RunStateView,
    class: FailureClass,
    pr_url: Option<Seq<char>>,
    reason: Option<Seq<char>>,
) -> RunStateView {
    RunStateView {
        phase: Phase::Appending,
        record: run_record(s, class, pr_url, combined_reason(reason, s.correlation)),
        ..s
    }
}

/// The state after a plan cycle that returned `r`.
pub open spec fn after_cycle(s: RunStateView, r: RollupView) -> RunStateView {
    if s.inputs.dry_run {
        RunStateView { phase: Phase::ReadingHead, exit_code: r.exit_code, ..s }
    } else {
        let lacks = r.exit_code == 0 && !correlated(r);
        let code = if lacks {
            2i32
        } else {
            r.exit_code
        };
        let correlation = if lacks {
            Some(
                correlation_diagnosis(
                    r.run_id matches Some(id) && id.len() > 0,
                    r.ledger_path is Some,
                    r.ledger_line_count > 0,
                ),
            )
        } else {
            s.correlation
        };
        if code != 2 || s.attempt >= s.max_attempts {
            RunStateView { phase: Phase::ReadingHead, exit_code: code, correlation, ..s }
        } else {
            RunStateView {
                phase: Phase::Noting,
                exit_code: code,
                correlation,
                attempt: (s.attempt + 1) as u32,
                ..s
            }
        }
    }
}

/// The state after learning whether `HEAD` descends from the base: the
/// class-based publish decision.
pub open spec fn after_descends(s: RunStateView, descends: bool) -> RunStateView {
    if s.exit_code == 0 && !descends {
        conclude(s, FailureClass::Red, None, Some(diverged_reason(s.head_sha, s.base_sha)))
    } else {
        match class_of_exit_code(s.exit_code) {
            FailureClass::Green => if s.commits_ahead > 0 {
                RunStateView { phase: Phase::Pushing, ..s }
            } else {
                conclude(s, FailureClass::Green, None, Some(no_changes_reason()))
            },
            FailureClass::Orange => conclude(
                s,
                FailureClass::Orange,
                None,
                Some(exhausted_reason()),
            ),
            FailureClass::Red => conclude(s, FailureClass::Red, None, Some(hard_failure_reason())),
        }
    }
}

/// What a reply `e` does to a run in state `s`, the clock reading `now`.
pub open spec fn advance(s: RunStateView, e: EventView, now: TimestampView) -> Advance {
    match (s.phase, e) {
        (Phase::Fetching, EventView::Unit(r)) => match r {
            Ok(_) => Advance::Continue(RunStateView { phase: Phase::ReadingBranch, ..s }),
            Err(err) => Advance::Fail(err),
        },
        (Phase::ReadingBranch, EventView::Text(r)) => match r {
            Ok(current) => if current != s.inputs.trunk {
                Advance::Continue(refuse(s, off_trunk_reason(current, s.inputs.trunk), now))
            } else {
                Advance::Continue(RunStateView { phase: Phase::CheckingClean, ..s })
            },
            Err(err) => Advance::Fail(err),
        },
        (Phase::CheckingClean, EventView::Flag(r)) => match r {
            Ok(clean) => if !clean {
                Advance::Continue(refuse(s, "working tree is not clean"@, now))
            } else {
                Advance::Continue(RunStateView { phase: Phase::CheckingRemote, ..s })
            },
            Err(err) => Advance::Fail(err),
        },
        (Phase::CheckingRemote, EventView::Flag(r)) => match r {
            Ok(matches) => if !matches {
                Advance::Continue(refuse(s, behind_reason(s.inputs.trunk), now))
            } else {
                Advance::Continue(RunStateView { phase: Phase::ReadingBase, ..s })
            },
            Err(err) => Advance::Fail(err),
        },
        (Phase::AbortLedger, EventView::Unit(_)) => Advance::Continue(
            RunStateView { phase: Phase::AbortNotice, ..s },
        ),
        (Phase::AbortNotice, EventView::Unit(_)) => Advance::Continue(
            RunStateView { phase: Phase::Finished, ..s },
        ),
        (Phase::ReadingBase, EventView::Text(r)) => match r {
            Ok(sha) => Advance::Continue(
                RunStateView { phase: Phase::FetchingPlan, base_sha: sha, ..s },
            ),
            Err(err) => Advance::Fail(err),
        },
        (Phase::FetchingPlan, EventView::Text(r)) => match r {
            Ok(body) => match markdown_title(body) {
                None => Advance::Fail(no_heading_error(s.inputs.plan_ref)),
                Some(title) => {
                    let slug = match s.inputs.slug_override {
                        Some(o) => o,
                        None => slug_of(title),
                    };
                    Advance::Continue(
                        RunStateView {
                            phase: Phase::ProbingStale,
                            title,
                            slug,
                            branch: branch_of(slug),
                            ..s
                        },
                    )
                },
            },
            Err(err) => Advance::Fail(err),
        },
        (Phase::ProbingStale, EventView::Flag(r)) => match r {
            Ok(exists) => if exists {
                Advance::Continue(RunStateView { phase: Phase::CheckingContains, ..s })
            } else {
                Advance::Continue(RunStateView { phase: Phase::OpeningSession, ..s })
            },
            Err(err) => Advance::Fail(err),
        },
        (Phase::CheckingContains, EventView::Flag(r)) => match r {
            Ok(contains) => if !contains {
                Advance::Continue(
                    RunStateView { phase: Phase::AbortLedger, record: stale_record(s, now), ..s },
                )
            } else {
                Advance::Continue(RunStateView { phase: Phase::OpeningSession, ..s })
            },
            Err(err) => Advance::Fail(err),
        },
        (Phase::OpeningSession, EventView::Text(r)) => match r {
            Ok(session) => if s.inputs.dry_run {
                Advance::Continue(
                    RunStateView { phase: Phase::Noting, session, attempt: 1, ..s },
                )
            } else {
                Advance::Continue(RunStateView { phase: Phase::ProbingBranch, session, ..s })
            },
            Err(err) => Advance::Fail(err),
        },
        (Phase::ProbingBranch, EventView::Flag(r)) => match r {
            Ok(exists) => if exists {
                Advance::Continue(RunStateView { phase: Phase::Switching, ..s })
            } else {
                Advance::Continue(RunStateView { phase: Phase::Creating, ..s })
            },
            Err(err) => Advance::Fail(err),
        },
        (Phase::Switching, EventView::Unit(r)) | (Phase::Creating, EventView::Unit(r)) => match r {
            Ok(_) => Advance::Continue(begin_attempts(s)),
            Err(err) => Advance::Fail(err),
        },
        (Phase::Noting, EventView::Unit(_)) => Advance::Continue(
            RunStateView { phase: Phase::Cycling, ..s },
        ),
        (Phase::Cycling, EventView::Cycle(r)) => match r {
            Ok(rollup) => Advance::Continue(after_cycle(s, rollup)),
            Err(err) => Advance::Fail(err),
        },
        (Phase::ReadingHead, EventView::Text(r)) => match r {
            Ok(sha) => Advance::Continue(
                RunStateView { phase: Phase::CountingAhead, head_sha: sha, ..s },
            ),
            Err(err) => Advance::Fail(err),
        },
        (Phase::CountingAhead, EventView::Count(r)) => match r {
            Ok(n) => {
                let s2 = RunStateView { commits_ahead: n, finished_at: now.rfc3339, ..s };
                if s.inputs.dry_run {
                    Advance::Continue(
                        RunStateView { phase: Phase::Cleaning, record: dry_record(s2), ..s2 },
                    )
                } else {
                    Advance::Continue(RunStateView { phase: Phase::PostClean, ..s2 })
                }
            },
            Err(err) => Advance::Fail(err),
        },
        (Phase::PostClean, EventView::Flag(r)) => {
            let clean = r matches Ok(true);
            if s.exit_code == 0 && !clean {
                Advance::Continue(conclude(s, FailureClass::Red, None, Some(dirty_reason())))
            } else {
                Advance::Continue(RunStateView { phase: Phase::PostDescends, ..s })
            }
        },
        (Phase::PostDescends, EventView::Flag(r)) => Advance::Continue(
            after_descends(s, r matches Ok(true)),
        ),
        (Phase::Pushing, EventView::Unit(r)) => match r {
            Ok(_) => Advance::Continue(RunStateView { phase: Phase::FindingPr, ..s }),
            Err(err) => Advance::Continue(
                conclude(s, FailureClass::Green, None, Some(push_failed_reason(err))),
            ),
        },
        (Phase::FindingPr, EventView::MaybeText(r)) => match r {
            Ok(Some(url)) => Advance::Continue(conclude(s, FailureClass::Green, Some(url), None)),
            Ok(None) => Advance::Continue(RunStateView { phase: Phase::CreatingPr, ..s }),
            Err(err) => Advance::Continue(
                conclude(s, FailureClass::Green, None, Some(lookup_failed_reason(err))),
            ),
        },
        (Phase::CreatingPr, EventView::Text(r)) => match r {
            Ok(url) => Advance::Continue(conclude(s, FailureClass::Green, Some(url), None)),
            Err(err) => Advance::Continue(
                conclude(s, FailureClass::Green, None, Some(creation_failed_reason(err))),
            ),
        },
        (Phase::Appending, EventView::Unit(_)) => Advance::Continue(
            RunStateView { phase: Phase::Notifying, ..s },
        ),
        (Phase::Notifying, EventView::Unit(_)) => Advance::Continue(
            RunStateView { phase: Phase::Cleaning, ..s },
        ),
        (Phase::Cleaning, EventView::Unit(_)) => Advance::Continue(
            RunStateView { phase: Phase::Finished, ..s },
        ),
        _ => Advance::Continue(s),
    }
}

/// One step of a run: the next state and the next action.
pub open spec fn next(s: RunStateView, e: EventView, now: TimestampView) -> (RunStateView, ActionView) {
    match advance(s, e, now) {
        Advance::Continue(s2) => (s2, request(s2)),
        Advance::Fail(err) => (RunStateView { phase: Phase::Finished, ..s }, ActionView::Finish(Err(err))),
    }
}

} // verus!

verus! {

// ───────────────────────────── exec texts ─────────────────────────────

fn off_trunk_reason_text(current: &str, trunk: &str) -> (r: String)
    ensures
        r@ == off_trunk_reason(current@, trunk@),
{
    let mut r = concat3("current branch is '", current, "', not '");
    r.append(trunk);
    r.append("'");
    r
}

fn behind_reason_text(trunk: &str) -> (r: String)
    ensures
        r@ == behind_reason(trunk@),
{
    concat3("local ", trunk, " is behind remote")
}

fn stale_reason_text(branch: &str, trunk: &str, base: &str) -> (r: String)
    ensures
        r@ == stale_reason(branch@, trunk@, base@),
{
    let mut r = concat3(
        "existing branch '",
        branch,
        "' is stale: it does not contain the current ",
    );
    r.append(trunk);
    r.append(" tip ");
    r.append(base);
    r.append("; delete the branch or pass --slug/--change-ref");
    r
}

fn attempt_note_text(n: u32) -> (r: String)
    ensures
        r@ == attempt_note(n),
{
    let digits = decimal_text(n as u64);
    concat3("attempt ", digits.as_str(), " started")
}

fn diagnosis_text(run_id_ok: bool, path_ok: bool, lines_ok: bool) -> (r: String)
    ensures
        r@ == correlation_diagnosis(run_id_ok, path_ok, lines_ok),
{
    let a = bool_string(run_id_ok);
    let b = bool_string(path_ok);
    let c = bool_string(lines_ok);
    let mut r = concat2(
        "diagnosis: missing or empty ledger correlation (run_id present: ",
        a.as_str(),
    );
    r.append(", ledger_path present: ");
    r.append(b.as_str());
    r.append(", ledger_lines non-empty: ");
    r.append(c.as_str());
    r.append(
        ") \u{2014} a technically-successful exit must not be reported green without its own ledger being found and correlated",
    );
    r
}

fn diverged_reason_text(head: &str, base: &str) -> (r: String)
    ensures
        r@ == diverged_reason(head@, base@),
{
    let mut r = concat3("post-run invariant: HEAD ", head, " does not descend from base ");
    r.append(base);
    r.append(" \u{2014} adopted a divergent/stale branch");
    r
}

fn pr_body_text(slug: &str, branch: &str) -> (r: String)
    ensures
        r@ == pr_body(slug@, branch@),
{
    let mut r = concat3("Automated run of plan `", slug, "` on branch `");
    r.append(branch);
    r.append("`.");
    r
}

fn error_reason(prefix: &str, e: &CoreError) -> (r: String)
    ensures
        r@ == prefix@ + error_text(e@),
{
    let text = e.to_display_string();
    concat2(prefix, text.as_str())
}

fn combine_reason(reason: Option<String>, correlation: &Option<String>) -> (r: Option<String>)
    ensures
        opt_view(r) == combined_reason(opt_view(reason), opt_view(*correlation)),
{
    match reason {
        None => copy_opt(correlation),
        Some(text) => match correlation {
            Some(extra) => {
                let mut r = concat3(text.as_str(), " (", extra.as_str());
                r.append(")");
                Some(r)
            },
            None => Some(text),
        },
    }
}

fn clock_run_id_text(now: &Timestamp) -> (r: String)
    ensures
        r@ == clock_run_id(now@),
{
    let nanos: i64 = match now.nanos {
        Some(n) => n,
        None => 0,
    };
    let digits = signed_decimal_text(nanos);
    concat2("run-", digits.as_str())
}

fn blank_record_exec() -> (r: LedgerRecord)
    ensures
        r@ == blank_record(),
{
    LedgerRecord {
        run_id: String::new(),
        plan_id: String::new(),
        repo: String::new(),
        branch: String::new(),
        profile: String::new(),
        exit_code: 0,
        attempts: 0,
        failure_class: FailureClass::Red,
        base_sha: String::new(),
        head_sha: String::new(),
        commits_ahead: 0,
        pr_url: None,
        reason: None,
        started_at: String::new(),
        finished_at: String::new(),
        schema_version: CURRENT_SCHEMA_VERSION,
        change_id: None,
    }
}

// ───────────────────────────── the state ─────────────────────────────

/// The state of a run between two actions. Only [`start`] and
/// [`RunState::step`] make one.
#[derive(Debug)]
pub struct RunState {
    phase: Phase,
    max_attempts: u32,
    inputs: RunInputs,
    profile: String,
    started_at: String,
    base_sha: String,
    title: String,
    slug: String,
    branch: String,
    session: String,
    attempt: u32,
    exit_code: i32,
    correlation: Option<String>,
    head_sha: String,
    commits_ahead: u32,
    finished_at: String,
    record: LedgerRecord,
}

impl View for RunState {
    type V = RunStateView;

    closed spec fn view(&self) -> RunStateView {
        RunStateView {
            phase: self.phase,
            max_attempts: self.max_attempts,
            inputs: self.inputs@,
            profile: self.profile@,
            started_at: self.started_at@,
            base_sha: self.base_sha@,
            title: self.title@,
            slug: self.slug@,
            branch: self.branch@,
            session: self.session@,
            attempt: self.attempt,
            exit_code: self.exit_code,
            correlation: opt_view(self.correlation),
            head_sha: self.head_sha@,
            commits_ahead: self.commits_ahead,
            finished_at: self.finished_at@,
            record: self.record@,
        }
    }
}

/// Begins a run with the clock reading `now`: the first state, and the
/// first action to perform (the fetch of `origin/<trunk>`).
pub fn start_at(cfg: &Config, inputs: RunInputs, now: Timestamp) -> (r: (RunState, Action))
    ensures
        r.0@ == initial_state(cfg.max_attempts, cfg.default_profile@, inputs@, now@),
        r.1@ == request(r.0@),
{
    let profile = match &inputs.profile {
        Some(p) => p.clone(),
        None => cfg.default_profile.clone(),
    };
    let state = RunState {
        phase: Phase::Fetching,
        max_attempts: cfg.max_attempts,
        inputs,
        profile,
        started_at: now.rfc3339,
        base_sha: String::new(),
        title: String::new(),
        slug: String::new(),
        branch: String::new(),
        session: String::new(),
        attempt: 0,
        exit_code: 0,
        correlation: None,
        head_sha: String::new(),
        commits_ahead: 0,
        finished_at: String::new(),
        record: blank_record_exec(),
    };
    let action = state.request();
    (state, action)
}

/// Begins a run, reading the clock for its start time: the first state, and
/// the first action to perform.
pub fn start(cfg: &Config, inputs: RunInputs) -> (r: (RunState, Action))
    ensures
        exists|now: TimestampView|
            is_reading(now) && r.0@ == initial_state(cfg.max_attempts, cfg.default_profile@, inputs@, now)
                && r.1@ == request(r.0@),
{
    let now = read_clock();
    start_at(cfg, inputs, now)
}

impl RunState {
    /// The phase of the run.
    pub fn phase(&self) -> (p: Phase)
        ensures
            p == self@.phase,
    {
        self.phase
    }

    /// Whether `e` is the kind of reply that this state waits for.
    pub fn accepts(&self, e: &Event) -> (b: bool)
        ensures
            b == accepts(self@.phase, e@),
    {
        match self.phase {
            Phase::Fetching | Phase::AbortLedger | Phase::AbortNotice | Phase::Switching
            | Phase::Creating | Phase::Noting | Phase::Pushing | Phase::Appending
            | Phase::Notifying | Phase::Cleaning => matches!(e, Event::Unit(_)),
            Phase::ReadingBranch | Phase::ReadingBase | Phase::FetchingPlan
            | Phase::OpeningSession | Phase::ReadingHead | Phase::CreatingPr => matches!(
                e,
                Event::Text(_)
            ),
            Phase::CheckingClean | Phase::CheckingRemote | Phase::ProbingStale
            | Phase::CheckingContains | Phase::ProbingBranch | Phase::PostClean
            | Phase::PostDescends => matches!(e, Event::Flag(_)),
            Phase::Cycling => matches!(e, Event::Cycle(_)),
            Phase::CountingAhead => matches!(e, Event::Count(_)),
            Phase::FindingPr => matches!(e, Event::MaybeText(_)),
            Phase::Finished => false,
        }
    }

    /// The action that this state waits on.
    fn request(&self) -> (a: Action)
        ensures
            a@ == request(self@),
    {
        match self.phase {
            Phase::Fetching => Action::GitFetch {
                remote: owned("origin"),
                branch: self.inputs.trunk.clone(),
            },
            Phase::ReadingBranch => Action::CurrentBranch,
            Phase::CheckingClean => Action::IsWorkingTreeClean,
            Phase::CheckingRemote => Action::LocalMatchesRemote {
                branch: self.inputs.trunk.clone(),
            },
            Phase::AbortLedger => Action::AppendLedger { record: self.record.duplicate() },
            Phase::AbortNotice => Action::SendTelegram { text: render(&self.record) },
            Phase::ReadingBase => Action::HeadSha,
            Phase::FetchingPlan => Action::FetchPlan { plan_ref: self.inputs.plan_ref.clone() },
            Phase::ProbingStale => Action::BranchExists { name: self.branch.clone() },
            Phase::CheckingContains => Action::BranchContains {
                branch: self.branch.clone(),
                commit: self.base_sha.clone(),
            },
            Phase::OpeningSession => Action::BeginSession {
                plan_ref: self.inputs.plan_ref.clone(),
            },
            Phase::ProbingBranch => Action::BranchExists { name: self.branch.clone() },
            Phase::Switching => Action::SwitchBranch { name: self.branch.clone() },
            Phase::Creating => Action::CreateBranch { name: self.branch.clone() },
            Phase::Noting => Action::NoteProgress {
                session: self.session.clone(),
                text: attempt_note_text(self.attempt),
            },
            Phase::Cycling => Action::RunPlanCycle {
                workspace: self.inputs.workspace.clone(),
                plan_ref: self.inputs.plan_ref.clone(),
                profile: self.profile.clone(),
                session: self.session.clone(),
                dry_run: self.inputs.dry_run,
            },
            Phase::ReadingHead => Action::HeadSha,
            Phase::CountingAhead => Action::CommitsAhead { base_sha: self.base_sha.clone() },
            Phase::PostClean => Action::IsWorkingTreeClean,
            Phase::PostDescends => Action::BranchContains {
                branch: owned("HEAD"),
                commit: self.base_sha.clone(),
            },
            Phase::Pushing => Action::PushHead,
            Phase::FindingPr => Action::FindPr { branch: self.branch.clone() },
            Phase::CreatingPr => Action::CreatePr {
                base: self.inputs.trunk.clone(),
                title: self.title.clone(),
                body: pr_body_text(self.slug.as_str(), self.branch.as_str()),
            },
            Phase::Appending => Action::AppendLedger { record: self.record.duplicate() },
            Phase::Notifying => Action::SendTelegram { text: render(&self.record) },
            Phase::Cleaning => Action::CleanupSession { session: self.session.clone() },
            Phase::Finished => Action::Finish(Ok(self.record.duplicate())),
        }
    }
}

} // verus!

verus! {

impl RunState {
    fn gate_record(&self, reason: String, now: &Timestamp) -> (r: LedgerRecord)
        ensures
            r@ == gate_record(self@, reason@, now@),
    {
        LedgerRecord {
            run_id: clock_run_id_text(now),
            plan_id: String::new(),
            repo: self.inputs.repo.clone(),
            branch: self.inputs.trunk.clone(),
            profile: self.profile.clone(),
            exit_code: -1,
            attempts: 0,
            failure_class: FailureClass::Red,
            base_sha: String::new(),
            head_sha: String::new(),
            commits_ahead: 0,
            pr_url: None,
            reason: Some(reason),
            started_at: self.started_at.clone(),
            finished_at: now.rfc3339.clone(),
            schema_version: CURRENT_SCHEMA_VERSION,
            change_id: copy_opt(&self.inputs.change_id),
        }
    }

    fn stale_record(&self, now: &Timestamp) -> (r: LedgerRecord)
        ensures
            r@ == stale_record(self@, now@),
    {
        LedgerRecord {
            run_id: clock_run_id_text(now),
            plan_id: self.slug.clone(),
            repo: self.inputs.repo.clone(),
            branch: self.branch.clone(),
            profile: self.profile.clone(),
            exit_code: -1,
            attempts: 0,
            failure_class: FailureClass::Red,
            base_sha: self.base_sha.clone(),
            head_sha: String::new(),
            commits_ahead: 0,
            pr_url: None,
            reason: Some(
                stale_reason_text(
                    self.branch.as_str(),
                    self.inputs.trunk.as_str(),
                    self.base_sha.as_str(),
                ),
            ),
            started_at: self.started_at.clone(),
            finished_at: now.rfc3339.clone(),
            schema_version: CURRENT_SCHEMA_VERSION,
            change_id: copy_opt(&self.inputs.change_id),
        }
    }

    fn run_record(&self, class: FailureClass, pr_url: Option<String>, reason: Option<String>) -> (r:
        LedgerRecord)
        ensures
            r@ == run_record(self@, class, opt_view(pr_url), opt_view(reason)),
    {
        LedgerRecord {
            run_id: run_id_from_session(self.session.as_str()),
            plan_id: self.slug.clone(),
            repo: self.inputs.repo.clone(),
            branch: self.branch.clone(),
            profile: self.profile.clone(),
            exit_code: self.exit_code,
            attempts: self.attempt,
            failure_class: class,
            base_sha: self.base_sha.clone(),
            head_sha: self.head_sha.clone(),
            commits_ahead: self.commits_ahead,
            pr_url,
            reason,
            started_at: self.started_at.clone(),
            finished_at: self.finished_at.clone(),
            schema_version: CURRENT_SCHEMA_VERSION,
            change_id: copy_opt(&self.inputs.change_id),
        }
    }

    fn conclude(self, class: FailureClass, pr_url: Option<String>, reason: Option<String>) -> (s:
        RunState)
        ensures
            s@ == conclude(self@, class, opt_view(pr_url), opt_view(reason)),
    {
        let reason = combine_reason(reason, &self.correlation);
        let record = self.run_record(class, pr_url, reason);
        RunState { phase: Phase::Appending, record, ..self }
    }

    fn refuse(self, reason: String, now: &Timestamp) -> (s: RunState)
        ensures
            s@ == refuse(self@, reason@, now@),
    {
        let record = self.gate_record(reason, now);
        RunState { phase: Phase::AbortLedger, record, ..self }
    }

    fn fail(self, err: CoreError) -> (r: (RunState, CoreError))
        ensures
            r.0@ == (RunStateView { phase: Phase::Finished, ..self@ }),
            r.1@ == err@,
    {
        (RunState { phase: Phase::Finished, ..self }, err)
    }

    fn moved_to(self, phase: Phase) -> (s: RunState)
        ensures
            s@ == (RunStateView { phase, ..self@ }),
    {
        RunState { phase, ..self }
    }

    /// The replies of the clean-start gate.
    fn react_gate(self, e: Event, now: &Timestamp) -> (r: Result<RunState, (RunState, CoreError)>)
        requires
            self@.phase == Phase::Fetching || self@.phase == Phase::ReadingBranch || self@.phase
                == Phase::CheckingClean || self@.phase == Phase::CheckingRemote,
            accepts(self@.phase, e@),
        ensures
            match advance(self@, e@, now@) {
                Advance::Continue(s2) => r matches Ok(st) && st@ == s2,
                Advance::Fail(err) => r matches Err(f) && f.0@ == (RunStateView {
                    phase: Phase::Finished,
                    ..self@
                }) && f.1@ == err,
            },
    {
        match (self.phase, e) {
            (Phase::Fetching, Event::Unit(Ok(()))) => Ok(self.moved_to(Phase::ReadingBranch)),
            (Phase::ReadingBranch, Event::Text(Ok(current))) => {
                if !(current == self.inputs.trunk) {
                    let reason = off_trunk_reason_text(current.as_str(), self.inputs.trunk.as_str());
                    Ok(self.refuse(reason, now))
                } else {
                    Ok(self.moved_to(Phase::CheckingClean))
                }
            },
            (Phase::CheckingClean, Event::Flag(Ok(clean))) => {
                if !clean {
                    Ok(self.refuse(owned("working tree is not clean"), now))
                } else {
                    Ok(self.moved_to(Phase::CheckingRemote))
                }
            },
            (Phase::CheckingRemote, Event::Flag(Ok(matches))) => {
                if !matches {
                    let reason = behind_reason_text(self.inputs.trunk.as_str());
                    Ok(self.refuse(reason, now))
                } else {
                    Ok(self.moved_to(Phase::ReadingBase))
                }
            },
            (_, Event::Unit(Err(err))) => Err(self.fail(err)),
            (_, Event::Text(Err(err))) => Err(self.fail(err)),
            (_, Event::Flag(Err(err))) => Err(self.fail(err)),
            (_, _) => Ok(self),
        }
    }

    /// The replies that read the base, the plan, and the staleness of the branch.
    fn react_plan(self, e: Event, now: &Timestamp) -> (r: Result<RunState, (RunState, CoreError)>)
        requires
            self@.phase == Phase::ReadingBase || self@.phase == Phase::FetchingPlan || self@.phase
                == Phase::ProbingStale || self@.phase == Phase::CheckingContains || self@.phase
                == Phase::OpeningSession,
            accepts(self@.phase, e@),
        ensures
            match advance(self@, e@, now@) {
                Advance::Continue(s2) => r matches Ok(st) && st@ == s2,
                Advance::Fail(err) => r matches Err(f) && f.0@ == (RunStateView {
                    phase: Phase::Finished,
                    ..self@
                }) && f.1@ == err,
            },
    {
        match (self.phase, e) {
            (Phase::ReadingBase, Event::Text(Ok(sha))) => Ok(
                RunState { phase: Phase::FetchingPlan, base_sha: sha, ..self },
            ),
            (Phase::FetchingPlan, Event::Text(Ok(body))) => match parse_title(body.as_str()) {
                None => {
                    let message = concat3(
                        "no level-1 heading found in plan '",
                        self.inputs.plan_ref.as_str(),
                        "'",
                    );
                    Err(self.fail(CoreError::Message(message)))
                },
                Some(title) => {
                    let slug = match &self.inputs.slug_override {
                        Some(o) => o.clone(),
                        None => slugify(title.as_str()),
                    };
                    let branch = branch_name(slug.as_str());
                    Ok(RunState { phase: Phase::ProbingStale, title, slug, branch, ..self })
                },
            },
            (Phase::ProbingStale, Event::Flag(Ok(exists))) => {
                if exists {
                    Ok(self.moved_to(Phase::CheckingContains))
                } else {
                    Ok(self.moved_to(Phase::OpeningSession))
                }
            },
            (Phase::CheckingContains, Event::Flag(Ok(contains))) => {
                if !contains {
                    let record = self.stale_record(now);
                    Ok(RunState { phase: Phase::AbortLedger, record, ..self })
                } else {
                    Ok(self.moved_to(Phase::OpeningSession))
                }
            },
            (Phase::OpeningSession, Event::Text(Ok(session))) => {
                if self.inputs.dry_run {
                    Ok(RunState { phase: Phase::Noting, session, attempt: 1, ..self })
                } else {
                    Ok(RunState { phase: Phase::ProbingBranch, session, ..self })
                }
            },
            (_, Event::Text(Err(err))) => Err(self.fail(err)),
            (_, Event::Flag(Err(err))) => Err(self.fail(err)),
            (_, _) => Ok(self),
        }
    }

    /// The replies of branch management and of the attempts.
    fn react_cycle(self, e: Event) -> (r: Result<RunState, (RunState, CoreError)>)
        requires
            self@.phase == Phase::ProbingBranch || self@.phase == Phase::Switching || self@.phase
                == Phase::Creating || self@.phase == Phase::Noting || self@.phase
                == Phase::Cycling,
            accepts(self@.phase, e@),
        ensures
            forall|now: TimestampView|
                match #[trigger] advance(self@, e@, now) {
                    Advance::Continue(s2) => r matches Ok(st) && st@ == s2,
                    Advance::Fail(err) => r matches Err(f) && f.0@ == (RunStateView {
                        phase: Phase::Finished,
                        ..self@
                    }) && f.1@ == err,
                },
    {
        match (self.phase, e) {
            (Phase::ProbingBranch, Event::Flag(Ok(exists))) => {
                if exists {
                    Ok(self.moved_to(Phase::Switching))
                } else {
                    Ok(self.moved_to(Phase::Creating))
                }
            },
            (Phase::Switching, Event::Unit(Ok(()))) | (Phase::Creating, Event::Unit(Ok(()))) => {
                if self.max_attempts == 0 {
                    Ok(RunState { phase: Phase::ReadingHead, exit_code: 2, ..self })
                } else {
                    Ok(RunState { phase: Phase::Noting, attempt: 1, ..self })
                }
            },
            (Phase::Noting, Event::Unit(_)) => Ok(self.moved_to(Phase::Cycling)),
            (Phase::Cycling, Event::Cycle(Ok(rollup))) => {
                if self.inputs.dry_run {
                    Ok(RunState { phase: Phase::ReadingHead, exit_code: rollup.exit_code, ..self })
                } else {
                    let run_id_ok = match &rollup.run_id {
                        Some(id) => !id.as_str().is_empty(),
                        None => false,
                    };
                    let path_ok = rollup.ledger_path.is_some();
                    let lines_ok = rollup.ledger_lines.len() > 0;
                    let lacks = rollup.exit_code == 0 && !(run_id_ok && path_ok && lines_ok);
                    let code: i32 = if lacks {
                        2
                    } else {
                        rollup.exit_code
                    };
                    let correlation = if lacks {
                        Some(diagnosis_text(run_id_ok, path_ok, lines_ok))
                    } else {
                        self.correlation
                    };
                    if code != 2 || self.attempt >= self.max_attempts {
                        Ok(
                            RunState {
                                phase: Phase::ReadingHead,
                                exit_code: code,
                                correlation,
                                ..self
                            },
                        )
                    } else {
                        let next_attempt = self.attempt + 1;
                        Ok(
                            RunState {
                                phase: Phase::Noting,
                                exit_code: code,
                                correlation,
                                attempt: next_attempt,
                                ..self
                            },
                        )
                    }
                }
            },
            (_, Event::Unit(Err(err))) => Err(self.fail(err)),
            (_, Event::Flag(Err(err))) => Err(self.fail(err)),
            (_, Event::Cycle(Err(err))) => Err(self.fail(err)),
            (_, _) => Ok(self),
        }
    }
}

} // verus!

verus! {

impl RunState {
    /// The replies of the post-run reads and of the publish decision.
    fn react_publish(self, e: Event, now: &Timestamp) -> (r: Result<RunState, (RunState, CoreError)>)
        requires
            self@.phase == Phase::ReadingHead || self@.phase == Phase::CountingAhead || self@.phase
                == Phase::PostClean || self@.phase == Phase::PostDescends || self@.phase
                == Phase::Pushing || self@.phase == Phase::FindingPr || self@.phase
                == Phase::CreatingPr,
            accepts(self@.phase, e@),
        ensures
            match advance(self@, e@, now@) {
                Advance::Continue(s2) => r matches Ok(st) && st@ == s2,
                Advance::Fail(err) => r matches Err(f) && f.0@ == (RunStateView {
                    phase: Phase::Finished,
                    ..self@
                }) && f.1@ == err,
            },
    {
        match (self.phase, e) {
            (Phase::ReadingHead, Event::Text(Ok(sha))) => Ok(
                RunState { phase: Phase::CountingAhead, head_sha: sha, ..self },
            ),
            (Phase::CountingAhead, Event::Count(Ok(n))) => {
                let s2 = RunState { commits_ahead: n, finished_at: now.rfc3339.clone(), ..self };
                if s2.inputs.dry_run {
                    let class = FailureClass::from_exit_code(s2.exit_code);
                    let record = s2.run_record(
                        class,
                        None,
                        Some(owned("dry run: no branch/push/PR/ledger side effects performed")),
                    );
                    Ok(RunState { phase: Phase::Cleaning, record, ..s2 })
                } else {
                    Ok(s2.moved_to(Phase::PostClean))
                }
            },
            (Phase::PostClean, Event::Flag(r)) => {
                let clean = matches!(r, Ok(true));
                if self.exit_code == 0 && !clean {
                    Ok(
                        self.conclude(
                            FailureClass::Red,
                            None,
                            Some(owned("executor left tree dirty (pipeline invariant violation)")),
                        ),
                    )
                } else {
                    Ok(self.moved_to(Phase::PostDescends))
                }
            },
            (Phase::PostDescends, Event::Flag(r)) => {
                let descends = matches!(r, Ok(true));
                if self.exit_code == 0 && !descends {
                    let reason = diverged_reason_text(
                        self.head_sha.as_str(),
                        self.base_sha.as_str(),
                    );
                    Ok(self.conclude(FailureClass::Red, None, Some(reason)))
                } else {
                    match FailureClass::from_exit_code(self.exit_code) {
                        FailureClass::Green => {
                            if self.commits_ahead > 0 {
                                Ok(self.moved_to(Phase::Pushing))
                            } else {
                                Ok(
                                    self.conclude(
                                        FailureClass::Green,
                                        None,
                                        Some(owned("no changes to land")),
                                    ),
                                )
                            }
                        },
                        FailureClass::Orange => Ok(
                            self.conclude(
                                FailureClass::Orange,
                                None,
                                Some(owned("max attempts reached without success")),
                            ),
                        ),
                        FailureClass::Red => Ok(
                            self.conclude(
                                FailureClass::Red,
                                None,
                                Some(owned("plan cycle exited with hard failure")),
                            ),
                        ),
                    }
                }
            },
            (Phase::Pushing, Event::Unit(r)) => match r {
                Ok(()) => Ok(self.moved_to(Phase::FindingPr)),
                Err(err) => {
                    let reason = error_reason("plan succeeded but branch push failed: ", &err);
                    Ok(self.conclude(FailureClass::Green, None, Some(reason)))
                },
            },
            (Phase::FindingPr, Event::MaybeText(r)) => match r {
                Ok(Some(url)) => Ok(self.conclude(FailureClass::Green, Some(url), None)),
                Ok(None) => Ok(self.moved_to(Phase::CreatingPr)),
                Err(err) => {
                    let reason = error_reason("plan succeeded but PR lookup failed: ", &err);
                    Ok(self.conclude(FailureClass::Green, None, Some(reason)))
                },
            },
            (Phase::CreatingPr, Event::Text(r)) => match r {
                Ok(url) => Ok(self.conclude(FailureClass::Green, Some(url), None)),
                Err(err) => {
                    let reason = error_reason("plan succeeded but PR creation failed: ", &err);
                    Ok(self.conclude(FailureClass::Green, None, Some(reason)))
                },
            },
            (_, Event::Text(Err(err))) => Err(self.fail(err)),
            (_, Event::Count(Err(err))) => Err(self.fail(err)),
            (_, _) => Ok(self),
        }
    }

    /// The replies of the ledger append, the notification and the cleanup.
    fn react_finish(self, e: Event) -> (r: Result<RunState, (RunState, CoreError)>)
        requires
            self@.phase == Phase::AbortLedger || self@.phase == Phase::AbortNotice || self@.phase
                == Phase::Appending || self@.phase == Phase::Notifying || self@.phase
                == Phase::Cleaning,
            accepts(self@.phase, e@),
        ensures
            forall|now: TimestampView|
                match #[trigger] advance(self@, e@, now) {
                    Advance::Continue(s2) => r matches Ok(st) && st@ == s2,
                    Advance::Fail(err) => r matches Err(f) && f.0@ == (RunStateView {
                        phase: Phase::Finished,
                        ..self@
                    }) && f.1@ == err,
                },
    {
        match (self.phase, e) {
            (Phase::AbortLedger, _) => Ok(self.moved_to(Phase::AbortNotice)),
            (Phase::AbortNotice, _) => Ok(self.moved_to(Phase::Finished)),
            (Phase::Appending, _) => Ok(self.moved_to(Phase::Notifying)),
            (Phase::Notifying, _) => Ok(self.moved_to(Phase::Cleaning)),
            (Phase::Cleaning, _) => Ok(self.moved_to(Phase::Finished)),
            (_, _) => Ok(self),
        }
    }

    fn react(self, e: Event, now: &Timestamp) -> (r: Result<RunState, (RunState, CoreError)>)
        requires
            accepts(self@.phase, e@),
        ensures
            match advance(self@, e@, now@) {
                Advance::Continue(s2) => r matches Ok(st) && st@ == s2,
                Advance::Fail(err) => r matches Err(f) && f.0@ == (RunStateView {
                    phase: Phase::Finished,
                    ..self@
                }) && f.1@ == err,
            },
    {
        match self.phase {
            Phase::Fetching | Phase::ReadingBranch | Phase::CheckingClean
            | Phase::CheckingRemote => self.react_gate(e, now),
            Phase::ReadingBase | Phase::FetchingPlan | Phase::ProbingStale
            | Phase::CheckingContains | Phase::OpeningSession => self.react_plan(e, now),
            Phase::ProbingBranch | Phase::Switching | Phase::Creating | Phase::Noting
            | Phase::Cycling => self.react_cycle(e),
            Phase::ReadingHead | Phase::CountingAhead | Phase::PostClean | Phase::PostDescends
            | Phase::Pushing | Phase::FindingPr | Phase::CreatingPr => self.react_publish(e, now),
            Phase::AbortLedger | Phase::AbortNotice | Phase::Appending | Phase::Notifying
            | Phase::Cleaning => self.react_finish(e),
            Phase::Finished => Ok(self),
        }
    }

    /// Takes the reply `e` to the pending action, with the clock reading
    /// `now`, and gives the next state and the next action.
    pub fn step_at(self, e: Event, now: Timestamp) -> (r: (RunState, Action))
        requires
            accepts(self@.phase, e@),
        ensures
            (r.0@, r.1@) == next(self@, e@, now@),
    {
        match self.react(e, &now) {
            Ok(s) => {
                let a = s.request();
                (s, a)
            },
            Err((s, err)) => (s, Action::Finish(Err(err))),
        }
    }

    /// Takes the reply `e` to the pending action, reads the clock, and gives
    /// the next state and the next action.
    pub fn step(self, e: Event) -> (r: (RunState, Action))
        requires
            accepts(self@.phase, e@),
        ensures
            exists|now: TimestampView| is_reading(now) && (r.0@, r.1@) == next(self@, e@, now),
    {
        let now = read_clock();
        self.step_at(e, now)
    }
}

} // verus!

verus! {

// ───────────────────────────── laws ─────────────────────────────

/// Whether a phase holds a decided record (one that is being appended,
/// announced, or returned).
pub open spec fn holds_record(p: Phase) -> bool {
    p == Phase::AbortLedger || p == Phase::AbortNotice || p == Phase::Appending || p
        == Phase::Notifying || p == Phase::Cleaning
}

/// Whether a phase can only be reached by a run that publishes (not a dry run).
pub open spec fn publishing_phase(p: Phase) -> bool {
    p == Phase::ProbingBranch || p == Phase::Switching || p == Phase::Creating || p
        == Phase::PostClean || p == Phase::PostDescends || p == Phase::Pushing || p
        == Phase::FindingPr || p == Phase::CreatingPr || p == Phase::Appending || p
        == Phase::Notifying
}

/// Whether a phase comes after the feature branch was derived from the plan.
pub open spec fn branch_known(p: Phase) -> bool {
    p == Phase::ProbingStale || p == Phase::CheckingContains || p == Phase::OpeningSession || p
        == Phase::ProbingBranch || p == Phase::Switching || p == Phase::Creating || p
        == Phase::Noting || p == Phase::Cycling || p == Phase::ReadingHead || p
        == Phase::CountingAhead || p == Phase::PostClean || p == Phase::PostDescends || p
        == Phase::Pushing || p == Phase::FindingPr || p == Phase::CreatingPr || p
        == Phase::Appending || p == Phase::Notifying || p == Phase::Cleaning
}

/// What every state of a run satisfies.
pub open spec fn consistent(s: RunStateView) -> bool {
    // The feature branch is always `feat/<slug>`.
    &&& branch_known(s.phase) ==> s.branch == branch_of(s.slug)
    // A PR is pushed, looked up or created only for a green exit with commits ahead.
    &&& (s.phase == Phase::Pushing || s.phase == Phase::FindingPr || s.phase == Phase::CreatingPr)
        ==> s.exit_code == 0 && s.commits_ahead > 0
    // A dry run never manages branches, pushes, opens PRs, or appends to the ledger.
    &&& publishing_phase(s.phase) ==> !s.inputs.dry_run
    // Attempts never exceed the configured maximum (a dry run makes exactly one).
    &&& !s.inputs.dry_run ==> s.attempt <= s.max_attempts
    &&& s.inputs.dry_run ==> s.attempt <= 1
    &&& (s.phase == Phase::Noting || s.phase == Phase::Cycling) ==> s.attempt >= 1
    // A decided record belongs to this run.
    &&& holds_record(s.phase) ==> {
        &&& s.record.change_id == s.inputs.change_id
        &&& s.record.schema_version == CURRENT_SCHEMA_VERSION
        &&& s.record.repo == s.inputs.repo
        &&& s.record.profile == s.profile
        &&& s.record.run_id.len() >= 4 && s.record.run_id.subrange(0, 4) == "run-"@
        // Green only for an executor exit code of 0.
        &&& s.record.failure_class == FailureClass::Green ==> s.record.exit_code == 0
        // A PR only for a green run with commits ahead.
        &&& s.record.pr_url is Some ==> s.record.failure_class == FailureClass::Green
            && s.record.commits_ahead > 0
        // A PR only for a run that publishes, on its own feature branch.
        &&& s.record.pr_url is Some ==> !s.inputs.dry_run && s.record.branch == branch_of(
            s.record.plan_id,
        )
        // Attempts in the record are bounded like the run's own.
        &&& !s.inputs.dry_run ==> s.record.attempts <= s.max_attempts
    }
    // The record of a run that got past the gates names the run's slug as
    // its plan id, and its feature branch.
    &&& (s.phase == Phase::Appending || s.phase == Phase::Notifying || s.phase == Phase::Cleaning)
        ==> s.record.plan_id == s.slug && s.record.branch == s.branch
    // A run refused by a gate is Red, with no attempt and exit code -1.
    &&& (s.phase == Phase::AbortLedger || s.phase == Phase::AbortNotice) ==> {
        &&& s.record.failure_class == FailureClass::Red
        &&& s.record.exit_code == -1
        &&& s.record.attempts == 0
    }
}

proof fn lemma_clock_run_id_shape(now: TimestampView)
    ensures
        clock_run_id(now).len() >= 4,
        clock_run_id(now).subrange(0, 4) == "run-"@,
{
    reveal_strlit("run-");
    let d = signed_decimal(
        match now.nanos {
            Some(n) => n as int,
            None => 0,
        },
    );
    assert(("run-"@ + d).subrange(0, 4) =~= "run-"@);
}

/// A run starts in a consistent state.
pub proof fn lemma_start_consistent(
    max_attempts: u32,
    default_profile: Seq<char>,
    inputs: RunInputsView,
    now: TimestampView,
)
    ensures
        consistent(initial_state(max_attempts, default_profile, inputs, now)),
{
}

/// Every step keeps a run consistent: a PR only for a green exit with
/// commits ahead, no side effects in a dry run, attempts within the maximum,
/// and every decided record stamped with the run's change id and schema
/// version, Green only for exit code 0.
pub proof fn lemma_step_consistent(s: RunStateView, e: EventView, now: TimestampView)
    requires
        consistent(s),
        accepts(s.phase, e),
    ensures
        consistent(next(s, e, now).0),
{
    lemma_run_id_shape(s.session);
    lemma_clock_run_id_shape(now);
}

/// The actions of a consistent state respect the run's policy: pushes and
/// PRs only for a green exit with commits ahead and never in a dry run;
/// branch changes never in a dry run; every appended record carries the
/// run's change id and the current schema version, and is Green only for
/// exit code 0.
pub proof fn lemma_actions_respect_policy(s: RunStateView)
    requires
        consistent(s),
    ensures
        (request(s) is PushHead || request(s) is FindPr || request(s) is CreatePr) ==> s.exit_code
            == 0 && s.commits_ahead > 0 && !s.inputs.dry_run,
        (request(s) is CreateBranch || request(s) is SwitchBranch) ==> !s.inputs.dry_run,
        request(s) matches ActionView::CreateBranch { name } ==> name == branch_of(s.slug),
        request(s) matches ActionView::SwitchBranch { name } ==> name == branch_of(s.slug),
        request(s) is RunPlanCycle ==> 1 <= s.attempt && (!s.inputs.dry_run ==> s.attempt
            <= s.max_attempts),
        request(s) matches ActionView::AppendLedger { record } ==> {
            &&& record.change_id == s.inputs.change_id
            &&& record.schema_version == CURRENT_SCHEMA_VERSION
            &&& (record.failure_class == FailureClass::Green ==> record.exit_code == 0)
            &&& (record.pr_url is Some ==> record.failure_class == FailureClass::Green)
        },
{
}

} // verus!

verus! {

/// Once decided, a record no longer changes: the record appended to the
/// ledger is the one announced and the one returned. A run refused by a gate
/// goes on only to its notification and its end: no branch, no session.
pub proof fn lemma_record_settled(s: RunStateView, e: EventView, now: TimestampView)
    requires
        holds_record(s.phase),
        accepts(s.phase, e),
    ensures
        next(s, e, now).0.record == s.record,
        next(s, e, now).1 matches ActionView::Finish(Ok(r)) ==> r == s.record,
        (s.phase == Phase::AbortLedger || s.phase == Phase::AbortNotice) ==> (next(s, e, now).0.phase
            == Phase::AbortNotice || next(s, e, now).0.phase == Phase::Finished),
{
}

/// A run that ends with a record returns one that belongs to it: stamped
/// with its change id and the current schema version, Green only for exit
/// code 0, and with a PR only when Green with commits ahead, in a run that
/// is not a dry run, on the feature branch `feat/<plan_id>`.
pub proof fn lemma_finish_record(s: RunStateView, e: EventView, now: TimestampView)
    requires
        consistent(s),
        accepts(s.phase, e),
    ensures
        next(s, e, now).1 matches ActionView::Finish(Ok(r)) ==> {
            &&& r.change_id == s.inputs.change_id
            &&& r.schema_version == CURRENT_SCHEMA_VERSION
            &&& (r.failure_class == FailureClass::Green ==> r.exit_code == 0)
            &&& (r.pr_url is Some ==> r.failure_class == FailureClass::Green && r.commits_ahead > 0)
            &&& (r.pr_url is Some ==> !s.inputs.dry_run && r.branch == branch_of(r.plan_id))
        },
{
}

/// One step of a run, as [`next`] gives it, kept folded in proofs over
/// whole runs.
#[verifier::opaque]
pub open spec fn step_of(s: RunStateView, e: EventView, now: TimestampView) -> (
    RunStateView,
    ActionView,
) {
    next(s, e, now)
}

/// The state of a run that started in `s0` after its first `k` replies,
/// `events[j]` arriving with the clock reading `nows[j]`.
pub open spec fn state_after(
    s0: RunStateView,
    events: Seq<EventView>,
    nows: Seq<TimestampView>,
    k: nat,
) -> RunStateView
    decreases k,
{
    if k == 0 {
        s0
    } else {
        step_of(state_after(s0, events, nows, (k - 1) as nat), events[k - 1], nows[k - 1]).0
    }
}

/// The action that a run that started in `s0` asks for after its first `k`
/// replies.
pub open spec fn action_after(
    s0: RunStateView,
    events: Seq<EventView>,
    nows: Seq<TimestampView>,
    k: nat,
) -> ActionView {
    if k == 0 {
        request(s0)
    } else {
        step_of(state_after(s0, events, nows, (k - 1) as nat), events[k - 1], nows[k - 1]).1
    }
}

/// Whether each of the first `k` replies is the kind of reply that the run
/// was waiting for.
pub open spec fn replies_accepted(
    s0: RunStateView,
    events: Seq<EventView>,
    nows: Seq<TimestampView>,
    k: nat,
) -> bool {
    forall|j: nat| j < k ==> accepts(#[trigger] state_after(s0, events, nows, j).phase, events[j as int])
}

/// What the policy of a run with inputs `inputs` asks of an action `a`
/// asked for in state `s`: every record appended to the ledger and the
/// record returned carry the inputs' change id and the current schema
/// version, are Green only for exit code 0, and have a PR only when Green
/// with commits ahead, in a run that is not a dry run, on the branch
/// `feat/<plan_id>`; a push or a PR lookup or creation happens only for a
/// green exit with commits ahead in a run that is not a dry run, on the
/// feature branch; branches are created or switched to only in a run that
/// is not a dry run, and only the feature branch.
pub open spec fn run_policy(a: ActionView, s: RunStateView, inputs: RunInputsView) -> bool {
    &&& a matches ActionView::RunPlanCycle { workspace, plan_ref, profile, dry_run, .. } ==> {
        &&& workspace == inputs.workspace
        &&& plan_ref == inputs.plan_ref
        &&& profile == s.profile
        &&& dry_run == inputs.dry_run
    }
    &&& a matches ActionView::AppendLedger { record } ==> {
        &&& record.profile == s.profile
        &&& record.change_id == inputs.change_id
        &&& record.schema_version == CURRENT_SCHEMA_VERSION
        &&& (record.failure_class == FailureClass::Green ==> record.exit_code == 0)
        &&& (record.pr_url is Some ==> record.failure_class == FailureClass::Green
            && record.commits_ahead > 0 && !inputs.dry_run && record.branch == branch_of(
            record.plan_id,
        ))
    }
    &&& a matches ActionView::Finish(Ok(r)) ==> {
        &&& r.profile == s.profile
        &&& r.change_id == inputs.change_id
        &&& r.schema_version == CURRENT_SCHEMA_VERSION
        &&& (r.failure_class == FailureClass::Green ==> r.exit_code == 0)
        &&& (r.pr_url is Some ==> r.failure_class == FailureClass::Green && r.commits_ahead > 0
            && !inputs.dry_run && r.branch == branch_of(r.plan_id))
    }
    &&& (a is PushHead || a is FindPr || a is CreatePr) ==> {
        &&& !inputs.dry_run
        &&& s.exit_code == 0
        &&& s.commits_ahead > 0
        &&& s.branch == branch_of(s.slug)
    }
    &&& a matches ActionView::CreateBranch { name } ==> !inputs.dry_run && name == branch_of(s.slug)
    &&& a matches ActionView::SwitchBranch { name } ==> !inputs.dry_run && name == branch_of(s.slug)
}

proof fn lemma_policy_start(
    max_attempts: u32,
    default_profile: Seq<char>,
    inputs: RunInputsView,
    now: TimestampView,
)
    ensures
        consistent(initial_state(max_attempts, default_profile, inputs, now)),
        initial_state(max_attempts, default_profile, inputs, now).inputs == inputs,
        run_policy(
            request(initial_state(max_attempts, default_profile, inputs, now)),
            initial_state(max_attempts, default_profile, inputs, now),
            inputs,
        ),
{
    lemma_start_consistent(max_attempts, default_profile, inputs, now);
    lemma_actions_respect_policy(initial_state(max_attempts, default_profile, inputs, now));
}

proof fn lemma_policy_step(p: RunStateView, e: EventView, now: TimestampView)
    requires
        consistent(p),
        accepts(p.phase, e),
    ensures
        step_of(p, e, now).0.inputs == p.inputs,
        step_of(p, e, now).0.profile == p.profile,
        consistent(step_of(p, e, now).0),
        run_policy(step_of(p, e, now).1, step_of(p, e, now).0, p.inputs),
{
    reveal(step_of);
    lemma_step_consistent(p, e, now);
    lemma_finish_record(p, e, now);
    lemma_inputs_fixed(p, e, now);
    let s = next(p, e, now).0;
    lemma_actions_respect_policy(s);
    match advance(p, e, now) {
        Advance::Continue(s2) => {
            assert(next(p, e, now).1 == request(s));
        },
        Advance::Fail(err) => {},
    }
}

/// The policy of a whole run, over any sequence of replies from its start:
/// the run keeps its inputs and stays consistent, and every action it asks
/// for follows [`run_policy`].
pub proof fn lemma_whole_run(
    max_attempts: u32,
    default_profile: Seq<char>,
    inputs: RunInputsView,
    start_now: TimestampView,
    events: Seq<EventView>,
    nows: Seq<TimestampView>,
    k: nat,
)
    requires
        k <= events.len(),
        k <= nows.len(),
        replies_accepted(
            initial_state(max_attempts, default_profile, inputs, start_now),
            events,
            nows,
            k,
        ),
    ensures
        state_after(
            initial_state(max_attempts, default_profile, inputs, start_now),
            events,
            nows,
            k,
        ).inputs == inputs,
        state_after(
            initial_state(max_attempts, default_profile, inputs, start_now),
            events,
            nows,
            k,
        ).profile == (match inputs.profile {
            Some(p) => p,
            None => default_profile,
        }),
        consistent(
            state_after(initial_state(max_attempts, default_profile, inputs, start_now), events, nows, k),
        ),
        run_policy(
            action_after(
                initial_state(max_attempts, default_profile, inputs, start_now),
                events,
                nows,
                k,
            ),
            state_after(initial_state(max_attempts, default_profile, inputs, start_now), events, nows, k),
            inputs,
        ),
    decreases k,
{
    let s0 = initial_state(max_attempts, default_profile, inputs, start_now);
    if k == 0 {
        lemma_policy_start(max_attempts, default_profile, inputs, start_now);
    } else {
        let j = (k - 1) as nat;
        assert(replies_accepted(s0, events, nows, j));
        lemma_whole_run(max_attempts, default_profile, inputs, start_now, events, nows, j);
        let p = state_after(s0, events, nows, j);
        assert(accepts(p.phase, events[j as int]));
        lemma_policy_step(p, events[j as int], nows[j as int]);
    }
}

/// The profile of a run is the one its inputs ask for, and the
/// configuration's default only when they ask for none; the requested
/// profile wins whatever the default is, and the run's plan cycles and
/// records use it throughout (see [`lemma_whole_run`]).
pub proof fn lemma_run_profile(
    max_attempts: u32,
    default_profile: Seq<char>,
    other_default: Seq<char>,
    inputs: RunInputsView,
    now: TimestampView,
)
    ensures
        inputs.profile matches Some(p) ==> initial_state(max_attempts, default_profile, inputs, now).profile
            == p,
        inputs.profile is None ==> initial_state(max_attempts, default_profile, inputs, now).profile
            == default_profile,
        inputs.profile is Some ==> initial_state(max_attempts, default_profile, inputs, now).profile
            == initial_state(max_attempts, other_default, inputs, now).profile,
        initial_state(max_attempts, default_profile, inputs, now).inputs == inputs,
{
}

/// Once the plan is fetched and has a title, the run's slug is the slug
/// override of its inputs when there is one, whatever the title, and the
/// slug of the title only when there is none; the branch is `"feat/"`
/// followed by that slug, and the title is the plan's.
pub proof fn lemma_plan_slug(s: RunStateView, body: Seq<char>, other_body: Seq<char>, now: TimestampView)
    requires
        s.phase == Phase::FetchingPlan,
        markdown_title(body) is Some,
        markdown_title(other_body) is Some,
    ensures
        ({
            let s2 = next(s, EventView::Text(Ok(body)), now).0;
            let title = markdown_title(body)->0;
            &&& s2.phase == Phase::ProbingStale
            &&& s2.title == title
            &&& s.inputs.slug_override matches Some(o) ==> s2.slug == o
            &&& s.inputs.slug_override is None ==> s2.slug == slug_of(title)
            &&& s2.branch == seq!['f', 'e', 'a', 't', '/'] + s2.slug
            &&& s.inputs.slug_override is Some ==> s2.slug == next(
                s,
                EventView::Text(Ok(other_body)),
                now,
            ).0.slug
        }),
{
    assert(feat_prefix() =~= seq!['f', 'e', 'a', 't', '/']);
}

/// A run never changes its inputs.
proof fn lemma_inputs_fixed(s: RunStateView, e: EventView, now: TimestampView)
    ensures
        next(s, e, now).0.inputs == s.inputs,
        next(s, e, now).0.profile == s.profile,
{
}

/// The retry rule: after a plan cycle of a run that is not a dry run,
/// another attempt follows exactly when the exit code that counts is 2
/// (Orange) and attempts remain; every other code ends the attempts. A green
/// exit without its ledger correlation counts as exit code 2.
pub proof fn lemma_retry_rule(s: RunStateView, r: RollupView, now: TimestampView)
    requires
        s.phase == Phase::Cycling,
        !s.inputs.dry_run,
    ensures
        ({
            let s2 = next(s, EventView::Cycle(Ok(r)), now).0;
            &&& s2.exit_code == (if r.exit_code == 0 && !correlated(r) {
                2i32
            } else {
                r.exit_code
            })
            &&& (s2.phase == Phase::Noting) <==> (s2.exit_code == 2 && s.attempt < s.max_attempts)
            &&& s2.phase == Phase::Noting ==> s2.attempt == s.attempt + 1
            &&& s2.phase != Phase::Noting ==> s2.phase == Phase::ReadingHead && s2.attempt
                == s.attempt
        }),
{
}

} // verus!

verus! {

/// A run returns a record only after handing it to the ledger (or, for a
/// dry run, after cleaning up without any ledger side effect): `Finish(Ok)`
/// comes only after the notification of a refused run or after the session
/// cleanup, the cleanup only after the notification of an appended record
/// or at the end of a dry run, and the notification only after the append.
/// The ledger append, the notification and the cleanup are best-effort:
/// whatever they reply, the run goes on to the next of them and never ends
/// with an error once its record is decided.
pub proof fn lemma_ledger_before_finish(s: RunStateView, e: EventView, now: TimestampView)
    requires
        accepts(s.phase, e),
    ensures
        next(s, e, now).1 matches ActionView::Finish(Ok(_)) ==> (s.phase == Phase::AbortNotice
            || s.phase == Phase::Cleaning),
        next(s, e, now).0.phase == Phase::Cleaning && s.phase != Phase::Cleaning ==> (s.phase
            == Phase::Notifying || (s.phase == Phase::CountingAhead && s.inputs.dry_run)),
        next(s, e, now).0.phase == Phase::Notifying && s.phase != Phase::Notifying ==> s.phase
            == Phase::Appending,
        s.phase == Phase::Appending ==> next(s, e, now).0.phase == Phase::Notifying,
        s.phase == Phase::Notifying ==> next(s, e, now).0.phase == Phase::Cleaning,
        s.phase == Phase::AbortLedger ==> next(s, e, now).0.phase == Phase::AbortNotice,
        holds_record(s.phase) ==> !(next(s, e, now).1 matches ActionView::Finish(Err(_))),
        next(s, e, now).0.phase == Phase::AbortNotice && s.phase != Phase::AbortNotice ==> s.phase
            == Phase::AbortLedger,
{
}

/// A run allowed no attempt never runs the plan and gives up as exit code
/// 2: once its branch is ready it goes to the post-run reads, and its exit
/// code classes it Orange, never Green.
pub proof fn lemma_no_attempt_gives_up(s: RunStateView, e: EventView, now: TimestampView)
    requires
        s.phase == Phase::Switching || s.phase == Phase::Creating,
        s.max_attempts == 0,
        e matches EventView::Unit(Ok(_)),
    ensures
        next(s, e, now).0.phase == Phase::ReadingHead,
        next(s, e, now).0.exit_code == 2,
        next(s, e, now).0.attempt == s.attempt,
        class_of_exit_code(next(s, e, now).0.exit_code) == FailureClass::Orange,
{
}

/// One session per run: once opened, the session id never changes, so every
/// attempt's note, every plan cycle and the cleanup use the same session.
pub proof fn lemma_session_fixed(s: RunStateView, e: EventView, now: TimestampView)
    requires
        s.phase != Phase::OpeningSession,
    ensures
        next(s, e, now).0.session == s.session,
{
}

} // verus!

verus! {

/// The post-run invariants: an executor exit code of 0 with a tree that is
/// not known clean, or with a `HEAD` not known to descend from the base, is
/// overridden to Red, and no PR is opened.
pub proof fn lemma_post_run_overrides(s: RunStateView, r: Result<bool, CoreErrorView>, now: TimestampView)
    requires
        s.exit_code == 0,
        s.phase == Phase::PostClean || s.phase == Phase::PostDescends,
        !(r matches Ok(true)),
    ensures
        next(s, EventView::Flag(r), now).0.phase == Phase::Appending,
        next(s, EventView::Flag(r), now).0.record.failure_class == FailureClass::Red,
        next(s, EventView::Flag(r), now).0.record.pr_url is None,
        next(s, EventView::Flag(r), now).0.record.reason is Some,
{
}

} // verus!
