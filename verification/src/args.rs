//! What a caller asks for: one plan, or one change manifest.

use vstd::prelude::*;
use crate::change::{repo_name, repo_name_from_workspace};
use crate::orchestrator::{RunInputs, RunInputsView, initial_state, main_trunk};
use crate::clock::TimestampView;
use crate::text::{opt_view, owned};

verus! {

/// Arguments accepted by the `choragos_run_plan` MCP tool.
#[derive(Debug)]
pub struct RunPlanArgs {
    /// Path to the plan, relative to the workspace root; `"PLAN.md"` when
    /// omitted. Mutually exclusive with `change_ref`.
    pub plan_path: Option<String>,
    /// Reference to a change manifest stored in cerebrum; runs each listed
    /// repo sequentially. Mutually exclusive with `plan_path`.
    pub change_ref: Option<String>,
    /// Pipeline profile to use; the configured default when omitted.
    pub profile: Option<String>,
    /// Override of the derived branch slug.
    pub slug: Option<String>,
}

/// What a run is about.
#[derive(Debug)]
pub enum RunTarget {
    /// A single-repo run of one plan.
    Plan { plan_ref: String },
    /// A multi-repo run of a change manifest.
    Change { change_ref: String },
}

/// The mathematical value of a [`RunTarget`].
pub enum RunTargetView {
    Plan { plan_ref: Seq<char> },
    Change { change_ref: Seq<char> },
}

impl View for RunTarget {
    type V = RunTargetView;

    open spec fn view(&self) -> RunTargetView {
        match self {
            RunTarget::Plan { plan_ref } => RunTargetView::Plan { plan_ref: plan_ref@ },
            RunTarget::Change { change_ref } => RunTargetView::Change { change_ref: change_ref@ },
        }
    }
}

/// Why a request names no target.
#[derive(Debug, Clone, Copy, PartialEq, Eq, Structural)]
pub enum TargetError {
    /// Both a plan and a change manifest were named.
    Conflict,
    /// Neither a plan nor a change manifest was named.
    Missing,
}

/// `"PLAN.md"`, the plan of a tool call that names none.
pub open spec fn default_plan_path() -> Seq<char> {
    "PLAN.md"@
}

/// The target of a tool call: its change manifest, else its plan (by default
/// `"PLAN.md"`); naming both is a conflict.
pub open spec fn tool_target(plan_path: Option<Seq<char>>, change_ref: Option<Seq<char>>) -> Result<
    RunTargetView,
    TargetError,
> {
    match (plan_path, change_ref) {
        (Some(_), Some(_)) => Err(TargetError::Conflict),
        (_, Some(c)) => Ok(RunTargetView::Change { change_ref: c }),
        (Some(p), None) => Ok(RunTargetView::Plan { plan_ref: p }),
        (None, None) => Ok(RunTargetView::Plan { plan_ref: default_plan_path() }),
    }
}

/// The target of a command line: exactly one of `--plan-ref` and
/// `--change-ref` must be given.
pub open spec fn cli_target(plan_ref: Option<Seq<char>>, change_ref: Option<Seq<char>>) -> Result<
    RunTargetView,
    TargetError,
> {
    match (plan_ref, change_ref) {
        (Some(_), Some(_)) => Err(TargetError::Conflict),
        (None, None) => Err(TargetError::Missing),
        (Some(p), None) => Ok(RunTargetView::Plan { plan_ref: p }),
        (None, Some(c)) => Ok(RunTargetView::Change { change_ref: c }),
    }
}

/// The view of a target result.
pub open spec fn target_view(r: Result<RunTarget, TargetError>) -> Result<RunTargetView, TargetError> {
    match r {
        Ok(t) => Ok(t@),
        Err(e) => Err(e),
    }
}

impl RunPlanArgs {
    /// The target of the tool call: the change manifest when one is named,
    /// otherwise the plan (`"PLAN.md"` by default). Naming both is refused.
    pub fn target(&self) -> (r: Result<RunTarget, TargetError>)
        ensures
            target_view(r) == tool_target(opt_view(self.plan_path), opt_view(self.change_ref)),
    {
        match (&self.plan_path, &self.change_ref) {
            (Some(_), Some(_)) => Err(TargetError::Conflict),
            (_, Some(c)) => Ok(RunTarget::Change { change_ref: c.clone() }),
            (Some(p), None) => Ok(RunTarget::Plan { plan_ref: p.clone() }),
            (None, None) => Ok(RunTarget::Plan { plan_ref: owned("PLAN.md") }),
        }
    }
}

/// The target of a command line with `--plan-ref` and `--change-ref`:
/// exactly one of them must be given.
pub fn select_cli_target(plan_ref: Option<String>, change_ref: Option<String>) -> (r: Result<
    RunTarget,
    TargetError,
>)
    ensures
        target_view(r) == cli_target(opt_view(plan_ref), opt_view(change_ref)),
{
    match (plan_ref, change_ref) {
        (Some(_), Some(_)) => Err(TargetError::Conflict),
        (None, None) => Err(TargetError::Missing),
        (Some(p), None) => Ok(RunTarget::Plan { plan_ref: p }),
        (None, Some(c)) => Ok(RunTarget::Change { change_ref: c }),
    }
}

/// The inputs of a single-repo run in `workspace`, on the trunk `"main"`,
/// outside any batch.
pub open spec fn single_inputs(
    workspace: Seq<char>,
    plan_ref: Seq<char>,
    profile: Option<Seq<char>>,
    slug: Option<Seq<char>>,
    dry_run: bool,
) -> RunInputsView {
    RunInputsView {
        workspace,
        repo: repo_name(workspace),
        plan_ref,
        profile,
        slug_override: slug,
        trunk: main_trunk(),
        change_id: None,
        dry_run,
    }
}

/// Builds the inputs of a single-repo run in `workspace`: the repo is named
/// after the workspace's final path component, the trunk is `"main"`.
pub fn single_run_inputs(
    workspace: String,
    plan_ref: String,
    profile: Option<String>,
    slug: Option<String>,
    dry_run: bool,
) -> (inputs: RunInputs)
    ensures
        inputs@ == single_inputs(workspace@, plan_ref@, opt_view(profile), opt_view(slug), dry_run),
{
    let repo = repo_name_from_workspace(workspace.as_str());
    RunInputs {
        workspace,
        repo,
        plan_ref,
        profile,
        slug_override: slug,
        trunk: RunInputs::default_trunk(),
        change_id: None,
        dry_run,
    }
}

/// A tool call that names a plan and no change manifest runs exactly that
/// plan, as a command line naming that plan does; one that names neither
/// runs `"PLAN.md"`; one that names a change manifest and no plan runs that
/// manifest; naming both is refused.
pub proof fn lemma_tool_target_runs_what_is_named(p: Seq<char>, c: Seq<char>)
    ensures
        tool_target(Some(p), None) == Ok::<RunTargetView, TargetError>(
            RunTargetView::Plan { plan_ref: p },
        ),
        tool_target(Some(p), None) == cli_target(Some(p), None),
        tool_target(None, None) == Ok::<RunTargetView, TargetError>(
            RunTargetView::Plan { plan_ref: seq!['P', 'L', 'A', 'N', '.', 'm', 'd'] },
        ),
        tool_target(None, Some(c)) == Ok::<RunTargetView, TargetError>(
            RunTargetView::Change { change_ref: c },
        ),
        tool_target(None, Some(c)) == cli_target(None, Some(c)),
        tool_target(Some(p), Some(c)) == Err::<RunTargetView, TargetError>(TargetError::Conflict),
{
    reveal_strlit("PLAN.md");
    assert("PLAN.md"@ =~= seq!['P', 'L', 'A', 'N', '.', 'm', 'd']);
}

/// The inputs of a single-repo run carry what the caller gave: its
/// workspace, plan, profile (none only when none was given), slug override
/// and dry-run flag, on the trunk `"main"`, outside any batch; and the run
/// then uses the given profile, whatever the configured default.
pub proof fn lemma_single_inputs_carry_arguments(
    workspace: Seq<char>,
    plan_ref: Seq<char>,
    profile: Option<Seq<char>>,
    slug: Option<Seq<char>>,
    dry_run: bool,
    max_attempts: u32,
    default_profile: Seq<char>,
    now: TimestampView,
)
    ensures
        ({
            let i = single_inputs(workspace, plan_ref, profile, slug, dry_run);
            &&& i.workspace == workspace
            &&& i.plan_ref == plan_ref
            &&& i.profile == profile
            &&& i.slug_override == slug
            &&& i.dry_run == dry_run
            &&& i.change_id is None
            &&& i.trunk == seq!['m', 'a', 'i', 'n']
            &&& profile matches Some(p) ==> initial_state(max_attempts, default_profile, i, now).profile
                == p
        }),
{
}

} // verus!
