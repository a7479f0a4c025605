//! What the plan-cycle executor reports back.

use vstd::prelude::*;
use crate::config::{parse_u32, parse_u32_text};
use crate::ledger_line::LedgerLine;
use crate::plan::{trim_whitespace, trim_ws};
use crate::text::{concat3, opt_view};

verus! {

/// Result of a plan-cycle executor invocation: the raw exit code plus the
/// correlation data that ties the run to the executor's own ledger.
#[derive(Debug)]
pub struct Rollup {
    /// Raw process exit code returned by the plan-cycle executor.
    pub exit_code: i32,
    /// The executor's own run id, if captured.
    pub run_id: Option<String>,
    /// Path to the executor's ledger output, if captured.
    pub ledger_path: Option<String>,
    /// The executor's ledger lines for this run.
    pub ledger_lines: Vec<LedgerLine>,
}

/// What the orchestrator reads of a [`Rollup`]: the exit code, the
/// correlation identifiers, and how many ledger lines came with it.
pub struct RollupView {
    pub exit_code: i32,
    pub run_id: Option<Seq<char>>,
    pub ledger_path: Option<Seq<char>>,
    pub ledger_line_count: nat,
}

impl View for Rollup {
    type V = RollupView;

    open spec fn view(&self) -> RollupView {
        RollupView {
            exit_code: self.exit_code,
            run_id: opt_view(self.run_id),
            ledger_path: opt_view(self.ledger_path),
            ledger_line_count: self.ledger_lines@.len(),
        }
    }
}

} // verus!

verus! {


/// The commit count that `git rev-list --count` printed: the trimmed output
/// read as a `u32`, and 0 when it is not one.
pub open spec fn count_in(output: Seq<char>) -> u32 {
    match parse_u32_text(trim_ws(output)) {
        Some(n) => n,
        None => 0,
    }
}

/// Reads the commit count that `git rev-list --count` printed; 0 when the
/// output is not a count.
pub fn commit_count(output: &str) -> (n: u32)
    ensures
        n == count_in(output@),
{
    let t = trim_whitespace(output);
    match parse_u32(t.as_str()) {
        Some(n) => n,
        None => 0,
    }
}

/// The URL that `gh pr view` printed, when it printed one.
pub open spec fn url_in(output: Seq<char>) -> Option<Seq<char>> {
    if trim_ws(output).len() == 0 {
        None
    } else {
        Some(trim_ws(output))
    }
}

/// Reads the URL of an open PR from the output of `gh pr view`: the trimmed
/// output, or `None` when it is empty.
pub fn pr_url_from(output: &str) -> (r: Option<String>)
    ensures
        opt_view(r) == url_in(output@),
{
    let t = trim_whitespace(output);
    if t.as_str().is_empty() {
        None
    } else {
        Some(t)
    }
}

/// The exit code of the executor: the process's code, or 3 (a hard failure)
/// when the process ended without one, as when a signal killed it.
pub fn executor_exit_code(code: Option<i32>) -> (c: i32)
    ensures
        c == match code {
            Some(c) => c,
            None => 3i32,
        },
{
    match code {
        Some(c) => c,
        None => 3,
    }
}

/// The Telegram Bot API endpoint that sends a message with `token`.
pub fn telegram_endpoint(token: &str) -> (url: String)
    ensures
        url@ == "https://api.telegram.org/bot"@ + token@ + "/sendMessage"@,
{
    concat3("https://api.telegram.org/bot", token, "/sendMessage")
}

/// The bot token and chat id of notifications: both must be configured,
/// otherwise notifications are skipped.
pub fn telegram_credentials(token: &Option<String>, chat_id: &Option<String>) -> (r: Option<
    (String, String),
>)
    ensures
        match (token, chat_id) {
            (Some(t), Some(c)) => r matches Some(p) && p.0@ == t@ && p.1@ == c@,
            _ => r is None,
        },
{
    match (token, chat_id) {
        (Some(t), Some(c)) => Some((t.clone(), c.clone())),
        _ => None,
    }
}

} // verus!
