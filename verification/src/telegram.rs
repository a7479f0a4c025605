//! Telegram notification rendering for run records.

use vstd::prelude::*;
use crate::failure::FailureClass;
use crate::ledger::{LedgerRecord, LedgerRecordView};
use crate::text::{decimal, decimal_text, push_char};

verus! {

/// The coloured circle that opens a message: green, orange or red.
pub open spec fn class_emoji(c: FailureClass) -> char {
    match c {
        FailureClass::Green => '\u{1F7E2}',
        FailureClass::Orange => '\u{1F7E0}',
        FailureClass::Red => '\u{1F534}',
    }
}

/// The second line of a message: the pull-request URL when one was opened,
/// otherwise the reason (or a placeholder when there is none).
pub open spec fn outcome_line(r: LedgerRecordView) -> Seq<char> {
    match r.pr_url {
        Some(url) => "PR: "@ + url,
        None => "reason: "@ + match r.reason {
            Some(reason) => reason,
            None => "(no reason given)"@,
        },
    }
}

/// The text of the notification for a record.
pub open spec fn message_text(r: LedgerRecordView) -> Seq<char> {
    seq![class_emoji(r.failure_class), ' '] + r.repo + " | "@ + r.branch + " | plan: "@
        + r.plan_id + " | attempts: "@ + decimal(r.attempts as nat) + " | ahead: "@ + decimal(
        r.commits_ahead as nat,
    ) + seq!['\n'] + outcome_line(r)
}

/// Renders a [`LedgerRecord`] as a single Telegram message.
///
/// The message contains:
/// - A coloured circle emoji reflecting the [`FailureClass`].
/// - Key run metadata: repo, branch, plan ID, attempts, and commits ahead.
/// - Either `"PR: <url>"` when a pull request was opened, or
///   `"reason: <reason>"` otherwise.
pub fn render(record: &LedgerRecord) -> (msg: String)
    ensures
        msg@ == message_text(record@),
{
    let emoji = match record.failure_class {
        FailureClass::Green => '\u{1F7E2}',
        FailureClass::Orange => '\u{1F7E0}',
        FailureClass::Red => '\u{1F534}',
    };
    let mut msg = String::new();
    push_char(&mut msg, emoji);
    push_char(&mut msg, ' ');
    assert(msg@ =~= seq![class_emoji(record.failure_class), ' ']);
    msg.append(record.repo.as_str());
    msg.append(" | ");
    msg.append(record.branch.as_str());
    msg.append(" | plan: ");
    msg.append(record.plan_id.as_str());
    msg.append(" | attempts: ");
    let attempts = decimal_text(record.attempts as u64);
    msg.append(attempts.as_str());
    msg.append(" | ahead: ");
    let ahead = decimal_text(record.commits_ahead as u64);
    msg.append(ahead.as_str());
    push_char(&mut msg, '\n');
    match &record.pr_url {
        Some(url) => {
            msg.append("PR: ");
            msg.append(url.as_str());
        },
        None => {
            msg.append("reason: ");
            match &record.reason {
                Some(reason) => msg.append(reason.as_str()),
                None => msg.append("(no reason given)"),
            }
        },
    }
    msg
}

} // verus!
