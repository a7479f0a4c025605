//! The plan-cycle executor's own ledger line, as choragos receives it.

use vstd::prelude::*;

verus! {

/// A JSON value of any shape; the library carries it without reading it.
#[verifier::external_type_specification]
#[verifier::external_body]
pub struct ExJsonValue(serde_json::Value);

/// A single JSONL line as written by the plan-cycle executor's ledger.
///
/// Unknown `kind` values and unknown payload fields are tolerated
/// (forward-compat): `payload` captures whatever extra shape a newer
/// executor might emit as an opaque JSON value.
#[derive(Debug)]
pub struct LedgerLine {
    /// Schema version of this ledger line.
    pub schema_version: u32,
    /// Identifier of the run that produced this line.
    pub run_id: String,
    /// RFC 3339 timestamp of the event.
    pub ts: String,
    /// Event kind (e.g. `"run_started"`, `"run_finished"`); unknown kinds are accepted.
    pub kind: String,
    /// Phase number, if applicable to this event kind.
    pub phase: Option<u32>,
    /// Step number, if applicable to this event kind.
    pub step: Option<u32>,
    /// Operation identifier, if applicable to this event kind.
    pub op_id: Option<String>,
    /// Catch-all for any additional fields not modelled above.
    pub payload: serde_json::Value,
}

} // verus!
