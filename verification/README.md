# choragos

A deterministic plan-cycle orchestrator: it takes a plan (or a multi-repo change
manifest), branches `feat/<slug>`, drives the `ai-coding` plan cycle with a retry
policy, opens a pull request on a green run with commits, notifies Telegram and
appends one JSONL ledger record per run.

Layout:

- `src/` — the library, verified with Verus. The orchestrator and the multi-repo
  batch are state machines (`orchestrator.rs`, `change.rs`): each step takes the
  outcome of the previous action and returns the next action, and their laws
  (records are settled before they are written, retries follow the failure
  class, the ledger is written before the run finishes, …) are public proof
  functions. Parsing, slugs, configuration, exit-code classification, ledger
  rows and Telegram messages have exact contracts over spec functions.
- `app/` — the command-line program and the MCP server: environment, git, `gh`,
  `bun`, HTTP, the cerebrum MCP client, and the loops that perform each action
  the state machines ask for.
- `tests/` — the behavioural tests, run against the compiled library.
