//! choragos: the decisions of a deterministic plan-cycle orchestrator.
//!
//! A run of choragos creates a feature branch derived from a plan's title,
//! runs the plan-cycle executor with retries, opens a pull request only on a
//! green run that produced commits, appends a record to the run-ledger and
//! sends a notification. This crate holds all of those decisions, verified:
//!
//! - [`failure`]: the failure classes and the exit-code mapping;
//! - [`plan`]: plan-title parsing, slugs and branch names;
//! - [`orchestrator`]: a run as a state machine over the actions it asks for;
//! - [`change`]: multi-repo batches with ordered stop on failure;
//! - [`ledger`], [`telegram`]: the run record and its notification;
//! - [`config`], [`args`], [`cerebrum`], [`runner`]: configuration, requests,
//!   and the reading of what the outside tools answer.

#![allow(unused_imports)]

pub mod text;
pub mod plan;
pub mod failure;
pub mod error;
pub mod ledger;
pub mod ledger_line;
pub mod telegram;
pub mod config;
pub mod runner;
pub mod clock;
pub mod orchestrator;
pub mod change;
pub mod args;
pub mod cerebrum;
