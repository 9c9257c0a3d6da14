//! A tamper-evident provenance ledger for automated build pipelines.
//!
//! The ledger records, per build, an authenticated and strictly ordered
//! sequence of actions, each bound to a caller-supplied 32-byte content
//! digest, under a one-shot state machine (in progress, then completed or
//! failed) gated by an ownership check. Step numbers are 1-based, gap-free
//! and duplicate-free; records are append-only and never mutated once
//! written. Durable storage, event transport and the wall clock are outside
//! collaborators: timestamps come in as plain values and every successful
//! mutation hands one event record back to the caller.

mod guard;
mod laws;
mod ledger;
mod types;

pub use guard::is_authorized;
pub use guard::keys_equal;
pub use laws::has_step;
pub use laws::lemma_action_round_trip;
pub use laws::lemma_append_needs_in_progress;
pub use laws::lemma_complete_one_shot;
pub use laws::lemma_create_refuses_duplicate;
pub use laws::lemma_steps_gap_free;
pub use ledger::append_refusal;
pub use ledger::complete_refusal;
pub use ledger::create_refusal;
pub use ledger::BuildEntry;
pub use ledger::Ledger;
pub use types::ActionLogged;
pub use types::ActionType;
pub use types::Build;
pub use types::BuildAction;
pub use types::BuildCompleted;
pub use types::BuildStarted;
pub use types::BuildStatus;
pub use types::ErrorCode;
pub use types::BUILD_ID_MAX_LEN;
pub use types::DESCRIPTION_MAX_LEN;
pub use types::PROGRAM_ID_MAX_LEN;
pub use types::PROJECT_NAME_MAX_LEN;
