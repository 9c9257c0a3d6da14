//! Ledger-wide laws: consequences of well-formedness and of the operation
//! contracts, stated and proved once so callers need not rederive them.

use vstd::prelude::*;

use crate::ledger::append_refusal;
use crate::ledger::complete_refusal;
use crate::ledger::create_refusal;
use crate::ledger::Ledger;
use crate::types::BuildStatus;
use crate::types::ErrorCode;

verus! {

/// Some recorded action of build `id` carries step number `n`.
pub open spec fn has_step(l: Ledger, id: Seq<char>, n: int) -> bool {
    exists|k: int|
        0 <= k < l.actions_of(id).len() && (#[trigger] l.actions_of(id)[k]).step_number == n
}

/// After any number of successful appends, a build's step counter equals
/// the number of recorded actions, and the step numbers assigned to them
/// are exactly 1 through `step_count`: none is skipped and none repeats.
pub proof fn lemma_steps_gap_free(l: Ledger, id: Seq<char>)
    requires
        l.wf(),
        l.has_build(id),
    ensures
        l.actions_of(id).len() == l.build_of(id).step_count,
        forall|k: int|
            0 <= k < l.actions_of(id).len() ==> (#[trigger] l.actions_of(id)[k]).step_number == k
                + 1,
        forall|n: int| 1 <= n <= l.build_of(id).step_count ==> #[trigger] has_step(l, id, n),
        forall|n: int| has_step(l, id, n) ==> 1 <= n <= l.build_of(id).step_count,
        forall|k1: int, k2: int|
            0 <= k1 < l.actions_of(id).len() && 0 <= k2 < l.actions_of(id).len() && k1 != k2
                ==> (#[trigger] l.actions_of(id)[k1]).step_number != (#[trigger] l.actions_of(
                id,
            )[k2]).step_number,
{
    let i = l.build_index(id);
    assert(0 <= i < l.builds@.len() && l.builds@[i].build.build_id@ == id);
    assert(l.builds@[i].wf());
    assert forall|n: int| 1 <= n <= l.build_of(id).step_count implies #[trigger] has_step(
        l,
        id,
        n,
    ) by {
        assert(l.actions_of(id)[n - 1].step_number == n);
    }
}

/// Every recorded action names the build it was appended to and sits at
/// the position its step number says: looking one up by
/// `(build_id, step_number)` yields a record carrying exactly that build
/// identifier and that step number, for every assigned step number.
pub proof fn lemma_action_round_trip(l: Ledger, id: Seq<char>, n: u32)
    requires
        l.wf(),
        l.has_build(id),
        1 <= n <= l.build_of(id).step_count,
    ensures
        l.action_lookup(id, n) matches Some(a) && a.build_id@ == id && a.step_number == n,
{
    let i = l.build_index(id);
    assert(0 <= i < l.builds@.len() && l.builds@[i].build.build_id@ == id);
    assert(l.builds@[i].wf());
    assert(l.actions_of(id)[n - 1].step_number == n);
}

/// Completion is one-shot: in any ledger where a build's status is already
/// terminal — in particular, right after a successful `complete_build` —
/// a further `complete_build` on it is refused with `BuildNotInProgress`,
/// whatever the new arguments are, and so (by its contract) changes
/// nothing.
pub proof fn lemma_complete_one_shot(
    l: Ledger,
    id: Seq<char>,
    caller: Seq<u8>,
    program_id: Option<Seq<char>>,
)
    requires
        l.wf(),
        l.has_build(id),
        l.build_of(id).status != BuildStatus::InProgress,
    ensures
        complete_refusal(l, id, caller, program_id) == Some(ErrorCode::BuildNotInProgress),
{
}

/// Appending demands an in-progress build: on any build whose status is
/// terminal, `log_action` is refused with `BuildNotInProgress`, whatever
/// the action, and so (by its contract) creates no record and moves no
/// counter.
pub proof fn lemma_append_needs_in_progress(l: Ledger, id: Seq<char>, description: Seq<char>)
    requires
        l.wf(),
        l.has_build(id),
        l.build_of(id).status != BuildStatus::InProgress,
    ensures
        append_refusal(l, id, description) == Some(ErrorCode::BuildNotInProgress),
{
}

/// Creating a build under an identifier already in use is refused with
/// `DuplicateBuildID`, whatever the project name, and so (by the contract
/// of `initialize_build`) the existing record stays exactly as it was.
pub proof fn lemma_create_refuses_duplicate(l: Ledger, id: Seq<char>, project_name: Seq<char>)
    requires
        l.wf(),
        l.has_build(id),
    ensures
        create_refusal(l, id, project_name) == Some(ErrorCode::DuplicateBuildID),
{
}

} // verus!
