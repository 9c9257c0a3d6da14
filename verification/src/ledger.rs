//! The ledger itself: build records, their per-build action logs, and the
//! three mutating operations with their exact outcome specifications.
//!
//! Storage is modelled as append-only records addressed by `build_id` for
//! builds and by `(build_id, step_number)` for actions. Each mutating
//! operation validates, then mutates and hands back one event record as a
//! single indivisible unit on `&mut self`; a refused operation changes
//! nothing and produces no event.

use vstd::prelude::*;

use crate::guard::keys_equal;
use crate::types::ActionLogged;
use crate::types::ActionType;
use crate::types::Build;
use crate::types::BuildAction;
use crate::types::BuildCompleted;
use crate::types::BuildStarted;
use crate::types::BuildStatus;
use crate::types::ErrorCode;
use crate::types::BUILD_ID_MAX_LEN;
use crate::types::DESCRIPTION_MAX_LEN;
use crate::types::PROGRAM_ID_MAX_LEN;
use crate::types::PROJECT_NAME_MAX_LEN;

verus! {

/// One build together with its action log, in step order.
pub struct BuildEntry {
    pub build: Build,
    pub actions: Vec<BuildAction>,
}

impl BuildEntry {
    /// The per-build sequencing invariant: the log holds exactly
    /// `step_count` actions, the action at position `k` carries step number
    /// `k + 1` (1-based, gap-free, duplicate-free), and every action names
    /// its owning build and respects the description bound.
    pub open spec fn wf(self) -> bool {
        &&& self.build.valid()
        &&& self.actions@.len() == self.build.step_count
        &&& forall|k: int|
            0 <= k < self.actions@.len() ==> (#[trigger] self.actions@[k]).step_number == k + 1
        &&& forall|k: int|
            0 <= k < self.actions@.len() ==> (#[trigger] self.actions@[k]).build_id@
                == self.build.build_id@
        &&& forall|k: int|
            0 <= k < self.actions@.len() ==> (#[trigger] self.actions@[k]).description@.len()
                <= DESCRIPTION_MAX_LEN
    }
}

/// The provenance ledger: every build ever created, each with its actions.
/// Records are never deleted, and entries of terminal builds never change.
pub struct Ledger {
    pub builds: Vec<BuildEntry>,
}

impl Ledger {
    /// Well-formedness: every entry satisfies the sequencing invariant and
    /// build identifiers are unique across the ledger.
    pub open spec fn wf(self) -> bool {
        &&& forall|i: int|
            0 <= i < self.builds@.len() ==> (#[trigger] self.builds@[i]).wf()
        &&& forall|i: int, j: int|
            0 <= i < self.builds@.len() && 0 <= j < self.builds@.len() && i != j
                ==> (#[trigger] self.builds@[i]).build.build_id@
                    != (#[trigger] self.builds@[j]).build.build_id@
    }

    /// Whether some build with identifier `id` is recorded.
    pub open spec fn has_build(self, id: Seq<char>) -> bool {
        exists|i: int|
            0 <= i < self.builds@.len() && (#[trigger] self.builds@[i]).build.build_id@ == id
    }

    /// Position of the build with identifier `id`; meaningful when
    /// `has_build(id)` holds (unique under `wf`).
    pub open spec fn build_index(self, id: Seq<char>) -> int {
        choose|i: int|
            0 <= i < self.builds@.len() && (#[trigger] self.builds@[i]).build.build_id@ == id
    }

    /// The recorded build with identifier `id`.
    pub open spec fn build_of(self, id: Seq<char>) -> Build {
        self.builds@[self.build_index(id)].build
    }

    /// The action log of the build with identifier `id`, in step order.
    pub open spec fn actions_of(self, id: Seq<char>) -> Seq<BuildAction> {
        self.builds@[self.build_index(id)].actions@
    }

    /// Lookup of one action by `(build_id, step_number)`: defined exactly
    /// for recorded builds and assigned step numbers.
    pub open spec fn action_lookup(self, id: Seq<char>, step: u32) -> Option<BuildAction> {
        if self.has_build(id) && 1 <= step <= self.actions_of(id).len() {
            Some(self.actions_of(id)[step - 1])
        } else {
            None
        }
    }

    /// The step counter of build `id` has room for one more action. A
    /// machine limit of the `u32` counter, not a rule of the ledger.
    pub open spec fn step_room(self, id: Seq<char>) -> bool {
        self.has_build(id) ==> self.build_of(id).step_count < u32::MAX
    }
}

/// Why `initialize_build` refuses, or `None` when it must succeed: a
/// duplicate identifier first, then the length bounds on identifier and
/// project name.
pub open spec fn create_refusal(l: Ledger, build_id: Seq<char>, project_name: Seq<char>) -> Option<
    ErrorCode,
> {
    if l.has_build(build_id) {
        Some(ErrorCode::DuplicateBuildID)
    } else if !(1 <= build_id.len() <= BUILD_ID_MAX_LEN)
        || !(1 <= project_name.len() <= PROJECT_NAME_MAX_LEN) {
        Some(ErrorCode::ValidationError)
    } else {
        None
    }
}

/// Why `log_action` refuses, or `None` when it must succeed: the build must
/// exist, be in progress, and the description must fit its bound.
pub open spec fn append_refusal(l: Ledger, build_id: Seq<char>, description: Seq<char>) -> Option<
    ErrorCode,
> {
    if !l.has_build(build_id) {
        Some(ErrorCode::NotFound)
    } else if l.build_of(build_id).status != BuildStatus::InProgress {
        Some(ErrorCode::BuildNotInProgress)
    } else if description.len() > DESCRIPTION_MAX_LEN {
        Some(ErrorCode::ValidationError)
    } else {
        None
    }
}

/// Why `complete_build` refuses, or `None` when it must succeed: the build
/// must exist, be in progress, the caller must be its authority, and the
/// artifact identifier must fit its bound.
pub open spec fn complete_refusal(
    l: Ledger,
    build_id: Seq<char>,
    caller: Seq<u8>,
    program_id: Option<Seq<char>>,
) -> Option<ErrorCode> {
    if !l.has_build(build_id) {
        Some(ErrorCode::NotFound)
    } else if l.build_of(build_id).status != BuildStatus::InProgress {
        Some(ErrorCode::BuildNotInProgress)
    } else if caller != l.build_of(build_id).authority@ {
        Some(ErrorCode::Unauthorized)
    } else if program_id matches Some(p) && p.len() > PROGRAM_ID_MAX_LEN {
        Some(ErrorCode::ValidationError)
    } else {
        None
    }
}

impl Ledger {
    /// An empty ledger: no builds recorded yet.
    pub fn new() -> (r: Ledger)
        ensures
            r.wf(),
            r.builds@.len() == 0,
            forall|id: Seq<char>| !(#[trigger] r.has_build(id)),
    {
        Ledger { builds: Vec::new() }
    }

    /// Linear scan for the entry recorded under `build_id`.
    fn find_index(&self, build_id: &String) -> (r: Option<usize>)
        requires
            self.wf(),
        ensures
            match r {
                Some(i) => {
                    &&& self.has_build(build_id@)
                    &&& i < self.builds@.len()
                    &&& self.builds@[i as int].build.build_id@ == build_id@
                    &&& i as int == self.build_index(build_id@)
                },
                None => !self.has_build(build_id@),
            },
    {
        let n = self.builds.len();
        let mut i: usize = 0;
        while i < n
            invariant
                self.wf(),
                n == self.builds@.len(),
                0 <= i <= n,
                forall|k: int|
                    0 <= k < i ==> (#[trigger] self.builds@[k]).build.build_id@ != build_id@,
            decreases n - i,
        {
            if self.builds[i].build.build_id == *build_id {
                proof {
                    assert(self.builds@[i as int].build.build_id@ == build_id@);
                    assert(self.has_build(build_id@));
                    let j = self.build_index(build_id@);
                    assert(0 <= j < self.builds@.len()
                        && self.builds@[j].build.build_id@ == build_id@);
                    assert(j == i as int);
                }
                return Some(i);
            }
            i += 1;
        }
        None
    }

    /// The build recorded under `build_id`, if any.
    pub fn get_build(&self, build_id: &String) -> (r: Option<&Build>)
        requires
            self.wf(),
        ensures
            match r {
                Some(b) => self.has_build(build_id@) && *b == self.build_of(build_id@),
                None => !self.has_build(build_id@),
            },
    {
        match self.find_index(build_id) {
            Some(i) => Some(&self.builds[i].build),
            None => None,
        }
    }

    /// Creates a new build: refused, with no state change, on a duplicate
    /// identifier or a length violation; on success the new build is
    /// recorded in progress with zero steps, every other record is
    /// untouched, and the returned `BuildStarted` event describes it.
    pub fn initialize_build(
        &mut self,
        build_id: String,
        project_name: String,
        authority: [u8; 32],
        now: i64,
    ) -> (r: Result<BuildStarted, ErrorCode>)
        requires
            old(self).wf(),
        ensures
            final(self).wf(),
            match r {
                Ok(ev) => {
                    &&& create_refusal(*old(self), build_id@, project_name@) is None
                    &&& final(self).builds@.len() == old(self).builds@.len() + 1
                    &&& forall|k: int|
                        0 <= k < old(self).builds@.len() ==> final(self).builds@[k] == old(
                            self,
                        ).builds@[k]
                    &&& final(self).has_build(build_id@)
                    &&& final(self).build_index(build_id@) == old(self).builds@.len()
                    &&& final(self).build_of(build_id@) == (Build {
                        authority,
                        build_id,
                        project_name,
                        step_count: 0,
                        started_at: now,
                        completed_at: 0,
                        status: BuildStatus::InProgress,
                        deployed_program_id: None,
                    })
                    &&& final(self).actions_of(build_id@).len() == 0
                    &&& ev.build_id@ == build_id@
                    &&& ev.project_name@ == project_name@
                    &&& ev.timestamp == now
                },
                Err(e) => {
                    &&& create_refusal(*old(self), build_id@, project_name@) == Some(e)
                    &&& *final(self) == *old(self)
                },
            },
    {
        if self.find_index(&build_id).is_some() {
            return Err(ErrorCode::DuplicateBuildID);
        }
        let id_len = build_id.as_str().unicode_len();
        let name_len = project_name.as_str().unicode_len();
        if id_len < 1 || id_len > BUILD_ID_MAX_LEN || name_len < 1 || name_len > PROJECT_NAME_MAX_LEN
        {
            return Err(ErrorCode::ValidationError);
        }
        let ev = BuildStarted {
            build_id: build_id.clone(),
            project_name: project_name.clone(),
            timestamp: now,
        };
        let entry = BuildEntry {
            build: Build {
                authority,
                build_id,
                project_name,
                step_count: 0,
                started_at: now,
                completed_at: 0,
                status: BuildStatus::InProgress,
                deployed_program_id: None,
            },
            actions: Vec::new(),
        };
        proof {
            assert(entry.wf());
        }
        self.builds.push(entry);
        proof {
            let olds = old(self).builds@;
            let news = self.builds@;
            assert(news == olds.push(entry));
            assert(news[olds.len() as int] == entry);
            assert forall|i: int| 0 <= i < news.len() implies (#[trigger] news[i]).wf() by {
                if i < olds.len() {
                    assert(news[i] == olds[i]);
                    assert(olds[i].wf());
                }
            }
            assert forall|i: int, j: int|
                0 <= i < news.len() && 0 <= j < news.len() && i != j implies (
            #[trigger] news[i]).build.build_id@ != (#[trigger] news[j]).build.build_id@ by {
                if i < olds.len() && j < olds.len() {
                    assert(olds[i].build.build_id@ != olds[j].build.build_id@);
                } else if i < olds.len() {
                    assert(news[j] == entry);
                    assert(olds[i].build.build_id@ != build_id@);
                } else {
                    assert(news[i] == entry);
                    assert(olds[j].build.build_id@ != build_id@);
                }
            }
            assert(self.has_build(build_id@));
            let j = self.build_index(build_id@);
            assert(0 <= j < news.len() && news[j].build.build_id@ == build_id@);
            assert(j == olds.len() as int);
        }
        Ok(ev)
    }

    /// Appends one action to an in-progress build, as one indivisible unit
    /// on `&mut self`: it reads the build's step counter, assigns the next
    /// step number, writes the immutable action record and bumps the
    /// counter together, so successive successful appends observe distinct,
    /// contiguous step numbers. Refused, with no state change, when the
    /// build is unknown, not in progress, or the description is too long.
    /// The returned `ActionLogged` event carries the assigned step number
    /// and the exact recorded fields.
    pub fn log_action(
        &mut self,
        build_id: &String,
        action_type: ActionType,
        description: String,
        content_hash: [u8; 32],
        now: i64,
    ) -> (r: Result<ActionLogged, ErrorCode>)
        requires
            old(self).wf(),
            old(self).step_room(build_id@),
        ensures
            final(self).wf(),
            match r {
                Ok(ev) => {
                    &&& append_refusal(*old(self), build_id@, description@) is None
                    &&& final(self).builds@.len() == old(self).builds@.len()
                    &&& forall|k: int|
                        0 <= k < old(self).builds@.len() && k != old(self).build_index(build_id@)
                            ==> final(self).builds@[k] == old(self).builds@[k]
                    &&& final(self).has_build(build_id@)
                    &&& final(self).build_index(build_id@) == old(self).build_index(build_id@)
                    &&& ev.step_number == old(self).build_of(build_id@).step_count + 1
                    &&& final(self).build_of(build_id@) == (Build {
                        step_count: ev.step_number,
                        ..old(self).build_of(build_id@)
                    })
                    &&& final(self).actions_of(build_id@).len() == old(self).actions_of(
                        build_id@,
                    ).len() + 1
                    &&& forall|k: int|
                        0 <= k < old(self).actions_of(build_id@).len() ==> final(self).actions_of(
                            build_id@,
                        )[k] == old(self).actions_of(build_id@)[k]
                    &&& (final(self).action_lookup(build_id@, ev.step_number) matches Some(a)
                        && a.build_id@ == build_id@ && a.step_number == ev.step_number
                        && a.action_type == action_type && a.description@ == description@
                        && a.content_hash == content_hash && a.timestamp == now)
                    &&& ev.build_id@ == build_id@
                    &&& ev.action_type == action_type
                    &&& ev.description@ == description@
                    &&& ev.content_hash == content_hash
                    &&& ev.timestamp == now
                },
                Err(e) => {
                    &&& append_refusal(*old(self), build_id@, description@) == Some(e)
                    &&& *final(self) == *old(self)
                },
            },
    {
        let idx = match self.find_index(build_id) {
            Some(i) => i,
            None => {
                return Err(ErrorCode::NotFound);
            },
        };
        if self.builds[idx].build.status != BuildStatus::InProgress {
            return Err(ErrorCode::BuildNotInProgress);
        }
        let desc_len = description.as_str().unicode_len();
        if desc_len > DESCRIPTION_MAX_LEN {
            return Err(ErrorCode::ValidationError);
        }
        proof {
            assert(old(self).build_of(build_id@).step_count < u32::MAX);
        }
        let ghost olds = self.builds@;
        let ghost old_entry = self.builds@[idx as int];
        let entry = &mut self.builds[idx];
        let new_step = entry.build.step_count + 1;
        entry.build.step_count = new_step;
        let action = BuildAction {
            build_id: build_id.clone(),
            step_number: new_step,
            action_type,
            description: description.clone(),
            content_hash,
            timestamp: now,
        };
        entry.actions.push(action);
        let ev = ActionLogged {
            build_id: build_id.clone(),
            step_number: new_step,
            action_type,
            description,
            content_hash,
            timestamp: now,
        };
        proof {
            let news = self.builds@;
            let new_entry = news[idx as int];
            assert(news == olds.update(idx as int, new_entry));
            assert(new_entry.build == (Build { step_count: new_step, ..old_entry.build }));
            assert(new_entry.actions@ == old_entry.actions@.push(action));
            assert(new_entry.wf()) by {
                assert(old_entry.wf());
                assert forall|k: int| 0 <= k < new_entry.actions@.len() implies (
                #[trigger] new_entry.actions@[k]).step_number == k + 1 by {
                    if k < old_entry.actions@.len() {
                        assert(new_entry.actions@[k] == old_entry.actions@[k]);
                    } else {
                        assert(new_entry.actions@[k] == action);
                    }
                }
            }
            assert forall|i: int| 0 <= i < news.len() implies (#[trigger] news[i]).wf() by {
                if i != idx as int {
                    assert(news[i] == olds[i]);
                }
            }
            assert forall|i: int, j: int|
                0 <= i < news.len() && 0 <= j < news.len() && i != j implies (
            #[trigger] news[i]).build.build_id@ != (#[trigger] news[j]).build.build_id@ by {
                assert(news[i].build.build_id@ == olds[i].build.build_id@);
                assert(news[j].build.build_id@ == olds[j].build.build_id@);
            }
            assert(self.has_build(build_id@));
            let j = self.build_index(build_id@);
            assert(0 <= j < news.len() && news[j].build.build_id@ == build_id@);
            assert(j == idx as int);
            assert(self.actions_of(build_id@)[new_step - 1] == action);
        }
        Ok(ev)
    }

    /// Moves an in-progress build to its terminal status, one-shot:
    /// `Completed` when `success` holds, `Failed` otherwise, recording the
    /// completion time and the optional artifact identifier. Only the
    /// build's recorded authority may complete it. Refused, with no state
    /// change, when the build is unknown, already terminal, the caller is
    /// not the authority, or the artifact identifier is too long. The
    /// returned `BuildCompleted` event carries the final step total.
    pub fn complete_build(
        &mut self,
        build_id: &String,
        success: bool,
        program_id: Option<String>,
        caller: [u8; 32],
        now: i64,
    ) -> (r: Result<BuildCompleted, ErrorCode>)
        requires
            old(self).wf(),
        ensures
            final(self).wf(),
            match r {
                Ok(ev) => {
                    &&& complete_refusal(*old(self), build_id@, caller@, program_id.deep_view())
                        is None
                    &&& final(self).builds@.len() == old(self).builds@.len()
                    &&& forall|k: int|
                        0 <= k < old(self).builds@.len() && k != old(self).build_index(build_id@)
                            ==> final(self).builds@[k] == old(self).builds@[k]
                    &&& final(self).has_build(build_id@)
                    &&& final(self).build_index(build_id@) == old(self).build_index(build_id@)
                    &&& final(self).build_of(build_id@) == (Build {
                        status: if success {
                            BuildStatus::Completed
                        } else {
                            BuildStatus::Failed
                        },
                        completed_at: now,
                        deployed_program_id: program_id,
                        ..old(self).build_of(build_id@)
                    })
                    &&& final(self).actions_of(build_id@) == old(self).actions_of(build_id@)
                    &&& ev.build_id@ == build_id@
                    &&& ev.success == success
                    &&& ev.program_id == program_id
                    &&& ev.timestamp == now
                    &&& ev.total_steps == old(self).build_of(build_id@).step_count
                },
                Err(e) => {
                    &&& complete_refusal(*old(self), build_id@, caller@, program_id.deep_view())
                        == Some(e)
                    &&& *final(self) == *old(self)
                },
            },
    {
        let idx = match self.find_index(build_id) {
            Some(i) => i,
            None => {
                return Err(ErrorCode::NotFound);
            },
        };
        if self.builds[idx].build.status != BuildStatus::InProgress {
            return Err(ErrorCode::BuildNotInProgress);
        }
        if !keys_equal(&caller, &self.builds[idx].build.authority) {
            return Err(ErrorCode::Unauthorized);
        }
        let artifact_fits = match &program_id {
            Some(p) => p.as_str().unicode_len() <= PROGRAM_ID_MAX_LEN,
            None => true,
        };
        if !artifact_fits {
            return Err(ErrorCode::ValidationError);
        }
        let stored: Option<String> = match &program_id {
            Some(p) => Some(p.clone()),
            None => None,
        };
        proof {
            assert(stored == program_id);
        }
        let ghost olds = self.builds@;
        let ghost old_entry = self.builds@[idx as int];
        let total = self.builds[idx].build.step_count;
        let entry = &mut self.builds[idx];
        entry.build.status = if success {
            BuildStatus::Completed
        } else {
            BuildStatus::Failed
        };
        entry.build.completed_at = now;
        entry.build.deployed_program_id = stored;
        let ev = BuildCompleted {
            build_id: build_id.clone(),
            success,
            program_id,
            timestamp: now,
            total_steps: total,
        };
        proof {
            let news = self.builds@;
            let new_entry = news[idx as int];
            assert(news == olds.update(idx as int, new_entry));
            assert(new_entry.actions@ == old_entry.actions@);
            assert(new_entry.wf()) by {
                assert(old_entry.wf());
            }
            assert forall|i: int| 0 <= i < news.len() implies (#[trigger] news[i]).wf() by {
                if i != idx as int {
                    assert(news[i] == olds[i]);
                }
            }
            assert forall|i: int, j: int|
                0 <= i < news.len() && 0 <= j < news.len() && i != j implies (
            #[trigger] news[i]).build.build_id@ != (#[trigger] news[j]).build.build_id@ by {
                assert(news[i].build.build_id@ == olds[i].build.build_id@);
                assert(news[j].build.build_id@ == olds[j].build.build_id@);
            }
            assert(self.has_build(build_id@));
            let j = self.build_index(build_id@);
            assert(0 <= j < news.len() && news[j].build.build_id@ == build_id@);
            assert(j == idx as int);
        }
        Ok(ev)
    }

    /// The action recorded under `(build_id, step_number)`, if any.
    pub fn get_action(&self, build_id: &String, step_number: u32) -> (r: Option<&BuildAction>)
        requires
            self.wf(),
        ensures
            match r {
                Some(a) => self.action_lookup(build_id@, step_number) == Some(*a),
                None => self.action_lookup(build_id@, step_number) is None,
            },
    {
        let idx = match self.find_index(build_id) {
            Some(i) => i,
            None => {
                return None;
            },
        };
        let entry = &self.builds[idx];
        if 1 <= step_number && step_number as usize <= entry.actions.len() {
            Some(&entry.actions[step_number as usize - 1])
        } else {
            None
        }
    }
}

} // verus!
