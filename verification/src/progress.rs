//! The progress model behind the window: six phases, each pending, running
//! or done, with an optional line of detail, and the cleanup counts once
//! they are known.

use vstd::prelude::*;
use crate::cleanup::CleanupStats;

verus! {

#[derive(Clone, Copy, PartialEq, Eq, Structural, Debug)]
pub enum PhaseStatus {
    Pending,
    Running,
    Done,
}

#[derive(Clone)]
pub struct Phase {
    pub name: &'static str,
    pub status: PhaseStatus,
    pub detail: String,
}

pub struct TaskState {
    pub is_done: bool,
    pub phases: Vec<Phase>,
    pub active_phase: usize,
    pub cleanup_stats: Option<CleanupStats>,
}

/// The phases in the order they run.
pub open spec fn phase_names() -> Seq<Seq<char>> {
    seq![
        "IDM Activator Script"@,
        "Temporary File Cleanup"@,
        "Gaming Optimizations"@,
        "Adobe Optimization"@,
        "System & Privacy"@,
        "Startup & Services"@,
    ]
}

/// The number of phases that are done.
pub open spec fn done_count(phases: Seq<Phase>) -> nat
    decreases phases.len(),
{
    if phases.len() == 0 {
        0
    } else {
        done_count(phases.drop_last()) + if phases.last().status == PhaseStatus::Done {
            1nat
        } else {
            0nat
        }
    }
}

/// `b` is `a` with phase `idx` given `status` and an empty detail, the rest untouched.
pub open spec fn phase_set(a: Seq<Phase>, b: Seq<Phase>, idx: int, status: PhaseStatus) -> bool {
    &&& b.len() == a.len()
    &&& b[idx].name == a[idx].name
    &&& b[idx].status == status
    &&& b[idx].detail@ == Seq::<char>::empty()
    &&& forall|j: int| 0 <= j < a.len() && j != idx ==> #[trigger] b[j] == a[j]
}

proof fn lemma_done_count_update(a: Seq<Phase>, b: Seq<Phase>, idx: int)
    requires
        a.len() == b.len(),
        0 <= idx < a.len(),
        forall|j: int| 0 <= j < a.len() && j != idx ==> #[trigger] b[j] == a[j],
    ensures
        done_count(b) + (if a[idx].status == PhaseStatus::Done {
            1int
        } else {
            0int
        }) == done_count(a) + (if b[idx].status == PhaseStatus::Done {
            1int
        } else {
            0int
        }),
    decreases a.len(),
{
    if idx < a.len() - 1 {
        assert forall|j: int| 0 <= j < a.drop_last().len() && j != idx implies #[trigger] b.drop_last()[j]
            == a.drop_last()[j] by {
            assert(b[j] == a[j]);
        }
        lemma_done_count_update(a.drop_last(), b.drop_last(), idx);
        assert(b.last() == a.last());
    } else {
        assert(a.drop_last() =~= b.drop_last()) by {
            assert forall|j: int| 0 <= j < a.drop_last().len() implies b.drop_last()[j]
                == a.drop_last()[j] by {
                assert(b[j] == a[j]);
            }
        }
    }
}

proof fn lemma_done_count_bound(a: Seq<Phase>)
    ensures
        done_count(a) <= a.len(),
    decreases a.len(),
{
    if a.len() > 0 {
        lemma_done_count_bound(a.drop_last());
    }
}

impl TaskState {
    /// Nothing done yet: the six phases, all pending, with no detail.
    pub fn new() -> (s: Self)
        ensures
            !s.is_done,
            s.active_phase == 0,
            s.cleanup_stats is None,
            s.phases@.len() == 6,
            forall|i: int|
                0 <= i < 6 ==> {
                    &&& (#[trigger] s.phases@[i]).name@ == phase_names()[i]
                    &&& s.phases@[i].status == PhaseStatus::Pending
                    &&& s.phases@[i].detail@ == Seq::<char>::empty()
                },
    {
        let mut phases: Vec<Phase> = Vec::new();
        phases.push(Phase { name: "IDM Activator Script", status: PhaseStatus::Pending, detail: String::new() });
        phases.push(Phase { name: "Temporary File Cleanup", status: PhaseStatus::Pending, detail: String::new() });
        phases.push(Phase { name: "Gaming Optimizations", status: PhaseStatus::Pending, detail: String::new() });
        phases.push(Phase { name: "Adobe Optimization", status: PhaseStatus::Pending, detail: String::new() });
        phases.push(Phase { name: "System & Privacy", status: PhaseStatus::Pending, detail: String::new() });
        phases.push(Phase { name: "Startup & Services", status: PhaseStatus::Pending, detail: String::new() });
        TaskState { is_done: false, phases, active_phase: 0, cleanup_stats: None }
    }

    /// Marks phase `idx` running, with no detail, and makes it the active one;
    /// an index past the last phase changes nothing.
    pub fn start_phase(&mut self, idx: usize)
        ensures
            idx < old(self).phases@.len() ==> {
                &&& final(self).active_phase == idx
                &&& phase_set(old(self).phases@, final(self).phases@, idx as int, PhaseStatus::Running)
                &&& final(self).is_done == old(self).is_done
                &&& final(self).cleanup_stats == old(self).cleanup_stats
            },
            idx >= old(self).phases@.len() ==> *final(self) == *old(self),
    {
        if idx < self.phases.len() {
            self.active_phase = idx;
            let name = self.phases[idx].name;
            self.phases.set(idx, Phase { name, status: PhaseStatus::Running, detail: String::new() });
        }
    }

    /// Shows `detail` under phase `idx`; an index past the last phase changes nothing.
    pub fn set_detail(&mut self, idx: usize, detail: String)
        ensures
            idx < old(self).phases@.len() ==> {
                &&& final(self).phases@.len() == old(self).phases@.len()
                &&& final(self).phases@[idx as int].name == old(self).phases@[idx as int].name
                &&& final(self).phases@[idx as int].status == old(self).phases@[idx as int].status
                &&& final(self).phases@[idx as int].detail@ == detail@
                &&& forall|j: int|
                    0 <= j < old(self).phases@.len() && j != idx ==> #[trigger] final(self).phases@[j]
                        == old(self).phases@[j]
                &&& final(self).active_phase == old(self).active_phase
                &&& final(self).is_done == old(self).is_done
                &&& final(self).cleanup_stats == old(self).cleanup_stats
            },
            idx >= old(self).phases@.len() ==> *final(self) == *old(self),
    {
        if idx < self.phases.len() {
            let name = self.phases[idx].name;
            let status = self.phases[idx].status;
            self.phases.set(idx, Phase { name, status, detail });
        }
    }

    /// Marks phase `idx` done and clears its detail; an index past the last phase
    /// changes nothing.
    pub fn complete_phase(&mut self, idx: usize)
        ensures
            idx < old(self).phases@.len() ==> {
                &&& phase_set(old(self).phases@, final(self).phases@, idx as int, PhaseStatus::Done)
                &&& final(self).active_phase == old(self).active_phase
                &&& final(self).is_done == old(self).is_done
                &&& final(self).cleanup_stats == old(self).cleanup_stats
            },
            idx >= old(self).phases@.len() ==> *final(self) == *old(self),
    {
        if idx < self.phases.len() {
            let name = self.phases[idx].name;
            self.phases.set(idx, Phase { name, status: PhaseStatus::Done, detail: String::new() });
        }
    }

    /// The number of phases done; the progress shown is this over the number of phases.
    pub fn done_phases(&self) -> (n: usize)
        ensures
            n == done_count(self.phases@),
            n <= self.phases@.len(),
    {
        let mut n: usize = 0;
        let mut i: usize = 0;
        while i < self.phases.len()
            invariant
                0 <= i <= self.phases@.len(),
                n == done_count(self.phases@.take(i as int)),
                n <= i,
            decreases self.phases@.len() - i,
        {
            assert(self.phases@.take(i + 1).drop_last() =~= self.phases@.take(i as int));
            if self.phases[i].status == PhaseStatus::Done {
                n += 1;
            }
            i += 1;
        }
        assert(self.phases@.take(self.phases@.len() as int) =~= self.phases@);
        n
    }
}

/// Completing a phase that was not done adds exactly one to the count of done
/// phases; completing one that was done leaves it as it was.
pub proof fn law_complete_phase_progress(before: Seq<Phase>, after: Seq<Phase>, idx: int)
    requires
        0 <= idx < before.len(),
        phase_set(before, after, idx, PhaseStatus::Done),
    ensures
        done_count(after) == done_count(before) + if before[idx].status == PhaseStatus::Done {
            0nat
        } else {
            1nat
        },
        done_count(after) <= after.len(),
{
    lemma_done_count_update(before, after, idx);
    lemma_done_count_bound(after);
}

/// Starting a phase that was not done leaves the count of done phases unchanged.
pub proof fn law_start_phase_progress(before: Seq<Phase>, after: Seq<Phase>, idx: int)
    requires
        0 <= idx < before.len(),
        phase_set(before, after, idx, PhaseStatus::Running),
        before[idx].status != PhaseStatus::Done,
    ensures
        done_count(after) == done_count(before),
{
    lemma_done_count_update(before, after, idx);
}

/// Once every phase is done, the count of done phases is the number of phases.
pub proof fn law_all_done_full_progress(phases: Seq<Phase>)
    requires
        forall|i: int| 0 <= i < phases.len() ==> (#[trigger] phases[i]).status == PhaseStatus::Done,
    ensures
        done_count(phases) == phases.len(),
    decreases phases.len(),
{
    if phases.len() > 0 {
        law_all_done_full_progress(phases.drop_last());
    }
}

} // verus!
