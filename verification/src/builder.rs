//! Sequencing of the per-target build invocations. The external compiler
//! itself runs outside this library; the decisions - which target comes
//! next, and that the first failing invocation aborts the whole run - are
//! made here. `BuildRun` is stepped once per invocation with the observed
//! outcome, and `run_build` relates a whole run to the outcomes of its
//! invocations.

use vstd::prelude::*;
use crate::errors::RunError;

verus! {

/// The position of the first failing invocation in a sequence of exit
/// outcomes (`true` for success), if any invocation fails.
pub open spec fn first_failure(statuses: Seq<bool>) -> Option<int>
    decreases statuses.len(),
{
    if statuses.len() == 0 {
        None
    } else if !statuses[0] {
        Some(0)
    } else {
        match first_failure(statuses.drop_first()) {
            None => None,
            Some(i) => Some(i + 1),
        }
    }
}

/// The builder aborts on the first failing target: if every invocation
/// before `k` succeeds and invocation `k` fails, then `k` is the first
/// failure, so a run invokes exactly the first `k + 1` targets and reports
/// the failure of target `k` (see `run_build`).
pub proof fn lemma_first_failure_at(statuses: Seq<bool>, k: int)
    requires
        0 <= k < statuses.len(),
        !statuses[k],
        forall|j: int| 0 <= j < k ==> statuses[j],
    ensures
        first_failure(statuses) == Some(k),
    decreases statuses.len(),
{
    if k > 0 {
        lemma_first_failure_at(statuses.drop_first(), k - 1);
    }
}

/// A run in which every invocation succeeds has no first failure, so all
/// targets are invoked and the run succeeds (see `run_build`).
pub proof fn lemma_first_failure_none(statuses: Seq<bool>)
    requires
        forall|j: int| 0 <= j < statuses.len() ==> statuses[j],
    ensures
        first_failure(statuses) is None,
    decreases statuses.len(),
{
    if statuses.len() > 0 {
        lemma_first_failure_none(statuses.drop_first());
    }
}

/// The state of one build run: the targets to build in order, how many
/// have been built so far, and whether a failure has been recorded.
/// Invocations are strictly sequential; once a failure is recorded no
/// further target is issued.
#[derive(Debug)]
pub struct BuildRun {
    targets: Vec<String>,
    next: usize,
    failed: bool,
}

impl BuildRun {
    /// The target triples this run builds, in order.
    pub closed spec fn spec_targets(self) -> Seq<Seq<char>> {
        self.targets.deep_view()
    }

    /// How many invocations have completed successfully.
    pub closed spec fn completed(self) -> int {
        self.next as int
    }

    /// Whether a failing invocation has been recorded.
    pub closed spec fn has_failed(self) -> bool {
        self.failed
    }

    pub open spec fn wf(self) -> bool {
        self.completed() <= self.spec_targets().len()
    }

    /// Starts a run over the given targets, none attempted yet.
    pub fn new(targets: Vec<String>) -> (r: BuildRun)
        ensures
            r.wf(),
            r.spec_targets() == targets.deep_view(),
            r.completed() == 0,
            !r.has_failed(),
    {
        BuildRun { targets, next: 0, failed: false }
    }

    /// The target to hand to the compiler next: the first not yet built,
    /// or nothing once every target is built or a failure was recorded.
    pub fn next_target(&self) -> (r: Option<String>)
        requires
            self.wf(),
        ensures
            match r {
                Some(t) => !self.has_failed() && self.completed() < self.spec_targets().len()
                    && t@ == self.spec_targets()[self.completed()],
                None => self.has_failed() || self.completed() == self.spec_targets().len(),
            },
    {
        if self.failed || self.next >= self.targets.len() {
            None
        } else {
            Some(self.targets[self.next].clone())
        }
    }

    /// Records that the current invocation exited successfully; the run
    /// moves on to the next target.
    pub fn record_success(&mut self)
        requires
            old(self).wf(),
            !old(self).has_failed(),
            old(self).completed() < old(self).spec_targets().len(),
        ensures
            final(self).wf(),
            final(self).spec_targets() == old(self).spec_targets(),
            final(self).completed() == old(self).completed() + 1,
            !final(self).has_failed(),
    {
        proof {
            assert(self.spec_targets().len() == self.targets@.len());
            assert(self.targets.len() == self.targets@.len());
        }
        self.next = self.next + 1;
    }

    /// Records that the current invocation failed (non-zero exit, or could
    /// not be started at all): the run aborts, no further target is issued,
    /// and the error names the failing target.
    pub fn record_failure(&mut self) -> (e: RunError)
        requires
            old(self).wf(),
            !old(self).has_failed(),
            old(self).completed() < old(self).spec_targets().len(),
        ensures
            final(self).wf(),
            final(self).spec_targets() == old(self).spec_targets(),
            final(self).completed() == old(self).completed(),
            final(self).has_failed(),
            e matches RunError::BuildFailed(t) && t@ == old(self).spec_targets()[old(
                self,
            ).completed()],
    {
        self.failed = true;
        RunError::BuildFailed(self.targets[self.next].clone())
    }
}

/// Copies a target list, element for element.
fn clone_targets(v: &Vec<String>) -> (r: Vec<String>)
    ensures
        r.deep_view() == v.deep_view(),
{
    let mut r: Vec<String> = Vec::new();
    let mut i: usize = 0;
    while i < v.len()
        invariant
            i <= v@.len(),
            r@.len() == i,
            forall|j: int| 0 <= j < i ==> r@[j]@ == v@[j]@,
        decreases v@.len() - i,
    {
        r.push(v[i].clone());
        i += 1;
    }
    proof {
        assert(r.deep_view() =~~= v.deep_view());
    }
    r
}

/// Runs a whole build, one invocation outcome per target, in order: with
/// `statuses[i]` the exit outcome invocation `i` would observe, exactly the
/// targets up to and including the first failure are invoked - the first
/// component of the result counts them - and the run reports `BuildFailed`
/// for the first failing target, or succeeds when no invocation fails.
pub fn run_build(targets: &Vec<String>, statuses: &Vec<bool>) -> (r: (usize, Option<RunError>))
    requires
        statuses@.len() == targets@.len(),
    ensures
        match first_failure(statuses@) {
            None => r.0 == targets@.len() && r.1 is None,
            Some(k) => {
                &&& r.0 == k + 1
                &&& r.1 matches Some(e) && e matches RunError::BuildFailed(t) && t@
                    == targets.deep_view()[k]
            },
        },
{
    let ghost tseq = targets.deep_view();
    let n = statuses.len();
    let mut run = BuildRun::new(clone_targets(targets));
    let mut i: usize = 0;
    while i < n
        invariant
            run.wf(),
            run.spec_targets() == tseq,
            run.completed() == i,
            !run.has_failed(),
            i <= n,
            tseq == targets.deep_view(),
            n == tseq.len(),
            statuses@.len() == n,
            forall|j: int| 0 <= j < i ==> statuses@[j],
        decreases n - i,
    {
        if statuses[i] {
            run.record_success();
            i += 1;
        } else {
            let e = run.record_failure();
            proof {
                lemma_first_failure_at(statuses@, i as int);
            }
            return (i + 1, Some(e));
        }
    }
    proof {
        lemma_first_failure_none(statuses@);
    }
    (i, None)
}

} // verus!
