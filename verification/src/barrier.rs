//! The readiness barrier itself: completion flags for the fixed, closed set
//! of initialization tasks, the operation that reports a task complete, and
//! the proofs that the all-complete transition fires exactly once.

use vstd::prelude::*;
use crate::text::str_eq;

verus! {

/// The fixed, closed set of task names the barrier tracks. It is agreed at
/// build time and is not runtime-extensible.
pub open spec fn is_task_name(name: Seq<char>) -> bool {
    name == "frontend"@ || name == "backend"@
}

/// The two task names are distinct sequences of characters.
pub proof fn lemma_task_names_distinct()
    ensures
        "frontend"@ != "backend"@,
{
    reveal_strlit("frontend");
    reveal_strlit("backend");
    assert("frontend"@.len() == 8);
    assert("backend"@.len() == 7);
}

/// A task name outside the fixed known set was reported.
#[derive(Clone, Copy, PartialEq, Eq, Structural, Debug)]
pub struct InvalidTaskError;

/// Tracks which of the initialization tasks have been reported complete.
///
/// Each task moves one way, pending to done; the barrier as a whole moves
/// one way, incomplete to complete, and the report that makes that move is
/// the one (and only one) on which the surface transition is due.
pub struct ReadinessBarrier {
    frontend_done: bool,
    backend_done: bool,
}

impl ReadinessBarrier {
    /// Whether the named task has been reported complete. Names outside the
    /// fixed set are never complete.
    pub closed spec fn task_done(self, name: Seq<char>) -> bool {
        (name == "frontend"@ && self.frontend_done)
            || (name == "backend"@ && self.backend_done)
    }

    /// Every tracked task is complete.
    pub open spec fn all_done(self) -> bool {
        self.task_done("frontend"@) && self.task_done("backend"@)
    }

    /// The initial state: no task reported complete yet.
    pub open spec fn fresh(self) -> bool {
        !self.task_done("frontend"@) && !self.task_done("backend"@)
    }

    /// The state after one completion report: the named flag is set, every
    /// other flag is unchanged. A name outside the fixed set changes nothing.
    pub closed spec fn spec_mark(self, name: Seq<char>) -> ReadinessBarrier {
        ReadinessBarrier {
            frontend_done: self.frontend_done || name == "frontend"@,
            backend_done: self.backend_done || name == "backend"@,
        }
    }

    /// Whether one completion report is the one that completes the set: the
    /// transition fires on exactly this edge, incomplete to complete.
    pub open spec fn spec_fires(self, name: Seq<char>) -> bool {
        !self.all_done() && self.spec_mark(name).all_done()
    }

    /// A new barrier with every task pending.
    pub fn new() -> (b: ReadinessBarrier)
        ensures
            b.fresh(),
    {
        ReadinessBarrier { frontend_done: false, backend_done: false }
    }

    /// Report the named task complete.
    ///
    /// Returns `Ok(true)` exactly when this report moves the barrier from
    /// incomplete to complete; the caller then performs the one-time surface
    /// transition before releasing its exclusive access. Reporting an
    /// already-complete task is accepted and changes nothing. A name outside
    /// the fixed set is rejected and leaves every flag unchanged.
    pub fn mark_complete(&mut self, task: &str) -> (r: Result<bool, InvalidTaskError>)
        ensures
            r is Ok <==> is_task_name(task@),
            is_task_name(task@) ==> *final(self) == old(self).spec_mark(task@)
                && r == Ok::<bool, InvalidTaskError>(old(self).spec_fires(task@)),
            !is_task_name(task@) ==> *final(self) == *old(self)
                && r == Err::<bool, InvalidTaskError>(InvalidTaskError),
            is_task_name(task@) ==> final(self).task_done(task@),
            forall|t: Seq<char>| old(self).task_done(t) ==> final(self).task_done(t),
            forall|t: Seq<char>| t != task@ ==> final(self).task_done(t) == old(self).task_done(t),
    {
        proof {
            lemma_task_names_distinct();
        }
        if str_eq(task, "frontend") {
            let was_all = self.frontend_done && self.backend_done;
            self.frontend_done = true;
            let now_all = self.frontend_done && self.backend_done;
            Ok(!was_all && now_all)
        } else if str_eq(task, "backend") {
            let was_all = self.frontend_done && self.backend_done;
            self.backend_done = true;
            let now_all = self.frontend_done && self.backend_done;
            Ok(!was_all && now_all)
        } else {
            Err(InvalidTaskError)
        }
    }

    /// The state after a whole sequence of completion reports, applied in
    /// order.
    pub open spec fn spec_mark_all(self, names: Seq<Seq<char>>) -> ReadinessBarrier
        decreases names.len(),
    {
        if names.len() == 0 {
            self
        } else {
            self.spec_mark(names[0]).spec_mark_all(names.drop_first())
        }
    }

    /// How many reports in a sequence fire the transition.
    pub open spec fn spec_fire_count(self, names: Seq<Seq<char>>) -> nat
        decreases names.len(),
    {
        if names.len() == 0 {
            0nat
        } else {
            (if self.spec_fires(names[0]) {
                1nat
            } else {
                0nat
            }) + self.spec_mark(names[0]).spec_fire_count(names.drop_first())
        }
    }

    /// Whether the named task has been reported complete; a name outside the
    /// fixed set is rejected.
    pub fn is_complete(&self, task: &str) -> (r: Result<bool, InvalidTaskError>)
        ensures
            r is Ok <==> is_task_name(task@),
            is_task_name(task@) ==> r == Ok::<bool, InvalidTaskError>(self.task_done(task@)),
            !is_task_name(task@) ==> r == Err::<bool, InvalidTaskError>(InvalidTaskError),
    {
        proof {
            lemma_task_names_distinct();
        }
        if str_eq(task, "frontend") {
            Ok(self.frontend_done)
        } else if str_eq(task, "backend") {
            Ok(self.backend_done)
        } else {
            Err(InvalidTaskError)
        }
    }

    /// Whether every tracked task is complete.
    pub fn all_complete(&self) -> (r: bool)
        ensures
            r == self.all_done(),
    {
        proof {
            lemma_task_names_distinct();
        }
        self.frontend_done && self.backend_done
    }
}

/// Monotonicity: a task already complete stays complete, whatever single
/// report follows.
pub proof fn lemma_mark_monotone(b: ReadinessBarrier, name: Seq<char>, t: Seq<char>)
    requires
        b.task_done(t),
    ensures
        b.spec_mark(name).task_done(t),
{
}

/// Monotonicity over a whole sequence of reports: a task already complete
/// stays complete for the lifetime of the barrier.
pub proof fn lemma_mark_all_monotone(b: ReadinessBarrier, names: Seq<Seq<char>>, t: Seq<char>)
    requires
        b.task_done(t),
    ensures
        b.spec_mark_all(names).task_done(t),
    decreases names.len(),
{
    if names.len() > 0 {
        lemma_mark_all_monotone(b.spec_mark(names[0]), names.drop_first(), t);
    }
}

/// A valid completion report marks exactly the named task: that task is
/// complete afterwards, and every other name is untouched.
pub proof fn lemma_mark_effect(b: ReadinessBarrier, name: Seq<char>, t: Seq<char>)
    ensures
        is_task_name(name) ==> b.spec_mark(name).task_done(name),
        t != name ==> b.spec_mark(name).task_done(t) == b.task_done(t),
{
}

/// A report naming an unknown task changes nothing and never fires the
/// transition.
pub proof fn lemma_unknown_name_inert(b: ReadinessBarrier, name: Seq<char>)
    requires
        !is_task_name(name),
    ensures
        b.spec_mark(name) == b,
        !b.spec_fires(name),
{
}

/// Order independence: two completion reports commute — reporting in either
/// order yields the same barrier state.
pub proof fn lemma_mark_commutes(b: ReadinessBarrier, n1: Seq<char>, n2: Seq<char>)
    ensures
        b.spec_mark(n1).spec_mark(n2) == b.spec_mark(n2).spec_mark(n1),
{
}

/// Idempotence: repeating a completion report changes nothing further, and
/// the repeat never fires the transition.
pub proof fn lemma_mark_idempotent(b: ReadinessBarrier, name: Seq<char>)
    ensures
        b.spec_mark(name).spec_mark(name) == b.spec_mark(name),
        !b.spec_mark(name).spec_fires(name),
{
}

/// From a fresh barrier, reporting the frontend task twice leaves the
/// backend task pending and fires nothing on either report.
pub proof fn lemma_repeat_frontend_does_not_fire(b: ReadinessBarrier)
    requires
        b.fresh(),
    ensures
        !b.spec_fires("frontend"@),
        !b.spec_mark("frontend"@).spec_fires("frontend"@),
        b.spec_mark("frontend"@).spec_mark("frontend"@) == b.spec_mark("frontend"@),
        b.spec_mark("frontend"@).task_done("frontend"@),
        !b.spec_mark("frontend"@).task_done("backend"@),
{
    lemma_task_names_distinct();
}

/// A sequence of reports that names every tracked task completes the set.
pub proof fn lemma_mark_all_completes(b: ReadinessBarrier, names: Seq<Seq<char>>)
    requires
        b.task_done("frontend"@) || names.contains("frontend"@),
        b.task_done("backend"@) || names.contains("backend"@),
    ensures
        b.spec_mark_all(names).all_done(),
    decreases names.len(),
{
    if names.len() == 0 {
        assert(!names.contains("frontend"@));
        assert(!names.contains("backend"@));
    } else {
        let b1 = b.spec_mark(names[0]);
        if !b.task_done("frontend"@) {
            lemma_contains_after_first(names, "frontend"@);
        }
        if !b.task_done("backend"@) {
            lemma_contains_after_first(names, "backend"@);
        }
        lemma_mark_all_completes(b1, names.drop_first());
    }
}

/// A name a non-empty sequence contains is its first element or is
/// contained in the rest.
proof fn lemma_contains_after_first(names: Seq<Seq<char>>, t: Seq<char>)
    requires
        names.len() > 0,
        names.contains(t),
    ensures
        names[0] == t || names.drop_first().contains(t),
{
    if names[0] != t {
        let i = choose|i: int| 0 <= i < names.len() && names[i] == t;
        assert(names.drop_first()[i - 1] == t);
    }
}

/// The transition fires exactly on the edge from incomplete to complete:
/// over any sequence of reports, the number of firing reports is one when
/// the sequence carries the barrier from incomplete to complete, and zero
/// otherwise. In particular it is never more than one.
pub proof fn lemma_fire_count(b: ReadinessBarrier, names: Seq<Seq<char>>)
    ensures
        b.spec_fire_count(names) == if !b.all_done()
            && b.spec_mark_all(names).all_done() {
            1nat
        } else {
            0nat
        },
        b.spec_fire_count(names) <= 1,
    decreases names.len(),
{
    if names.len() > 0 {
        let b1 = b.spec_mark(names[0]);
        lemma_fire_count(b1, names.drop_first());
        if b1.all_done() {
            lemma_mark_all_monotone(b1, names.drop_first(), "frontend"@);
            lemma_mark_all_monotone(b1, names.drop_first(), "backend"@);
        }
    }
}

/// Exactly-once transition: from a fresh barrier, any sequence of
/// completion reports that names both tasks — in whatever order, with
/// whatever repetitions or unknown names interleaved — fires the transition
/// exactly once in total.
pub proof fn lemma_exactly_once(b: ReadinessBarrier, names: Seq<Seq<char>>)
    requires
        b.fresh(),
        names.contains("frontend"@),
        names.contains("backend"@),
    ensures
        b.spec_fire_count(names) == 1,
{
    lemma_mark_all_completes(b, names);
    lemma_fire_count(b, names);
}

/// Order independence for the two tasks themselves: reporting them in
/// either order from a fresh barrier ends in the same fully-complete state,
/// and in each order exactly one of the two reports fires the transition.
pub proof fn lemma_order_independent(b: ReadinessBarrier)
    requires
        b.fresh(),
    ensures
        b.spec_mark("frontend"@).spec_mark("backend"@) == b.spec_mark("backend"@).spec_mark(
            "frontend"@,
        ),
        b.spec_mark("frontend"@).spec_mark("backend"@).all_done(),
        b.spec_fire_count(seq!["frontend"@, "backend"@]) == 1,
        b.spec_fire_count(seq!["backend"@, "frontend"@]) == 1,
{
    lemma_task_names_distinct();
    assert(b.spec_fire_count(seq!["frontend"@, "backend"@]) == 1) by {
        let names = seq!["frontend"@, "backend"@];
        assert(names[0] == "frontend"@);
        assert(names.contains("frontend"@));
        assert(names[1] == "backend"@);
        assert(names.contains("backend"@));
        lemma_exactly_once(b, names);
    }
    assert(b.spec_fire_count(seq!["backend"@, "frontend"@]) == 1) by {
        let names = seq!["backend"@, "frontend"@];
        assert(names[0] == "backend"@);
        assert(names.contains("backend"@));
        assert(names[1] == "frontend"@);
        assert(names.contains("frontend"@));
        lemma_exactly_once(b, names);
    }
}

} // verus!
