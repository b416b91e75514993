//! The rules the library stands on, proved once and for all: the family
//! identity is idempotent, the admission gate keeps every member down to one
//! enrollment per family, and the task lifecycle guards behave as the state
//! machine promises.

use vstd::prelude::*;

verus! {

use crate::ident::{id_in_range, lemma_fresh_id};
use crate::models::enrollments::Enrollment;
use crate::models::programs::{Program, ProgramLineage};
use crate::models::tasks::{NewTaskRequest, Task, TaskStatus};
use crate::services::enrollments::enrollment_inserted;
use crate::services::programs::program_inserted;
use crate::services::tasks::fresh_task;
use crate::store::{
    enrollment_in_family, has_program_id, lemma_program_by_id, lemma_program_id_unique,
    program_by_id, program_in, Store,
};

/// The family identity the given rows assign to a program identity: the
/// program's `coalesce_parent_id`, or nothing where no such program exists.
pub open spec fn family_in(ps: Seq<Program>, pid: Seq<char>) -> Option<Seq<char>> {
    if exists|i: int| 0 <= i < ps.len() && (#[trigger] ps[i]).id@ == pid {
        Some(program_in(ps, pid).spec_coalesce_parent_id())
    } else {
        None
    }
}

/// No member holds two enrollments whose programs belong to one family.
pub open spec fn one_enrollment_per_family(ps: Seq<Program>, es: Seq<Enrollment>) -> bool {
    forall|i: int, j: int|
        #![trigger es[i], es[j]]
        0 <= i < j < es.len() && es[i].member_id@ == es[j].member_id@ ==> !(family_in(
            ps,
            es[i].program_id@,
        ) is Some && family_in(ps, es[i].program_id@) == family_in(ps, es[j].program_id@))
}

/// The family identity is idempotent: applying `coalesce_parent_id` to the
/// program it names returns the same identity. The program found under a
/// family identity is always a root, and a root's family identity is its own.
pub proof fn lemma_coalesce_parent_id_idempotent(s: Store, p: Program)
    requires
        s.wf(),
        s.programs@.contains(p),
    ensures
        has_program_id(s, p.spec_coalesce_parent_id()),
        program_by_id(s, p.spec_coalesce_parent_id()).spec_is_parent(),
        program_by_id(s, p.spec_coalesce_parent_id()).spec_coalesce_parent_id()
            == p.spec_coalesce_parent_id(),
{
    match p.lineage {
        ProgramLineage::Root => {
            lemma_program_by_id(s, p);
        },
        ProgramLineage::Spawned { root_id } => {
            let i = choose|i: int| 0 <= i < s.programs@.len() && s.programs@[i] == p;
            assert(s.programs@[i].lineage is Spawned);
            assert(crate::store::has_root(s.programs@, root_id@));
            let k = choose|k: int|
                0 <= k < s.programs@.len() && s.programs@[k].id@ == root_id@
                    && s.programs@[k].lineage is Root;
            let root = s.programs@[k];
            assert(s.programs@.contains(root));
            lemma_program_by_id(s, root);
        },
    }
}

/// Appending a freshly keyed program changes no existing program identity's
/// family.
proof fn lemma_family_in_push_fresh(s: Store, p: Program, pid: Seq<char>)
    requires
        s.wf(),
        id_in_range(pid, s.next_id as nat),
        p.id@ == crate::ident::dec_digits(s.next_id as nat),
    ensures
        family_in(s.programs@.push(p), pid) == family_in(s.programs@, pid),
{
    let ps0 = s.programs@;
    let ps1 = ps0.push(p);
    lemma_fresh_id(pid, s.next_id as nat);
    if exists|i: int| 0 <= i < ps0.len() && (#[trigger] ps0[i]).id@ == pid {
        let i = choose|i: int| 0 <= i < ps0.len() && (#[trigger] ps0[i]).id@ == pid;
        assert(ps1[i] == ps0[i]);
        let q0 = program_in(ps0, pid);
        let q1 = program_in(ps1, pid);
        assert(ps0.contains(ps0[i]));
        assert(ps0.contains(q0) && q0.id@ == pid);
        assert(ps1.contains(ps0[i]));
        assert(ps1.contains(q1) && q1.id@ == pid);
        let j1 = choose|j: int| 0 <= j < ps1.len() && ps1[j] == q1;
        assert(j1 < ps0.len()) by {
            if j1 == ps0.len() {
                assert(q1 == p);
            }
        }
        assert(ps0.contains(q1));
        let a = choose|a: int| 0 <= a < ps0.len() && ps0[a] == q0;
        let b = choose|b: int| 0 <= b < ps0.len() && ps0[b] == q1;
        lemma_program_id_unique(&s, a, b);
        assert(q0 == q1);
    } else {
        assert forall|i: int| 0 <= i < ps1.len() implies (#[trigger] ps1[i]).id@ != pid by {
            if i < ps0.len() {
                assert(ps1[i] == ps0[i]);
            } else {
                assert(ps1[i] == p);
            }
        }
    }
}

/// Spawning a program — by `create_new_program` or `associate_coach` —
/// cannot give a member a second enrollment in a family: every existing
/// enrollment keeps the family it had.
pub proof fn lemma_spawn_preserves_single_enrollment(s0: Store, s1: Store, p: Program)
    requires
        s0.wf(),
        one_enrollment_per_family(s0.programs@, s0.enrollments@),
        program_inserted(s0, s1, p),
    ensures
        one_enrollment_per_family(s1.programs@, s1.enrollments@),
{
    let ps0 = s0.programs@;
    let ps1 = s1.programs@;
    let es = s1.enrollments@;
    assert(ps1 == ps0.push(p));
    assert(es == s0.enrollments@);
    assert forall|i: int, j: int|
        #![trigger es[i], es[j]]
        0 <= i < j < es.len() && es[i].member_id@ == es[j].member_id@ implies !(family_in(
        ps1,
        es[i].program_id@,
    ) is Some && family_in(ps1, es[i].program_id@) == family_in(ps1, es[j].program_id@)) by {
        assert(id_in_range(es[i].program_id@, s0.next_id as nat));
        assert(id_in_range(es[j].program_id@, s0.next_id as nat));
        lemma_family_in_push_fresh(s0, p, es[i].program_id@);
        lemma_family_in_push_fresh(s0, p, es[j].program_id@);
    }
}

/// The admission gate is sound: inserting an enrollment that passed the
/// gate — no enrollment of the member anywhere in the program's family —
/// keeps every member down to one enrollment per family.
pub proof fn lemma_admission_gate_preserves_single_enrollment(
    s0: Store,
    s1: Store,
    e: Enrollment,
    pid: Seq<char>,
    mid: Seq<char>,
    now: i64,
)
    requires
        s0.wf(),
        one_enrollment_per_family(s0.programs@, s0.enrollments@),
        has_program_id(s0, pid),
        !enrollment_in_family(s0, mid, program_by_id(s0, pid).spec_coalesce_parent_id()),
        enrollment_inserted(s0, s1, e, pid, mid, now),
    ensures
        one_enrollment_per_family(s1.programs@, s1.enrollments@),
{
    let ps = s0.programs@;
    let es0 = s0.enrollments@;
    let es1 = s1.enrollments@;
    assert(s1.programs@ == ps);
    assert(es1 == es0.push(e));
    let f = program_by_id(s0, pid).spec_coalesce_parent_id();
    assert forall|i: int, j: int|
        #![trigger es1[i], es1[j]]
        0 <= i < j < es1.len() && es1[i].member_id@ == es1[j].member_id@ implies !(family_in(
        ps,
        es1[i].program_id@,
    ) is Some && family_in(ps, es1[i].program_id@) == family_in(ps, es1[j].program_id@)) by {
        if j < es0.len() {
            assert(es1[i] == es0[i] && es1[j] == es0[j]);
        } else {
            assert(es1[j] == e && es1[i] == es0[i]);
            if es0[i].member_id@ == mid && family_in(ps, es0[i].program_id@) is Some
                && family_in(ps, es0[i].program_id@) == family_in(ps, e.program_id@) {
                // Exactly the pair the admission gate excludes.
                assert(family_in(ps, pid) == Some(f));
                let q = program_in(ps, es0[i].program_id@);
                let w = choose|w: int| 0 <= w < ps.len() && (#[trigger] ps[w]).id@ == es0[i].program_id@;
                assert(ps.contains(ps[w]));
                assert(ps.contains(q) && q.id@ == es0[i].program_id@);
                let k2 = choose|k2: int| 0 <= k2 < ps.len() && ps[k2] == q;
                assert(q.spec_coalesce_parent_id() == f);
                assert(s0.enrollments@[i].member_id@ == mid);
                assert(s0.programs@[k2].id@ == s0.enrollments@[i].program_id@);
                assert(s0.programs@[k2].spec_coalesce_parent_id() == f);
                assert(enrollment_in_family(s0, mid, f));
                assert(false);
            }
        }
    }
}

/// No two enrollment rows link one member to one program.
pub open spec fn unique_enrollment_pairs(es: Seq<Enrollment>) -> bool {
    forall|i: int, j: int|
        #![trigger es[i], es[j]]
        0 <= i < j < es.len() ==> !(es[i].program_id@ == es[j].program_id@ && es[i].member_id@
            == es[j].member_id@)
}

/// The admission gate keeps every (program, member) pair unique as well: an
/// enrollment of the member anywhere in the family covers the program
/// itself.
pub proof fn lemma_admission_gate_preserves_unique_pairs(
    s0: Store,
    s1: Store,
    e: Enrollment,
    pid: Seq<char>,
    mid: Seq<char>,
    now: i64,
)
    requires
        s0.wf(),
        unique_enrollment_pairs(s0.enrollments@),
        has_program_id(s0, pid),
        !enrollment_in_family(s0, mid, program_by_id(s0, pid).spec_coalesce_parent_id()),
        enrollment_inserted(s0, s1, e, pid, mid, now),
    ensures
        unique_enrollment_pairs(s1.enrollments@),
{
    let ps = s0.programs@;
    let es0 = s0.enrollments@;
    let es1 = s1.enrollments@;
    assert(es1 == es0.push(e));
    let f = program_by_id(s0, pid).spec_coalesce_parent_id();
    assert forall|i: int, j: int|
        #![trigger es1[i], es1[j]]
        0 <= i < j < es1.len() implies !(es1[i].program_id@ == es1[j].program_id@
        && es1[i].member_id@ == es1[j].member_id@) by {
        if j < es0.len() {
            assert(es1[i] == es0[i] && es1[j] == es0[j]);
        } else {
            assert(es1[j] == e && es1[i] == es0[i]);
            if es0[i].program_id@ == pid && es0[i].member_id@ == mid {
                let k0 = choose|k0: int|
                    0 <= k0 < ps.len() && (#[trigger] ps[k0]).id@ == pid;
                assert(ps.contains(ps[k0]));
                let q = program_in(ps, pid);
                assert(ps.contains(q) && q.id@ == pid);
                let k2 = choose|k2: int| 0 <= k2 < ps.len() && ps[k2] == q;
                assert(s0.programs@[k2].id@ == s0.enrollments@[i].program_id@);
                assert(s0.programs@[k2].spec_coalesce_parent_id() == f);
                assert(s0.enrollments@[i].member_id@ == mid);
                assert(enrollment_in_family(s0, mid, f));
                assert(false);
            }
        }
    }
}

/// The exact-pair check of the coach's self-enrollment path keeps the pair
/// unique too.
pub proof fn lemma_pair_check_preserves_unique_pairs(
    s0: Store,
    s1: Store,
    e: Enrollment,
    pid: Seq<char>,
    mid: Seq<char>,
    now: i64,
)
    requires
        unique_enrollment_pairs(s0.enrollments@),
        !crate::store::has_enrollment_pair(s0, pid, mid),
        enrollment_inserted(s0, s1, e, pid, mid, now),
    ensures
        unique_enrollment_pairs(s1.enrollments@),
{
    let es0 = s0.enrollments@;
    let es1 = s1.enrollments@;
    assert(es1 == es0.push(e));
    assert forall|i: int, j: int|
        #![trigger es1[i], es1[j]]
        0 <= i < j < es1.len() implies !(es1[i].program_id@ == es1[j].program_id@
        && es1[i].member_id@ == es1[j].member_id@) by {
        if j < es0.len() {
            assert(es1[i] == es0[i] && es1[j] == es0[j]);
        } else {
            assert(es1[j] == e && es1[i] == es0[i]);
        }
    }
}

/// Status precedence: a cancelled task reports `CANCELLED` at every instant,
/// never `DONE`, however many other markers are set.
pub proof fn lemma_cancelled_wins_over_done(t: Task, now: i64)
    requires
        t.cancelled_at is Some,
    ensures
        t.spec_status(now) == TaskStatus::CANCELLED,
        t.spec_status(now) != TaskStatus::DONE,
{
}

/// A freshly created task can be cancelled and started, and nothing else.
pub proof fn lemma_fresh_task_guards(t: Task, req: NewTaskRequest, now: i64)
    requires
        fresh_task(t, req, now),
    ensures
        t.spec_can_cancel(),
        t.spec_can_start(),
        !t.spec_can_respond(),
        !t.spec_can_finish(),
        !t.spec_can_complete(),
        !t.spec_can_reopen(),
{
}

/// Cancelling closes every door: no guard holds of a cancelled task.
pub proof fn lemma_cancelled_task_guards(t: Task)
    requires
        t.cancelled_at is Some,
    ensures
        !t.spec_can_cancel(),
        !t.spec_can_start(),
        !t.spec_can_respond(),
        !t.spec_can_finish(),
        !t.spec_can_complete(),
{
}

/// The reopen guard holds exactly when a response has been recorded — never
/// before the member finished.
pub proof fn lemma_reopen_only_after_finish(t: Task)
    ensures
        t.spec_can_reopen() <==> t.responded_date is Some,
{
}

/// Finishing a task is what enables reopening it.
pub proof fn lemma_finish_enables_reopen(t: Task, now: i64)
    requires
        t.spec_can_finish(),
    ensures
        (Task { responded_date: Some(now), ..t }).spec_can_reopen(),
{
}

/// Reopening clears the responded and start markers — so the task cannot be
/// responded to until it is started again — but retains the historical
/// response text: the reopened task is not the task it was before the
/// response was written.
pub proof fn lemma_reopen_keeps_response(t: Task)
    requires
        t.spec_can_reopen(),
    ensures
        !(Task { responded_date: None, actual_start_date: None, ..t }).spec_can_respond(),
        !(Task { responded_date: None, actual_start_date: None, ..t }).spec_can_reopen(),
        (Task { responded_date: None, actual_start_date: None, ..t }).spec_can_start() <==> (t.cancelled_at
            is None && t.actual_end_date is None),
        (Task { responded_date: None, actual_start_date: None, ..t }).response == t.response,
{
}

} // verus!
