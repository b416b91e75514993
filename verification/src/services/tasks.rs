//! The task lifecycle service: creation, plain edits, and the guarded state
//! transitions. Every mutation checks its guard first; a refused transition
//! fails with `IllegalStateTransition` and leaves the row untouched.

use vstd::prelude::*;

verus! {

use crate::commons::chassis::ServiceError;
use crate::ident::{dec_digits, lemma_ids_ok_push};
use crate::models::enrollments::PlanCriteria;
use crate::models::tasks::{
    ChangeCoachTaskStateRequest, ChangeMemberTaskStateRequest, CoachTargetState,
    MemberTargetState, NewTask, NewTaskRequest, Task, UpdateClosingNoteRequest,
    UpdateResponseRequest, UpdateTaskRequest,
};
use crate::store::{
    has_task_id, lemma_task_by_id, same_but_tasks, task_by_id, task_ids, Store,
};
use crate::temporal::{parsed_date, spec_offset_date};
use crate::text::str_eq;

/// One task row was inserted, under the identifier minted for it, and
/// nothing else moved.
pub open spec fn task_inserted(s0: Store, s1: Store, t: Task) -> bool {
    &&& same_but_tasks(s0, s1)
    &&& s1.tasks@ == s0.tasks@.push(t)
    &&& s1.next_id == s0.next_id + 1
    &&& t.id@ == dec_digits(s0.next_id as nat)
}

/// A freshly created task: scheduled as requested, no lifecycle marker set.
pub open spec fn fresh_task(t: Task, req: NewTaskRequest, now: i64) -> bool {
    &&& t.enrollment_id@ == req.enrollment_id@
    &&& t.actor_id@ == req.actor_id@
    &&& t.name@ == req.name@
    &&& t.duration == req.duration
    &&& t.min == 0
    &&& t.max == 0
    &&& t.original_start_date == parsed_date(req.start_time@)->0
    &&& t.original_end_date == spec_offset_date(
        parsed_date(req.start_time@)->0,
        (req.duration as int) * 3600,
    )
    &&& t.revised_start_date is None
    &&& t.revised_end_date is None
    &&& t.offered_start_date is None
    &&& t.offered_end_date is None
    &&& t.actual_start_date is None
    &&& t.actual_end_date is None
    &&& !t.locked
    &&& t.created_at == now
    &&& t.updated_at == now
    &&& t.description matches Some(d) && d@ == req.description@
    &&& t.closing_notes is None
    &&& t.response is None
    &&& t.approved_at is None
    &&& t.cancelled_at is None
    &&& t.responded_date is None
}

/// Creates a task for an enrollment: the schedule starts at the requested
/// instant and ends `duration` hours later.
pub fn create_task(store: &mut Store, request: &NewTaskRequest, now: i64) -> (r: Result<
    Task,
    ServiceError,
>)
    requires
        old(store).wf(),
        old(store).next_id < u64::MAX,
        parsed_date(request.start_time@) is Some,
    ensures
        final(store).wf(),
        r is Ok,
        fresh_task(r->Ok_0, *request, now),
        task_inserted(*old(store), *final(store), r->Ok_0),
{
    let id = store.mint_id();
    let new_task = NewTask::from(request, id);
    let task = Task {
        id: new_task.id,
        enrollment_id: new_task.enrollment_id,
        actor_id: new_task.actor_id,
        name: new_task.name,
        duration: new_task.duration,
        min: 0,
        max: 0,
        original_start_date: new_task.original_start_date,
        original_end_date: new_task.original_end_date,
        revised_start_date: None,
        revised_end_date: None,
        offered_start_date: None,
        offered_end_date: None,
        actual_start_date: None,
        actual_end_date: None,
        locked: false,
        created_at: now,
        updated_at: now,
        description: Some(new_task.description),
        closing_notes: None,
        response: None,
        approved_at: None,
        cancelled_at: None,
        responded_date: None,
    };
    let r = task.clone();
    let ghost mid_store = *store;
    store.tasks.push(task);
    proof {
        assert(task_ids(store.tasks@) =~= task_ids(mid_store.tasks@).push(
            dec_digits(old(store).next_id as nat),
        ));
        lemma_ids_ok_push(task_ids(old(store).tasks@), old(store).next_id as nat);
    }
    Ok(r)
}

/// The plain edit a coach may make while the respond cycle has not begun:
/// name, description, and the original schedule window.
pub open spec fn task_edited(t: Task, req: UpdateTaskRequest, now: i64) -> Task {
    Task {
        name: req.name,
        description: Some(req.description),
        duration: req.duration,
        original_start_date: parsed_date(req.start_time@)->0,
        original_end_date: spec_offset_date(
            parsed_date(req.start_time@)->0,
            (req.duration as int) * 3600,
        ),
        updated_at: now,
        ..t
    }
}

/// The outcome every task mutation reports: the named row, rewritten by
/// `f`, with nothing else moved.
pub open spec fn task_rewritten(s0: Store, s1: Store, id: Seq<char>, t2: Task) -> bool {
    &&& same_but_tasks(s0, s1)
    &&& s1.next_id == s0.next_id
    &&& s1.tasks@.len() == s0.tasks@.len()
    &&& forall|i: int|
        0 <= i < s0.tasks@.len() ==> s1.tasks@[i] == (if (#[trigger] s0.tasks@[i]).id@ == id {
            t2
        } else {
            s0.tasks@[i]
        })
}

/// Edits name, description and schedule, legal only while the task has not
/// started its respond cycle and is still open.
pub fn update_task(store: &mut Store, request: &UpdateTaskRequest, now: i64) -> (r: Result<
    Task,
    ServiceError,
>)
    requires
        old(store).wf(),
        parsed_date(request.start_time@) is Some,
    ensures
        final(store).wf(),
        match r {
            Ok(t2) => {
                let t = task_by_id(*old(store), request.id@);
                &&& has_task_id(*old(store), request.id@)
                &&& t.spec_can_edit()
                &&& t2 == task_edited(t, *request, now)
                &&& task_rewritten(*old(store), *final(store), request.id@, t2)
            },
            Err(e) => {
                &&& *final(store) == *old(store)
                &&& match e {
                    ServiceError::TaskNotFound => !has_task_id(*old(store), request.id@),
                    ServiceError::IllegalStateTransition => {
                        &&& has_task_id(*old(store), request.id@)
                        &&& !task_by_id(*old(store), request.id@).spec_can_edit()
                    },
                    _ => false,
                }
            },
        },
{
    let ix = match store.find_task_index(request.id.as_str()) {
        Some(ix) => ix,
        None => {
            return Err(ServiceError::TaskNotFound);
        },
    };
    proof {
        lemma_task_by_id(*store, ix as int);
    }
    let mut row = store.tasks[ix].clone();
    if !(row.responded_date.is_none() && row.cancelled_at.is_none()
        && row.actual_end_date.is_none()) {
        return Err(ServiceError::IllegalStateTransition);
    }
    let new_task = NewTask::from(
        &NewTaskRequest {
            enrollment_id: row.enrollment_id.clone(),
            actor_id: row.actor_id.clone(),
            start_time: request.start_time.clone(),
            duration: request.duration,
            description: request.description.clone(),
            name: request.name.clone(),
        },
        row.id.clone(),
    );
    row.name = request.name.clone();
    row.description = Some(request.description.clone());
    row.duration = request.duration;
    row.original_start_date = new_task.original_start_date;
    row.original_end_date = new_task.original_end_date;
    row.updated_at = now;
    let out = row.clone();
    store.replace_task(ix, row);
    Ok(out)
}

/// Records the member's response text, legal only while the task is started,
/// open, and not yet responded.
pub fn update_response(store: &mut Store, request: &UpdateResponseRequest) -> (r: Result<
    Task,
    ServiceError,
>)
    requires
        old(store).wf(),
    ensures
        final(store).wf(),
        match r {
            Ok(t2) => {
                let t = task_by_id(*old(store), request.id@);
                &&& has_task_id(*old(store), request.id@)
                &&& t.spec_can_respond()
                &&& t2 == (Task { response: Some(request.response), ..t })
                &&& task_rewritten(*old(store), *final(store), request.id@, t2)
            },
            Err(e) => {
                &&& *final(store) == *old(store)
                &&& match e {
                    ServiceError::TaskNotFound => !has_task_id(*old(store), request.id@),
                    ServiceError::IllegalStateTransition => {
                        &&& has_task_id(*old(store), request.id@)
                        &&& !task_by_id(*old(store), request.id@).spec_can_respond()
                    },
                    _ => false,
                }
            },
        },
{
    let ix = match store.find_task_index(request.id.as_str()) {
        Some(ix) => ix,
        None => {
            return Err(ServiceError::TaskNotFound);
        },
    };
    proof {
        lemma_task_by_id(*store, ix as int);
    }
    let mut row = store.tasks[ix].clone();
    if !row.can_respond() {
        return Err(ServiceError::IllegalStateTransition);
    }
    row.response = Some(request.response.clone());
    let out = row.clone();
    store.replace_task(ix, row);
    Ok(out)
}

/// Records the coach's closing notes; a plain edit with no guard.
pub fn update_closing_notes(store: &mut Store, request: &UpdateClosingNoteRequest) -> (r: Result<
    Task,
    ServiceError,
>)
    requires
        old(store).wf(),
    ensures
        final(store).wf(),
        match r {
            Ok(t2) => {
                let t = task_by_id(*old(store), request.id@);
                &&& has_task_id(*old(store), request.id@)
                &&& t2 == (Task { closing_notes: Some(request.notes), ..t })
                &&& task_rewritten(*old(store), *final(store), request.id@, t2)
            },
            Err(e) => {
                &&& e == ServiceError::TaskNotFound
                &&& !has_task_id(*old(store), request.id@)
                &&& *final(store) == *old(store)
            },
        },
{
    let ix = match store.find_task_index(request.id.as_str()) {
        Some(ix) => ix,
        None => {
            return Err(ServiceError::TaskNotFound);
        },
    };
    proof {
        lemma_task_by_id(*store, ix as int);
    }
    let mut row = store.tasks[ix].clone();
    row.closing_notes = Some(request.notes.clone());
    let out = row.clone();
    store.replace_task(ix, row);
    Ok(out)
}

/// The member's transitions: START begins the work, FINISH hands it to the
/// coach by stamping the responded marker.
pub fn change_member_task_state(
    store: &mut Store,
    request: &ChangeMemberTaskStateRequest,
    now: i64,
) -> (r: Result<Task, ServiceError>)
    requires
        old(store).wf(),
    ensures
        final(store).wf(),
        match r {
            Ok(t2) => {
                let t = task_by_id(*old(store), request.id@);
                &&& has_task_id(*old(store), request.id@)
                &&& match request.target_state {
                    MemberTargetState::START => t.spec_can_start() && t2 == (Task {
                        actual_start_date: Some(now),
                        ..t
                    }),
                    MemberTargetState::FINISH => t.spec_can_finish() && t2 == (Task {
                        responded_date: Some(now),
                        ..t
                    }),
                }
                &&& task_rewritten(*old(store), *final(store), request.id@, t2)
            },
            Err(e) => {
                &&& *final(store) == *old(store)
                &&& match e {
                    ServiceError::TaskNotFound => !has_task_id(*old(store), request.id@),
                    ServiceError::IllegalStateTransition => {
                        let t = task_by_id(*old(store), request.id@);
                        &&& has_task_id(*old(store), request.id@)
                        &&& match request.target_state {
                            MemberTargetState::START => !t.spec_can_start(),
                            MemberTargetState::FINISH => !t.spec_can_finish(),
                        }
                    },
                    _ => false,
                }
            },
        },
{
    let ix = match store.find_task_index(request.id.as_str()) {
        Some(ix) => ix,
        None => {
            return Err(ServiceError::TaskNotFound);
        },
    };
    proof {
        lemma_task_by_id(*store, ix as int);
    }
    let mut row = store.tasks[ix].clone();
    match request.target_state {
        MemberTargetState::START => {
            if !row.can_start() {
                return Err(ServiceError::IllegalStateTransition);
            }
            row.actual_start_date = Some(now);
        },
        MemberTargetState::FINISH => {
            if !row.can_finish() {
                return Err(ServiceError::IllegalStateTransition);
            }
            row.responded_date = Some(now);
        },
    }
    let out = row.clone();
    store.replace_task(ix, row);
    Ok(out)
}

/// The coach's transitions: DONE approves a responded task, CANCEL closes an
/// open task for good, REOPEN sends a responded task back to the member —
/// the start and responded markers are cleared, the historical response text
/// is retained.
pub fn change_coach_task_state(
    store: &mut Store,
    request: &ChangeCoachTaskStateRequest,
    now: i64,
) -> (r: Result<Task, ServiceError>)
    requires
        old(store).wf(),
    ensures
        final(store).wf(),
        match r {
            Ok(t2) => {
                let t = task_by_id(*old(store), request.id@);
                &&& has_task_id(*old(store), request.id@)
                &&& match request.target_state {
                    CoachTargetState::DONE => t.spec_can_complete() && t2 == (Task {
                        actual_end_date: Some(now),
                        approved_at: Some(now),
                        ..t
                    }),
                    CoachTargetState::CANCEL => t.spec_can_cancel() && t2 == (Task {
                        cancelled_at: Some(now),
                        ..t
                    }),
                    CoachTargetState::REOPEN => t.spec_can_reopen() && t2 == (Task {
                        responded_date: None,
                        actual_start_date: None,
                        ..t
                    }),
                }
                &&& task_rewritten(*old(store), *final(store), request.id@, t2)
            },
            Err(e) => {
                &&& *final(store) == *old(store)
                &&& match e {
                    ServiceError::TaskNotFound => !has_task_id(*old(store), request.id@),
                    ServiceError::IllegalStateTransition => {
                        let t = task_by_id(*old(store), request.id@);
                        &&& has_task_id(*old(store), request.id@)
                        &&& match request.target_state {
                            CoachTargetState::DONE => !t.spec_can_complete(),
                            CoachTargetState::CANCEL => !t.spec_can_cancel(),
                            CoachTargetState::REOPEN => !t.spec_can_reopen(),
                        }
                    },
                    _ => false,
                }
            },
        },
{
    let ix = match store.find_task_index(request.id.as_str()) {
        Some(ix) => ix,
        None => {
            return Err(ServiceError::TaskNotFound);
        },
    };
    proof {
        lemma_task_by_id(*store, ix as int);
    }
    let mut row = store.tasks[ix].clone();
    match request.target_state {
        CoachTargetState::DONE => {
            if !row.can_complete() {
                return Err(ServiceError::IllegalStateTransition);
            }
            row.actual_end_date = Some(now);
            row.approved_at = Some(now);
        },
        CoachTargetState::CANCEL => {
            if !row.can_cancel() {
                return Err(ServiceError::IllegalStateTransition);
            }
            row.cancelled_at = Some(now);
        },
        CoachTargetState::REOPEN => {
            if !row.can_reopen() {
                return Err(ServiceError::IllegalStateTransition);
            }
            row.responded_date = None;
            row.actual_start_date = None;
        },
    }
    let out = row.clone();
    store.replace_task(ix, row);
    Ok(out)
}

/// The tasks of one enrollment, in store order.
pub open spec fn tasks_of_enrollment(ts: Seq<Task>, eid: Seq<char>) -> Seq<Task>
    decreases ts.len(),
{
    if ts.len() == 0 {
        Seq::empty()
    } else {
        let rest = tasks_of_enrollment(ts.drop_last(), eid);
        if ts.last().enrollment_id@ == eid {
            rest.push(ts.last())
        } else {
            rest
        }
    }
}

/// Lists the tasks of an enrollment, in store order.
pub fn get_tasks(store: &Store, criteria: &PlanCriteria) -> (r: Result<Vec<Task>, ServiceError>)
    ensures
        r is Ok,
        r->Ok_0@ == tasks_of_enrollment(store.tasks@, criteria.enrollment_id@),
{
    let mut rows: Vec<Task> = Vec::new();
    let n = store.tasks.len();
    let mut i: usize = 0;
    proof {
        assert(store.tasks@.take(0) =~= Seq::<Task>::empty());
    }
    while i < n
        invariant
            0 <= i <= n,
            n == store.tasks@.len(),
            rows@ == tasks_of_enrollment(store.tasks@.take(i as int), criteria.enrollment_id@),
        decreases n - i,
    {
        if str_eq(store.tasks[i].enrollment_id.as_str(), criteria.enrollment_id.as_str()) {
            rows.push(store.tasks[i].clone());
        }
        proof {
            assert(store.tasks@.take(i as int + 1).drop_last() =~= store.tasks@.take(i as int));
            assert(store.tasks@.take(i as int + 1).last() == store.tasks@[i as int]);
        }
        i = i + 1;
    }
    proof {
        assert(store.tasks@.take(n as int) =~= store.tasks@);
    }
    Ok(rows)
}

} // verus!
