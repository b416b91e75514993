//! The entry points the request layer calls: each mutation validates its
//! request first, then dispatches to the owning service, wrapping the typed
//! outcome for the transport. The caller supplies the current instant, read
//! once at its own boundary.

use vstd::prelude::*;

verus! {

use vstd::string::StringExecFns;
use crate::commons::chassis::{
    errs_match, query_error, service_error, MutationResult, QueryResult, ServiceError,
};
use crate::models::enrollments::{
    new_enrollment_errors, Enrollment, EnrollmentCriteria, EnrollmentFilter, NewEnrollmentRequest,
    ManagedEnrollmentRequest, PlanCriteria,
};
use crate::models::objectives::{
    new_objective_errors, update_objective_errors, NewObjectiveRequest, Objective,
    UpdateObjectiveRequest,
};
use crate::models::programs::{
    new_program_errors, AssociateCoachRequest, ChangeProgramStateRequest, NewProgramRequest,
    Program, ProgramCoach, ProgramTargetState,
};
use crate::models::sessions::{
    new_session_errors, ChangeSessionStateRequest, NewSessionRequest, Session, TargetState,
};
use crate::models::tasks::{
    new_task_errors, update_task_errors, ChangeCoachTaskStateRequest,
    ChangeMemberTaskStateRequest, CoachTargetState, MemberTargetState, NewTaskRequest, Task,
    UpdateClosingNoteRequest, UpdateResponseRequest, UpdateTaskRequest,
};
use crate::models::user_programs::{
    coach_rows, enrolled_rows, get_programs, rows_sorted_by_name, Desire, ProgramCriteria,
    ProgramRow,
};
use crate::models::users::User;
use crate::services::enrollments::{
    create_managed_enrollment, create_new_enrollment, enrolled_members, enrollment_inserted,
    get_active_enrollments, sorted_by_name,
};
use crate::services::objectives::{
    create_objective, fresh_objective, get_objectives, objective_edited, objective_inserted,
    objective_rewritten, objectives_of_enrollment, update_objective,
};
use crate::services::programs::{
    associate_coach, change_program_state, create_new_program, get_peer_coaches, is_peer_of,
    peer_rows, program_inserted, with_active,
};
use crate::services::sessions::{
    change_session_state, closed_notes, create_session, first_member_name, fresh_session,
    session_inserted, session_rewritten,
};
use crate::services::tasks::{
    change_coach_task_state, change_member_task_state, create_task, fresh_task, get_tasks,
    task_inserted, task_rewritten, tasks_of_enrollment, update_closing_notes, update_response,
    update_task,
};
use crate::store::{
    coach_in_family, enrollment_in_family, first_coach_by_email, first_coach_by_id,
    first_user_by_email, has_enrollment_pair, has_program_id, has_session_id, has_task_id,
    has_objective_id, has_user_id, program_by_id, session_by_id, task_by_id, objective_by_id,
    Store,
};

/// The per-call context the request layer hands to every root: the borrowed
/// store standing for the persistence handle.
pub struct DBContext {
    pub store: Store,
}

pub struct QueryRoot;

impl QueryRoot {
    /// The peer offerings of a program's family, each joined with its coach.
    pub fn get_program_coaches(context: &DBContext, program_id: &str) -> (r: QueryResult<
        Vec<ProgramCoach>,
    >)
        requires
            context.store.wf(),
        ensures
            match r.0 {
                Ok(v) => has_program_id(context.store, program_id@) && v@ == peer_rows(
                    context.store.programs@,
                    context.store.coaches@,
                    program_by_id(context.store, program_id@).spec_coalesce_parent_id(),
                ),
                Err(qe) => !has_program_id(context.store, program_id@) && qe.message@
                    == ServiceError::InvalidProgram.spec_message(),
            },
    {
        match get_peer_coaches(&context.store, program_id) {
            Ok(v) => QueryResult(Ok(v)),
            Err(e) => query_error(e.message()),
        }
    }

    /// The members enrolled in a program, ordered by display name.
    pub fn get_enrollments(context: &DBContext, criteria: EnrollmentCriteria) -> (r: Vec<User>)
        ensures
            r@.to_multiset() == enrolled_members(
                context.store.enrollments@,
                context.store.users@,
                criteria.program_id@,
                criteria.desire == EnrollmentFilter::NEW,
            ).to_multiset(),
            sorted_by_name(r@),
    {
        match get_active_enrollments(&context.store, criteria) {
            Ok(v) => v,
            Err(_) => Vec::new(),
        }
    }

    /// The programs a user browses: latest, enrolled, or their own.
    pub fn get_programs(context: &DBContext, criteria: &ProgramCriteria) -> (r: QueryResult<
        Vec<ProgramRow>,
    >)
        ensures
            r.0 is Ok,
            criteria.desire == Desire::ENROLLED ==> r.0->Ok_0@ == enrolled_rows(
                context.store,
                criteria.user_fuzzy_id@,
            ),
            criteria.desire == Desire::YOURS ==> r.0->Ok_0@.to_multiset() == coach_rows(
                context.store.programs@,
                context.store.coaches@,
                criteria.user_fuzzy_id@,
            ).to_multiset() && rows_sorted_by_name(r.0->Ok_0@),
    {
        match get_programs(&context.store, criteria) {
            Ok(v) => QueryResult(Ok(v)),
            Err(e) => query_error(e.message()),
        }
    }

    /// The tasks of an enrollment, in store order.
    pub fn get_tasks(context: &DBContext, criteria: &PlanCriteria) -> (r: QueryResult<Vec<Task>>)
        ensures
            r.0 is Ok,
            r.0->Ok_0@ == tasks_of_enrollment(context.store.tasks@, criteria.enrollment_id@),
    {
        match get_tasks(&context.store, criteria) {
            Ok(v) => QueryResult(Ok(v)),
            Err(e) => query_error(e.message()),
        }
    }

    /// The objectives of an enrollment, in store order.
    pub fn get_objectives(context: &DBContext, criteria: &PlanCriteria) -> (r: QueryResult<
        Vec<Objective>,
    >)
        ensures
            r.0 is Ok,
            r.0->Ok_0@ == objectives_of_enrollment(
                context.store.objectives@,
                criteria.enrollment_id@,
            ),
    {
        match get_objectives(&context.store, criteria) {
            Ok(v) => QueryResult(Ok(v)),
            Err(e) => query_error(e.message()),
        }
    }
}

pub struct MutationRoot;

impl MutationRoot {
    /// Validates and creates a root program.
    pub fn create_program(context: &mut DBContext, request: &NewProgramRequest, now: i64) -> (r:
        MutationResult<Program>)
        requires
            old(context).store.wf(),
            old(context).store.next_id < u64::MAX,
        ensures
            final(context).store.wf(),
            match r.0 {
                Ok(p) => {
                    &&& new_program_errors(*request).len() == 0
                    &&& first_coach_by_id(old(context).store.coaches@, request.coach_id@) is Some
                    &&& p.name@ == request.name@
                    &&& p.description@ == request.description@
                    &&& p.coach_id@ == request.coach_id@
                    &&& p.lineage is Root
                    &&& p.active
                    &&& p.created_at == now
                    &&& program_inserted(old(context).store, final(context).store, p)
                },
                Err(errs) => {
                    &&& final(context).store == old(context).store
                    &&& (errs_match(errs@, new_program_errors(*request)) && new_program_errors(
                        *request,
                    ).len() > 0) || (new_program_errors(*request).len() == 0 && errs@.len() == 1
                        && errs@[0].field@ == "service"@ && first_coach_by_id(
                        old(context).store.coaches@,
                        request.coach_id@,
                    ) is None && errs@[0].message@ == ServiceError::CoachNotFound.spec_message())
                },
            },
    {
        let errors = request.validate();
        if errors.len() > 0 {
            return MutationResult(Err(errors));
        }
        match create_new_program(&mut context.store, request, now) {
            Ok(program) => MutationResult(Ok(program)),
            Err(e) => service_error(e.message()),
        }
    }

    /// Associates a peer coach with a program's family.
    pub fn associate_coach(context: &mut DBContext, request: &AssociateCoachRequest, now: i64) -> (r:
        MutationResult<Program>)
        requires
            old(context).store.wf(),
            old(context).store.next_id < u64::MAX,
        ensures
            final(context).store.wf(),
            match r.0 {
                Ok(p) => {
                    &&& p.lineage is Spawned
                    &&& !p.spec_is_parent()
                    &&& p.lineage->root_id@ == program_by_id(
                        old(context).store,
                        request.program_id@,
                    ).spec_coalesce_parent_id()
                    &&& program_inserted(old(context).store, final(context).store, p)
                },
                Err(errs) => {
                    &&& final(context).store == old(context).store
                    &&& errs@.len() == 1
                    &&& errs@[0].field@ == "service"@
                    &&& !({
                        let coaches = old(context).store.coaches@;
                        let s0 = old(context).store;
                        &&& first_coach_by_email(coaches, request.peer_coach_email@) is Some
                        &&& has_program_id(s0, request.program_id@)
                        &&& !enrollment_in_family(
                            s0,
                            first_coach_by_email(coaches, request.peer_coach_email@)->0.id@,
                            program_by_id(s0, request.program_id@).spec_coalesce_parent_id(),
                        )
                        &&& !coach_in_family(
                            s0,
                            first_coach_by_email(coaches, request.peer_coach_email@)->0.id@,
                            program_by_id(s0, request.program_id@).spec_coalesce_parent_id(),
                        )
                    })
                },
            },
    {
        match associate_coach(&mut context.store, request, now) {
            Ok(program) => MutationResult(Ok(program)),
            Err(e) => service_error(e.message()),
        }
    }

    /// Changes the activation state of a family from its root.
    pub fn alter_program_state(context: &mut DBContext, request: &ChangeProgramStateRequest) -> (r:
        MutationResult<String>)
        requires
            old(context).store.wf(),
        ensures
            final(context).store.wf(),
            match r.0 {
                Ok(msg) => {
                    let s0 = old(context).store;
                    let prog = program_by_id(s0, request.id@);
                    let target_active = request.target_state == ProgramTargetState::ACTIVATE;
                    &&& msg@ == "Ok"@
                    &&& has_program_id(s0, request.id@)
                    &&& prog.spec_is_parent()
                    &&& prog.active != target_active
                    &&& final(context).store.programs@.len() == s0.programs@.len()
                    &&& forall|i: int|
                        0 <= i < s0.programs@.len() ==> final(context).store.programs@[i] == (
                        if is_peer_of(#[trigger] s0.programs@[i], request.id@) {
                            with_active(s0.programs@[i], target_active)
                        } else {
                            s0.programs@[i]
                        })
                },
                Err(errs) => {
                    let s0 = old(context).store;
                    &&& final(context).store == s0
                    &&& errs@.len() == 1
                    &&& errs@[0].field@ == "service"@
                    &&& !(has_program_id(s0, request.id@) && program_by_id(
                        s0,
                        request.id@,
                    ).spec_is_parent() && program_by_id(s0, request.id@).active != (
                    request.target_state == ProgramTargetState::ACTIVATE))
                },
            },
    {
        match change_program_state(&mut context.store, request) {
            Ok(_rows) => MutationResult(Ok(String::from_str("Ok"))),
            Err(e) => service_error(e.message()),
        }
    }

    /// Validates and creates an enrollment behind the admission gate.
    pub fn create_enrollment(context: &mut DBContext, request: &NewEnrollmentRequest, now: i64) -> (r:
        MutationResult<Enrollment>)
        requires
            old(context).store.wf(),
            old(context).store.next_id < u64::MAX,
        ensures
            final(context).store.wf(),
            match r.0 {
                Ok(e) => {
                    let s0 = old(context).store;
                    &&& new_enrollment_errors(*request).len() == 0
                    &&& has_user_id(s0, request.user_id@)
                    &&& has_program_id(s0, request.program_id@)
                    &&& !enrollment_in_family(
                        s0,
                        request.user_id@,
                        program_by_id(s0, request.program_id@).spec_coalesce_parent_id(),
                    )
                    &&& enrollment_inserted(
                        s0,
                        final(context).store,
                        e,
                        request.program_id@,
                        request.user_id@,
                        now,
                    )
                },
                Err(errs) => {
                    let s0 = old(context).store;
                    &&& final(context).store == s0
                    &&& (errs_match(errs@, new_enrollment_errors(*request))
                        && new_enrollment_errors(*request).len() > 0) || (new_enrollment_errors(
                        *request,
                    ).len() == 0 && errs@.len() == 1 && errs@[0].field@ == "service"@ && !(
                    has_user_id(s0, request.user_id@) && has_program_id(s0, request.program_id@)
                        && !enrollment_in_family(
                        s0,
                        request.user_id@,
                        program_by_id(s0, request.program_id@).spec_coalesce_parent_id(),
                    )))
                },
            },
    {
        let errors = request.validate();
        if errors.len() > 0 {
            return MutationResult(Err(errors));
        }
        match create_new_enrollment(&mut context.store, request, now) {
            Ok(enrollment) => MutationResult(Ok(enrollment)),
            Err(e) => service_error(e.message()),
        }
    }

    /// Enrolls a member on the coach's behalf.
    pub fn managed_enrollment(
        context: &mut DBContext,
        request: &ManagedEnrollmentRequest,
        now: i64,
    ) -> (r: MutationResult<Enrollment>)
        requires
            old(context).store.wf(),
            old(context).store.next_id < u64::MAX,
        ensures
            final(context).store.wf(),
            match r.0 {
                Ok(e) => {
                    let s0 = old(context).store;
                    &&& first_user_by_email(s0.users@, request.member_mail@) is Some
                    &&& enrollment_inserted(
                        s0,
                        final(context).store,
                        e,
                        request.program_id@,
                        first_user_by_email(s0.users@, request.member_mail@)->0.id@,
                        now,
                    )
                },
                Err(errs) => {
                    let s0 = old(context).store;
                    &&& final(context).store == s0
                    &&& errs@.len() == 1
                    &&& errs@[0].field@ == "service"@
                    &&& !({
                        &&& first_user_by_email(s0.users@, request.member_mail@) is Some
                        &&& has_program_id(s0, request.program_id@)
                        &&& program_by_id(s0, request.program_id@).coach_id@ == request.coach_id@
                        &&& has_user_id(s0, request.coach_id@)
                        &&& !enrollment_in_family(
                            s0,
                            first_user_by_email(s0.users@, request.member_mail@)->0.id@,
                            program_by_id(s0, request.program_id@).spec_coalesce_parent_id(),
                        )
                    })
                },
            },
    {
        match create_managed_enrollment(&mut context.store, request, now) {
            Ok(enrollment) => MutationResult(Ok(enrollment)),
            Err(e) => service_error(e.message()),
        }
    }

    /// Validates and creates a session for a member's enrollment.
    pub fn create_session(context: &mut DBContext, request: &NewSessionRequest, now: i64) -> (r:
        MutationResult<Session>)
        requires
            old(context).store.wf(),
            old(context).store.next_id < u64::MAX,
        ensures
            final(context).store.wf(),
            match r.0 {
                Ok(t) => {
                    let s0 = old(context).store;
                    &&& new_session_errors(*request, now).len() == 0
                    &&& exists|e: int|
                        0 <= e < s0.enrollments@.len() && (#[trigger] s0.enrollments@[e]).program_id@
                            == request.program_id@ && s0.enrollments@[e].member_id@
                            == request.member_id@ && fresh_session(
                            t,
                            *request,
                            s0.enrollments@[e].id@,
                            first_member_name(s0, request.member_id@),
                            now,
                        )
                    &&& session_inserted(s0, final(context).store, t)
                },
                Err(errs) => {
                    let s0 = old(context).store;
                    &&& final(context).store == s0
                    &&& (errs_match(errs@, new_session_errors(*request, now)) && new_session_errors(
                        *request,
                        now,
                    ).len() > 0) || (new_session_errors(*request, now).len() == 0 && errs@.len()
                        == 1 && errs@[0].field@ == "service"@ && !(has_program_id(
                        s0,
                        request.program_id@,
                    ) && has_user_id(s0, request.member_id@) && has_enrollment_pair(
                        s0,
                        request.program_id@,
                        request.member_id@,
                    )))
                },
            },
    {
        let errors = request.validate_at(now);
        if errors.len() > 0 {
            return MutationResult(Err(errors));
        }
        match create_session(&mut context.store, request, now) {
            Ok(session) => MutationResult(Ok(session)),
            Err(e) => service_error(e.message()),
        }
    }

    /// Moves a session along its lifecycle.
    pub fn alter_session_state(
        context: &mut DBContext,
        request: &ChangeSessionStateRequest,
        now: i64,
    ) -> (r: MutationResult<Session>)
        requires
            old(context).store.wf(),
        ensures
            final(context).store.wf(),
            match r.0 {
                Ok(t2) => {
                    let s0 = old(context).store;
                    let t = session_by_id(s0, request.id@);
                    &&& has_session_id(s0, request.id@)
                    &&& match request.target_state {
                        TargetState::READY => t.spec_can_ready() && t2 == (Session {
                            is_ready: true,
                            ..t
                        }),
                        TargetState::START => t.spec_can_start() && t2 == (Session {
                            actual_start_date: Some(now),
                            ..t
                        }),
                        TargetState::DONE => t.spec_can_close() && t2 == (Session {
                            actual_end_date: Some(now),
                            closing_notes: closed_notes(t, *request),
                            ..t
                        }),
                        TargetState::CANCEL => t.spec_can_cancel() && t2 == (Session {
                            cancelled_at: Some(now),
                            ..t
                        }),
                    }
                    &&& session_rewritten(s0, final(context).store, request.id@, t2)
                },
                Err(errs) => {
                    let s0 = old(context).store;
                    let t = session_by_id(s0, request.id@);
                    &&& final(context).store == s0
                    &&& errs@.len() == 1
                    &&& errs@[0].field@ == "service"@
                    &&& !(has_session_id(s0, request.id@) && (match request.target_state {
                        TargetState::READY => t.spec_can_ready(),
                        TargetState::START => t.spec_can_start(),
                        TargetState::DONE => t.spec_can_close(),
                        TargetState::CANCEL => t.spec_can_cancel(),
                    }))
                },
            },
    {
        match change_session_state(&mut context.store, request, now) {
            Ok(session) => MutationResult(Ok(session)),
            Err(e) => service_error(e.message()),
        }
    }

    /// Validates and creates a task.
    pub fn create_task(context: &mut DBContext, request: &NewTaskRequest, now: i64) -> (r:
        MutationResult<Task>)
        requires
            old(context).store.wf(),
            old(context).store.next_id < u64::MAX,
        ensures
            final(context).store.wf(),
            match r.0 {
                Ok(t) => {
                    &&& new_task_errors(*request, now).len() == 0
                    &&& fresh_task(t, *request, now)
                    &&& task_inserted(old(context).store, final(context).store, t)
                },
                Err(errs) => {
                    &&& final(context).store == old(context).store
                    &&& errs_match(errs@, new_task_errors(*request, now))
                    &&& new_task_errors(*request, now).len() > 0
                },
            },
    {
        let errors = request.validate_at(now);
        if errors.len() > 0 {
            return MutationResult(Err(errors));
        }
        match create_task(&mut context.store, request, now) {
            Ok(task) => MutationResult(Ok(task)),
            Err(e) => service_error(e.message()),
        }
    }

    /// Validates and applies a plain task edit.
    pub fn update_task(context: &mut DBContext, request: &UpdateTaskRequest, now: i64) -> (r:
        MutationResult<Task>)
        requires
            old(context).store.wf(),
        ensures
            final(context).store.wf(),
            match r.0 {
                Ok(t2) => {
                    let s0 = old(context).store;
                    &&& update_task_errors(*request, now).len() == 0
                    &&& has_task_id(s0, request.id@)
                    &&& task_by_id(s0, request.id@).spec_can_edit()
                    &&& t2 == crate::services::tasks::task_edited(
                        task_by_id(s0, request.id@),
                        *request,
                        now,
                    )
                    &&& task_rewritten(s0, final(context).store, request.id@, t2)
                },
                Err(errs) => {
                    let s0 = old(context).store;
                    &&& final(context).store == s0
                    &&& (errs_match(errs@, update_task_errors(*request, now))
                        && update_task_errors(*request, now).len() > 0) || (update_task_errors(
                        *request,
                        now,
                    ).len() == 0 && errs@.len() == 1 && errs@[0].field@ == "service"@ && !(
                    has_task_id(s0, request.id@) && task_by_id(s0, request.id@).spec_can_edit()))
                },
            },
    {
        let errors = request.validate_at(now);
        if errors.len() > 0 {
            return MutationResult(Err(errors));
        }
        match update_task(&mut context.store, request, now) {
            Ok(task) => MutationResult(Ok(task)),
            Err(e) => service_error(e.message()),
        }
    }

    /// Records the member's response text on a task.
    pub fn update_task_response(context: &mut DBContext, request: &UpdateResponseRequest) -> (r:
        MutationResult<Task>)
        requires
            old(context).store.wf(),
        ensures
            final(context).store.wf(),
            match r.0 {
                Ok(t2) => {
                    let s0 = old(context).store;
                    let t = task_by_id(s0, request.id@);
                    &&& has_task_id(s0, request.id@)
                    &&& t.spec_can_respond()
                    &&& t2 == (Task { response: Some(request.response), ..t })
                    &&& task_rewritten(s0, final(context).store, request.id@, t2)
                },
                Err(errs) => {
                    let s0 = old(context).store;
                    &&& final(context).store == s0
                    &&& errs@.len() == 1
                    &&& errs@[0].field@ == "service"@
                    &&& !(has_task_id(s0, request.id@) && task_by_id(
                        s0,
                        request.id@,
                    ).spec_can_respond())
                },
            },
    {
        match update_response(&mut context.store, request) {
            Ok(task) => MutationResult(Ok(task)),
            Err(e) => service_error(e.message()),
        }
    }

    /// Records the coach's closing notes on a task.
    pub fn update_task_closing_notes(
        context: &mut DBContext,
        request: &UpdateClosingNoteRequest,
    ) -> (r: MutationResult<Task>)
        requires
            old(context).store.wf(),
        ensures
            final(context).store.wf(),
            match r.0 {
                Ok(t2) => {
                    let s0 = old(context).store;
                    &&& has_task_id(s0, request.id@)
                    &&& t2 == (Task {
                        closing_notes: Some(request.notes),
                        ..task_by_id(s0, request.id@)
                    })
                    &&& task_rewritten(s0, final(context).store, request.id@, t2)
                },
                Err(errs) => {
                    let s0 = old(context).store;
                    &&& final(context).store == s0
                    &&& errs@.len() == 1
                    &&& errs@[0].field@ == "service"@
                    &&& !has_task_id(s0, request.id@)
                },
            },
    {
        match update_closing_notes(&mut context.store, request) {
            Ok(task) => MutationResult(Ok(task)),
            Err(e) => service_error(e.message()),
        }
    }

    /// The coach's task transitions: DONE, CANCEL, REOPEN.
    pub fn alter_coach_task_state(
        context: &mut DBContext,
        request: &ChangeCoachTaskStateRequest,
        now: i64,
    ) -> (r: MutationResult<Task>)
        requires
            old(context).store.wf(),
        ensures
            final(context).store.wf(),
            match r.0 {
                Ok(t2) => {
                    let s0 = old(context).store;
                    let t = task_by_id(s0, request.id@);
                    &&& has_task_id(s0, request.id@)
                    &&& match request.target_state {
                        CoachTargetState::DONE => t.spec_can_complete() && t2 == (Task {
                            actual_end_date: Some(now),
                            approved_at: Some(now),
                            ..t
                        }),
                        CoachTargetState::CANCEL => t.spec_can_cancel() && t2 == (Task {
                            cancelled_at: Some(now),
                            ..t
                        }),
                        CoachTargetState::REOPEN => t.spec_can_reopen() && t2 == (Task {
                            responded_date: None,
                            actual_start_date: None,
                            ..t
                        }),
                    }
                    &&& task_rewritten(s0, final(context).store, request.id@, t2)
                },
                Err(errs) => {
                    let s0 = old(context).store;
                    let t = task_by_id(s0, request.id@);
                    &&& final(context).store == s0
                    &&& errs@.len() == 1
                    &&& errs@[0].field@ == "service"@
                    &&& !(has_task_id(s0, request.id@) && (match request.target_state {
                        CoachTargetState::DONE => t.spec_can_complete(),
                        CoachTargetState::CANCEL => t.spec_can_cancel(),
                        CoachTargetState::REOPEN => t.spec_can_reopen(),
                    }))
                },
            },
    {
        match change_coach_task_state(&mut context.store, request, now) {
            Ok(task) => MutationResult(Ok(task)),
            Err(e) => service_error(e.message()),
        }
    }

    /// The member's task transitions: START, FINISH.
    pub fn alter_member_task_state(
        context: &mut DBContext,
        request: &ChangeMemberTaskStateRequest,
        now: i64,
    ) -> (r: MutationResult<Task>)
        requires
            old(context).store.wf(),
        ensures
            final(context).store.wf(),
            match r.0 {
                Ok(t2) => {
                    let s0 = old(context).store;
                    let t = task_by_id(s0, request.id@);
                    &&& has_task_id(s0, request.id@)
                    &&& match request.target_state {
                        MemberTargetState::START => t.spec_can_start() && t2 == (Task {
                            actual_start_date: Some(now),
                            ..t
                        }),
                        MemberTargetState::FINISH => t.spec_can_finish() && t2 == (Task {
                            responded_date: Some(now),
                            ..t
                        }),
                    }
                    &&& task_rewritten(s0, final(context).store, request.id@, t2)
                },
                Err(errs) => {
                    let s0 = old(context).store;
                    let t = task_by_id(s0, request.id@);
                    &&& final(context).store == s0
                    &&& errs@.len() == 1
                    &&& errs@[0].field@ == "service"@
                    &&& !(has_task_id(s0, request.id@) && (match request.target_state {
                        MemberTargetState::START => t.spec_can_start(),
                        MemberTargetState::FINISH => t.spec_can_finish(),
                    }))
                },
            },
    {
        match change_member_task_state(&mut context.store, request, now) {
            Ok(task) => MutationResult(Ok(task)),
            Err(e) => service_error(e.message()),
        }
    }

    /// Validates and creates an objective.
    pub fn create_objective(context: &mut DBContext, request: &NewObjectiveRequest, now: i64) -> (r:
        MutationResult<Objective>)
        requires
            old(context).store.wf(),
            old(context).store.next_id < u64::MAX,
        ensures
            final(context).store.wf(),
            match r.0 {
                Ok(o) => {
                    &&& new_objective_errors(*request, now).len() == 0
                    &&& fresh_objective(o, *request, now)
                    &&& objective_inserted(old(context).store, final(context).store, o)
                },
                Err(errs) => {
                    &&& final(context).store == old(context).store
                    &&& errs_match(errs@, new_objective_errors(*request, now))
                    &&& new_objective_errors(*request, now).len() > 0
                },
            },
    {
        let errors = request.validate_at(now);
        if errors.len() > 0 {
            return MutationResult(Err(errors));
        }
        match create_objective(&mut context.store, request, now) {
            Ok(objective) => MutationResult(Ok(objective)),
            Err(e) => service_error(e.message()),
        }
    }

    /// Validates and applies an objective edit.
    pub fn update_objective(context: &mut DBContext, request: &UpdateObjectiveRequest, now: i64) -> (r:
        MutationResult<Objective>)
        requires
            old(context).store.wf(),
        ensures
            final(context).store.wf(),
            match r.0 {
                Ok(o2) => {
                    let s0 = old(context).store;
                    &&& update_objective_errors(*request, now).len() == 0
                    &&& has_objective_id(s0, request.id@)
                    &&& o2 == objective_edited(objective_by_id(s0, request.id@), *request, now)
                    &&& objective_rewritten(s0, final(context).store, request.id@, o2)
                },
                Err(errs) => {
                    let s0 = old(context).store;
                    &&& final(context).store == s0
                    &&& (errs_match(errs@, update_objective_errors(*request, now))
                        && update_objective_errors(*request, now).len() > 0) || (
                    update_objective_errors(*request, now).len() == 0 && errs@.len() == 1
                        && errs@[0].field@ == "service"@ && !has_objective_id(s0, request.id@))
                },
            },
    {
        let errors = request.validate_at(now);
        if errors.len() > 0 {
            return MutationResult(Err(errors));
        }
        match update_objective(&mut context.store, request, now) {
            Ok(objective) => MutationResult(Ok(objective)),
            Err(e) => service_error(e.message()),
        }
    }
}

} // verus!
