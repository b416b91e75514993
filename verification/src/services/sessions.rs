//! The session lifecycle service: creation against an existing enrollment,
//! the guarded state changes, and deletion of an untouched single-party
//! session.

use vstd::prelude::*;

verus! {

use crate::commons::chassis::ServiceError;
use crate::ident::{dec_digits, lemma_ids_ok_push, lemma_ids_ok_remove};
use crate::models::sessions::{
    ChangeSessionStateRequest, NewSession, NewSessionRequest, Session, TargetState,
};
use crate::store::{
    has_enrollment_pair, has_program_id, has_session_id, has_user_id, lemma_session_by_id,
    same_but_sessions, session_by_id, session_ids, Store,
};
use crate::temporal::{parsed_date, spec_offset_date};

/// One session row was inserted, under the identifier minted for it, and
/// nothing else moved.
pub open spec fn session_inserted(s0: Store, s1: Store, t: Session) -> bool {
    &&& same_but_sessions(s0, s1)
    &&& s1.sessions@ == s0.sessions@.push(t)
    &&& s1.next_id == s0.next_id + 1
    &&& t.id@ == dec_digits(s0.next_id as nat)
}

/// A freshly created session: single-party, not yet ready, scheduled as
/// requested, carrying the member's display name as its people line.
pub open spec fn fresh_session(
    t: Session,
    req: NewSessionRequest,
    enrollment_id: Seq<char>,
    people: Seq<char>,
    now: i64,
) -> bool {
    &&& t.name@ == req.name@
    &&& t.description matches Some(d) && d@ == req.description@
    &&& t.program_id@ == req.program_id@
    &&& t.enrollment_id@ == enrollment_id
    &&& t.people matches Some(p) && p@ == people
    &&& t.duration == req.duration
    &&& t.original_start_date == parsed_date(req.start_time@)->0
    &&& t.original_end_date == spec_offset_date(
        parsed_date(req.start_time@)->0,
        (req.duration as int) * 60,
    )
    &&& t.revised_start_date is None
    &&& t.revised_end_date is None
    &&& t.offered_start_date is None
    &&& t.offered_end_date is None
    &&& !t.is_ready
    &&& t.actual_start_date is None
    &&& t.actual_end_date is None
    &&& t.cancelled_at is None
    &&& t.created_at == now
    &&& t.updated_at == now
    &&& t.closing_notes is None
    &&& !t.is_request
    &&& t.conference_id is None
    &&& t.session_type@ == "mono"@
}

/// Creates a single-party session for the member's enrollment in the
/// program, scheduled for `duration` minutes.
pub fn create_session(store: &mut Store, request: &NewSessionRequest, now: i64) -> (r: Result<
    Session,
    ServiceError,
>)
    requires
        old(store).wf(),
        old(store).next_id < u64::MAX,
        parsed_date(request.start_time@) is Some,
    ensures
        final(store).wf(),
        match r {
            Ok(t) => {
                &&& has_program_id(*old(store), request.program_id@)
                &&& has_user_id(*old(store), request.member_id@)
                &&& exists|e: int|
                    0 <= e < old(store).enrollments@.len() && (#[trigger] old(
                        store,
                    ).enrollments@[e]).program_id@ == request.program_id@ && old(
                        store,
                    ).enrollments@[e].member_id@ == request.member_id@ && fresh_session(
                        t,
                        *request,
                        old(store).enrollments@[e].id@,
                        first_member_name(*old(store), request.member_id@),
                        now,
                    )
                &&& session_inserted(*old(store), *final(store), t)
            },
            Err(e) => {
                &&& *final(store) == *old(store)
                &&& match e {
                    ServiceError::InvalidProgram => !has_program_id(
                        *old(store),
                        request.program_id@,
                    ),
                    ServiceError::MemberNotFound => {
                        &&& has_program_id(*old(store), request.program_id@)
                        &&& !has_user_id(*old(store), request.member_id@)
                    },
                    ServiceError::EnrollmentNotFound => {
                        &&& has_program_id(*old(store), request.program_id@)
                        &&& has_user_id(*old(store), request.member_id@)
                        &&& !has_enrollment_pair(
                            *old(store),
                            request.program_id@,
                            request.member_id@,
                        )
                    },
                    _ => false,
                }
            },
        },
{
    let program = match store.find_program(request.program_id.as_str()) {
        Some(p) => p.clone(),
        None => {
            return Err(ServiceError::InvalidProgram);
        },
    };
    let member = match store.find_user(request.member_id.as_str()) {
        Some(u) => u.clone(),
        None => {
            return Err(ServiceError::MemberNotFound);
        },
    };
    let enrollment = match store.find_enrollment(
        request.program_id.as_str(),
        request.member_id.as_str(),
    ) {
        Some(e) => e.clone(),
        None => {
            return Err(ServiceError::EnrollmentNotFound);
        },
    };
    let id = store.mint_id();
    let new_session = NewSession::from(
        request,
        enrollment.id.clone(),
        member.full_name.clone(),
        id,
    );
    let session = Session {
        id: new_session.id,
        name: new_session.name,
        description: Some(new_session.description),
        program_id: new_session.program_id,
        enrollment_id: new_session.enrollment_id,
        people: Some(new_session.people),
        duration: new_session.duration,
        original_start_date: new_session.original_start_date,
        original_end_date: new_session.original_end_date,
        revised_start_date: None,
        revised_end_date: None,
        offered_start_date: None,
        offered_end_date: None,
        is_ready: new_session.is_ready,
        actual_start_date: None,
        actual_end_date: None,
        cancelled_at: None,
        created_at: now,
        updated_at: now,
        closing_notes: None,
        is_request: false,
        conference_id: new_session.conference_id,
        session_type: new_session.session_type,
    };
    let r = session.clone();
    let ghost mid_store = *store;
    store.sessions.push(session);
    proof {
        assert(session_ids(store.sessions@) =~= session_ids(mid_store.sessions@).push(
            dec_digits(old(store).next_id as nat),
        ));
        lemma_ids_ok_push(session_ids(old(store).sessions@), old(store).next_id as nat);
        let e = choose|e: int|
            0 <= e < old(store).enrollments@.len() && old(store).enrollments@[e] == enrollment;
        assert(old(store).enrollments@[e].program_id@ == request.program_id@);
        assert(first_member_name(*old(store), request.member_id@) == member.full_name@);
    }
    Ok(r)
}

/// The display name of the first user row under the given identity; empty
/// where no such row exists.
pub open spec fn first_member_name(s: Store, member_id: Seq<char>) -> Seq<char> {
    match crate::store::first_user_by_id(s.users@, member_id) {
        Some(u) => u.full_name@,
        None => Seq::empty(),
    }
}

/// The outcome every session mutation reports: the named row, rewritten,
/// with nothing else moved.
pub open spec fn session_rewritten(s0: Store, s1: Store, id: Seq<char>, t2: Session) -> bool {
    &&& same_but_sessions(s0, s1)
    &&& s1.next_id == s0.next_id
    &&& s1.sessions@.len() == s0.sessions@.len()
    &&& forall|i: int|
        0 <= i < s0.sessions@.len() ==> s1.sessions@[i] == (if (#[trigger] s0.sessions@[i]).id@
            == id {
            t2
        } else {
            s0.sessions@[i]
        })
}

/// The closing notes a close records: the request's notes when given, the
/// row's own otherwise.
pub open spec fn closed_notes(t: Session, req: ChangeSessionStateRequest) -> Option<String> {
    if req.closing_notes is Some {
        req.closing_notes
    } else {
        t.closing_notes
    }
}

/// Moves a session along its lifecycle: READY marks it ready, START begins
/// it, DONE closes it and records the closing notes, CANCEL is permitted at
/// any point before the session has ended.
pub fn change_session_state(
    store: &mut Store,
    request: &ChangeSessionStateRequest,
    now: i64,
) -> (r: Result<Session, ServiceError>)
    requires
        old(store).wf(),
    ensures
        final(store).wf(),
        match r {
            Ok(t2) => {
                let t = session_by_id(*old(store), request.id@);
                &&& has_session_id(*old(store), request.id@)
                &&& match request.target_state {
                    TargetState::READY => t.spec_can_ready() && t2 == (Session {
                        is_ready: true,
                        ..t
                    }),
                    TargetState::START => t.spec_can_start() && t2 == (Session {
                        actual_start_date: Some(now),
                        ..t
                    }),
                    TargetState::DONE => t.spec_can_close() && t2 == (Session {
                        actual_end_date: Some(now),
                        closing_notes: closed_notes(t, *request),
                        ..t
                    }),
                    TargetState::CANCEL => t.spec_can_cancel() && t2 == (Session {
                        cancelled_at: Some(now),
                        ..t
                    }),
                }
                &&& session_rewritten(*old(store), *final(store), request.id@, t2)
            },
            Err(e) => {
                &&& *final(store) == *old(store)
                &&& match e {
                    ServiceError::SessionNotFound => !has_session_id(*old(store), request.id@),
                    ServiceError::IllegalStateTransition => {
                        let t = session_by_id(*old(store), request.id@);
                        &&& has_session_id(*old(store), request.id@)
                        &&& match request.target_state {
                            TargetState::READY => !t.spec_can_ready(),
                            TargetState::START => !t.spec_can_start(),
                            TargetState::DONE => !t.spec_can_close(),
                            TargetState::CANCEL => !t.spec_can_cancel(),
                        }
                    },
                    _ => false,
                }
            },
        },
{
    let ix = match store.find_session_index(request.id.as_str()) {
        Some(ix) => ix,
        None => {
            return Err(ServiceError::SessionNotFound);
        },
    };
    proof {
        lemma_session_by_id(*store, ix as int);
    }
    let mut row = store.sessions[ix].clone();
    match request.target_state {
        TargetState::READY => {
            if !(row.cancelled_at.is_none() && row.actual_start_date.is_none()
                && row.actual_end_date.is_none()) {
                return Err(ServiceError::IllegalStateTransition);
            }
            row.is_ready = true;
        },
        TargetState::START => {
            if !(row.cancelled_at.is_none() && row.actual_start_date.is_none()
                && row.actual_end_date.is_none()) {
                return Err(ServiceError::IllegalStateTransition);
            }
            row.actual_start_date = Some(now);
        },
        TargetState::DONE => {
            if !(row.actual_start_date.is_some() && row.cancelled_at.is_none()
                && row.actual_end_date.is_none()) {
                return Err(ServiceError::IllegalStateTransition);
            }
            row.actual_end_date = Some(now);
            match &request.closing_notes {
                Some(notes) => {
                    row.closing_notes = Some(notes.clone());
                },
                None => {},
            }
        },
        TargetState::CANCEL => {
            if !(row.cancelled_at.is_none() && row.actual_end_date.is_none()) {
                return Err(ServiceError::IllegalStateTransition);
            }
            row.cancelled_at = Some(now);
        },
    }
    let out = row.clone();
    store.replace_session(ix, row);
    Ok(out)
}

/// Resolves a session by identity.
pub fn find(store: &Store, the_id: &str) -> (r: Result<Session, ServiceError>)
    ensures
        match r {
            Ok(t) => store.sessions@.contains(t) && t.id@ == the_id@,
            Err(e) => e == ServiceError::SessionNotFound && !has_session_id(*store, the_id@),
        },
{
    match store.find_session_index(the_id) {
        Some(ix) => {
            let t = store.sessions[ix].clone();
            proof {
                assert(store.sessions@.contains(store.sessions@[ix as int]));
            }
            Ok(t)
        },
        None => Err(ServiceError::SessionNotFound),
    }
}

/// Deletes a session: only a single-party session, and only while untouched
/// — not ready, not started, not cancelled. A multi-party session is never
/// independently deletable through this path.
pub fn delete_session(store: &mut Store, session_id: &str) -> (r: Result<usize, ServiceError>)
    requires
        old(store).wf(),
    ensures
        final(store).wf(),
        match r {
            Ok(n) => {
                let t = session_by_id(*old(store), session_id@);
                &&& n == 1
                &&& has_session_id(*old(store), session_id@)
                &&& !t.spec_is_conference()
                &&& t.spec_can_delete()
                &&& same_but_sessions(*old(store), *final(store))
                &&& final(store).next_id == old(store).next_id
                &&& exists|ix: int|
                    0 <= ix < old(store).sessions@.len() && (#[trigger] old(
                        store,
                    ).sessions@[ix]).id@ == session_id@ && final(store).sessions@ == old(
                        store,
                    ).sessions@.remove(ix)
            },
            Err(e) => {
                &&& *final(store) == *old(store)
                &&& match e {
                    ServiceError::SessionNotFound => !has_session_id(*old(store), session_id@),
                    ServiceError::ConferenceNotDeletable => {
                        &&& has_session_id(*old(store), session_id@)
                        &&& session_by_id(*old(store), session_id@).spec_is_conference()
                    },
                    ServiceError::IllegalStateTransition => {
                        let t = session_by_id(*old(store), session_id@);
                        &&& has_session_id(*old(store), session_id@)
                        &&& !t.spec_is_conference()
                        &&& !t.spec_can_delete()
                    },
                    _ => false,
                }
            },
        },
{
    let ix = match store.find_session_index(session_id) {
        Some(ix) => ix,
        None => {
            return Err(ServiceError::SessionNotFound);
        },
    };
    proof {
        lemma_session_by_id(*store, ix as int);
    }
    if store.sessions[ix].is_conference() {
        return Err(ServiceError::ConferenceNotDeletable);
    }
    if !store.sessions[ix].can_delete() {
        return Err(ServiceError::IllegalStateTransition);
    }
    store.sessions.remove(ix);
    proof {
        assert(session_ids(store.sessions@) =~= session_ids(old(store).sessions@).remove(
            ix as int,
        ));
        lemma_ids_ok_remove(
            session_ids(old(store).sessions@),
            old(store).next_id as nat,
            ix as int,
        );
    }
    Ok(1)
}

} // verus!
