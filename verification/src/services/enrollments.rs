//! The enrollment admission controller: enrollment creation behind the
//! family-wide admission gate, the coach's self-enrollment, the `is_new`
//! flag, and the member listing.

use vstd::prelude::*;

verus! {

use crate::commons::chassis::ServiceError;
use crate::ident::{dec_digits, id_in_range, lemma_id_in_range_grow, lemma_ids_ok_push};
use crate::models::enrollments::{
    Enrollment, EnrollmentCriteria, EnrollmentFilter, ManagedEnrollmentRequest,
    NewEnrollmentRequest,
};
use crate::models::mails::{MailEvent, MailKind};
use crate::models::programs::Program;
use crate::models::users::User;
use crate::store::{
    enrollment_ids, enrollment_in_family, first_user_by_email, first_user_by_id,
    has_enrollment_pair, has_program_id, has_user_id, lemma_program_by_id,
    lemma_program_id_in_range, lemma_user_id_in_range, program_by_id, same_but_enrollments,
    Store,
};
use crate::text::{str_eq, str_le, lemma_str_le_total, lemma_str_le_trans, str_le_exec};
use vstd::seq_lib::to_multiset_insert;

/// One enrollment row was inserted, under the identifier minted for it,
/// stamped at `now` and still flagged new; every other table but the outbox
/// kept as it was.
pub open spec fn enrollment_inserted(
    s0: Store,
    s1: Store,
    e: Enrollment,
    pid: Seq<char>,
    mid: Seq<char>,
    now: i64,
) -> bool {
    &&& same_but_enrollments(s0, s1)
    &&& s1.enrollments@ == s0.enrollments@.push(e)
    &&& s1.next_id == s0.next_id + 1
    &&& e.id@ == dec_digits(s0.next_id as nat)
    &&& e.program_id@ == pid
    &&& e.member_id@ == mid
    &&& e.is_new
    &&& e.created_at == now
    &&& e.updated_at == now
}

/// Inserts the enrollment row linking an existing program and member.
fn insert_enrollment(store: &mut Store, program: &Program, user: &User, now: i64) -> (r:
    Enrollment)
    requires
        old(store).wf(),
        old(store).next_id < u64::MAX,
        old(store).programs@.contains(*program),
        old(store).users@.contains(*user),
    ensures
        final(store).wf(),
        enrollment_inserted(*old(store), *final(store), r, program.id@, user.id@, now),
        final(store).outbox == old(store).outbox,
{
    proof {
        lemma_program_id_in_range(*old(store), *program);
        lemma_user_id_in_range(*old(store), *user);
    }
    let id = store.mint_id();
    let enrollment = Enrollment {
        id,
        program_id: program.id.clone(),
        member_id: user.id.clone(),
        created_at: now,
        updated_at: now,
        is_new: true,
    };
    let r = enrollment.clone();
    let ghost mid_store = *store;
    store.enrollments.push(enrollment);
    proof {
        let next = old(store).next_id as nat;
        assert(enrollment_ids(store.enrollments@) =~= enrollment_ids(
            mid_store.enrollments@,
        ).push(dec_digits(next)));
        lemma_ids_ok_push(enrollment_ids(old(store).enrollments@), next);
        lemma_id_in_range_grow(program.id@, next, next + 1);
        lemma_id_in_range_grow(user.id@, next, next + 1);
        assert forall|i: int|
            0 <= i < store.enrollments@.len() implies id_in_range(
            (#[trigger] store.enrollments@[i]).program_id@,
            next + 1,
        ) && id_in_range(store.enrollments@[i].member_id@, next + 1) by {
            if i < mid_store.enrollments@.len() {
                assert(store.enrollments@[i] == mid_store.enrollments@[i]);
            } else {
                assert(store.enrollments@[i] == r);
            }
        }
    }
    r
}

/// Enrolls a member into a program, guarded by the admission gate: the
/// member may not already hold an enrollment anywhere in the program's
/// family. On success a self-enrollment notification is queued for the
/// program's coach, fire and forget: a missing coach row loses the mail but
/// never the enrollment.
pub fn create_new_enrollment(store: &mut Store, request: &NewEnrollmentRequest, now: i64) -> (r:
    Result<Enrollment, ServiceError>)
    requires
        old(store).wf(),
        old(store).next_id < u64::MAX,
    ensures
        final(store).wf(),
        match r {
            Ok(e) => {
                let family = program_by_id(
                    *old(store),
                    request.program_id@,
                ).spec_coalesce_parent_id();
                let coach_id = program_by_id(*old(store), request.program_id@).coach_id@;
                &&& has_user_id(*old(store), request.user_id@)
                &&& has_program_id(*old(store), request.program_id@)
                &&& !enrollment_in_family(*old(store), request.user_id@, family)
                &&& enrollment_inserted(
                    *old(store),
                    *final(store),
                    e,
                    request.program_id@,
                    request.user_id@,
                    now,
                )
                &&& if has_user_id(*old(store), coach_id) {
                    &&& final(store).outbox@.len() == old(store).outbox@.len() + 1
                    &&& final(store).outbox@.take(old(store).outbox@.len() as int) == old(
                        store,
                    ).outbox@
                    &&& final(store).outbox@.last().kind == MailKind::SelfEnrollment
                    &&& final(store).outbox@.last().enrollment_id@ == e.id@
                    &&& final(store).outbox@.last().member_id@ == request.user_id@
                    &&& final(store).outbox@.last().coach_id@ == coach_id
                } else {
                    final(store).outbox == old(store).outbox
                }
            },
            Err(e) => {
                &&& *final(store) == *old(store)
                &&& match e {
                    ServiceError::MemberNotFound => !has_user_id(*old(store), request.user_id@),
                    ServiceError::ProgramNotFound => {
                        &&& has_user_id(*old(store), request.user_id@)
                        &&& !has_program_id(*old(store), request.program_id@)
                    },
                    ServiceError::AlreadyEnrolled => {
                        &&& has_user_id(*old(store), request.user_id@)
                        &&& has_program_id(*old(store), request.program_id@)
                        &&& enrollment_in_family(
                            *old(store),
                            request.user_id@,
                            program_by_id(
                                *old(store),
                                request.program_id@,
                            ).spec_coalesce_parent_id(),
                        )
                    },
                    _ => false,
                }
            },
        },
{
    let user = match store.find_user(request.user_id.as_str()) {
        Some(u) => u.clone(),
        None => {
            return Err(ServiceError::MemberNotFound);
        },
    };
    let program = match store.find_program(request.program_id.as_str()) {
        Some(p) => p.clone(),
        None => {
            return Err(ServiceError::ProgramNotFound);
        },
    };
    proof {
        lemma_program_by_id(*store, program);
    }
    if store.member_enrolled_in_family(user.id.as_str(), program.coalesce_parent_id()) {
        return Err(ServiceError::AlreadyEnrolled);
    }
    let enrollment = insert_enrollment(store, &program, &user, now);
    let coach: Option<User> = match store.find_user(program.coach_id.as_str()) {
        Some(c) => Some(c.clone()),
        None => None,
    };
    match coach {
        Some(c) => {
            let ghost mid_store = *store;
            store.outbox.push(
                MailEvent {
                    kind: MailKind::SelfEnrollment,
                    enrollment_id: enrollment.id.clone(),
                    member_id: user.id.clone(),
                    coach_id: c.id.clone(),
                },
            );
            proof {
                assert(store.outbox@.take(old(store).outbox@.len() as int) =~= old(
                    store,
                ).outbox@);
            }
        },
        None => {},
    }
    Ok(enrollment)
}

/// Finds the coach's own enrollment in their program, creating it if absent.
/// Idempotent: the second call returns the same link and writes nothing.
pub fn find_or_create_coach_enrollment(store: &mut Store, given_program_id: &str, now: i64) -> (r:
    Result<Enrollment, ServiceError>)
    requires
        old(store).wf(),
        old(store).next_id < u64::MAX,
    ensures
        final(store).wf(),
        match r {
            Ok(e) => {
                let coach_id = program_by_id(*old(store), given_program_id@).coach_id@;
                &&& has_program_id(*old(store), given_program_id@)
                &&& if has_enrollment_pair(*old(store), given_program_id@, coach_id) {
                    &&& *final(store) == *old(store)
                    &&& old(store).enrollments@.contains(e)
                    &&& e.program_id@ == given_program_id@
                    &&& e.member_id@ == coach_id
                } else {
                    &&& has_user_id(*old(store), coach_id)
                    &&& enrollment_inserted(
                        *old(store),
                        *final(store),
                        e,
                        given_program_id@,
                        coach_id,
                        now,
                    )
                    &&& final(store).outbox == old(store).outbox
                }
            },
            Err(e) => {
                &&& *final(store) == *old(store)
                &&& match e {
                    ServiceError::InvalidProgram => !has_program_id(*old(store), given_program_id@),
                    ServiceError::CoachNotFound => {
                        let coach_id = program_by_id(*old(store), given_program_id@).coach_id@;
                        &&& has_program_id(*old(store), given_program_id@)
                        &&& !has_enrollment_pair(*old(store), given_program_id@, coach_id)
                        &&& !has_user_id(*old(store), coach_id)
                    },
                    _ => false,
                }
            },
        },
{
    let program = match store.find_program(given_program_id) {
        Some(p) => p.clone(),
        None => {
            return Err(ServiceError::InvalidProgram);
        },
    };
    proof {
        lemma_program_by_id(*store, program);
    }
    let existing: Option<Enrollment> = match store.find_enrollment(
        given_program_id,
        program.coach_id.as_str(),
    ) {
        Some(e) => Some(e.clone()),
        None => None,
    };
    match existing {
        Some(e) => Ok(e),
        None => {
            let user = match store.find_user(program.coach_id.as_str()) {
                Some(u) => u.clone(),
                None => {
                    return Err(ServiceError::CoachNotFound);
                },
            };
            let ghost pre = *store;
            let e = insert_enrollment(store, &program, &user, now);
            proof {
                assert(e.program_id@ == given_program_id@);
            }
            Ok(e)
        },
    }
}

/// Resolves the enrollment linking the given program and member.
pub fn find(store: &Store, program: &Program, user: &User) -> (r: Result<
    Enrollment,
    ServiceError,
>)
    ensures
        match r {
            Ok(e) => store.enrollments@.contains(e) && e.program_id@ == program.id@
                && e.member_id@ == user.id@,
            Err(e) => e == ServiceError::EnrollmentNotFound && !has_enrollment_pair(
                *store,
                program.id@,
                user.id@,
            ),
        },
{
    match store.find_enrollment(program.id.as_str(), user.id.as_str()) {
        Some(e) => Ok(e.clone()),
        None => Err(ServiceError::EnrollmentNotFound),
    }
}

/// How many enrollment rows carry the given identity.
pub open spec fn count_with_id(es: Seq<Enrollment>, id: Seq<char>) -> nat
    decreases es.len(),
{
    if es.len() == 0 {
        0
    } else {
        count_with_id(es.drop_last(), id) + (if es.last().id@ == id {
            1nat
        } else {
            0nat
        })
    }
}

/// The same enrollment row with its `is_new` flag cleared.
pub open spec fn marked_old(e: Enrollment) -> Enrollment {
    Enrollment {
        id: e.id,
        program_id: e.program_id,
        member_id: e.member_id,
        created_at: e.created_at,
        updated_at: e.updated_at,
        is_new: false,
    }
}

/// Clears the `is_new` flag of the named enrollment, returning how many rows
/// were rewritten. Idempotent: clearing a cleared flag is not an error, and a
/// missing enrollment rewrites zero rows.
pub fn mark_as_old(store: &mut Store, enrollment_id: &str) -> (r: Result<usize, ServiceError>)
    requires
        old(store).wf(),
    ensures
        final(store).wf(),
        r is Ok,
        r->Ok_0 == count_with_id(old(store).enrollments@, enrollment_id@),
        final(store).enrollments@.len() == old(store).enrollments@.len(),
        forall|i: int|
            0 <= i < old(store).enrollments@.len() ==> final(store).enrollments@[i] == (
            if (#[trigger] old(store).enrollments@[i]).id@ == enrollment_id@ {
                marked_old(old(store).enrollments@[i])
            } else {
                old(store).enrollments@[i]
            }),
        same_but_enrollments(*old(store), *final(store)),
        final(store).outbox == old(store).outbox,
        final(store).next_id == old(store).next_id,
{
    let n = store.enrollments.len();
    let mut count: usize = 0;
    let mut i: usize = 0;
    proof {
        assert(old(store).enrollments@.take(0) =~= Seq::<Enrollment>::empty());
    }
    while i < n
        invariant
            0 <= i <= n,
            n == old(store).enrollments@.len(),
            store.enrollments@.len() == n,
            store.users == old(store).users,
            store.coaches == old(store).coaches,
            store.programs == old(store).programs,
            store.tasks == old(store).tasks,
            store.sessions == old(store).sessions,
            store.objectives == old(store).objectives,
            store.outbox == old(store).outbox,
            store.next_id == old(store).next_id,
            count == count_with_id(old(store).enrollments@.take(i as int), enrollment_id@),
            count <= i,
            forall|j: int| i <= j < n ==> store.enrollments@[j] == old(store).enrollments@[j],
            forall|j: int|
                0 <= j < i ==> store.enrollments@[j] == (if (#[trigger] old(
                    store,
                ).enrollments@[j]).id@ == enrollment_id@ {
                    marked_old(old(store).enrollments@[j])
                } else {
                    old(store).enrollments@[j]
                }),
        decreases n - i,
    {
        if str_eq(store.enrollments[i].id.as_str(), enrollment_id) {
            store.enrollments[i].is_new = false;
            count = count + 1;
        }
        proof {
            assert(old(store).enrollments@.take(i as int + 1).drop_last() =~= old(
                store,
            ).enrollments@.take(i as int));
            assert(old(store).enrollments@.take(i as int + 1).last() == old(
                store,
            ).enrollments@[i as int]);
        }
        i = i + 1;
    }
    proof {
        assert(old(store).enrollments@.take(n as int) =~= old(store).enrollments@);
        assert(enrollment_ids(store.enrollments@) =~= enrollment_ids(old(store).enrollments@));
        assert forall|i0: int|
            0 <= i0 < store.enrollments@.len() implies id_in_range(
            (#[trigger] store.enrollments@[i0]).program_id@,
            store.next_id as nat,
        ) && id_in_range(store.enrollments@[i0].member_id@, store.next_id as nat) by {
            assert(store.enrollments@[i0].program_id@ == old(
                store,
            ).enrollments@[i0].program_id@);
            assert(store.enrollments@[i0].member_id@ == old(store).enrollments@[i0].member_id@);
        }
    }
    Ok(count)
}

/// The members enrolled in the given program, in store order, restricted to
/// fresh enrollments when only the new ones are wanted.
pub open spec fn enrolled_members(
    es: Seq<Enrollment>,
    us: Seq<User>,
    pid: Seq<char>,
    only_new: bool,
) -> Seq<User>
    decreases es.len(),
{
    if es.len() == 0 {
        Seq::empty()
    } else {
        let rest = enrolled_members(es.drop_last(), us, pid, only_new);
        let e = es.last();
        if e.program_id@ == pid && (!only_new || e.is_new) {
            match first_user_by_id(us, e.member_id@) {
                Some(u) => rest.push(u),
                None => rest,
            }
        } else {
            rest
        }
    }
}

/// Ascending by display name.
pub open spec fn sorted_by_name(us: Seq<User>) -> bool {
    forall|i: int, j: int|
        0 <= i < j < us.len() ==> str_le(
            (#[trigger] us[i]).full_name@,
            (#[trigger] us[j]).full_name@,
        )
}

/// Where `u` belongs in a run of users already sorted by name.
fn insert_position(out: &Vec<User>, u: &User) -> (j: usize)
    ensures
        j <= out@.len(),
        forall|k: int| 0 <= k < j ==> str_le((#[trigger] out@[k]).full_name@, u.full_name@),
        j < out@.len() ==> !str_le(out@[j as int].full_name@, u.full_name@),
{
    let m = out.len();
    let mut j: usize = 0;
    while j < m
        invariant
            0 <= j <= m,
            m == out@.len(),
            forall|k: int| 0 <= k < j ==> str_le((#[trigger] out@[k]).full_name@, u.full_name@),
        decreases m - j,
    {
        if !str_le_exec(out[j].full_name.as_str(), u.full_name.as_str()) {
            return j;
        }
        j = j + 1;
    }
    j
}

/// Sorts members ascending by display name; the result holds exactly the
/// given rows.
fn sort_users_by_name(input: Vec<User>) -> (r: Vec<User>)
    ensures
        r@.to_multiset() == input@.to_multiset(),
        sorted_by_name(r@),
{
    let mut out: Vec<User> = Vec::new();
    let n = input.len();
    let mut i: usize = 0;
    proof {
        assert(input@.take(0) =~= Seq::<User>::empty());
        assert(out@.to_multiset() =~= input@.take(0).to_multiset());
    }
    while i < n
        invariant
            0 <= i <= n,
            n == input@.len(),
            out@.to_multiset() == input@.take(i as int).to_multiset(),
            sorted_by_name(out@),
        decreases n - i,
    {
        let u = input[i].clone();
        let j = insert_position(&out, &u);
        let ghost prev = out@;
        out.insert(j, u);
        proof {
            to_multiset_insert(prev, j as int, u);
            vstd::seq_lib::to_multiset_build(input@.take(i as int), u);
            assert(input@.take(i as int).push(u) =~= input@.take(i as int + 1));
            assert forall|a: int, b: int|
                0 <= a < b < out@.len() implies str_le(
                (#[trigger] out@[a]).full_name@,
                (#[trigger] out@[b]).full_name@,
            ) by {
                if a < j && b == j {
                } else if a == j && b > j {
                    assert(!str_le(prev[j as int].full_name@, u.full_name@));
                    lemma_str_le_total(prev[j as int].full_name@, u.full_name@);
                    assert(out@[b] == prev[b - 1]);
                    if b - 1 > j {
                        lemma_str_le_trans(
                            u.full_name@,
                            prev[j as int].full_name@,
                            prev[b - 1].full_name@,
                        );
                    }
                } else if a < j && b > j {
                    assert(out@[a] == prev[a]);
                    assert(out@[b] == prev[b - 1]);
                    if b - 1 == a {
                    } else {
                    }
                } else if a > j {
                    assert(out@[a] == prev[a - 1]);
                    assert(out@[b] == prev[b - 1]);
                }
            }
        }
        i = i + 1;
    }
    proof {
        assert(input@.take(n as int) =~= input@);
    }
    out
}

/// Lists the members holding an active enrollment in the program, ordered by
/// display name ascending; the `NEW` filter keeps only enrollments not yet
/// marked old.
pub fn get_active_enrollments(store: &Store, criteria: EnrollmentCriteria) -> (r: Result<
    Vec<User>,
    ServiceError,
>)
    ensures
        r is Ok,
        r->Ok_0@.to_multiset() == enrolled_members(
            store.enrollments@,
            store.users@,
            criteria.program_id@,
            criteria.desire == EnrollmentFilter::NEW,
        ).to_multiset(),
        sorted_by_name(r->Ok_0@),
{
    let only_new = match criteria.desire {
        EnrollmentFilter::NEW => true,
        EnrollmentFilter::ALL => false,
    };
    let mut picked: Vec<User> = Vec::new();
    let n = store.enrollments.len();
    let mut i: usize = 0;
    proof {
        assert(store.enrollments@.take(0) =~= Seq::<Enrollment>::empty());
    }
    while i < n
        invariant
            0 <= i <= n,
            n == store.enrollments@.len(),
            picked@ == enrolled_members(
                store.enrollments@.take(i as int),
                store.users@,
                criteria.program_id@,
                only_new,
            ),
            only_new == (criteria.desire == EnrollmentFilter::NEW),
        decreases n - i,
    {
        let e = &store.enrollments[i];
        if str_eq(e.program_id.as_str(), criteria.program_id.as_str()) && (!only_new
            || e.is_new) {
            match store.find_user(e.member_id.as_str()) {
                Some(u) => {
                    picked.push(u.clone());
                },
                None => {},
            }
        }
        proof {
            assert(store.enrollments@.take(i as int + 1).drop_last() =~= store.enrollments@.take(
                i as int,
            ));
            assert(store.enrollments@.take(i as int + 1).last() == store.enrollments@[i as int]);
        }
        i = i + 1;
    }
    proof {
        assert(store.enrollments@.take(n as int) =~= store.enrollments@);
    }
    Ok(sort_users_by_name(picked))
}

/// Enrolls a member, looked up by mail, into a program on the program
/// coach's behalf; the same admission gate guards the insert, and a managed
/// enrollment notification is queued for the coach.
pub fn create_managed_enrollment(store: &mut Store, request: &ManagedEnrollmentRequest, now: i64) -> (r:
    Result<Enrollment, ServiceError>)
    requires
        old(store).wf(),
        old(store).next_id < u64::MAX,
    ensures
        final(store).wf(),
        match r {
            Ok(e) => {
                let member = first_user_by_email(old(store).users@, request.member_mail@)->0;
                let family = program_by_id(
                    *old(store),
                    request.program_id@,
                ).spec_coalesce_parent_id();
                &&& first_user_by_email(old(store).users@, request.member_mail@) is Some
                &&& has_program_id(*old(store), request.program_id@)
                &&& program_by_id(*old(store), request.program_id@).coach_id@
                    == request.coach_id@
                &&& has_user_id(*old(store), request.coach_id@)
                &&& !enrollment_in_family(*old(store), member.id@, family)
                &&& enrollment_inserted(
                    *old(store),
                    *final(store),
                    e,
                    request.program_id@,
                    member.id@,
                    now,
                )
                &&& final(store).outbox@.len() == old(store).outbox@.len() + 1
                &&& final(store).outbox@.take(old(store).outbox@.len() as int) == old(
                    store,
                ).outbox@
                &&& final(store).outbox@.last().kind == MailKind::ManagedEnrollment
                &&& final(store).outbox@.last().enrollment_id@ == e.id@
                &&& final(store).outbox@.last().member_id@ == member.id@
                &&& final(store).outbox@.last().coach_id@ == request.coach_id@
            },
            Err(e) => {
                &&& *final(store) == *old(store)
                &&& match e {
                    ServiceError::InvalidMemberMail => first_user_by_email(
                        old(store).users@,
                        request.member_mail@,
                    ) is None,
                    ServiceError::ConflictProgramOwner => {
                        &&& first_user_by_email(old(store).users@, request.member_mail@) is Some
                        &&& !(has_program_id(*old(store), request.program_id@) && program_by_id(
                            *old(store),
                            request.program_id@,
                        ).coach_id@ == request.coach_id@)
                    },
                    ServiceError::CoachNotFound => {
                        &&& first_user_by_email(old(store).users@, request.member_mail@) is Some
                        &&& has_program_id(*old(store), request.program_id@)
                        &&& program_by_id(*old(store), request.program_id@).coach_id@
                            == request.coach_id@
                        &&& !has_user_id(*old(store), request.coach_id@)
                    },
                    ServiceError::AlreadyEnrolled => {
                        let member = first_user_by_email(
                            old(store).users@,
                            request.member_mail@,
                        )->0;
                        &&& first_user_by_email(old(store).users@, request.member_mail@) is Some
                        &&& has_program_id(*old(store), request.program_id@)
                        &&& enrollment_in_family(
                            *old(store),
                            member.id@,
                            program_by_id(
                                *old(store),
                                request.program_id@,
                            ).spec_coalesce_parent_id(),
                        )
                    },
                    _ => false,
                }
            },
        },
{
    let member = match store.find_user_by_email(request.member_mail.as_str()) {
        Some(u) => u.clone(),
        None => {
            return Err(ServiceError::InvalidMemberMail);
        },
    };
    let program = match store.find_program(request.program_id.as_str()) {
        Some(p) => p.clone(),
        None => {
            return Err(ServiceError::ConflictProgramOwner);
        },
    };
    proof {
        lemma_program_by_id(*store, program);
    }
    if !str_eq(program.coach_id.as_str(), request.coach_id.as_str()) {
        return Err(ServiceError::ConflictProgramOwner);
    }
    let coach = match store.find_user(request.coach_id.as_str()) {
        Some(u) => u.clone(),
        None => {
            return Err(ServiceError::CoachNotFound);
        },
    };
    if store.member_enrolled_in_family(member.id.as_str(), program.coalesce_parent_id()) {
        return Err(ServiceError::AlreadyEnrolled);
    }
    proof {
        crate::store::lemma_first_user_by_email_contains(store.users@, request.member_mail@);
    }
    let enrollment = insert_enrollment(store, &program, &member, now);
    let ghost mid_store = *store;
    store.outbox.push(
        MailEvent {
            kind: MailKind::ManagedEnrollment,
            enrollment_id: enrollment.id.clone(),
            member_id: member.id.clone(),
            coach_id: coach.id.clone(),
        },
    );
    proof {
        assert(store.outbox@.take(old(store).outbox@.len() as int) =~= old(store).outbox@);
    }
    Ok(enrollment)
}

} // verus!
