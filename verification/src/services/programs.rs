//! The program hierarchy service: program creation, coach association
//! (spawning a peer program), peer listing, and cascading state changes.

use vstd::prelude::*;

verus! {

use crate::commons::chassis::ServiceError;
use crate::ident::{dec_digits, lemma_ids_ok_push};
use crate::models::coaches::Coach;
use crate::models::programs::{
    AssociateCoachRequest, ChangeProgramStateRequest, NewProgramRequest, Program, ProgramCoach,
    ProgramLineage, ProgramTargetState,
};
use crate::store::{
    coach_in_family, enrollment_in_family, first_coach_by_email, first_coach_by_id,
    has_program_id, lemma_program_by_id, lemma_program_id_unique, lemma_root_link_push,
    program_by_id, program_ids, same_but_programs, Store,
};
use crate::text::str_eq;

/// One program was inserted, under the identifier minted for it, and nothing
/// else moved.
pub open spec fn program_inserted(s0: Store, s1: Store, p: Program) -> bool {
    &&& same_but_programs(s0, s1)
    &&& s1.programs@ == s0.programs@.push(p)
    &&& s1.next_id == s0.next_id + 1
    &&& p.id@ == dec_digits(s0.next_id as nat)
}

/// Resolves a program by identity.
pub fn find(store: &Store, the_id: &str) -> (r: Result<Program, ServiceError>)
    ensures
        match r {
            Ok(p) => store.programs@.contains(p) && p.id@ == the_id@,
            Err(e) => e == ServiceError::InvalidProgram && !has_program_id(*store, the_id@),
        },
{
    match store.find_program(the_id) {
        Some(p) => Ok(p.clone()),
        None => Err(ServiceError::InvalidProgram),
    }
}

/// Creates a root program for an existing coach. The new program anchors a
/// fresh family: no parent, active from the start.
pub fn create_new_program(store: &mut Store, request: &NewProgramRequest, now: i64) -> (r: Result<
    Program,
    ServiceError,
>)
    requires
        old(store).wf(),
        old(store).next_id < u64::MAX,
    ensures
        final(store).wf(),
        match r {
            Ok(p) => {
                &&& first_coach_by_id(old(store).coaches@, request.coach_id@) is Some
                &&& p.name@ == request.name@
                &&& p.description@ == request.description@
                &&& p.coach_id@ == request.coach_id@
                &&& p.lineage is Root
                &&& p.active
                &&& p.created_at == now
                &&& program_inserted(*old(store), *final(store), p)
            },
            Err(e) => {
                &&& e == ServiceError::CoachNotFound
                &&& first_coach_by_id(old(store).coaches@, request.coach_id@) is None
                &&& *final(store) == *old(store)
            },
        },
{
    let coach = match store.find_coach(request.coach_id.as_str()) {
        Some(c) => c.clone(),
        None => {
            return Err(ServiceError::CoachNotFound);
        },
    };
    let id = store.mint_id();
    let program = Program {
        id,
        name: request.name.clone(),
        description: request.description.clone(),
        coach_id: coach.id.clone(),
        lineage: ProgramLineage::Root,
        active: true,
        created_at: now,
    };
    let r = program.clone();
    let ghost mid = *store;
    store.programs.push(program);
    proof {
        assert(program_ids(store.programs@) =~= program_ids(mid.programs@).push(
            dec_digits(old(store).next_id as nat),
        ));
        lemma_ids_ok_push(program_ids(old(store).programs@), old(store).next_id as nat);
        lemma_root_link_push(mid.programs@, r);
    }
    Ok(r)
}

/// Associates a peer coach with a family: spawns a copy of the family's root
/// program owned by the peer coach, after the role gates pass.
///
/// The gates, in order: the peer coach must exist; the program must exist;
/// the coach must never have enrolled as a member anywhere in the family;
/// the coach must not already own a program of the family.
pub fn associate_coach(store: &mut Store, request: &AssociateCoachRequest, now: i64) -> (r: Result<
    Program,
    ServiceError,
>)
    requires
        old(store).wf(),
        old(store).next_id < u64::MAX,
    ensures
        final(store).wf(),
        match r {
            Ok(p) => {
                let coach = first_coach_by_email(
                    old(store).coaches@,
                    request.peer_coach_email@,
                )->0;
                let family = program_by_id(
                    *old(store),
                    request.program_id@,
                ).spec_coalesce_parent_id();
                let root = program_by_id(*old(store), family);
                &&& first_coach_by_email(old(store).coaches@, request.peer_coach_email@) is Some
                &&& has_program_id(*old(store), request.program_id@)
                &&& !enrollment_in_family(*old(store), coach.id@, family)
                &&& !coach_in_family(*old(store), coach.id@, family)
                &&& p.lineage matches ProgramLineage::Spawned { root_id } && root_id@ == family
                &&& !p.spec_is_parent()
                &&& p.coach_id@ == coach.id@
                &&& p.name@ == root.name@
                &&& p.description@ == root.description@
                &&& p.active == root.active
                &&& p.created_at == now
                &&& program_inserted(*old(store), *final(store), p)
            },
            Err(e) => {
                &&& *final(store) == *old(store)
                &&& match e {
                    ServiceError::InvalidCoach => first_coach_by_email(
                        old(store).coaches@,
                        request.peer_coach_email@,
                    ) is None,
                    ServiceError::InvalidProgram => {
                        &&& first_coach_by_email(
                            old(store).coaches@,
                            request.peer_coach_email@,
                        ) is Some
                        &&& !has_program_id(*old(store), request.program_id@)
                    },
                    ServiceError::CoachWasMember => {
                        let coach = first_coach_by_email(
                            old(store).coaches@,
                            request.peer_coach_email@,
                        )->0;
                        &&& has_program_id(*old(store), request.program_id@)
                        &&& enrollment_in_family(
                            *old(store),
                            coach.id@,
                            program_by_id(
                                *old(store),
                                request.program_id@,
                            ).spec_coalesce_parent_id(),
                        )
                    },
                    ServiceError::CoachAlreadyAssociated => {
                        let coach = first_coach_by_email(
                            old(store).coaches@,
                            request.peer_coach_email@,
                        )->0;
                        let family = program_by_id(
                            *old(store),
                            request.program_id@,
                        ).spec_coalesce_parent_id();
                        &&& has_program_id(*old(store), request.program_id@)
                        &&& !enrollment_in_family(*old(store), coach.id@, family)
                        &&& coach_in_family(*old(store), coach.id@, family)
                    },
                    _ => false,
                }
            },
        },
{
    let coach = match store.find_coach_by_email(request.peer_coach_email.as_str()) {
        Some(c) => c.clone(),
        None => {
            return Err(ServiceError::InvalidCoach);
        },
    };
    let given_program = match store.find_program(request.program_id.as_str()) {
        Some(p) => p.clone(),
        None => {
            return Err(ServiceError::InvalidProgram);
        },
    };
    proof {
        lemma_program_by_id(*store, given_program);
    }
    if store.member_enrolled_in_family(coach.id.as_str(), given_program.coalesce_parent_id()) {
        return Err(ServiceError::CoachWasMember);
    }
    if store.coach_owns_in_family(coach.id.as_str(), given_program.coalesce_parent_id()) {
        return Err(ServiceError::CoachAlreadyAssociated);
    }
    let parent_program = match store.find_program(given_program.coalesce_parent_id()) {
        Some(p) => p.clone(),
        None => {
            proof {
                // The family identity always lands on a program: itself for a
                // root, the linked root for a spawned peer.
                match given_program.lineage {
                    ProgramLineage::Root => {
                        let i = choose|i: int|
                            0 <= i < store.programs@.len() && store.programs@[i] == given_program;
                        assert(false);
                    },
                    ProgramLineage::Spawned { root_id } => {
                        let i = choose|i: int|
                            0 <= i < store.programs@.len() && store.programs@[i] == given_program;
                        assert(store.programs@[i].lineage is Spawned);
                        assert(crate::store::has_root(store.programs@, root_id@));
                        assert(false);
                    },
                }
            }
            return Err(ServiceError::InvalidProgram);
        },
    };
    proof {
        lemma_program_by_id(*store, parent_program);
        // The row found under the family identity is the root itself.
        match given_program.lineage {
            ProgramLineage::Root => {
                let i = choose|i: int|
                    0 <= i < store.programs@.len() && store.programs@[i] == given_program;
                let j = choose|j: int|
                    0 <= j < store.programs@.len() && store.programs@[j] == parent_program;
                lemma_program_id_unique(store, i, j);
                assert(parent_program.lineage is Root);
            },
            ProgramLineage::Spawned { root_id } => {
                let i = choose|i: int|
                    0 <= i < store.programs@.len() && store.programs@[i] == given_program;
                assert(store.programs@[i].lineage is Spawned);
                assert(crate::store::has_root(store.programs@, root_id@));
                let k = choose|k: int|
                    0 <= k < store.programs@.len() && store.programs@[k].id@ == root_id@
                        && store.programs@[k].lineage is Root;
                let j = choose|j: int|
                    0 <= j < store.programs@.len() && store.programs@[j] == parent_program;
                lemma_program_id_unique(store, k, j);
                assert(parent_program.lineage is Root);
            },
        }
    }
    let id = store.mint_id();
    let spawned = Program {
        id,
        name: parent_program.name.clone(),
        description: parent_program.description.clone(),
        coach_id: coach.id.clone(),
        lineage: ProgramLineage::Spawned { root_id: parent_program.id.clone() },
        active: parent_program.active,
        created_at: now,
    };
    let r = spawned.clone();
    let ghost mid = *store;
    store.programs.push(spawned);
    proof {
        assert(program_ids(store.programs@) =~= program_ids(mid.programs@).push(
            dec_digits(old(store).next_id as nat),
        ));
        lemma_ids_ok_push(program_ids(old(store).programs@), old(store).next_id as nat);
        let i = choose|i: int|
            0 <= i < mid.programs@.len() && mid.programs@[i] == parent_program;
        assert(crate::store::has_root(mid.programs@, parent_program.id@));
        lemma_root_link_push(mid.programs@, r);
    }
    Ok(r)
}

/// The peer offerings of the family that the given program belongs to: every
/// spawned program under the family root, joined with its coach. The root
/// itself is not listed.
pub open spec fn peer_rows(ps: Seq<Program>, cs: Seq<Coach>, root: Seq<char>) -> Seq<ProgramCoach>
    decreases ps.len(),
{
    if ps.len() == 0 {
        Seq::empty()
    } else {
        let rest = peer_rows(ps.drop_last(), cs, root);
        let p = ps.last();
        if p.lineage is Spawned && p.lineage->root_id@ == root {
            match first_coach_by_id(cs, p.coach_id@) {
                Some(c) => rest.push(ProgramCoach { program: p, coach: c }),
                None => rest,
            }
        } else {
            rest
        }
    }
}

/// Lists the peer offerings of the family of the given program, root
/// excluded, in store order.
pub fn get_peer_coaches(store: &Store, the_program_id: &str) -> (r: Result<
    Vec<ProgramCoach>,
    ServiceError,
>)
    requires
        store.wf(),
    ensures
        match r {
            Ok(v) => has_program_id(*store, the_program_id@) && v@ == peer_rows(
                store.programs@,
                store.coaches@,
                program_by_id(*store, the_program_id@).spec_coalesce_parent_id(),
            ),
            Err(e) => e == ServiceError::InvalidProgram && !has_program_id(
                *store,
                the_program_id@,
            ),
        },
{
    let program = match store.find_program(the_program_id) {
        Some(p) => p.clone(),
        None => {
            return Err(ServiceError::InvalidProgram);
        },
    };
    proof {
        lemma_program_by_id(*store, program);
    }
    let root_id = program.coalesce_parent_id();
    let mut rows: Vec<ProgramCoach> = Vec::new();
    let n = store.programs.len();
    let mut i: usize = 0;
    proof {
        assert(store.programs@.take(0) =~= Seq::<Program>::empty());
    }
    while i < n
        invariant
            0 <= i <= n,
            n == store.programs@.len(),
            root_id@ == program_by_id(*store, the_program_id@).spec_coalesce_parent_id(),
            rows@ == peer_rows(store.programs@.take(i as int), store.coaches@, root_id@),
        decreases n - i,
    {
        let p = &store.programs[i];
        let is_peer = match &p.lineage {
            ProgramLineage::Spawned { root_id: rid } => str_eq(rid.as_str(), root_id),
            ProgramLineage::Root => false,
        };
        if is_peer {
            match store.find_coach(p.coach_id.as_str()) {
                Some(c) => {
                    rows.push(ProgramCoach { program: p.clone(), coach: c.clone() });
                },
                None => {},
            }
        }
        proof {
            assert(store.programs@.take(i as int + 1).drop_last() =~= store.programs@.take(
                i as int,
            ));
            assert(store.programs@.take(i as int + 1).last() == store.programs@[i as int]);
        }
        i = i + 1;
    }
    proof {
        assert(store.programs@.take(n as int) =~= store.programs@);
    }
    Ok(rows)
}

/// A spawned peer of the family rooted at the given identity.
pub open spec fn is_peer_of(p: Program, root: Seq<char>) -> bool {
    p.lineage is Spawned && p.lineage->root_id@ == root
}

/// How many programs the bulk state change touches.
pub open spec fn count_peers(ps: Seq<Program>, root: Seq<char>) -> nat
    decreases ps.len(),
{
    if ps.len() == 0 {
        0
    } else {
        count_peers(ps.drop_last(), root) + (if is_peer_of(ps.last(), root) {
            1nat
        } else {
            0nat
        })
    }
}

/// The same program row with its `active` flag rewritten.
pub open spec fn with_active(p: Program, a: bool) -> Program {
    Program {
        id: p.id,
        name: p.name,
        description: p.description,
        coach_id: p.coach_id,
        lineage: p.lineage,
        active: a,
        created_at: p.created_at,
    }
}

/// Changes the activation state of a family: legal only on a root program
/// and only towards the other state. On success every spawned peer of the
/// root is rewritten; the root's own flag is not touched by the bulk update.
/// Returns how many rows were rewritten.
pub fn change_program_state(store: &mut Store, request: &ChangeProgramStateRequest) -> (r: Result<
    usize,
    ServiceError,
>)
    requires
        old(store).wf(),
    ensures
        final(store).wf(),
        match r {
            Ok(count) => {
                let prog = program_by_id(*old(store), request.id@);
                let target_active = request.target_state == ProgramTargetState::ACTIVATE;
                &&& has_program_id(*old(store), request.id@)
                &&& prog.spec_is_parent()
                &&& prog.active != target_active
                &&& count == count_peers(old(store).programs@, request.id@)
                &&& final(store).programs@.len() == old(store).programs@.len()
                &&& forall|i: int|
                    0 <= i < old(store).programs@.len() ==> final(store).programs@[i] == (if is_peer_of(
                        #[trigger] old(store).programs@[i],
                        request.id@,
                    ) {
                        with_active(old(store).programs@[i], target_active)
                    } else {
                        old(store).programs@[i]
                    })
                &&& same_but_programs(*old(store), *final(store))
                &&& final(store).next_id == old(store).next_id
            },
            Err(e) => {
                &&& *final(store) == *old(store)
                &&& match e {
                    ServiceError::InvalidProgram => !has_program_id(*old(store), request.id@),
                    ServiceError::NotARootProgram => {
                        &&& has_program_id(*old(store), request.id@)
                        &&& !program_by_id(*old(store), request.id@).spec_is_parent()
                    },
                    ServiceError::AlreadyInState => {
                        let prog = program_by_id(*old(store), request.id@);
                        &&& has_program_id(*old(store), request.id@)
                        &&& prog.spec_is_parent()
                        &&& prog.active == (request.target_state == ProgramTargetState::ACTIVATE)
                    },
                    _ => false,
                }
            },
        },
{
    let program = match store.find_program(request.id.as_str()) {
        Some(p) => p.clone(),
        None => {
            return Err(ServiceError::InvalidProgram);
        },
    };
    proof {
        lemma_program_by_id(*store, program);
    }
    if !program.is_parent() {
        return Err(ServiceError::NotARootProgram);
    }
    let target_active = match request.target_state {
        ProgramTargetState::ACTIVATE => true,
        ProgramTargetState::DEACTIVATE => false,
    };
    if program.active() == target_active {
        return Err(ServiceError::AlreadyInState);
    }
    let n = store.programs.len();
    let mut count: usize = 0;
    let mut i: usize = 0;
    proof {
        assert(old(store).programs@.take(0) =~= Seq::<Program>::empty());
    }
    while i < n
        invariant
            0 <= i <= n,
            n == old(store).programs@.len(),
            store.programs@.len() == n,
            store.users == old(store).users,
            store.coaches == old(store).coaches,
            store.enrollments == old(store).enrollments,
            store.tasks == old(store).tasks,
            store.sessions == old(store).sessions,
            store.objectives == old(store).objectives,
            store.outbox == old(store).outbox,
            store.next_id == old(store).next_id,
            count == count_peers(old(store).programs@.take(i as int), request.id@),
            count <= i,
            forall|j: int| i <= j < n ==> store.programs@[j] == old(store).programs@[j],
            forall|j: int|
                0 <= j < i ==> store.programs@[j] == (if is_peer_of(
                    #[trigger] old(store).programs@[j],
                    request.id@,
                ) {
                    with_active(old(store).programs@[j], target_active)
                } else {
                    old(store).programs@[j]
                }),
        decreases n - i,
    {
        let is_peer = match &store.programs[i].lineage {
            ProgramLineage::Spawned { root_id: rid } => str_eq(rid.as_str(), request.id.as_str()),
            ProgramLineage::Root => false,
        };
        if is_peer {
            store.programs[i].active = target_active;
            count = count + 1;
        }
        proof {
            assert(old(store).programs@.take(i as int + 1).drop_last() =~= old(
                store,
            ).programs@.take(i as int));
            assert(old(store).programs@.take(i as int + 1).last() == old(store).programs@[i as int]);
        }
        i = i + 1;
    }
    proof {
        assert(old(store).programs@.take(n as int) =~= old(store).programs@);
        // Identifiers did not move, so well-formedness survives the rewrite.
        assert(program_ids(store.programs@) =~= program_ids(old(store).programs@));
        assert forall|i0: int|
            0 <= i0 < store.programs@.len() && (#[trigger] store.programs@[i0]).lineage
                is Spawned implies crate::store::has_root(
            store.programs@,
            store.programs@[i0].lineage->root_id@,
        ) by {
            assert(store.programs@[i0].lineage == old(store).programs@[i0].lineage);
            assert(crate::store::has_root(
                old(store).programs@,
                old(store).programs@[i0].lineage->root_id@,
            ));
            let j = choose|j: int|
                0 <= j < old(store).programs@.len() && old(store).programs@[j].id@ == old(
                    store,
                ).programs@[i0].lineage->root_id@ && old(store).programs@[j].lineage is Root;
            assert(store.programs@[j].id@ == old(store).programs@[j].id@);
            assert(store.programs@[j].lineage is Root);
        }
    }
    Ok(count)
}

} // verus!
