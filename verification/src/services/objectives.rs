//! The objective service: creation and plain edits of the goals tied to an
//! enrollment.

use vstd::prelude::*;

verus! {

use crate::commons::chassis::ServiceError;
use crate::ident::{dec_digits, lemma_ids_ok_push};
use crate::models::enrollments::PlanCriteria;
use crate::models::objectives::{
    NewObjective, NewObjectiveRequest, Objective, UpdateObjectiveRequest,
};
use crate::store::{
    has_objective_id, lemma_objective_by_id, objective_by_id, objective_ids,
    same_but_objectives, Store,
};
use crate::temporal::parsed_date;
use crate::text::str_eq;

/// One objective row was inserted, under the identifier minted for it, and
/// nothing else moved.
pub open spec fn objective_inserted(s0: Store, s1: Store, o: Objective) -> bool {
    &&& same_but_objectives(s0, s1)
    &&& s1.objectives@ == s0.objectives@.push(o)
    &&& s1.next_id == s0.next_id + 1
    &&& o.id@ == dec_digits(s0.next_id as nat)
}

/// A freshly created objective: the requested window, no marker set.
pub open spec fn fresh_objective(o: Objective, req: NewObjectiveRequest, now: i64) -> bool {
    &&& o.enrollment_id@ == req.enrollment_id@
    &&& o.duration == 1
    &&& o.original_start_date == parsed_date(req.start_time@)->0
    &&& o.original_end_date == parsed_date(req.end_time@)->0
    &&& o.revised_start_date is None
    &&& o.revised_end_date is None
    &&& o.actual_start_date is None
    &&& o.actual_end_date is None
    &&& o.created_at == now
    &&& o.updated_at == now
    &&& o.description matches Some(d) && d@ == req.description@
    &&& o.closing_notes is None
}

/// Creates an objective for an enrollment over the requested window.
pub fn create_objective(store: &mut Store, request: &NewObjectiveRequest, now: i64) -> (r: Result<
    Objective,
    ServiceError,
>)
    requires
        old(store).wf(),
        old(store).next_id < u64::MAX,
        parsed_date(request.start_time@) is Some,
        parsed_date(request.end_time@) is Some,
    ensures
        final(store).wf(),
        r is Ok,
        fresh_objective(r->Ok_0, *request, now),
        objective_inserted(*old(store), *final(store), r->Ok_0),
{
    let id = store.mint_id();
    let new_objective = NewObjective::from(request, id);
    let objective = Objective {
        id: new_objective.id,
        enrollment_id: new_objective.enrollment_id,
        duration: new_objective.duration,
        original_start_date: new_objective.original_start_date,
        original_end_date: new_objective.original_end_date,
        revised_start_date: None,
        revised_end_date: None,
        actual_start_date: None,
        actual_end_date: None,
        created_at: now,
        updated_at: now,
        description: Some(new_objective.description),
        closing_notes: None,
    };
    let r = objective.clone();
    let ghost mid_store = *store;
    store.objectives.push(objective);
    proof {
        assert(objective_ids(store.objectives@) =~= objective_ids(mid_store.objectives@).push(
            dec_digits(old(store).next_id as nat),
        ));
        lemma_ids_ok_push(objective_ids(old(store).objectives@), old(store).next_id as nat);
    }
    Ok(r)
}

/// The plain edit: description and the original window.
pub open spec fn objective_edited(o: Objective, req: UpdateObjectiveRequest, now: i64) -> Objective {
    Objective {
        description: Some(req.description),
        original_start_date: parsed_date(req.start_time@)->0,
        original_end_date: parsed_date(req.end_time@)->0,
        updated_at: now,
        ..o
    }
}

/// The outcome an objective edit reports: the named row, rewritten, with
/// nothing else moved.
pub open spec fn objective_rewritten(s0: Store, s1: Store, id: Seq<char>, o2: Objective) -> bool {
    &&& same_but_objectives(s0, s1)
    &&& s1.next_id == s0.next_id
    &&& s1.objectives@.len() == s0.objectives@.len()
    &&& forall|i: int|
        0 <= i < s0.objectives@.len() ==> s1.objectives@[i] == (if (#[trigger] s0.objectives@[i]).id@
            == id {
            o2
        } else {
            s0.objectives@[i]
        })
}

/// Rewrites an objective's description and window.
pub fn update_objective(store: &mut Store, request: &UpdateObjectiveRequest, now: i64) -> (r:
    Result<Objective, ServiceError>)
    requires
        old(store).wf(),
        parsed_date(request.start_time@) is Some,
        parsed_date(request.end_time@) is Some,
    ensures
        final(store).wf(),
        match r {
            Ok(o2) => {
                &&& has_objective_id(*old(store), request.id@)
                &&& o2 == objective_edited(objective_by_id(*old(store), request.id@), *request, now)
                &&& objective_rewritten(*old(store), *final(store), request.id@, o2)
            },
            Err(e) => {
                &&& e == ServiceError::ObjectiveNotFound
                &&& !has_objective_id(*old(store), request.id@)
                &&& *final(store) == *old(store)
            },
        },
{
    let ix = match store.find_objective_index(request.id.as_str()) {
        Some(ix) => ix,
        None => {
            return Err(ServiceError::ObjectiveNotFound);
        },
    };
    proof {
        lemma_objective_by_id(*store, ix as int);
    }
    let mut row = store.objectives[ix].clone();
    let start_date = match crate::temporal::parse_date_time(request.start_time.as_str()) {
        Some(d) => d,
        None => 0,
    };
    let end_date = match crate::temporal::parse_date_time(request.end_time.as_str()) {
        Some(d) => d,
        None => 0,
    };
    row.description = Some(request.description.clone());
    row.original_start_date = start_date;
    row.original_end_date = end_date;
    row.updated_at = now;
    let out = row.clone();
    store.replace_objective(ix, row);
    Ok(out)
}

/// The objectives of one enrollment, in store order.
pub open spec fn objectives_of_enrollment(os: Seq<Objective>, eid: Seq<char>) -> Seq<Objective>
    decreases os.len(),
{
    if os.len() == 0 {
        Seq::empty()
    } else {
        let rest = objectives_of_enrollment(os.drop_last(), eid);
        if os.last().enrollment_id@ == eid {
            rest.push(os.last())
        } else {
            rest
        }
    }
}

/// Lists the objectives of an enrollment, in store order.
pub fn get_objectives(store: &Store, criteria: &PlanCriteria) -> (r: Result<
    Vec<Objective>,
    ServiceError,
>)
    ensures
        r is Ok,
        r->Ok_0@ == objectives_of_enrollment(store.objectives@, criteria.enrollment_id@),
{
    let mut rows: Vec<Objective> = Vec::new();
    let n = store.objectives.len();
    let mut i: usize = 0;
    proof {
        assert(store.objectives@.take(0) =~= Seq::<Objective>::empty());
    }
    while i < n
        invariant
            0 <= i <= n,
            n == store.objectives@.len(),
            rows@ == objectives_of_enrollment(
                store.objectives@.take(i as int),
                criteria.enrollment_id@,
            ),
        decreases n - i,
    {
        if str_eq(store.objectives[i].enrollment_id.as_str(), criteria.enrollment_id.as_str()) {
            rows.push(store.objectives[i].clone());
        }
        proof {
            assert(store.objectives@.take(i as int + 1).drop_last() =~= store.objectives@.take(
                i as int,
            ));
            assert(store.objectives@.take(i as int + 1).last() == store.objectives@[i as int]);
        }
        i = i + 1;
    }
    proof {
        assert(store.objectives@.take(n as int) =~= store.objectives@);
    }
    Ok(rows)
}

} // verus!
