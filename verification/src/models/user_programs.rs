//! Program browsing for a user: the latest offerings, the programs a member
//! is enrolled in, and the programs a coach owns.

use vstd::prelude::*;

verus! {

use crate::commons::chassis::ServiceError;
use crate::models::coaches::Coach;
use crate::models::programs::Program;
use crate::store::{
    first_coach_by_id, first_program_by_id, has_program_id, Store,
};
use crate::text::{lemma_str_le_total, lemma_str_le_trans, str_eq, str_le, str_le_exec};
use vstd::seq_lib::to_multiset_insert;

/// What a user is looking for: the latest programs, their enrolled
/// programs, or their own.
#[derive(Clone, Copy, Debug, PartialEq, Eq, Structural)]
pub enum Desire {
    EXPLORE,
    ENROLLED,
    YOURS,
}

pub struct ProgramCriteria {
    pub user_fuzzy_id: String,
    pub program_fuzzy_id: String,
    pub desire: Desire,
}

/// One listed program joined with its coach.
pub struct ProgramRow {
    pub program: Program,
    pub coach: Coach,
}

impl ProgramRow {
    pub fn program(&self) -> (r: &Program)
        ensures
            *r == self.program,
    {
        &self.program
    }

    pub fn coach(&self) -> (r: &Coach)
        ensures
            *r == self.coach,
    {
        &self.coach
    }
}

/// The programs a member is enrolled in, joined with their coaches, in
/// store order.
pub open spec fn enrolled_rows(s: Store, uid: Seq<char>) -> Seq<ProgramRow>
    decreases s.enrollments@.len(),
{
    enrolled_rows_of(s.enrollments@, s.programs@, s.coaches@, uid)
}

pub open spec fn enrolled_rows_of(
    es: Seq<crate::models::enrollments::Enrollment>,
    ps: Seq<Program>,
    cs: Seq<Coach>,
    uid: Seq<char>,
) -> Seq<ProgramRow>
    decreases es.len(),
{
    if es.len() == 0 {
        Seq::empty()
    } else {
        let rest = enrolled_rows_of(es.drop_last(), ps, cs, uid);
        let e = es.last();
        if e.member_id@ == uid {
            match first_program_by_id(ps, e.program_id@) {
                Some(p) => match first_coach_by_id(cs, p.coach_id@) {
                    Some(c) => rest.push(ProgramRow { program: p, coach: c }),
                    None => rest,
                },
                None => rest,
            }
        } else {
            rest
        }
    }
}

/// The programs a coach owns, joined with the coach, in store order.
pub open spec fn coach_rows(ps: Seq<Program>, cs: Seq<Coach>, uid: Seq<char>) -> Seq<ProgramRow>
    decreases ps.len(),
{
    if ps.len() == 0 {
        Seq::empty()
    } else {
        let rest = coach_rows(ps.drop_last(), cs, uid);
        let p = ps.last();
        if p.coach_id@ == uid {
            match first_coach_by_id(cs, p.coach_id@) {
                Some(c) => rest.push(ProgramRow { program: p, coach: c }),
                None => rest,
            }
        } else {
            rest
        }
    }
}

/// The active programs joined with their coaches, in store order.
pub open spec fn active_rows(ps: Seq<Program>, cs: Seq<Coach>) -> Seq<ProgramRow>
    decreases ps.len(),
{
    if ps.len() == 0 {
        Seq::empty()
    } else {
        let rest = active_rows(ps.drop_last(), cs);
        let p = ps.last();
        if p.active {
            match first_coach_by_id(cs, p.coach_id@) {
                Some(c) => rest.push(ProgramRow { program: p, coach: c }),
                None => rest,
            }
        } else {
            rest
        }
    }
}

/// Ascending by program name.
pub open spec fn rows_sorted_by_name(rows: Seq<ProgramRow>) -> bool {
    forall|i: int, j: int|
        0 <= i < j < rows.len() ==> str_le(
            (#[trigger] rows[i]).program.name@,
            (#[trigger] rows[j]).program.name@,
        )
}

/// Ascending by creation instant.
pub open spec fn rows_sorted_by_created(rows: Seq<ProgramRow>) -> bool {
    forall|i: int, j: int|
        0 <= i < j < rows.len() ==> (#[trigger] rows[i]).program.created_at
            <= (#[trigger] rows[j]).program.created_at
}

/// Where `row` belongs in a run already sorted by program name.
fn name_position(out: &Vec<ProgramRow>, row: &ProgramRow) -> (j: usize)
    ensures
        j <= out@.len(),
        forall|k: int|
            0 <= k < j ==> str_le((#[trigger] out@[k]).program.name@, row.program.name@),
        j < out@.len() ==> !str_le(out@[j as int].program.name@, row.program.name@),
{
    let m = out.len();
    let mut j: usize = 0;
    while j < m
        invariant
            0 <= j <= m,
            m == out@.len(),
            forall|k: int|
                0 <= k < j ==> str_le((#[trigger] out@[k]).program.name@, row.program.name@),
        decreases m - j,
    {
        if !str_le_exec(out[j].program.name.as_str(), row.program.name.as_str()) {
            return j;
        }
        j = j + 1;
    }
    j
}

/// Sorts rows ascending by program name; the result holds exactly the given
/// rows.
fn sort_rows_by_name(input: Vec<ProgramRow>) -> (r: Vec<ProgramRow>)
    ensures
        r@.to_multiset() == input@.to_multiset(),
        rows_sorted_by_name(r@),
{
    let mut out: Vec<ProgramRow> = Vec::new();
    let n = input.len();
    let mut i: usize = 0;
    proof {
        assert(input@.take(0) =~= Seq::<ProgramRow>::empty());
        assert(out@.to_multiset() =~= input@.take(0).to_multiset());
    }
    while i < n
        invariant
            0 <= i <= n,
            n == input@.len(),
            out@.to_multiset() == input@.take(i as int).to_multiset(),
            rows_sorted_by_name(out@),
        decreases n - i,
    {
        let row = ProgramRow {
            program: input[i].program.clone(),
            coach: input[i].coach.clone(),
        };
        proof {
            assert(row == input@[i as int]);
        }
        let j = name_position(&out, &row);
        let ghost prev = out@;
        out.insert(j, row);
        proof {
            to_multiset_insert(prev, j as int, out@[j as int]);
            vstd::seq_lib::to_multiset_build(input@.take(i as int), input@[i as int]);
            assert(input@.take(i as int).push(input@[i as int]) =~= input@.take(i as int + 1));
            assert forall|a: int, b: int|
                0 <= a < b < out@.len() implies str_le(
                (#[trigger] out@[a]).program.name@,
                (#[trigger] out@[b]).program.name@,
            ) by {
                let x = out@[j as int];
                if a == j && b > j {
                    assert(!str_le(prev[j as int].program.name@, x.program.name@));
                    lemma_str_le_total(prev[j as int].program.name@, x.program.name@);
                    assert(out@[b] == prev[b - 1]);
                    if b - 1 > j {
                        lemma_str_le_trans(
                            x.program.name@,
                            prev[j as int].program.name@,
                            prev[b - 1].program.name@,
                        );
                    }
                } else if a < j && b > j {
                    assert(out@[a] == prev[a]);
                    assert(out@[b] == prev[b - 1]);
                } else if a > j {
                    assert(out@[a] == prev[a - 1]);
                    assert(out@[b] == prev[b - 1]);
                }
            }
        }
        i = i + 1;
    }
    proof {
        assert(input@.take(n as int) =~= input@);
    }
    out
}

/// Where `row` belongs in a run already sorted by creation instant.
fn created_position(out: &Vec<ProgramRow>, row: &ProgramRow) -> (j: usize)
    ensures
        j <= out@.len(),
        forall|k: int|
            0 <= k < j ==> (#[trigger] out@[k]).program.created_at <= row.program.created_at,
        j < out@.len() ==> out@[j as int].program.created_at > row.program.created_at,
{
    let m = out.len();
    let mut j: usize = 0;
    while j < m
        invariant
            0 <= j <= m,
            m == out@.len(),
            forall|k: int|
                0 <= k < j ==> (#[trigger] out@[k]).program.created_at <= row.program.created_at,
        decreases m - j,
    {
        if out[j].program.created_at > row.program.created_at {
            return j;
        }
        j = j + 1;
    }
    j
}

/// Sorts rows ascending by creation instant; the result holds exactly the
/// given rows.
fn sort_rows_by_created(input: Vec<ProgramRow>) -> (r: Vec<ProgramRow>)
    ensures
        r@.to_multiset() == input@.to_multiset(),
        rows_sorted_by_created(r@),
{
    let mut out: Vec<ProgramRow> = Vec::new();
    let n = input.len();
    let mut i: usize = 0;
    proof {
        assert(input@.take(0) =~= Seq::<ProgramRow>::empty());
        assert(out@.to_multiset() =~= input@.take(0).to_multiset());
    }
    while i < n
        invariant
            0 <= i <= n,
            n == input@.len(),
            out@.to_multiset() == input@.take(i as int).to_multiset(),
            rows_sorted_by_created(out@),
        decreases n - i,
    {
        let row = ProgramRow {
            program: input[i].program.clone(),
            coach: input[i].coach.clone(),
        };
        proof {
            assert(row == input@[i as int]);
        }
        let j = created_position(&out, &row);
        let ghost prev = out@;
        out.insert(j, row);
        proof {
            to_multiset_insert(prev, j as int, out@[j as int]);
            vstd::seq_lib::to_multiset_build(input@.take(i as int), input@[i as int]);
            assert(input@.take(i as int).push(input@[i as int]) =~= input@.take(i as int + 1));
            assert forall|a: int, b: int|
                0 <= a < b < out@.len() implies (#[trigger] out@[a]).program.created_at
                <= (#[trigger] out@[b]).program.created_at by {
                if a < j && b > j {
                    assert(out@[a] == prev[a]);
                    assert(out@[b] == prev[b - 1]);
                } else if a > j {
                    assert(out@[a] == prev[a - 1]);
                    assert(out@[b] == prev[b - 1]);
                } else if a == j && b > j {
                    assert(out@[b] == prev[b - 1]);
                }
            }
        }
        i = i + 1;
    }
    proof {
        assert(input@.take(n as int) =~= input@);
    }
    out
}

/// Resolves one program row — the program joined with its coach.
pub fn find_program(store: &Store, criteria: &ProgramCriteria) -> (r: Result<
    ProgramRow,
    ServiceError,
>)
    ensures
        match r {
            Ok(row) => {
                &&& first_program_by_id(store.programs@, criteria.program_fuzzy_id@) == Some(
                    row.program,
                )
                &&& first_coach_by_id(store.coaches@, row.program.coach_id@) == Some(row.coach)
            },
            Err(e) => match e {
                ServiceError::InvalidProgram => !has_program_id(
                    *store,
                    criteria.program_fuzzy_id@,
                ),
                ServiceError::CoachNotFound => first_program_by_id(
                    store.programs@,
                    criteria.program_fuzzy_id@,
                ) matches Some(p) && first_coach_by_id(store.coaches@, p.coach_id@) is None,
                _ => false,
            },
        },
{
    let program = match store.find_program(criteria.program_fuzzy_id.as_str()) {
        Some(p) => p.clone(),
        None => {
            return Err(ServiceError::InvalidProgram);
        },
    };
    let coach = match store.find_coach(program.coach_id.as_str()) {
        Some(c) => c.clone(),
        None => {
            return Err(ServiceError::CoachNotFound);
        },
    };
    Ok(ProgramRow { program, coach })
}

fn get_enrolled_programs(store: &Store, criteria: &ProgramCriteria) -> (r: Vec<ProgramRow>)
    ensures
        r@ == enrolled_rows(*store, criteria.user_fuzzy_id@),
{
    let mut rows: Vec<ProgramRow> = Vec::new();
    let n = store.enrollments.len();
    let mut i: usize = 0;
    proof {
        assert(store.enrollments@.take(0) =~= Seq::<crate::models::enrollments::Enrollment>::empty());
    }
    while i < n
        invariant
            0 <= i <= n,
            n == store.enrollments@.len(),
            rows@ == enrolled_rows_of(
                store.enrollments@.take(i as int),
                store.programs@,
                store.coaches@,
                criteria.user_fuzzy_id@,
            ),
        decreases n - i,
    {
        let e = &store.enrollments[i];
        if str_eq(e.member_id.as_str(), criteria.user_fuzzy_id.as_str()) {
            match store.find_program(e.program_id.as_str()) {
                Some(p) => {
                    match store.find_coach(p.coach_id.as_str()) {
                        Some(c) => {
                            rows.push(ProgramRow { program: p.clone(), coach: c.clone() });
                        },
                        None => {},
                    }
                },
                None => {},
            }
        }
        proof {
            assert(store.enrollments@.take(i as int + 1).drop_last() =~= store.enrollments@.take(
                i as int,
            ));
            assert(store.enrollments@.take(i as int + 1).last() == store.enrollments@[i as int]);
        }
        i = i + 1;
    }
    proof {
        assert(store.enrollments@.take(n as int) =~= store.enrollments@);
    }
    rows
}

fn get_coach_programs(store: &Store, criteria: &ProgramCriteria) -> (r: Vec<ProgramRow>)
    ensures
        r@.to_multiset() == coach_rows(
            store.programs@,
            store.coaches@,
            criteria.user_fuzzy_id@,
        ).to_multiset(),
        rows_sorted_by_name(r@),
{
    let mut rows: Vec<ProgramRow> = Vec::new();
    let n = store.programs.len();
    let mut i: usize = 0;
    proof {
        assert(store.programs@.take(0) =~= Seq::<Program>::empty());
    }
    while i < n
        invariant
            0 <= i <= n,
            n == store.programs@.len(),
            rows@ == coach_rows(
                store.programs@.take(i as int),
                store.coaches@,
                criteria.user_fuzzy_id@,
            ),
        decreases n - i,
    {
        let p = &store.programs[i];
        if str_eq(p.coach_id.as_str(), criteria.user_fuzzy_id.as_str()) {
            match store.find_coach(p.coach_id.as_str()) {
                Some(c) => {
                    rows.push(ProgramRow { program: p.clone(), coach: c.clone() });
                },
                None => {},
            }
        }
        proof {
            assert(store.programs@.take(i as int + 1).drop_last() =~= store.programs@.take(
                i as int,
            ));
            assert(store.programs@.take(i as int + 1).last() == store.programs@[i as int]);
        }
        i = i + 1;
    }
    proof {
        assert(store.programs@.take(n as int) =~= store.programs@);
    }
    sort_rows_by_name(rows)
}

fn get_latest_programs(store: &Store) -> (r: Vec<ProgramRow>)
    ensures
        exists|sorted: Seq<ProgramRow>|
            #![trigger sorted.len()]
            {
                &&& sorted.to_multiset() == active_rows(
                    store.programs@,
                    store.coaches@,
                ).to_multiset()
                &&& rows_sorted_by_created(sorted)
                &&& r@ == sorted.take(if sorted.len() < 10 {
                    sorted.len() as int
                } else {
                    10
                })
            },
{
    let mut rows: Vec<ProgramRow> = Vec::new();
    let n = store.programs.len();
    let mut i: usize = 0;
    proof {
        assert(store.programs@.take(0) =~= Seq::<Program>::empty());
    }
    while i < n
        invariant
            0 <= i <= n,
            n == store.programs@.len(),
            rows@ == active_rows(store.programs@.take(i as int), store.coaches@),
        decreases n - i,
    {
        let p = &store.programs[i];
        if p.active {
            match store.find_coach(p.coach_id.as_str()) {
                Some(c) => {
                    rows.push(ProgramRow { program: p.clone(), coach: c.clone() });
                },
                None => {},
            }
        }
        proof {
            assert(store.programs@.take(i as int + 1).drop_last() =~= store.programs@.take(
                i as int,
            ));
            assert(store.programs@.take(i as int + 1).last() == store.programs@[i as int]);
        }
        i = i + 1;
    }
    proof {
        assert(store.programs@.take(n as int) =~= store.programs@);
    }
    let mut sorted = sort_rows_by_created(rows);
    let ghost full = sorted@;
    if sorted.len() > 10 {
        sorted.truncate(10);
        proof {
            assert(sorted@ == full.take(10));
        }
    } else {
        proof {
            assert(sorted@ =~= full.take(full.len() as int));
        }
    }
    sorted
}

/// Lists programs for a user: the ten earliest-created active ones to
/// explore, the ones they are enrolled in, or the ones they coach, ordered
/// by name.
pub fn get_programs(store: &Store, criteria: &ProgramCriteria) -> (r: Result<
    Vec<ProgramRow>,
    ServiceError,
>)
    ensures
        r is Ok,
        criteria.desire == Desire::ENROLLED ==> r->Ok_0@ == enrolled_rows(
            *store,
            criteria.user_fuzzy_id@,
        ),
        criteria.desire == Desire::YOURS ==> r->Ok_0@.to_multiset() == coach_rows(
            store.programs@,
            store.coaches@,
            criteria.user_fuzzy_id@,
        ).to_multiset() && rows_sorted_by_name(r->Ok_0@),
        criteria.desire == Desire::EXPLORE ==> exists|sorted: Seq<ProgramRow>|
            #![trigger sorted.len()]
            {
                &&& sorted.to_multiset() == active_rows(
                    store.programs@,
                    store.coaches@,
                ).to_multiset()
                &&& rows_sorted_by_created(sorted)
                &&& r->Ok_0@ == sorted.take(if sorted.len() < 10 {
                    sorted.len() as int
                } else {
                    10
                })
            },
{
    match criteria.desire {
        Desire::EXPLORE => Ok(get_latest_programs(store)),
        Desire::ENROLLED => Ok(get_enrolled_programs(store, criteria)),
        Desire::YOURS => Ok(get_coach_programs(store, criteria)),
    }
}

} // verus!
