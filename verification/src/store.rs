//! The in-memory store standing for the persistence handle.
//!
//! Entities live in plain rows; every row the store creates is keyed by a
//! fresh identifier minted from one shared counter, so identifiers are unique
//! across each table — the uniqueness a database would enforce with a unique
//! constraint. Services read through the finders below, apply their rules in
//! memory, and write at most one or two rows.

use vstd::prelude::*;

verus! {

use crate::ident::{
    dec_digits, id_in_range, ids_ok, lemma_ids_ok_grow, lemma_ids_ok_push, u64_to_dec,
};
use crate::models::coaches::Coach;
use crate::models::enrollments::Enrollment;
use crate::models::mails::MailEvent;
use crate::models::objectives::Objective;
use crate::models::programs::Program;
use crate::models::sessions::Session;
use crate::models::tasks::Task;
use crate::models::users::User;
use crate::text::str_eq;
use vstd::string::StringExecFns;

pub struct Store {
    pub users: Vec<User>,
    pub coaches: Vec<Coach>,
    pub programs: Vec<Program>,
    pub enrollments: Vec<Enrollment>,
    pub tasks: Vec<Task>,
    pub sessions: Vec<Session>,
    pub objectives: Vec<Objective>,
    pub outbox: Vec<MailEvent>,
    pub next_id: u64,
}

pub open spec fn user_ids(s: Seq<User>) -> Seq<Seq<char>> {
    s.map_values(|u: User| u.id@)
}

pub open spec fn coach_ids(s: Seq<Coach>) -> Seq<Seq<char>> {
    s.map_values(|c: Coach| c.id@)
}

pub open spec fn program_ids(s: Seq<Program>) -> Seq<Seq<char>> {
    s.map_values(|p: Program| p.id@)
}

pub open spec fn enrollment_ids(s: Seq<Enrollment>) -> Seq<Seq<char>> {
    s.map_values(|e: Enrollment| e.id@)
}

pub open spec fn task_ids(s: Seq<Task>) -> Seq<Seq<char>> {
    s.map_values(|t: Task| t.id@)
}

pub open spec fn session_ids(s: Seq<Session>) -> Seq<Seq<char>> {
    s.map_values(|t: Session| t.id@)
}

pub open spec fn objective_ids(s: Seq<Objective>) -> Seq<Seq<char>> {
    s.map_values(|o: Objective| o.id@)
}

/// Every spawned program points at an existing root program.
pub open spec fn root_link(ps: Seq<Program>) -> bool {
    forall|i: int|
        0 <= i < ps.len() && (#[trigger] ps[i]).lineage is Spawned ==> has_root(
            ps,
            ps[i].lineage->root_id@,
        )
}

/// Some root program carries the given identity.
pub open spec fn has_root(ps: Seq<Program>, id: Seq<char>) -> bool {
    exists|j: int| 0 <= j < ps.len() && (#[trigger] ps[j]).id@ == id && ps[j].lineage is Root
}

/// The rows an enrollment refers to were minted by this store.
pub open spec fn enrollment_refs_ok(es: Seq<Enrollment>, next: nat) -> bool {
    forall|i: int|
        0 <= i < es.len() ==> id_in_range((#[trigger] es[i]).program_id@, next) && id_in_range(
            es[i].member_id@,
            next,
        )
}

impl Store {
    /// Well-formedness: identifiers unique and minted below the counter in
    /// every table, and the program hierarchy exactly two levels deep.
    pub open spec fn wf(&self) -> bool {
        &&& ids_ok(user_ids(self.users@), self.next_id as nat)
        &&& ids_ok(coach_ids(self.coaches@), self.next_id as nat)
        &&& ids_ok(program_ids(self.programs@), self.next_id as nat)
        &&& ids_ok(enrollment_ids(self.enrollments@), self.next_id as nat)
        &&& ids_ok(task_ids(self.tasks@), self.next_id as nat)
        &&& ids_ok(session_ids(self.sessions@), self.next_id as nat)
        &&& ids_ok(objective_ids(self.objectives@), self.next_id as nat)
        &&& root_link(self.programs@)
        &&& enrollment_refs_ok(self.enrollments@, self.next_id as nat)
    }

    pub fn new() -> (r: Store)
        ensures
            r.wf(),
            r.users@.len() == 0,
            r.coaches@.len() == 0,
            r.programs@.len() == 0,
            r.enrollments@.len() == 0,
            r.tasks@.len() == 0,
            r.sessions@.len() == 0,
            r.objectives@.len() == 0,
            r.outbox@.len() == 0,
            r.next_id == 0,
    {
        Store {
            users: Vec::new(),
            coaches: Vec::new(),
            programs: Vec::new(),
            enrollments: Vec::new(),
            tasks: Vec::new(),
            sessions: Vec::new(),
            objectives: Vec::new(),
            outbox: Vec::new(),
            next_id: 0,
        }
    }

    /// Mints the next identifier and advances the counter; every table keeps
    /// its rows, so well-formedness survives the advance.
    pub fn mint_id(&mut self) -> (id: String)
        requires
            old(self).next_id < u64::MAX,
        ensures
            id@ == dec_digits(old(self).next_id as nat),
            final(self).next_id == old(self).next_id + 1,
            final(self).users == old(self).users,
            final(self).coaches == old(self).coaches,
            final(self).programs == old(self).programs,
            final(self).enrollments == old(self).enrollments,
            final(self).tasks == old(self).tasks,
            final(self).sessions == old(self).sessions,
            final(self).objectives == old(self).objectives,
            final(self).outbox == old(self).outbox,
            old(self).wf() ==> final(self).wf(),
    {
        let n = self.next_id;
        self.next_id = n + 1;
        let id = u64_to_dec(n);
        proof {
            if old(self).wf() {
                let next = old(self).next_id as nat;
                lemma_ids_ok_grow(user_ids(self.users@), next, next + 1);
                lemma_ids_ok_grow(coach_ids(self.coaches@), next, next + 1);
                lemma_ids_ok_grow(program_ids(self.programs@), next, next + 1);
                lemma_ids_ok_grow(enrollment_ids(self.enrollments@), next, next + 1);
                lemma_ids_ok_grow(task_ids(self.tasks@), next, next + 1);
                lemma_ids_ok_grow(session_ids(self.sessions@), next, next + 1);
                lemma_ids_ok_grow(objective_ids(self.objectives@), next, next + 1);
                assert forall|i: int|
                    0 <= i < self.enrollments@.len() implies id_in_range(
                    (#[trigger] self.enrollments@[i]).program_id@,
                    next + 1,
                ) && id_in_range(self.enrollments@[i].member_id@, next + 1) by {
                    crate::ident::lemma_id_in_range_grow(
                        self.enrollments@[i].program_id@,
                        next,
                        next + 1,
                    );
                    crate::ident::lemma_id_in_range_grow(
                        self.enrollments@[i].member_id@,
                        next,
                        next + 1,
                    );
                }
            }
        }
        id
    }

    /// Registers a member.
    pub fn register_user(&mut self, full_name: &str, email: &str) -> (r: User)
        requires
            old(self).wf(),
            old(self).next_id < u64::MAX,
        ensures
            final(self).wf(),
            r.id@ == dec_digits(old(self).next_id as nat),
            r.full_name@ == full_name@,
            r.email@ == email@,
            final(self).users@ == old(self).users@.push(r),
            final(self).coaches == old(self).coaches,
            final(self).programs == old(self).programs,
            final(self).enrollments == old(self).enrollments,
            final(self).tasks == old(self).tasks,
            final(self).sessions == old(self).sessions,
            final(self).objectives == old(self).objectives,
            final(self).outbox == old(self).outbox,
            final(self).next_id == old(self).next_id + 1,
    {
        let ghost next = self.next_id as nat;
        let id = self.mint_id();
        let user = User {
            id,
            email: String::from_str(email),
            full_name: String::from_str(full_name),
        };
        let r = user.clone();
        self.users.push(user);
        proof {
            assert(user_ids(self.users@) =~= user_ids(old(self).users@).push(dec_digits(next)));
            lemma_ids_ok_push(user_ids(old(self).users@), next);
        }
        r
    }

    /// Registers a coach: one user row and one coach row under the same
    /// identity, so that joins against either table need no self-reference.
    pub fn register_coach(&mut self, full_name: &str, email: &str) -> (r: Coach)
        requires
            old(self).wf(),
            old(self).next_id < u64::MAX,
        ensures
            final(self).wf(),
            r.id@ == dec_digits(old(self).next_id as nat),
            r.full_name@ == full_name@,
            r.email@ == email@,
            final(self).coaches@ == old(self).coaches@.push(r),
            final(self).users@.len() == old(self).users@.len() + 1,
            final(self).users@.take(old(self).users@.len() as int) == old(self).users@,
            final(self).users@.last().id@ == r.id@,
            final(self).users@.last().email@ == email@,
            final(self).users@.last().full_name@ == full_name@,
            final(self).programs == old(self).programs,
            final(self).enrollments == old(self).enrollments,
            final(self).tasks == old(self).tasks,
            final(self).sessions == old(self).sessions,
            final(self).objectives == old(self).objectives,
            final(self).outbox == old(self).outbox,
            final(self).next_id == old(self).next_id + 1,
    {
        let ghost next = self.next_id as nat;
        let id = self.mint_id();
        let coach = Coach {
            id,
            email: String::from_str(email),
            full_name: String::from_str(full_name),
        };
        let user = User {
            id: coach.id.clone(),
            email: coach.email.clone(),
            full_name: coach.full_name.clone(),
        };
        let r = coach.clone();
        self.users.push(user);
        self.coaches.push(coach);
        proof {
            assert(user_ids(self.users@) =~= user_ids(old(self).users@).push(dec_digits(next)));
            lemma_ids_ok_push(user_ids(old(self).users@), next);
            assert(coach_ids(self.coaches@) =~= coach_ids(old(self).coaches@).push(
                dec_digits(next),
            ));
            lemma_ids_ok_push(coach_ids(old(self).coaches@), next);
            assert(self.users@.take(old(self).users@.len() as int) =~= old(self).users@);
        }
        r
    }

    pub fn find_user(&self, the_id: &str) -> (r: Option<&User>)
        ensures
            match r {
                Some(u) => self.users@.contains(*u) && u.id@ == the_id@ && first_user_by_id(
                    self.users@,
                    the_id@,
                ) == Some(*u),
                None => (forall|i: int|
                    0 <= i < self.users@.len() ==> (#[trigger] self.users@[i]).id@ != the_id@)
                    && first_user_by_id(self.users@, the_id@) is None,
            },
    {
        let n = self.users.len();
        let mut i: usize = 0;
        proof {
            assert(self.users@.skip(0) =~= self.users@);
        }
        while i < n
            invariant
                0 <= i <= n,
                n == self.users@.len(),
                forall|j: int| 0 <= j < i ==> (#[trigger] self.users@[j]).id@ != the_id@,
                first_user_by_id(self.users@, the_id@) == first_user_by_id(
                    self.users@.skip(i as int),
                    the_id@,
                ),
            decreases n - i,
        {
            if str_eq(self.users[i].id.as_str(), the_id) {
                proof {
                    assert(self.users@.skip(i as int)[0] == self.users@[i as int]);
                }
                return Some(&self.users[i]);
            }
            proof {
                assert(self.users@.skip(i as int).skip(1) =~= self.users@.skip(i as int + 1));
            }
            i = i + 1;
        }
        None
    }

    /// The first user carrying the given mail address, in store order.
    pub fn find_user_by_email(&self, email: &str) -> (r: Option<&User>)
        ensures
            match r {
                Some(u) => first_user_by_email(self.users@, email@) == Some(*u),
                None => first_user_by_email(self.users@, email@) is None,
            },
    {
        let n = self.users.len();
        let mut i: usize = 0;
        proof {
            assert(self.users@.skip(0) =~= self.users@);
        }
        while i < n
            invariant
                0 <= i <= n,
                n == self.users@.len(),
                first_user_by_email(self.users@, email@) == first_user_by_email(
                    self.users@.skip(i as int),
                    email@,
                ),
            decreases n - i,
        {
            if str_eq(self.users[i].email.as_str(), email) {
                proof {
                    assert(self.users@.skip(i as int)[0] == self.users@[i as int]);
                }
                return Some(&self.users[i]);
            }
            proof {
                assert(self.users@.skip(i as int).skip(1) =~= self.users@.skip(i as int + 1));
            }
            i = i + 1;
        }
        None
    }

    pub fn find_coach(&self, the_id: &str) -> (r: Option<&Coach>)
        ensures
            match r {
                Some(c) => self.coaches@.contains(*c) && c.id@ == the_id@ && first_coach_by_id(
                    self.coaches@,
                    the_id@,
                ) == Some(*c),
                None => (forall|i: int|
                    0 <= i < self.coaches@.len() ==> (#[trigger] self.coaches@[i]).id@ != the_id@)
                    && first_coach_by_id(self.coaches@, the_id@) is None,
            },
    {
        let n = self.coaches.len();
        let mut i: usize = 0;
        proof {
            assert(self.coaches@.skip(0) =~= self.coaches@);
        }
        while i < n
            invariant
                0 <= i <= n,
                n == self.coaches@.len(),
                forall|j: int| 0 <= j < i ==> (#[trigger] self.coaches@[j]).id@ != the_id@,
                first_coach_by_id(self.coaches@, the_id@) == first_coach_by_id(
                    self.coaches@.skip(i as int),
                    the_id@,
                ),
            decreases n - i,
        {
            if str_eq(self.coaches[i].id.as_str(), the_id) {
                proof {
                    assert(self.coaches@.skip(i as int)[0] == self.coaches@[i as int]);
                }
                return Some(&self.coaches[i]);
            }
            proof {
                assert(self.coaches@.skip(i as int).skip(1) =~= self.coaches@.skip(i as int + 1));
            }
            i = i + 1;
        }
        None
    }

    /// The first coach carrying the given mail address, in store order.
    pub fn find_coach_by_email(&self, email: &str) -> (r: Option<&Coach>)
        ensures
            match r {
                Some(c) => first_coach_by_email(self.coaches@, email@) == Some(*c),
                None => first_coach_by_email(self.coaches@, email@) is None,
            },
    {
        let n = self.coaches.len();
        let mut i: usize = 0;
        proof {
            assert(self.coaches@.skip(0) =~= self.coaches@);
        }
        while i < n
            invariant
                0 <= i <= n,
                n == self.coaches@.len(),
                first_coach_by_email(self.coaches@, email@) == first_coach_by_email(
                    self.coaches@.skip(i as int),
                    email@,
                ),
            decreases n - i,
        {
            if str_eq(self.coaches[i].email.as_str(), email) {
                proof {
                    assert(self.coaches@.skip(i as int)[0] == self.coaches@[i as int]);
                }
                return Some(&self.coaches[i]);
            }
            proof {
                assert(self.coaches@.skip(i as int).skip(1) =~= self.coaches@.skip(i as int + 1));
            }
            i = i + 1;
        }
        None
    }

    pub fn find_program(&self, the_id: &str) -> (r: Option<&Program>)
        ensures
            match r {
                Some(p) => self.programs@.contains(*p) && p.id@ == the_id@
                    && first_program_by_id(self.programs@, the_id@) == Some(*p),
                None => (forall|i: int|
                    0 <= i < self.programs@.len() ==> (#[trigger] self.programs@[i]).id@
                        != the_id@) && first_program_by_id(self.programs@, the_id@) is None,
            },
    {
        let n = self.programs.len();
        let mut i: usize = 0;
        proof {
            assert(self.programs@.skip(0) =~= self.programs@);
        }
        while i < n
            invariant
                0 <= i <= n,
                n == self.programs@.len(),
                forall|j: int| 0 <= j < i ==> (#[trigger] self.programs@[j]).id@ != the_id@,
                first_program_by_id(self.programs@, the_id@) == first_program_by_id(
                    self.programs@.skip(i as int),
                    the_id@,
                ),
            decreases n - i,
        {
            if str_eq(self.programs[i].id.as_str(), the_id) {
                proof {
                    assert(self.programs@.skip(i as int)[0] == self.programs@[i as int]);
                }
                return Some(&self.programs[i]);
            }
            proof {
                assert(self.programs@.skip(i as int).skip(1) =~= self.programs@.skip(
                    i as int + 1,
                ));
            }
            i = i + 1;
        }
        None
    }

    pub fn find_enrollment(&self, program_id: &str, member_id: &str) -> (r: Option<&Enrollment>)
        ensures
            match r {
                Some(e) => self.enrollments@.contains(*e) && e.program_id@ == program_id@
                    && e.member_id@ == member_id@,
                None => forall|i: int|
                    0 <= i < self.enrollments@.len() ==> !((#[trigger] self.enrollments@[i]).program_id@
                        == program_id@ && self.enrollments@[i].member_id@ == member_id@),
            },
    {
        let n = self.enrollments.len();
        let mut i: usize = 0;
        while i < n
            invariant
                0 <= i <= n,
                n == self.enrollments@.len(),
                forall|j: int|
                    0 <= j < i ==> !((#[trigger] self.enrollments@[j]).program_id@ == program_id@
                        && self.enrollments@[j].member_id@ == member_id@),
            decreases n - i,
        {
            if str_eq(self.enrollments[i].program_id.as_str(), program_id) && str_eq(
                self.enrollments[i].member_id.as_str(),
                member_id,
            ) {
                return Some(&self.enrollments[i]);
            }
            i = i + 1;
        }
        None
    }

    pub fn find_enrollment_index(&self, the_id: &str) -> (r: Option<usize>)
        ensures
            match r {
                Some(ix) => ix < self.enrollments@.len() && self.enrollments@[ix as int].id@
                    == the_id@,
                None => forall|i: int|
                    0 <= i < self.enrollments@.len() ==> (#[trigger] self.enrollments@[i]).id@
                        != the_id@,
            },
    {
        let n = self.enrollments.len();
        let mut i: usize = 0;
        while i < n
            invariant
                0 <= i <= n,
                n == self.enrollments@.len(),
                forall|j: int| 0 <= j < i ==> (#[trigger] self.enrollments@[j]).id@ != the_id@,
            decreases n - i,
        {
            if str_eq(self.enrollments[i].id.as_str(), the_id) {
                return Some(i);
            }
            i = i + 1;
        }
        None
    }

    pub fn find_task_index(&self, the_id: &str) -> (r: Option<usize>)
        ensures
            match r {
                Some(ix) => ix < self.tasks@.len() && self.tasks@[ix as int].id@ == the_id@,
                None => forall|i: int|
                    0 <= i < self.tasks@.len() ==> (#[trigger] self.tasks@[i]).id@ != the_id@,
            },
    {
        let n = self.tasks.len();
        let mut i: usize = 0;
        while i < n
            invariant
                0 <= i <= n,
                n == self.tasks@.len(),
                forall|j: int| 0 <= j < i ==> (#[trigger] self.tasks@[j]).id@ != the_id@,
            decreases n - i,
        {
            if str_eq(self.tasks[i].id.as_str(), the_id) {
                return Some(i);
            }
            i = i + 1;
        }
        None
    }

    pub fn find_session_index(&self, the_id: &str) -> (r: Option<usize>)
        ensures
            match r {
                Some(ix) => ix < self.sessions@.len() && self.sessions@[ix as int].id@ == the_id@,
                None => forall|i: int|
                    0 <= i < self.sessions@.len() ==> (#[trigger] self.sessions@[i]).id@
                        != the_id@,
            },
    {
        let n = self.sessions.len();
        let mut i: usize = 0;
        while i < n
            invariant
                0 <= i <= n,
                n == self.sessions@.len(),
                forall|j: int| 0 <= j < i ==> (#[trigger] self.sessions@[j]).id@ != the_id@,
            decreases n - i,
        {
            if str_eq(self.sessions[i].id.as_str(), the_id) {
                return Some(i);
            }
            i = i + 1;
        }
        None
    }

    pub fn find_objective_index(&self, the_id: &str) -> (r: Option<usize>)
        ensures
            match r {
                Some(ix) => ix < self.objectives@.len() && self.objectives@[ix as int].id@
                    == the_id@,
                None => forall|i: int|
                    0 <= i < self.objectives@.len() ==> (#[trigger] self.objectives@[i]).id@
                        != the_id@,
            },
    {
        let n = self.objectives.len();
        let mut i: usize = 0;
        while i < n
            invariant
                0 <= i <= n,
                n == self.objectives@.len(),
                forall|j: int| 0 <= j < i ==> (#[trigger] self.objectives@[j]).id@ != the_id@,
            decreases n - i,
        {
            if str_eq(self.objectives[i].id.as_str(), the_id) {
                return Some(i);
            }
            i = i + 1;
        }
        None
    }
}

/// The first user with the given mail address, in store order.
pub open spec fn first_user_by_email(us: Seq<User>, email: Seq<char>) -> Option<User>
    decreases us.len(),
{
    if us.len() == 0 {
        None
    } else if us[0].email@ == email {
        Some(us[0])
    } else {
        first_user_by_email(us.skip(1), email)
    }
}

/// The first coach with the given mail address, in store order.
pub open spec fn first_coach_by_email(cs: Seq<Coach>, email: Seq<char>) -> Option<Coach>
    decreases cs.len(),
{
    if cs.len() == 0 {
        None
    } else if cs[0].email@ == email {
        Some(cs[0])
    } else {
        first_coach_by_email(cs.skip(1), email)
    }
}

/// Every table except `programs` kept as it was, the outbox included.
pub open spec fn same_but_programs(s0: Store, s1: Store) -> bool {
    &&& s1.users == s0.users
    &&& s1.coaches == s0.coaches
    &&& s1.enrollments == s0.enrollments
    &&& s1.tasks == s0.tasks
    &&& s1.sessions == s0.sessions
    &&& s1.objectives == s0.objectives
    &&& s1.outbox == s0.outbox
}

/// Every table except `enrollments` and the outbox kept as it was.
pub open spec fn same_but_enrollments(s0: Store, s1: Store) -> bool {
    &&& s1.users == s0.users
    &&& s1.coaches == s0.coaches
    &&& s1.programs == s0.programs
    &&& s1.tasks == s0.tasks
    &&& s1.sessions == s0.sessions
    &&& s1.objectives == s0.objectives
}

/// Every table except `tasks` kept as it was.
pub open spec fn same_but_tasks(s0: Store, s1: Store) -> bool {
    &&& s1.users == s0.users
    &&& s1.coaches == s0.coaches
    &&& s1.programs == s0.programs
    &&& s1.enrollments == s0.enrollments
    &&& s1.sessions == s0.sessions
    &&& s1.objectives == s0.objectives
    &&& s1.outbox == s0.outbox
}

/// Every table except `sessions` kept as it was.
pub open spec fn same_but_sessions(s0: Store, s1: Store) -> bool {
    &&& s1.users == s0.users
    &&& s1.coaches == s0.coaches
    &&& s1.programs == s0.programs
    &&& s1.enrollments == s0.enrollments
    &&& s1.tasks == s0.tasks
    &&& s1.objectives == s0.objectives
    &&& s1.outbox == s0.outbox
}

/// Every table except `objectives` kept as it was.
pub open spec fn same_but_objectives(s0: Store, s1: Store) -> bool {
    &&& s1.users == s0.users
    &&& s1.coaches == s0.coaches
    &&& s1.programs == s0.programs
    &&& s1.enrollments == s0.enrollments
    &&& s1.tasks == s0.tasks
    &&& s1.sessions == s0.sessions
    &&& s1.outbox == s0.outbox
}

/// The first user with the given identity, in store order.
pub open spec fn first_user_by_id(us: Seq<User>, id: Seq<char>) -> Option<User>
    decreases us.len(),
{
    if us.len() == 0 {
        None
    } else if us[0].id@ == id {
        Some(us[0])
    } else {
        first_user_by_id(us.skip(1), id)
    }
}

/// Some user row carries the given identity.
pub open spec fn has_user_id(s: Store, id: Seq<char>) -> bool {
    exists|i: int| 0 <= i < s.users@.len() && (#[trigger] s.users@[i]).id@ == id
}

/// The first coach with the given identity, in store order.
pub open spec fn first_coach_by_id(cs: Seq<Coach>, id: Seq<char>) -> Option<Coach>
    decreases cs.len(),
{
    if cs.len() == 0 {
        None
    } else if cs[0].id@ == id {
        Some(cs[0])
    } else {
        first_coach_by_id(cs.skip(1), id)
    }
}

/// The first program with the given identity, in store order.
pub open spec fn first_program_by_id(ps: Seq<Program>, id: Seq<char>) -> Option<Program>
    decreases ps.len(),
{
    if ps.len() == 0 {
        None
    } else if ps[0].id@ == id {
        Some(ps[0])
    } else {
        first_program_by_id(ps.skip(1), id)
    }
}

/// Some program row carries the given identity.
pub open spec fn has_program_id(s: Store, id: Seq<char>) -> bool {
    exists|i: int| 0 <= i < s.programs@.len() && (#[trigger] s.programs@[i]).id@ == id
}

/// The program row carrying the given identity, among the given rows.
pub open spec fn program_in(ps: Seq<Program>, id: Seq<char>) -> Program {
    choose|p: Program| ps.contains(p) && p.id@ == id
}

/// The program row carrying the given identity; under `wf` there is at most
/// one.
pub open spec fn program_by_id(s: Store, id: Seq<char>) -> Program {
    program_in(s.programs@, id)
}

/// A contained program row is the row `program_by_id` names.
pub proof fn lemma_program_by_id(s: Store, p: Program)
    requires
        s.wf(),
        s.programs@.contains(p),
    ensures
        has_program_id(s, p.id@),
        program_by_id(s, p.id@) == p,
{
    let i = choose|i: int| 0 <= i < s.programs@.len() && s.programs@[i] == p;
    assert(s.programs@[i].id@ == p.id@);
    let q = program_by_id(s, p.id@);
    assert(s.programs@.contains(q) && q.id@ == p.id@);
    let j = choose|j: int| 0 <= j < s.programs@.len() && s.programs@[j] == q;
    lemma_program_id_unique(&s, i, j);
}

/// Appending a program whose parent link lands on a root keeps the hierarchy
/// two levels deep.
pub proof fn lemma_root_link_push(ps: Seq<Program>, p: Program)
    requires
        root_link(ps),
        p.lineage is Spawned ==> has_root(ps, p.lineage->root_id@),
    ensures
        root_link(ps.push(p)),
{
    let grown = ps.push(p);
    assert forall|i: int|
        0 <= i < grown.len() && (#[trigger] grown[i]).lineage is Spawned implies has_root(
        grown,
        grown[i].lineage->root_id@,
    ) by {
        let rid = grown[i].lineage->root_id@;
        if i < ps.len() {
            assert(grown[i] == ps[i]);
            assert(has_root(ps, rid));
        }
        let j = choose|j: int| 0 <= j < ps.len() && ps[j].id@ == rid && ps[j].lineage is Root;
        assert(grown[j] == ps[j]);
    }
}

/// The first user under a mail address is a user row carrying that address.
pub proof fn lemma_first_user_by_email_contains(us: Seq<User>, email: Seq<char>)
    requires
        first_user_by_email(us, email) is Some,
    ensures
        us.contains(first_user_by_email(us, email)->0),
        first_user_by_email(us, email)->0.email@ == email,
    decreases us.len(),
{
    if us.len() == 0 {
    } else if us[0].email@ == email {
    } else {
        lemma_first_user_by_email_contains(us.skip(1), email);
        let u = first_user_by_email(us, email)->0;
        let i = choose|i: int| 0 <= i < us.skip(1).len() && us.skip(1)[i] == u;
        assert(us[i + 1] == u);
    }
}

/// Some enrollment links the given program and member.
pub open spec fn has_enrollment_pair(s: Store, pid: Seq<char>, mid: Seq<char>) -> bool {
    exists|i: int|
        0 <= i < s.enrollments@.len() && (#[trigger] s.enrollments@[i]).program_id@ == pid
            && s.enrollments@[i].member_id@ == mid
}

/// A contained program row carries an identifier this store minted.
pub proof fn lemma_program_id_in_range(s: Store, p: Program)
    requires
        s.wf(),
        s.programs@.contains(p),
    ensures
        id_in_range(p.id@, s.next_id as nat),
{
    let i = choose|i: int| 0 <= i < s.programs@.len() && s.programs@[i] == p;
    assert(program_ids(s.programs@)[i] == p.id@);
}

/// A contained user row carries an identifier this store minted.
pub proof fn lemma_user_id_in_range(s: Store, u: User)
    requires
        s.wf(),
        s.users@.contains(u),
    ensures
        id_in_range(u.id@, s.next_id as nat),
{
    let i = choose|i: int| 0 <= i < s.users@.len() && s.users@[i] == u;
    assert(user_ids(s.users@)[i] == u.id@);
}

/// Some task row carries the given identity.
pub open spec fn has_task_id(s: Store, id: Seq<char>) -> bool {
    exists|i: int| 0 <= i < s.tasks@.len() && (#[trigger] s.tasks@[i]).id@ == id
}

/// The task row carrying the given identity; under `wf` there is at most one.
pub open spec fn task_by_id(s: Store, id: Seq<char>) -> Task {
    choose|t: Task| s.tasks@.contains(t) && t.id@ == id
}

/// The task row at a found index is the row `task_by_id` names.
pub proof fn lemma_task_by_id(s: Store, ix: int)
    requires
        s.wf(),
        0 <= ix < s.tasks@.len(),
    ensures
        has_task_id(s, s.tasks@[ix].id@),
        task_by_id(s, s.tasks@[ix].id@) == s.tasks@[ix],
{
    let t = s.tasks@[ix];
    assert(s.tasks@.contains(t));
    let q = task_by_id(s, t.id@);
    assert(s.tasks@.contains(q) && q.id@ == t.id@);
    let j = choose|j: int| 0 <= j < s.tasks@.len() && s.tasks@[j] == q;
    if j != ix {
        assert(task_ids(s.tasks@)[j] == q.id@);
        assert(task_ids(s.tasks@)[ix] == t.id@);
    }
}

/// Some session row carries the given identity.
pub open spec fn has_session_id(s: Store, id: Seq<char>) -> bool {
    exists|i: int| 0 <= i < s.sessions@.len() && (#[trigger] s.sessions@[i]).id@ == id
}

/// The session row carrying the given identity; under `wf` there is at most
/// one.
pub open spec fn session_by_id(s: Store, id: Seq<char>) -> Session {
    choose|t: Session| s.sessions@.contains(t) && t.id@ == id
}

/// The session row at a found index is the row `session_by_id` names.
pub proof fn lemma_session_by_id(s: Store, ix: int)
    requires
        s.wf(),
        0 <= ix < s.sessions@.len(),
    ensures
        has_session_id(s, s.sessions@[ix].id@),
        session_by_id(s, s.sessions@[ix].id@) == s.sessions@[ix],
{
    let t = s.sessions@[ix];
    assert(s.sessions@.contains(t));
    let q = session_by_id(s, t.id@);
    assert(s.sessions@.contains(q) && q.id@ == t.id@);
    let j = choose|j: int| 0 <= j < s.sessions@.len() && s.sessions@[j] == q;
    if j != ix {
        assert(session_ids(s.sessions@)[j] == q.id@);
        assert(session_ids(s.sessions@)[ix] == t.id@);
    }
}

/// Some objective row carries the given identity.
pub open spec fn has_objective_id(s: Store, id: Seq<char>) -> bool {
    exists|i: int| 0 <= i < s.objectives@.len() && (#[trigger] s.objectives@[i]).id@ == id
}

/// The objective row carrying the given identity; under `wf` there is at
/// most one.
pub open spec fn objective_by_id(s: Store, id: Seq<char>) -> Objective {
    choose|t: Objective| s.objectives@.contains(t) && t.id@ == id
}

/// The objective row at a found index is the row `objective_by_id` names.
pub proof fn lemma_objective_by_id(s: Store, ix: int)
    requires
        s.wf(),
        0 <= ix < s.objectives@.len(),
    ensures
        has_objective_id(s, s.objectives@[ix].id@),
        objective_by_id(s, s.objectives@[ix].id@) == s.objectives@[ix],
{
    let t = s.objectives@[ix];
    assert(s.objectives@.contains(t));
    let q = objective_by_id(s, t.id@);
    assert(s.objectives@.contains(q) && q.id@ == t.id@);
    let j = choose|j: int| 0 <= j < s.objectives@.len() && s.objectives@[j] == q;
    if j != ix {
        assert(objective_ids(s.objectives@)[j] == q.id@);
        assert(objective_ids(s.objectives@)[ix] == t.id@);
    }
}

impl Store {
    /// Rewrites the task row at `ix`, keeping its identity; no other row
    /// moves.
    pub fn replace_task(&mut self, ix: usize, row: Task)
        requires
            old(self).wf(),
            ix < old(self).tasks@.len(),
            row.id@ == old(self).tasks@[ix as int].id@,
        ensures
            final(self).wf(),
            same_but_tasks(*old(self), *final(self)),
            final(self).next_id == old(self).next_id,
            final(self).tasks@.len() == old(self).tasks@.len(),
            forall|i: int|
                0 <= i < old(self).tasks@.len() ==> final(self).tasks@[i] == (if (#[trigger] old(
                    self,
                ).tasks@[i]).id@ == row.id@ {
                    row
                } else {
                    old(self).tasks@[i]
                }),
    {
        let ghost the_id = row.id@;
        self.tasks[ix] = row;
        proof {
            assert(task_ids(self.tasks@) =~= task_ids(old(self).tasks@));
            assert forall|i: int|
                0 <= i < old(self).tasks@.len() implies self.tasks@[i] == (if (#[trigger] old(
                self,
            ).tasks@[i]).id@ == the_id {
                self.tasks@[ix as int]
            } else {
                old(self).tasks@[i]
            }) by {
                if i != ix && old(self).tasks@[i].id@ == the_id {
                    assert(task_ids(old(self).tasks@)[i] == old(self).tasks@[i].id@);
                    assert(task_ids(old(self).tasks@)[ix as int] == old(
                        self,
                    ).tasks@[ix as int].id@);
                }
            }
        }
    }

    /// Rewrites the session row at `ix`, keeping its identity; no other row
    /// moves.
    pub fn replace_session(&mut self, ix: usize, row: Session)
        requires
            old(self).wf(),
            ix < old(self).sessions@.len(),
            row.id@ == old(self).sessions@[ix as int].id@,
        ensures
            final(self).wf(),
            same_but_sessions(*old(self), *final(self)),
            final(self).next_id == old(self).next_id,
            final(self).sessions@.len() == old(self).sessions@.len(),
            forall|i: int|
                0 <= i < old(self).sessions@.len() ==> final(self).sessions@[i] == (
                if (#[trigger] old(self).sessions@[i]).id@ == row.id@ {
                    row
                } else {
                    old(self).sessions@[i]
                }),
    {
        let ghost the_id = row.id@;
        self.sessions[ix] = row;
        proof {
            assert(session_ids(self.sessions@) =~= session_ids(old(self).sessions@));
            assert forall|i: int|
                0 <= i < old(self).sessions@.len() implies self.sessions@[i] == (
            if (#[trigger] old(self).sessions@[i]).id@ == the_id {
                self.sessions@[ix as int]
            } else {
                old(self).sessions@[i]
            }) by {
                if i != ix && old(self).sessions@[i].id@ == the_id {
                    assert(session_ids(old(self).sessions@)[i] == old(self).sessions@[i].id@);
                    assert(session_ids(old(self).sessions@)[ix as int] == old(
                        self,
                    ).sessions@[ix as int].id@);
                }
            }
        }
    }

    /// Rewrites the objective row at `ix`, keeping its identity; no other
    /// row moves.
    pub fn replace_objective(&mut self, ix: usize, row: Objective)
        requires
            old(self).wf(),
            ix < old(self).objectives@.len(),
            row.id@ == old(self).objectives@[ix as int].id@,
        ensures
            final(self).wf(),
            same_but_objectives(*old(self), *final(self)),
            final(self).next_id == old(self).next_id,
            final(self).objectives@.len() == old(self).objectives@.len(),
            forall|i: int|
                0 <= i < old(self).objectives@.len() ==> final(self).objectives@[i] == (
                if (#[trigger] old(self).objectives@[i]).id@ == row.id@ {
                    row
                } else {
                    old(self).objectives@[i]
                }),
    {
        let ghost the_id = row.id@;
        self.objectives[ix] = row;
        proof {
            assert(objective_ids(self.objectives@) =~= objective_ids(old(self).objectives@));
            assert forall|i: int|
                0 <= i < old(self).objectives@.len() implies self.objectives@[i] == (
            if (#[trigger] old(self).objectives@[i]).id@ == the_id {
                self.objectives@[ix as int]
            } else {
                old(self).objectives@[i]
            }) by {
                if i != ix && old(self).objectives@[i].id@ == the_id {
                    assert(objective_ids(old(self).objectives@)[i] == old(
                        self,
                    ).objectives@[i].id@);
                    assert(objective_ids(old(self).objectives@)[ix as int] == old(
                        self,
                    ).objectives@[ix as int].id@);
                }
            }
        }
    }
}

/// Two program rows with one identity are one row.
pub proof fn lemma_program_id_unique(s: &Store, i: int, j: int)
    requires
        s.wf(),
        0 <= i < s.programs@.len(),
        0 <= j < s.programs@.len(),
        s.programs@[i].id@ == s.programs@[j].id@,
    ensures
        i == j,
{
    if i != j {
        assert(program_ids(s.programs@)[i] == s.programs@[i].id@);
        assert(program_ids(s.programs@)[j] == s.programs@[j].id@);
    }
}

/// The member already holds an enrollment in some program of the family.
pub open spec fn enrollment_in_family(s: Store, member_id: Seq<char>, family: Seq<char>) -> bool {
    exists|i: int, j: int|
        #![trigger s.enrollments@[i], s.programs@[j]]
        0 <= i < s.enrollments@.len() && 0 <= j < s.programs@.len() && s.enrollments@[i].member_id@
            == member_id && s.programs@[j].id@ == s.enrollments@[i].program_id@
            && s.programs@[j].spec_coalesce_parent_id() == family
}

/// Some program of the family is already owned by the given coach.
pub open spec fn coach_in_family(s: Store, coach_id: Seq<char>, family: Seq<char>) -> bool {
    exists|j: int|
        0 <= j < s.programs@.len() && (#[trigger] s.programs@[j]).coach_id@ == coach_id
            && s.programs@[j].spec_coalesce_parent_id() == family
}

impl Store {
    /// Does the member already hold an enrollment anywhere in the family?
    /// This is the admission gate of the enrollment controller.
    pub fn member_enrolled_in_family(&self, member_id: &str, family: &str) -> (r: bool)
        requires
            self.wf(),
        ensures
            r == enrollment_in_family(*self, member_id@, family@),
    {
        let n = self.enrollments.len();
        let mut i: usize = 0;
        while i < n
            invariant
                0 <= i <= n,
                n == self.enrollments@.len(),
                self.wf(),
                forall|i0: int, j0: int|
                    #![trigger self.enrollments@[i0], self.programs@[j0]]
                    0 <= i0 < i && 0 <= j0 < self.programs@.len() ==> !(self.enrollments@[i0].member_id@
                        == member_id@ && self.programs@[j0].id@ == self.enrollments@[i0].program_id@
                        && self.programs@[j0].spec_coalesce_parent_id() == family@),
            decreases n - i,
        {
            if str_eq(self.enrollments[i].member_id.as_str(), member_id) {
                match self.find_program(self.enrollments[i].program_id.as_str()) {
                    Some(p) => {
                        if str_eq(p.coalesce_parent_id(), family) {
                            proof {
                                let j = choose|j: int|
                                    0 <= j < self.programs@.len() && self.programs@[j] == *p;
                                assert(self.enrollments@[i as int].member_id@ == member_id@);
                                assert(self.programs@[j].id@ == self.enrollments@[i as int].program_id@);
                            }
                            return true;
                        }
                        proof {
                            let pj = choose|j: int|
                                0 <= j < self.programs@.len() && self.programs@[j] == *p;
                            assert forall|j0: int|
                                0 <= j0 < self.programs@.len() && self.programs@[j0].id@
                                    == self.enrollments@[i as int].program_id@ implies self.programs@[j0].spec_coalesce_parent_id()
                                != family@ by {
                                lemma_program_id_unique(self, j0, pj);
                            }
                        }
                    },
                    None => {},
                }
            }
            i = i + 1;
        }
        false
    }

    /// Is some program of the family already owned by the coach?
    /// This is the "already associated" gate of the hierarchy service.
    pub fn coach_owns_in_family(&self, coach_id: &str, family: &str) -> (r: bool)
        ensures
            r == coach_in_family(*self, coach_id@, family@),
    {
        let n = self.programs.len();
        let mut i: usize = 0;
        while i < n
            invariant
                0 <= i <= n,
                n == self.programs@.len(),
                forall|j0: int|
                    0 <= j0 < i ==> !((#[trigger] self.programs@[j0]).coach_id@ == coach_id@
                        && self.programs@[j0].spec_coalesce_parent_id() == family@),
            decreases n - i,
        {
            if str_eq(self.programs[i].coach_id.as_str(), coach_id) && str_eq(
                self.programs[i].coalesce_parent_id(),
                family,
            ) {
                return true;
            }
            i = i + 1;
        }
        false
    }
}

} // verus!
