//! Programs and the two-level family they form.
//!
//! A family is one root program plus the peer programs spawned from it, one
//! per associated coach. The shape is carried by `ProgramLineage`, so a
//! spawned program can never itself be a parent.

use vstd::prelude::*;

verus! {

use crate::commons::chassis::{errs_match, ValidationError};
use crate::models::coaches::Coach;
use crate::text::{is_blank, is_blank_str};

/// Where a program stands in its family: the root, or a peer spawned under
/// the root with the given identity.
pub enum ProgramLineage {
    Root,
    Spawned { root_id: String },
}

impl Clone for ProgramLineage {
    fn clone(&self) -> (r: Self)
        ensures
            r == *self,
    {
        match self {
            ProgramLineage::Root => ProgramLineage::Root,
            ProgramLineage::Spawned { root_id } => ProgramLineage::Spawned {
                root_id: root_id.clone(),
            },
        }
    }
}

pub struct Program {
    pub id: String,
    pub name: String,
    pub description: String,
    pub coach_id: String,
    pub lineage: ProgramLineage,
    pub active: bool,
    pub created_at: i64,
}

impl Clone for Program {
    fn clone(&self) -> (r: Self)
        ensures
            r == *self,
    {
        Program {
            id: self.id.clone(),
            name: self.name.clone(),
            description: self.description.clone(),
            coach_id: self.coach_id.clone(),
            lineage: self.lineage.clone(),
            active: self.active,
            created_at: self.created_at,
        }
    }
}

impl Program {
    /// A root program anchors its family.
    pub open spec fn spec_is_parent(&self) -> bool {
        self.lineage is Root
    }

    /// The identity of the family this program belongs to: its own identity
    /// for a root, the root's identity for a spawned peer.
    pub open spec fn spec_coalesce_parent_id(&self) -> Seq<char> {
        match self.lineage {
            ProgramLineage::Root => self.id@,
            ProgramLineage::Spawned { root_id } => root_id@,
        }
    }

    pub fn id(&self) -> (r: &str)
        ensures
            r@ == self.id@,
    {
        self.id.as_str()
    }

    pub fn name(&self) -> (r: &str)
        ensures
            r@ == self.name@,
    {
        self.name.as_str()
    }

    pub fn description(&self) -> (r: &str)
        ensures
            r@ == self.description@,
    {
        self.description.as_str()
    }

    pub fn coach_id(&self) -> (r: &str)
        ensures
            r@ == self.coach_id@,
    {
        self.coach_id.as_str()
    }

    pub fn is_parent(&self) -> (r: bool)
        ensures
            r == self.spec_is_parent(),
    {
        match &self.lineage {
            ProgramLineage::Root => true,
            ProgramLineage::Spawned { .. } => false,
        }
    }

    pub fn parent_program_id(&self) -> (r: Option<&String>)
        ensures
            self.lineage is Spawned ==> r is Some && r->0@ == self.lineage->root_id@,
            self.lineage is Root ==> r is None,
    {
        match &self.lineage {
            ProgramLineage::Root => None,
            ProgramLineage::Spawned { root_id } => Some(root_id),
        }
    }

    pub fn active(&self) -> (r: bool)
        ensures
            r == self.active,
    {
        self.active
    }

    /// The family identity, as text.
    pub fn coalesce_parent_id(&self) -> (r: &str)
        ensures
            r@ == self.spec_coalesce_parent_id(),
    {
        match &self.lineage {
            ProgramLineage::Root => self.id.as_str(),
            ProgramLineage::Spawned { root_id } => root_id.as_str(),
        }
    }
}

pub struct NewProgramRequest {
    pub name: String,
    pub description: String,
    pub coach_id: String,
}

pub open spec fn new_program_errors(req: NewProgramRequest) -> Seq<(Seq<char>, Seq<char>)> {
    (if is_blank_str(req.name@) {
        seq![("name"@, "The name of the program is a must."@)]
    } else {
        Seq::empty()
    }) + (if is_blank_str(req.coach_id@) {
        seq![("coach_id"@, "The coach id is a must."@)]
    } else {
        Seq::empty()
    })
}

impl NewProgramRequest {
    pub fn validate(&self) -> (r: Vec<ValidationError>)
        ensures
            errs_match(r@, new_program_errors(*self)),
    {
        let mut errors: Vec<ValidationError> = Vec::new();
        if is_blank(self.name.as_str()) {
            errors.push(ValidationError::new("name", "The name of the program is a must."));
        }
        if is_blank(self.coach_id.as_str()) {
            errors.push(ValidationError::new("coach_id", "The coach id is a must."));
        }
        errors
    }
}

pub struct AssociateCoachRequest {
    pub program_id: String,
    pub peer_coach_email: String,
}

#[derive(Clone, Copy, Debug, PartialEq, Eq, Structural)]
pub enum ProgramTargetState {
    ACTIVATE,
    DEACTIVATE,
}

pub struct ChangeProgramStateRequest {
    pub id: String,
    pub target_state: ProgramTargetState,
}

/// One peer offering: a program of the family joined with its coach.
pub struct ProgramCoach {
    pub program: Program,
    pub coach: Coach,
}

impl ProgramCoach {
    pub fn program(&self) -> (r: &Program)
        ensures
            *r == self.program,
    {
        &self.program
    }

    pub fn coach(&self) -> (r: &Coach)
        ensures
            *r == self.coach,
    {
        &self.coach
    }
}

} // verus!
