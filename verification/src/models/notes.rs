//! Session notes and the files attached to them.

use vstd::prelude::*;

verus! {

use crate::commons::chassis::{errs_match, ValidationError};
use crate::text::{clone_opt_string, is_blank, is_blank_str};

pub struct Note {
    pub id: i32,
    pub fuzzy_id: String,
    pub session_id: i32,
    pub description: String,
    pub remind_at: Option<i64>,
    pub created_by_id: i32,
    pub is_private: bool,
    pub created_at: i64,
    pub updated_at: i64,
}

impl Clone for Note {
    fn clone(&self) -> (r: Self)
        ensures
            r == *self,
    {
        Note {
            id: self.id,
            fuzzy_id: self.fuzzy_id.clone(),
            session_id: self.session_id,
            description: self.description.clone(),
            remind_at: self.remind_at,
            created_by_id: self.created_by_id,
            is_private: self.is_private,
            created_at: self.created_at,
            updated_at: self.updated_at,
        }
    }
}

impl Note {
    pub fn fuzzy_id(&self) -> (r: &str)
        ensures
            r@ == self.fuzzy_id@,
    {
        self.fuzzy_id.as_str()
    }

    pub fn description(&self) -> (r: &str)
        ensures
            r@ == self.description@,
    {
        self.description.as_str()
    }

    pub fn created_by_id(&self) -> (r: i32)
        ensures
            r == self.created_by_id,
    {
        self.created_by_id
    }

    pub fn is_private(&self) -> (r: bool)
        ensures
            r == self.is_private,
    {
        self.is_private
    }

    pub fn remind_at(&self) -> (r: Option<i64>)
        ensures
            r == self.remind_at,
    {
        self.remind_at
    }

    pub fn updated_at(&self) -> (r: i64)
        ensures
            r == self.updated_at,
    {
        self.updated_at
    }
}

pub struct NewNoteRequest {
    pub session_id: i32,
    pub created_by_id: i32,
    pub description: String,
    pub files: Option<Vec<FileRequest>>,
}

pub struct FileRequest {
    pub path: String,
    pub name: String,
    pub kind: String,
    pub size: i32,
}

pub open spec fn new_note_errors(req: NewNoteRequest) -> Seq<(Seq<char>, Seq<char>)> {
    (if req.session_id <= 0 {
        seq![("session_id"@, "Session id is invalid."@)]
    } else {
        Seq::empty()
    }) + (if req.created_by_id <= 0 {
        seq![("created_by_id"@, "User id is invalid."@)]
    } else {
        Seq::empty()
    }) + (if is_blank_str(req.description@) {
        seq![("desciption"@, "description of the program is a must."@)]
    } else {
        Seq::empty()
    })
}

impl NewNoteRequest {
    pub fn validate(&self) -> (r: Vec<ValidationError>)
        ensures
            errs_match(r@, new_note_errors(*self)),
    {
        let mut errors: Vec<ValidationError> = Vec::new();
        if self.session_id <= 0 {
            errors.push(ValidationError::new("session_id", "Session id is invalid."));
        }
        if self.created_by_id <= 0 {
            errors.push(ValidationError::new("created_by_id", "User id is invalid."));
        }
        if is_blank(self.description.as_str()) {
            errors.push(ValidationError::new("desciption", "description of the program is a must."));
        }
        errors
    }
}

/// The row shape a note is inserted with.
pub struct NewNote {
    pub session_id: i32,
    pub created_by_id: i32,
    pub description: String,
    pub fuzzy_id: String,
}

impl NewNote {
    pub fn from(request: &NewNoteRequest, fuzzy_id: String) -> (r: NewNote)
        ensures
            r.session_id == request.session_id,
            r.created_by_id == request.created_by_id,
            r.description@ == request.description@,
            r.fuzzy_id@ == fuzzy_id@,
    {
        NewNote {
            session_id: request.session_id,
            created_by_id: request.created_by_id,
            fuzzy_id,
            description: request.description.clone(),
        }
    }
}

/// The row shape an attached file is inserted with.
pub struct NewNoteFile {
    pub fuzzy_id: String,
    pub session_note_id: i32,
    pub file_name: String,
    pub file_path: String,
    pub file_type: Option<String>,
    pub file_size: Option<i32>,
}

impl NewNoteFile {
    pub fn from(request: &FileRequest, session_note_id: i32, fuzzy_id: String) -> (r: NewNoteFile)
        ensures
            r.fuzzy_id@ == fuzzy_id@,
            r.session_note_id == session_note_id,
            r.file_name@ == request.name@,
            r.file_path@ == request.path@,
            r.file_type matches Some(t) && t@ == request.kind@,
            r.file_size == Some(request.size),
    {
        NewNoteFile {
            session_note_id,
            fuzzy_id,
            file_path: request.path.clone(),
            file_name: request.name.clone(),
            file_type: Some(request.kind.clone()),
            file_size: Some(request.size),
        }
    }
}

} // verus!
