//! The shapes of company data.

use vstd::prelude::*;
use crate::document::{apply_text, apply_time, Patch, Record};
use crate::errors::{Field, Reason, ValidationErrors};
use crate::text::{chars_of, copy_text};
use crate::time::Timestamp;
use crate::validation::{find_errors, is_mode, refusal, validate_find, validate_mode};

verus! {

/// What a listing of companies may ask for.
#[derive(Clone, Debug, PartialEq, Eq)]
pub struct FindCompaniesParams {
    pub search: Option<String>,
    pub sort_by: Option<String>,
    pub limit: Option<u32>,
}

impl FindCompaniesParams {
    /// Checks the sort field and the limit.
    pub fn validate(&self) -> (r: Result<(), ValidationErrors>)
        ensures
            match r {
                Ok(_) => find_errors(chars_of(self.sort_by), self.limit).len() == 0,
                Err(e) => e@ == find_errors(chars_of(self.sort_by), self.limit) && e@.len() > 0,
            },
    {
        validate_find(&self.sort_by, &self.limit)
    }
}

/// How a company is to be deleted or brought back.
#[derive(Clone, Debug, PartialEq, Eq)]
pub struct DeleteCompanyParams {
    pub mode: String,
}

impl DeleteCompanyParams {
    /// Checks the mode.
    pub fn validate(&self) -> (r: Result<(), ValidationErrors>)
        ensures
            match r {
                Ok(_) => is_mode(self.mode@),
                Err(e) => e@ == refusal(Field::Mode, Reason::WrongMode) && !is_mode(self.mode@),
            },
    {
        match validate_mode(self.mode.as_str()) {
            Ok(()) => Ok(()),
            Err(reason) => {
                let mut errors = ValidationErrors::new();
                errors.add(Field::Mode, reason);
                assert(errors@ =~= refusal(Field::Mode, Reason::WrongMode));
                Err(errors)
            },
        }
    }
}

/// A company, as it is sent and as it is stored. A field that is absent in
/// what is sent is a field that is not meant.
#[derive(Clone, Debug, PartialEq, Eq)]
pub struct Company {
    pub name: Option<String>,
    pub since: Option<Timestamp>,
    pub created_at: Option<Timestamp>,
    pub modified_at: Option<Timestamp>,
    pub deleted_at: Option<Timestamp>,
}

/// A company's text and times.
pub struct CompanyView {
    pub name: Option<Seq<char>>,
    pub since: Option<Timestamp>,
    pub created_at: Option<Timestamp>,
    pub modified_at: Option<Timestamp>,
    pub deleted_at: Option<Timestamp>,
}

impl View for Company {
    type V = CompanyView;

    open spec fn view(&self) -> CompanyView {
        CompanyView {
            name: chars_of(self.name),
            since: self.since,
            created_at: self.created_at,
            modified_at: self.modified_at,
            deleted_at: self.deleted_at,
        }
    }
}

/// The changes that an update makes to a stored company, field by field.
#[derive(Clone, Debug, PartialEq, Eq)]
pub struct CompanyPatch {
    pub name: Patch<String>,
    pub since: Patch<Timestamp>,
    pub created_at: Patch<Timestamp>,
    pub modified_at: Patch<Timestamp>,
    pub deleted_at: Patch<Timestamp>,
}

/// The changes as values.
pub struct CompanyPatchView {
    pub name: Patch<Seq<char>>,
    pub since: Patch<Timestamp>,
    pub created_at: Patch<Timestamp>,
    pub modified_at: Patch<Timestamp>,
    pub deleted_at: Patch<Timestamp>,
}

impl View for CompanyPatch {
    type V = CompanyPatchView;

    open spec fn view(&self) -> CompanyPatchView {
        CompanyPatchView {
            name: self.name@,
            since: self.since,
            created_at: self.created_at,
            modified_at: self.modified_at,
            deleted_at: self.deleted_at,
        }
    }
}

impl CompanyPatchView {
    /// The changes that change nothing.
    pub open spec fn none() -> CompanyPatchView {
        CompanyPatchView {
            name: Patch::Keep,
            since: Patch::Keep,
            created_at: Patch::Keep,
            modified_at: Patch::Keep,
            deleted_at: Patch::Keep,
        }
    }
}

impl CompanyPatch {
    /// The changes that change nothing.
    pub fn none() -> (r: CompanyPatch)
        ensures
            r@ == CompanyPatchView::none(),
    {
        CompanyPatch {
            name: Patch::Keep,
            since: Patch::Keep,
            created_at: Patch::Keep,
            modified_at: Patch::Keep,
            deleted_at: Patch::Keep,
        }
    }
}

impl Record for Company {
    type Patch = CompanyPatch;

    open spec fn merged(doc: CompanyView, patch: CompanyPatchView) -> CompanyView {
        CompanyView {
            name: patch.name.applied(doc.name),
            since: patch.since.applied(doc.since),
            created_at: patch.created_at.applied(doc.created_at),
            modified_at: patch.modified_at.applied(doc.modified_at),
            deleted_at: patch.deleted_at.applied(doc.deleted_at),
        }
    }

    fn merge(&self, patch: &CompanyPatch) -> (r: Company) {
        let r = Company {
            name: apply_text(&patch.name, &self.name),
            since: apply_time(&patch.since, &self.since),
            created_at: apply_time(&patch.created_at, &self.created_at),
            modified_at: apply_time(&patch.modified_at, &self.modified_at),
            deleted_at: apply_time(&patch.deleted_at, &self.deleted_at),
        };
        assert(r@.name == patch@.name.applied(self@.name));
        r
    }

    fn copy(&self) -> (r: Company) {
        Company {
            name: copy_text(&self.name),
            since: self.since,
            created_at: self.created_at,
            modified_at: self.modified_at,
            deleted_at: self.deleted_at,
        }
    }
}

} // verus!
