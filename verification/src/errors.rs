//! What can go wrong with a request, and how the service names it.

use vstd::prelude::*;

verus! {

/// The request fields that carry a validation rule.
#[derive(Clone, Copy, Debug, PartialEq, Eq, Structural)]
pub enum Field {
    SortBy,
    Limit,
    Mode,
    Name,
    Email,
    Password,
    PasswordConfirmation,
    Avatar,
}

/// Why a field was refused.
#[derive(Clone, Copy, Debug, PartialEq, Eq, Structural)]
pub enum Reason {
    /// The sort field is not one of the sortable fields.
    WrongSortBy,
    /// The delete mode is not one of the known modes.
    WrongMode,
    /// A number lies outside its range.
    Range,
    /// A required field is absent.
    Required,
    /// The text is not an email address.
    Email,
    /// The text is too short.
    Length,
    /// The field differs from the field it has to repeat.
    MustMatch,
}

/// One refusal: a field and the reason.
#[derive(Clone, Copy, Debug, PartialEq, Eq, Structural)]
pub struct FieldError {
    pub field: Field,
    pub reason: Reason,
}

impl Field {
    /// The field's name as a client writes it.
    pub open spec fn spec_name(self) -> Seq<char> {
        match self {
            Field::SortBy => "sort_by"@,
            Field::Limit => "limit"@,
            Field::Mode => "mode"@,
            Field::Name => "name"@,
            Field::Email => "email"@,
            Field::Password => "password"@,
            Field::PasswordConfirmation => "password_confirmation"@,
            Field::Avatar => "avatar"@,
        }
    }

    /// The field's name as a client writes it.
    pub fn name(&self) -> (r: &'static str)
        ensures
            r@ == self.spec_name(),
    {
        match self {
            Field::SortBy => "sort_by",
            Field::Limit => "limit",
            Field::Mode => "mode",
            Field::Name => "name",
            Field::Email => "email",
            Field::Password => "password",
            Field::PasswordConfirmation => "password_confirmation",
            Field::Avatar => "avatar",
        }
    }
}

impl Reason {
    /// The words in which the reason is reported.
    pub open spec fn spec_message(self) -> Seq<char> {
        match self {
            Reason::WrongSortBy => "Wrong sort_by"@,
            Reason::WrongMode => "Wrong mode"@,
            Reason::Range => "range"@,
            Reason::Required => "required"@,
            Reason::Email => "email"@,
            Reason::Length => "length"@,
            Reason::MustMatch => "must_match"@,
        }
    }

    /// The words in which the reason is reported.
    pub fn message(&self) -> (r: &'static str)
        ensures
            r@ == self.spec_message(),
    {
        match self {
            Reason::WrongSortBy => "Wrong sort_by",
            Reason::WrongMode => "Wrong mode",
            Reason::Range => "range",
            Reason::Required => "required",
            Reason::Email => "email",
            Reason::Length => "length",
            Reason::MustMatch => "must_match",
        }
    }
}

/// The refusals found in one request, in the order of its fields.
#[derive(Clone, Debug, PartialEq, Eq)]
pub struct ValidationErrors {
    pub errors: Vec<FieldError>,
}

impl View for ValidationErrors {
    type V = Seq<FieldError>;

    open spec fn view(&self) -> Seq<FieldError> {
        self.errors@
    }
}

/// The reasons that `errors` holds for `field`, in order.
pub open spec fn reasons_for(errors: Seq<FieldError>, field: Field) -> Seq<Reason> {
    errors.filter(|e: FieldError| e.field == field).map_values(|e: FieldError| e.reason)
}

impl ValidationErrors {
    /// No refusal yet.
    pub fn new() -> (r: ValidationErrors)
        ensures
            r@ == Seq::<FieldError>::empty(),
    {
        ValidationErrors { errors: Vec::new() }
    }

    /// Records that `field` was refused for `reason`.
    pub fn add(&mut self, field: Field, reason: Reason)
        ensures
            final(self)@ == old(self)@.push(FieldError { field, reason }),
    {
        self.errors.push(FieldError { field, reason });
    }

    /// Whether nothing was refused.
    pub fn is_empty(&self) -> (r: bool)
        ensures
            r == (self@.len() == 0),
    {
        self.errors.len() == 0
    }

    /// Whether `field` was refused.
    pub fn has_error(&self, field: Field) -> (r: bool)
        ensures
            r == exists|i: int| 0 <= i < self@.len() && (#[trigger] self@[i]).field == field,
    {
        let mut i: usize = 0;
        while i < self.errors.len()
            invariant
                i <= self.errors@.len(),
                forall|j: int| 0 <= j < i ==> (#[trigger] self.errors@[j]).field != field,
            decreases self.errors@.len() - i,
        {
            if self.errors[i].field == field {
                return true;
            }
            i += 1;
        }
        false
    }

    /// The reasons for which `field` was refused, in order.
    pub fn field_errors(&self, field: Field) -> (r: Vec<Reason>)
        ensures
            r@ == reasons_for(self@, field),
    {
        let mut out: Vec<Reason> = Vec::new();
        let mut i: usize = 0;
        while i < self.errors.len()
            invariant
                i <= self.errors@.len(),
                out@ == reasons_for(self.errors@.take(i as int), field),
            decreases self.errors@.len() - i,
        {
            proof {
                let pred = |e: FieldError| e.field == field;
                let head = self.errors@.take(i as int);
                let next = self.errors@.take(i + 1);
                assert(next == head.push(self.errors@[i as int]));
                assert(next.drop_last() == head);
                reveal(Seq::filter);
                assert(next.filter(pred) == if pred(next.last()) {
                    head.filter(pred).push(next.last())
                } else {
                    head.filter(pred)
                });
            }
            if self.errors[i].field == field {
                out.push(self.errors[i].reason);
            }
            i += 1;
        }
        proof {
            assert(self.errors@.take(self.errors@.len() as int) == self.errors@);
        }
        out
    }
}

/// How a call to the database failed, as the caller of the database saw it.
#[derive(Clone, Copy, Debug, PartialEq, Eq, Structural)]
pub enum DbFailure {
    /// The server answered with this HTTP status.
    Status(u16),
    /// No answer came.
    Unreachable,
    /// The answer could not be read.
    Undecodable,
}

/// The failures that the service distinguishes.
#[derive(Clone, Debug, PartialEq, Eq)]
pub enum ServiceError {
    /// The request was refused before any work was done.
    Validation(ValidationErrors),
    /// The request's body could not be read as the form it should be.
    Malformed,
    /// No record has the key.
    NotFound,
    /// The database refused a write that breaks one of its constraints.
    Conflict,
    /// The database could not be had, or did not answer as expected.
    Transient,
    /// A file could not be written, or the machine gave no random bytes.
    Io,
}

/// A failure with its refusals as values.
pub enum ServiceErrorView {
    Validation(Seq<FieldError>),
    Malformed,
    NotFound,
    Conflict,
    Transient,
    Io,
}

impl View for ServiceError {
    type V = ServiceErrorView;

    open spec fn view(&self) -> ServiceErrorView {
        match *self {
            ServiceError::Validation(errors) => ServiceErrorView::Validation(errors@),
            ServiceError::Malformed => ServiceErrorView::Malformed,
            ServiceError::NotFound => ServiceErrorView::NotFound,
            ServiceError::Conflict => ServiceErrorView::Conflict,
            ServiceError::Transient => ServiceErrorView::Transient,
            ServiceError::Io => ServiceErrorView::Io,
        }
    }
}

impl ServiceErrorView {
    /// The HTTP status under which the failure is reported.
    pub open spec fn status(self) -> u16 {
        match self {
            ServiceErrorView::Validation(_) => 400,
            ServiceErrorView::Malformed => 400,
            ServiceErrorView::NotFound => 404,
            ServiceErrorView::Conflict => 409,
            ServiceErrorView::Transient => 503,
            ServiceErrorView::Io => 500,
        }
    }
}

/// What an operation came to, as values.
pub open spec fn outcome<T: View>(result: Result<T, ServiceError>) -> Result<
    T::V,
    ServiceErrorView,
> {
    match result {
        Ok(value) => Ok(value@),
        Err(error) => Err(error@),
    }
}

/// The service's name for a failure of the database: status 404 is a
/// missing record, status 409 a conflict, anything else is transient.
pub open spec fn classified(failure: DbFailure) -> ServiceErrorView {
    match failure {
        DbFailure::Status(404) => ServiceErrorView::NotFound,
        DbFailure::Status(409) => ServiceErrorView::Conflict,
        _ => ServiceErrorView::Transient,
    }
}

/// Names a failure of the database.
pub fn classify(failure: DbFailure) -> (r: ServiceError)
    ensures
        r@ == classified(failure),
{
    match failure {
        DbFailure::Status(404) => ServiceError::NotFound,
        DbFailure::Status(409) => ServiceError::Conflict,
        _ => ServiceError::Transient,
    }
}

impl ServiceError {
    /// The HTTP status under which the failure is reported: 400 for a
    /// request that was refused or could not be read, 404 for a missing
    /// record, 409 for a conflict, 503 for a database that could not be had,
    /// 500 for a failure of the machine.
    pub fn status(&self) -> (r: u16)
        ensures
            r == self@.status(),
    {
        match self {
            ServiceError::Validation(_) => 400,
            ServiceError::Malformed => 400,
            ServiceError::NotFound => 404,
            ServiceError::Conflict => 409,
            ServiceError::Transient => 503,
            ServiceError::Io => 500,
        }
    }
}

} // verus!
