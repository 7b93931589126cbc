//! The answers of the service: a status and what goes with it.

use vstd::prelude::*;
use crate::document::{
    new_document, old_document, removed, reply_view, written, Document, DocumentResponse,
    DocumentResponseView, DocumentView, Remove, Update,
};
use crate::errors::{
    classified, classify, outcome, DbFailure, FieldError, ServiceError, ServiceErrorView,
    ValidationErrors,
};
use crate::query::{cap_rows, capped};

verus! {

/// The status of an answer that carries what was asked for.
pub const OK: u16 = 200;

/// The status of an answer that carries nothing.
pub const NO_CONTENT: u16 = 204;

/// The status of the answer to a request that was refused.
pub const BAD_REQUEST: u16 = 400;

/// What goes with an answer.
#[derive(Clone, Debug, PartialEq, Eq)]
pub enum Body<T> {
    /// Nothing.
    Empty,
    /// What was asked for.
    Content(T),
    /// The refusals of the request, field by field.
    Errors(ValidationErrors),
}

/// An answer: a status and a body.
#[derive(Clone, Debug, PartialEq, Eq)]
pub struct Response<T> {
    pub status: u16,
    pub body: Body<T>,
}

/// A body as values.
pub enum BodyView<V> {
    Empty,
    Content(V),
    Errors(Seq<FieldError>),
}

/// An answer as values.
pub struct ResponseView<V> {
    pub status: u16,
    pub body: BodyView<V>,
}

impl<T: View> View for Response<T> {
    type V = ResponseView<T::V>;

    open spec fn view(&self) -> ResponseView<T::V> {
        ResponseView {
            status: self.status,
            body: match self.body {
                Body::Empty => BodyView::Empty,
                Body::Content(content) => BodyView::Content(content@),
                Body::Errors(errors) => BodyView::Errors(errors@),
            },
        }
    }
}

/// The answer to a request that was refused: status 400 with the refusals.
pub open spec fn refused<V>(errors: Seq<FieldError>) -> ResponseView<V> {
    ResponseView { status: BAD_REQUEST, body: BodyView::Errors(errors) }
}

/// The answer for a failure: a refusal goes with its refusals, any other
/// failure with nothing but its status.
pub open spec fn failed<V>(error: ServiceErrorView) -> ResponseView<V> {
    match error {
        ServiceErrorView::Validation(errors) => refused(errors),
        _ => ResponseView { status: error.status(), body: BodyView::Empty },
    }
}

/// The answer for what an operation came to: status 200 with the result, or
/// the answer for the failure.
pub open spec fn answered<V>(result: Result<V, ServiceErrorView>) -> ResponseView<V> {
    match result {
        Ok(content) => ResponseView { status: OK, body: BodyView::Content(content) },
        Err(error) => failed(error),
    }
}

/// The answer for what a removal came to: status 204 with nothing, or the
/// answer for the failure.
pub open spec fn answered_empty<V>(result: Result<V, ServiceErrorView>) -> ResponseView<V> {
    match result {
        Ok(_) => ResponseView { status: NO_CONTENT, body: BodyView::Empty },
        Err(error) => failed(error),
    }
}

/// The answer to a request that was refused.
pub fn refuse<T: View>(errors: ValidationErrors) -> (r: Response<T>)
    ensures
        r@ == refused::<T::V>(errors@),
{
    Response { status: BAD_REQUEST, body: Body::Errors(errors) }
}

/// The answer for a failure.
pub fn fail<T: View>(error: ServiceError) -> (r: Response<T>)
    ensures
        r@ == failed::<T::V>(error@),
{
    match error {
        ServiceError::Validation(errors) => refuse(errors),
        other => Response { status: other.status(), body: Body::Empty },
    }
}

/// The answer for what an operation came to.
pub fn answer<T: View>(result: Result<T, ServiceError>) -> (r: Response<T>)
    ensures
        r@ == answered(outcome(result)),
{
    match result {
        Ok(content) => Response { status: OK, body: Body::Content(content) },
        Err(error) => fail(error),
    }
}

/// The answer for what a removal came to.
pub fn answer_empty<T: View>(result: Result<T, ServiceError>) -> (r: Response<T>)
    ensures
        r@ == answered_empty(outcome(result)),
{
    match result {
        Ok(_) => Response { status: NO_CONTENT, body: Body::Empty },
        Err(error) => fail(error),
    }
}

/// What a request to delete asks of the database.
#[derive(Clone, Debug, PartialEq, Eq)]
pub enum Deletion<P> {
    /// The record is removed for good.
    Erase(Remove),
    /// The record's mark of deletion is put on or taken off.
    Change(Update<P>),
}

/// The answer to a request to delete, over values: a removal answers with
/// nothing, a change with the record after it.
pub open spec fn deletion_answered<V>(
    erase: bool,
    reply: Result<DocumentResponseView<V>, DbFailure>,
) -> ResponseView<DocumentView<V>> {
    if erase {
        answered_empty(removed(reply))
    } else {
        answered(written(reply))
    }
}

impl<P> Deletion<P> {
    /// Whether the record is removed for good.
    pub fn is_erase(&self) -> (r: bool)
        ensures
            r == (self is Erase),
    {
        match self {
            Deletion::Erase(_) => true,
            Deletion::Change(_) => false,
        }
    }
}

/// The answer to a request to delete, from the database's answer to what
/// the request asked of it: a removal answers with nothing, a change with
/// the record after it.
pub fn answer_deletion<T: View>(erase: bool, reply: Result<DocumentResponse<T>, DbFailure>) -> (r:
    Response<Document<T>>)
    ensures
        r@ == deletion_answered(erase, reply_view(reply)),
{
    if erase {
        answer_empty(old_document(reply))
    } else {
        answer(new_document(reply))
    }
}

/// The rows of a listing as they are answered, over values.
pub open spec fn rows_answered<T>(cap: Option<u32>, rows: Result<Seq<T>, DbFailure>) -> ResponseView<
    Seq<T>,
> {
    match rows {
        Ok(rows) => answered(Ok(capped(rows, cap))),
        Err(failure) => failed(classified(failure)),
    }
}

/// The answer to a listing, from the rows that the database returned for
/// the query or its failure: the rows in the order in which they came, and
/// no more of them than the query's cap.
pub fn answer_rows<T>(cap: Option<u32>, rows: Result<Vec<T>, DbFailure>) -> (r: Response<Vec<T>>)
    ensures
        r@ == rows_answered(cap, reply_view(rows)),
        cap matches Some(n) ==> (r.body matches Body::Content(answered) ==> answered@.len() <= n),
{
    match rows {
        Ok(rows) => answer(Ok(cap_rows(rows, cap))),
        Err(failure) => fail(classify(failure)),
    }
}

} // verus!
