//! Documents as the database hands them out, the requests that change them,
//! and the answers to those requests.

use vstd::prelude::*;
use crate::errors::{classified, classify, outcome, DbFailure, ServiceError, ServiceErrorView};
use crate::text::chars_of;
use crate::time::Timestamp;

verus! {

/// What an update does to one optional field of a stored document.
#[derive(Clone, Debug, PartialEq, Eq)]
pub enum Patch<T> {
    /// The field stays as it is.
    Keep,
    /// The field takes this value.
    Put(T),
    /// The field is removed.
    Clear,
}

impl<T: View> View for Patch<T> {
    type V = Patch<T::V>;

    open spec fn view(&self) -> Patch<T::V> {
        match *self {
            Patch::Keep => Patch::Keep,
            Patch::Put(v) => Patch::Put(v@),
            Patch::Clear => Patch::Clear,
        }
    }
}

impl<T> Patch<T> {
    /// The field after the update, given the field before it.
    pub open spec fn applied(self, current: Option<T>) -> Option<T> {
        match self {
            Patch::Keep => current,
            Patch::Put(v) => Some(v),
            Patch::Clear => None,
        }
    }
}

/// What an update does to one field that every stored document has.
pub open spec fn replaced<T>(change: Option<T>, current: T) -> T {
    match change {
        Some(v) => v,
        None => current,
    }
}

/// The update of an optional field that holds a point in time.
pub fn apply_time(patch: &Patch<Timestamp>, current: &Option<Timestamp>) -> (r: Option<Timestamp>)
    ensures
        r == patch.applied(*current),
{
    match patch {
        Patch::Keep => *current,
        Patch::Put(t) => Some(*t),
        Patch::Clear => None,
    }
}

/// The update of an optional field that holds text.
pub fn apply_text(patch: &Patch<String>, current: &Option<String>) -> (r: Option<String>)
    ensures
        r == patch.applied(*current),
        chars_of(r) == patch@.applied(chars_of(*current)),
{
    match patch {
        Patch::Keep => match current {
            Some(s) => Some(s.clone()),
            None => None,
        },
        Patch::Put(s) => Some(s.clone()),
        Patch::Clear => None,
    }
}

/// The update of a text field that every stored document has.
pub fn replace_text(change: &Option<String>, current: &String) -> (r: String)
    ensures
        r == replaced(*change, *current),
        r@ == replaced(chars_of(*change), current@),
{
    match change {
        Some(s) => s.clone(),
        None => current.clone(),
    }
}

/// The identity that the database gives a document.
#[derive(Clone, Debug, PartialEq, Eq)]
pub struct Header {
    /// The collection's name, a slash and the key.
    pub id: String,
    /// The key, unique within the collection.
    pub key: String,
    /// The revision, which changes with every write.
    pub rev: String,
}

/// A header's three texts.
pub struct HeaderView {
    pub id: Seq<char>,
    pub key: Seq<char>,
    pub rev: Seq<char>,
}

impl View for Header {
    type V = HeaderView;

    open spec fn view(&self) -> HeaderView {
        HeaderView { id: self.id@, key: self.key@, rev: self.rev@ }
    }
}

/// A stored document with its identity.
#[derive(Clone, Debug, PartialEq, Eq)]
pub struct Document<T> {
    pub header: Header,
    pub document: T,
}

/// A stored document's identity and content, as values.
pub struct DocumentView<V> {
    pub header: HeaderView,
    pub document: V,
}

impl<T: View> View for Document<T> {
    type V = DocumentView<T::V>;

    open spec fn view(&self) -> DocumentView<T::V> {
        DocumentView { header: self.header@, document: self.document@ }
    }
}

/// The database's answer to a write.
#[derive(Clone, Debug, PartialEq, Eq)]
pub enum DocumentResponse<T> {
    /// An empty answer.
    Silent,
    /// The identity of the document written, with the document before and
    /// after the write as far as the request asked for them.
    Response { header: Header, old: Option<T>, new: Option<T> },
}

/// The answer to a write, as values.
pub enum DocumentResponseView<V> {
    Silent,
    Response { header: HeaderView, old: Option<V>, new: Option<V> },
}

impl<T: View> View for DocumentResponse<T> {
    type V = DocumentResponseView<T::V>;

    open spec fn view(&self) -> DocumentResponseView<T::V> {
        match *self {
            DocumentResponse::Silent => DocumentResponseView::Silent,
            DocumentResponse::Response { header, old, new } => DocumentResponseView::Response {
                header: header@,
                old: match old {
                    Some(d) => Some(d@),
                    None => None,
                },
                new: match new {
                    Some(d) => Some(d@),
                    None => None,
                },
            },
        }
    }
}

/// The answer of the database to a request, as values.
pub open spec fn reply_view<T: View>(reply: Result<T, DbFailure>) -> Result<T::V, DbFailure> {
    match reply {
        Ok(answer) => Ok(answer@),
        Err(failure) => Err(failure),
    }
}

/// Whether an insert returns the stored document.
#[derive(Clone, Copy, Debug, PartialEq, Eq, Structural)]
pub struct InsertOptions {
    pub return_new: bool,
}

/// What an update returns, and whether a removed field stays as a null.
#[derive(Clone, Copy, Debug, PartialEq, Eq, Structural)]
pub struct UpdateOptions {
    pub return_new: bool,
    pub return_old: bool,
    pub keep_null: bool,
}

/// Whether a removal returns the document removed.
#[derive(Clone, Copy, Debug, PartialEq, Eq, Structural)]
pub struct RemoveOptions {
    pub return_old: bool,
}

impl InsertOptions {
    /// The options of an insert that returns the stored document.
    pub open spec fn spec_returning_new() -> InsertOptions {
        InsertOptions { return_new: true }
    }

    /// The options of an insert that returns the stored document.
    #[verifier::when_used_as_spec(spec_returning_new)]
    pub fn returning_new() -> (r: InsertOptions)
        ensures
            r == Self::spec_returning_new(),
    {
        InsertOptions { return_new: true }
    }
}

impl UpdateOptions {
    /// The options of an update that returns the document before and after.
    pub open spec fn spec_returning_both(keep_null: bool) -> UpdateOptions {
        UpdateOptions { return_new: true, return_old: true, keep_null }
    }

    /// The options of an update that returns the document before and after.
    #[verifier::when_used_as_spec(spec_returning_both)]
    pub fn returning_both(keep_null: bool) -> (r: UpdateOptions)
        ensures
            r == Self::spec_returning_both(keep_null),
    {
        UpdateOptions { return_new: true, return_old: true, keep_null }
    }
}

impl RemoveOptions {
    /// The options of a removal that returns the document removed.
    pub open spec fn spec_returning_old() -> RemoveOptions {
        RemoveOptions { return_old: true }
    }

    /// The options of a removal that returns the document removed.
    #[verifier::when_used_as_spec(spec_returning_old)]
    pub fn returning_old() -> (r: RemoveOptions)
        ensures
            r == Self::spec_returning_old(),
    {
        RemoveOptions { return_old: true }
    }
}

/// The request to store a new document.
#[derive(Clone, Debug, PartialEq, Eq)]
pub struct Insert<D> {
    pub document: D,
    pub options: InsertOptions,
}

/// The request to change the document under a key.
#[derive(Clone, Debug, PartialEq, Eq)]
pub struct Update<P> {
    pub key: String,
    pub patch: P,
    pub options: UpdateOptions,
}

/// The request to remove the document under a key.
#[derive(Clone, Debug, PartialEq, Eq)]
pub struct Remove {
    pub key: String,
    pub options: RemoveOptions,
}

/// A kind of document that a collection can hold.
pub trait Record: View + Sized {
    /// The changes that an update can make to such a document.
    type Patch: View;

    /// The document after an update.
    spec fn merged(doc: Self::V, patch: <Self::Patch as View>::V) -> Self::V;

    /// The document after an update.
    fn merge(&self, patch: &Self::Patch) -> (r: Self)
        ensures
            r@ == Self::merged(self@, patch@),
    ;

    /// A copy of the document.
    fn copy(&self) -> (r: Self)
        ensures
            r@ == self@,
    ;
}

/// What the service makes of the answer to a write of which it wants the
/// document after the write: that document with its identity. A failure is
/// named by `classified`, and an answer without the document is transient.
pub open spec fn written<V>(reply: Result<DocumentResponseView<V>, DbFailure>) -> Result<
    DocumentView<V>,
    ServiceErrorView,
> {
    match reply {
        Err(failure) => Err(classified(failure)),
        Ok(DocumentResponseView::Response { header, old, new: Some(document) }) => Ok(
            DocumentView { header, document },
        ),
        Ok(_) => Err(ServiceErrorView::Transient),
    }
}

/// What the service makes of the answer to a removal: the document before
/// it, with its identity.
pub open spec fn removed<V>(reply: Result<DocumentResponseView<V>, DbFailure>) -> Result<
    DocumentView<V>,
    ServiceErrorView,
> {
    match reply {
        Err(failure) => Err(classified(failure)),
        Ok(DocumentResponseView::Response { header, old: Some(document), new }) => Ok(
            DocumentView { header, document },
        ),
        Ok(_) => Err(ServiceErrorView::Transient),
    }
}

/// What the service makes of the answer to a read.
pub open spec fn fetched<V>(reply: Result<V, DbFailure>) -> Result<V, ServiceErrorView> {
    match reply {
        Err(failure) => Err(classified(failure)),
        Ok(found) => Ok(found),
    }
}

/// The document after a write, from the database's answer. A failure is named
/// by `classify`; an answer without that document counts as transient.
pub fn new_document<T: View>(reply: Result<DocumentResponse<T>, DbFailure>) -> (r: Result<
    Document<T>,
    ServiceError,
>)
    ensures
        outcome(r) == written(reply_view(reply)),
{
    match reply {
        Err(failure) => Err(classify(failure)),
        Ok(DocumentResponse::Response { header, old: _, new: Some(document) }) => Ok(
            Document { header, document },
        ),
        Ok(_) => Err(ServiceError::Transient),
    }
}

/// The document before a removal, from the database's answer. A failure is
/// named by `classify`; an answer without that document counts as transient.
pub fn old_document<T: View>(reply: Result<DocumentResponse<T>, DbFailure>) -> (r: Result<
    Document<T>,
    ServiceError,
>)
    ensures
        outcome(r) == removed(reply_view(reply)),
{
    match reply {
        Err(failure) => Err(classify(failure)),
        Ok(DocumentResponse::Response { header, old: Some(document), new: _ }) => Ok(
            Document { header, document },
        ),
        Ok(_) => Err(ServiceError::Transient),
    }
}

/// What was read, or the failure under the service's name for it.
pub fn found<T: View>(reply: Result<T, DbFailure>) -> (r: Result<T, ServiceError>)
    ensures
        outcome(r) == fetched(reply_view(reply)),
{
    match reply {
        Err(failure) => Err(classify(failure)),
        Ok(found) => Ok(found),
    }
}

} // verus!
