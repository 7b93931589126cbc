//! The operations on companies: what each asks of the database, and the
//! whole operation on a collection held in memory.

use vstd::prelude::*;
use crate::company::models::{
    Company, CompanyPatch, CompanyPatchView, CompanyView, FindCompaniesParams,
};
use crate::document::{
    fetched, found, new_document, old_document, removed, written, Document,
    DocumentView, Insert, InsertOptions, Patch, Remove, RemoveOptions, Update, UpdateOptions,
};
use crate::errors::{outcome, ServiceError, ServiceErrorView, ValidationErrors};
use crate::query::{build_list_query, list_query, ListQuery, Listing};
use crate::store::{update, Collection, CollectionView};
use crate::text::{chars_of, copy_text};
use crate::time::Timestamp;
use crate::validation::find_errors;

verus! {

/// What an operation on a company comes to: the stored company with its
/// identity, or a failure.
pub type CompanyOutcome = Result<DocumentView<CompanyView>, ServiceErrorView>;

/// The company to store for what was sent at `now`: the name and the time
/// since when it exists as sent, both times of the record at `now`, and no
/// mark of deletion.
pub open spec fn new_company(payload: CompanyView, now: Timestamp) -> CompanyView {
    CompanyView {
        name: payload.name,
        since: payload.since,
        created_at: Some(now),
        modified_at: Some(now),
        deleted_at: None,
    }
}

/// The change that a sent field asks for: a field that is there replaces
/// the stored one, a field that is absent leaves it.
pub open spec fn change_to<T>(sent: Option<T>) -> Patch<T> {
    match sent {
        Some(value) => Patch::Put(value),
        None => Patch::Keep,
    }
}

/// The changes that an update with what was sent makes at `now`: the name
/// and the time since when the company exists as far as they were sent, and
/// the time of the change.
pub open spec fn update_patch(payload: CompanyView, now: Timestamp) -> CompanyPatchView {
    CompanyPatchView {
        name: change_to(payload.name),
        since: change_to(payload.since),
        created_at: Patch::Keep,
        modified_at: Patch::Put(now),
        deleted_at: Patch::Keep,
    }
}

/// The changes that mark a company as deleted at `now`.
pub open spec fn trash_patch(now: Timestamp) -> CompanyPatchView {
    CompanyPatchView {
        name: Patch::Keep,
        since: Patch::Keep,
        created_at: Patch::Keep,
        modified_at: Patch::Keep,
        deleted_at: Patch::Put(now),
    }
}

/// The changes that take the mark of deletion off a company.
pub open spec fn restore_patch() -> CompanyPatchView {
    CompanyPatchView {
        name: Patch::Keep,
        since: Patch::Keep,
        created_at: Patch::Keep,
        modified_at: Patch::Keep,
        deleted_at: Patch::Clear,
    }
}

/// The query that lists companies, or the refusals of what was asked for.
pub fn find_companies(params: FindCompaniesParams) -> (r: Result<ListQuery, ValidationErrors>)
    ensures
        match r {
            Ok(query) => find_errors(chars_of(params.sort_by), params.limit).len() == 0 && query@
                == list_query(
                Listing::Companies,
                chars_of(params.search),
                chars_of(params.sort_by),
                params.limit,
            ),
            Err(errors) => errors@ == find_errors(chars_of(params.sort_by), params.limit)
                && errors@.len() > 0,
        },
{
    match params.validate() {
        Ok(()) => Ok(
            build_list_query(Listing::Companies, &params.search, &params.sort_by, &params.limit),
        ),
        Err(errors) => Err(errors),
    }
}

/// The insert that creates a company from what was sent.
pub fn plan_create_company(payload: &Company, now: Timestamp) -> (r: Insert<Company>)
    ensures
        r.document@ == new_company(payload@, now),
        r.options == InsertOptions::returning_new(),
{
    Insert {
        document: Company {
            name: copy_text(&payload.name),
            since: payload.since,
            created_at: Some(now),
            modified_at: Some(now),
            deleted_at: None,
        },
        options: InsertOptions::returning_new(),
    }
}

/// The update that changes the company under `key` to what was sent.
pub fn plan_update_company(key: &str, payload: &Company, now: Timestamp) -> (r: Update<CompanyPatch>)
    ensures
        r.key@ == key@,
        r.patch@ == update_patch(payload@, now),
        r.options == UpdateOptions::returning_both(true),
{
    let mut patch = CompanyPatch::none();
    patch.modified_at = Patch::Put(now);
    if let Some(name) = &payload.name {
        patch.name = Patch::Put(name.clone());
    }
    if let Some(since) = payload.since {
        patch.since = Patch::Put(since);
    }
    Update { key: key.to_owned(), patch, options: UpdateOptions::returning_both(true) }
}

/// The update that marks the company under `key` as deleted at `now`.
pub fn plan_trash_company(key: &str, now: Timestamp) -> (r: Update<CompanyPatch>)
    ensures
        r.key@ == key@,
        r.patch@ == trash_patch(now),
        r.options == UpdateOptions::returning_both(true),
{
    let mut patch = CompanyPatch::none();
    patch.deleted_at = Patch::Put(now);
    Update { key: key.to_owned(), patch, options: UpdateOptions::returning_both(true) }
}

/// The update that takes the mark of deletion off the company under `key`.
/// It asks that the field be removed, not kept as a null.
pub fn plan_restore_company(key: &str) -> (r: Update<CompanyPatch>)
    ensures
        r.key@ == key@,
        r.patch@ == restore_patch(),
        r.options == UpdateOptions::returning_both(false),
{
    let mut patch = CompanyPatch::none();
    patch.deleted_at = Patch::Clear;
    Update { key: key.to_owned(), patch, options: UpdateOptions::returning_both(false) }
}

/// The removal of the company under `key`, which returns the company
/// removed.
pub fn plan_erase_company(key: &str) -> (r: Remove)
    ensures
        r.key@ == key@,
        r.options == RemoveOptions::returning_old(),
{
    Remove { key: key.to_owned(), options: RemoveOptions::returning_old() }
}

/// Showing a company: the stored company under `key`, or `NotFound`.
pub open spec fn show_company_step(store: CollectionView<CompanyView>, key: Seq<char>) -> CompanyOutcome {
    fetched(store.fetch(key))
}

/// Creating a company: it is stored under the next key.
pub open spec fn create_company_step(
    store: CollectionView<CompanyView>,
    payload: CompanyView,
    now: Timestamp,
) -> (CollectionView<CompanyView>, CompanyOutcome) {
    let (after, reply) = store.insert(new_company(payload, now), InsertOptions::returning_new());
    (after, written(reply))
}

/// Changing a company: what was sent is merged into the stored company.
pub open spec fn update_company_step(
    store: CollectionView<CompanyView>,
    key: Seq<char>,
    payload: CompanyView,
    now: Timestamp,
) -> (CollectionView<CompanyView>, CompanyOutcome) {
    let (after, reply) = update::<Company>(
        store,
        key,
        update_patch(payload, now),
        UpdateOptions::returning_both(true),
    );
    (after, written(reply))
}

/// Marking a company as deleted.
pub open spec fn trash_company_step(
    store: CollectionView<CompanyView>,
    key: Seq<char>,
    now: Timestamp,
) -> (CollectionView<CompanyView>, CompanyOutcome) {
    let (after, reply) = update::<Company>(
        store,
        key,
        trash_patch(now),
        UpdateOptions::returning_both(true),
    );
    (after, written(reply))
}

/// Taking the mark of deletion off a company.
pub open spec fn restore_company_step(store: CollectionView<CompanyView>, key: Seq<char>) -> (
    CollectionView<CompanyView>,
    CompanyOutcome,
) {
    let (after, reply) = update::<Company>(
        store,
        key,
        restore_patch(),
        UpdateOptions::returning_both(false),
    );
    (after, written(reply))
}

/// Removing a company for good: the result is the company as it was.
pub open spec fn erase_company_step(store: CollectionView<CompanyView>, key: Seq<char>) -> (
    CollectionView<CompanyView>,
    CompanyOutcome,
) {
    let (after, reply) = store.remove(key, RemoveOptions::returning_old());
    (after, removed(reply))
}

/// Reads the company under `key`.
pub fn show_company(key: &str, companies: &Collection<Company>) -> (r: Result<
    Document<Company>,
    ServiceError,
>)
    ensures
        outcome(r) == show_company_step(companies@, key@),
{
    found(companies.document(key))
}

/// Stores a new company made of what was sent, and returns it as stored.
pub fn create_company(payload: &Company, now: Timestamp, companies: &mut Collection<Company>) -> (r:
    Result<Document<Company>, ServiceError>)
    ensures
        (final(companies)@, outcome(r)) == create_company_step(old(companies)@, payload@, now),
        !old(companies)@.holds(old(companies)@.next_key()),
{
    let request = plan_create_company(payload, now);
    new_document(companies.create_document(request.document, request.options))
}

/// Changes the company under `key` to what was sent, and returns it as it
/// is stored after that.
pub fn update_company(
    key: &str,
    payload: &Company,
    now: Timestamp,
    companies: &mut Collection<Company>,
) -> (r: Result<Document<Company>, ServiceError>)
    ensures
        (final(companies)@, outcome(r)) == update_company_step(
            old(companies)@,
            key@,
            payload@,
            now,
        ),
{
    let request = plan_update_company(key, payload, now);
    new_document(companies.update_document(request.key.as_str(), request.patch, request.options))
}

/// Removes the company under `key` for good, and returns it as it was.
pub fn erase_company(key: &str, companies: &mut Collection<Company>) -> (r: Result<
    Document<Company>,
    ServiceError,
>)
    ensures
        (final(companies)@, outcome(r)) == erase_company_step(old(companies)@, key@),
{
    let request = plan_erase_company(key);
    old_document(companies.remove_document(request.key.as_str(), request.options))
}

/// Marks the company under `key` as deleted at `now`, and returns it as it
/// is stored after that.
pub fn trash_company(key: &str, now: Timestamp, companies: &mut Collection<Company>) -> (r: Result<
    Document<Company>,
    ServiceError,
>)
    ensures
        (final(companies)@, outcome(r)) == trash_company_step(old(companies)@, key@, now),
{
    let request = plan_trash_company(key, now);
    new_document(companies.update_document(request.key.as_str(), request.patch, request.options))
}

/// Takes the mark of deletion off the company under `key`, and returns it
/// as it is stored after that.
pub fn restore_company(key: &str, companies: &mut Collection<Company>) -> (r: Result<
    Document<Company>,
    ServiceError,
>)
    ensures
        (final(companies)@, outcome(r)) == restore_company_step(old(companies)@, key@),
{
    let request = plan_restore_company(key);
    new_document(companies.update_document(request.key.as_str(), request.patch, request.options))
}

} // verus!
