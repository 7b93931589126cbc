//! The answers to the requests about companies.

use vstd::prelude::*;
use vstd::pervasive::unreached;
use crate::company::controllers::{
    create_company, create_company_step, erase_company_step, find_companies, plan_erase_company,
    plan_restore_company, plan_trash_company, restore_company_step, restore_patch, show_company,
    show_company_step, trash_company_step, trash_patch, update_company, update_company_step,
};
use crate::company::models::{
    Company, CompanyPatch, CompanyView, DeleteCompanyParams, FindCompaniesParams,
};
use crate::document::{Document, DocumentView, RemoveOptions, UpdateOptions};
use crate::errors::{Field, Reason, ValidationErrors};
use crate::query::{list_query, ListQuery, Listing};
use crate::routes::{
    answer, answer_deletion, answered, answered_empty, refuse, refused, Deletion, Response,
    ResponseView,
};
use crate::store::{Collection, CollectionView};
use crate::text::chars_of;
use crate::time::Timestamp;
use crate::validation::{find_errors, mode_of, parse_mode, refusal, DeleteMode};

verus! {

/// The answer to a request about one company.
pub type CompanyResponse = ResponseView<DocumentView<CompanyView>>;

/// What a listing asks of the database, or the answer that refuses it.
pub fn find(params: FindCompaniesParams) -> (r: Result<ListQuery, Response<Vec<Document<Company>>>>)
    ensures
        match r {
            Ok(query) => find_errors(chars_of(params.sort_by), params.limit).len() == 0 && query@
                == list_query(
                Listing::Companies,
                chars_of(params.search),
                chars_of(params.sort_by),
                params.limit,
            ),
            Err(response) => response@ == refused::<Seq<Document<Company>>>(
                find_errors(chars_of(params.sort_by), params.limit),
            ) && find_errors(chars_of(params.sort_by), params.limit).len() > 0,
        },
{
    match find_companies(params) {
        Ok(query) => Ok(query),
        Err(errors) => Err(refuse(errors)),
    }
}

/// Answers a request to show the company under `key`.
pub fn show(key: &str, companies: &Collection<Company>) -> (r: Response<Document<Company>>)
    ensures
        r@ == answered(show_company_step(companies@, key@)),
{
    answer(show_company(key, companies))
}

/// Answers a request to create a company.
pub fn create(payload: &Company, now: Timestamp, companies: &mut Collection<Company>) -> (r: Response<
    Document<Company>,
>)
    ensures
        (final(companies)@, r@) == ({
            let (after, created) = create_company_step(old(companies)@, payload@, now);
            (after, answered(created))
        }),
{
    answer(create_company(payload, now, companies))
}

/// Answers a request to change the company under `key`.
pub fn update(key: &str, payload: &Company, now: Timestamp, companies: &mut Collection<Company>) -> (r:
    Response<Document<Company>>)
    ensures
        (final(companies)@, r@) == ({
            let (after, updated) = update_company_step(old(companies)@, key@, payload@, now);
            (after, answered(updated))
        }),
{
    answer(update_company(key, payload, now, companies))
}

/// Deleting by mode: `erase` removes the company and answers with nothing,
/// `trash` and `restore` answer with the company as it is after them, and
/// any other mode is refused and changes nothing.
pub open spec fn delete_step(
    store: CollectionView<CompanyView>,
    key: Seq<char>,
    mode: Seq<char>,
    now: Timestamp,
) -> (CollectionView<CompanyView>, CompanyResponse) {
    match mode_of(mode) {
        Some(DeleteMode::Erase) => {
            let (after, erased) = erase_company_step(store, key);
            (after, answered_empty(erased))
        },
        Some(DeleteMode::Trash) => {
            let (after, trashed) = trash_company_step(store, key, now);
            (after, answered(trashed))
        },
        Some(DeleteMode::Restore) => {
            let (after, restored) = restore_company_step(store, key);
            (after, answered(restored))
        },
        None => (store, refused(refusal(Field::Mode, Reason::WrongMode))),
    }
}

/// What a request to delete or bring back the company under `key` asks of
/// the database, or the refusals of its mode.
pub fn plan_delete(key: &str, form: &DeleteCompanyParams, now: Timestamp) -> (r: Result<
    Deletion<CompanyPatch>,
    ValidationErrors,
>)
    ensures
        match mode_of(form.mode@) {
            Some(DeleteMode::Erase) => r matches Ok(Deletion::Erase(remove)) && remove.key@ == key@
                && remove.options == RemoveOptions::returning_old(),
            Some(DeleteMode::Trash) => r matches Ok(Deletion::Change(update)) && update.key@
                == key@ && update.patch@ == trash_patch(now) && update.options
                == UpdateOptions::returning_both(true),
            Some(DeleteMode::Restore) => r matches Ok(Deletion::Change(update)) && update.key@
                == key@ && update.patch@ == restore_patch() && update.options
                == UpdateOptions::returning_both(false),
            None => r matches Err(errors) && errors@ == refusal(Field::Mode, Reason::WrongMode),
        },
{
    match parse_mode(form.mode.as_str()) {
        Some(DeleteMode::Erase) => Ok(Deletion::Erase(plan_erase_company(key))),
        Some(DeleteMode::Trash) => Ok(Deletion::Change(plan_trash_company(key, now))),
        Some(DeleteMode::Restore) => Ok(Deletion::Change(plan_restore_company(key))),
        None => match form.validate() {
            Err(errors) => Err(errors),
            Ok(()) => unreached(),
        },
    }
}

/// Answers a request to delete or bring back the company under `key`.
pub fn delete(
    key: &str,
    form: &DeleteCompanyParams,
    now: Timestamp,
    companies: &mut Collection<Company>,
) -> (r: Response<Document<Company>>)
    ensures
        (final(companies)@, r@) == delete_step(old(companies)@, key@, form.mode@, now),
{
    match plan_delete(key, form, now) {
        Err(errors) => refuse(errors),
        Ok(deletion) => {
            let erase = deletion.is_erase();
            let reply = match deletion {
                Deletion::Erase(remove) => companies.remove_document(
                    remove.key.as_str(),
                    remove.options,
                ),
                Deletion::Change(update) => companies.update_document(
                    update.key.as_str(),
                    update.patch,
                    update.options,
                ),
            };
            answer_deletion(erase, reply)
        },
    }
}

} // verus!
