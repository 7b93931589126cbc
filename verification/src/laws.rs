//! What holds of the operations taken together.

use vstd::prelude::*;
use crate::company::controllers::{
    create_company_step, erase_company_step, new_company, restore_company_step,
    show_company_step, trash_company_step, update_company_step,
};
use crate::company::models::CompanyView;
use crate::document::DocumentView;
use crate::errors::{DbFailure, Field, FieldError, Reason, ServiceErrorView};
use crate::query::{
    capped, clause, list_head, list_query, BindValueView, BindVarView, Listing,
};
use crate::routes::{rows_answered, BodyView, OK};
use crate::store::{lemma_next_key_is_new, lemma_wf_kept, CollectionView};
use crate::text::{is_blank, lemma_trimmed_empty_iff_blank};
use crate::time::Timestamp;
use crate::user::controllers::{
    change_form, create_user_step, erase_user_step, restore_user_step, show_user_step,
    signup_form, trash_user_step, update_user_step,
};
use crate::user::models::{shown, UserResponseView, UserView};
use crate::validation::{
    confirmation_errors, email_errors, find_errors, is_sort_field, limit_in_range,
    password_errors, presence_errors, refusal,
};

verus! {

/// A limit from 1 to 100 is never refused, and the query then ends with the
/// cap and what is returned, with the limit bound last. A limit outside that
/// range is refused for its range, so that no query is made.
pub proof fn law_limit(
    listing: Listing,
    search: Option<Seq<char>>,
    sort_by: Option<Seq<char>>,
    limit: u32,
)
    ensures
        limit_in_range(limit) ==> find_errors(sort_by, Some(limit)) == find_errors(sort_by, None),
        list_query(listing, search, sort_by, Some(limit)).query == list_head(
            listing,
            search,
            sort_by,
        ) + " "@ + listing.spec_cap() + " "@ + listing.spec_result(),
        list_query(listing, search, sort_by, Some(limit)).bind_vars == list_query(
            listing,
            search,
            sort_by,
            None,
        ).bind_vars.push(BindVarView { name: "@limit"@, value: BindValueView::Number(limit) }),
        list_query(listing, search, sort_by, Some(limit)).cap == Some(limit),
        !limit_in_range(limit) ==> find_errors(sort_by, Some(limit)).len() > 0 && find_errors(
            sort_by,
            Some(limit),
        ).last() == (FieldError { field: Field::Limit, reason: Reason::Range }),
{
    let capped = list_query(listing, search, sort_by, Some(limit));
    let open = list_query(listing, search, sort_by, None);
    assert(capped.query =~= list_head(listing, search, sort_by) + " "@ + listing.spec_cap() + " "@
        + listing.spec_result());
    assert(capped.bind_vars =~= open.bind_vars.push(
        BindVarView { name: "@limit"@, value: BindValueView::Number(limit) },
    ));
    if limit_in_range(limit) {
        assert(find_errors(sort_by, Some(limit)) =~= find_errors(sort_by, None));
    }
}

/// Whatever the database returns for a query with a cap, no more rows are
/// answered than the cap, and those are the first that came, in their order.
/// Rows that are no more than the cap are answered as they came.
pub proof fn law_rows_capped<T>(rows: Seq<T>, limit: u32)
    ensures
        capped(rows, Some(limit)).len() <= limit,
        capped(rows, Some(limit)).is_prefix_of(rows),
        rows.len() <= limit ==> capped(rows, Some(limit)) == rows,
        capped(rows, None) == rows,
        rows_answered(Some(limit), Ok::<Seq<T>, DbFailure>(rows)).status == OK,
        rows_answered(Some(limit), Ok::<Seq<T>, DbFailure>(rows)).body == BodyView::Content(
            capped(rows, Some(limit)),
        ),
{
}

/// A sort field other than `name` and `since` is refused, whatever else was
/// asked for, so that no query is made.
pub proof fn law_sort_by(sort_by: Seq<char>, limit: Option<u32>)
    requires
        !is_sort_field(sort_by),
    ensures
        find_errors(Some(sort_by), limit).len() > 0,
        find_errors(Some(sort_by), limit)[0] == (FieldError {
            field: Field::SortBy,
            reason: Reason::WrongSortBy,
        }),
{
    assert(refusal(Field::SortBy, Reason::WrongSortBy).len() == 1);
}

/// A search text of nothing but whitespace makes the query that no search
/// text makes.
pub proof fn law_blank_search(
    listing: Listing,
    search: Seq<char>,
    sort_by: Option<Seq<char>>,
    limit: Option<u32>,
)
    requires
        is_blank(search),
    ensures
        list_query(listing, Some(search), sort_by, limit) == list_query(
            listing,
            None,
            sort_by,
            limit,
        ),
{
    lemma_trimmed_empty_iff_blank(search);
}

/// A company that was created is shown under the key it was given as it was
/// sent: with the name and the time since when it exists, created and
/// modified at the time of creation, and not deleted.
pub proof fn law_create_then_show(
    store: CollectionView<CompanyView>,
    payload: CompanyView,
    now: Timestamp,
)
    requires
        !store.is_full(),
    ensures
        ({
            let (after, created) = create_company_step(store, payload, now);
            &&& created matches Ok(company)
            &&& company.header.key == store.next_key()
            &&& show_company_step(after, company.header.key) == created
            &&& company.document.name == payload.name
            &&& company.document.since == payload.since
            &&& company.document.created_at == Some(now)
            &&& company.document.modified_at == Some(now)
            &&& company.document.deleted_at is None
        }),
{
}

/// Creating a company puts it under a key that was not in use, and leaves
/// every company that was there as it was.
pub proof fn law_create_keeps_the_rest(
    store: CollectionView<CompanyView>,
    payload: CompanyView,
    now: Timestamp,
    other: Seq<char>,
)
    requires
        store.wf(),
        store.holds(other),
    ensures
        !store.holds(store.next_key()),
        create_company_step(store, payload, now).0.wf(),
        create_company_step(store, payload, now).0.holds(other),
        create_company_step(store, payload, now).0.documents[other] == store.documents[other],
{
    lemma_next_key_is_new(store);
    lemma_wf_kept(store, other, new_company(payload, now));
}

/// Changing, deleting, restoring and erasing the company under one key
/// leave the company under any other key as it was.
pub proof fn law_one_key_at_a_time(
    store: CollectionView<CompanyView>,
    key: Seq<char>,
    payload: CompanyView,
    now: Timestamp,
    other: Seq<char>,
)
    requires
        store.holds(other),
        other != key,
    ensures
        show_company_step(update_company_step(store, key, payload, now).0, other)
            == show_company_step(store, other),
        show_company_step(trash_company_step(store, key, now).0, other) == show_company_step(
            store,
            other,
        ),
        show_company_step(restore_company_step(store, key).0, other) == show_company_step(
            store,
            other,
        ),
        show_company_step(erase_company_step(store, key).0, other) == show_company_step(
            store,
            other,
        ),
{
}

/// An update that sends only a name changes the name and the time of
/// modification, and nothing else: the time since when the company exists
/// stays, and so do the times of creation and deletion.
pub proof fn law_partial_update(
    store: CollectionView<CompanyView>,
    key: Seq<char>,
    name: Seq<char>,
    now: Timestamp,
)
    requires
        store.holds(key),
        !store.is_full(),
    ensures
        ({
            let payload = CompanyView {
                name: Some(name),
                since: None,
                created_at: None,
                modified_at: None,
                deleted_at: None,
            };
            let before = store.documents[key].document;
            let (after, updated) = update_company_step(store, key, payload, now);
            &&& updated matches Ok(company)
            &&& show_company_step(after, key) == updated
            &&& company.document.name == Some(name)
            &&& company.document.since == before.since
            &&& company.document.created_at == before.created_at
            &&& company.document.deleted_at == before.deleted_at
            &&& company.document.modified_at == Some(now)
            &&& (before.modified_at is Some && before.modified_at->0.earlier_than(now)
                ==> before.modified_at->0.earlier_than(company.document.modified_at->0))
        }),
{
}

/// An update changes the fields that were sent and the time of
/// modification, and leaves every other field as it was stored.
pub proof fn law_update_merges(
    store: CollectionView<CompanyView>,
    key: Seq<char>,
    payload: CompanyView,
    now: Timestamp,
)
    requires
        store.holds(key),
        !store.is_full(),
    ensures
        ({
            let before = store.documents[key].document;
            let (after, updated) = update_company_step(store, key, payload, now);
            &&& updated matches Ok(company)
            &&& show_company_step(after, key) == updated
            &&& company.document.name == if payload.name is Some {
                payload.name
            } else {
                before.name
            }
            &&& company.document.since == if payload.since is Some {
                payload.since
            } else {
                before.since
            }
            &&& company.document.created_at == before.created_at
            &&& company.document.deleted_at == before.deleted_at
            &&& company.document.modified_at == Some(now)
        }),
{
}

/// An update of a user changes the fields that the form holds and the time
/// of modification, and leaves every other field as it was stored; the
/// stored password changes only with a form that holds a new one.
pub proof fn law_user_update_merges(
    store: CollectionView<UserView>,
    key: Seq<char>,
    form: Map<Seq<char>, Seq<char>>,
    now: Timestamp,
    hashed: Seq<char>,
)
    requires
        store.holds(key),
        !store.is_full(),
        change_form(form, now).errors().len() == 0,
    ensures
        ({
            let before = store.documents[key].document;
            let request = change_form(form, now);
            let (after, updated) = update_user_step(store, key, form, now, Some(hashed));
            let stored = after.documents[key].document;
            &&& updated matches Ok(user)
            &&& show_user_step(after, key) == updated
            &&& stored.name == if request.name is Some {
                request.name->0
            } else {
                before.name
            }
            &&& stored.email == if request.email is Some {
                request.email->0
            } else {
                before.email
            }
            &&& stored.avatar == if request.avatar is Some {
                request.avatar->0
            } else {
                before.avatar
            }
            &&& stored.password == if request.password is Some {
                hashed
            } else {
                before.password
            }
            &&& stored.created_at == before.created_at
            &&& stored.deleted_at == before.deleted_at
            &&& stored.modified_at == now
        }),
{
}

/// The life of a company that is deleted and brought back: marked as
/// deleted it is shown with the time of deletion; restored it is shown
/// without one; and erased, from either state, it is shown no more.
pub proof fn law_company_lifecycle(
    store: CollectionView<CompanyView>,
    key: Seq<char>,
    now: Timestamp,
)
    requires
        store.holds(key),
        store.clock + 1 < u64::MAX,
    ensures
        ({
            let (trashed_store, trashed) = trash_company_step(store, key, now);
            let (restored_store, restored) = restore_company_step(trashed_store, key);
            let (erased_trashed, erased_a) = erase_company_step(trashed_store, key);
            let (erased_restored, erased_b) = erase_company_step(restored_store, key);
            &&& trashed matches Ok(company) && company.document.deleted_at == Some(now)
            &&& show_company_step(trashed_store, key) == trashed
            &&& restored matches Ok(company) && company.document.deleted_at is None
            &&& show_company_step(restored_store, key) == restored
            &&& erased_a matches Ok(company) && Ok::<
                DocumentView<CompanyView>,
                ServiceErrorView,
            >(company) == trashed
            &&& erased_b matches Ok(company) && Ok::<
                DocumentView<CompanyView>,
                ServiceErrorView,
            >(company) == restored
            &&& show_company_step(erased_trashed, key) == Err::<
                DocumentView<CompanyView>,
                ServiceErrorView,
            >(ServiceErrorView::NotFound)
            &&& show_company_step(erased_restored, key) == Err::<
                DocumentView<CompanyView>,
                ServiceErrorView,
            >(ServiceErrorView::NotFound)
        }),
{
}

/// Deleting and restoring change nothing of a company but the time of
/// deletion.
pub proof fn law_company_lifecycle_keeps_content(
    store: CollectionView<CompanyView>,
    key: Seq<char>,
    now: Timestamp,
)
    requires
        store.holds(key),
        store.clock + 1 < u64::MAX,
    ensures
        ({
            let before = store.documents[key].document;
            let (trashed_store, trashed) = trash_company_step(store, key, now);
            let (restored_store, restored) = restore_company_step(trashed_store, key);
            &&& trashed matches Ok(company) && company.document == (CompanyView {
                deleted_at: Some(now),
                ..before
            })
            &&& restored matches Ok(company) && company.document == (CompanyView {
                deleted_at: None,
                ..before
            })
        }),
{
}

/// The life of a user that is deleted and brought back, as for a company.
pub proof fn law_user_lifecycle(store: CollectionView<UserView>, key: Seq<char>, now: Timestamp)
    requires
        store.holds(key),
        store.clock + 1 < u64::MAX,
    ensures
        ({
            let (trashed_store, trashed) = trash_user_step(store, key, now);
            let (restored_store, restored) = restore_user_step(trashed_store, key);
            let (erased_trashed, erased_a) = erase_user_step(trashed_store, key);
            let (erased_restored, erased_b) = erase_user_step(restored_store, key);
            &&& trashed matches Ok(user) && user.deleted_at == Some(now)
            &&& show_user_step(trashed_store, key) == trashed
            &&& restored matches Ok(user) && user.deleted_at is None
            &&& show_user_step(restored_store, key) == restored
            &&& erased_a == trashed
            &&& erased_b == restored
            &&& show_user_step(erased_trashed, key) == Err::<UserResponseView, ServiceErrorView>(
                ServiceErrorView::NotFound,
            )
            &&& show_user_step(erased_restored, key) == Err::<UserResponseView, ServiceErrorView>(
                ServiceErrorView::NotFound,
            )
        }),
{
}

/// What is shown of a stored user does not depend on the stored password.
pub proof fn law_password_not_shown(stored: DocumentView<UserView>, password: Seq<char>)
    ensures
        shown(stored) == shown(
            DocumentView {
                header: stored.header,
                document: UserView { password, ..stored.document },
            },
        ),
{
}

/// Every query that lists users returns each user without the password.
pub proof fn law_users_listed_without_password(
    search: Option<Seq<char>>,
    sort_by: Option<Seq<char>>,
    limit: Option<u32>,
)
    ensures
        ({
            let query = list_query(Listing::Users, search, sort_by, limit).query;
            let result = " RETURN UNSET(x, 'password')"@;
            query.len() >= result.len() && query.skip(query.len() - result.len()) == result
        }),
{
    let query = list_query(Listing::Users, search, sort_by, limit).query;
    let result = " RETURN UNSET(x, 'password')"@;
    reveal_strlit(" RETURN UNSET(x, 'password')");
    reveal_strlit("RETURN UNSET(x, 'password')");
    reveal_strlit(" ");
    let tail = clause(true, Listing::Users.spec_result());
    assert(tail =~= result);
    let head = list_head(Listing::Users, search, sort_by) + clause(
        limit is Some,
        Listing::Users.spec_cap(),
    );
    assert(query =~= head + tail);
    assert(query.skip(query.len() - result.len()) =~= result);
}

/// A form whose repeated password differs from its password creates no
/// user, whatever its other fields hold: the form is refused and the
/// collection stays as it was.
pub proof fn law_mismatch_creates_nothing(
    store: CollectionView<UserView>,
    form: Map<Seq<char>, Seq<char>>,
    now: Timestamp,
    hashed: Option<Seq<char>>,
)
    requires
        signup_form(form, now).password_confirmation != signup_form(form, now).password,
    ensures
        signup_form(form, now).errors().len() > 0,
        create_user_step(store, form, now, hashed) == (
            store,
            Err::<UserResponseView, ServiceErrorView>(
                ServiceErrorView::Validation(signup_form(form, now).errors()),
            ),
        ),
        signup_form(form, now).password_confirmation is Some ==> signup_form(
            form,
            now,
        ).errors().contains(
            FieldError { field: Field::PasswordConfirmation, reason: Reason::MustMatch },
        ),
        signup_form(form, now).password_confirmation is None ==> signup_form(
            form,
            now,
        ).errors().contains(
            FieldError { field: Field::PasswordConfirmation, reason: Reason::Required },
        ),
{
    let request = signup_form(form, now);
    let a = presence_errors(Field::Name, request.name, true);
    let b = email_errors(request.email, true);
    let c = password_errors(request.password, true);
    let d = confirmation_errors(
        request.password_confirmation,
        request.password,
        true,
    );
    let e = presence_errors(Field::Avatar, request.avatar, true);
    assert(d.len() == 1);
    assert(request.errors() == a + b + c + d + e);
    let at = a.len() + b.len() + c.len();
    assert(request.errors()[at as int] == d[0]);
}

/// A form that changes a user and is refused changes nothing.
pub proof fn law_refused_update_changes_nothing(
    store: CollectionView<UserView>,
    key: Seq<char>,
    form: Map<Seq<char>, Seq<char>>,
    now: Timestamp,
    hashed: Option<Seq<char>>,
)
    requires
        change_form(form, now).errors().len() > 0,
    ensures
        update_user_step(store, key, form, now, hashed).0 == store,
        update_user_step(store, key, form, now, hashed).1 is Err,
{
}

} // verus!
