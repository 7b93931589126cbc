//! The answers to the requests about users.

use vstd::prelude::*;
use vstd::pervasive::unreached;
use crate::document::{
    removed, reply_view, written, DocumentResponse, DocumentResponseView,
    RemoveOptions, UpdateOptions,
};
use crate::errors::{outcome, DbFailure, Field, Reason, ValidationErrors};
use crate::query::{list_query, ListQuery, Listing};
use crate::routes::{
    answer, answer_empty, answered, answered_empty, refuse, refused, Deletion, Response,
    ResponseView,
};
use crate::store::{Collection, CollectionView};
use crate::text::chars_of;
use crate::time::Timestamp;
use crate::upload::FormFields;
use crate::user::controllers::{
    create_user, create_user_step, erase_user_step, find_users, plan_erase_user,
    plan_restore_user, plan_trash_user, restore_patch, restore_user_step, show_user,
    show_user_step, shown_outcome, trash_patch, trash_user_step, update_user, update_user_step,
    user_removed, user_written,
};
use crate::user::models::{
    DeleteUserParams, FindUsersParams, User, UserPatch, UserResponse, UserResponseView, UserView,
};
use crate::validation::{find_errors, mode_of, parse_mode, refusal, DeleteMode};

verus! {

/// What a listing asks of the database, or the answer that refuses it.
pub fn find(params: FindUsersParams) -> (r: Result<ListQuery, Response<Vec<UserResponse>>>)
    ensures
        match r {
            Ok(query) => find_errors(chars_of(params.sort_by), params.limit).len() == 0 && query@
                == list_query(
                Listing::Users,
                chars_of(params.search),
                chars_of(params.sort_by),
                params.limit,
            ),
            Err(response) => response@ == refused::<Seq<UserResponse>>(
                find_errors(chars_of(params.sort_by), params.limit),
            ) && find_errors(chars_of(params.sort_by), params.limit).len() > 0,
        },
{
    match find_users(params) {
        Ok(query) => Ok(query),
        Err(errors) => Err(refuse(errors)),
    }
}

/// Answers a request to show the user under `key`.
pub fn show(key: &str, users: &Collection<User>) -> (r: Response<UserResponse>)
    ensures
        r@ == answered(show_user_step(users@, key@)),
{
    answer(show_user(key, users))
}

/// Answers a request to create a user from the fields of an upload.
pub fn create(vars: &FormFields, now: Timestamp, users: &mut Collection<User>) -> (r: Response<
    UserResponse,
>)
    ensures
        exists|hashed: Option<Seq<char>>|
            (final(users)@, r@) == ({
                let (after, created) = #[trigger] create_user_step(old(users)@, vars@, now, hashed);
                (after, answered(created))
            }),
{
    let result = create_user(vars, now, users);
    proof {
        let hashed = choose|hashed: Option<Seq<char>>| #[trigger]
            create_user_step(old(users)@, vars@, now, hashed) == (
                users@,
                outcome(result),
            );
        assert(create_user_step(old(users)@, vars@, now, hashed) == (
            users@,
            outcome(result),
        ));
    }
    answer(result)
}

/// Answers a request to change the user under `key` from the fields of an
/// upload.
pub fn update(key: &str, vars: &FormFields, now: Timestamp, users: &mut Collection<User>) -> (r:
    Response<UserResponse>)
    ensures
        exists|hashed: Option<Seq<char>>|
            (final(users)@, r@) == ({
                let (after, updated) = #[trigger] update_user_step(
                    old(users)@,
                    key@,
                    vars@,
                    now,
                    hashed,
                );
                (after, answered(updated))
            }),
{
    let result = update_user(key, vars, now, users);
    proof {
        let hashed = choose|hashed: Option<Seq<char>>| #[trigger]
            update_user_step(old(users)@, key@, vars@, now, hashed) == (
                users@,
                outcome(result),
            );
        assert(update_user_step(old(users)@, key@, vars@, now, hashed) == (
            users@,
            outcome(result),
        ));
    }
    answer(result)
}

/// Deleting by mode: `erase` removes the user and answers with nothing,
/// `trash` and `restore` answer with the user as it is after them, and any
/// other mode is refused and changes nothing.
pub open spec fn delete_step(
    store: CollectionView<UserView>,
    key: Seq<char>,
    mode: Seq<char>,
    now: Timestamp,
) -> (CollectionView<UserView>, ResponseView<UserResponseView>) {
    match mode_of(mode) {
        Some(DeleteMode::Erase) => {
            let (after, erased) = erase_user_step(store, key);
            (after, answered_empty(erased))
        },
        Some(DeleteMode::Trash) => {
            let (after, trashed) = trash_user_step(store, key, now);
            (after, answered(trashed))
        },
        Some(DeleteMode::Restore) => {
            let (after, restored) = restore_user_step(store, key);
            (after, answered(restored))
        },
        None => (store, refused(refusal(Field::Mode, Reason::WrongMode))),
    }
}

/// What a request to delete or bring back the user under `key` asks of the
/// database, or the refusals of its mode.
pub fn plan_delete(key: &str, form: &DeleteUserParams, now: Timestamp) -> (r: Result<
    Deletion<UserPatch>,
    ValidationErrors,
>)
    ensures
        match mode_of(form.mode@) {
            Some(DeleteMode::Erase) => r matches Ok(Deletion::Erase(remove)) && remove.key@ == key@
                && remove.options == RemoveOptions::returning_old(),
            Some(DeleteMode::Trash) => r matches Ok(Deletion::Change(update)) && update.key@
                == key@ && update.patch@ == trash_patch(now) && update.options
                == UpdateOptions::returning_both(true),
            Some(DeleteMode::Restore) => r matches Ok(Deletion::Change(update)) && update.key@
                == key@ && update.patch@ == restore_patch() && update.options
                == UpdateOptions::returning_both(false),
            None => r matches Err(errors) && errors@ == refusal(Field::Mode, Reason::WrongMode),
        },
{
    match parse_mode(form.mode.as_str()) {
        Some(DeleteMode::Erase) => Ok(Deletion::Erase(plan_erase_user(key))),
        Some(DeleteMode::Trash) => Ok(Deletion::Change(plan_trash_user(key, now))),
        Some(DeleteMode::Restore) => Ok(Deletion::Change(plan_restore_user(key))),
        None => match form.validate() {
            Err(errors) => Err(errors),
            Ok(()) => unreached(),
        },
    }
}

/// The answer to a request to delete a user, over values.
pub open spec fn user_deletion_answered(
    erase: bool,
    reply: Result<DocumentResponseView<UserView>, DbFailure>,
) -> ResponseView<UserResponseView> {
    if erase {
        answered_empty(shown_outcome(removed(reply)))
    } else {
        answered(shown_outcome(written(reply)))
    }
}

/// The answer to a request to delete a user, from the database's answer to
/// what the request asked of it: a removal answers with nothing, a change
/// with the user after it, shown without the password.
pub fn answer_deletion(erase: bool, reply: Result<DocumentResponse<User>, DbFailure>) -> (r: Response<
    UserResponse,
>)
    ensures
        r@ == user_deletion_answered(erase, reply_view(reply)),
{
    if erase {
        answer_empty(user_removed(reply))
    } else {
        answer(user_written(reply))
    }
}

/// Answers a request to delete or bring back the user under `key`.
pub fn delete(key: &str, form: &DeleteUserParams, now: Timestamp, users: &mut Collection<User>) -> (r:
    Response<UserResponse>)
    ensures
        (final(users)@, r@) == delete_step(old(users)@, key@, form.mode@, now),
{
    match plan_delete(key, form, now) {
        Err(errors) => refuse(errors),
        Ok(deletion) => {
            let erase = deletion.is_erase();
            let reply = match deletion {
                Deletion::Erase(remove) => users.remove_document(remove.key.as_str(), remove.options),
                Deletion::Change(update) => users.update_document(
                    update.key.as_str(),
                    update.patch,
                    update.options,
                ),
            };
            answer_deletion(erase, reply)
        },
    }
}

} // verus!
