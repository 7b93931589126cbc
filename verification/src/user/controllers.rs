//! The operations on users: what each asks of the database, what it makes of
//! the answer, and both together on a collection held in memory.

use vstd::prelude::*;
use vstd::pervasive::unreached;
use crate::document::{
    fetched, found, new_document, old_document, removed, reply_view, written,
    Document, DocumentResponse, DocumentView, Insert, InsertOptions, Patch, Remove, RemoveOptions,
    Update, UpdateOptions,
};
use crate::errors::{outcome, DbFailure, ServiceError, ServiceErrorView, ValidationErrors};
use crate::query::{build_list_query, list_query, ListQuery, Listing};
use crate::store::{update, Collection, CollectionView};
use crate::text::chars_of;
use crate::time::Timestamp;
use crate::upload::{value_of, FormFields};
use crate::user::models::{
    shown, CreateUserRequest, CreateUserRequestView, FindUsersParams, UpdateUserRequest,
    UpdateUserRequestView, User, UserPatch, UserPatchView, UserResponse, UserResponseView,
    UserView,
};
use crate::validation::find_errors;

verus! {

/// The failure of `bcrypt`, which is carried as it is and never looked into.
#[verifier::external_type_specification]
#[verifier::external_body]
pub struct ExBcryptError(bcrypt::BcryptError);

/// Calls `bcrypt::hash` with the default cost, which salts the password with
/// random bytes of the machine and hashes it. Nothing is claimed of the
/// result: it differs from call to call.
#[verifier::external_body]
fn bcrypt_hash(password: &str) -> Result<String, bcrypt::BcryptError> {
    bcrypt::hash(password, bcrypt::DEFAULT_COST)
}

/// The salted hash of a password, or nothing where the machine gave no salt.
fn hash_password(password: &str) -> Option<String> {
    match bcrypt_hash(password) {
        Ok(hashed) => Some(hashed),
        Err(_) => None,
    }
}

/// The form that creates a user, read from the fields of an upload at `now`.
pub open spec fn signup_form(form: Map<Seq<char>, Seq<char>>, now: Timestamp) -> CreateUserRequestView {
    CreateUserRequestView {
        name: value_of(form, "name"@),
        email: value_of(form, "email"@),
        password: value_of(form, "password"@),
        password_confirmation: value_of(form, "password_confirmation"@),
        avatar: value_of(form, "avatar"@),
        created_at: now,
        modified_at: now,
    }
}

/// The form that changes a user, read from the fields of an upload at `now`.
pub open spec fn change_form(form: Map<Seq<char>, Seq<char>>, now: Timestamp) -> UpdateUserRequestView {
    UpdateUserRequestView {
        name: value_of(form, "name"@),
        email: value_of(form, "email"@),
        password: value_of(form, "password"@),
        password_confirmation: value_of(form, "password_confirmation"@),
        avatar: value_of(form, "avatar"@),
        created_at: None,
        modified_at: Some(now),
        deleted_at: None,
    }
}

/// Reads the form that creates a user from the fields of an upload.
pub fn signup(vars: &FormFields, now: Timestamp) -> (r: CreateUserRequest)
    ensures
        r@ == signup_form(vars@, now),
{
    CreateUserRequest {
        name: vars.get("name"),
        email: vars.get("email"),
        password: vars.get("password"),
        password_confirmation: vars.get("password_confirmation"),
        avatar: vars.get("avatar"),
        created_at: now,
        modified_at: now,
    }
}

/// Reads the form that changes a user from the fields of an upload.
pub fn change(vars: &FormFields, now: Timestamp) -> (r: UpdateUserRequest)
    ensures
        r@ == change_form(vars@, now),
{
    UpdateUserRequest {
        name: vars.get("name"),
        email: vars.get("email"),
        password: vars.get("password"),
        password_confirmation: vars.get("password_confirmation"),
        avatar: vars.get("avatar"),
        created_at: None,
        modified_at: Some(now),
        deleted_at: None,
    }
}

/// The changes that mark a user as deleted at `now`.
pub open spec fn trash_patch(now: Timestamp) -> UserPatchView {
    UserPatchView {
        name: None,
        email: None,
        password: None,
        avatar: None,
        modified_at: None,
        deleted_at: Patch::Put(now),
    }
}

/// The changes that take the mark of deletion off a user.
pub open spec fn restore_patch() -> UserPatchView {
    UserPatchView {
        name: None,
        email: None,
        password: None,
        avatar: None,
        modified_at: None,
        deleted_at: Patch::Clear,
    }
}

/// The user to store for a form, given what hashing the password came to;
/// or the refusal of the form; or, where hashing failed, that failure.
pub open spec fn create_user_plan(
    form: Map<Seq<char>, Seq<char>>,
    now: Timestamp,
    hashed: Option<Seq<char>>,
) -> Result<UserView, ServiceErrorView> {
    let request = signup_form(form, now);
    if request.errors().len() > 0 {
        Err(ServiceErrorView::Validation(request.errors()))
    } else if hashed is None {
        Err(ServiceErrorView::Io)
    } else {
        Ok(request.user(hashed->0)->0)
    }
}

/// The changes to make for a form, given what hashing a new password came
/// to; or the refusal of the form; or, where hashing failed, that failure.
/// Without a new password nothing is hashed and the password stays.
pub open spec fn update_user_plan(
    form: Map<Seq<char>, Seq<char>>,
    now: Timestamp,
    hashed: Option<Seq<char>>,
) -> Result<UserPatchView, ServiceErrorView> {
    let request = change_form(form, now);
    if request.errors().len() > 0 {
        Err(ServiceErrorView::Validation(request.errors()))
    } else if request.password is None {
        Ok(request.patch(None))
    } else if hashed is None {
        Err(ServiceErrorView::Io)
    } else {
        Ok(request.patch(hashed))
    }
}

/// What is shown of the stored user that an operation came to.
pub open spec fn shown_outcome(result: Result<DocumentView<UserView>, ServiceErrorView>) -> Result<
    UserResponseView,
    ServiceErrorView,
> {
    match result {
        Ok(stored) => Ok(shown(stored)),
        Err(error) => Err(error),
    }
}

/// What the document of a request came to, as values.
pub open spec fn insert_outcome(result: Result<Insert<User>, ServiceError>) -> Result<
    UserView,
    ServiceErrorView,
> {
    match result {
        Ok(insert) => Ok(insert.document@),
        Err(error) => Err(error@),
    }
}

/// What the changes of a request came to, as values.
pub open spec fn update_outcome(result: Result<Update<UserPatch>, ServiceError>) -> Result<
    UserPatchView,
    ServiceErrorView,
> {
    match result {
        Ok(update) => Ok(update.patch@),
        Err(error) => Err(error@),
    }
}

/// A form without refusals has the fields that a user needs.
pub proof fn lemma_valid_form_is_complete(request: CreateUserRequestView, hashed: Seq<char>)
    requires
        request.errors().len() == 0,
    ensures
        request.name is Some,
        request.email is Some,
        request.password is Some,
        request.avatar is Some,
        request.user(hashed) is Some,
{
}

/// The insert that creates a user from the fields of an upload. A form with
/// refusals is refused with exactly those, and nothing is hashed. Otherwise
/// the password is hashed: where that fails the failure is `Io`, and else the
/// user to store holds the hash in place of the password.
pub fn plan_create_user(vars: &FormFields, now: Timestamp) -> (r: Result<Insert<User>, ServiceError>)
    ensures
        signup_form(vars@, now).errors().len() > 0 ==> insert_outcome(r) == Err::<
            UserView,
            ServiceErrorView,
        >(ServiceErrorView::Validation(signup_form(vars@, now).errors())),
        exists|hashed: Option<Seq<char>>| #[trigger]
            create_user_plan(vars@, now, hashed) == insert_outcome(r),
        r matches Ok(insert) ==> insert.options == InsertOptions::returning_new(),
{
    let request = signup(vars, now);
    match request.password_to_hash() {
        Err(errors) => {
            let r = Err(ServiceError::Validation(errors));
            assert(create_user_plan(vars@, now, None) == insert_outcome(r));
            r
        },
        Ok(password) => match hash_password(password.as_str()) {
            None => {
                let r = Err(ServiceError::Io);
                assert(create_user_plan(vars@, now, None) == insert_outcome(r));
                r
            },
            Some(hashed) => {
                proof {
                    lemma_valid_form_is_complete(request@, hashed@);
                }
                let ghost h = hashed@;
                match request.into_user(hashed) {
                    Some(document) => {
                        let r = Ok(Insert { document, options: InsertOptions::returning_new() });
                        assert(create_user_plan(vars@, now, Some(h)) == insert_outcome(r));
                        r
                    },
                    None => unreached(),
                }
            },
        },
    }
}

/// The update that changes a user from the fields of an upload. A form with
/// refusals is refused with exactly those, and nothing is hashed. Otherwise
/// the fields that are there become the changes, with the time of the
/// change; a new password is hashed, and where that fails the failure is
/// `Io`.
pub fn plan_update_user(key: &str, vars: &FormFields, now: Timestamp) -> (r: Result<
    Update<UserPatch>,
    ServiceError,
>)
    ensures
        change_form(vars@, now).errors().len() > 0 ==> update_outcome(r) == Err::<
            UserPatchView,
            ServiceErrorView,
        >(ServiceErrorView::Validation(change_form(vars@, now).errors())),
        exists|hashed: Option<Seq<char>>| #[trigger]
            update_user_plan(vars@, now, hashed) == update_outcome(r),
        r matches Ok(update) ==> update.key@ == key@ && update.options
            == UpdateOptions::returning_both(true),
{
    let request = change(vars, now);
    let hashed = match request.password_to_hash() {
        Err(errors) => {
            let r = Err(ServiceError::Validation(errors));
            assert(update_user_plan(vars@, now, None) == update_outcome(r));
            return r;
        },
        Ok(None) => None,
        Ok(Some(password)) => match hash_password(password.as_str()) {
            Some(hashed) => Some(hashed),
            None => {
                let r = Err(ServiceError::Io);
                assert(update_user_plan(vars@, now, None) == update_outcome(r));
                return r;
            },
        },
    };
    let ghost h = chars_of(hashed);
    let r = Ok(
        Update {
            key: key.to_owned(),
            patch: request.into_patch(hashed),
            options: UpdateOptions::returning_both(true),
        },
    );
    assert(update_user_plan(vars@, now, h) == update_outcome(r));
    r
}

/// The update that marks the user under `key` as deleted at `now`.
pub fn plan_trash_user(key: &str, now: Timestamp) -> (r: Update<UserPatch>)
    ensures
        r.key@ == key@,
        r.patch@ == trash_patch(now),
        r.options == UpdateOptions::returning_both(true),
{
    Update {
        key: key.to_owned(),
        patch: UserPatch {
            name: None,
            email: None,
            password: None,
            avatar: None,
            modified_at: None,
            deleted_at: Patch::Put(now),
        },
        options: UpdateOptions::returning_both(true),
    }
}

/// The update that takes the mark of deletion off the user under `key`. It
/// asks that the field be removed, not kept as a null.
pub fn plan_restore_user(key: &str) -> (r: Update<UserPatch>)
    ensures
        r.key@ == key@,
        r.patch@ == restore_patch(),
        r.options == UpdateOptions::returning_both(false),
{
    Update {
        key: key.to_owned(),
        patch: UserPatch {
            name: None,
            email: None,
            password: None,
            avatar: None,
            modified_at: None,
            deleted_at: Patch::Clear,
        },
        options: UpdateOptions::returning_both(false),
    }
}

/// The removal of the user under `key`, which returns the user removed.
pub fn plan_erase_user(key: &str) -> (r: Remove)
    ensures
        r.key@ == key@,
        r.options == RemoveOptions::returning_old(),
{
    Remove { key: key.to_owned(), options: RemoveOptions::returning_old() }
}

/// What is shown of the user that an operation came to.
pub fn respond(result: Result<Document<User>, ServiceError>) -> (r: Result<UserResponse, ServiceError>)
    ensures
        outcome(r) == shown_outcome(outcome(result)),
{
    match result {
        Ok(stored) => Ok(UserResponse::of(stored)),
        Err(error) => Err(error),
    }
}

/// The user after a write, as it is shown, from the database's answer.
pub fn user_written(reply: Result<DocumentResponse<User>, DbFailure>) -> (r: Result<
    UserResponse,
    ServiceError,
>)
    ensures
        outcome(r) == shown_outcome(written(reply_view(reply))),
{
    respond(new_document(reply))
}

/// The user before a removal, as it is shown, from the database's answer.
pub fn user_removed(reply: Result<DocumentResponse<User>, DbFailure>) -> (r: Result<
    UserResponse,
    ServiceError,
>)
    ensures
        outcome(r) == shown_outcome(removed(reply_view(reply))),
{
    respond(old_document(reply))
}

/// The user that was read, as it is shown, from the database's answer.
pub fn user_found(reply: Result<Document<User>, DbFailure>) -> (r: Result<UserResponse, ServiceError>)
    ensures
        outcome(r) == shown_outcome(fetched(reply_view(reply))),
{
    respond(found(reply))
}

/// The query that lists users, or the refusals of what was asked for. The
/// query returns every user without the password.
pub fn find_users(params: FindUsersParams) -> (r: Result<ListQuery, ValidationErrors>)
    ensures
        match r {
            Ok(query) => find_errors(chars_of(params.sort_by), params.limit).len() == 0 && query@
                == list_query(
                Listing::Users,
                chars_of(params.search),
                chars_of(params.sort_by),
                params.limit,
            ),
            Err(errors) => errors@ == find_errors(chars_of(params.sort_by), params.limit)
                && errors@.len() > 0,
        },
{
    match params.validate() {
        Ok(()) => Ok(build_list_query(Listing::Users, &params.search, &params.sort_by, &params.limit)),
        Err(errors) => Err(errors),
    }
}

/// Showing a user: the stored user under `key` without the password, or
/// `NotFound`.
pub open spec fn show_user_step(store: CollectionView<UserView>, key: Seq<char>) -> Result<
    UserResponseView,
    ServiceErrorView,
> {
    shown_outcome(fetched(store.fetch(key)))
}

/// Creating a user: a form that is refused changes nothing; else the user
/// is stored under the next key and shown.
pub open spec fn create_user_step(
    store: CollectionView<UserView>,
    form: Map<Seq<char>, Seq<char>>,
    now: Timestamp,
    hashed: Option<Seq<char>>,
) -> (CollectionView<UserView>, Result<UserResponseView, ServiceErrorView>) {
    match create_user_plan(form, now, hashed) {
        Err(error) => (store, Err(error)),
        Ok(user) => {
            let (after, reply) = store.insert(user, InsertOptions::returning_new());
            (after, shown_outcome(written(reply)))
        },
    }
}

/// Changing a user: a form that is refused changes nothing; else the
/// changes are merged into the user under `key`, which is shown.
pub open spec fn update_user_step(
    store: CollectionView<UserView>,
    key: Seq<char>,
    form: Map<Seq<char>, Seq<char>>,
    now: Timestamp,
    hashed: Option<Seq<char>>,
) -> (CollectionView<UserView>, Result<UserResponseView, ServiceErrorView>) {
    match update_user_plan(form, now, hashed) {
        Err(error) => (store, Err(error)),
        Ok(patch) => {
            let (after, reply) = update::<User>(
                store,
                key,
                patch,
                UpdateOptions::returning_both(true),
            );
            (after, shown_outcome(written(reply)))
        },
    }
}

/// Marking a user as deleted.
pub open spec fn trash_user_step(store: CollectionView<UserView>, key: Seq<char>, now: Timestamp) -> (
    CollectionView<UserView>,
    Result<UserResponseView, ServiceErrorView>,
) {
    let (after, reply) = update::<User>(
        store,
        key,
        trash_patch(now),
        UpdateOptions::returning_both(true),
    );
    (after, shown_outcome(written(reply)))
}

/// Taking the mark of deletion off a user.
pub open spec fn restore_user_step(store: CollectionView<UserView>, key: Seq<char>) -> (
    CollectionView<UserView>,
    Result<UserResponseView, ServiceErrorView>,
) {
    let (after, reply) = update::<User>(
        store,
        key,
        restore_patch(),
        UpdateOptions::returning_both(false),
    );
    (after, shown_outcome(written(reply)))
}

/// Removing a user for good: what is shown is the user as it was.
pub open spec fn erase_user_step(store: CollectionView<UserView>, key: Seq<char>) -> (
    CollectionView<UserView>,
    Result<UserResponseView, ServiceErrorView>,
) {
    let (after, reply) = store.remove(key, RemoveOptions::returning_old());
    (after, shown_outcome(removed(reply)))
}

/// Shows the user under `key`.
pub fn show_user(key: &str, users: &Collection<User>) -> (r: Result<UserResponse, ServiceError>)
    ensures
        outcome(r) == show_user_step(users@, key@),
{
    user_found(users.document(key))
}

/// Creates a user from the fields of an upload. A form that is refused
/// leaves the collection as it was.
pub fn create_user(vars: &FormFields, now: Timestamp, users: &mut Collection<User>) -> (r: Result<
    UserResponse,
    ServiceError,
>)
    ensures
        signup_form(vars@, now).errors().len() > 0 ==> final(users)@ == old(users)@ && outcome(r)
            == Err::<UserResponseView, ServiceErrorView>(
            ServiceErrorView::Validation(signup_form(vars@, now).errors()),
        ),
        exists|hashed: Option<Seq<char>>| #[trigger]
            create_user_step(old(users)@, vars@, now, hashed) == (final(users)@, outcome(r)),
{
    match plan_create_user(vars, now) {
        Err(error) => {
            let r = Err(error);
            proof {
                let hashed = choose|hashed: Option<Seq<char>>| #[trigger]
                    create_user_plan(vars@, now, hashed) == Err::<UserView, ServiceErrorView>(
                        error@,
                    );
                assert(create_user_step(users@, vars@, now, hashed) == (users@, outcome(r)));
            }
            r
        },
        Ok(insert) => {
            proof {
                let hashed = choose|hashed: Option<Seq<char>>| #[trigger]
                    create_user_plan(vars@, now, hashed) == Ok::<UserView, ServiceErrorView>(
                        insert.document@,
                    );
                assert(create_user_plan(vars@, now, hashed) == Ok::<UserView, ServiceErrorView>(
                    insert.document@,
                ));
            }
            let ghost document = insert.document@;
            let r = user_written(users.create_document(insert.document, insert.options));
            proof {
                let hashed = choose|hashed: Option<Seq<char>>| #[trigger]
                    create_user_plan(vars@, now, hashed) == Ok::<UserView, ServiceErrorView>(
                        document,
                    );
                assert(create_user_step(old(users)@, vars@, now, hashed) == (users@, outcome(r)));
            }
            r
        },
    }
}

/// Changes the user under `key` from the fields of an upload. A form that is
/// refused leaves the collection as it was.
pub fn update_user(key: &str, vars: &FormFields, now: Timestamp, users: &mut Collection<User>) -> (r:
    Result<UserResponse, ServiceError>)
    ensures
        change_form(vars@, now).errors().len() > 0 ==> final(users)@ == old(users)@ && outcome(r)
            == Err::<UserResponseView, ServiceErrorView>(
            ServiceErrorView::Validation(change_form(vars@, now).errors()),
        ),
        exists|hashed: Option<Seq<char>>| #[trigger]
            update_user_step(old(users)@, key@, vars@, now, hashed) == (final(users)@, outcome(r)),
{
    match plan_update_user(key, vars, now) {
        Err(error) => {
            let r = Err(error);
            proof {
                let hashed = choose|hashed: Option<Seq<char>>| #[trigger]
                    update_user_plan(vars@, now, hashed) == Err::<UserPatchView, ServiceErrorView>(
                        error@,
                    );
                assert(update_user_step(users@, key@, vars@, now, hashed) == (users@, outcome(r)));
            }
            r
        },
        Ok(request) => {
            let ghost patch = request.patch@;
            let r = user_written(
                users.update_document(request.key.as_str(), request.patch, request.options),
            );
            proof {
                let hashed = choose|hashed: Option<Seq<char>>| #[trigger]
                    update_user_plan(vars@, now, hashed) == Ok::<UserPatchView, ServiceErrorView>(
                        patch,
                    );
                assert(update_user_step(old(users)@, key@, vars@, now, hashed) == (
                    users@,
                    outcome(r),
                ));
            }
            r
        },
    }
}

/// Marks the user under `key` as deleted at `now`, and shows it.
pub fn trash_user(key: &str, now: Timestamp, users: &mut Collection<User>) -> (r: Result<
    UserResponse,
    ServiceError,
>)
    ensures
        (final(users)@, outcome(r)) == trash_user_step(old(users)@, key@, now),
{
    let request = plan_trash_user(key, now);
    user_written(users.update_document(request.key.as_str(), request.patch, request.options))
}

/// Takes the mark of deletion off the user under `key`, and shows it.
pub fn restore_user(key: &str, users: &mut Collection<User>) -> (r: Result<UserResponse, ServiceError>)
    ensures
        (final(users)@, outcome(r)) == restore_user_step(old(users)@, key@),
{
    let request = plan_restore_user(key);
    user_written(users.update_document(request.key.as_str(), request.patch, request.options))
}

/// Removes the user under `key` for good, and shows it as it was.
pub fn erase_user(key: &str, users: &mut Collection<User>) -> (r: Result<UserResponse, ServiceError>)
    ensures
        (final(users)@, outcome(r)) == erase_user_step(old(users)@, key@),
{
    let request = plan_erase_user(key);
    user_removed(users.remove_document(request.key.as_str(), request.options))
}

} // verus!
