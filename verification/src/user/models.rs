//! The shapes of user data.

use vstd::prelude::*;
use vstd::pervasive::unreached;
use crate::document::{apply_time, replace_text, replaced, Document, DocumentView, Patch, Record};
use crate::errors::{Field, FieldError, Reason, ValidationErrors};
use crate::text::{chars_of, copy_text};
use crate::time::Timestamp;
use crate::validation::{
    find_errors, is_mode, refusal, user_errors, validate_find, validate_mode, validate_user,
};

verus! {

/// What a listing of users may ask for.
#[derive(Clone, Debug, PartialEq, Eq)]
pub struct FindUsersParams {
    pub search: Option<String>,
    pub sort_by: Option<String>,
    pub limit: Option<u32>,
}

impl FindUsersParams {
    /// Checks the sort field and the limit.
    pub fn validate(&self) -> (r: Result<(), ValidationErrors>)
        ensures
            match r {
                Ok(_) => find_errors(chars_of(self.sort_by), self.limit).len() == 0,
                Err(e) => e@ == find_errors(chars_of(self.sort_by), self.limit) && e@.len() > 0,
            },
    {
        validate_find(&self.sort_by, &self.limit)
    }
}

/// How a user is to be deleted or brought back.
#[derive(Clone, Debug, PartialEq, Eq)]
pub struct DeleteUserParams {
    pub mode: String,
}

impl DeleteUserParams {
    /// Checks the mode.
    pub fn validate(&self) -> (r: Result<(), ValidationErrors>)
        ensures
            match r {
                Ok(_) => is_mode(self.mode@),
                Err(e) => e@ == refusal(Field::Mode, Reason::WrongMode) && !is_mode(self.mode@),
            },
    {
        match validate_mode(self.mode.as_str()) {
            Ok(()) => Ok(()),
            Err(reason) => {
                let mut errors = ValidationErrors::new();
                errors.add(Field::Mode, reason);
                assert(errors@ =~= refusal(Field::Mode, Reason::WrongMode));
                Err(errors)
            },
        }
    }
}

/// A stored user.
#[derive(Clone, Debug, PartialEq, Eq)]
pub struct User {
    pub name: String,
    pub email: String,
    /// The salted hash of the password, never the password.
    pub password: String,
    pub avatar: String,
    pub created_at: Timestamp,
    pub modified_at: Timestamp,
    pub deleted_at: Option<Timestamp>,
}

/// A stored user's texts and times.
pub struct UserView {
    pub name: Seq<char>,
    pub email: Seq<char>,
    pub password: Seq<char>,
    pub avatar: Seq<char>,
    pub created_at: Timestamp,
    pub modified_at: Timestamp,
    pub deleted_at: Option<Timestamp>,
}

impl View for User {
    type V = UserView;

    open spec fn view(&self) -> UserView {
        UserView {
            name: self.name@,
            email: self.email@,
            password: self.password@,
            avatar: self.avatar@,
            created_at: self.created_at,
            modified_at: self.modified_at,
            deleted_at: self.deleted_at,
        }
    }
}

/// The changes that an update makes to a stored user. A field that every
/// user has can be replaced; the time of deletion can also be removed.
#[derive(Clone, Debug, PartialEq, Eq)]
pub struct UserPatch {
    pub name: Option<String>,
    pub email: Option<String>,
    pub password: Option<String>,
    pub avatar: Option<String>,
    pub modified_at: Option<Timestamp>,
    pub deleted_at: Patch<Timestamp>,
}

/// The changes as values.
pub struct UserPatchView {
    pub name: Option<Seq<char>>,
    pub email: Option<Seq<char>>,
    pub password: Option<Seq<char>>,
    pub avatar: Option<Seq<char>>,
    pub modified_at: Option<Timestamp>,
    pub deleted_at: Patch<Timestamp>,
}

impl View for UserPatch {
    type V = UserPatchView;

    open spec fn view(&self) -> UserPatchView {
        UserPatchView {
            name: chars_of(self.name),
            email: chars_of(self.email),
            password: chars_of(self.password),
            avatar: chars_of(self.avatar),
            modified_at: self.modified_at,
            deleted_at: self.deleted_at,
        }
    }
}

impl Record for User {
    type Patch = UserPatch;

    open spec fn merged(doc: UserView, patch: UserPatchView) -> UserView {
        UserView {
            name: replaced(patch.name, doc.name),
            email: replaced(patch.email, doc.email),
            password: replaced(patch.password, doc.password),
            avatar: replaced(patch.avatar, doc.avatar),
            created_at: doc.created_at,
            modified_at: replaced(patch.modified_at, doc.modified_at),
            deleted_at: patch.deleted_at.applied(doc.deleted_at),
        }
    }

    fn merge(&self, patch: &UserPatch) -> (r: User) {
        User {
            name: replace_text(&patch.name, &self.name),
            email: replace_text(&patch.email, &self.email),
            password: replace_text(&patch.password, &self.password),
            avatar: replace_text(&patch.avatar, &self.avatar),
            created_at: self.created_at,
            modified_at: match patch.modified_at {
                Some(t) => t,
                None => self.modified_at,
            },
            deleted_at: apply_time(&patch.deleted_at, &self.deleted_at),
        }
    }

    fn copy(&self) -> (r: User) {
        User {
            name: self.name.clone(),
            email: self.email.clone(),
            password: self.password.clone(),
            avatar: self.avatar.clone(),
            created_at: self.created_at,
            modified_at: self.modified_at,
            deleted_at: self.deleted_at,
        }
    }
}

/// The form that creates a user, with the time at which it came.
#[derive(Clone, Debug, PartialEq, Eq)]
pub struct CreateUserRequest {
    pub name: Option<String>,
    pub email: Option<String>,
    pub password: Option<String>,
    pub password_confirmation: Option<String>,
    pub avatar: Option<String>,
    pub created_at: Timestamp,
    pub modified_at: Timestamp,
}

/// The form's texts and times.
pub struct CreateUserRequestView {
    pub name: Option<Seq<char>>,
    pub email: Option<Seq<char>>,
    pub password: Option<Seq<char>>,
    pub password_confirmation: Option<Seq<char>>,
    pub avatar: Option<Seq<char>>,
    pub created_at: Timestamp,
    pub modified_at: Timestamp,
}

impl View for CreateUserRequest {
    type V = CreateUserRequestView;

    open spec fn view(&self) -> CreateUserRequestView {
        CreateUserRequestView {
            name: chars_of(self.name),
            email: chars_of(self.email),
            password: chars_of(self.password),
            password_confirmation: chars_of(self.password_confirmation),
            avatar: chars_of(self.avatar),
            created_at: self.created_at,
            modified_at: self.modified_at,
        }
    }
}

impl CreateUserRequestView {
    /// The refusals of the form: every field is required, the email has to
    /// be an address, the password has six characters or more and is
    /// repeated.
    pub open spec fn errors(self) -> Seq<FieldError> {
        user_errors(
            self.name,
            self.email,
            self.password,
            self.password_confirmation,
            self.avatar,
            true,
        )
    }

    /// The user that the form creates once `hashed` stands for its password.
    pub open spec fn user(self, hashed: Seq<char>) -> Option<UserView> {
        match (self.name, self.email, self.avatar) {
            (Some(name), Some(email), Some(avatar)) => Some(
                UserView {
                    name,
                    email,
                    password: hashed,
                    avatar,
                    created_at: self.created_at,
                    modified_at: self.modified_at,
                    deleted_at: None,
                },
            ),
            _ => None,
        }
    }
}

impl CreateUserRequest {
    /// Checks the form.
    pub fn validate(&self) -> (r: Result<(), ValidationErrors>)
        ensures
            match r {
                Ok(_) => self@.errors().len() == 0,
                Err(e) => e@ == self@.errors() && e@.len() > 0,
            },
    {
        validate_user(
            &self.name,
            &self.email,
            &self.password,
            &self.password_confirmation,
            &self.avatar,
            true,
        )
    }

    /// The password to hash for a form that is accepted, or the refusals of
    /// a form that is not.
    pub fn password_to_hash(&self) -> (r: Result<String, ValidationErrors>)
        ensures
            match r {
                Ok(password) => self@.errors().len() == 0 && self@.password == Some(password@),
                Err(e) => e@ == self@.errors() && e@.len() > 0,
            },
    {
        match self.validate() {
            Err(errors) => Err(errors),
            Ok(()) => match &self.password {
                Some(password) => Ok(password.clone()),
                None => unreached(),
            },
        }
    }

    /// The user to store for this form, with `hashed` in place of the
    /// password; none if the form lacks the name, the email or the avatar.
    /// Neither the password nor its repetition is in the result.
    pub fn into_user(self, hashed: String) -> (r: Option<User>)
        ensures
            match r {
                Some(user) => Some(user@) == self@.user(hashed@),
                None => self@.user(hashed@) is None,
            },
    {
        match (self.name, self.email, self.avatar) {
            (Some(name), Some(email), Some(avatar)) => Some(
                User {
                    name,
                    email,
                    password: hashed,
                    avatar,
                    created_at: self.created_at,
                    modified_at: self.modified_at,
                    deleted_at: None,
                },
            ),
            _ => None,
        }
    }
}

/// The form that changes a user: only the fields that are there change.
#[derive(Clone, Debug, PartialEq, Eq)]
pub struct UpdateUserRequest {
    pub name: Option<String>,
    pub email: Option<String>,
    pub password: Option<String>,
    pub password_confirmation: Option<String>,
    pub avatar: Option<String>,
    pub created_at: Option<Timestamp>,
    pub modified_at: Option<Timestamp>,
    pub deleted_at: Option<Timestamp>,
}

/// The form's texts and times.
pub struct UpdateUserRequestView {
    pub name: Option<Seq<char>>,
    pub email: Option<Seq<char>>,
    pub password: Option<Seq<char>>,
    pub password_confirmation: Option<Seq<char>>,
    pub avatar: Option<Seq<char>>,
    pub created_at: Option<Timestamp>,
    pub modified_at: Option<Timestamp>,
    pub deleted_at: Option<Timestamp>,
}

impl View for UpdateUserRequest {
    type V = UpdateUserRequestView;

    open spec fn view(&self) -> UpdateUserRequestView {
        UpdateUserRequestView {
            name: chars_of(self.name),
            email: chars_of(self.email),
            password: chars_of(self.password),
            password_confirmation: chars_of(self.password_confirmation),
            avatar: chars_of(self.avatar),
            created_at: self.created_at,
            modified_at: self.modified_at,
            deleted_at: self.deleted_at,
        }
    }
}

impl UpdateUserRequestView {
    /// The refusals of the form: no field is required, and a field that is
    /// there meets the rule of its kind.
    pub open spec fn errors(self) -> Seq<FieldError> {
        user_errors(
            self.name,
            self.email,
            self.password,
            self.password_confirmation,
            self.avatar,
            false,
        )
    }

    /// The changes that the form asks for, with `hashed` in place of a new
    /// password. The repeated password and the time of creation are not
    /// among them, and the time of deletion stays as it is.
    pub open spec fn patch(self, hashed: Option<Seq<char>>) -> UserPatchView {
        UserPatchView {
            name: self.name,
            email: self.email,
            password: hashed,
            avatar: self.avatar,
            modified_at: self.modified_at,
            deleted_at: Patch::Keep,
        }
    }
}

impl UpdateUserRequest {
    /// Checks the form.
    pub fn validate(&self) -> (r: Result<(), ValidationErrors>)
        ensures
            match r {
                Ok(_) => self@.errors().len() == 0,
                Err(e) => e@ == self@.errors() && e@.len() > 0,
            },
    {
        validate_user(
            &self.name,
            &self.email,
            &self.password,
            &self.password_confirmation,
            &self.avatar,
            false,
        )
    }

    /// The new password to hash for a form that is accepted, if it holds
    /// one, or the refusals of a form that is not.
    pub fn password_to_hash(&self) -> (r: Result<Option<String>, ValidationErrors>)
        ensures
            match r {
                Ok(password) => self@.errors().len() == 0 && self@.password == chars_of(password),
                Err(e) => e@ == self@.errors() && e@.len() > 0,
            },
    {
        match self.validate() {
            Err(errors) => Err(errors),
            Ok(()) => Ok(copy_text(&self.password)),
        }
    }

    /// The changes that the form asks for, with `hashed` in place of a new
    /// password.
    pub fn into_patch(self, hashed: Option<String>) -> (r: UserPatch)
        ensures
            r@ == self@.patch(chars_of(hashed)),
    {
        UserPatch {
            name: self.name,
            email: self.email,
            password: hashed,
            avatar: self.avatar,
            modified_at: self.modified_at,
            deleted_at: Patch::Keep,
        }
    }
}

/// A user as the service shows it: the stored record with its identity and
/// without the password.
#[derive(Clone, Debug, PartialEq, Eq)]
pub struct UserResponse {
    pub _id: String,
    pub _key: String,
    pub _rev: String,
    pub name: String,
    pub email: String,
    pub avatar: String,
    pub created_at: Timestamp,
    pub modified_at: Timestamp,
    pub deleted_at: Option<Timestamp>,
}

/// A shown user's texts and times.
pub struct UserResponseView {
    pub _id: Seq<char>,
    pub _key: Seq<char>,
    pub _rev: Seq<char>,
    pub name: Seq<char>,
    pub email: Seq<char>,
    pub avatar: Seq<char>,
    pub created_at: Timestamp,
    pub modified_at: Timestamp,
    pub deleted_at: Option<Timestamp>,
}

impl View for UserResponse {
    type V = UserResponseView;

    open spec fn view(&self) -> UserResponseView {
        UserResponseView {
            _id: self._id@,
            _key: self._key@,
            _rev: self._rev@,
            name: self.name@,
            email: self.email@,
            avatar: self.avatar@,
            created_at: self.created_at,
            modified_at: self.modified_at,
            deleted_at: self.deleted_at,
        }
    }
}

/// What is shown of a stored user.
pub open spec fn shown(stored: DocumentView<UserView>) -> UserResponseView {
    UserResponseView {
        _id: stored.header.id,
        _key: stored.header.key,
        _rev: stored.header.rev,
        name: stored.document.name,
        email: stored.document.email,
        avatar: stored.document.avatar,
        created_at: stored.document.created_at,
        modified_at: stored.document.modified_at,
        deleted_at: stored.document.deleted_at,
    }
}

impl UserResponse {
    /// What is shown of a stored user: everything but the password.
    pub fn of(stored: Document<User>) -> (r: UserResponse)
        ensures
            r@ == shown(stored@),
    {
        UserResponse {
            _id: stored.header.id,
            _key: stored.header.key,
            _rev: stored.header.rev,
            name: stored.document.name,
            email: stored.document.email,
            avatar: stored.document.avatar,
            created_at: stored.document.created_at,
            modified_at: stored.document.modified_at,
            deleted_at: stored.document.deleted_at,
        }
    }
}

} // verus!
