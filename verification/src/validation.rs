//! The rules that request fields have to meet before any work is done.

use vstd::prelude::*;
use vstd::string::StrSliceExecFns;
use crate::errors::{Field, FieldError, Reason, ValidationErrors};
use crate::text::{chars_of, same_text};

verus! {

/// The smallest and the largest number of records that a listing may ask for.
pub const LIMIT_MIN: u32 = 1;

pub const LIMIT_MAX: u32 = 100;

/// The least number of characters in a password.
pub const PASSWORD_MIN: usize = 6;

/// The fields by which a listing can be sorted.
pub open spec fn is_sort_field(sort_by: Seq<char>) -> bool {
    sort_by == "name"@ || sort_by == "since"@
}

/// The ways in which a record can be deleted or brought back.
pub open spec fn is_mode(mode: Seq<char>) -> bool {
    mode == "erase"@ || mode == "trash"@ || mode == "restore"@
}

/// The numbers of records that a listing may ask for.
pub open spec fn limit_in_range(limit: u32) -> bool {
    LIMIT_MIN <= limit <= LIMIT_MAX
}

/// Accepts the sort fields `name` and `since`, and no other text.
pub fn validate_sort_by(sort_by: &str) -> (r: Result<(), Reason>)
    ensures
        r == if is_sort_field(sort_by@) {
            Ok::<(), Reason>(())
        } else {
            Err(Reason::WrongSortBy)
        },
{
    if same_text(sort_by, "name") || same_text(sort_by, "since") {
        Ok(())
    } else {
        Err(Reason::WrongSortBy)
    }
}

/// Accepts the modes `erase`, `trash` and `restore`, and no other text.
pub fn validate_mode(mode: &str) -> (r: Result<(), Reason>)
    ensures
        r == if is_mode(mode@) {
            Ok::<(), Reason>(())
        } else {
            Err(Reason::WrongMode)
        },
{
    if same_text(mode, "erase") || same_text(mode, "trash") || same_text(mode, "restore") {
        Ok(())
    } else {
        Err(Reason::WrongMode)
    }
}

/// The ways in which a record can be deleted or brought back.
#[derive(Clone, Copy, Debug, PartialEq, Eq, Structural)]
pub enum DeleteMode {
    /// The record is removed for good.
    Erase,
    /// The record is marked as deleted.
    Trash,
    /// The mark of deletion is taken off.
    Restore,
}

/// The mode that a text names, if it names one.
pub open spec fn mode_of(mode: Seq<char>) -> Option<DeleteMode> {
    if mode == "erase"@ {
        Some(DeleteMode::Erase)
    } else if mode == "trash"@ {
        Some(DeleteMode::Trash)
    } else if mode == "restore"@ {
        Some(DeleteMode::Restore)
    } else {
        None
    }
}

/// Reads a delete mode.
pub fn parse_mode(mode: &str) -> (r: Option<DeleteMode>)
    ensures
        r == mode_of(mode@),
        r is Some <==> is_mode(mode@),
{
    if same_text(mode, "erase") {
        Some(DeleteMode::Erase)
    } else if same_text(mode, "trash") {
        Some(DeleteMode::Trash)
    } else if same_text(mode, "restore") {
        Some(DeleteMode::Restore)
    } else {
        None
    }
}

/// Accepts the limits from 1 to 100.
pub fn validate_limit(limit: u32) -> (r: Result<(), Reason>)
    ensures
        r == if limit_in_range(limit) {
            Ok::<(), Reason>(())
        } else {
            Err(Reason::Range)
        },
{
    if LIMIT_MIN <= limit && limit <= LIMIT_MAX {
        Ok(())
    } else {
        Err(Reason::Range)
    }
}

/// What `validator::validate_email` answers for an address.
pub uninterp spec fn email_is_valid(address: Seq<char>) -> bool;

/// Calls `validator::validate_email`, which decides from the text alone
/// whether it is an email address as HTML5 defines one. The contract names
/// that answer, and states that a text without `@` is refused.
#[verifier::external_body]
fn check_email(address: &str) -> (r: bool)
    ensures
        r == email_is_valid(address@),
        r ==> address@.contains('@'),
{
    validator::validate_email(address)
}

/// Whether the text is an email address.
pub fn is_email(address: &str) -> (r: bool)
    ensures
        r == email_is_valid(address@),
        r ==> address@.contains('@'),
{
    check_email(address)
}

/// The refusal of `field` for `reason`, as a list of one.
pub open spec fn refusal(field: Field, reason: Reason) -> Seq<FieldError> {
    seq![FieldError { field, reason }]
}

/// The refusals of a listing's sort field and limit.
pub open spec fn find_errors(sort_by: Option<Seq<char>>, limit: Option<u32>) -> Seq<FieldError> {
    (match sort_by {
        Some(s) if !is_sort_field(s) => refusal(Field::SortBy, Reason::WrongSortBy),
        _ => Seq::empty(),
    }) + (match limit {
        Some(n) if !limit_in_range(n) => refusal(Field::Limit, Reason::Range),
        _ => Seq::empty(),
    })
}

/// The refusals of a field that only has to be there.
pub open spec fn presence_errors(field: Field, value: Option<Seq<char>>, required: bool) -> Seq<
    FieldError,
> {
    if value is None && required {
        refusal(field, Reason::Required)
    } else {
        Seq::empty()
    }
}

/// The refusals of an email field, given what the check of its address came
/// to where there is an address.
pub open spec fn email_verdict(checked: Option<bool>, required: bool) -> Seq<FieldError> {
    match checked {
        None => if required {
            refusal(Field::Email, Reason::Required)
        } else {
            Seq::empty()
        },
        Some(true) => Seq::empty(),
        Some(false) => refusal(Field::Email, Reason::Email),
    }
}

/// The refusals of an email field.
pub open spec fn email_errors(value: Option<Seq<char>>, required: bool) -> Seq<FieldError> {
    email_verdict(
        match value {
            Some(address) => Some(email_is_valid(address)),
            None => None,
        },
        required,
    )
}

/// The refusals of a password field.
pub open spec fn password_errors(value: Option<Seq<char>>, required: bool) -> Seq<FieldError> {
    match value {
        None => presence_errors(Field::Password, value, required),
        Some(password) => if password.len() >= PASSWORD_MIN {
            Seq::empty()
        } else {
            refusal(Field::Password, Reason::Length)
        },
    }
}

/// The refusals of the field that repeats the password.
pub open spec fn confirmation_errors(
    value: Option<Seq<char>>,
    password: Option<Seq<char>>,
    required: bool,
) -> Seq<FieldError> {
    match value {
        None => presence_errors(Field::PasswordConfirmation, value, required),
        Some(_) => if value == password {
            Seq::empty()
        } else {
            refusal(Field::PasswordConfirmation, Reason::MustMatch)
        },
    }
}

/// The refusals of the five fields of a user form, in the order of the form.
pub open spec fn user_errors(
    name: Option<Seq<char>>,
    email: Option<Seq<char>>,
    password: Option<Seq<char>>,
    password_confirmation: Option<Seq<char>>,
    avatar: Option<Seq<char>>,
    required: bool,
) -> Seq<FieldError> {
    presence_errors(Field::Name, name, required) + email_errors(email, required) + password_errors(
        password,
        required,
    ) + confirmation_errors(password_confirmation, password, required) + presence_errors(
        Field::Avatar,
        avatar,
        required,
    )
}

/// Ends a validation: no refusal is success, any refusal is the failure.
pub fn conclude(errors: ValidationErrors) -> (r: Result<(), ValidationErrors>)
    ensures
        match r {
            Ok(_) => errors@.len() == 0,
            Err(e) => e == errors && errors@.len() > 0,
        },
{
    if errors.is_empty() {
        Ok(())
    } else {
        Err(errors)
    }
}

/// Checks a listing's sort field and limit.
pub fn validate_find(sort_by: &Option<String>, limit: &Option<u32>) -> (r: Result<
    (),
    ValidationErrors,
>)
    ensures
        match r {
            Ok(_) => find_errors(chars_of(*sort_by), *limit).len() == 0,
            Err(e) => e@ == find_errors(chars_of(*sort_by), *limit) && e@.len() > 0,
        },
{
    let mut errors = ValidationErrors::new();
    match sort_by {
        Some(s) => {
            if let Err(reason) = validate_sort_by(s.as_str()) {
                errors.add(Field::SortBy, reason);
            }
        },
        None => {},
    }
    match limit {
        Some(n) => {
            if let Err(reason) = validate_limit(*n) {
                errors.add(Field::Limit, reason);
            }
        },
        None => {},
    }
    assert(errors@ =~= find_errors(chars_of(*sort_by), *limit));
    conclude(errors)
}

/// Adds the refusals of a field that only has to be there.
fn check_presence(errors: &mut ValidationErrors, field: Field, value: &Option<String>, required: bool)
    ensures
        final(errors)@ == old(errors)@ + presence_errors(field, chars_of(*value), required),
{
    if value.is_none() && required {
        errors.add(field, Reason::Required);
    }
    assert(errors@ =~= old(errors)@ + presence_errors(field, chars_of(*value), required));
}

/// Adds the refusals of an email field, given what the check of its address
/// came to where there is an address: an absent address is refused if the
/// field is required, and an address that is none is refused as such.
pub fn judge_email(errors: &mut ValidationErrors, checked: Option<bool>, required: bool)
    ensures
        final(errors)@ == old(errors)@ + email_verdict(checked, required),
{
    match checked {
        None => {
            if required {
                errors.add(Field::Email, Reason::Required);
            }
        },
        Some(true) => {},
        Some(false) => {
            errors.add(Field::Email, Reason::Email);
        },
    }
    assert(errors@ =~= old(errors)@ + email_verdict(checked, required));
}

/// Adds the refusals of an email field.
fn check_email_field(errors: &mut ValidationErrors, value: &Option<String>, required: bool)
    ensures
        final(errors)@ == old(errors)@ + email_errors(chars_of(*value), required),
{
    let checked = match value {
        Some(address) => Some(is_email(address.as_str())),
        None => None,
    };
    judge_email(errors, checked, required);
}

/// Adds the refusals of a password field.
fn check_password(errors: &mut ValidationErrors, value: &Option<String>, required: bool)
    ensures
        final(errors)@ == old(errors)@ + password_errors(chars_of(*value), required),
{
    match value {
        None => check_presence(errors, Field::Password, value, required),
        Some(password) => {
            if password.as_str().unicode_len() < PASSWORD_MIN {
                errors.add(Field::Password, Reason::Length);
            }
        },
    }
    assert(errors@ =~= old(errors)@ + password_errors(chars_of(*value), required));
}

/// Adds the refusals of the field that repeats the password.
fn check_confirmation(
    errors: &mut ValidationErrors,
    value: &Option<String>,
    password: &Option<String>,
    required: bool,
)
    ensures
        final(errors)@ == old(errors)@ + confirmation_errors(
            chars_of(*value),
            chars_of(*password),
            required,
        ),
{
    match value {
        None => check_presence(errors, Field::PasswordConfirmation, value, required),
        Some(repeated) => {
            let matches = match password {
                Some(p) => same_text(repeated.as_str(), p.as_str()),
                None => false,
            };
            if !matches {
                errors.add(Field::PasswordConfirmation, Reason::MustMatch);
            }
        },
    }
    assert(errors@ =~= old(errors)@ + confirmation_errors(
        chars_of(*value),
        chars_of(*password),
        required,
    ));
}

/// Checks the five fields of a user form. With `required` every field has to
/// be there; without it only the fields that are there are checked.
pub fn validate_user(
    name: &Option<String>,
    email: &Option<String>,
    password: &Option<String>,
    password_confirmation: &Option<String>,
    avatar: &Option<String>,
    required: bool,
) -> (r: Result<(), ValidationErrors>)
    ensures
        match r {
            Ok(_) => user_errors(
                chars_of(*name),
                chars_of(*email),
                chars_of(*password),
                chars_of(*password_confirmation),
                chars_of(*avatar),
                required,
            ).len() == 0,
            Err(e) => e@ == user_errors(
                chars_of(*name),
                chars_of(*email),
                chars_of(*password),
                chars_of(*password_confirmation),
                chars_of(*avatar),
                required,
            ) && e@.len() > 0,
        },
{
    let mut errors = ValidationErrors::new();
    check_presence(&mut errors, Field::Name, name, required);
    check_email_field(&mut errors, email, required);
    check_password(&mut errors, password, required);
    check_confirmation(&mut errors, password_confirmation, password, required);
    check_presence(&mut errors, Field::Avatar, avatar, required);
    assert(errors@ =~= user_errors(
        chars_of(*name),
        chars_of(*email),
        chars_of(*password),
        chars_of(*password_confirmation),
        chars_of(*avatar),
        required,
    ));
    conclude(errors)
}

} // verus!
