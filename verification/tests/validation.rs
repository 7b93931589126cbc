use record_api::company::models::{DeleteCompanyParams, FindCompaniesParams};
use record_api::errors::{Field, FieldError, Reason, ValidationErrors};
use record_api::time::Timestamp;
use record_api::user::models::{
    CreateUserRequest, DeleteUserParams, FindUsersParams, UpdateUserRequest,
};
use record_api::validation::{
    is_email, parse_mode, validate_limit, validate_mode, validate_sort_by, DeleteMode,
};

fn text(s: &str) -> Option<String> {
    Some(s.to_string())
}

fn at(seconds: i64) -> Timestamp {
    Timestamp { seconds, nanos: 0 }
}

fn signup(
    name: Option<&str>,
    email: Option<&str>,
    password: Option<&str>,
    confirmation: Option<&str>,
    avatar: Option<&str>,
) -> CreateUserRequest {
    CreateUserRequest {
        name: name.map(str::to_string),
        email: email.map(str::to_string),
        password: password.map(str::to_string),
        password_confirmation: confirmation.map(str::to_string),
        avatar: avatar.map(str::to_string),
        created_at: at(1),
        modified_at: at(1),
    }
}

fn change(
    name: Option<&str>,
    email: Option<&str>,
    password: Option<&str>,
    confirmation: Option<&str>,
    avatar: Option<&str>,
) -> UpdateUserRequest {
    UpdateUserRequest {
        name: name.map(str::to_string),
        email: email.map(str::to_string),
        password: password.map(str::to_string),
        password_confirmation: confirmation.map(str::to_string),
        avatar: avatar.map(str::to_string),
        created_at: None,
        modified_at: Some(at(1)),
        deleted_at: None,
    }
}

fn refusals(result: Result<(), ValidationErrors>) -> Vec<(Field, Reason)> {
    match result {
        Ok(()) => Vec::new(),
        Err(errors) => errors.errors.iter().map(|e| (e.field, e.reason)).collect(),
    }
}

#[test]
fn sort_by_accepts_name_and_since_only() {
    assert_eq!(validate_sort_by("name"), Ok(()));
    assert_eq!(validate_sort_by("since"), Ok(()));
    assert_eq!(validate_sort_by("Name"), Err(Reason::WrongSortBy));
    assert_eq!(validate_sort_by("created_at"), Err(Reason::WrongSortBy));
    assert_eq!(validate_sort_by(" name"), Err(Reason::WrongSortBy));
    assert_eq!(validate_sort_by(""), Err(Reason::WrongSortBy));
}

#[test]
fn mode_accepts_the_three_modes_only() {
    assert_eq!(validate_mode("erase"), Ok(()));
    assert_eq!(validate_mode("trash"), Ok(()));
    assert_eq!(validate_mode("restore"), Ok(()));
    assert_eq!(validate_mode("delete"), Err(Reason::WrongMode));
    assert_eq!(validate_mode("ERASE"), Err(Reason::WrongMode));
    assert_eq!(validate_mode(""), Err(Reason::WrongMode));
}

#[test]
fn parse_mode_reads_each_mode() {
    assert_eq!(parse_mode("erase"), Some(DeleteMode::Erase));
    assert_eq!(parse_mode("trash"), Some(DeleteMode::Trash));
    assert_eq!(parse_mode("restore"), Some(DeleteMode::Restore));
    assert_eq!(parse_mode("remove"), None);
}

#[test]
fn limit_accepts_one_to_hundred() {
    assert_eq!(validate_limit(1), Ok(()));
    assert_eq!(validate_limit(50), Ok(()));
    assert_eq!(validate_limit(100), Ok(()));
    assert_eq!(validate_limit(0), Err(Reason::Range));
    assert_eq!(validate_limit(101), Err(Reason::Range));
    assert_eq!(validate_limit(u32::MAX), Err(Reason::Range));
}

#[test]
fn email_is_checked_by_its_form() {
    assert!(is_email("ada@example.com"));
    assert!(is_email("email@[127.0.0.1]"));
    assert!(!is_email("ada"));
    assert!(!is_email("ada@"));
    assert!(!is_email("a @x.cz"));
    assert!(!is_email(""));
}

#[test]
fn find_companies_params_report_both_fields_in_order() {
    let params = FindCompaniesParams { search: None, sort_by: text("age"), limit: Some(0) };
    assert_eq!(
        refusals(params.validate()),
        vec![(Field::SortBy, Reason::WrongSortBy), (Field::Limit, Reason::Range)]
    );
    let params = FindCompaniesParams { search: text("x"), sort_by: text("since"), limit: Some(100) };
    assert_eq!(params.validate(), Ok(()));
    let params = FindCompaniesParams { search: None, sort_by: None, limit: None };
    assert_eq!(params.validate(), Ok(()));
}

#[test]
fn find_users_params_refuse_a_limit_out_of_range() {
    let params = FindUsersParams { search: None, sort_by: text("name"), limit: Some(101) };
    assert_eq!(refusals(params.validate()), vec![(Field::Limit, Reason::Range)]);
    let params = FindUsersParams { search: None, sort_by: text("email"), limit: Some(1) };
    assert_eq!(refusals(params.validate()), vec![(Field::SortBy, Reason::WrongSortBy)]);
}

#[test]
fn delete_params_refuse_an_unknown_mode() {
    let form = DeleteCompanyParams { mode: "purge".to_string() };
    assert_eq!(refusals(form.validate()), vec![(Field::Mode, Reason::WrongMode)]);
    let form = DeleteCompanyParams { mode: "trash".to_string() };
    assert_eq!(form.validate(), Ok(()));
    let form = DeleteUserParams { mode: "".to_string() };
    assert_eq!(refusals(form.validate()), vec![(Field::Mode, Reason::WrongMode)]);
    let form = DeleteUserParams { mode: "restore".to_string() };
    assert_eq!(form.validate(), Ok(()));
}

#[test]
fn signup_requires_every_field() {
    let form = signup(None, None, None, None, None);
    assert_eq!(
        refusals(form.validate()),
        vec![
            (Field::Name, Reason::Required),
            (Field::Email, Reason::Required),
            (Field::Password, Reason::Required),
            (Field::PasswordConfirmation, Reason::Required),
            (Field::Avatar, Reason::Required),
        ]
    );
}

#[test]
fn signup_accepts_a_complete_form() {
    let form = signup(
        Some("Ada"),
        Some("ada@example.com"),
        Some("secret"),
        Some("secret"),
        Some("/storage/a.png"),
    );
    assert_eq!(form.validate(), Ok(()));
}

#[test]
fn signup_checks_each_field_by_its_rule() {
    let form = signup(Some("Ada"), Some("nobody"), Some("12345"), Some("54321"), Some("a.png"));
    assert_eq!(
        refusals(form.validate()),
        vec![
            (Field::Email, Reason::Email),
            (Field::Password, Reason::Length),
            (Field::PasswordConfirmation, Reason::MustMatch),
        ]
    );
}

#[test]
fn password_length_counts_characters() {
    let form = signup(
        Some("Ada"),
        Some("ada@example.com"),
        Some("日本語日本語"),
        Some("日本語日本語"),
        Some("a.png"),
    );
    assert_eq!(form.validate(), Ok(()));
    let form = signup(
        Some("Ada"),
        Some("ada@example.com"),
        Some("日本語日本"),
        Some("日本語日本"),
        Some("a.png"),
    );
    assert_eq!(refusals(form.validate()), vec![(Field::Password, Reason::Length)]);
}

#[test]
fn confirmation_without_password_does_not_match() {
    let form = signup(Some("Ada"), Some("ada@example.com"), None, Some("secret"), Some("a.png"));
    assert_eq!(
        refusals(form.validate()),
        vec![
            (Field::Password, Reason::Required),
            (Field::PasswordConfirmation, Reason::MustMatch),
        ]
    );
}

#[test]
fn change_requires_nothing() {
    let form = change(None, None, None, None, None);
    assert_eq!(form.validate(), Ok(()));
    let form = change(Some("Ada"), None, None, None, None);
    assert_eq!(form.validate(), Ok(()));
}

#[test]
fn change_checks_the_fields_that_are_there() {
    let form = change(None, Some("nobody"), Some("123"), Some("1234"), None);
    assert_eq!(
        refusals(form.validate()),
        vec![
            (Field::Email, Reason::Email),
            (Field::Password, Reason::Length),
            (Field::PasswordConfirmation, Reason::MustMatch),
        ]
    );
    let form = change(None, None, Some("secret"), None, None);
    assert_eq!(form.validate(), Ok(()));
    let form = change(None, None, None, Some("secret"), None);
    assert_eq!(
        refusals(form.validate()),
        vec![(Field::PasswordConfirmation, Reason::MustMatch)]
    );
}

#[test]
fn refusals_are_reported_by_field() {
    let mut errors = ValidationErrors::new();
    assert!(errors.is_empty());
    errors.add(Field::Email, Reason::Required);
    errors.add(Field::Password, Reason::Length);
    errors.add(Field::Email, Reason::Email);
    assert!(!errors.is_empty());
    assert!(errors.has_error(Field::Email));
    assert!(errors.has_error(Field::Password));
    assert!(!errors.has_error(Field::Name));
    assert_eq!(errors.field_errors(Field::Email), vec![Reason::Required, Reason::Email]);
    assert_eq!(errors.field_errors(Field::Password), vec![Reason::Length]);
    assert_eq!(errors.field_errors(Field::Avatar), Vec::<Reason>::new());
    assert_eq!(
        errors.errors,
        vec![
            FieldError { field: Field::Email, reason: Reason::Required },
            FieldError { field: Field::Password, reason: Reason::Length },
            FieldError { field: Field::Email, reason: Reason::Email },
        ]
    );
}

#[test]
fn fields_and_reasons_have_their_words() {
    assert_eq!(Field::SortBy.name(), "sort_by");
    assert_eq!(Field::Limit.name(), "limit");
    assert_eq!(Field::Mode.name(), "mode");
    assert_eq!(Field::Name.name(), "name");
    assert_eq!(Field::Email.name(), "email");
    assert_eq!(Field::Password.name(), "password");
    assert_eq!(Field::PasswordConfirmation.name(), "password_confirmation");
    assert_eq!(Field::Avatar.name(), "avatar");
    assert_eq!(Reason::WrongSortBy.message(), "Wrong sort_by");
    assert_eq!(Reason::WrongMode.message(), "Wrong mode");
    assert_eq!(Reason::Range.message(), "range");
    assert_eq!(Reason::Required.message(), "required");
    assert_eq!(Reason::Email.message(), "email");
    assert_eq!(Reason::Length.message(), "length");
    assert_eq!(Reason::MustMatch.message(), "must_match");
}
