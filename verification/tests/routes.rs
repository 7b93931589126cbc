use record_api::company::models::{Company, DeleteCompanyParams, FindCompaniesParams};
use record_api::company::routes as company;
use record_api::document::{
    found, new_document, old_document, Document, DocumentResponse, Header, InsertOptions, Patch,
    RemoveOptions, UpdateOptions,
};
use record_api::errors::{classify, DbFailure, Field, FieldError, Reason, ServiceError, ValidationErrors};
use record_api::routes::{
    answer, answer_deletion, answer_empty, answer_rows, fail, refuse, Body, Deletion, Response,
};
use record_api::store::{decimal_text, Collection};
use record_api::time::Timestamp;
use record_api::upload::{FormField, FormFields};
use record_api::user::models::{DeleteUserParams, FindUsersParams, User, UserResponse};
use record_api::user::routes as user;

fn at(seconds: i64) -> Timestamp {
    Timestamp { seconds, nanos: 0 }
}

fn acme() -> Company {
    Company {
        name: Some("Acme".to_string()),
        since: Some(at(1)),
        created_at: None,
        modified_at: None,
        deleted_at: None,
    }
}

fn ada() -> User {
    User {
        name: "Ada".to_string(),
        email: "ada@example.com".to_string(),
        password: "hash".to_string(),
        avatar: "/storage/ada.png".to_string(),
        created_at: at(10),
        modified_at: at(10),
        deleted_at: None,
    }
}

fn mode_refused() -> ValidationErrors {
    ValidationErrors { errors: vec![FieldError { field: Field::Mode, reason: Reason::WrongMode }] }
}

fn header(id: &str, key: &str, rev: &str) -> Header {
    Header { id: id.to_string(), key: key.to_string(), rev: rev.to_string() }
}

#[test]
fn failures_of_the_database_are_named() {
    assert_eq!(classify(DbFailure::Status(404)), ServiceError::NotFound);
    assert_eq!(classify(DbFailure::Status(409)), ServiceError::Conflict);
    assert_eq!(classify(DbFailure::Status(400)), ServiceError::Transient);
    assert_eq!(classify(DbFailure::Status(412)), ServiceError::Transient);
    assert_eq!(classify(DbFailure::Status(500)), ServiceError::Transient);
    assert_eq!(classify(DbFailure::Status(503)), ServiceError::Transient);
    assert_eq!(classify(DbFailure::Status(507)), ServiceError::Transient);
    assert_eq!(classify(DbFailure::Unreachable), ServiceError::Transient);
    assert_eq!(classify(DbFailure::Undecodable), ServiceError::Transient);
}

#[test]
fn failures_have_their_status() {
    assert_eq!(ServiceError::Validation(mode_refused()).status(), 400);
    assert_eq!(ServiceError::Malformed.status(), 400);
    assert_eq!(ServiceError::NotFound.status(), 404);
    assert_eq!(ServiceError::Conflict.status(), 409);
    assert_eq!(ServiceError::Transient.status(), 503);
    assert_eq!(ServiceError::Io.status(), 500);
}

#[test]
fn answers_carry_the_result_or_the_failure() {
    assert_eq!(answer(Ok(acme())), Response { status: 200, body: Body::Content(acme()) });
    assert_eq!(
        answer::<Company>(Err(ServiceError::NotFound)),
        Response { status: 404, body: Body::Empty }
    );
    assert_eq!(
        answer::<Company>(Err(ServiceError::Conflict)),
        Response { status: 409, body: Body::Empty }
    );
    assert_eq!(
        answer::<Company>(Err(ServiceError::Transient)),
        Response { status: 503, body: Body::Empty }
    );
    assert_eq!(answer::<Company>(Err(ServiceError::Io)), Response { status: 500, body: Body::Empty });
    assert_eq!(
        answer::<Company>(Err(ServiceError::Malformed)),
        Response { status: 400, body: Body::Empty }
    );
    assert_eq!(
        answer::<Company>(Err(ServiceError::Validation(mode_refused()))),
        Response { status: 400, body: Body::Errors(mode_refused()) }
    );
    assert_eq!(answer_empty(Ok(acme())), Response { status: 204, body: Body::Empty });
    assert_eq!(
        answer_empty::<Company>(Err(ServiceError::NotFound)),
        Response { status: 404, body: Body::Empty }
    );
    assert_eq!(
        refuse::<Company>(mode_refused()),
        Response { status: 400, body: Body::Errors(mode_refused()) }
    );
    assert_eq!(fail::<Company>(ServiceError::Io), Response { status: 500, body: Body::Empty });
}

#[test]
fn rows_are_answered_in_their_order() {
    let rows = vec![acme(), Company { name: None, ..acme() }];
    assert_eq!(
        answer_rows(None, Ok(rows.clone())),
        Response { status: 200, body: Body::Content(rows.clone()) }
    );
    assert_eq!(
        answer_rows(Some(2), Ok(rows.clone())),
        Response { status: 200, body: Body::Content(rows.clone()) }
    );
    assert_eq!(
        answer_rows::<Company>(Some(100), Ok(Vec::new())),
        Response { status: 200, body: Body::Content(Vec::new()) }
    );
    assert_eq!(
        answer_rows::<Company>(None, Err(DbFailure::Unreachable)),
        Response { status: 503, body: Body::Empty }
    );
    assert_eq!(
        answer_rows::<Company>(Some(1), Err(DbFailure::Status(404))),
        Response { status: 404, body: Body::Empty }
    );
}

#[test]
fn no_more_rows_are_answered_than_the_limit() {
    let rows: Vec<u32> = (0..150).collect();
    for limit in [1u32, 2, 99, 100] {
        let answered = answer_rows(Some(limit), Ok(rows.clone()));
        assert_eq!(answered.status, 200);
        match answered.body {
            Body::Content(kept) => {
                assert_eq!(kept.len(), limit as usize);
                assert_eq!(kept, rows[..limit as usize].to_vec());
            }
            other => panic!("unexpected: {:?}", other),
        }
    }
    let few: Vec<u32> = vec![7, 8, 9];
    assert_eq!(
        answer_rows(Some(100), Ok(few.clone())),
        Response { status: 200, body: Body::Content(few) }
    );
}

#[test]
fn answers_of_the_database_are_settled() {
    let h = header("companies/4", "4", "9");
    let both = DocumentResponse::Response {
        header: h.clone(),
        old: Some(acme()),
        new: Some(Company { name: None, ..acme() }),
    };
    assert_eq!(
        new_document(Ok(both.clone())),
        Ok(Document { header: h.clone(), document: Company { name: None, ..acme() } })
    );
    assert_eq!(old_document(Ok(both)), Ok(Document { header: h.clone(), document: acme() }));
    assert_eq!(new_document::<Company>(Ok(DocumentResponse::Silent)), Err(ServiceError::Transient));
    assert_eq!(old_document::<Company>(Ok(DocumentResponse::Silent)), Err(ServiceError::Transient));
    assert_eq!(new_document::<Company>(Err(DbFailure::Status(409))), Err(ServiceError::Conflict));
    assert_eq!(old_document::<Company>(Err(DbFailure::Status(404))), Err(ServiceError::NotFound));
    assert_eq!(found(Ok(acme())), Ok(acme()));
    assert_eq!(found::<Company>(Err(DbFailure::Status(404))), Err(ServiceError::NotFound));
}

#[test]
fn company_find_answers_a_refusal_with_its_fields() {
    let params = FindCompaniesParams { search: None, sort_by: Some("x".to_string()), limit: Some(0) };
    let response = company::find(params).unwrap_err();
    assert_eq!(response.status, 400);
    assert_eq!(
        response.body,
        Body::Errors(ValidationErrors {
            errors: vec![
                FieldError { field: Field::SortBy, reason: Reason::WrongSortBy },
                FieldError { field: Field::Limit, reason: Reason::Range },
            ],
        })
    );
    let params = FindCompaniesParams { search: None, sort_by: None, limit: Some(1) };
    assert_eq!(company::find(params).unwrap().query, "FOR c IN companies LIMIT 0, @@limit RETURN c");
    let params = FindUsersParams { search: None, sort_by: None, limit: Some(0) };
    assert_eq!(user::find(params).unwrap_err().status, 400);
    let params = FindUsersParams { search: None, sort_by: None, limit: None };
    assert_eq!(user::find(params).unwrap().query, "FOR x IN users RETURN UNSET(x, 'password')");
}

#[test]
fn company_routes_answer_with_the_record() {
    let mut companies: Collection<Company> = Collection::new("companies");
    let created = company::create(&acme(), at(5), &mut companies);
    assert_eq!(created.status, 200);
    let stored = Company { created_at: Some(at(5)), modified_at: Some(at(5)), ..acme() };
    assert_eq!(
        created.body,
        Body::Content(Document { header: header("companies/0", "0", "0"), document: stored.clone() })
    );
    assert_eq!(company::show("0", &companies), created);
    assert_eq!(company::show("1", &companies), Response { status: 404, body: Body::Empty });
    let updated = company::update("0", &Company { since: None, ..acme() }, at(6), &mut companies);
    assert_eq!(
        updated,
        Response {
            status: 200,
            body: Body::Content(Document {
                header: header("companies/0", "0", "1"),
                document: Company { modified_at: Some(at(6)), ..stored },
            }),
        }
    );
    assert_eq!(
        company::update("5", &acme(), at(6), &mut companies),
        Response { status: 404, body: Body::Empty }
    );
}

#[test]
fn company_delete_goes_by_mode() {
    let mut companies: Collection<Company> = Collection::new("companies");
    company::create(&acme(), at(5), &mut companies);
    let trash = DeleteCompanyParams { mode: "trash".to_string() };
    let restore = DeleteCompanyParams { mode: "restore".to_string() };
    let erase = DeleteCompanyParams { mode: "erase".to_string() };
    let purge = DeleteCompanyParams { mode: "purge".to_string() };

    let refused = company::delete("0", &purge, at(7), &mut companies);
    assert_eq!(refused, Response { status: 400, body: Body::Errors(mode_refused()) });
    assert_eq!(company::show("0", &companies).status, 200);

    let trashed = company::delete("0", &trash, at(7), &mut companies);
    assert_eq!(trashed.status, 200);
    match &trashed.body {
        Body::Content(record) => assert_eq!(record.document.deleted_at, Some(at(7))),
        other => panic!("unexpected: {:?}", other),
    }
    let restored = company::delete("0", &restore, at(8), &mut companies);
    assert_eq!(restored.status, 200);
    match &restored.body {
        Body::Content(record) => assert_eq!(record.document.deleted_at, None),
        other => panic!("unexpected: {:?}", other),
    }
    let erased = company::delete("0", &erase, at(9), &mut companies);
    assert_eq!(erased, Response { status: 204, body: Body::Empty });
    assert_eq!(company::show("0", &companies).status, 404);
    assert_eq!(company::delete("0", &erase, at(9), &mut companies).status, 404);
    assert_eq!(company::delete("0", &trash, at(9), &mut companies).status, 404);
    assert_eq!(company::delete("0", &restore, at(9), &mut companies).status, 404);
}

#[test]
fn company_delete_plans_one_request() {
    let erase = company::plan_delete("k", &DeleteCompanyParams { mode: "erase".to_string() }, at(1));
    match erase {
        Ok(Deletion::Erase(remove)) => {
            assert_eq!(remove.key, "k");
            assert_eq!(remove.options, RemoveOptions { return_old: true });
        }
        other => panic!("unexpected: {:?}", other),
    }
    let trash = company::plan_delete("k", &DeleteCompanyParams { mode: "trash".to_string() }, at(1));
    match trash {
        Ok(Deletion::Change(update)) => {
            assert_eq!(update.key, "k");
            assert_eq!(update.patch.deleted_at, Patch::Put(at(1)));
            assert_eq!(update.patch.modified_at, Patch::Keep);
            assert!(update.options.keep_null);
        }
        other => panic!("unexpected: {:?}", other),
    }
    let restore =
        company::plan_delete("k", &DeleteCompanyParams { mode: "restore".to_string() }, at(1));
    match restore {
        Ok(Deletion::Change(update)) => {
            assert_eq!(update.patch.deleted_at, Patch::Clear);
            assert_eq!(
                update.options,
                UpdateOptions { return_new: true, return_old: true, keep_null: false }
            );
        }
        other => panic!("unexpected: {:?}", other),
    }
    let other = company::plan_delete("k", &DeleteCompanyParams { mode: "".to_string() }, at(1));
    assert_eq!(other, Err(mode_refused()));
    let plan = user::plan_delete("k", &DeleteUserParams { mode: "Erase".to_string() }, at(1));
    assert_eq!(plan, Err(mode_refused()));
    let plan = user::plan_delete("k", &DeleteUserParams { mode: "erase".to_string() }, at(1)).unwrap();
    assert!(plan.is_erase());
    let plan = user::plan_delete("k", &DeleteUserParams { mode: "trash".to_string() }, at(1)).unwrap();
    assert!(!plan.is_erase());
}

#[test]
fn deletion_is_answered_by_its_kind() {
    let h = header("companies/4", "4", "9");
    let reply = DocumentResponse::Response { header: h.clone(), old: Some(acme()), new: Some(acme()) };
    assert_eq!(
        answer_deletion(true, Ok(reply.clone())),
        Response { status: 204, body: Body::Empty }
    );
    assert_eq!(
        answer_deletion(false, Ok(reply)),
        Response { status: 200, body: Body::Content(Document { header: h, document: acme() }) }
    );
    assert_eq!(
        answer_deletion::<Company>(true, Err(DbFailure::Status(404))),
        Response { status: 404, body: Body::Empty }
    );
    let h = header("users/4", "4", "9");
    let reply = DocumentResponse::Response { header: h, old: Some(ada()), new: Some(ada()) };
    assert_eq!(
        user::answer_deletion(true, Ok(reply.clone())),
        Response { status: 204, body: Body::Empty }
    );
    let shown = user::answer_deletion(false, Ok(reply));
    assert_eq!(shown.status, 200);
    match shown.body {
        Body::Content(response) => {
            assert_eq!(response._id, "users/4");
            assert_eq!(response._rev, "9");
            assert_eq!(response.name, "Ada");
        }
        other => panic!("unexpected: {:?}", other),
    }
}

#[test]
fn user_routes_refuse_and_answer() {
    let mut users: Collection<User> = Collection::new("users");
    let vars = FormFields {
        entries: vec![FormField { name: "name".to_string(), value: "Ada".to_string() }],
    };
    let refused = user::create(&vars, at(1), &mut users);
    assert_eq!(refused.status, 400);
    match refused.body {
        Body::Errors(errors) => {
            assert_eq!(errors.errors.len(), 4);
            assert!(!errors.has_error(Field::Name));
        }
        other => panic!("unexpected: {:?}", other),
    }
    assert_eq!(user::show("0", &users), Response { status: 404, body: Body::Empty });
    users.create_document(ada(), InsertOptions { return_new: false }).unwrap();
    let shown = user::show("0", &users);
    assert_eq!(shown.status, 200);
    let updated = user::update("0", &vars, at(20), &mut users);
    assert_eq!(
        updated,
        Response {
            status: 200,
            body: Body::Content(UserResponse {
                _id: "users/0".to_string(),
                _key: "0".to_string(),
                _rev: "1".to_string(),
                name: "Ada".to_string(),
                email: "ada@example.com".to_string(),
                avatar: "/storage/ada.png".to_string(),
                created_at: at(10),
                modified_at: at(20),
                deleted_at: None,
            }),
        }
    );
    let bad = FormFields {
        entries: vec![FormField { name: "email".to_string(), value: "x".to_string() }],
    };
    assert_eq!(user::update("0", &bad, at(21), &mut users).status, 400);
    assert_eq!(user::update("3", &vars, at(21), &mut users).status, 404);
}

#[test]
fn user_delete_goes_by_mode() {
    let mut users: Collection<User> = Collection::new("users");
    users.create_document(ada(), InsertOptions { return_new: false }).unwrap();
    let form = |mode: &str| DeleteUserParams { mode: mode.to_string() };
    assert_eq!(
        user::delete("0", &form("nothing"), at(7), &mut users),
        Response { status: 400, body: Body::Errors(mode_refused()) }
    );
    let trashed = user::delete("0", &form("trash"), at(7), &mut users);
    assert_eq!(trashed.status, 200);
    match trashed.body {
        Body::Content(response) => assert_eq!(response.deleted_at, Some(at(7))),
        other => panic!("unexpected: {:?}", other),
    }
    let restored = user::delete("0", &form("restore"), at(8), &mut users);
    match restored.body {
        Body::Content(response) => assert_eq!(response.deleted_at, None),
        other => panic!("unexpected: {:?}", other),
    }
    assert_eq!(
        user::delete("0", &form("erase"), at(9), &mut users),
        Response { status: 204, body: Body::Empty }
    );
    assert_eq!(user::show("0", &users).status, 404);
    assert_eq!(user::delete("0", &form("erase"), at(9), &mut users).status, 404);
}

#[test]
fn collection_answers_as_it_was_asked() {
    let mut companies: Collection<Company> = Collection::new("companies");
    let quiet = companies.create_document(acme(), InsertOptions { return_new: false }).unwrap();
    assert_eq!(
        quiet,
        DocumentResponse::Response { header: header("companies/0", "0", "0"), old: None, new: None }
    );
    let loud = companies.create_document(acme(), InsertOptions { return_new: true }).unwrap();
    assert_eq!(
        loud,
        DocumentResponse::Response {
            header: header("companies/1", "1", "1"),
            old: None,
            new: Some(acme()),
        }
    );
    let patch = record_api::company::models::CompanyPatch {
        name: Patch::Clear,
        ..record_api::company::models::CompanyPatch::none()
    };
    let options = UpdateOptions { return_new: false, return_old: true, keep_null: false };
    let updated = companies.update_document("1", patch.clone(), options).unwrap();
    assert_eq!(
        updated,
        DocumentResponse::Response {
            header: header("companies/1", "1", "2"),
            old: Some(acme()),
            new: None,
        }
    );
    assert_eq!(
        companies.document("1").unwrap(),
        Document { header: header("companies/1", "1", "2"), document: Company { name: None, ..acme() } }
    );
    assert_eq!(companies.update_document("7", patch, options), Err(DbFailure::Status(404)));
    let removed = companies.remove_document("0", RemoveOptions { return_old: false }).unwrap();
    assert_eq!(
        removed,
        DocumentResponse::Response { header: header("companies/0", "0", "0"), old: None, new: None }
    );
    assert_eq!(companies.document("0"), Err(DbFailure::Status(404)));
    assert_eq!(
        companies.remove_document("0", RemoveOptions { return_old: true }),
        Err(DbFailure::Status(404))
    );
}

#[test]
fn numbers_are_written_in_decimal() {
    assert_eq!(decimal_text(0), "0");
    assert_eq!(decimal_text(7), "7");
    assert_eq!(decimal_text(10), "10");
    assert_eq!(decimal_text(109), "109");
    assert_eq!(decimal_text(1_000_000), "1000000");
    assert_eq!(decimal_text(u64::MAX), "18446744073709551615");
}

#[test]
fn times_are_ordered_by_seconds_then_nanoseconds() {
    let a = Timestamp { seconds: 1, nanos: 999_999_999 };
    let b = Timestamp { seconds: 2, nanos: 0 };
    let c = Timestamp { seconds: 2, nanos: 1 };
    let d = Timestamp { seconds: -5, nanos: 0 };
    assert!(a.is_before(&b));
    assert!(b.is_before(&c));
    assert!(a.is_before(&c));
    assert!(d.is_before(&a));
    assert!(!b.is_before(&a));
    assert!(!b.is_before(&b));
    assert!(!c.is_before(&b));
}

#[test]
fn now_is_after_the_year_2020() {
    let now = Timestamp::now();
    assert!(Timestamp { seconds: 1_577_836_800, nanos: 0 }.is_before(&now));
    assert!(now.seconds >= 0);
    assert!(now.nanos < 1_000_000_000);
}
