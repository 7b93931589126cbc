use record_api::company::controllers::{
    create_company, erase_company, plan_create_company, plan_erase_company,
    plan_restore_company, plan_trash_company, plan_update_company, restore_company,
    show_company, trash_company, update_company,
};
use record_api::company::models::{Company, CompanyPatch};
use record_api::document::{
    Document, Header, InsertOptions, Patch, Record, RemoveOptions, UpdateOptions,
};
use record_api::errors::ServiceError;
use record_api::store::Collection;
use record_api::time::Timestamp;

fn at(seconds: i64) -> Timestamp {
    Timestamp { seconds, nanos: 0 }
}

fn sent(name: Option<&str>, since: Option<Timestamp>) -> Company {
    Company {
        name: name.map(str::to_string),
        since,
        created_at: None,
        modified_at: None,
        deleted_at: None,
    }
}

fn acme(companies: &mut Collection<Company>) -> Document<Company> {
    create_company(&sent(Some("Acme"), Some(at(100))), at(1000), companies).unwrap()
}

#[test]
fn created_company_is_shown_as_it_was_sent() {
    let mut companies: Collection<Company> = Collection::new("companies");
    let created = acme(&mut companies);
    assert_eq!(
        created,
        Document {
            header: Header {
                id: "companies/0".to_string(),
                key: "0".to_string(),
                rev: "0".to_string(),
            },
            document: Company {
                name: Some("Acme".to_string()),
                since: Some(at(100)),
                created_at: Some(at(1000)),
                modified_at: Some(at(1000)),
                deleted_at: None,
            },
        }
    );
    let shown = show_company(&created.header.key, &companies).unwrap();
    assert_eq!(shown, created);
    assert_eq!(shown.document.name, Some("Acme".to_string()));
    assert_eq!(shown.document.since, Some(at(100)));
    assert!(shown.document.created_at.is_some());
    assert_eq!(shown.document.created_at, shown.document.modified_at);
}

#[test]
fn created_company_ignores_sent_times_of_the_record() {
    let mut companies: Collection<Company> = Collection::new("companies");
    let payload = Company {
        name: Some("Acme".to_string()),
        since: None,
        created_at: Some(at(1)),
        modified_at: Some(at(2)),
        deleted_at: Some(at(3)),
    };
    let created = create_company(&payload, at(50), &mut companies).unwrap();
    assert_eq!(created.document.since, None);
    assert_eq!(created.document.created_at, Some(at(50)));
    assert_eq!(created.document.modified_at, Some(at(50)));
    assert_eq!(created.document.deleted_at, None);
}

#[test]
fn each_write_gets_the_next_number() {
    let mut companies: Collection<Company> = Collection::new("companies");
    let first = acme(&mut companies);
    let second = acme(&mut companies);
    assert_eq!(first.header.key, "0");
    assert_eq!(second.header.key, "1");
    let updated = update_company("0", &sent(Some("A"), None), at(2000), &mut companies).unwrap();
    assert_eq!(updated.header.key, "0");
    assert_eq!(updated.header.id, "companies/0");
    assert_eq!(updated.header.rev, "2");
    let third = acme(&mut companies);
    assert_eq!(third.header.key, "3");
    assert_eq!(third.header.rev, "3");
    assert_eq!(show_company("1", &companies).unwrap(), second);
}

#[test]
fn show_of_an_unknown_key_is_not_found() {
    let mut companies: Collection<Company> = Collection::new("companies");
    assert_eq!(show_company("0", &companies), Err(ServiceError::NotFound));
    acme(&mut companies);
    assert_eq!(show_company("1", &companies), Err(ServiceError::NotFound));
    assert_eq!(show_company("00", &companies), Err(ServiceError::NotFound));
    assert_eq!(show_company("", &companies), Err(ServiceError::NotFound));
}

#[test]
fn update_with_a_name_only_keeps_since() {
    let mut companies: Collection<Company> = Collection::new("companies");
    let created = acme(&mut companies);
    let updated =
        update_company("0", &sent(Some("NewName"), None), at(2000), &mut companies).unwrap();
    assert_eq!(updated.document.name, Some("NewName".to_string()));
    assert_eq!(updated.document.since, created.document.since);
    assert_eq!(updated.document.created_at, Some(at(1000)));
    assert_eq!(updated.document.modified_at, Some(at(2000)));
    assert_eq!(updated.document.deleted_at, None);
    assert!(created.document.modified_at.unwrap().is_before(&updated.document.modified_at.unwrap()));
    assert_eq!(show_company("0", &companies).unwrap(), updated);
}

#[test]
fn update_with_since_only_keeps_the_name() {
    let mut companies: Collection<Company> = Collection::new("companies");
    acme(&mut companies);
    let updated = update_company("0", &sent(None, Some(at(7))), at(2000), &mut companies).unwrap();
    assert_eq!(updated.document.name, Some("Acme".to_string()));
    assert_eq!(updated.document.since, Some(at(7)));
    assert_eq!(updated.document.modified_at, Some(at(2000)));
}

#[test]
fn update_with_nothing_stamps_the_time_only() {
    let mut companies: Collection<Company> = Collection::new("companies");
    let created = acme(&mut companies);
    let updated = update_company("0", &sent(None, None), at(2000), &mut companies).unwrap();
    assert_eq!(
        updated.document,
        Company { modified_at: Some(at(2000)), ..created.document }
    );
}

#[test]
fn update_of_an_unknown_key_is_not_found() {
    let mut companies: Collection<Company> = Collection::new("companies");
    acme(&mut companies);
    assert_eq!(
        update_company("9", &sent(Some("X"), None), at(2000), &mut companies),
        Err(ServiceError::NotFound)
    );
    assert_eq!(show_company("0", &companies).unwrap().document.name, Some("Acme".to_string()));
}

#[test]
fn trash_then_restore_then_erase() {
    let mut companies: Collection<Company> = Collection::new("companies");
    let created = acme(&mut companies);
    let trashed = trash_company("0", at(3000), &mut companies).unwrap();
    assert_eq!(trashed.document.deleted_at, Some(at(3000)));
    assert_eq!(trashed.document, Company { deleted_at: Some(at(3000)), ..created.document.clone() });
    assert_eq!(show_company("0", &companies).unwrap(), trashed);
    let restored = restore_company("0", &mut companies).unwrap();
    assert_eq!(restored.document.deleted_at, None);
    assert_eq!(restored.document, created.document);
    assert_eq!(show_company("0", &companies).unwrap(), restored);
    let erased = erase_company("0", &mut companies).unwrap();
    assert_eq!(erased, restored);
    assert_eq!(show_company("0", &companies), Err(ServiceError::NotFound));
}

#[test]
fn erase_of_a_trashed_company_returns_it_as_it_was() {
    let mut companies: Collection<Company> = Collection::new("companies");
    acme(&mut companies);
    let trashed = trash_company("0", at(3000), &mut companies).unwrap();
    let erased = erase_company("0", &mut companies).unwrap();
    assert_eq!(erased, trashed);
    assert_eq!(erased.document.deleted_at, Some(at(3000)));
    assert_eq!(show_company("0", &companies), Err(ServiceError::NotFound));
    assert_eq!(erase_company("0", &mut companies), Err(ServiceError::NotFound));
    assert_eq!(trash_company("0", at(1), &mut companies), Err(ServiceError::NotFound));
    assert_eq!(restore_company("0", &mut companies), Err(ServiceError::NotFound));
}

#[test]
fn an_erased_key_is_not_given_again() {
    let mut companies: Collection<Company> = Collection::new("companies");
    acme(&mut companies);
    erase_company("0", &mut companies).unwrap();
    let next = acme(&mut companies);
    assert_eq!(next.header.key, "1");
    assert_eq!(show_company("0", &companies), Err(ServiceError::NotFound));
}

#[test]
fn trash_leaves_other_companies_alone() {
    let mut companies: Collection<Company> = Collection::new("companies");
    acme(&mut companies);
    let other = create_company(&sent(Some("Other"), None), at(1001), &mut companies).unwrap();
    trash_company("0", at(3000), &mut companies).unwrap();
    assert_eq!(show_company("1", &companies).unwrap(), other);
}

#[test]
fn plans_ask_for_what_the_operations_need() {
    let insert = plan_create_company(&sent(Some("Acme"), Some(at(5))), at(9));
    assert_eq!(insert.options, InsertOptions { return_new: true });
    assert_eq!(
        insert.document,
        Company {
            name: Some("Acme".to_string()),
            since: Some(at(5)),
            created_at: Some(at(9)),
            modified_at: Some(at(9)),
            deleted_at: None,
        }
    );
    let update = plan_update_company("k", &sent(Some("N"), None), at(9));
    assert_eq!(update.key, "k");
    assert_eq!(
        update.options,
        UpdateOptions { return_new: true, return_old: true, keep_null: true }
    );
    assert_eq!(
        update.patch,
        CompanyPatch {
            name: Patch::Put("N".to_string()),
            since: Patch::Keep,
            created_at: Patch::Keep,
            modified_at: Patch::Put(at(9)),
            deleted_at: Patch::Keep,
        }
    );
    let trash = plan_trash_company("k", at(9));
    assert_eq!(trash.key, "k");
    assert_eq!(trash.patch, CompanyPatch { deleted_at: Patch::Put(at(9)), ..CompanyPatch::none() });
    assert_eq!(trash.options.keep_null, true);
    let restore = plan_restore_company("k");
    assert_eq!(restore.key, "k");
    assert_eq!(restore.patch, CompanyPatch { deleted_at: Patch::Clear, ..CompanyPatch::none() });
    assert_eq!(
        restore.options,
        UpdateOptions { return_new: true, return_old: true, keep_null: false }
    );
    let erase = plan_erase_company("k");
    assert_eq!(erase.key, "k");
    assert_eq!(erase.options, RemoveOptions { return_old: true });
}

#[test]
fn merge_changes_the_fields_that_the_patch_names() {
    let stored = Company {
        name: Some("Acme".to_string()),
        since: Some(at(1)),
        created_at: Some(at(2)),
        modified_at: Some(at(3)),
        deleted_at: Some(at(4)),
    };
    assert_eq!(stored.merge(&CompanyPatch::none()), stored);
    let patch = CompanyPatch {
        name: Patch::Clear,
        since: Patch::Put(at(10)),
        created_at: Patch::Keep,
        modified_at: Patch::Put(at(30)),
        deleted_at: Patch::Clear,
    };
    assert_eq!(
        stored.merge(&patch),
        Company {
            name: None,
            since: Some(at(10)),
            created_at: Some(at(2)),
            modified_at: Some(at(30)),
            deleted_at: None,
        }
    );
    assert_eq!(stored.copy(), stored);
}
