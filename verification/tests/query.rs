use record_api::company::controllers::find_companies;
use record_api::company::models::FindCompaniesParams;
use record_api::controllers::get_companies;
use record_api::errors::{Field, Reason};
use record_api::query::{build_list_query, cap_rows, BindValue, BindVar, ListQuery, Listing};
use record_api::user::controllers::find_users;
use record_api::user::models::FindUsersParams;

fn text(s: &str) -> Option<String> {
    Some(s.to_string())
}

fn bound_text(name: &str, value: &str) -> BindVar {
    BindVar { name: name.to_string(), value: BindValue::Text(value.to_string()) }
}

fn bound_number(name: &str, value: u32) -> BindVar {
    BindVar { name: name.to_string(), value: BindValue::Number(value) }
}

#[test]
fn companies_query_with_every_clause() {
    let params =
        FindCompaniesParams { search: text("  Acme  "), sort_by: text("name"), limit: Some(10) };
    let query = find_companies(params).unwrap();
    assert_eq!(
        query.query,
        "FOR c IN companies FILTER CONTAINS(c.name, @@search) SORT c.@@sort_by ASC LIMIT 0, @@limit RETURN c"
    );
    assert_eq!(
        query.bind_vars,
        vec![
            bound_text("@search", "Acme"),
            bound_text("@sort_by", "name"),
            bound_number("@limit", 10),
        ]
    );
}

#[test]
fn companies_query_without_any_clause() {
    let params = FindCompaniesParams { search: None, sort_by: None, limit: None };
    let query = find_companies(params).unwrap();
    assert_eq!(query.query, "FOR c IN companies RETURN c");
    assert_eq!(query.bind_vars, Vec::<BindVar>::new());
}

#[test]
fn search_is_trimmed_before_it_is_bound() {
    let params = FindCompaniesParams { search: text("  Acme  "), sort_by: None, limit: None };
    let query = find_companies(params).unwrap();
    assert_eq!(query.query, "FOR c IN companies FILTER CONTAINS(c.name, @@search) RETURN c");
    assert_eq!(query.bind_vars, vec![bound_text("@search", "Acme")]);
}

#[test]
fn search_keeps_the_whitespace_inside() {
    let params =
        FindCompaniesParams { search: text("\t Acme  Corp \n"), sort_by: None, limit: None };
    let query = find_companies(params).unwrap();
    assert_eq!(query.bind_vars, vec![bound_text("@search", "Acme  Corp")]);
}

#[test]
fn search_loses_every_kind_of_whitespace_around_it() {
    let params = FindCompaniesParams {
        search: text("\u{3000}\u{a0}\u{2003}Acme\u{85}\u{1680}\u{2028}\u{205f}"),
        sort_by: None,
        limit: None,
    };
    let query = find_companies(params).unwrap();
    assert_eq!(query.bind_vars, vec![bound_text("@search", "Acme")]);
}

#[test]
fn search_keeps_what_is_no_whitespace_around_it() {
    let params = FindCompaniesParams {
        search: text("\u{200b}Acme\u{feff}"),
        sort_by: None,
        limit: None,
    };
    let query = find_companies(params).unwrap();
    assert_eq!(query.bind_vars, vec![bound_text("@search", "\u{200b}Acme\u{feff}")]);
}

#[test]
fn blank_search_is_no_search() {
    let none =
        find_companies(FindCompaniesParams { search: None, sort_by: None, limit: Some(5) }).unwrap();
    for blank in ["", " ", "   ", "\t\n", "\u{a0}\u{3000}"] {
        let params = FindCompaniesParams { search: text(blank), sort_by: None, limit: Some(5) };
        assert_eq!(find_companies(params).unwrap(), none);
    }
    assert_eq!(none.query, "FOR c IN companies LIMIT 0, @@limit RETURN c");
    assert_eq!(none.bind_vars, vec![bound_number("@limit", 5)]);
}

#[test]
fn limit_in_range_caps_the_query() {
    for limit in [1u32, 2, 50, 99, 100] {
        let params = FindCompaniesParams { search: None, sort_by: None, limit: Some(limit) };
        let query = find_companies(params).unwrap();
        assert_eq!(query.query, "FOR c IN companies LIMIT 0, @@limit RETURN c");
        assert_eq!(query.bind_vars, vec![bound_number("@limit", limit)]);
        assert_eq!(query.cap, Some(limit));
    }
}

#[test]
fn query_without_limit_has_no_cap() {
    let params = FindCompaniesParams { search: text("a"), sort_by: text("name"), limit: None };
    assert_eq!(find_companies(params).unwrap().cap, None);
    let params = FindUsersParams { search: None, sort_by: None, limit: None };
    assert_eq!(find_users(params).unwrap().cap, None);
}

#[test]
fn rows_are_cut_at_the_cap() {
    assert_eq!(cap_rows(vec![1, 2, 3], None), vec![1, 2, 3]);
    assert_eq!(cap_rows(vec![1, 2, 3], Some(5)), vec![1, 2, 3]);
    assert_eq!(cap_rows(vec![1, 2, 3], Some(3)), vec![1, 2, 3]);
    assert_eq!(cap_rows(vec![1, 2, 3], Some(2)), vec![1, 2]);
    assert_eq!(cap_rows(vec![1, 2, 3], Some(1)), vec![1]);
    assert_eq!(cap_rows(vec![1, 2, 3], Some(0)), Vec::<i32>::new());
    assert_eq!(cap_rows(Vec::<i32>::new(), Some(4)), Vec::<i32>::new());
}

#[test]
fn limit_out_of_range_makes_no_query() {
    for limit in [0u32, 101, 1000, u32::MAX] {
        let params = FindCompaniesParams { search: None, sort_by: None, limit: Some(limit) };
        let errors = find_companies(params).unwrap_err();
        assert_eq!(errors.errors.len(), 1);
        assert_eq!(errors.errors[0].field, Field::Limit);
        assert_eq!(errors.errors[0].reason, Reason::Range);
        let params = FindUsersParams { search: None, sort_by: None, limit: Some(limit) };
        let errors = find_users(params).unwrap_err();
        assert_eq!(errors.errors.len(), 1);
        assert_eq!(errors.errors[0].field, Field::Limit);
    }
}

#[test]
fn unknown_sort_field_makes_no_query() {
    for sort_by in ["email", "NAME", "name ", "c.name", "created_at", ""] {
        let params = FindCompaniesParams { search: None, sort_by: text(sort_by), limit: None };
        let errors = find_companies(params).unwrap_err();
        assert_eq!(errors.errors.len(), 1);
        assert_eq!(errors.errors[0].field, Field::SortBy);
        assert_eq!(errors.errors[0].reason, Reason::WrongSortBy);
        let params = FindUsersParams { search: None, sort_by: text(sort_by), limit: None };
        assert!(find_users(params).is_err());
    }
}

#[test]
fn sort_field_is_bound_not_written() {
    let params = FindCompaniesParams { search: None, sort_by: text("since"), limit: None };
    let query = find_companies(params).unwrap();
    assert_eq!(query.query, "FOR c IN companies SORT c.@@sort_by ASC RETURN c");
    assert_eq!(query.bind_vars, vec![bound_text("@sort_by", "since")]);
}

#[test]
fn users_query_never_returns_the_password() {
    let all = [
        FindUsersParams { search: None, sort_by: None, limit: None },
        FindUsersParams { search: text("Ada"), sort_by: None, limit: None },
        FindUsersParams { search: None, sort_by: text("name"), limit: None },
        FindUsersParams { search: None, sort_by: None, limit: Some(3) },
        FindUsersParams { search: text(" a "), sort_by: text("since"), limit: Some(100) },
    ];
    for params in all {
        let query = find_users(params).unwrap();
        assert!(query.query.ends_with(" RETURN UNSET(x, 'password')"));
        assert!(query.query.starts_with("FOR x IN users"));
    }
}

#[test]
fn users_query_with_every_clause() {
    let params = FindUsersParams { search: text("Ada"), sort_by: text("name"), limit: Some(7) };
    let query = find_users(params).unwrap();
    assert_eq!(
        query.query,
        "FOR x IN users FILTER CONTAINS(x.name, @@search) SORT x.@@sort_by ASC LIMIT 0, @@limit RETURN UNSET(x, 'password')"
    );
    assert_eq!(
        query.bind_vars,
        vec![bound_text("@search", "Ada"), bound_text("@sort_by", "name"), bound_number("@limit", 7)]
    );
}

#[test]
fn search_text_is_bound_as_it_is() {
    let params = FindUsersParams {
        search: text("x') RETURN x //"),
        sort_by: None,
        limit: None,
    };
    let query = find_users(params).unwrap();
    assert_eq!(
        query.query,
        "FOR x IN users FILTER CONTAINS(x.name, @@search) RETURN UNSET(x, 'password')"
    );
    assert_eq!(query.bind_vars, vec![bound_text("@search", "x') RETURN x //")]);
}

#[test]
fn build_list_query_checks_nothing() {
    let query = build_list_query(Listing::Companies, &None, &text("anything"), &Some(0));
    assert_eq!(query.query, "FOR c IN companies SORT c.@@sort_by ASC LIMIT 0, @@limit RETURN c");
    assert_eq!(
        query.bind_vars,
        vec![bound_text("@sort_by", "anything"), bound_number("@limit", 0)]
    );
}

#[test]
fn listing_names_its_clauses() {
    assert_eq!(Listing::Companies.collection(), "companies");
    assert_eq!(Listing::Users.collection(), "users");
    assert_eq!(Listing::Companies.scan(), "FOR c IN companies");
    assert_eq!(Listing::Users.scan(), "FOR x IN users");
    assert_eq!(Listing::Companies.filter(), "FILTER CONTAINS(c.name, @@search)");
    assert_eq!(Listing::Users.filter(), "FILTER CONTAINS(x.name, @@search)");
    assert_eq!(Listing::Companies.sort(), "SORT c.@@sort_by ASC");
    assert_eq!(Listing::Users.sort(), "SORT x.@@sort_by ASC");
    assert_eq!(Listing::Companies.cap(), "LIMIT 0, @@limit");
    assert_eq!(Listing::Users.cap(), "LIMIT 0, @@limit");
    assert_eq!(Listing::Companies.result(), "RETURN c");
    assert_eq!(Listing::Users.result(), "RETURN UNSET(x, 'password')");
}

#[test]
fn first_ten_companies() {
    let query = get_companies();
    assert_eq!(
        query,
        ListQuery {
            query: "FOR c IN @@collection LIMIT 10 RETURN c".to_string(),
            bind_vars: vec![bound_text("@collection", "companies")],
            cap: Some(10),
        }
    );
}
