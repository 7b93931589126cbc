//! The plain listing of companies.

use vstd::prelude::*;
use vstd::string::StringExecFns;
use crate::query::{first_companies, BindValue, BindVar, ListQuery};

verus! {

/// The query for the first ten companies, in the order of the collection.
pub fn get_companies() -> (r: ListQuery)
    ensures
        r@ == first_companies(),
{
    let var = BindVar {
        name: String::from_str("@collection"),
        value: BindValue::Text(String::from_str("companies")),
    };
    let mut bind_vars: Vec<BindVar> = Vec::new();
    bind_vars.push(var);
    let r = ListQuery {
        query: String::from_str("FOR c IN @@collection LIMIT 10 RETURN c"),
        bind_vars,
        cap: Some(10),
    };
    assert(r@.bind_vars =~= first_companies().bind_vars);
    r
}

} // verus!
