//! The query that lists the records of a collection: a scan, then a filter on
//! the name, a sort and a cap as far as they were asked for, then what is
//! returned of each record. What a client sent is bound to a name, never
//! written into the query's text.

use vstd::prelude::*;
use vstd::string::StringExecFns;
use crate::text::{chars_of, trim, trimmed};

verus! {

/// A value bound to a name of a query.
#[derive(Clone, Debug, PartialEq, Eq)]
pub enum BindValue {
    Text(String),
    Number(u32),
}

/// A bound value as a value.
pub enum BindValueView {
    Text(Seq<char>),
    Number(u32),
}

impl View for BindValue {
    type V = BindValueView;

    open spec fn view(&self) -> BindValueView {
        match *self {
            BindValue::Text(s) => BindValueView::Text(s@),
            BindValue::Number(n) => BindValueView::Number(n),
        }
    }
}

/// A name of a query and the value bound to it.
#[derive(Clone, Debug, PartialEq, Eq)]
pub struct BindVar {
    pub name: String,
    pub value: BindValue,
}

/// A binding as values.
pub struct BindVarView {
    pub name: Seq<char>,
    pub value: BindValueView,
}

impl View for BindVar {
    type V = BindVarView;

    open spec fn view(&self) -> BindVarView {
        BindVarView { name: self.name@, value: self.value@ }
    }
}

/// A query, its bindings, and the most rows that it asks for, if it caps
/// them.
#[derive(Clone, Debug, PartialEq, Eq)]
pub struct ListQuery {
    pub query: String,
    pub bind_vars: Vec<BindVar>,
    pub cap: Option<u32>,
}

/// A query's text, bindings and cap as values.
pub struct ListQueryView {
    pub query: Seq<char>,
    pub bind_vars: Seq<BindVarView>,
    pub cap: Option<u32>,
}

impl View for ListQuery {
    type V = ListQueryView;

    open spec fn view(&self) -> ListQueryView {
        ListQueryView {
            query: self.query@,
            bind_vars: self.bind_vars@.map_values(|b: BindVar| b@),
            cap: self.cap,
        }
    }
}

/// The collections that can be listed.
#[derive(Clone, Copy, Debug, PartialEq, Eq, Structural)]
pub enum Listing {
    Companies,
    Users,
}

impl Listing {
    /// The collection's name.
    pub open spec fn spec_collection(self) -> Seq<char> {
        match self {
            Listing::Companies => "companies"@,
            Listing::Users => "users"@,
        }
    }

    /// The clause that walks the collection.
    pub open spec fn spec_scan(self) -> Seq<char> {
        match self {
            Listing::Companies => "FOR c IN companies"@,
            Listing::Users => "FOR x IN users"@,
        }
    }

    /// The clause that keeps the records whose name holds the search text.
    pub open spec fn spec_filter(self) -> Seq<char> {
        match self {
            Listing::Companies => "FILTER CONTAINS(c.name, @@search)"@,
            Listing::Users => "FILTER CONTAINS(x.name, @@search)"@,
        }
    }

    /// The clause that sorts by the bound field, smallest first.
    pub open spec fn spec_sort(self) -> Seq<char> {
        match self {
            Listing::Companies => "SORT c.@@sort_by ASC"@,
            Listing::Users => "SORT x.@@sort_by ASC"@,
        }
    }

    /// The clause that caps the number of records at the bound limit.
    pub open spec fn spec_cap(self) -> Seq<char> {
        "LIMIT 0, @@limit"@
    }

    /// The clause that says what is returned of each record: a company
    /// whole, a user without the password.
    pub open spec fn spec_result(self) -> Seq<char> {
        match self {
            Listing::Companies => "RETURN c"@,
            Listing::Users => "RETURN UNSET(x, 'password')"@,
        }
    }

    /// The collection's name.
    pub fn collection(&self) -> (r: &'static str)
        ensures
            r@ == self.spec_collection(),
    {
        match self {
            Listing::Companies => "companies",
            Listing::Users => "users",
        }
    }

    /// The clause that walks the collection.
    pub fn scan(&self) -> (r: &'static str)
        ensures
            r@ == self.spec_scan(),
    {
        match self {
            Listing::Companies => "FOR c IN companies",
            Listing::Users => "FOR x IN users",
        }
    }

    /// The clause that keeps the records whose name holds the search text.
    pub fn filter(&self) -> (r: &'static str)
        ensures
            r@ == self.spec_filter(),
    {
        match self {
            Listing::Companies => "FILTER CONTAINS(c.name, @@search)",
            Listing::Users => "FILTER CONTAINS(x.name, @@search)",
        }
    }

    /// The clause that sorts by the bound field, smallest first.
    pub fn sort(&self) -> (r: &'static str)
        ensures
            r@ == self.spec_sort(),
    {
        match self {
            Listing::Companies => "SORT c.@@sort_by ASC",
            Listing::Users => "SORT x.@@sort_by ASC",
        }
    }

    /// The clause that caps the number of records at the bound limit.
    pub fn cap(&self) -> (r: &'static str)
        ensures
            r@ == self.spec_cap(),
    {
        "LIMIT 0, @@limit"
    }

    /// The clause that says what is returned of each record.
    pub fn result(&self) -> (r: &'static str)
        ensures
            r@ == self.spec_result(),
    {
        match self {
            Listing::Companies => "RETURN c",
            Listing::Users => "RETURN UNSET(x, 'password')",
        }
    }
}

/// The text to search for: what was sent without the whitespace around it,
/// and nothing if that leaves nothing.
pub open spec fn search_text(search: Option<Seq<char>>) -> Option<Seq<char>> {
    match search {
        Some(s) if trimmed(s).len() > 0 => Some(trimmed(s)),
        _ => None,
    }
}

/// A clause behind a space if it is there, else nothing.
pub open spec fn clause(present: bool, text: Seq<char>) -> Seq<char> {
    if present {
        " "@ + text
    } else {
        Seq::empty()
    }
}

/// The binding of `name` if there is a value, else nothing.
pub open spec fn binding(name: Seq<char>, value: Option<BindValueView>) -> Seq<BindVarView> {
    match value {
        Some(value) => seq![BindVarView { name, value }],
        None => Seq::empty(),
    }
}

/// The text of a bound value.
pub open spec fn bound_text(text: Option<Seq<char>>) -> Option<BindValueView> {
    match text {
        Some(s) => Some(BindValueView::Text(s)),
        None => None,
    }
}

/// The number of a bound value.
pub open spec fn bound_number(number: Option<u32>) -> Option<BindValueView> {
    match number {
        Some(n) => Some(BindValueView::Number(n)),
        None => None,
    }
}

/// The clauses of a listing that choose and order the records: the scan,
/// then the filter and the sort as far as they are asked for.
pub open spec fn list_head(listing: Listing, search: Option<Seq<char>>, sort_by: Option<Seq<char>>) -> Seq<
    char,
> {
    listing.spec_scan() + clause(search_text(search) is Some, listing.spec_filter()) + clause(
        sort_by is Some,
        listing.spec_sort(),
    )
}

/// The query that lists a collection: its clauses in their fixed order with
/// one space between them, and the bindings of the clauses that are there.
pub open spec fn list_query(
    listing: Listing,
    search: Option<Seq<char>>,
    sort_by: Option<Seq<char>>,
    limit: Option<u32>,
) -> ListQueryView {
    ListQueryView {
        query: list_head(listing, search, sort_by) + clause(limit is Some, listing.spec_cap())
            + clause(true, listing.spec_result()),
        bind_vars: binding("@search"@, bound_text(search_text(search))) + binding(
            "@sort_by"@,
            bound_text(sort_by),
        ) + binding("@limit"@, bound_number(limit)),
        cap: limit,
    }
}

/// Builds the query that lists a collection. Nothing is checked here: the
/// sort field and the limit are bound as they are.
pub fn build_list_query(
    listing: Listing,
    search: &Option<String>,
    sort_by: &Option<String>,
    limit: &Option<u32>,
) -> (r: ListQuery)
    ensures
        r@ == list_query(listing, chars_of(*search), chars_of(*sort_by), *limit),
{
    let mut query = String::from_str(listing.scan());
    let mut bind_vars: Vec<BindVar> = Vec::new();
    let ghost mut vars: Seq<BindVarView> = Seq::empty();
    proof {
        assert(bind_vars@.map_values(|b: BindVar| b@) =~= vars);
    }
    match search {
        Some(s) => {
            let kept = trim(s.as_str());
            if !kept.is_empty() {
                query.append(" ");
                query.append(listing.filter());
                let var = BindVar {
                    name: String::from_str("@search"),
                    value: BindValue::Text(kept.to_owned()),
                };
                proof {
                    vars = vars.push(var@);
                }
                bind_vars.push(var);
            }
        },
        None => {},
    }
    proof {
        assert(bind_vars@.map_values(|b: BindVar| b@) =~= vars);
        assert(vars =~= binding("@search"@, bound_text(search_text(chars_of(*search)))));
        assert(query@ =~= listing.spec_scan() + clause(
            search_text(chars_of(*search)) is Some,
            listing.spec_filter(),
        ));
    }
    match sort_by {
        Some(s) => {
            query.append(" ");
            query.append(listing.sort());
            let var = BindVar { name: String::from_str("@sort_by"), value: BindValue::Text(s.clone()) };
            proof {
                vars = vars.push(var@);
            }
            bind_vars.push(var);
        },
        None => {},
    }
    proof {
        assert(bind_vars@.map_values(|b: BindVar| b@) =~= vars);
        assert(vars =~= binding("@search"@, bound_text(search_text(chars_of(*search)))) + binding(
            "@sort_by"@,
            bound_text(chars_of(*sort_by)),
        ));
        assert(query@ =~= listing.spec_scan() + clause(
            search_text(chars_of(*search)) is Some,
            listing.spec_filter(),
        ) + clause(sort_by is Some, listing.spec_sort()));
    }
    match limit {
        Some(n) => {
            query.append(" ");
            query.append(listing.cap());
            let var = BindVar { name: String::from_str("@limit"), value: BindValue::Number(*n) };
            proof {
                vars = vars.push(var@);
            }
            bind_vars.push(var);
        },
        None => {},
    }
    query.append(" ");
    query.append(listing.result());
    proof {
        assert(bind_vars@.map_values(|b: BindVar| b@) =~= vars);
        assert(vars =~= list_query(
            listing,
            chars_of(*search),
            chars_of(*sort_by),
            *limit,
        ).bind_vars);
        assert(query@ =~= list_query(listing, chars_of(*search), chars_of(*sort_by), *limit).query);
    }
    ListQuery { query, bind_vars, cap: *limit }
}

/// The rows of a listing that are answered: all that came if the query has
/// no cap or no more came than its cap, else the first of them up to the cap.
pub open spec fn capped<T>(rows: Seq<T>, cap: Option<u32>) -> Seq<T> {
    match cap {
        Some(n) if rows.len() > n => rows.take(n as int),
        _ => rows,
    }
}

/// Keeps of the rows of a listing no more than the query's cap, in their
/// order.
pub fn cap_rows<T>(rows: Vec<T>, cap: Option<u32>) -> (r: Vec<T>)
    ensures
        r@ == capped(rows@, cap),
{
    let mut rows = rows;
    match cap {
        Some(n) => {
            if rows.len() > n as usize {
                rows.truncate(n as usize);
            }
        },
        None => {},
    }
    rows
}

/// The query for the first ten companies, with the collection bound by name.
pub open spec fn first_companies() -> ListQueryView {
    ListQueryView {
        query: "FOR c IN @@collection LIMIT 10 RETURN c"@,
        bind_vars: seq![
            BindVarView { name: "@collection"@, value: BindValueView::Text("companies"@) },
        ],
        cap: Some(10),
    }
}

} // verus!
