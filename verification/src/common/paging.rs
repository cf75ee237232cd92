//! How the repositories turn the paging and ordering of a list request into
//! the parts of their SQL: the `ORDER BY` clause, and the limit, offset and
//! page numbers that are bound as 32-bit integers.

use crate::common::text::{is_blank, lead_space, lemma_trim_frame, trail_space, trim};
use vstd::prelude::*;

verus! {

/// The page size when the request names none.
pub const DEFAULT_LIMIT: u64 = 25;

/// The page asked for, as the repository binds it.
#[derive(Debug, Clone, Copy, PartialEq, Eq)]
pub struct PageWindow {
    pub limit: i32,
    pub offset: i32,
    pub page: i32,
}

/// What a list answer says about its page.
#[derive(Debug, Clone, Copy, PartialEq, Eq)]
pub struct PaginatorMeta {
    pub page: i32,
    pub limit: i32,
    pub total: i64,
}

/// A requested number, or its default when none is given.
pub open spec fn or_default(v: Option<u64>, default: u64) -> u64 {
    match v {
        Some(x) => x,
        None => default,
    }
}

/// The requested paging fits the 32-bit integers the queries bind.
pub open spec fn window_fits(limit: Option<u64>, offset: Option<u64>, page: Option<u64>) -> bool {
    &&& or_default(limit, DEFAULT_LIMIT) <= i32::MAX
    &&& or_default(offset, 0) <= i32::MAX
    &&& or_default(page, 1) <= i32::MAX
}

/// The 32-bit form of a requested number, if it fits.
fn to_i32(v: u64) -> (r: Option<i32>)
    ensures
        r is Some <==> v <= i32::MAX,
        r matches Some(x) ==> x == v,
{
    if v <= 2147483647 {
        Some(v as i32)
    } else {
        None
    }
}

/// The page window of a request: the limit defaults to 25, the offset to
/// 0 and the page to 1; `None` when a number does not fit a 32-bit
/// integer (the request is then refused).
pub fn page_window(limit: Option<u64>, offset: Option<u64>, page: Option<u64>) -> (r: Option<
    PageWindow,
>)
    ensures
        r is Some <==> window_fits(limit, offset, page),
        r matches Some(w) ==> {
            &&& w.limit == or_default(limit, DEFAULT_LIMIT)
            &&& w.offset == or_default(offset, 0)
            &&& w.page == or_default(page, 1)
        },
{
    let limit = match limit {
        Some(x) => x,
        None => DEFAULT_LIMIT,
    };
    let offset = match offset {
        Some(x) => x,
        None => 0,
    };
    let page = match page {
        Some(x) => x,
        None => 1,
    };
    match (to_i32(limit), to_i32(offset), to_i32(page)) {
        (Some(limit), Some(offset), Some(page)) => Some(PageWindow { limit, offset, page }),
        _ => None,
    }
}

impl PageWindow {
    /// The page description of an answer holding `total` rows in all.
    pub fn meta(&self, total: i64) -> (r: PaginatorMeta)
        ensures
            r == (PaginatorMeta { page: self.page, limit: self.limit, total }),
    {
        PaginatorMeta { page: self.page, limit: self.limit, total }
    }
}

/// The `ORDER BY` clause of a list query: ordered by the column of `table`
/// in the direction given, or no clause when either is missing.
pub open spec fn spec_order_by_clause(
    table: Seq<char>,
    order_by: Option<Seq<char>>,
    order: Option<Seq<char>>,
) -> Seq<char> {
    match (order_by, order) {
        (Some(column), Some(direction)) => "ORDER BY "@ + table + "."@ + column + " "@ + direction,
        _ => Seq::empty(),
    }
}

/// The characters of an optional borrowed text.
pub open spec fn opt_str_chars(o: Option<&str>) -> Option<Seq<char>> {
    match o {
        Some(s) => Some(s@),
        None => None,
    }
}

/// Builds the `ORDER BY` clause of a list query (see
/// `spec_order_by_clause`). The column and direction come from validated
/// values, never from raw input.
pub fn order_by_clause(table: &str, order_by: Option<&str>, order: Option<&str>) -> (r: String)
    ensures
        r@ == spec_order_by_clause(table@, opt_str_chars(order_by), opt_str_chars(order)),
{
    match (order_by, order) {
        (Some(column), Some(direction)) => {
            let clause = "ORDER BY ".to_owned();
            let clause = clause.concat(table);
            let clause = clause.concat(".");
            let clause = clause.concat(column);
            let clause = clause.concat(" ");
            clause.concat(direction)
        },
        _ => String::new(),
    }
}

/// The directions a list may be ordered in.
pub open spec fn is_order_direction(direction: Seq<char>) -> bool {
    direction == "ASC"@ || direction == "DESC"@
}

/// The ordering clause holds the column's text, of which only its trimmed
/// name is not whitespace: the clause is the fixed words, the table, the
/// trimmed column name framed by whitespace, and the direction.
pub proof fn lemma_order_by_clause_frame(
    table: Seq<char>,
    column: Seq<char>,
    direction: Seq<char>,
)
    ensures
        spec_order_by_clause(table, Some(column), Some(direction)) == "ORDER BY "@ + table + "."@
            + lead_space(column) + trim(column) + trail_space(column) + " "@ + direction,
        is_blank(lead_space(column)),
        is_blank(trail_space(column)),
{
    lemma_trim_frame(column);
    assert("ORDER BY "@ + table + "."@ + column + " "@ + direction =~= "ORDER BY "@ + table + "."@
        + lead_space(column) + trim(column) + trail_space(column) + " "@ + direction);
}

/// A request's paging is taken as given, and what it leaves out defaults
/// to a limit of 25, an offset of 0 and the first page; it is refused
/// exactly when a number does not fit a 32-bit integer.
pub proof fn lemma_window_defaults(limit: Option<u64>, offset: Option<u64>, page: Option<u64>)
    ensures
        limit matches Some(l) ==> or_default(limit, DEFAULT_LIMIT) == l,
        offset matches Some(o) ==> or_default(offset, 0) == o,
        page matches Some(p) ==> or_default(page, 1) == p,
        limit is None ==> or_default(limit, DEFAULT_LIMIT) == 25,
        offset is None ==> or_default(offset, 0) == 0,
        page is None ==> or_default(page, 1) == 1,
        window_fits(limit, offset, page) <==> (limit matches Some(l) ==> l <= 2147483647)
            && (offset matches Some(o) ==> o <= 2147483647) && (page matches Some(p) ==> p
            <= 2147483647),
{
}

} // verus!
