//! The decisions the stock repository takes before its database calls.

use crate::common::text::text_eq;
use vstd::prelude::*;

verus! {

/// The column a stock list may be filtered by, for the name a request
/// gives: only `product`, which searches the product's name.
pub open spec fn spec_filter_column(filter_by: Seq<char>) -> Option<Seq<char>> {
    if filter_by == "product"@ {
        Some("products.name"@)
    } else {
        None
    }
}

/// Maps the filter a request names to the column it searches; `None` for
/// any other name (the request is refused as invalid input).
pub fn filter_column(filter_by: &str) -> (r: Option<&'static str>)
    ensures
        match r {
            Some(c) => spec_filter_column(filter_by@) == Some(c@),
            None => spec_filter_column(filter_by@) is None,
        },
{
    if text_eq(filter_by, "product") {
        Some("products.name")
    } else {
        None
    }
}

/// A stock list is filtered only by product name: the request's filter
/// name `product`, and no other, selects a column, and that column is
/// `products.name`.
pub proof fn lemma_filter_whitelisted(filter_by: Seq<char>)
    ensures
        spec_filter_column(filter_by) is Some <==> filter_by == "product"@,
        spec_filter_column(filter_by) matches Some(c) ==> c == "products.name"@,
{
}

} // verus!
