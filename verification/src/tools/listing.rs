//! Bounded listings.

use crate::tools::args::is_cut;
use vstd::prelude::*;

verus! {

/// A listing: its items, how many they are, and whether there may be more.
#[derive(Debug)]
pub struct Listing<T> {
    pub items: Vec<T>,
    pub count: usize,
    pub truncated: bool,
}

/// Does the listing hold these items, and say that there may be more exactly
/// where it is as long as it may be?
pub open spec fn lists<T>(l: Listing<T>, items: Seq<T>, limit: usize) -> bool {
    l.items@ == items && l.count == items.len() && l.truncated == is_cut(l.count, limit)
}

/// The listing of items that were asked for with a limit.
pub fn listing<T>(items: Vec<T>, limit: usize) -> (r: Listing<T>)
    ensures
        lists(r, items@, limit),
{
    let count: usize = items.len();
    Listing { items, count, truncated: count == limit }
}

} // verus!
