//! An optional page/size/sort request and its validity predicates.

use vstd::prelude::*;

verus! {

/// An optional paging request: a 1-based page, a page size, and a sort
/// direction (`1` ascending, `-1` descending). A request is honoured only
/// when all three are present and sensible, or all three are absent; any
/// other combination is malformed and the caller rejects it.
#[derive(Debug, Clone, Copy, PartialEq, Eq)]
pub struct Pagination {
    pub page: Option<usize>,
    pub items: Option<usize>,
    pub sorting: Option<i32>,
}

impl Pagination {
    /// All three fields are present, the page and size are positive, and
    /// the sort direction is `1` or `-1`.
    pub open spec fn spec_fully_set(self) -> bool {
        &&& self.page matches Some(p) && p > 0
        &&& self.items matches Some(n) && n > 0
        &&& self.sorting matches Some(s) && (s == 1 || s == -1)
    }

    /// All three fields are absent.
    pub open spec fn spec_fully_empty(self) -> bool {
        self.page is None && self.items is None && self.sorting is None
    }

    pub fn is_fully_set(&self) -> (r: bool)
        ensures
            r == self.spec_fully_set(),
    {
        match (self.page, self.items, self.sorting) {
            (Some(p), Some(n), Some(s)) => p > 0 && n > 0 && (s == 1 || s == -1),
            _ => false,
        }
    }

    pub fn is_fully_empty(&self) -> (r: bool)
        ensures
            r == self.spec_fully_empty(),
    {
        self.page.is_none() && self.items.is_none() && self.sorting.is_none()
    }

    /// The window of records a fully set request selects: how many to
    /// skip and how many to take.
    pub fn page_window(&self) -> (r: (usize, usize))
        requires
            self.spec_fully_set(),
            (self.page->0 - 1) * self.items->0 <= usize::MAX,
        ensures
            r.0 == (self.page->0 - 1) * self.items->0,
            r.1 == self.items->0,
    {
        let page = self.page.unwrap();
        let items = self.items.unwrap();
        ((page - 1) * items, items)
    }
}

/// A partially filled request satisfies neither predicate: when at least
/// one field is present and at least one is absent, the caller must treat
/// the request as malformed.
pub proof fn lemma_partial_pagination_is_malformed(p: Pagination)
    requires
        p.page is Some || p.items is Some || p.sorting is Some,
        p.page is None || p.items is None || p.sorting is None,
    ensures
        !p.spec_fully_set(),
        !p.spec_fully_empty(),
{
}

} // verus!
