//! Page arithmetic of list views.
//!
//! A list of `total_items` entries shown `page_size` at a time has
//! `total_items / page_size + 1` pages. When `total_items` is a multiple of
//! `page_size` the last of them is empty; this convention is kept on purpose,
//! and the last-page test uses the same floor division, so that exactly one
//! page is the last.

use vstd::prelude::*;

verus! {

/// A zero-based page index.
#[derive(Clone, Copy, Debug, PartialEq, Eq, Structural)]
pub struct PageNumber(pub u64);

impl PageNumber {
    pub fn next(&self) -> (r: PageNumber)
        requires
            self.0 < u64::MAX,
        ensures
            r.0 == self.0 + 1,
    {
        PageNumber(self.0 + 1)
    }

    /// The page before this one; page 0 stays page 0.
    pub fn previous(&self) -> (r: PageNumber)
        ensures
            r.0 == if self.0 == 0 {
                0
            } else {
                self.0 - 1
            },
    {
        if self.0 == 0 {
            PageNumber(0)
        } else {
            PageNumber(self.0 - 1)
        }
    }

    /// The one-based number shown to people.
    pub fn human_readable_page_number(&self) -> (r: PageNumber)
        requires
            self.0 < u64::MAX,
        ensures
            r.0 == self.0 + 1,
    {
        PageNumber(self.0 + 1)
    }
}

/// Where a page stands in its list.
#[derive(Clone, Copy, Debug, PartialEq, Eq, Structural)]
pub struct PageInfo {
    pub total_pages: u64,
    /// The page shown: the requested one, or the last page when the request
    /// lies beyond it (a stale token).
    pub current: u64,
    pub is_first: bool,
    pub is_last: bool,
    pub human_current: u64,
    pub human_total: u64,
}

/// The index of the last page.
pub open spec fn last_page(total_items: u64, page_size: u64) -> int {
    total_items as int / page_size as int
}

/// The sizes for which the page count fits a `u64`.
pub open spec fn pageable(total_items: u64, page_size: u64) -> bool {
    page_size > 0 && last_page(total_items, page_size) < u64::MAX
}

pub open spec fn page_info(total_items: u64, page_size: u64, current: u64) -> PageInfo {
    let last = last_page(total_items, page_size);
    let cur = if current as int <= last {
        current as int
    } else {
        last
    };
    PageInfo {
        total_pages: (last + 1) as u64,
        current: cur as u64,
        is_first: cur == 0,
        is_last: cur == last,
        human_current: (cur + 1) as u64,
        human_total: (last + 1) as u64,
    }
}

/// Where page `current` stands in a list of `total_items` entries shown
/// `page_size` at a time.
pub fn compute(total_items: u64, page_size: u64, current: u64) -> (r: PageInfo)
    requires
        pageable(total_items, page_size),
    ensures
        r == page_info(total_items, page_size, current),
{
    let last = total_items / page_size;
    let cur = if current <= last {
        current
    } else {
        last
    };
    PageInfo {
        total_pages: last + 1,
        current: cur,
        is_first: cur == 0,
        is_last: cur == last,
        human_current: cur + 1,
        human_total: last + 1,
    }
}

/// Every list has at least one page, and exactly one of its pages is the
/// last: the one with index `total_pages - 1`.
pub proof fn lemma_exactly_one_last_page(total_items: u64, page_size: u64)
    requires
        pageable(total_items, page_size),
    ensures
        page_info(total_items, page_size, 0).total_pages >= 1,
        forall|p: u64|
            p < page_info(total_items, page_size, 0).total_pages ==> (#[trigger] page_info(
                total_items,
                page_size,
                p,
            ).is_last <==> p == page_info(total_items, page_size, 0).total_pages - 1),
        forall|p: u64|
            p < page_info(total_items, page_size, 0).total_pages ==> #[trigger] page_info(
                total_items,
                page_size,
                p,
            ).current == p,
{
}

} // verus!
