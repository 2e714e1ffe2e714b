//! Mapping between logical key indices and (page, physical slot) pairs.
//!
//! With more configured keys than fit on one screen, keys are spread over
//! pages. Every page but a lone one reserves slots for page navigation: the
//! first and last pages give up one slot, middle pages give up two.
use vstd::prelude::*;

verus! {

/// Number of physical keys on the device.
pub const STREAMDECK_KEY_COUNT: usize = 15;

/// Smallest `keys_per_page` a configuration may ask for.
pub const MIN_KEYS_PER_PAGE: usize = 3;

/// A slot reserved for moving between pages.
#[derive(Clone, Copy, Debug, PartialEq, Eq, Structural)]
pub enum NavigationSlot {
    PreviousPage,
    NextPage,
}

/// Paging parameters: physical slot count and how many of them a page uses.
#[derive(Clone, Copy, Debug, PartialEq, Eq, Structural)]
pub struct PagingLayout {
    pub total_slots: usize,
    pub keys_per_page: usize,
}

/// `ceil(a / b)` for `b > 0`.
pub open spec fn ceil_div(a: int, b: int) -> int {
    if a % b == 0 {
        a / b
    } else {
        a / b + 1
    }
}

/// Number of pages needed for `n` keys with `k` keys per page.
pub open spec fn page_count_spec(k: int, n: int) -> int {
    if n <= k {
        1
    } else if n <= 2 * (k - 1) {
        2
    } else {
        2 + ceil_div(n - 2 * (k - 1), k - 2)
    }
}

/// How many logical keys page `page` holds out of `total` pages.
pub open spec fn page_capacity_spec(k: int, page: int, total: int) -> int {
    if total == 1 {
        k
    } else if page == 0 || page + 1 == total {
        k - 1
    } else {
        k - 2
    }
}

/// Sum of the capacities of the pages before `page`.
pub open spec fn page_offset_spec(k: int, page: int, total: int) -> int
    decreases page,
{
    if page <= 0 {
        0
    } else {
        page_offset_spec(k, page - 1, total) + page_capacity_spec(k, page - 1, total)
    }
}

/// Which navigation button, if any, physical slot `slot` holds on `page`.
pub open spec fn navigation_spec(
    k: int,
    total_slots: int,
    page: int,
    total: int,
    slot: int,
) -> Option<NavigationSlot> {
    if total <= 1 || slot >= total_slots {
        None
    } else {
        let has_prev = page > 0;
        let has_next = page + 1 < total;
        if has_prev && has_next {
            if slot == k - 2 {
                Some(NavigationSlot::PreviousPage)
            } else if slot == k - 1 {
                Some(NavigationSlot::NextPage)
            } else {
                None
            }
        } else if has_prev {
            if slot == k - 1 {
                Some(NavigationSlot::PreviousPage)
            } else {
                None
            }
        } else if has_next && slot == k - 1 {
            Some(NavigationSlot::NextPage)
        } else {
            None
        }
    }
}

/// Logical key shown at (`page`, `slot`) when `n` keys are configured.
/// A page past the end is read as the last page.
pub open spec fn key_index_spec(
    k: int,
    total_slots: int,
    n: int,
    page: int,
    slot: int,
) -> Option<int> {
    let total = page_count_spec(k, n);
    let page = if page < total - 1 {
        page
    } else {
        total - 1
    };
    if slot >= total_slots {
        None
    } else if navigation_spec(k, total_slots, page, total, slot).is_some() {
        None
    } else if slot >= page_capacity_spec(k, page, total) {
        None
    } else if page_offset_spec(k, page, total) + slot < n {
        Some(page_offset_spec(k, page, total) + slot)
    } else {
        None
    }
}

impl PagingLayout {
    pub open spec fn spec_total_slots(self) -> int {
        self.total_slots as int
    }

    pub open spec fn spec_keys_per_page(self) -> int {
        self.keys_per_page as int
    }

    /// A usable layout: at least three keys per page, all of them physical.
    pub open spec fn wf(self) -> bool {
        MIN_KEYS_PER_PAGE <= self.keys_per_page <= self.total_slots
    }

    pub open spec fn key_index(self, n: int, page: int, slot: int) -> Option<int> {
        key_index_spec(self.keys_per_page as int, self.total_slots as int, n, page, slot)
    }

    pub open spec fn pages(self, n: int) -> int {
        page_count_spec(self.keys_per_page as int, n)
    }

    pub fn new(total_slots: usize, keys_per_page: usize) -> (r: Self)
        ensures
            r.spec_total_slots() == total_slots,
            r.spec_keys_per_page() == keys_per_page,
    {
        Self { total_slots, keys_per_page }
    }

    pub fn total_slots(self) -> (r: usize)
        ensures
            r == self.total_slots,
    {
        self.total_slots
    }

    pub fn keys_per_page(self) -> (r: usize)
        ensures
            r == self.keys_per_page,
    {
        self.keys_per_page
    }

    /// Keys on the first and on the last page of a multi-page layout.
    pub fn edge_page_action_key_count(self) -> (r: usize)
        ensures
            r == if self.keys_per_page >= 1 {
                self.keys_per_page - 1
            } else {
                0
            },
    {
        self.keys_per_page.saturating_sub(1)
    }

    /// Keys on a middle page of a multi-page layout.
    pub fn paged_action_key_count(self) -> (r: usize)
        ensures
            r == if self.keys_per_page >= 2 {
                self.keys_per_page - 2
            } else {
                0
            },
    {
        self.keys_per_page.saturating_sub(2)
    }

    /// Slot of the "previous page" button on a middle page.
    pub fn previous_page_key(self) -> (r: usize)
        ensures
            r == if self.keys_per_page >= 2 {
                self.keys_per_page - 2
            } else {
                0
            },
    {
        self.keys_per_page.saturating_sub(2)
    }

    /// Slot of the "next page" button; the last page puts "previous" there.
    pub fn next_page_key(self) -> (r: usize)
        ensures
            r == if self.keys_per_page >= 1 {
                self.keys_per_page - 1
            } else {
                0
            },
    {
        self.keys_per_page.saturating_sub(1)
    }

    pub fn page_count(self, action_count: usize) -> (r: usize)
        requires
            self.wf(),
        ensures
            r == page_count_spec(self.keys_per_page as int, action_count as int),
            r >= 1,
    {
        let edge = self.edge_page_action_key_count();
        if action_count <= self.keys_per_page {
            1
        } else if action_count - edge <= edge {
            2
        } else {
            let remaining = action_count - edge - edge;
            let paged = self.paged_action_key_count();
            let whole = remaining / paged;
            assert(whole <= remaining) by (nonlinear_arith)
                requires
                    paged >= 1,
                    whole == remaining / paged,
            ;
            if remaining % paged == 0 {
                2 + whole
            } else {
                3 + whole
            }
        }
    }

    pub fn page_capacity(self, page: usize, total_pages: usize) -> (r: usize)
        ensures
            r == if total_pages == 1 {
                self.keys_per_page as int
            } else if page == 0 || page + 1 == total_pages {
                if self.keys_per_page >= 1 {
                    self.keys_per_page - 1
                } else {
                    0
                }
            } else if self.keys_per_page >= 2 {
                self.keys_per_page - 2
            } else {
                0
            },
            self.wf() ==> r == page_capacity_spec(
                self.keys_per_page as int,
                page as int,
                total_pages as int,
            ),
    {
        if total_pages == 1 {
            self.keys_per_page
        } else if page == 0 || page as u128 + 1 == total_pages as u128 {
            self.edge_page_action_key_count()
        } else {
            self.paged_action_key_count()
        }
    }

    pub fn page_offset(self, page: usize, total_pages: usize) -> (r: usize)
        requires
            self.wf(),
            page_offset_spec(self.keys_per_page as int, page as int, total_pages as int)
                <= usize::MAX,
        ensures
            r == page_offset_spec(self.keys_per_page as int, page as int, total_pages as int),
    {
        let ghost k = self.keys_per_page as int;
        let mut sum: usize = 0;
        let mut p: usize = 0;
        while p < page
            invariant
                self.wf(),
                k == self.keys_per_page,
                p <= page,
                sum == page_offset_spec(k, p as int, total_pages as int),
                page_offset_spec(k, page as int, total_pages as int) <= usize::MAX,
            decreases page - p,
        {
            proof {
                lemma_offset_monotone(k, (p + 1) as int, page as int, total_pages as int);
            }
            sum = sum + self.page_capacity(p, total_pages);
            p = p + 1;
        }
        sum
    }

    pub fn navigation_slot_for_slot(self, page: usize, total_pages: usize, slot: usize) -> (r:
        Option<NavigationSlot>)
        requires
            self.wf(),
        ensures
            r == navigation_spec(
                self.keys_per_page as int,
                self.total_slots as int,
                page as int,
                total_pages as int,
                slot as int,
            ),
    {
        if total_pages <= 1 || slot >= self.total_slots {
            return None;
        }
        let has_prev = page > 0;
        let has_next = (page as u128) + 1 < total_pages as u128;
        let last_slot = self.next_page_key();
        let penultimate_slot = self.previous_page_key();

        if has_prev && has_next {
            if slot == penultimate_slot {
                return Some(NavigationSlot::PreviousPage);
            }
            if slot == last_slot {
                return Some(NavigationSlot::NextPage);
            }
        } else if has_prev {
            if slot == last_slot {
                return Some(NavigationSlot::PreviousPage);
            }
        } else if has_next && slot == last_slot {
            return Some(NavigationSlot::NextPage);
        }
        None
    }

    pub fn key_index_for_slot(self, action_count: usize, page: usize, slot: usize) -> (r: Option<
        usize,
    >)
        requires
            self.wf(),
        ensures
            r matches Some(i) ==> self.key_index(action_count as int, page as int, slot as int)
                == Some(i as int),
            r is None ==> self.key_index(action_count as int, page as int, slot as int) is None,
    {
        let ghost k = self.keys_per_page as int;
        let total_pages = self.page_count(action_count);
        let page = if page < total_pages - 1 {
            page
        } else {
            total_pages - 1
        };
        if slot >= self.total_slots {
            return None;
        }
        if self.navigation_slot_for_slot(page, total_pages, slot).is_some() {
            return None;
        }
        let capacity = self.page_capacity(page, total_pages);
        if slot >= capacity {
            return None;
        }
        proof {
            lemma_offset_within_keys(k, action_count as int, page as int);
        }
        let offset = self.page_offset(page, total_pages);
        if slot < action_count - offset {
            Some(offset + slot)
        } else {
            None
        }
    }

    /// First (page, slot) in page-then-slot order that shows `key_index`.
    pub fn locate_key_slot(self, action_count: usize, key_index: usize) -> (r: Option<
        (usize, usize),
    >)
        requires
            self.wf(),
        ensures
            locate_result(self, action_count as int, key_index as int, r),
            r matches Some((p, s)) ==> forall|p2: int, s2: int|
                0 <= p2 < self.pages(action_count as int) && 0 <= s2 < self.total_slots && (p2 < p
                    || (p2 == p && s2 < s)) ==> self.key_index(action_count as int, p2, s2)
                    != Some(key_index as int),
            key_index < action_count ==> r is Some,
    {
        let total_pages = self.page_count(action_count);
        let mut page: usize = 0;
        while page < total_pages
            invariant
                self.wf(),
                total_pages == self.pages(action_count as int),
                page <= total_pages,
                forall|p2: int, s2: int|
                    0 <= p2 < page && 0 <= s2 < self.total_slots ==> self.key_index(
                        action_count as int,
                        p2,
                        s2,
                    ) != Some(key_index as int),
            decreases total_pages - page,
        {
            let mut slot: usize = 0;
            while slot < self.total_slots
                invariant
                    self.wf(),
                    total_pages == self.pages(action_count as int),
                    page < total_pages,
                    slot <= self.total_slots,
                    forall|p2: int, s2: int|
                        0 <= p2 < page && 0 <= s2 < self.total_slots ==> self.key_index(
                            action_count as int,
                            p2,
                            s2,
                        ) != Some(key_index as int),
                    forall|s2: int|
                        0 <= s2 < slot ==> self.key_index(action_count as int, page as int, s2)
                            != Some(key_index as int),
                decreases self.total_slots - slot,
            {
                let found = self.key_index_for_slot(action_count, page, slot);
                if found == Some(key_index) {
                    return Some((page, slot));
                }
                slot = slot + 1;
            }
            page = page + 1;
        }
        proof {
            if key_index < action_count {
                lemma_every_key_has_a_slot(self, action_count as int, key_index as int);
            }
        }
        None
    }
}

/// Offsets never decrease from one page to a later one.
pub proof fn lemma_offset_monotone(k: int, p: int, q: int, total: int)
    requires
        k >= 3,
        p <= q,
    ensures
        page_offset_spec(k, p, total) <= page_offset_spec(k, q, total),
    decreases q - p,
{
    if p < q {
        lemma_offset_monotone(k, p, q - 1, total);
    }
}

/// On a multi-page layout, page `p` (not past the last) starts after the
/// first page and `p - 1` middle pages.
pub proof fn lemma_offset_closed_form(k: int, p: int, total: int)
    requires
        k >= 3,
        total >= 2,
        1 <= p <= total - 1,
    ensures
        page_offset_spec(k, p, total) == (k - 1) + (p - 1) * (k - 2),
    decreases p,
{
    assert(page_offset_spec(k, p, total) == page_offset_spec(k, p - 1, total)
        + page_capacity_spec(k, p - 1, total));
    if p > 1 {
        lemma_offset_closed_form(k, p - 1, total);
        assert(page_capacity_spec(k, p - 1, total) == k - 2);
        assert((k - 1) + (p - 2) * (k - 2) + (k - 2) == (k - 1) + (p - 1) * (k - 2))
            by (nonlinear_arith);
    } else {
        assert(page_offset_spec(k, 0, total) == 0);
    }
}

/// Facts about the page count of `n` keys when more than one page is needed.
pub proof fn lemma_page_count_bounds(k: int, n: int)
    requires
        k >= 3,
        n > k,
    ensures
        page_count_spec(k, n) >= 2,
        n <= (k - 1) + (page_count_spec(k, n) - 2) * (k - 2) + (k - 1),
        page_count_spec(k, n) >= 3 ==> (k - 1) + (page_count_spec(k, n) - 2) * (k - 2) < n,
        page_count_spec(k, n) == 2 ==> k - 1 < n,
{
    let total = page_count_spec(k, n);
    if n > 2 * (k - 1) {
        let r = n - 2 * (k - 1);
        let d = k - 2;
        let c = ceil_div(r, d);
        assert(c * d >= r && (c - 1) * d < r) by (nonlinear_arith)
            requires
                d >= 1,
                r >= 1,
                c == if r % d == 0 {
                    r / d
                } else {
                    r / d + 1
                },
        ;
        assert(total - 2 == c);
        assert((k - 1) + (total - 2) * d + (k - 1) >= n);
        assert((k - 1) + (total - 2) * d < n) by (nonlinear_arith)
            requires
                (c - 1) * d < r,
                total - 2 == c,
                r == n - 2 * (k - 1),
                d == k - 2,
        ;
    }
}

/// The first key of page `page` (clamped to the last page) is at most `n`.
pub proof fn lemma_offset_within_keys(k: int, n: int, page: int)
    requires
        k >= 3,
        n >= 0,
        0 <= page <= page_count_spec(k, n) - 1,
    ensures
        page_offset_spec(k, page, page_count_spec(k, n)) <= n,
{
    let total = page_count_spec(k, n);
    if page >= 1 {
        assert(n > k);
        lemma_page_count_bounds(k, n);
        lemma_offset_closed_form(k, page, total);
        lemma_offset_closed_form(k, total - 1, total);
        assert((page - 1) * (k - 2) <= (total - 2) * (k - 2)) by (nonlinear_arith)
            requires
                page <= total - 1,
                k >= 3,
        ;
        if total == 2 {
            assert(page == 1);
        } else {
            assert((k - 1) + (total - 2) * (k - 2) < n);
        }
        assert(page_offset_spec(k, page, total) <= (k - 1) + (total - 2) * (k - 2));
    } else {
        assert(page_offset_spec(k, 0, total) == 0);
    }
}

/// Every configured key is shown somewhere: for each `key_index < n` some
/// (page, slot) on the layout maps back to exactly that key.
pub proof fn lemma_every_key_has_a_slot(layout: PagingLayout, n: int, key_index: int)
    requires
        layout.wf(),
        0 <= key_index < n,
    ensures
        exists|p: int, s: int|
            0 <= p < layout.pages(n) && 0 <= s < layout.spec_total_slots() && layout.key_index(
                n,
                p,
                s,
            ) == Some(key_index),
{
    let k = layout.spec_keys_per_page();
    let total = page_count_spec(k, n);
    if n <= k {
        assert(layout.key_index(n, 0, key_index) == Some(key_index));
    } else {
        lemma_page_count_bounds(k, n);
        if key_index < k - 1 {
            assert(layout.key_index(n, 0, key_index) == Some(key_index));
        } else {
            let d = k - 2;
            let r = key_index - (k - 1);
            let q = r / d;
            let s = r % d;
            assert(r == q * d + s && 0 <= s < d && q >= 0) by (nonlinear_arith)
                requires
                    d >= 1,
                    r >= 0,
                    q == r / d,
                    s == r % d,
            ;
            if 1 + q < total - 1 {
                let p = 1 + q;
                lemma_offset_closed_form(k, p, total);
                assert(page_offset_spec(k, p, total) + s == key_index) by (nonlinear_arith)
                    requires
                        page_offset_spec(k, p, total) == (k - 1) + (p - 1) * d,
                        p == 1 + q,
                        r == q * d + s,
                        r == key_index - (k - 1),
                ;
                assert(layout.key_index(n, p, s) == Some(key_index));
            } else {
                let p = total - 1;
                lemma_offset_closed_form(k, p, total);
                let off = page_offset_spec(k, p, total);
                assert(off <= key_index) by (nonlinear_arith)
                    requires
                        off == (k - 1) + (p - 1) * d,
                        p - 1 <= q,
                        r == q * d + s,
                        r == key_index - (k - 1),
                        d >= 1,
                        s >= 0,
                ;
                let s2 = key_index - off;
                assert(s2 < k - 1);
                assert(layout.key_index(n, p, s2) == Some(key_index));
            }
        }
    }
}

/// Looking a key up and reading its slot back gives the same key: for every
/// `key_index < n`, what `locate_key_slot` returns is a slot, and
/// `key_index_for_slot` on that slot returns `key_index`.
pub proof fn lemma_locate_round_trip(
    layout: PagingLayout,
    n: int,
    key_index: int,
    r: Option<(usize, usize)>,
)
    requires
        layout.wf(),
        0 <= key_index < n,
        locate_result(layout, n, key_index, r),
    ensures
        r is Some,
        layout.key_index(n, r.unwrap().0 as int, r.unwrap().1 as int) == Some(key_index),
{
    lemma_every_key_has_a_slot(layout, n, key_index);
}

/// What `locate_key_slot` promises of its result.
pub open spec fn locate_result(
    layout: PagingLayout,
    n: int,
    key_index: int,
    r: Option<(usize, usize)>,
) -> bool {
    &&& r matches Some((p, s)) ==> {
        &&& p < layout.pages(n)
        &&& s < layout.spec_total_slots()
        &&& layout.key_index(n, p as int, s as int) == Some(key_index)
    }
    &&& r is None ==> forall|p2: int, s2: int|
        0 <= p2 < layout.pages(n) && 0 <= s2 < layout.spec_total_slots() ==> layout.key_index(
            n,
            p2,
            s2,
        ) != Some(key_index)
}

} // verus!
