//! Splitting a list into fixed-size pages.
use vstd::prelude::*;
use vstd::slice::slice_subrange;

verus! {

/// The number of items shown on one page.
pub const DEFAULT_PAGE_SIZE: usize = 10;

/// A structure to handle paginated data.
#[derive(Debug, Eq, PartialEq, Clone)]
pub struct Paginated<T> {
    /// The items on all pages.
    pub items: Vec<T>,
    /// The current page number (1-indexed).
    pub page: usize,
    /// The number of items per page.
    pub page_size: usize,
    /// The total number of items across all pages.
    pub total_items: usize,
    /// The total number of pages.
    pub total_pages: usize,
}

/// Number of pages needed for `n` items: the ceiling of `n / page_size`,
/// and one page for an empty list.
pub open spec fn pages_for(n: nat, page_size: nat) -> nat
    recommends
        page_size > 0,
{
    if n == 0 {
        1
    } else {
        ((n + page_size - 1) / page_size as int) as nat
    }
}

/// `page` clamped into `[1, total_pages]`.
pub open spec fn clamp_page(page: nat, total_pages: nat) -> nat {
    if page < 1 {
        1
    } else if page > total_pages {
        total_pages
    } else {
        page
    }
}

/// Index of the first item of the current page (`(page - 1) * page_size`,
/// with page 0 treated as page 1).
pub open spec fn page_start(page: nat, page_size: nat) -> nat {
    if page == 0 {
        0
    } else {
        ((page - 1) * page_size) as nat
    }
}

/// The items shown on page `page` of `items`.
pub open spec fn page_slice<T>(items: Seq<T>, page: nat, page_size: nat) -> Seq<T> {
    let start = page_start(page, page_size);
    if items.len() == 0 || page_size == 0 || start >= items.len() {
        Seq::empty()
    } else {
        let end = if start + page_size < items.len() {
            start + page_size
        } else {
            items.len()
        };
        items.subrange(start as int, end as int)
    }
}

impl<T> Paginated<T> {
    /// The relations between the fields that `new` establishes.
    pub open spec fn wf(&self) -> bool {
        &&& self.page_size == DEFAULT_PAGE_SIZE
        &&& self.total_items == self.items@.len()
        &&& self.total_pages == pages_for(self.items@.len(), DEFAULT_PAGE_SIZE as nat)
        &&& 1 <= self.page <= self.total_pages
    }

    /// The items of the current page.
    pub open spec fn page_items(&self) -> Seq<T> {
        page_slice(self.items@, self.page as nat, self.page_size as nat)
    }

    /// Whether computing the current page's bounds stays within `usize`.
    pub open spec fn bounds_fit(&self) -> bool {
        let start = page_start(self.page as nat, self.page_size as nat);
        &&& start <= usize::MAX
        &&& start < self.items@.len() ==> start + self.page_size <= usize::MAX
    }

    /// Creates a new `Paginated` instance showing page `page` of `items`;
    /// the page number is clamped into `[1, total_pages]`.
    pub fn new(items: Vec<T>, page: usize) -> (res: Self)
        ensures
            res.items == items,
            res.page_size == DEFAULT_PAGE_SIZE,
            res.total_items == items@.len(),
            res.total_pages == pages_for(items@.len(), DEFAULT_PAGE_SIZE as nat),
            res.page == clamp_page(page as nat, res.total_pages as nat),
            res.wf(),
    {
        let total_items = items.len();
        let total_pages = if total_items == 0 {
            1
        } else {
            total_items / DEFAULT_PAGE_SIZE + if total_items % DEFAULT_PAGE_SIZE == 0 {
                0
            } else {
                1
            }
        };
        proof {
            let n = total_items as int;
            if n > 0 {
                assert((n + 9) / 10 == n / 10 + if n % 10 == 0 { 0int } else { 1int });
            }
        }
        let lower = if page < 1 {
            1
        } else {
            page
        };
        let validated_page = if lower > total_pages {
            total_pages
        } else {
            lower
        };
        Paginated {
            items,
            page: validated_page,
            page_size: DEFAULT_PAGE_SIZE,
            total_items,
            total_pages,
        }
    }

    /// Returns `true` if there is a next page.
    pub fn has_next(&self) -> (res: bool)
        ensures
            res == (self.page < self.total_pages),
    {
        self.page < self.total_pages
    }

    /// Returns `true` if there is a previous page.
    pub fn has_prev(&self) -> (res: bool)
        ensures
            res == (self.page > 1),
    {
        self.page > 1
    }

    /// Returns a slice of the items on the current page.
    pub fn get_page_items(&self) -> (res: &[T])
        requires
            self.bounds_fit(),
        ensures
            res@ == self.page_items(),
    {
        if self.items.len() == 0 || self.page_size == 0 {
            return slice_subrange(self.items.as_slice(), 0, 0);
        }
        let start = if self.page == 0 {
            0
        } else {
            (self.page - 1) * self.page_size
        };
        if start >= self.items.len() {
            return slice_subrange(self.items.as_slice(), 0, 0);
        }
        let end = if start + self.page_size < self.items.len() {
            start + self.page_size
        } else {
            self.items.len()
        };
        slice_subrange(self.items.as_slice(), start, end)
    }
}

/// Every item shows up on exactly one page, in place: item `i` is entry
/// `i % page_size` of page `i / page_size + 1`, and that page exists.
pub proof fn law_every_item_on_its_page<T>(items: Seq<T>, i: int)
    requires
        0 <= i < items.len(),
    ensures
        ({
            let page = (i / DEFAULT_PAGE_SIZE as int + 1) as nat;
            &&& 1 <= page <= pages_for(items.len(), DEFAULT_PAGE_SIZE as nat)
            &&& (i % DEFAULT_PAGE_SIZE as int) < page_slice(items, page, DEFAULT_PAGE_SIZE as nat).len()
            &&& page_slice(items, page, DEFAULT_PAGE_SIZE as nat)[i % DEFAULT_PAGE_SIZE as int]
                == items[i]
        }),
{
    let n = items.len() as int;
    let q = i / 10;
    let r = i % 10;
    assert(i == q * 10 + r && 0 <= r < 10) by (nonlinear_arith)
        requires
            q == i / 10,
            r == i % 10,
            i >= 0,
    ;
    assert(q + 1 <= (n + 9) / 10) by (nonlinear_arith)
        requires
            i == q * 10 + r,
            0 <= r < 10,
            i < n,
            q >= 0,
    ;
    assert(page_start((q + 1) as nat, 10) == q * 10);
}

/// No page holds more than `page_size` items.
pub proof fn law_page_holds_at_most_page_size<T>(items: Seq<T>, page: nat)
    ensures
        page_slice(items, page, DEFAULT_PAGE_SIZE as nat).len() <= DEFAULT_PAGE_SIZE,
{
}

/// The current page of a well-formed `Paginated` is empty exactly when
/// there are no items at all.
pub proof fn law_current_page_empty_iff_no_items<T>(p: Paginated<T>)
    requires
        p.wf(),
    ensures
        p.page_items().len() == 0 <==> p.items@.len() == 0,
{
    let n = p.items@.len() as int;
    let page = p.page as int;
    if n > 0 {
        assert((page - 1) * 10 < n) by (nonlinear_arith)
            requires
                1 <= page <= (n + 9) / 10,
                n > 0,
        ;
    }
}

/// There is a next page exactly when items remain after the current
/// page, and a previous page exactly when the current page is not the
/// first.
pub proof fn law_next_page_iff_more_items<T>(p: Paginated<T>)
    requires
        p.wf(),
    ensures
        p.page < p.total_pages <==> p.page * p.page_size < p.total_items,
        p.page > 1 <==> page_start(p.page as nat, p.page_size as nat) > 0,
{
    let n = p.items@.len() as int;
    let page = p.page as int;
    if n > 0 {
        assert(page < (n + 9) / 10 <==> page * 10 < n) by (nonlinear_arith)
            requires
                1 <= page,
                n > 0,
        ;
    }
    assert((page - 1) * 10 > 0 <==> page > 1) by (nonlinear_arith)
        requires
            page >= 1,
    ;
}

/// Pages `1..=k` of `items`, one after the other.
pub open spec fn pages_concat<T>(items: Seq<T>, k: nat) -> Seq<T>
    decreases k,
{
    if k == 0 {
        Seq::empty()
    } else {
        pages_concat(items, (k - 1) as nat) + page_slice(items, k, DEFAULT_PAGE_SIZE as nat)
    }
}

proof fn lemma_pages_concat_prefix<T>(items: Seq<T>, k: nat)
    ensures
        pages_concat(items, k) == items.take(
            if k * 10 <= items.len() {
                (k * 10) as int
            } else {
                items.len() as int
            },
        ),
    decreases k,
{
    let n = items.len() as int;
    if k == 0 {
        assert(items.take(0) =~= Seq::<T>::empty());
    } else {
        lemma_pages_concat_prefix(items, (k - 1) as nat);
        let start = ((k - 1) * 10) as int;
        assert(page_start(k, 10) == start);
        if start >= n {
            assert(page_slice(items, k, 10) =~= Seq::<T>::empty());
            assert(pages_concat(items, k) =~= pages_concat(items, (k - 1) as nat));
        } else {
            let end = if start + 10 < n {
                start + 10
            } else {
                n
            };
            assert(page_slice(items, k, 10) == items.subrange(start, end));
            assert(items.take(start) + items.subrange(start, end) =~= items.take(end));
        }
    }
}

/// The pages of a list, from the first to the last, put together give
/// back the whole list; when the list is not empty, every page holds
/// between one and `page_size` items, and every page but the last holds
/// exactly `page_size`.
pub proof fn law_pages_make_up_the_list<T>(items: Seq<T>)
    ensures
        pages_concat(items, pages_for(items.len(), DEFAULT_PAGE_SIZE as nat)) == items,
        forall|k: nat|
            1 <= k <= pages_for(items.len(), DEFAULT_PAGE_SIZE as nat) && items.len() > 0 ==> 1
                <= #[trigger] page_slice(items, k, DEFAULT_PAGE_SIZE as nat).len()
                <= DEFAULT_PAGE_SIZE,
        forall|k: nat|
            1 <= k < pages_for(items.len(), DEFAULT_PAGE_SIZE as nat) ==> #[trigger] page_slice(
                items,
                k,
                DEFAULT_PAGE_SIZE as nat,
            ).len() == DEFAULT_PAGE_SIZE,
{
    let n = items.len() as int;
    let t = pages_for(items.len(), 10);
    lemma_pages_concat_prefix(items, t);
    if n == 0 {
        assert(items.take(0) =~= items);
    } else {
        assert(t * 10 >= n) by (nonlinear_arith)
            requires
                t == (n + 9) / 10,
                n > 0,
        ;
        assert(items.take(n) =~= items);
    }
    assert forall|k: nat|
        1 <= k <= t && n > 0 implies 1 <= #[trigger] page_slice(items, k, 10).len() <= 10 by {
        assert((k - 1) * 10 < n) by (nonlinear_arith)
            requires
                1 <= k <= t,
                t == (n + 9) / 10,
                n > 0,
        ;
        assert(page_start(k, 10) == (k - 1) * 10);
    }
    assert forall|k: nat| 1 <= k < t implies #[trigger] page_slice(items, k, 10).len() == 10 by {
        assert(k * 10 <= n) by (nonlinear_arith)
            requires
                1 <= k < t,
                t == (n + 9) / 10,
                n > 0,
        ;
        assert(page_start(k, 10) == (k - 1) * 10);
    }
}

} // verus!
