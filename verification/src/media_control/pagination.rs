//! Page arithmetic for the file selector.
use vstd::prelude::*;

verus! {

/// Number of pages needed to show `total` items, `per_page` at a time.
/// There is always at least one page, and a page size of zero yields one page.
pub open spec fn spec_total_pages(total: int, per_page: int) -> int {
    if per_page <= 0 {
        1
    } else {
        let pages = (total + per_page - 1) / per_page;
        if pages < 1 { 1 } else { pages }
    }
}

/// The page that `new` settles on: the requested page, clamped to the last page.
pub open spec fn spec_clamped_page(total: int, per_page: int, requested: int) -> int {
    let last = spec_total_pages(total, per_page) - 1;
    if requested < last { requested } else { last }
}

/// A window over a list of `total` items, `per_page` items per page.
#[derive(Debug, Clone)]
pub struct Paginator {
    /// Number of items.
    pub total: usize,
    /// Items per page.
    pub per_page: usize,
    /// Current page (0-based).
    pub current_page: usize,
}

impl Paginator {
    /// The start index of the current page, as a mathematical integer.
    pub open spec fn spec_start(&self) -> int {
        self.current_page * self.per_page
    }

    /// The end index (exclusive) of the current page, as a mathematical integer.
    pub open spec fn spec_end(&self) -> int {
        let e = (self.current_page + 1) * self.per_page;
        if e < self.total { e } else { self.total as int }
    }

    /// The current page lies within the pages that exist.
    pub open spec fn wf(&self) -> bool {
        self.current_page < spec_total_pages(self.total as int, self.per_page as int)
    }

    /// Builds a paginator; the requested page is clamped to the last existing page.
    pub fn new(total: usize, per_page: usize, current_page: usize) -> (p: Self)
        ensures
            p.total == total,
            p.per_page == per_page,
            p.current_page == spec_clamped_page(total as int, per_page as int, current_page as int),
            p.wf(),
    {
        let total_pages = Self::calc_total_pages(total, per_page);
        let current_page = if total_pages == 0 {
            0
        } else if current_page < total_pages - 1 {
            current_page
        } else {
            total_pages - 1
        };
        Paginator { total, per_page, current_page }
    }

    /// Number of pages (at least one).
    pub fn total_pages(&self) -> (n: usize)
        ensures
            n == spec_total_pages(self.total as int, self.per_page as int),
            n >= 1,
    {
        Self::calc_total_pages(self.total, self.per_page)
    }

    /// First index (inclusive) of the current page.
    pub fn start_index(&self) -> (i: usize)
        requires
            self.current_page * self.per_page <= usize::MAX,
        ensures
            i == self.spec_start(),
    {
        self.current_page * self.per_page
    }

    /// Last index (exclusive) of the current page, never beyond `total`.
    pub fn end_index(&self) -> (i: usize)
        requires
            self.current_page < usize::MAX,
            (self.current_page + 1) * self.per_page <= usize::MAX,
        ensures
            i == self.spec_end(),
    {
        let e = (self.current_page + 1) * self.per_page;
        if e < self.total { e } else { self.total }
    }

    /// The index range of the current page.
    pub fn range(&self) -> (r: std::ops::Range<usize>)
        requires
            self.current_page < usize::MAX,
            (self.current_page + 1) * self.per_page <= usize::MAX,
        ensures
            r.start == self.spec_start(),
            r.end == self.spec_end(),
    {
        proof {
            lemma_mul_le_succ(self.current_page as int, self.per_page as int);
        }
        self.start_index()..self.end_index()
    }

    /// Whether a previous page exists.
    pub fn has_prev(&self) -> (b: bool)
        ensures
            b == (self.current_page > 0),
    {
        self.current_page > 0
    }

    /// Whether a next page exists.
    pub fn has_next(&self) -> (b: bool)
        ensures
            b == (self.current_page + 1 < spec_total_pages(self.total as int, self.per_page as int)),
    {
        let pages = self.total_pages();
        self.current_page < pages - 1
    }

    /// Number of pages for `total` items at `per_page` items per page (at least one).
    pub fn calc_total_pages(total: usize, per_page: usize) -> (n: usize)
        ensures
            n == spec_total_pages(total as int, per_page as int),
            n >= 1,
    {
        if per_page == 0 {
            return 1;
        }
        let q = total / per_page;
        proof {
            assert(total % per_page != 0 ==> q < usize::MAX) by (nonlinear_arith)
                requires per_page > 0, q == total / per_page, total <= usize::MAX;
        }
        let pages = if total % per_page != 0 { q + 1 } else { q };
        proof {
            lemma_ceil_div(total as int, per_page as int);
        }
        if pages < 1 { 1 } else { pages }
    }
}

proof fn lemma_mul_le_succ(a: int, b: int)
    requires
        a >= 0,
        b >= 0,
    ensures
        a * b <= (a + 1) * b,
{
    assert(a * b <= (a + 1) * b) by (nonlinear_arith)
        requires a >= 0, b >= 0;
}

proof fn lemma_ceil_div(t: int, d: int)
    requires
        t >= 0,
        d > 0,
    ensures
        (t + d - 1) / d == t / d + (if t % d != 0 { 1int } else { 0int }),
        t / d <= t,
{
    assert((t + d - 1) / d == t / d + (if t % d != 0 { 1int } else { 0int })) by (nonlinear_arith)
        requires t >= 0, d > 0;
    assert(t / d <= t) by (nonlinear_arith)
        requires t >= 0, d > 0;
}

/// Every page that `new` produces lies inside the item list:
/// `start <= end <= total`, and the start never overflows.
pub proof fn lemma_page_within_items(total: usize, per_page: usize, requested: usize)
    ensures
        ({
            let p = Paginator {
                total,
                per_page,
                current_page: spec_clamped_page(total as int, per_page as int, requested as int) as usize,
            };
            &&& 0 <= p.spec_start() <= p.spec_end() <= total
        }),
{
    let c = spec_clamped_page(total as int, per_page as int, requested as int);
    let t = total as int;
    let d = per_page as int;
    assert(spec_total_pages(t, d) >= 1);
    assert(0 <= c <= requested);
    let p = Paginator { total, per_page, current_page: c as usize };
    assert(p.current_page == c);
    if d > 0 {
        let pages = spec_total_pages(t, d);
        assert(c <= pages - 1);
        if t > 0 {
            lemma_ceil_div(t, d);
            assert((t + d - 1) / d >= 1) by (nonlinear_arith)
                requires d > 0, t > 0;
            assert(c * d <= (pages - 1) * d) by (nonlinear_arith)
                requires 0 <= c <= pages - 1, d > 0;
            assert((pages - 1) * d < t) by (nonlinear_arith)
                requires d > 0, t > 0, pages == (t + d - 1) / d;
        } else {
            assert((t + d - 1) / d == 0) by (nonlinear_arith)
                requires d > 0, t == 0;
            assert(c == 0);
        }
        assert(c * d <= (c + 1) * d) by (nonlinear_arith)
            requires c >= 0, d > 0;
        assert(0 <= c * d) by (nonlinear_arith)
            requires c >= 0, d > 0;
    } else {
        assert(c * d == 0) by (nonlinear_arith)
            requires d == 0;
    }
}

/// The pages cover every item: item `i` is shown on page `i / per_page`.
pub proof fn lemma_item_on_its_page(total: usize, per_page: usize, i: usize)
    requires
        per_page > 0,
        i < total,
    ensures
        ({
            let page = i / per_page;
            let p = Paginator {
                total,
                per_page,
                current_page: spec_clamped_page(total as int, per_page as int, page as int) as usize,
            };
            &&& p.current_page == page
            &&& p.spec_start() <= i < p.spec_end()
        }),
{
    let t = total as int;
    let d = per_page as int;
    let c = (i as int) / d;
    lemma_ceil_div(t, d);
    assert(c <= (t + d - 1) / d - 1) by (nonlinear_arith)
        requires d > 0, 0 <= i < t, c == (i as int) / d;
    assert(c * d <= i && i < (c + 1) * d) by (nonlinear_arith)
        requires d > 0, i >= 0, c == (i as int) / d;
}

/// Consecutive pages meet and together cover the items: page 0 starts at 0, every page
/// but the last holds exactly `per_page` items and ends where the next page starts, and
/// the last page ends at `total`.
pub proof fn lemma_pages_tile(total: usize, per_page: usize, c: usize)
    requires
        per_page > 0,
        c < spec_total_pages(total as int, per_page as int),
    ensures
        ({
            let n = spec_total_pages(total as int, per_page as int);
            let p = Paginator { total, per_page, current_page: c };
            &&& 0 <= p.spec_start() <= p.spec_end() <= total
            &&& c == 0 ==> p.spec_start() == 0
            &&& c + 1 < n ==> p.spec_end() == (c + 1) * per_page && p.spec_end() - p.spec_start() == per_page
            &&& c + 1 == n ==> p.spec_end() == total
        }),
{
    let t = total as int;
    let d = per_page as int;
    let ci = c as int;
    let n = spec_total_pages(t, d);
    lemma_ceil_div(t, d);
    assert(0 <= ci * d && ci * d <= (ci + 1) * d && (ci + 1) * d == ci * d + d) by (nonlinear_arith)
        requires ci >= 0, d > 0;
    if t > 0 {
        assert((t + d - 1) / d >= 1) by (nonlinear_arith)
            requires d > 0, t > 0;
        assert(n == (t + d - 1) / d);
        assert((n - 1) * d < t && t <= n * d) by (nonlinear_arith)
            requires d > 0, t > 0, n == (t + d - 1) / d;
        if ci + 1 < n {
            assert((ci + 1) * d <= (n - 1) * d) by (nonlinear_arith)
                requires d > 0, ci + 1 <= n - 1;
        } else {
            assert(ci + 1 == n);
        }
        assert(ci * d <= (n - 1) * d) by (nonlinear_arith)
            requires d > 0, 0 <= ci <= n - 1;
    } else {
        assert((t + d - 1) / d == 0) by (nonlinear_arith)
            requires d > 0, t == 0;
        assert(n == 1 && ci == 0);
    }
    let p = Paginator { total, per_page, current_page: c };
    assert(p.spec_start() == ci * d);
    assert(p.spec_end() == if (ci + 1) * d < t { (ci + 1) * d } else { t });
    assert(ci == 0 ==> ci * d == 0) by (nonlinear_arith);
}

} // verus!
