//! The batch splitter's plan: a document of `page_count` pages is cut into
//! consecutive, non-overlapping ranges of at most `batch_size` pages, in
//! order; with no batch size configured the whole document is one batch.
//! Batch order is the sole source of truth for the later page offsets.

use vstd::prelude::*;

verus! {

/// One contiguous page range of the document, 0-based.
#[derive(Clone, Copy, Debug, PartialEq, Eq, Structural)]
pub struct BatchRange {
    /// First page of the range.
    pub start: usize,
    /// Number of pages in the range, at least one.
    pub pages: usize,
}

/// How many batches a plan has: one when no batch size is configured, else
/// `page_count / batch_size` rounded up.
pub open spec fn batch_count(page_count: int, batch_size: Option<u32>) -> int {
    match batch_size {
        None => 1,
        Some(b) => (page_count + b - 1) / (b as int),
    }
}

/// Cuts the document into its batch ranges. With no batch size the plan is
/// the whole document in one range; with batch size `b` range `i` starts at
/// page `i * b` and holds `b` pages, except the last, which holds what is
/// left. The ranges are non-empty, contiguous, in order, and cover the pages
/// exactly.
pub fn plan_batches(page_count: usize, batch_size: Option<u32>) -> (r: Vec<BatchRange>)
    requires
        page_count >= 1,
        batch_size matches Some(b) ==> b >= 1,
    ensures
        r@.len() == batch_count(page_count as int, batch_size),
        batch_size is None ==> r@ =~= seq![BatchRange { start: 0, pages: page_count }],
        batch_size matches Some(b) ==> forall|i: int|
            0 <= i < r@.len() ==> r@[i].start == i * b && r@[i].pages == (if i * b + b
                <= page_count {
                b as int
            } else {
                page_count - i * b
            }),
        r@[0].start == 0,
        forall|i: int| 0 <= i < r@.len() - 1 ==> #[trigger] r@[i + 1].start == r@[i].start
            + r@[i].pages,
        r@[r@.len() - 1].start + r@[r@.len() - 1].pages == page_count,
        forall|i: int| 0 <= i < r@.len() ==> #[trigger] r@[i].pages >= 1,
{
    let mut r: Vec<BatchRange> = Vec::new();
    match batch_size {
        None => {
            r.push(BatchRange { start: 0, pages: page_count });
        },
        Some(b) => {
            let b: usize = b as usize;
            let mut start: usize = 0;
            while start < page_count
                invariant
                    1 <= b <= u32::MAX,
                    page_count >= 1,
                    start == r@.len() * b || (start == page_count && r@.len() * b >= page_count),
                    start <= page_count,
                    r@.len() >= 1 ==> (r@.len() - 1) * b < page_count,
                    forall|i: int|
                        0 <= i < r@.len() ==> r@[i].start == i * b && r@[i].pages == (if i * b + b
                            <= page_count {
                            b as int
                        } else {
                            page_count - i * b
                        }),
                decreases page_count - start,
            {
                let remaining = page_count - start;
                let pages = if remaining < b {
                    remaining
                } else {
                    b
                };
                proof {
                    assert(start == r@.len() * b);
                    assert((r@.len() + 1) * b == r@.len() * b + b) by (nonlinear_arith);
                }
                r.push(BatchRange { start, pages });
                start = start + pages;
            }
            proof {
                let n = r@.len() as int;
                let bb = b as int;
                let pc = page_count as int;
                assert(n >= 1) by {
                    if n == 0 {
                        assert(start as int == 0 * bb || start == page_count);
                    }
                }
                assert((n - 1) * bb < pc <= n * bb);
                assert(n == (pc + bb - 1) / bb) by (nonlinear_arith)
                    requires
                        bb >= 1,
                        n >= 1,
                        (n - 1) * bb < pc <= n * bb,
                ;
                // Contiguity and coverage, from the start and pages formulas.
                assert forall|i: int| 0 <= i < n - 1 implies #[trigger] r@[i + 1].start
                    == r@[i].start + r@[i].pages by {
                    assert((i + 1) * bb == i * bb + bb) by (nonlinear_arith);
                    assert((i + 1) * bb <= (n - 1) * bb) by (nonlinear_arith)
                        requires
                            bb >= 1,
                            i + 1 <= n - 1,
                    ;
                }
                assert((n - 1) * bb + bb == n * bb) by (nonlinear_arith);
                assert(r@[n - 1].start + r@[n - 1].pages == pc);
                assert forall|i: int| 0 <= i < n implies #[trigger] r@[i].pages >= 1 by {
                    assert(i * bb <= (n - 1) * bb) by (nonlinear_arith)
                        requires
                            bb >= 1,
                            0 <= i <= n - 1,
                    ;
                }
            }
        },
    }
    r
}

} // verus!
