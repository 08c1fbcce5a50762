//! Touching a buffer page by page, as the demand-paging and copy-on-write
//! experiments do, and the progress marks printed along the way.

use vstd::prelude::*;

verus! {

/// The page size the experiments step by.
pub const PAGE_SIZE: usize = 4096;

/// Bytes in one mebibyte.
pub const MIB: usize = 1024 * 1024;

/// The index of the `step`-sized page that holds byte `x`.
pub open spec fn page_of(x: int, step: usize) -> int {
    x / (step as int)
}

/// The offsets `0, step, 2 * step, ...` below `len`: one per page when `step` is
/// the page size. Every byte of the buffer lies in the page of the offset at
/// index `x / step`.
pub fn touch_offsets(len: usize, step: usize) -> (r: Vec<usize>)
    requires
        step > 0,
    ensures
        forall|k: int| 0 <= k < r@.len() ==> #[trigger] r@[k] == k * step,
        forall|k: int| 0 <= k < r@.len() ==> #[trigger] r@[k] < len,
        forall|x: int| 0 <= x < len ==> #[trigger] page_of(x, step) < r@.len(),
{
    let mut r: Vec<usize> = Vec::new();
    if len == 0 {
        return r;
    }
    let mut off: usize = 0;
    assert(r@.len() * step == 0) by (nonlinear_arith)
        requires
            r@.len() == 0,
    ;
    loop
        invariant_except_break
            off < len,
            off == r@.len() * step,
            forall|x: int| 0 <= x < off ==> #[trigger] page_of(x, step) < r@.len(),
        invariant
            step > 0,
            forall|k: int| 0 <= k < r@.len() ==> #[trigger] r@[k] == k * step,
            forall|k: int| 0 <= k < r@.len() ==> #[trigger] r@[k] < len,
        ensures
            forall|k: int| 0 <= k < r@.len() ==> #[trigger] r@[k] == k * step,
            forall|k: int| 0 <= k < r@.len() ==> #[trigger] r@[k] < len,
            forall|x: int| 0 <= x < len ==> #[trigger] page_of(x, step) < r@.len(),
        decreases len - off,
    {
        let ghost k = r@.len() as int;
        r.push(off);
        assert forall|x: int| 0 <= x < off + step implies #[trigger] page_of(x, step) < r@.len() by {
            assert(x / (step as int) <= k) by (nonlinear_arith)
                requires
                    0 <= x < off + step,
                    off == k * step,
                    step > 0,
            ;
        }
        if len - off <= step {
            break;
        }
        assert(off + step == (k + 1) * step) by (nonlinear_arith)
            requires
                off == k * step,
        ;
        off = off + step;
    }
    r
}

/// Whether touching the page at `offset` of a `total`-byte buffer completes
/// one of `ncycle` equal parts, other than at the very start; if so, the
/// mebibytes touched so far, which the experiment reports.
pub open spec fn touched_report_spec(offset: usize, total: usize, ncycle: usize) -> Option<usize> {
    let part = total / ncycle;
    if offset / part != 0 && offset % part == 0 {
        Some(offset / MIB)
    } else {
        None
    }
}

/// Decides whether the demand-paging experiment reports progress after
/// touching the page at `offset`, and with which mebibyte count.
pub fn touched_report(offset: usize, total: usize, ncycle: usize) -> (r: Option<usize>)
    requires
        ncycle > 0,
        total / ncycle > 0,
    ensures
        r == touched_report_spec(offset, total, ncycle),
{
    let part = total / ncycle;
    let cycle = offset / part;
    if cycle != 0 && offset % part == 0 {
        Some(offset / MIB)
    } else {
        None
    }
}

} // verus!
