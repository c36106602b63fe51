use vstd::prelude::*;

verus! {

/// In a list laid out row by row, `width` entries to a row, an entry of row
/// `kk` comes before the first entry of any later row `k`.
proof fn lemma_row_starts(k: int, kk: int, j: int, width: int)
    requires
        0 <= kk < k,
        0 <= j < width,
    ensures
        kk * width + j < k * width,
        0 <= kk * width,
{
    assert((kk + 1) * width <= k * width) by (nonlinear_arith)
        requires
            kk + 1 <= k,
            0 <= width,
    ;
    assert(0 <= kk * width) by (nonlinear_arith)
        requires
            0 <= kk,
            0 <= width,
    ;
    assert((kk + 1) * width == kk * width + width) by (nonlinear_arith);
}

/// The coordinates `(y, x)` of the pixels in the order the image is produced:
/// rows from `height` down to 0 (both included), and within a row the columns
/// 0 to `width - 1` from left to right.
pub fn pixel_order(width: usize, height: usize) -> (r: Vec<(usize, usize)>)
    requires
        height < usize::MAX,
        (height + 1) * width <= usize::MAX,
    ensures
        r@.len() == (height + 1) * width,
        forall|k: int, j: int|
            0 <= k <= height && 0 <= j < width ==> #[trigger] r@[k * width + j] == (
                (height - k) as usize,
                j as usize,
            ),
{
    let mut out: Vec<(usize, usize)> = Vec::new();
    let mut y: usize = height + 1;
    while y > 0
        invariant
            y <= height + 1,
            (height + 1) * width <= usize::MAX,
            out@.len() == (height + 1 - y) * width,
            forall|k: int, j: int|
                0 <= k < height + 1 - y && 0 <= j < width ==> #[trigger] out@[k * width + j] == (
                    (height - k) as usize,
                    j as usize,
                ),
        decreases y,
    {
        y = y - 1;
        let ghost row: int = height - y;
        let mut x: usize = 0;
        while x < width
            invariant
                y <= height,
                row == height - y,
                x <= width,
                out@.len() == row * width + x,
                forall|k: int, j: int|
                    0 <= k < row && 0 <= j < width ==> #[trigger] out@[k * width + j] == (
                        (height - k) as usize,
                        j as usize,
                    ),
                forall|j: int| 0 <= j < x ==> #[trigger] out@[row * width + j] == (y, j as usize),
            decreases width - x,
        {
            let ghost before = out@;
            out.push((y, x));
            proof {
                assert forall|k: int, j: int| 0 <= k < row && 0 <= j < width implies #[trigger] out@[k * width + j] == (
                    (height - k) as usize,
                    j as usize,
                ) by {
                    lemma_row_starts(row, k, j, width as int);
                    assert(out@[k * width + j] == before[k * width + j]);
                }
                assert(out@[row * width + x] == (y, x));
            }
            x = x + 1;
        }
        proof {
            assert((row + 1) * width == row * width + width) by (nonlinear_arith);
            assert forall|k: int, j: int| 0 <= k < row + 1 && 0 <= j < width implies #[trigger] out@[k * width + j] == (
                (height - k) as usize,
                j as usize,
            ) by {
                if k == row {
                    assert(out@[row * width + j] == (y, j as usize));
                }
            }
        }
    }
    out
}

} // verus!
