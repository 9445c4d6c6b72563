//! Index bookkeeping of square matrices: the submatrix left when one row and
//! one column are deleted (the basis of minors and cofactors), and the
//! transpose. The cell type is generic: these operations only move cells.

use vstd::prelude::*;

verus! {

/// The position in the full matrix of position `i` of a submatrix from
/// which position `skip` was deleted.
pub open spec fn kept(i: int, skip: int) -> int {
    if i < skip {
        i
    } else {
        i + 1
    }
}

fn kept_index(i: usize, skip: usize) -> (r: usize)
    requires
        i < 3,
    ensures
        r == kept(i as int, skip as int),
{
    if i < skip {
        i
    } else {
        i + 1
    }
}

/// The 3×3 matrix left when `row` and `column` are deleted from `m`.
pub fn submatrix4<T: Copy>(m: &[[T; 4]; 4], row: usize, column: usize) -> (r: [[T; 3]; 3])
    requires
        row < 4,
        column < 4,
    ensures
        forall|i: int, j: int|
            0 <= i < 3 && 0 <= j < 3 ==> #[trigger] r@[i]@[j] == m@[kept(i, row as int)]@[kept(
                j,
                column as int,
            )],
{
    let r0 = kept_index(0, row);
    let r1 = kept_index(1, row);
    let r2 = kept_index(2, row);
    let c0 = kept_index(0, column);
    let c1 = kept_index(1, column);
    let c2 = kept_index(2, column);
    let r = [
        [m[r0][c0], m[r0][c1], m[r0][c2]],
        [m[r1][c0], m[r1][c1], m[r1][c2]],
        [m[r2][c0], m[r2][c1], m[r2][c2]],
    ];
    r
}

/// The 2×2 matrix left when `row` and `column` are deleted from `m`.
pub fn submatrix3<T: Copy>(m: &[[T; 3]; 3], row: usize, column: usize) -> (r: [[T; 2]; 2])
    requires
        row < 3,
        column < 3,
    ensures
        forall|i: int, j: int|
            0 <= i < 2 && 0 <= j < 2 ==> #[trigger] r@[i]@[j] == m@[kept(i, row as int)]@[kept(
                j,
                column as int,
            )],
{
    let r0 = kept_index(0, row);
    let r1 = kept_index(1, row);
    let c0 = kept_index(0, column);
    let c1 = kept_index(1, column);
    let r = [[m[r0][c0], m[r0][c1]], [m[r1][c0], m[r1][c1]]];
    r
}

/// The transpose of `m`: cell `(i, j)` of the result is cell `(j, i)` of `m`.
pub fn transpose4<T: Copy>(m: &[[T; 4]; 4]) -> (r: [[T; 4]; 4])
    ensures
        forall|i: int, j: int| 0 <= i < 4 && 0 <= j < 4 ==> #[trigger] r@[i]@[j] == m@[j]@[i],
{
    let mut r = *m;
    let mut i: usize = 0;
    while i < 4
        invariant
            i <= 4,
            forall|a: int, b: int|
                0 <= a < 4 && 0 <= b < 4 ==> #[trigger] r@[a]@[b] == if a < i {
                    m@[b]@[a]
                } else {
                    m@[a]@[b]
                },
        decreases 4 - i,
    {
        let mut row = r[i];
        let mut j: usize = 0;
        while j < 4
            invariant
                i < 4,
                j <= 4,
                forall|b: int| 0 <= b < 4 ==> #[trigger] row@[b] == if b < j {
                    m@[b]@[i as int]
                } else {
                    r@[i as int]@[b]
                },
                forall|a: int, b: int|
                    0 <= a < 4 && 0 <= b < 4 ==> #[trigger] r@[a]@[b] == if a < i {
                        m@[b]@[a]
                    } else {
                        m@[a]@[b]
                    },
            decreases 4 - j,
        {
            row[j] = m[j][i];
            j = j + 1;
        }
        r[i] = row;
        i = i + 1;
    }
    r
}

} // verus!
