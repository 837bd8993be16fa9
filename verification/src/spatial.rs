//! A bucket grid over the map: each node index is filed under the cell that holds it,
//! cells outside the grid being clamped to its border.

use vstd::prelude::*;

verus! {

/// `raw` clamped to the cell indices `0 ..= n - 1`.
pub open spec fn clamp_spec(raw: int, n: int) -> int {
    if raw < 0 {
        0
    } else if raw > n - 1 {
        n - 1
    } else {
        raw
    }
}

/// The bucket, row-major, of a node whose unclamped (column, row) cell is `cell`.
pub open spec fn bucket_of(cell: (isize, isize), cols: int, rows: int) -> int {
    clamp_spec(cell.1 as int, rows) * cols + clamp_spec(cell.0 as int, cols)
}

/// The indices among the first `n` nodes that fall in bucket `b`, in increasing order.
pub open spec fn members_upto(cells: Seq<(isize, isize)>, cols: int, rows: int, n: int, b: int) -> Seq<
    usize,
>
    decreases n,
{
    if n <= 0 {
        Seq::empty()
    } else if bucket_of(cells[n - 1], cols, rows) == b {
        members_upto(cells, cols, rows, n - 1, b).push((n - 1) as usize)
    } else {
        members_upto(cells, cols, rows, n - 1, b)
    }
}

/// The indices of all nodes that fall in bucket `b`, in increasing order.
pub open spec fn members(cells: Seq<(isize, isize)>, cols: int, rows: int, b: int) -> Seq<usize> {
    members_upto(cells, cols, rows, cells.len() as int, b)
}

/// Clamps an unclamped cell coordinate to `0 ..= n - 1`.
pub fn clamp_cell(raw: isize, n: usize) -> (r: usize)
    requires
        1 <= n <= isize::MAX,
    ensures
        r == clamp_spec(raw as int, n as int),
{
    let last = n as isize - 1;
    if raw < 0 {
        0
    } else if raw > last {
        last as usize
    } else {
        raw as usize
    }
}

/// Node indices filed by grid cell.
pub struct BucketGrid {
    cols: usize,
    rows: usize,
    buckets: Vec<Vec<usize>>,
}

impl BucketGrid {
    #[verifier::type_invariant]
    spec fn inv(self) -> bool {
        &&& 1 <= self.cols <= isize::MAX
        &&& 1 <= self.rows <= isize::MAX
        &&& self.buckets.len() == self.cols * self.rows
    }

    /// Number of columns.
    pub closed spec fn spec_cols(self) -> usize {
        self.cols
    }

    /// Number of rows.
    pub closed spec fn spec_rows(self) -> usize {
        self.rows
    }

    /// The node indices filed under bucket `b`.
    pub closed spec fn spec_bucket(self, b: int) -> Seq<usize> {
        self.buckets@[b]@
    }

    /// Files node `k` under the bucket of `cells[k]`, for every `k`.
    pub fn new(cols: usize, rows: usize, cells: &Vec<(isize, isize)>) -> (g: Self)
        requires
            1 <= cols <= isize::MAX,
            1 <= rows <= isize::MAX,
            cols * rows <= usize::MAX,
        ensures
            g.spec_cols() == cols,
            g.spec_rows() == rows,
            forall|b: int|
                0 <= b < cols * rows ==> #[trigger] g.spec_bucket(b) == members(
                    cells@,
                    cols as int,
                    rows as int,
                    b,
                ),
    {
        let total = cols * rows;
        let mut buckets: Vec<Vec<usize>> = Vec::new();
        let mut b: usize = 0;
        while b < total
            invariant
                b <= total,
                total == cols * rows,
                buckets.len() == b,
                forall|j: int| 0 <= j < b ==> (#[trigger] buckets@[j])@ == Seq::<usize>::empty(),
            decreases total - b,
        {
            buckets.push(Vec::new());
            b = b + 1;
        }
        let mut k: usize = 0;
        while k < cells.len()
            invariant
                1 <= cols <= isize::MAX,
                1 <= rows <= isize::MAX,
                total == cols * rows,
                k <= cells.len(),
                buckets.len() == total,
                forall|j: int|
                    0 <= j < total ==> (#[trigger] buckets@[j])@ == members_upto(
                        cells@,
                        cols as int,
                        rows as int,
                        k as int,
                        j,
                    ),
            decreases cells.len() - k,
        {
            let (c, r) = cells[k];
            let col = clamp_cell(c, cols);
            let row = clamp_cell(r, rows);
            proof {
                assert(row * cols + col < cols * rows && row * cols <= row * cols + col)
                    by (nonlinear_arith)
                    requires
                        row < rows,
                        col < cols,
                ;
            }
            let idx = row * cols + col;
            let mut inner = buckets[idx].clone();
            inner.push(k);
            buckets.set(idx, inner);
            proof {
                assert(bucket_of(cells@[k as int], cols as int, rows as int) == idx);
                assert forall|j: int| 0 <= j < total implies (#[trigger] buckets@[j])@
                    == members_upto(cells@, cols as int, rows as int, k + 1, j) by {
                    assert(members_upto(cells@, cols as int, rows as int, k + 1, j) == (
                    if bucket_of(cells@[k as int], cols as int, rows as int) == j {
                        members_upto(cells@, cols as int, rows as int, k as int, j).push(k)
                    } else {
                        members_upto(cells@, cols as int, rows as int, k as int, j)
                    }));
                }
            }
            k = k + 1;
        }
        BucketGrid { cols, rows, buckets }
    }

    /// Number of columns.
    pub fn cols(&self) -> (n: usize)
        ensures
            n == self.spec_cols(),
            1 <= n <= isize::MAX,
    {
        proof {
            use_type_invariant(self);
        }
        self.cols
    }

    /// Number of rows.
    pub fn rows(&self) -> (n: usize)
        ensures
            n == self.spec_rows(),
            1 <= n <= isize::MAX,
    {
        proof {
            use_type_invariant(self);
        }
        self.rows
    }

    /// The node indices filed under cell (`row`, `col`).
    pub fn bucket(&self, row: usize, col: usize) -> (r: &Vec<usize>)
        requires
            row < self.spec_rows(),
            col < self.spec_cols(),
        ensures
            r@ == self.spec_bucket(row * self.spec_cols() + col),
    {
        proof {
            use_type_invariant(self);
            assert(row * self.cols + col < self.cols * self.rows && row * self.cols <= row
                * self.cols + col) by (nonlinear_arith)
                requires
                    row < self.rows,
                    col < self.cols,
            ;
        }
        &self.buckets[row * self.cols + col]
    }
}

/// Law: every node is filed under exactly one bucket, the one its clamped cell names.
pub proof fn lemma_each_node_in_its_bucket(cells: Seq<(isize, isize)>, cols: int, rows: int, n: int, b: int, k: usize)
    requires
        0 <= n <= cells.len(),
        cells.len() <= usize::MAX,
    ensures
        members_upto(cells, cols, rows, n, b).contains(k) <==> (k < n && bucket_of(
            cells[k as int],
            cols,
            rows,
        ) == b),
    decreases n,
{
    if n > 0 {
        lemma_each_node_in_its_bucket(cells, cols, rows, n - 1, b, k);
        let prev = members_upto(cells, cols, rows, n - 1, b);
        if bucket_of(cells[n - 1], cols, rows) == b {
            let next = prev.push((n - 1) as usize);
            assert(next[prev.len() as int] == (n - 1) as usize);
            if next.contains(k) {
                let i = choose|i: int| 0 <= i < next.len() && #[trigger] next[i] == k;
                if i < prev.len() {
                    assert(prev[i] == k);
                }
            }
            if prev.contains(k) {
                let i = choose|i: int| 0 <= i < prev.len() && #[trigger] prev[i] == k;
                assert(next[i] == k);
            }
        }
    }
}

} // verus!
