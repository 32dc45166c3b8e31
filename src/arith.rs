//! Wrapping integer linear algebra shared by the host and device paths.
use vstd::prelude::*;
use vstd::wrapping::i64_specs::{wrapping_add as wadd, wrapping_mul as wmul};

verus! {

/// Wrapping dot product of `a[0..k]` and `b[0..k]`, summed left to right.
pub open spec fn dot_prefix(a: Seq<i64>, b: Seq<i64>, k: int) -> i64
    decreases k,
{
    if k <= 0 {
        0
    } else {
        wadd(dot_prefix(a, b, k - 1), wmul(a[k - 1], b[k - 1]))
    }
}

/// Wrapping dot product of two equally long vectors.
pub open spec fn dot(a: Seq<i64>, b: Seq<i64>) -> i64 {
    dot_prefix(a, b, a.len() as int)
}

/// Wrapping dot product of row `row` of a row-major matrix with `cols` columns and `x`.
pub fn dot_row(mat: &Vec<i64>, row: usize, cols: usize, x: &Vec<i64>) -> (r: i64)
    requires
        x@.len() == cols,
        (row + 1) * cols <= mat@.len(),
    ensures
        r == dot(row_of(mat@, row as int, cols as int), x@),
{
    proof {
        assert((row + 1) * cols == row * cols + cols) by (nonlinear_arith);
    }
    let len: usize = mat.len();
    let base: usize = row * cols;
    let mut acc: i64 = 0;
    let mut k: usize = 0;
    while k < cols
        invariant
            x@.len() == cols,
            (row + 1) * cols <= mat@.len(),
            base == row * cols,
            base + cols <= mat@.len(),
            len == mat@.len(),
            k <= cols,
            acc == dot_prefix(mat@.subrange(base as int, base + cols), x@, k as int),
        decreases cols - k,
    {
        let ghost row_seq = mat@.subrange(base as int, base + cols);
        assert(row_seq[k as int] == mat@[base + k]);
        acc = acc.wrapping_add(mat[base + k].wrapping_mul(x[k]));
        k = k + 1;
    }
    acc
}

/// Row `r` of a row-major matrix with `cols` columns.
pub open spec fn row_of(mat: Seq<i64>, r: int, cols: int) -> Seq<i64> {
    mat.subrange(r * cols, r * cols + cols)
}

/// Column `c` of a row-major matrix with `rows` rows and `cols` columns.
pub open spec fn col_of(mat: Seq<i64>, c: int, rows: int, cols: int) -> Seq<i64> {
    Seq::new(rows as nat, |s: int| mat[s * cols + c])
}

/// The product of a row-major `rows` x `cols` matrix with `x`.
pub open spec fn mat_vec(mat: Seq<i64>, rows: int, cols: int, x: Seq<i64>) -> Seq<i64> {
    Seq::new(rows as nat, |i: int| dot(row_of(mat, i, cols), x))
}

/// The product of the transpose of a row-major `rows` x `cols` matrix with `y`.
pub open spec fn mat_t_vec(mat: Seq<i64>, rows: int, cols: int, y: Seq<i64>) -> Seq<i64> {
    Seq::new(cols as nat, |c: int| dot(col_of(mat, c, rows, cols), y))
}

/// `s` with the `cols` entries of row `r` replaced by `v`.
pub open spec fn write_row(s: Seq<i64>, r: int, cols: int, v: Seq<i64>) -> Seq<i64> {
    s.subrange(0, r * cols) + v + s.subrange(r * cols + cols, s.len() as int)
}

/// Wrapping element-wise sum of two equally long vectors.
pub open spec fn add_vec(a: Seq<i64>, b: Seq<i64>) -> Seq<i64> {
    Seq::new(a.len(), |i: int| wadd(a[i], b[i]))
}

/// Wrapping dot product of column `col` of a row-major `rows` x `cols` matrix and `y`.
pub fn dot_col(mat: &Vec<i64>, col: usize, rows: usize, cols: usize, y: &Vec<i64>) -> (r: i64)
    requires
        y@.len() == rows,
        col < cols,
        rows * cols <= mat@.len(),
    ensures
        r == dot(col_of(mat@, col as int, rows as int, cols as int), y@),
{
    let ghost column = col_of(mat@, col as int, rows as int, cols as int);
    let len: usize = mat.len();
    let mut acc: i64 = 0;
    let mut k: usize = 0;
    while k < rows
        invariant
            y@.len() == rows,
            col < cols,
            rows * cols <= mat@.len(),
            len == mat@.len(),
            k <= rows,
            column == col_of(mat@, col as int, rows as int, cols as int),
            acc == dot_prefix(column, y@, k as int),
        decreases rows - k,
    {
        proof {
            assert(k * cols + col < rows * cols) by (nonlinear_arith)
                requires
                    k < rows,
                    col < cols,
            ;
        }
        let idx: usize = k * cols + col;
        acc = acc.wrapping_add(mat[idx].wrapping_mul(y[k]));
        k = k + 1;
    }
    acc
}

/// Copies row `r` of a row-major matrix with `cols` columns.
pub fn read_row(mat: &Vec<i64>, r: usize, cols: usize) -> (out: Vec<i64>)
    requires
        (r + 1) * cols <= mat@.len(),
    ensures
        out@ == row_of(mat@, r as int, cols as int),
{
    let len: usize = mat.len();
    proof {
        assert((r + 1) * cols == r * cols + cols) by (nonlinear_arith);
    }
    let base: usize = r * cols;
    let mut out: Vec<i64> = Vec::new();
    let mut k: usize = 0;
    while k < cols
        invariant
            base == r * cols,
            base + cols <= mat@.len(),
            len == mat@.len(),
            k <= cols,
            out@ == mat@.subrange(base as int, base + k),
        decreases cols - k,
    {
        out.push(mat[base + k]);
        k = k + 1;
        assert(out@ =~= mat@.subrange(base as int, base + k));
    }
    out
}

/// Copies a vector element by element.
pub fn copy_vec(v: &Vec<i64>) -> (out: Vec<i64>)
    ensures
        out@ == v@,
{
    let mut out: Vec<i64> = Vec::new();
    let mut k: usize = 0;
    while k < v.len()
        invariant
            k <= v@.len(),
            out@ == v@.subrange(0, k as int),
        decreases v@.len() - k,
    {
        out.push(v[k]);
        k = k + 1;
        assert(out@ =~= v@.subrange(0, k as int));
    }
    assert(out@ =~= v@);
    out
}

/// Overwrites row `r` of a row-major matrix with `cols` columns by `v`.
pub fn store_row(mat: &mut Vec<i64>, r: usize, cols: usize, v: &Vec<i64>)
    requires
        (r + 1) * cols <= old(mat)@.len(),
        v@.len() == cols,
    ensures
        final(mat)@ == write_row(old(mat)@, r as int, cols as int, v@),
{
    let len: usize = mat.len();
    proof {
        assert((r + 1) * cols == r * cols + cols) by (nonlinear_arith);
    }
    let base: usize = r * cols;
    let ghost start = mat@;
    let mut k: usize = 0;
    while k < cols
        invariant
            base == r * cols,
            base + cols <= start.len(),
            len == start.len(),
            v@.len() == cols,
            k <= cols,
            mat@.len() == start.len(),
            forall|j: int| 0 <= j < base ==> mat@[j] == start[j],
            forall|j: int| base <= j < base + k ==> mat@[j] == v@[j - base],
            forall|j: int| base + k <= j < start.len() ==> mat@[j] == start[j],
        decreases cols - k,
    {
        mat.set(base + k, v[k]);
        k = k + 1;
    }
    assert(mat@ =~= write_row(start, r as int, cols as int, v@));
}

/// Wrapping matrix-vector product `mat * x`.
pub fn mat_vec_exec(mat: &Vec<i64>, rows: usize, cols: usize, x: &Vec<i64>) -> (out: Vec<i64>)
    requires
        x@.len() == cols,
        rows * cols <= mat@.len(),
    ensures
        out@ == mat_vec(mat@, rows as int, cols as int, x@),
{
    let mut out: Vec<i64> = Vec::new();
    let mut i: usize = 0;
    while i < rows
        invariant
            x@.len() == cols,
            rows * cols <= mat@.len(),
            i <= rows,
            out@.len() == i,
            forall|j: int| 0 <= j < i ==> out@[j] == dot(row_of(mat@, j, cols as int), x@),
        decreases rows - i,
    {
        proof {
            assert((i + 1) * cols <= rows * cols) by (nonlinear_arith)
                requires
                    i < rows,
            ;
        }
        let d = dot_row(mat, i, cols, x);
        out.push(d);
        i = i + 1;
    }
    assert(out@ =~= mat_vec(mat@, rows as int, cols as int, x@));
    out
}

/// Wrapping product of the transposed matrix with `y`.
pub fn mat_t_vec_exec(mat: &Vec<i64>, rows: usize, cols: usize, y: &Vec<i64>) -> (out: Vec<i64>)
    requires
        y@.len() == rows,
        rows * cols <= mat@.len(),
    ensures
        out@ == mat_t_vec(mat@, rows as int, cols as int, y@),
{
    let mut out: Vec<i64> = Vec::new();
    let mut c: usize = 0;
    while c < cols
        invariant
            y@.len() == rows,
            rows * cols <= mat@.len(),
            c <= cols,
            out@.len() == c,
            forall|j: int|
                0 <= j < c ==> out@[j] == dot(col_of(mat@, j, rows as int, cols as int), y@),
        decreases cols - c,
    {
        let d = dot_col(mat, c, rows, cols, y);
        out.push(d);
        c = c + 1;
    }
    assert(out@ =~= mat_t_vec(mat@, rows as int, cols as int, y@));
    out
}

/// Writing row `r` leaves every other row as it was and makes row `r` equal to `v`.
pub proof fn lemma_write_row_row(s: Seq<i64>, r: int, cols: int, v: Seq<i64>, t: int)
    requires
        0 <= r,
        0 <= t,
        0 <= cols,
        (r + 1) * cols <= s.len(),
        (t + 1) * cols <= s.len(),
        v.len() == cols,
    ensures
        write_row(s, r, cols, v).len() == s.len(),
        row_of(write_row(s, r, cols, v), t, cols) == if t == r {
            v
        } else {
            row_of(s, t, cols)
        },
{
    assert(r * cols + cols == (r + 1) * cols) by (nonlinear_arith);
    assert(t * cols + cols == (t + 1) * cols) by (nonlinear_arith);
    assert(0 <= r * cols) by (nonlinear_arith)
        requires
            0 <= r,
            0 <= cols,
    ;
    assert(0 <= t * cols) by (nonlinear_arith)
        requires
            0 <= t,
            0 <= cols,
    ;
    let w = write_row(s, r, cols, v);
    assert(w.len() == s.len());
    if t == r {
        assert(row_of(w, t, cols) =~= v);
    } else if t < r {
        assert(t * cols + cols <= r * cols) by (nonlinear_arith)
            requires
                t < r,
                0 <= cols,
        ;
        assert(row_of(w, t, cols) =~= row_of(s, t, cols));
    } else {
        assert(r * cols + cols <= t * cols) by (nonlinear_arith)
            requires
                r < t,
                0 <= cols,
        ;
        assert(row_of(w, t, cols) =~= row_of(s, t, cols));
    }
}

} // verus!
