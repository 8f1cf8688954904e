//! Index layout of a swept tube mesh.
//!
//! A tube is a run of cross-section rows, each holding `cols + 1` vertices
//! laid out row after row. Two neighbouring rows are joined by a band of
//! `cols` quads, two triangles each. A wrapped tube has one more band, from
//! the last row back to the first, which closes a loop into a ring.

use vstd::prelude::*;

verus! {

/// Number of vertices of a tube of `rows` rows with `cols` columns.
pub open spec fn vertex_total(rows: nat, cols: nat) -> nat {
    rows * (cols + 1)
}

/// Number of bands that join rows: one per pair of neighbouring rows, plus
/// the closing band of a wrapped tube.
pub open spec fn band_total(rows: nat, wrap: bool) -> nat {
    if wrap {
        rows
    } else if rows == 0 {
        0
    } else {
        (rows - 1) as nat
    }
}

/// The six indices of the two triangles of column `b` of the band whose
/// first row starts at vertex `i`, in a tube of `len` vertices. Every index
/// is taken modulo `len`, so the band after the last row lands on the first.
pub open spec fn quad(len: int, i: int, cols: nat, b: nat) -> Seq<u32> {
    seq![
        ((i + b) % len) as u32,
        ((i + b + cols + 1) % len) as u32,
        ((i + b + 1) % len) as u32,
        ((i + b + cols + 1) % len) as u32,
        ((i + b + cols + 2) % len) as u32,
        ((i + b + 1) % len) as u32,
    ]
}

/// The first `n` quads of band `p`.
pub open spec fn band(rows: nat, cols: nat, p: nat, n: nat) -> Seq<u32>
    decreases n,
{
    if n == 0 {
        Seq::empty()
    } else {
        band(rows, cols, p, (n - 1) as nat) + quad(
            vertex_total(rows, cols) as int,
            (p * (cols + 1)) as int,
            cols,
            (n - 1) as nat,
        )
    }
}

/// The indices of the first `n` bands.
pub open spec fn bands(rows: nat, cols: nat, n: nat) -> Seq<u32>
    decreases n,
{
    if n == 0 {
        Seq::empty()
    } else {
        bands(rows, cols, (n - 1) as nat) + band(rows, cols, (n - 1) as nat, cols)
    }
}

/// The full index list of a tube.
pub open spec fn tube(rows: nat, cols: nat, wrap: bool) -> Seq<u32> {
    bands(rows, cols, band_total(rows, wrap))
}

proof fn lemma_band_len(rows: nat, cols: nat, p: nat, n: nat)
    ensures
        band(rows, cols, p, n).len() == 6 * n,
    decreases n,
{
    if n > 0 {
        lemma_band_len(rows, cols, p, (n - 1) as nat);
    }
}

proof fn lemma_bands_len(rows: nat, cols: nat, n: nat)
    ensures
        bands(rows, cols, n).len() == 6 * n * cols,
    decreases n,
{
    if n > 0 {
        lemma_bands_len(rows, cols, (n - 1) as nat);
        lemma_band_len(rows, cols, (n - 1) as nat, cols);
        assert(6 * ((n - 1) as nat) * cols + 6 * cols == 6 * n * cols) by (nonlinear_arith)
            requires
                n > 0,
        ;
    } else {
        assert(6 * n * cols == 0) by (nonlinear_arith)
            requires
                n == 0,
        ;
    }
}

/// A tube of `rows` rows and `cols` columns has `rows * (cols + 1)` vertices
/// and two triangles per column of each band: `(rows - 1) * cols * 2` when
/// open, and `cols * 2` more when wrapped.
pub proof fn lemma_tube_counts(rows: nat, cols: nat, wrap: bool)
    ensures
        tube(rows, cols, wrap).len() == 3 * (band_total(rows, wrap) * cols * 2),
        rows > 0 && !wrap ==> tube(rows, cols, wrap).len() == 3 * ((rows - 1) * cols * 2),
        wrap ==> tube(rows, cols, wrap).len() == 3 * ((rows - 1) * cols * 2 + cols * 2),
{
    lemma_bands_len(rows, cols, band_total(rows, wrap));
    let n = band_total(rows, wrap);
    assert(6 * n * cols == 3 * (n * cols * 2)) by (nonlinear_arith);
    if wrap {
        assert(3 * (rows * cols * 2) == 3 * ((rows - 1) * cols * 2 + cols * 2))
            by (nonlinear_arith);
    }
}

/// Number of vertices of a tube, as the vertex generator must lay them out.
pub fn vertex_count(rows: usize, cols: u32) -> (r: usize)
    requires
        vertex_total(rows as nat, cols as nat) <= usize::MAX,
    ensures
        r == vertex_total(rows as nat, cols as nat),
{
    if rows == 0 {
        assert(vertex_total(rows as nat, cols as nat) == 0) by (nonlinear_arith)
            requires
                rows == 0,
        ;
        0
    } else {
        assert(cols as nat + 1 <= vertex_total(rows as nat, cols as nat)) by (nonlinear_arith)
            requires
                rows >= 1,
        ;
        rows * (cols as usize + 1)
    }
}

/// Triangle index list of a tube of `rows` rows and `cols` columns; with
/// `wrap` the last row is joined back to the first.
pub fn tube_indices(rows: usize, cols: u32, wrap: bool) -> (r: Vec<u32>)
    requires
        vertex_total(rows as nat, cols as nat) <= u32::MAX,
    ensures
        r@ == tube(rows as nat, cols as nat, wrap),
        forall|j: int| 0 <= j < r@.len() ==> r@[j] < vertex_total(rows as nat, cols as nat),
{
    let ghost total = vertex_total(rows as nat, cols as nat);
    let len: u64 = rows as u64 * (cols as u64 + 1);
    let pairs: u64 = if wrap {
        rows as u64
    } else if rows == 0 {
        0
    } else {
        rows as u64 - 1
    };
    let c: u64 = cols as u64;
    assert(len == rows * (c + 1));
    let mut indices: Vec<u32> = Vec::new();
    let mut p: u64 = 0;
    let mut i: u64 = 0;
    while p < pairs
        invariant
            len == total,
            total == vertex_total(rows as nat, cols as nat),
            len == rows * (c + 1),
            total <= u32::MAX,
            c == cols,
            pairs == band_total(rows as nat, wrap),
            pairs <= rows,
            p <= pairs,
            i == p * (c + 1),
            indices@ == bands(rows as nat, cols as nat, p as nat),
            forall|j: int| 0 <= j < indices@.len() ==> indices@[j] < total,
        decreases pairs - p,
    {
        assert(i + c + 1 <= len) by (nonlinear_arith)
            requires
                i == p * (c + 1),
                p < pairs,
                pairs <= rows,
                len == rows * (c + 1),
        ;
        let ghost start = indices@;
        let mut b: u64 = 0;
        while b < c
            invariant
                len == total,
                total == vertex_total(rows as nat, cols as nat),
                total <= u32::MAX,
                c == cols,
                p < pairs,
                i == p * (c + 1),
                i + c + 1 <= len,
                0 < len,
                b <= c,
                indices@ == start + band(rows as nat, cols as nat, p as nat, b as nat),
                forall|j: int| 0 <= j < indices@.len() ==> indices@[j] < total,
            decreases c - b,
        {
            let ghost before = indices@;
            let v0 = ((i + b) % len) as u32;
            let v1 = ((i + b + c + 1) % len) as u32;
            let v2 = ((i + b + 1) % len) as u32;
            let v4 = ((i + b + c + 2) % len) as u32;
            let ghost q = quad(len as int, i as int, cols as nat, b as nat);
            assert(q[0] == v0 && q[1] == v1 && q[2] == v2 && q[3] == v1 && q[4] == v4 && q[5]
                == v2);
            indices.push(v0);
            indices.push(v1);
            indices.push(v2);
            indices.push(v1);
            indices.push(v4);
            indices.push(v2);
            assert(indices@ =~= before + q);
            assert(band(rows as nat, cols as nat, p as nat, (b + 1) as nat) == band(
                rows as nat,
                cols as nat,
                p as nat,
                b as nat,
            ) + q);
            assert(indices@ =~= start + band(rows as nat, cols as nat, p as nat, (b + 1) as nat));
            b = b + 1;
        }
        assert(indices@ =~= bands(rows as nat, cols as nat, (p + 1) as nat));
        assert((p + 1) * (c + 1) == p * (c + 1) + c + 1) by (nonlinear_arith);
        i = i + c + 1;
        p = p + 1;
    }
    indices
}

/// The triangles of an index list, three indices each; indices past the last
/// whole triangle are dropped.
pub fn triangles_of(indices: &Vec<u32>) -> (r: Vec<(u32, u32, u32)>)
    ensures
        r@.len() == indices@.len() / 3,
        forall|k: int|
            0 <= k < r@.len() ==> #[trigger] r@[k] == (
                indices@[3 * k],
                indices@[3 * k + 1],
                indices@[3 * k + 2],
            ),
{
    let mut r: Vec<(u32, u32, u32)> = Vec::new();
    let mut j: usize = 0;
    while indices.len() - j >= 3
        invariant
            j == 3 * r@.len(),
            j <= indices@.len(),
            forall|k: int|
                0 <= k < r@.len() ==> #[trigger] r@[k] == (
                    indices@[3 * k],
                    indices@[3 * k + 1],
                    indices@[3 * k + 2],
                ),
        decreases indices@.len() - j,
    {
        r.push((indices[j], indices[j + 1], indices[j + 2]));
        j = j + 3;
    }
    r
}

} // verus!
