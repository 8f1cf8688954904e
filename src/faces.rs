//! Index lists of the flat helper meshes: the subdivided plane drawn as the
//! editor's floor grid and the box that stands for the glider. The quads come
//! from genmesh's generators; each quad `(a, b, c, d)` is split into the
//! triangles `(a, b, c)` and `(c, d, a)`.

use vstd::prelude::*;
use genmesh::generators::{Cube, IndexedPolygon, Plane};
use genmesh::Quad;

verus! {

/// Shared vertices of the unit cube: four per face.
pub const CUBE_VERTICES: usize = 24;

/// Faces of the unit cube.
pub const CUBE_FACES: usize = 6;

/// Shared vertices of a plane cut into `sx` by `sy` quads.
pub open spec fn plane_vertex_total(sx: nat, sy: nat) -> nat {
    (sx + 1) * (sy + 1)
}

/// Quad `k` of a plane cut into `sx` columns: the vertices are numbered row
/// by row, `sx + 1` to a row, and the quads likewise, `sx` to a row.
pub open spec fn plane_quad_at(sx: nat, k: nat) -> (nat, nat, nat, nat) {
    let base = (k / sx) * (sx + 1) + k % sx;
    (base, base + 1, base + sx + 2, base + sx + 1)
}

/// Quad `k` of the cube: the four vertices of face `k`.
pub open spec fn cube_quad_at(k: nat) -> (nat, nat, nat, nat) {
    (4 * k, 4 * k + 1, 4 * k + 2, 4 * k + 3)
}

/// The two triangles of a quad.
pub open spec fn split(q: (nat, nat, nat, nat)) -> Seq<u32> {
    seq![q.0 as u32, q.1 as u32, q.2 as u32, q.2 as u32, q.3 as u32, q.0 as u32]
}

/// Triangle indices of the first `n` quads of a plane of `sx` columns.
pub open spec fn plane_triangles(sx: nat, n: nat) -> Seq<u32>
    decreases n,
{
    if n == 0 {
        Seq::empty()
    } else {
        plane_triangles(sx, (n - 1) as nat) + split(plane_quad_at(sx, (n - 1) as nat))
    }
}

/// Triangle indices of the first `n` faces of the cube.
pub open spec fn cube_triangles(n: nat) -> Seq<u32>
    decreases n,
{
    if n == 0 {
        Seq::empty()
    } else {
        cube_triangles((n - 1) as nat) + split(cube_quad_at((n - 1) as nat))
    }
}

/// Relies on genmesh's `Plane::subdivide(sx, sy)` and its
/// `IndexedPolygon<Quad<usize>>` impl, which gives quad `k` as
/// `plane_quad_at(sx, k)`. `subdivide` panics on a zero count.
#[verifier::external_body]
fn plane_quad(sx: usize, sy: usize, k: usize) -> (r: (usize, usize, usize, usize))
    requires
        0 < sx,
        0 < sy,
        k < sx * sy,
        (sx + 1) * (sy + 1) <= usize::MAX,
    ensures
        (r.0 as nat, r.1 as nat, r.2 as nat, r.3 as nat) == plane_quad_at(sx as nat, k as nat),
{
    let q: Quad<usize> = Plane::subdivide(sx, sy).indexed_polygon(k);
    (q.x, q.y, q.z, q.w)
}

/// Relies on genmesh's `Cube::new()` and its `IndexedPolygon<Quad<usize>>`
/// impl, which gives face `k` as the four vertices from `4 * k` on.
#[verifier::external_body]
fn cube_quad(k: usize) -> (r: (usize, usize, usize, usize))
    requires
        k < CUBE_FACES,
    ensures
        (r.0 as nat, r.1 as nat, r.2 as nat, r.3 as nat) == cube_quad_at(k as nat),
{
    let q: Quad<usize> = Cube::new().indexed_polygon(k);
    (q.x, q.y, q.z, q.w)
}

proof fn lemma_plane_quad_bounds(sx: nat, sy: nat, k: nat)
    requires
        0 < sx,
        0 < sy,
        k < sx * sy,
    ensures
        plane_quad_at(sx, k).2 < plane_vertex_total(sx, sy),
        plane_quad_at(sx, k).3 < plane_quad_at(sx, k).2,
        plane_quad_at(sx, k).1 < plane_quad_at(sx, k).3,
        plane_quad_at(sx, k).0 < plane_quad_at(sx, k).1,
{
    let y = k / sx;
    let x = k % sx;
    vstd::arithmetic::div_mod::lemma_fundamental_div_mod(k as int, sx as int);
    assert(0 <= x < sx);
    assert(y < sy) by (nonlinear_arith)
        requires
            k == sx * y + x,
            k < sx * sy,
            0 <= x,
            0 < sx,
    ;
    assert(y * (sx + 1) + x + sx + 2 <= (sx + 1) * (sy + 1) - 1) by (nonlinear_arith)
        requires
            y + 1 <= sy,
            x + 1 <= sx,
    ;
}

/// Triangle indices of a plane cut into `sx` by `sy` quads.
pub fn plane_indices(sx: usize, sy: usize) -> (r: Vec<u32>)
    requires
        0 < sx,
        0 < sy,
        plane_vertex_total(sx as nat, sy as nat) <= u32::MAX,
    ensures
        r@ == plane_triangles(sx as nat, (sx * sy) as nat),
        forall|j: int| 0 <= j < r@.len() ==> r@[j] < plane_vertex_total(sx as nat, sy as nat),
{
    assert(sx * sy < (sx + 1) * (sy + 1)) by (nonlinear_arith)
        requires
            0 < sx,
            0 < sy,
    ;
    let n = sx * sy;
    let mut r: Vec<u32> = Vec::new();
    let mut k: usize = 0;
    while k < n
        invariant
            0 < sx,
            0 < sy,
            n == sx * sy,
            plane_vertex_total(sx as nat, sy as nat) <= u32::MAX,
            k <= n,
            r@ == plane_triangles(sx as nat, k as nat),
            forall|j: int| 0 <= j < r@.len() ==> r@[j] < plane_vertex_total(sx as nat, sy as nat),
        decreases n - k,
    {
        let q = plane_quad(sx, sy, k);
        proof {
            lemma_plane_quad_bounds(sx as nat, sy as nat, k as nat);
        }
        let ghost before = r@;
        r.push(q.0 as u32);
        r.push(q.1 as u32);
        r.push(q.2 as u32);
        r.push(q.2 as u32);
        r.push(q.3 as u32);
        r.push(q.0 as u32);
        k = k + 1;
        assert(r@ =~= before + split(plane_quad_at(sx as nat, (k - 1) as nat)));
    }
    r
}

/// Triangle indices of the cube, face after face.
pub fn cube_indices() -> (r: Vec<u32>)
    ensures
        r@ == cube_triangles(CUBE_FACES as nat),
        forall|j: int| 0 <= j < r@.len() ==> r@[j] < CUBE_VERTICES,
{
    let mut r: Vec<u32> = Vec::new();
    let mut k: usize = 0;
    while k < CUBE_FACES
        invariant
            k <= CUBE_FACES,
            r@ == cube_triangles(k as nat),
            forall|j: int| 0 <= j < r@.len() ==> r@[j] < CUBE_VERTICES,
        decreases CUBE_FACES - k,
    {
        let q = cube_quad(k);
        let ghost before = r@;
        r.push(q.0 as u32);
        r.push(q.1 as u32);
        r.push(q.2 as u32);
        r.push(q.2 as u32);
        r.push(q.3 as u32);
        r.push(q.0 as u32);
        k = k + 1;
        assert(r@ =~= before + split(cube_quad_at((k - 1) as nat)));
    }
    r
}

} // verus!
