//! Uniform cell grid over the track's triangles.
//!
//! World space is cut into cubic cells addressed by integer coordinates.
//! Each triangle of a piece is filed, as a `(piece, triangle)` pair, under
//! every cell of its inclusive cell box; a query hands back the pairs filed
//! under the cells of the query's box, cell by cell with x outermost and z
//! innermost, and within a cell in the order they were filed. Turning world
//! coordinates into cell boxes is left to the caller.

use vstd::prelude::*;
use std::collections::HashMap;

verus! {

broadcast use vstd::std_specs::hash::group_hash_axioms;

/// Integer coordinates of one cell.
pub type Cell = (i32, i32, i32);

/// A triangle of a piece: `(piece, triangle)`.
pub type Entry = (usize, usize);

/// An inclusive box of cells, from `min` to `max` on every axis.
#[derive(Debug, Clone, Copy)]
pub struct CellBox {
    pub min: Cell,
    pub max: Cell,
}

/// Whether cell `c` lies in box `b`.
pub open spec fn box_contains(b: CellBox, c: Cell) -> bool {
    &&& b.min.0 <= c.0 <= b.max.0
    &&& b.min.1 <= c.1 <= b.max.1
    &&& b.min.2 <= c.2 <= b.max.2
}

/// Whether two boxes share a cell.
pub open spec fn boxes_overlap(a: CellBox, b: CellBox) -> bool {
    &&& a.min.0 <= a.max.0 && b.min.0 <= b.max.0
    &&& a.min.1 <= a.max.1 && b.min.1 <= b.max.1
    &&& a.min.2 <= a.max.2 && b.min.2 <= b.max.2
    &&& a.min.0 <= b.max.0 && b.min.0 <= a.max.0
    &&& a.min.1 <= b.max.1 && b.min.1 <= a.max.1
    &&& a.min.2 <= b.max.2 && b.min.2 <= a.max.2
}

/// The entries that filing the first `n` boxes of `boxes` for piece `id`
/// adds to cell `c`, in filing order.
pub open spec fn filed(boxes: Seq<CellBox>, id: usize, c: Cell, n: nat) -> Seq<Entry>
    decreases n,
{
    if n == 0 {
        Seq::empty()
    } else {
        let rest = filed(boxes, id, c, (n - 1) as nat);
        if box_contains(boxes[n - 1], c) {
            rest.push((id, (n - 1) as usize))
        } else {
            rest
        }
    }
}

/// The entries that filing the first `n` pieces of `pieces`, piece `p`
/// with the boxes `pieces[p]`, adds to cell `c`.
pub open spec fn filed_pieces(pieces: Seq<Seq<CellBox>>, c: Cell, n: nat) -> Seq<Entry>
    decreases n,
{
    if n == 0 {
        Seq::empty()
    } else {
        filed_pieces(pieces, c, (n - 1) as nat) + filed(
            pieces[n - 1],
            (n - 1) as usize,
            c,
            pieces[n - 1].len(),
        )
    }
}

/// Entries of the cells `(x, y, z)` for `z0 <= z < z1`.
pub open spec fn gather_z(
    cells: spec_fn(Cell) -> Seq<Entry>,
    x: int,
    y: int,
    z0: int,
    z1: int,
) -> Seq<Entry>
    decreases z1 - z0,
{
    if z1 <= z0 {
        Seq::empty()
    } else {
        gather_z(cells, x, y, z0, z1 - 1) + cells((x as i32, y as i32, (z1 - 1) as i32))
    }
}

/// Entries of the cells with first coordinate `x` and `y0 <= y < y1`,
/// `z0 <= z < z1`, y outermost.
pub open spec fn gather_y(
    cells: spec_fn(Cell) -> Seq<Entry>,
    x: int,
    y0: int,
    y1: int,
    z0: int,
    z1: int,
) -> Seq<Entry>
    decreases y1 - y0,
{
    if y1 <= y0 {
        Seq::empty()
    } else {
        gather_y(cells, x, y0, y1 - 1, z0, z1) + gather_z(cells, x, y1 - 1, z0, z1)
    }
}

/// Entries of the cells with `x0 <= x < x1`, in query order.
pub open spec fn gather_x(
    cells: spec_fn(Cell) -> Seq<Entry>,
    x0: int,
    x1: int,
    q: CellBox,
) -> Seq<Entry>
    decreases x1 - x0,
{
    if x1 <= x0 {
        Seq::empty()
    } else {
        gather_x(cells, x0, x1 - 1, q) + gather_y(
            cells,
            x1 - 1,
            q.min.1 as int,
            q.max.1 + 1,
            q.min.2 as int,
            q.max.2 + 1,
        )
    }
}

/// Everything a query over box `q` hands back.
pub open spec fn gather(cells: spec_fn(Cell) -> Seq<Entry>, q: CellBox) -> Seq<Entry> {
    gather_x(cells, q.min.0 as int, q.max.0 + 1, q)
}

/// Whether cell `c` comes before `(x, y, z)` in query order.
pub open spec fn lex_before(c: Cell, x: int, y: int, z: int) -> bool {
    c.0 < x || (c.0 == x && (c.1 < y || (c.1 == y && c.2 < z)))
}

proof fn lemma_filed_contains(boxes: Seq<CellBox>, id: usize, c: Cell, n: nat, i: int)
    requires
        0 <= i < n <= boxes.len(),
        boxes.len() <= usize::MAX,
        box_contains(boxes[i], c),
    ensures
        filed(boxes, id, c, n).contains((id, i as usize)),
    decreases n,
{
    let rest = filed(boxes, id, c, (n - 1) as nat);
    if i == n - 1 {
        assert(filed(boxes, id, c, n) == rest.push((id, i as usize)));
        assert(filed(boxes, id, c, n)[rest.len() as int] == (id, i as usize));
    } else {
        lemma_filed_contains(boxes, id, c, (n - 1) as nat, i);
        let k = choose|k: int| 0 <= k < rest.len() && rest[k] == (id, i as usize);
        if box_contains(boxes[n - 1], c) {
            assert(filed(boxes, id, c, n)[k] == (id, i as usize));
        }
    }
}

proof fn lemma_filed_empty(boxes: Seq<CellBox>, id: usize, c: Cell, n: nat)
    requires
        n <= boxes.len(),
        forall|j: int| 0 <= j < n ==> !box_contains(#[trigger] boxes[j], c),
    ensures
        filed(boxes, id, c, n) == Seq::<Entry>::empty(),
    decreases n,
{
    if n > 0 {
        lemma_filed_empty(boxes, id, c, (n - 1) as nat);
    }
}

proof fn lemma_gather_z_contains(
    cells: spec_fn(Cell) -> Seq<Entry>,
    c: Cell,
    z0: int,
    z1: int,
    e: Entry,
)
    requires
        z0 <= c.2 < z1,
        cells(c).contains(e),
    ensures
        gather_z(cells, c.0 as int, c.1 as int, z0, z1).contains(e),
    decreases z1 - z0,
{
    let rest = gather_z(cells, c.0 as int, c.1 as int, z0, z1 - 1);
    let last = cells((c.0, c.1, (z1 - 1) as i32));
    if c.2 == z1 - 1 {
        let k = choose|k: int| 0 <= k < last.len() && last[k] == e;
        assert((rest + last)[rest.len() + k] == e);
    } else {
        lemma_gather_z_contains(cells, c, z0, z1 - 1, e);
        let k = choose|k: int| 0 <= k < rest.len() && rest[k] == e;
        assert((rest + last)[k] == e);
    }
}

proof fn lemma_gather_y_contains(
    cells: spec_fn(Cell) -> Seq<Entry>,
    c: Cell,
    y0: int,
    y1: int,
    z0: int,
    z1: int,
    e: Entry,
)
    requires
        y0 <= c.1 < y1,
        z0 <= c.2 < z1,
        cells(c).contains(e),
    ensures
        gather_y(cells, c.0 as int, y0, y1, z0, z1).contains(e),
    decreases y1 - y0,
{
    let rest = gather_y(cells, c.0 as int, y0, y1 - 1, z0, z1);
    let last = gather_z(cells, c.0 as int, y1 - 1, z0, z1);
    if c.1 == y1 - 1 {
        lemma_gather_z_contains(cells, c, z0, z1, e);
        let k = choose|k: int| 0 <= k < last.len() && last[k] == e;
        assert((rest + last)[rest.len() + k] == e);
    } else {
        lemma_gather_y_contains(cells, c, y0, y1 - 1, z0, z1, e);
        let k = choose|k: int| 0 <= k < rest.len() && rest[k] == e;
        assert((rest + last)[k] == e);
    }
}

proof fn lemma_gather_x_contains(
    cells: spec_fn(Cell) -> Seq<Entry>,
    c: Cell,
    x0: int,
    x1: int,
    q: CellBox,
    e: Entry,
)
    requires
        x0 <= c.0 < x1,
        q.min.1 <= c.1 <= q.max.1,
        q.min.2 <= c.2 <= q.max.2,
        cells(c).contains(e),
    ensures
        gather_x(cells, x0, x1, q).contains(e),
    decreases x1 - x0,
{
    let rest = gather_x(cells, x0, x1 - 1, q);
    let last = gather_y(
        cells,
        x1 - 1,
        q.min.1 as int,
        q.max.1 + 1,
        q.min.2 as int,
        q.max.2 + 1,
    );
    if c.0 == x1 - 1 {
        lemma_gather_y_contains(
            cells,
            c,
            q.min.1 as int,
            q.max.1 + 1,
            q.min.2 as int,
            q.max.2 + 1,
            e,
        );
        let k = choose|k: int| 0 <= k < last.len() && last[k] == e;
        assert((rest + last)[rest.len() + k] == e);
    } else {
        lemma_gather_x_contains(cells, c, x0, x1 - 1, q, e);
        let k = choose|k: int| 0 <= k < rest.len() && rest[k] == e;
        assert((rest + last)[k] == e);
    }
}

proof fn lemma_gather_z_empty(cells: spec_fn(Cell) -> Seq<Entry>, x: int, y: int, z0: int, z1: int)
    requires
        forall|z: int| z0 <= z < z1 ==> (#[trigger] cells((x as i32, y as i32, z as i32))).len() == 0,
    ensures
        gather_z(cells, x, y, z0, z1).len() == 0,
    decreases z1 - z0,
{
    if z1 > z0 {
        lemma_gather_z_empty(cells, x, y, z0, z1 - 1);
        assert(cells((x as i32, y as i32, (z1 - 1) as i32)).len() == 0);
    }
}

proof fn lemma_gather_y_empty(
    cells: spec_fn(Cell) -> Seq<Entry>,
    x: int,
    y0: int,
    y1: int,
    z0: int,
    z1: int,
)
    requires
        forall|y: int, z: int|
            y0 <= y < y1 && z0 <= z < z1 ==> (#[trigger] cells(
                (x as i32, y as i32, z as i32),
            )).len() == 0,
    ensures
        gather_y(cells, x, y0, y1, z0, z1).len() == 0,
    decreases y1 - y0,
{
    if y1 > y0 {
        lemma_gather_y_empty(cells, x, y0, y1 - 1, z0, z1);
        assert forall|z: int| z0 <= z < z1 implies (#[trigger] cells(
            (x as i32, (y1 - 1) as i32, z as i32),
        )).len() == 0 by {}
        lemma_gather_z_empty(cells, x, y1 - 1, z0, z1);
    }
}

proof fn lemma_gather_x_empty(cells: spec_fn(Cell) -> Seq<Entry>, x0: int, x1: int, q: CellBox)
    requires
        forall|x: int, y: int, z: int|
            x0 <= x < x1 && q.min.1 <= y <= q.max.1 && q.min.2 <= z <= q.max.2 ==> (
            #[trigger] cells((x as i32, y as i32, z as i32))).len() == 0,
    ensures
        gather_x(cells, x0, x1, q).len() == 0,
    decreases x1 - x0,
{
    if x1 > x0 {
        lemma_gather_x_empty(cells, x0, x1 - 1, q);
        assert forall|y: int, z: int|
            q.min.1 <= y < q.max.1 + 1 && q.min.2 <= z < q.max.2 + 1 implies (#[trigger] cells(
                ((x1 - 1) as i32, y as i32, z as i32),
            )).len() == 0 by {}
        lemma_gather_y_empty(
            cells,
            x1 - 1,
            q.min.1 as int,
            q.max.1 + 1,
            q.min.2 as int,
            q.max.2 + 1,
        );
    }
}

/// A query over a box that shares a cell with the box of a filed triangle
/// hands that triangle back: `after` is the grid `before` once the boxes of
/// piece `id` were filed, and `boxes[i]` overlaps `q`.
pub proof fn lemma_overlap_is_candidate(
    before: spec_fn(Cell) -> Seq<Entry>,
    after: spec_fn(Cell) -> Seq<Entry>,
    boxes: Seq<CellBox>,
    id: usize,
    i: int,
    q: CellBox,
)
    requires
        boxes.len() <= usize::MAX,
        forall|c: Cell| #[trigger] after(c) == before(c) + filed(boxes, id, c, boxes.len()),
        0 <= i < boxes.len(),
        boxes_overlap(boxes[i], q),
    ensures
        gather(after, q).contains((id, i as usize)),
{
    let b = boxes[i];
    let cx = if b.min.0 > q.min.0 { b.min.0 } else { q.min.0 };
    let cy = if b.min.1 > q.min.1 { b.min.1 } else { q.min.1 };
    let cz = if b.min.2 > q.min.2 { b.min.2 } else { q.min.2 };
    let c: Cell = (cx, cy, cz);
    lemma_filed_contains(boxes, id, c, boxes.len(), i);
    let f = filed(boxes, id, c, boxes.len());
    let k = choose|k: int| 0 <= k < f.len() && f[k] == (id, i as usize);
    assert(after(c)[before(c).len() + k] == (id, i as usize));
    lemma_gather_x_contains(after, c, q.min.0 as int, q.max.0 + 1, q, (id, i as usize));
}

/// A query over a box that shares no cell with any filed box hands back
/// nothing: `after` is the grid `before`, which held nothing in the cells of
/// `q`, once the boxes of piece `id` were filed.
pub proof fn lemma_disjoint_query_is_empty(
    before: spec_fn(Cell) -> Seq<Entry>,
    after: spec_fn(Cell) -> Seq<Entry>,
    boxes: Seq<CellBox>,
    id: usize,
    q: CellBox,
)
    requires
        forall|c: Cell| #[trigger] after(c) == before(c) + filed(boxes, id, c, boxes.len()),
        forall|c: Cell| box_contains(q, c) ==> (#[trigger] before(c)).len() == 0,
        forall|j: int| 0 <= j < boxes.len() ==> !boxes_overlap(#[trigger] boxes[j], q),
    ensures
        gather(after, q).len() == 0,
{
    assert forall|x: int, y: int, z: int|
        q.min.0 <= x < q.max.0 + 1 && q.min.1 <= y <= q.max.1 && q.min.2 <= z <= q.max.2 implies (
        #[trigger] after((x as i32, y as i32, z as i32))).len() == 0 by {
        let c: Cell = (x as i32, y as i32, z as i32);
        assert(box_contains(q, c));
        assert forall|j: int| 0 <= j < boxes.len() implies !box_contains(
            #[trigger] boxes[j],
            c,
        ) by {
            assert(!boxes_overlap(boxes[j], q));
        }
        lemma_filed_empty(boxes, id, c, boxes.len());
        assert(after(c) == before(c) + filed(boxes, id, c, boxes.len()));
    }
    lemma_gather_x_empty(after, q.min.0 as int, q.max.0 + 1, q);
}

/// Number of a cell as a key: distinct cells have distinct keys.
pub open spec fn cell_key(c: Cell) -> int {
    c.0 * 0x1_0000_0000_0000_0000 + (c.1 + 0x8000_0000) * 0x1_0000_0000 + (c.2 + 0x8000_0000)
}

proof fn lemma_cell_key_injective(a: Cell, b: Cell)
    requires
        cell_key(a) == cell_key(b),
    ensures
        a == b,
{
    let la = (a.1 + 0x8000_0000) * 0x1_0000_0000 + (a.2 + 0x8000_0000);
    let lb = (b.1 + 0x8000_0000) * 0x1_0000_0000 + (b.2 + 0x8000_0000);
    assert(0 <= la < 0x1_0000_0000_0000_0000);
    assert(0 <= lb < 0x1_0000_0000_0000_0000);
    assert(a.0 == b.0);
    assert(a.1 == b.1);
}

fn append_all(r: &mut Vec<Entry>, v: &Vec<Entry>)
    ensures
        final(r)@ == old(r)@ + v@,
{
    let mut i: usize = 0;
    while i < v.len()
        invariant
            i <= v@.len(),
            r@ == old(r)@ + v@.subrange(0, i as int),
        decreases v@.len() - i,
    {
        r.push(v[i]);
        i = i + 1;
        assert(r@ =~= old(r)@ + v@.subrange(0, i as int));
    }
    assert(v@.subrange(0, v@.len() as int) =~= v@);
}

fn key_of(c: Cell) -> (r: i128)
    ensures
        r == cell_key(c),
{
    c.0 as i128 * 0x1_0000_0000_0000_0000 + (c.1 as i128 + 0x8000_0000) * 0x1_0000_0000 + (
    c.2 as i128 + 0x8000_0000)
}

/// Cells of world space, each holding the triangles whose box covers it.
pub struct Grid {
    cells: HashMap<i128, Vec<Entry>>,
    size: u32,
}

impl Grid {
    /// The entries held by each cell; a cell that holds none maps to the
    /// empty sequence.
    pub closed spec fn cells(&self) -> spec_fn(Cell) -> Seq<Entry> {
        |c: Cell|
            if self.cells@.contains_key(cell_key(c) as i128) {
                self.cells@[cell_key(c) as i128]@
            } else {
                Seq::empty()
            }
    }

    /// Edge length of a cell in world units.
    pub closed spec fn spec_cell_size(&self) -> u32 {
        self.size
    }

    /// An empty grid whose cells are `size` world units wide.
    pub fn new(size: u32) -> (r: Self)
        ensures
            forall|c: Cell| (#[trigger] (r.cells())(c)) == Seq::<Entry>::empty(),
            r.spec_cell_size() == size,
    {
        Grid { cells: HashMap::new(), size }
    }

    pub fn cell_size(&self) -> (r: u32)
        ensures
            r == self.spec_cell_size(),
    {
        self.size
    }

    /// Appends `e` to the entries of cell `c`.
    fn file(&mut self, c: Cell, e: Entry)
        ensures
            final(self).spec_cell_size() == old(self).spec_cell_size(),
            forall|d: Cell|
                #![trigger (final(self).cells())(d)]
                (final(self).cells())(d) == if d == c {
                    (old(self).cells())(d).push(e)
                } else {
                    (old(self).cells())(d)
                },
    {
        let k = key_of(c);
        let mut list = match self.cells.remove(&k) {
            Some(v) => v,
            None => Vec::new(),
        };
        list.push(e);
        self.cells.insert(k, list);
        assert forall|d: Cell| #[trigger] (self.cells())(d) == if d == c {
            (old(self).cells())(d).push(e)
        } else {
            (old(self).cells())(d)
        } by {
            if cell_key(d) == cell_key(c) {
                lemma_cell_key_injective(d, c);
            }
        }
    }

    /// Appends `e` to every cell of box `b`.
    fn file_box(&mut self, b: CellBox, e: Entry)
        ensures
            final(self).spec_cell_size() == old(self).spec_cell_size(),
            forall|d: Cell|
                #![trigger (final(self).cells())(d)]
                (final(self).cells())(d) == if box_contains(b, d) {
                    (old(self).cells())(d).push(e)
                } else {
                    (old(self).cells())(d)
                },
    {
        let ghost start = self.cells();
        let mut x: i64 = b.min.0 as i64;
        while x <= b.max.0 as i64
            invariant
                b.min.0 <= x,
                x <= b.max.0 + 1 || x == b.min.0,
                self.spec_cell_size() == old(self).spec_cell_size(),
                start == old(self).cells(),
                forall|d: Cell|
                    #![trigger (self.cells())(d)]
                    (self.cells())(d) == if box_contains(b, d) && lex_before(
                        d,
                        x as int,
                        b.min.1 as int,
                        b.min.2 as int,
                    ) {
                        start(d).push(e)
                    } else {
                        start(d)
                    },
            decreases b.max.0 + 1 - x,
        {
            let mut y: i64 = b.min.1 as i64;
            while y <= b.max.1 as i64
                invariant
                    b.min.0 <= x <= b.max.0,
                    b.min.1 <= y,
                    y <= b.max.1 + 1 || y == b.min.1,
                    self.spec_cell_size() == old(self).spec_cell_size(),
                    start == old(self).cells(),
                    forall|d: Cell|
                        #![trigger (self.cells())(d)]
                        (self.cells())(d) == if box_contains(b, d) && lex_before(
                            d,
                            x as int,
                            y as int,
                            b.min.2 as int,
                        ) {
                            start(d).push(e)
                        } else {
                            start(d)
                        },
                decreases b.max.1 + 1 - y,
            {
                let mut z: i64 = b.min.2 as i64;
                while z <= b.max.2 as i64
                    invariant
                        b.min.0 <= x <= b.max.0,
                        b.min.1 <= y <= b.max.1,
                        b.min.2 <= z,
                        z <= b.max.2 + 1 || z == b.min.2,
                        self.spec_cell_size() == old(self).spec_cell_size(),
                        start == old(self).cells(),
                        forall|d: Cell|
                            #![trigger (self.cells())(d)]
                            (self.cells())(d) == if box_contains(b, d) && lex_before(
                                d,
                                x as int,
                                y as int,
                                z as int,
                            ) {
                                start(d).push(e)
                            } else {
                                start(d)
                            },
                    decreases b.max.2 + 1 - z,
                {
                    self.file((x as i32, y as i32, z as i32), e);
                    z = z + 1;
                }
                assert forall|d: Cell|
                    box_contains(b, d) implies lex_before(d, x as int, y as int, z as int)
                    == lex_before(d, x as int, y + 1, b.min.2 as int) by {}
                y = y + 1;
            }
            assert forall|d: Cell|
                box_contains(b, d) implies lex_before(d, x as int, y as int, b.min.2 as int)
                == lex_before(d, x + 1, b.min.1 as int, b.min.2 as int) by {}
            x = x + 1;
        }
        assert forall|d: Cell|
            box_contains(b, d) implies lex_before(d, x as int, b.min.1 as int, b.min.2 as int) by {}
    }

    /// Files every triangle of piece `id`: triangle `i`, whose cell box is
    /// `boxes[i]`, is appended to each cell of that box.
    pub fn insert(&mut self, boxes: &Vec<CellBox>, id: usize)
        ensures
            final(self).spec_cell_size() == old(self).spec_cell_size(),
            forall|c: Cell|
                #![trigger (final(self).cells())(c)]
                (final(self).cells())(c) == (old(self).cells())(c) + filed(
                    boxes@,
                    id,
                    c,
                    boxes@.len(),
                ),
    {
        let mut i: usize = 0;
        while i < boxes.len()
            invariant
                i <= boxes@.len(),
                self.spec_cell_size() == old(self).spec_cell_size(),
                forall|c: Cell|
                    #![trigger (self.cells())(c)]
                    (self.cells())(c) == (old(self).cells())(c) + filed(boxes@, id, c, i as nat),
            decreases boxes@.len() - i,
        {
            let ghost before = self.cells();
            self.file_box(boxes[i], (id, i));
            i = i + 1;
            assert forall|c: Cell| #[trigger]
                (self.cells())(c) == (old(self).cells())(c) + filed(boxes@, id, c, i as nat) by {
                assert((old(self).cells())(c) + filed(boxes@, id, c, (i - 1) as nat).push(
                    (id, (i - 1) as usize),
                ) =~= ((old(self).cells())(c) + filed(boxes@, id, c, (i - 1) as nat)).push(
                    (id, (i - 1) as usize),
                ));
            }
        }
    }

    /// A grid holding exactly the triangles of `pieces`: piece `p` is filed
    /// with the boxes `pieces[p]`, pieces in order. Rebuilding after a piece
    /// changed leaves no entry of its former triangles behind.
    pub fn rebuild(size: u32, pieces: &Vec<Vec<CellBox>>) -> (r: Self)
        ensures
            r.spec_cell_size() == size,
            forall|c: Cell|
                #![trigger (r.cells())(c)]
                (r.cells())(c) == filed_pieces(pieces@.map_values(|v: Vec<CellBox>| v@), c, pieces@.len()),
    {
        let ghost model = pieces@.map_values(|v: Vec<CellBox>| v@);
        let mut grid = Grid::new(size);
        let mut p: usize = 0;
        while p < pieces.len()
            invariant
                p <= pieces@.len(),
                model == pieces@.map_values(|v: Vec<CellBox>| v@),
                grid.spec_cell_size() == size,
                forall|c: Cell|
                    #![trigger (grid.cells())(c)]
                    (grid.cells())(c) == filed_pieces(model, c, p as nat),
            decreases pieces@.len() - p,
        {
            grid.insert(&pieces[p], p);
            p = p + 1;
            assert forall|c: Cell| #[trigger] (grid.cells())(c) == filed_pieces(model, c, p as nat) by {
                assert(model[p - 1] == pieces@[p - 1]@);
            }
        }
        grid
    }

    /// The entries of every cell of box `q`, x outermost, z innermost, each
    /// cell's entries in filing order.
    pub fn candidates(&self, q: CellBox) -> (r: Vec<Entry>)
        ensures
            r@ == gather(self.cells(), q),
    {
        let ghost cells = self.cells();
        let mut r: Vec<Entry> = Vec::new();
        let mut x: i64 = q.min.0 as i64;
        while x <= q.max.0 as i64
            invariant
                q.min.0 <= x,
                x <= q.max.0 + 1 || x == q.min.0,
                cells == self.cells(),
                r@ == gather_x(cells, q.min.0 as int, x as int, q),
            decreases q.max.0 + 1 - x,
        {
            let ghost rx = r@;
            let mut y: i64 = q.min.1 as i64;
            while y <= q.max.1 as i64
                invariant
                    q.min.0 <= x <= q.max.0,
                    q.min.1 <= y,
                    y <= q.max.1 + 1 || y == q.min.1,
                    cells == self.cells(),
                    rx == gather_x(cells, q.min.0 as int, x as int, q),
                    r@ == rx + gather_y(
                        cells,
                        x as int,
                        q.min.1 as int,
                        y as int,
                        q.min.2 as int,
                        q.max.2 + 1,
                    ),
                decreases q.max.1 + 1 - y,
            {
                let ghost ry = r@;
                let mut z: i64 = q.min.2 as i64;
                while z <= q.max.2 as i64
                    invariant
                        q.min.0 <= x <= q.max.0,
                        q.min.1 <= y <= q.max.1,
                        q.min.2 <= z,
                        z <= q.max.2 + 1 || z == q.min.2,
                        cells == self.cells(),
                        ry == rx + gather_y(
                            cells,
                            x as int,
                            q.min.1 as int,
                            y as int,
                            q.min.2 as int,
                            q.max.2 + 1,
                        ),
                        r@ == ry + gather_z(cells, x as int, y as int, q.min.2 as int, z as int),
                    decreases q.max.2 + 1 - z,
                {
                    let c: Cell = (x as i32, y as i32, z as i32);
                    let k = key_of(c);
                    let ghost rz = r@;
                    match self.cells.get(&k) {
                        Some(v) => {
                            append_all(&mut r, v);
                        },
                        None => {},
                    }
                    assert(r@ == rz + cells(c));
                    z = z + 1;
                    assert(r@ =~= ry + gather_z(cells, x as int, y as int, q.min.2 as int, z as int));
                }
                y = y + 1;
                assert(r@ =~= rx + gather_y(
                    cells,
                    x as int,
                    q.min.1 as int,
                    y as int,
                    q.min.2 as int,
                    q.max.2 + 1,
                ));
            }
            x = x + 1;
            assert(r@ =~= gather_x(cells, q.min.0 as int, x as int, q));
        }
        r
    }

    /// The first hit along the query over box `q`: `test` is run on the
    /// entries in query order, and the first result it gives that is not
    /// `None` is handed back. This is the first hit met, not the nearest.
    pub fn first_hit<T, F: Fn(Entry) -> Option<T>>(&self, q: CellBox, test: F) -> (r: Option<T>)
        requires
            forall|e: Entry| test.requires((e,)),
        ensures
            ({
                let es = gather(self.cells(), q);
                match r {
                    Some(h) => exists|i: int|
                        0 <= i < es.len() && test.ensures((es[i],), Some(h)) && forall|j: int|
                            0 <= j < i ==> test.ensures((#[trigger] es[j],), None),
                    None => forall|j: int| 0 <= j < es.len() ==> test.ensures((#[trigger] es[j],), None),
                }
            }),
    {
        let es = self.candidates(q);
        let mut i: usize = 0;
        while i < es.len()
            invariant
                es@ == gather(self.cells(), q),
                i <= es@.len(),
                forall|e: Entry| test.requires((e,)),
                forall|j: int| 0 <= j < i ==> test.ensures((#[trigger] es@[j],), None),
            decreases es@.len() - i,
        {
            let hit = test(es[i]);
            match hit {
                Some(h) => {
                    return Some(h);
                },
                None => {},
            }
            i = i + 1;
        }
        None
    }
}

} // verus!
