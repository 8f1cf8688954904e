//! The ordered pieces of a course. A piece's position in the list is its id,
//! the one the cell grid files its triangles under.

use vstd::prelude::*;
use crate::input::{Keyboard, KEY_SLOTS};
use crate::piece::{
    after_edits, reshapes, spec_commands, step, EditCommand, Endpoint, Piece, PieceType,
};

verus! {

/// Half-width of the track that a new course starts with.
pub const START_WIDTH: i64 = 200;

pub struct Track {
    pieces: Vec<Piece>,
}

impl View for Track {
    type V = Seq<Piece>;

    closed spec fn view(&self) -> Seq<Piece> {
        self.pieces@
    }
}

/// The endpoint a new course starts from: the origin, at the start width,
/// without roll.
pub open spec fn origin() -> Endpoint {
    Endpoint { x: 0, y: 0, z: 0, width: START_WIDTH, roll: 0 }
}

impl Track {
    /// At least one piece, each well formed.
    pub open spec fn wf(&self) -> bool {
        &&& self@.len() >= 1
        &&& forall|i: int| 0 <= i < self@.len() ==> (#[trigger] self@[i]).wf()
    }

    /// A course of one straight piece laid from the origin.
    pub fn new() -> (r: Track)
        ensures
            r.wf(),
            r@ == seq![
                (Piece {
                    from: origin(),
                    to: origin(),
                    angle: 0,
                    active_end: false,
                    kind: PieceType::Straight,
                }).spec_retyped(PieceType::Straight),
            ],
    {
        let start = Endpoint { x: 0, y: 0, z: 0, width: START_WIDTH, roll: 0 };
        let mut pieces: Vec<Piece> = Vec::new();
        pieces.push(Piece::new(start));
        Track { pieces }
    }

    pub fn len(&self) -> (r: usize)
        ensures
            r == self@.len(),
    {
        self.pieces.len()
    }

    pub fn piece(&self, index: usize) -> (r: &Piece)
        requires
            index < self@.len(),
        ensures
            *r == self@[index as int],
    {
        &self.pieces[index]
    }

    /// Where the course starts: the first endpoint of its first piece.
    pub fn start_point(&self) -> (r: (i64, i64, i64))
        requires
            self.wf(),
        ensures
            r == (self@[0].from.x, self@[0].from.y, self@[0].from.z),
    {
        self.pieces[0].start_point()
    }

    /// Makes edit `cmd` on piece `index`. An index past the last piece, or an
    /// edit that would leave the world, changes nothing; returns whether the
    /// edit was made.
    pub fn apply(&mut self, index: usize, cmd: EditCommand) -> (applied: bool)
        requires
            old(self).wf(),
        ensures
            final(self).wf(),
            applied == (index < old(self)@.len() && old(self)@[index as int].spec_applies(cmd)),
            final(self)@ == if index < old(self)@.len() {
                old(self)@.update(index as int, step(old(self)@[index as int], cmd))
            } else {
                old(self)@
            },
    {
        if index >= self.pieces.len() {
            return false;
        }
        let mut p = self.pieces[index];
        let applied = p.apply(cmd);
        self.pieces.set(index, p);
        applied
    }

    /// Makes the edits that a frame's key presses ask for on piece `index`;
    /// an index past the last piece changes nothing. Returns whether that
    /// piece's geometry has to be generated anew.
    pub fn edit(&mut self, index: usize, keyboard: &Keyboard) -> (regenerate: bool)
        requires
            old(self).wf(),
            keyboard@.len() >= KEY_SLOTS,
        ensures
            final(self).wf(),
            regenerate == (index < old(self)@.len() && reshapes(spec_commands(keyboard@))),
            final(self)@ == if index < old(self)@.len() {
                old(self)@.update(
                    index as int,
                    after_edits(old(self)@[index as int], spec_commands(keyboard@)),
                )
            } else {
                old(self)@
            },
    {
        if index >= self.pieces.len() {
            return false;
        }
        let mut p = self.pieces[index];
        let regenerate = p.edit(keyboard);
        self.pieces.set(index, p);
        regenerate
    }
}

} // verus!
