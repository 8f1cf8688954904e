//! Track geometry bookkeeping for a hover-glider game: the input state
//! machine that edit commands are decoded from, the editing rules of a
//! track piece, the index layout of a swept tube mesh and of the helper
//! meshes, and the uniform cell grid that narrows ray queries down to a few
//! candidate triangles.
//! Every item here works on integers; the floating-point curve and
//! intersection math lives with the caller.

pub mod input;
pub mod tube;
pub mod grid;
pub mod piece;
pub mod track;
pub mod faces;
