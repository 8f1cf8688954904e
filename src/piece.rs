//! Editing rules of one track piece.
//!
//! A piece runs between two endpoints, in integer world units, and has a
//! type and an orientation in degrees that is a multiple of a quarter turn.
//! Edits retype it, turn it a quarter turn about its active endpoint, move
//! its endpoints, or switch which endpoint is active. From this state the
//! piece derives the control geometry its centre line is sampled from: two
//! Bezier handles, or the radius of a loop, and the orientations that the
//! first and last cross-section are squared to.

use vstd::prelude::*;
use crate::input::{AdvanceableState, Key, KeyState, Keyboard, KEY_SLOTS};

verus! {

/// Largest distance from the origin, on any axis, that an endpoint may have.
pub const COORD_LIMIT: i64 = 1_000_000_000;

/// Length of a straight piece or a loop's run-up, as laid down by a retype.
pub const STRAIGHT_LENGTH: i64 = 500;

/// Extent on the x and z axes of a quarter-circle curve.
pub const CURVE90_EXTENT: i64 = 300;

/// Length on the z axis of a half-circle curve.
pub const CURVE180_LENGTH: i64 = 500;

/// One endpoint of a piece: a position, the half-width of the track there,
/// and its roll in degrees.
#[derive(Debug, PartialEq, Eq, Structural, Clone, Copy)]
pub struct Endpoint {
    pub x: i64,
    pub y: i64,
    pub z: i64,
    pub width: i64,
    pub roll: i64,
}

#[derive(Debug, PartialEq, Eq, Structural, Clone, Copy)]
pub enum PieceType {
    Straight,
    Curve90,
    Curve180,
    Loop,
}

/// Direction of a quarter turn: `Minus` by -90 degrees, `Plus` by +90.
#[derive(Debug, PartialEq, Eq, Structural, Clone, Copy)]
pub enum Turn {
    Minus,
    Plus,
}

/// One edit of a piece.
#[derive(Debug, PartialEq, Eq, Structural, Clone, Copy)]
pub enum EditCommand {
    /// Make the other endpoint the active one.
    ToggleEnd,
    /// Lay the piece down anew as the given type, from the active endpoint.
    Retype(PieceType),
    /// Turn both endpoints a quarter turn about the active endpoint.
    Rotate(Turn),
    /// Move the active endpoint by `(dx, 0, dz)`; with `both`, move the other
    /// endpoint by the same offset as well.
    Translate { dx: i64, dz: i64, both: bool },
}

/// The editable state of a piece.
#[derive(Debug, PartialEq, Eq, Structural, Clone, Copy)]
pub struct Piece {
    pub from: Endpoint,
    pub to: Endpoint,
    /// Orientation in degrees.
    pub angle: i64,
    /// Whether `to`, rather than `from`, is the endpoint edits act on.
    pub active_end: bool,
    pub kind: PieceType,
}

/// A scale factor `num / den`.
#[derive(Debug, PartialEq, Eq, Structural, Clone, Copy)]
pub struct Ratio {
    pub num: i64,
    pub den: i64,
}

/// A displacement in world units.
#[derive(Debug, PartialEq, Eq, Structural, Clone, Copy)]
pub struct Offset {
    pub dx: i64,
    pub dy: i64,
    pub dz: i64,
}

/// The control geometry of a piece's centre line.
#[derive(Debug, PartialEq, Eq, Structural, Clone, Copy)]
pub enum Shape {
    /// A cubic Bezier curve from `from` to `to`. Its inner control points
    /// are `from + from_handle * scale` and `to + to_handle * scale`.
    Bezier {
        from_handle: Offset,
        to_handle: Offset,
        scale: Ratio,
        from_angle: i64,
        to_angle: i64,
    },
    /// A loop of the given radius whose plane faces `angle` degrees.
    Loop { radius: i64, angle: i64, from_angle: i64, to_angle: i64 },
}

/// Handle scale of a straight piece: two thirds of the reach, halved.
pub const STRAIGHT_SCALE_NUM: i64 = 133;

pub const STRAIGHT_SCALE_DEN: i64 = 200;

/// Handle scale of a quarter-circle curve: the ratio that best fits a cubic
/// Bezier curve to a circular arc.
pub const CURVE90_SCALE_NUM: i64 = 55228;

pub const CURVE90_SCALE_DEN: i64 = 100000;

/// Handle scale of a half-circle curve.
pub const CURVE180_SCALE_NUM: i64 = 2;

pub const CURVE180_SCALE_DEN: i64 = 3;

pub open spec fn abs(a: int) -> int {
    if a < 0 {
        -a
    } else {
        a
    }
}

/// An orientation: a whole number of quarter turns, less than a full turn
/// either way.
pub open spec fn is_orientation(a: int) -> bool {
    -360 < a < 360 && a % 90 == 0
}

/// Remainder of `a` by a full turn, keeping the sign of `a`, for
/// `-720 < a < 720`.
pub open spec fn rem_turn(a: int) -> int {
    if a >= 360 {
        a - 360
    } else if a <= -360 {
        a + 360
    } else {
        a
    }
}

/// `(r cos a, r sin a)` for an orientation `a` in degrees.
pub open spec fn polar(a: int, r: int) -> (int, int) {
    if a == 0 {
        (r, 0)
    } else if a == 90 || a == -270 {
        (0, r)
    } else if a == 180 || a == -180 {
        (-r, 0)
    } else {
        (0, -r)
    }
}

pub open spec fn in_bounds(e: Endpoint) -> bool {
    &&& -COORD_LIMIT <= e.x <= COORD_LIMIT
    &&& -COORD_LIMIT <= e.y <= COORD_LIMIT
    &&& -COORD_LIMIT <= e.z <= COORD_LIMIT
}

pub open spec fn moved(e: Endpoint, x: int, y: int, z: int) -> Endpoint {
    Endpoint { x: x as i64, y: y as i64, z: z as i64, ..e }
}

/// `e` turned a quarter turn about `o` on the y axis.
pub open spec fn turned(e: Endpoint, o: Endpoint, t: Turn) -> Endpoint {
    let dx = e.x - o.x;
    let dz = e.z - o.z;
    match t {
        Turn::Plus => moved(e, o.x - dz, e.y as int, o.z + dx),
        Turn::Minus => moved(e, o.x + dz, e.y as int, o.z - dx),
    }
}

impl Piece {
    /// Endpoints inside the world and an orientation of whole quarter turns.
    pub open spec fn wf(&self) -> bool {
        &&& in_bounds(self.from)
        &&& in_bounds(self.to)
        &&& is_orientation(self.angle as int)
    }

    /// The endpoint edits act on.
    pub open spec fn active(&self) -> Endpoint {
        if self.active_end {
            self.to
        } else {
            self.from
        }
    }

    /// The piece laid down anew as `kind` from its active endpoint: the
    /// other endpoint is placed at `(dx, 0, dz)` ahead of it, or behind it
    /// when `to` is active, and both rolls are cleared.
    pub open spec fn spec_retyped(self, kind: PieceType) -> Piece {
        let (angle, dx, dz) = match kind {
            PieceType::Straight => (0int, STRAIGHT_LENGTH as int, 0int),
            PieceType::Curve90 => (180int, CURVE90_EXTENT as int, CURVE90_EXTENT as int),
            PieceType::Curve180 => (180int, 0int, CURVE180_LENGTH as int),
            PieceType::Loop => (0int, STRAIGHT_LENGTH as int, 0int),
        };
        let o = self.active();
        let from = Endpoint { roll: 0, ..self.from };
        let to = Endpoint { roll: 0, ..self.to };
        if self.active_end {
            Piece {
                from: moved(from, o.x - dx, o.y as int, o.z - dz),
                to: moved(to, o.x as int, o.y as int, o.z as int),
                angle: angle as i64,
                kind,
                ..self
            }
        } else {
            Piece {
                from: moved(from, o.x as int, o.y as int, o.z as int),
                to: moved(to, o.x + dx, o.y as int, o.z + dz),
                angle: angle as i64,
                kind,
                ..self
            }
        }
    }

    /// The piece turned a quarter turn about its active endpoint.
    pub open spec fn spec_rotated(self, t: Turn) -> Piece {
        let delta: int = match t {
            Turn::Plus => 90,
            Turn::Minus => -90,
        };
        Piece {
            from: turned(self.from, self.active(), t),
            to: turned(self.to, self.active(), t),
            angle: rem_turn(self.angle + delta) as i64,
            ..self
        }
    }

    /// The active endpoint moved by `(dx, 0, dz)`, and with `both` the other
    /// one too.
    pub open spec fn spec_translated(self, dx: int, dz: int, both: bool) -> Piece {
        let move_from = !self.active_end || both;
        let move_to = self.active_end || both;
        Piece {
            from: if move_from {
                moved(self.from, self.from.x + dx, self.from.y as int, self.from.z + dz)
            } else {
                self.from
            },
            to: if move_to {
                moved(self.to, self.to.x + dx, self.to.y as int, self.to.z + dz)
            } else {
                self.to
            },
            ..self
        }
    }

    /// The piece after `cmd`, before the bounds are checked.
    pub open spec fn spec_edited(self, cmd: EditCommand) -> Piece {
        match cmd {
            EditCommand::ToggleEnd => Piece { active_end: !self.active_end, ..self },
            EditCommand::Retype(kind) => self.spec_retyped(kind),
            EditCommand::Rotate(t) => self.spec_rotated(t),
            EditCommand::Translate { dx, dz, both } => self.spec_translated(
                dx as int,
                dz as int,
                both,
            ),
        }
    }

    /// Whether `cmd` keeps the piece inside the world. An edit that does not
    /// is ignored.
    pub open spec fn spec_applies(self, cmd: EditCommand) -> bool {
        &&& cmd matches EditCommand::Translate { dx, dz, .. } ==> abs(dx as int) <= COORD_LIMIT
            && abs(dz as int) <= COORD_LIMIT
        &&& in_bounds(self.spec_edited(cmd).from)
        &&& in_bounds(self.spec_edited(cmd).to)
    }

    /// A straight piece from `from` to the point 500 units further along x.
    pub fn new(from: Endpoint) -> (r: Piece)
        requires
            -COORD_LIMIT <= from.x <= COORD_LIMIT - STRAIGHT_LENGTH,
            -COORD_LIMIT <= from.y <= COORD_LIMIT,
            -COORD_LIMIT <= from.z <= COORD_LIMIT,
        ensures
            r.wf(),
            r == (Piece {
                from,
                to: from,
                angle: 0,
                active_end: false,
                kind: PieceType::Straight,
            }).spec_retyped(PieceType::Straight),
    {
        let p = Piece { from, to: from, angle: 0, active_end: false, kind: PieceType::Straight };
        p.retyped(PieceType::Straight)
    }

    fn retyped(&self, kind: PieceType) -> (r: Piece)
        requires
            in_bounds(self.from),
            in_bounds(self.to),
        ensures
            r == self.spec_retyped(kind),
    {
        let (angle, dx, dz): (i64, i64, i64) = match kind {
            PieceType::Straight => (0, STRAIGHT_LENGTH, 0),
            PieceType::Curve90 => (180, CURVE90_EXTENT, CURVE90_EXTENT),
            PieceType::Curve180 => (180, 0, CURVE180_LENGTH),
            PieceType::Loop => (0, STRAIGHT_LENGTH, 0),
        };
        let o = if self.active_end {
            self.to
        } else {
            self.from
        };
        let from = Endpoint { roll: 0, ..self.from };
        let to = Endpoint { roll: 0, ..self.to };
        if self.active_end {
            Piece {
                from: Endpoint { x: o.x - dx, y: o.y, z: o.z - dz, ..from },
                to: Endpoint { x: o.x, y: o.y, z: o.z, ..to },
                angle,
                kind,
                ..*self
            }
        } else {
            Piece {
                from: Endpoint { x: o.x, y: o.y, z: o.z, ..from },
                to: Endpoint { x: o.x + dx, y: o.y, z: o.z + dz, ..to },
                angle,
                kind,
                ..*self
            }
        }
    }

    /// Applies `cmd`, or leaves the piece as it is where the edit would take
    /// an endpoint outside the world.
    pub fn apply(&mut self, cmd: EditCommand) -> (applied: bool)
        requires
            old(self).wf(),
        ensures
            final(self).wf(),
            applied == old(self).spec_applies(cmd),
            *final(self) == if applied {
                old(self).spec_edited(cmd)
            } else {
                *old(self)
            },
    {
        let next = match cmd {
            EditCommand::ToggleEnd => Piece { active_end: !self.active_end, ..*self },
            EditCommand::Retype(kind) => self.retyped(kind),
            EditCommand::Rotate(t) => {
                let o = if self.active_end {
                    self.to
                } else {
                    self.from
                };
                let (fx, fz, tx, tz, angle) = match t {
                    Turn::Plus => (
                        o.x - (self.from.z - o.z),
                        o.z + (self.from.x - o.x),
                        o.x - (self.to.z - o.z),
                        o.z + (self.to.x - o.x),
                        self.angle + 90,
                    ),
                    Turn::Minus => (
                        o.x + (self.from.z - o.z),
                        o.z - (self.from.x - o.x),
                        o.x + (self.to.z - o.z),
                        o.z - (self.to.x - o.x),
                        self.angle - 90,
                    ),
                };
                let angle = if angle >= 360 {
                    angle - 360
                } else if angle <= -360 {
                    angle + 360
                } else {
                    angle
                };
                Piece {
                    from: Endpoint { x: fx, z: fz, ..self.from },
                    to: Endpoint { x: tx, z: tz, ..self.to },
                    angle,
                    ..*self
                }
            },
            EditCommand::Translate { dx, dz, both } => {
                if dx < -COORD_LIMIT || dx > COORD_LIMIT || dz < -COORD_LIMIT || dz > COORD_LIMIT {
                    return false;
                }
                let move_from = !self.active_end || both;
                let move_to = self.active_end || both;
                let from = if move_from {
                    Endpoint { x: self.from.x + dx, z: self.from.z + dz, ..self.from }
                } else {
                    self.from
                };
                let to = if move_to {
                    Endpoint { x: self.to.x + dx, z: self.to.z + dz, ..self.to }
                } else {
                    self.to
                };
                Piece { from, to, ..*self }
            },
        };
        assert(next == self.spec_edited(cmd));
        if inside(&next.from) && inside(&next.to) {
            *self = next;
            proof {
                assert(self.angle % 90 == 0);
            }
            true
        } else {
            false
        }
    }
}

impl Piece {
    /// The control geometry of the piece.
    ///
    /// - Straight: each handle reaches out along the orientation (backwards
    ///   at `to`) by the larger of the x and z distances between the
    ///   endpoints, scaled by 133/200; both ends are squared to the
    ///   orientation.
    /// - Curve180: both handles are the chord `v = to - from` turned a
    ///   quarter turn back, `(v.z, 0, -v.x)`, scaled by 2/3.
    /// - Curve90: the handles follow the axes, scaled by 55228/100000: at
    ///   orientation 0 or 180 `(v.x, 0, 0)` and `(0, 0, -v.z)`, otherwise
    ///   `(0, 0, v.z)` and `(-v.x, 0, 0)`.
    /// - Loop: the radius is the x distance between the endpoints at
    ///   orientation 0 or 180, the z distance otherwise.
    pub open spec fn spec_shape(self) -> Shape {
        let a = self.angle as int;
        let vx = self.to.x - self.from.x;
        let vz = self.to.z - self.from.z;
        let axis_aligned = a == 0 || a == 180;
        match self.kind {
            PieceType::Straight => {
                let reach = if abs(vx) >= abs(vz) {
                    abs(vx)
                } else {
                    abs(vz)
                };
                let (hx, hz) = polar(a, reach);
                Shape::Bezier {
                    from_handle: Offset { dx: hx as i64, dy: 0, dz: hz as i64 },
                    to_handle: Offset { dx: (-hx) as i64, dy: 0, dz: (-hz) as i64 },
                    scale: Ratio { num: STRAIGHT_SCALE_NUM, den: STRAIGHT_SCALE_DEN },
                    from_angle: a as i64,
                    to_angle: a as i64,
                }
            },
            PieceType::Curve180 => {
                let h = Offset { dx: vz as i64, dy: 0, dz: (-vx) as i64 };
                Shape::Bezier {
                    from_handle: h,
                    to_handle: h,
                    scale: Ratio { num: CURVE180_SCALE_NUM, den: CURVE180_SCALE_DEN },
                    from_angle: rem_turn(a + 180) as i64,
                    to_angle: a as i64,
                }
            },
            PieceType::Curve90 => {
                let (u, w) = if axis_aligned {
                    (
                        Offset { dx: vx as i64, dy: 0, dz: 0 },
                        Offset { dx: 0, dy: 0, dz: (-vz) as i64 },
                    )
                } else {
                    (
                        Offset { dx: 0, dy: 0, dz: vz as i64 },
                        Offset { dx: (-vx) as i64, dy: 0, dz: 0 },
                    )
                };
                Shape::Bezier {
                    from_handle: u,
                    to_handle: w,
                    scale: Ratio { num: CURVE90_SCALE_NUM, den: CURVE90_SCALE_DEN },
                    from_angle: (a + 180) as i64,
                    to_angle: rem_turn(a + 270) as i64,
                }
            },
            PieceType::Loop => Shape::Loop {
                radius: (if axis_aligned {
                    abs(vx)
                } else {
                    abs(vz)
                }) as i64,
                angle: (90 - a) as i64,
                from_angle: (-a) as i64,
                to_angle: (-a) as i64,
            },
        }
    }

    pub fn shape(&self) -> (r: Shape)
        requires
            self.wf(),
        ensures
            r == self.spec_shape(),
    {
        let a = self.angle;
        let vx = self.to.x - self.from.x;
        let vz = self.to.z - self.from.z;
        let axis_aligned = a == 0 || a == 180;
        match self.kind {
            PieceType::Straight => {
                let ax = if vx < 0 {
                    -vx
                } else {
                    vx
                };
                let az = if vz < 0 {
                    -vz
                } else {
                    vz
                };
                let reach = if ax >= az {
                    ax
                } else {
                    az
                };
                let (hx, hz): (i64, i64) = if a == 0 {
                    (reach, 0)
                } else if a == 90 || a == -270 {
                    (0, reach)
                } else if a == 180 || a == -180 {
                    (-reach, 0)
                } else {
                    (0, -reach)
                };
                Shape::Bezier {
                    from_handle: Offset { dx: hx, dy: 0, dz: hz },
                    to_handle: Offset { dx: -hx, dy: 0, dz: -hz },
                    scale: Ratio { num: STRAIGHT_SCALE_NUM, den: STRAIGHT_SCALE_DEN },
                    from_angle: a,
                    to_angle: a,
                }
            },
            PieceType::Curve180 => {
                let h = Offset { dx: vz, dy: 0, dz: -vx };
                let fa = if a + 180 >= 360 {
                    a + 180 - 360
                } else {
                    a + 180
                };
                Shape::Bezier {
                    from_handle: h,
                    to_handle: h,
                    scale: Ratio { num: CURVE180_SCALE_NUM, den: CURVE180_SCALE_DEN },
                    from_angle: fa,
                    to_angle: a,
                }
            },
            PieceType::Curve90 => {
                let (u, w) = if axis_aligned {
                    (Offset { dx: vx, dy: 0, dz: 0 }, Offset { dx: 0, dy: 0, dz: -vz })
                } else {
                    (Offset { dx: 0, dy: 0, dz: vz }, Offset { dx: -vx, dy: 0, dz: 0 })
                };
                let ta = if a + 270 >= 360 {
                    a + 270 - 360
                } else {
                    a + 270
                };
                Shape::Bezier {
                    from_handle: u,
                    to_handle: w,
                    scale: Ratio { num: CURVE90_SCALE_NUM, den: CURVE90_SCALE_DEN },
                    from_angle: a + 180,
                    to_angle: ta,
                }
            },
            PieceType::Loop => {
                let d = if axis_aligned {
                    vx
                } else {
                    vz
                };
                let radius = if d < 0 {
                    -d
                } else {
                    d
                };
                Shape::Loop { radius, angle: 90 - a, from_angle: -a, to_angle: -a }
            },
        }
    }

    /// Position of the piece's first endpoint.
    pub fn start_point(&self) -> (r: (i64, i64, i64))
        ensures
            r == (self.from.x, self.from.y, self.from.z),
    {
        (self.from.x, self.from.y, self.from.z)
    }
}

/// Distance an endpoint moves per step of a move edit.
pub const MOVE_STEP: i64 = 100;

pub open spec fn pressed_now(keys: Seq<KeyState>, key: Key) -> bool {
    keys[key.spec_index() as int].spec_was_pressed()
}

pub open spec fn when(c: bool, cmd: EditCommand) -> Seq<EditCommand> {
    if c {
        seq![cmd]
    } else {
        Seq::empty()
    }
}

/// The edits that a frame's key presses ask for, in the order they are
/// applied: G switches the active endpoint; 1, 2, 3 and 4 retype the piece
/// as straight, quarter curve, half curve and loop; U and O turn it by -90
/// and +90 degrees; I, K, J and L move the active endpoint by a step along
/// +x, -x, -z and +z, and, while left shift is held, the other endpoint too.
pub open spec fn spec_commands(keys: Seq<KeyState>) -> Seq<EditCommand> {
    let both = keys[Key::LShift.spec_index() as int].spec_is_pressed();
    when(pressed_now(keys, Key::G), EditCommand::ToggleEnd)
        + when(pressed_now(keys, Key::Key1), EditCommand::Retype(PieceType::Straight))
        + when(pressed_now(keys, Key::Key2), EditCommand::Retype(PieceType::Curve90))
        + when(pressed_now(keys, Key::Key3), EditCommand::Retype(PieceType::Curve180))
        + when(pressed_now(keys, Key::Key4), EditCommand::Retype(PieceType::Loop))
        + when(pressed_now(keys, Key::U), EditCommand::Rotate(Turn::Minus))
        + when(pressed_now(keys, Key::O), EditCommand::Rotate(Turn::Plus))
        + when(pressed_now(keys, Key::I), EditCommand::Translate { dx: MOVE_STEP, dz: 0, both })
        + when(pressed_now(keys, Key::K), EditCommand::Translate { dx: (-MOVE_STEP) as i64, dz: 0, both })
        + when(pressed_now(keys, Key::J), EditCommand::Translate { dx: 0, dz: (-MOVE_STEP) as i64, both })
        + when(pressed_now(keys, Key::L), EditCommand::Translate { dx: 0, dz: MOVE_STEP, both })
}

fn push_when(cmds: &mut Vec<EditCommand>, c: bool, cmd: EditCommand)
    ensures
        final(cmds)@ == old(cmds)@ + when(c, cmd),
{
    if c {
        cmds.push(cmd);
    }
    assert(cmds@ =~= old(cmds)@ + when(c, cmd));
}

/// Decodes a frame's key presses into edits.
pub fn edit_commands(keyboard: &Keyboard) -> (r: Vec<EditCommand>)
    requires
        keyboard@.len() >= KEY_SLOTS,
    ensures
        r@ == spec_commands(keyboard@),
{
    let both = keyboard.is_pressed(Key::LShift);
    let mut r: Vec<EditCommand> = Vec::new();
    push_when(&mut r, keyboard.was_pressed(Key::G), EditCommand::ToggleEnd);
    push_when(&mut r, keyboard.was_pressed(Key::Key1), EditCommand::Retype(PieceType::Straight));
    push_when(&mut r, keyboard.was_pressed(Key::Key2), EditCommand::Retype(PieceType::Curve90));
    push_when(&mut r, keyboard.was_pressed(Key::Key3), EditCommand::Retype(PieceType::Curve180));
    push_when(&mut r, keyboard.was_pressed(Key::Key4), EditCommand::Retype(PieceType::Loop));
    push_when(&mut r, keyboard.was_pressed(Key::U), EditCommand::Rotate(Turn::Minus));
    push_when(&mut r, keyboard.was_pressed(Key::O), EditCommand::Rotate(Turn::Plus));
    push_when(
        &mut r,
        keyboard.was_pressed(Key::I),
        EditCommand::Translate { dx: MOVE_STEP, dz: 0, both },
    );
    push_when(
        &mut r,
        keyboard.was_pressed(Key::K),
        EditCommand::Translate { dx: -MOVE_STEP, dz: 0, both },
    );
    push_when(
        &mut r,
        keyboard.was_pressed(Key::J),
        EditCommand::Translate { dx: 0, dz: -MOVE_STEP, both },
    );
    push_when(
        &mut r,
        keyboard.was_pressed(Key::L),
        EditCommand::Translate { dx: 0, dz: MOVE_STEP, both },
    );
    assert(r@ =~= spec_commands(keyboard@));
    r
}

/// `p` after one edit: the edit is made where it keeps the piece inside the
/// world, and ignored otherwise.
pub open spec fn step(p: Piece, cmd: EditCommand) -> Piece {
    if p.spec_applies(cmd) {
        p.spec_edited(cmd)
    } else {
        p
    }
}

/// `p` after the edits `cmds`, first to last.
pub open spec fn after_edits(p: Piece, cmds: Seq<EditCommand>) -> Piece
    decreases cmds.len(),
{
    if cmds.len() == 0 {
        p
    } else {
        step(after_edits(p, cmds.drop_last()), cmds.last())
    }
}

/// Whether any of `cmds` changes the piece's geometry, that is, is more
/// than a switch of the active endpoint.
pub open spec fn reshapes(cmds: Seq<EditCommand>) -> bool {
    exists|i: int| 0 <= i < cmds.len() && cmds[i] != EditCommand::ToggleEnd
}

impl Piece {
    /// Makes the edits `cmds` in order; returns whether the geometry has to
    /// be generated anew.
    pub fn edit_all(&mut self, cmds: &Vec<EditCommand>) -> (regenerate: bool)
        requires
            old(self).wf(),
        ensures
            final(self).wf(),
            *final(self) == after_edits(*old(self), cmds@),
            regenerate == reshapes(cmds@),
    {
        let mut regenerate = false;
        let mut i: usize = 0;
        while i < cmds.len()
            invariant
                i <= cmds@.len(),
                self.wf(),
                *self == after_edits(*old(self), cmds@.subrange(0, i as int)),
                regenerate == exists|j: int| 0 <= j < i && cmds@[j] != EditCommand::ToggleEnd,
            decreases cmds@.len() - i,
        {
            let cmd = cmds[i];
            self.apply(cmd);
            if cmd != EditCommand::ToggleEnd {
                regenerate = true;
            }
            proof {
                let s = cmds@.subrange(0, i + 1);
                assert(s.drop_last() =~= cmds@.subrange(0, i as int));
                assert(s.last() == cmd);
            }
            i = i + 1;
        }
        assert(cmds@.subrange(0, cmds@.len() as int) =~= cmds@);
        regenerate
    }

    /// Makes the edits that a frame's key presses ask for; returns whether
    /// the geometry has to be generated anew.
    pub fn edit(&mut self, keyboard: &Keyboard) -> (regenerate: bool)
        requires
            old(self).wf(),
            keyboard@.len() >= KEY_SLOTS,
        ensures
            final(self).wf(),
            *final(self) == after_edits(*old(self), spec_commands(keyboard@)),
            regenerate == reshapes(spec_commands(keyboard@)),
    {
        let cmds = edit_commands(keyboard);
        self.edit_all(&cmds)
    }
}

fn inside(e: &Endpoint) -> (r: bool)
    ensures
        r == in_bounds(*e),
{
    -COORD_LIMIT <= e.x && e.x <= COORD_LIMIT && -COORD_LIMIT <= e.y && e.y <= COORD_LIMIT
        && -COORD_LIMIT <= e.z && e.z <= COORD_LIMIT
}

} // verus!
