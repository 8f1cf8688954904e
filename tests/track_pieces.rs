use glider::input::{InputState, Key, KeyState, Keyboard, KEY_SLOTS};
use glider::piece::{
    edit_commands, EditCommand, Endpoint, Offset, Piece, PieceType, Ratio, Shape, Turn,
    COORD_LIMIT,
};
use glider::track::Track;

fn origin() -> Endpoint {
    Endpoint { x: 0, y: 0, z: 0, width: 200, roll: 0 }
}

#[test]
fn new_piece_is_straight_along_x() {
    let p = Piece::new(origin());
    assert_eq!(p.from, origin());
    assert_eq!(p.to, Endpoint { x: 500, y: 0, z: 0, width: 200, roll: 0 });
    assert_eq!(p.kind, PieceType::Straight);
    assert_eq!(p.angle, 0);
    assert!(!p.active_end);
    assert_eq!(p.start_point(), (0, 0, 0));
}

#[test]
fn straight_shape_reaches_along_orientation() {
    let p = Piece::new(origin());
    assert_eq!(
        p.shape(),
        Shape::Bezier {
            from_handle: Offset { dx: 500, dy: 0, dz: 0 },
            to_handle: Offset { dx: -500, dy: 0, dz: 0 },
            scale: Ratio { num: 133, den: 200 },
            from_angle: 0,
            to_angle: 0,
        }
    );
}

#[test]
fn retype_to_quarter_curve() {
    let mut p = Piece::new(Endpoint { x: 0, y: 0, z: 0, width: 200, roll: 45 });
    assert!(p.apply(EditCommand::Retype(PieceType::Curve90)));
    assert_eq!(p.kind, PieceType::Curve90);
    assert_eq!(p.angle, 180);
    assert_eq!(p.from, origin());
    assert_eq!(p.to, Endpoint { x: 300, y: 0, z: 300, width: 200, roll: 0 });
    assert_eq!(
        p.shape(),
        Shape::Bezier {
            from_handle: Offset { dx: 300, dy: 0, dz: 0 },
            to_handle: Offset { dx: 0, dy: 0, dz: -300 },
            scale: Ratio { num: 55228, den: 100000 },
            from_angle: 360,
            to_angle: 90,
        }
    );
}

#[test]
fn retype_to_half_curve() {
    let mut p = Piece::new(origin());
    assert!(p.apply(EditCommand::Retype(PieceType::Curve180)));
    assert_eq!(p.to, Endpoint { x: 0, y: 0, z: 500, width: 200, roll: 0 });
    assert_eq!(
        p.shape(),
        Shape::Bezier {
            from_handle: Offset { dx: 500, dy: 0, dz: 0 },
            to_handle: Offset { dx: 500, dy: 0, dz: 0 },
            scale: Ratio { num: 2, den: 3 },
            from_angle: 0,
            to_angle: 180,
        }
    );
}

#[test]
fn retype_to_loop() {
    let mut p = Piece::new(origin());
    assert!(p.apply(EditCommand::Retype(PieceType::Loop)));
    assert_eq!(
        p.shape(),
        Shape::Loop { radius: 500, angle: 90, from_angle: 0, to_angle: 0 }
    );
}

#[test]
fn retype_from_far_end_lays_piece_behind_it() {
    let mut p = Piece::new(origin());
    assert!(p.apply(EditCommand::ToggleEnd));
    assert!(p.active_end);
    assert!(p.apply(EditCommand::Retype(PieceType::Curve180)));
    assert_eq!(p.to, Endpoint { x: 500, y: 0, z: 0, width: 200, roll: 0 });
    assert_eq!(p.from, Endpoint { x: 500, y: 0, z: -500, width: 200, roll: 0 });
}

#[test]
fn quarter_turns_about_active_end() {
    let mut p = Piece::new(origin());
    assert!(p.apply(EditCommand::Rotate(Turn::Plus)));
    assert_eq!(p.angle, 90);
    assert_eq!((p.to.x, p.to.z), (0, 500));
    assert!(p.apply(EditCommand::Rotate(Turn::Minus)));
    assert!(p.apply(EditCommand::Rotate(Turn::Minus)));
    assert_eq!(p.angle, -90);
    assert_eq!((p.to.x, p.to.z), (0, -500));
    assert_eq!((p.from.x, p.from.z), (0, 0));
    for _ in 0..3 {
        assert!(p.apply(EditCommand::Rotate(Turn::Minus)));
    }
    assert_eq!(p.angle, 0);
    assert_eq!((p.to.x, p.to.z), (500, 0));
}

#[test]
fn turn_about_far_end() {
    let mut p = Piece::new(origin());
    p.apply(EditCommand::ToggleEnd);
    assert!(p.apply(EditCommand::Rotate(Turn::Plus)));
    assert_eq!((p.to.x, p.to.z), (500, 0));
    assert_eq!((p.from.x, p.from.z), (500, -500));
}

#[test]
fn translate_moves_active_end_or_both() {
    let mut p = Piece::new(origin());
    assert!(p.apply(EditCommand::Translate { dx: 100, dz: 0, both: false }));
    assert_eq!((p.from.x, p.to.x), (100, 500));
    assert!(p.apply(EditCommand::Translate { dx: 0, dz: -100, both: true }));
    assert_eq!((p.from.z, p.to.z), (-100, -100));
    p.apply(EditCommand::ToggleEnd);
    assert!(p.apply(EditCommand::Translate { dx: 100, dz: 0, both: false }));
    assert_eq!((p.from.x, p.to.x), (100, 600));
}

#[test]
fn edit_leaving_the_world_is_ignored() {
    let mut p = Piece::new(Endpoint { x: COORD_LIMIT - 500, y: 0, z: 0, width: 200, roll: 0 });
    p.apply(EditCommand::ToggleEnd);
    let before = p;
    assert!(!p.apply(EditCommand::Translate { dx: 100, dz: 0, both: false }));
    assert_eq!(p, before);
    assert!(!p.apply(EditCommand::Translate { dx: i64::MAX, dz: 0, both: false }));
    assert_eq!(p, before);
}

#[test]
fn loop_radius_follows_orientation() {
    let mut p = Piece::new(origin());
    p.apply(EditCommand::Retype(PieceType::Loop));
    p.apply(EditCommand::Translate { dx: 0, dz: 100, both: false });
    p.apply(EditCommand::Rotate(Turn::Plus));
    // from at (0, 100) is the pivot; to turns from (500, 0) to (100, 600).
    assert_eq!((p.to.x, p.to.z), (100, 600));
    assert_eq!(
        p.shape(),
        Shape::Loop { radius: 500, angle: 0, from_angle: -90, to_angle: -90 }
    );
}

#[test]
fn keys_decode_into_edits() {
    let mut k: Keyboard = InputState::new(KEY_SLOTS, ());
    k.set(Key::I, KeyState::WasPressed);
    k.set(Key::G, KeyState::WasPressed);
    k.set(Key::LShift, KeyState::Pressed);
    k.set(Key::O, KeyState::Pressed);
    assert_eq!(
        edit_commands(&k),
        vec![EditCommand::ToggleEnd, EditCommand::Translate { dx: 100, dz: 0, both: true }]
    );
    let mut p = Piece::new(origin());
    assert!(p.edit(&k));
    assert!(p.active_end);
    assert_eq!((p.from.x, p.to.x), (100, 600));
}

#[test]
fn toggle_alone_needs_no_regeneration() {
    let mut k: Keyboard = InputState::new(KEY_SLOTS, ());
    k.set(Key::G, KeyState::WasPressed);
    let mut p = Piece::new(origin());
    assert!(!p.edit(&k));
    assert!(p.active_end);
    let empty: Keyboard = InputState::new(KEY_SLOTS, ());
    assert!(edit_commands(&empty).is_empty());
}

#[test]
fn all_retype_keys_in_order() {
    let mut k: Keyboard = InputState::new(KEY_SLOTS, ());
    for key in [Key::Key4, Key::Key3, Key::Key2, Key::Key1, Key::U, Key::L, Key::J, Key::K] {
        k.set(key, KeyState::WasPressed);
    }
    assert_eq!(
        edit_commands(&k),
        vec![
            EditCommand::Retype(PieceType::Straight),
            EditCommand::Retype(PieceType::Curve90),
            EditCommand::Retype(PieceType::Curve180),
            EditCommand::Retype(PieceType::Loop),
            EditCommand::Rotate(Turn::Minus),
            EditCommand::Translate { dx: -100, dz: 0, both: false },
            EditCommand::Translate { dx: 0, dz: -100, both: false },
            EditCommand::Translate { dx: 0, dz: 100, both: false },
        ]
    );
}

#[test]
fn track_starts_with_one_straight_piece() {
    let t = Track::new();
    assert_eq!(t.len(), 1);
    assert_eq!(t.start_point(), (0, 0, 0));
    assert_eq!(t.piece(0).to, Endpoint { x: 500, y: 0, z: 0, width: 200, roll: 0 });
}

#[test]
fn track_edit_of_missing_piece_is_ignored() {
    let mut t = Track::new();
    assert!(!t.apply(3, EditCommand::Rotate(Turn::Plus)));
    assert_eq!(*t.piece(0), Piece::new(origin()));
    let mut k: Keyboard = InputState::new(KEY_SLOTS, ());
    k.set(Key::O, KeyState::WasPressed);
    assert!(!t.edit(1, &k));
    assert!(t.edit(0, &k));
    assert_eq!(t.piece(0).angle, 90);
}
