//! Per-frame keyboard and mouse state.
//!
//! Each key or button moves through a small state machine: an event sets it to
//! `WasPressed` or `WasReleased`, and advancing to the next frame settles it
//! into `Pressed` or `Released`.

use vstd::prelude::*;
use std::marker::PhantomData;

verus! {

/// A value that follows the pressed / released state machine.
pub trait AdvanceableState: Sized {
    /// The state after one frame has passed.
    spec fn advanced(&self) -> Self;

    /// The state after focus was lost.
    spec fn after_reset(&self) -> Self;

    /// The state that a fresh input starts in.
    spec fn initial_state() -> Self;

    spec fn spec_was_pressed(&self) -> bool;

    spec fn spec_was_released(&self) -> bool;

    spec fn spec_is_pressed(&self) -> bool;

    spec fn spec_is_released(&self) -> bool;

    fn initial() -> (r: Self)
        ensures
            r == Self::initial_state(),
    ;

    fn advance(&self) -> (r: Self)
        ensures
            r == self.advanced(),
    ;

    fn reset(&self) -> (r: Self)
        ensures
            r == self.after_reset(),
    ;

    fn was_pressed(&self) -> (r: bool)
        ensures
            r == self.spec_was_pressed(),
    ;

    fn was_released(&self) -> (r: bool)
        ensures
            r == self.spec_was_released(),
    ;

    fn is_pressed(&self) -> (r: bool)
        ensures
            r == self.spec_is_pressed(),
    ;

    fn is_released(&self) -> (r: bool)
        ensures
            r == self.spec_is_released(),
    ;
}

/// Marker for inputs that carry a screen position.
pub trait WithPosition {
}

/// Something that selects one slot of an [`InputState`].
pub trait InputIndex: Sized {
    spec fn spec_slot(&self) -> nat;

    fn slot(self) -> (r: usize)
        ensures
            r == self.spec_slot(),
    ;
}

// Keyboard -------------------------------------------------------------------

/// The keys the game reacts to.
#[derive(Debug, PartialEq, Eq, Structural, Clone, Copy)]
pub enum Key {
    A,
    B,
    C,
    D,
    E,
    F,
    G,
    H,
    I,
    J,
    K,
    L,
    M,
    N,
    O,
    P,
    Q,
    R,
    S,
    T,
    U,
    V,
    W,
    X,
    Y,
    Z,
    Space,
    Backspace,
    Tab,
    Key1,
    Key2,
    Key3,
    Key4,
    Key5,
    Key6,
    Key7,
    Key8,
    Key9,
    Key0,
    Return,
    Escape,
    LShift,
    Unknown,
}

/// Number of slots a keyboard state needs to hold every [`Key`].
pub const KEY_SLOTS: usize = 44;

impl Key {
    /// Slot of the key in a keyboard state: letters take 0 to 25, and the
    /// remaining keys follow from 27 on.
    pub open spec fn spec_index(self) -> nat {
        match self {
            Key::A => 0,
            Key::B => 1,
            Key::C => 2,
            Key::D => 3,
            Key::E => 4,
            Key::F => 5,
            Key::G => 6,
            Key::H => 7,
            Key::I => 8,
            Key::J => 9,
            Key::K => 10,
            Key::L => 11,
            Key::M => 12,
            Key::N => 13,
            Key::O => 14,
            Key::P => 15,
            Key::Q => 16,
            Key::R => 17,
            Key::S => 18,
            Key::T => 19,
            Key::U => 20,
            Key::V => 21,
            Key::W => 22,
            Key::X => 23,
            Key::Y => 24,
            Key::Z => 25,
            Key::Space => 27,
            Key::Backspace => 28,
            Key::Tab => 29,
            Key::Key1 => 30,
            Key::Key2 => 31,
            Key::Key3 => 32,
            Key::Key4 => 33,
            Key::Key5 => 34,
            Key::Key6 => 35,
            Key::Key7 => 36,
            Key::Key8 => 37,
            Key::Key9 => 38,
            Key::Key0 => 39,
            Key::Return => 40,
            Key::Escape => 41,
            Key::LShift => 42,
            Key::Unknown => 43,
        }
    }

    pub fn index(self) -> (r: usize)
        ensures
            r == self.spec_index(),
            r < KEY_SLOTS,
    {
        match self {
            Key::A => 0,
            Key::B => 1,
            Key::C => 2,
            Key::D => 3,
            Key::E => 4,
            Key::F => 5,
            Key::G => 6,
            Key::H => 7,
            Key::I => 8,
            Key::J => 9,
            Key::K => 10,
            Key::L => 11,
            Key::M => 12,
            Key::N => 13,
            Key::O => 14,
            Key::P => 15,
            Key::Q => 16,
            Key::R => 17,
            Key::S => 18,
            Key::T => 19,
            Key::U => 20,
            Key::V => 21,
            Key::W => 22,
            Key::X => 23,
            Key::Y => 24,
            Key::Z => 25,
            Key::Space => 27,
            Key::Backspace => 28,
            Key::Tab => 29,
            Key::Key1 => 30,
            Key::Key2 => 31,
            Key::Key3 => 32,
            Key::Key4 => 33,
            Key::Key5 => 34,
            Key::Key6 => 35,
            Key::Key7 => 36,
            Key::Key8 => 37,
            Key::Key9 => 38,
            Key::Key0 => 39,
            Key::Return => 40,
            Key::Escape => 41,
            Key::LShift => 42,
            Key::Unknown => 43,
        }
    }
}

impl InputIndex for Key {
    open spec fn spec_slot(&self) -> nat {
        self.spec_index()
    }

    fn slot(self) -> (r: usize) {
        self.index()
    }
}

#[derive(Debug, PartialEq, Eq, Structural, Copy, Clone)]
pub enum KeyState {
    WasPressed,
    Pressed,
    WasReleased,
    Released,
}

impl AdvanceableState for KeyState {
    open spec fn advanced(&self) -> Self {
        match *self {
            KeyState::WasReleased => KeyState::Released,
            KeyState::WasPressed => KeyState::Pressed,
            _ => *self,
        }
    }

    open spec fn after_reset(&self) -> Self {
        match *self {
            KeyState::Pressed => KeyState::WasReleased,
            _ => *self,
        }
    }

    open spec fn initial_state() -> Self {
        KeyState::Released
    }

    open spec fn spec_was_pressed(&self) -> bool {
        *self == KeyState::WasPressed
    }

    open spec fn spec_was_released(&self) -> bool {
        *self == KeyState::WasReleased
    }

    open spec fn spec_is_pressed(&self) -> bool {
        *self == KeyState::Pressed || *self == KeyState::WasPressed
    }

    open spec fn spec_is_released(&self) -> bool {
        *self == KeyState::Released || *self == KeyState::WasReleased
    }

    fn initial() -> (r: Self) {
        KeyState::Released
    }

    fn advance(&self) -> (r: Self) {
        match *self {
            KeyState::WasReleased => KeyState::Released,
            KeyState::WasPressed => KeyState::Pressed,
            _ => *self,
        }
    }

    fn reset(&self) -> (r: Self) {
        match *self {
            KeyState::Pressed => KeyState::WasReleased,
            _ => *self,
        }
    }

    fn was_pressed(&self) -> (r: bool) {
        *self == KeyState::WasPressed
    }

    fn was_released(&self) -> (r: bool) {
        *self == KeyState::WasReleased
    }

    fn is_pressed(&self) -> (r: bool) {
        *self == KeyState::Pressed || *self == KeyState::WasPressed
    }

    fn is_released(&self) -> (r: bool) {
        *self == KeyState::Released || *self == KeyState::WasReleased
    }
}

impl Default for KeyState {
    fn default() -> (r: Self)
        ensures
            r == KeyState::Released,
    {
        KeyState::Released
    }
}

// Mouse ----------------------------------------------------------------------

/// The mouse buttons the game tells apart.
#[derive(Debug, PartialEq, Eq, Structural, Clone, Copy)]
pub enum Button {
    Left,
    Right,
    Unknown,
}

/// Number of slots a mouse state needs to hold every [`Button`].
pub const BUTTON_SLOTS: usize = 3;

impl Button {
    pub open spec fn spec_index(self) -> nat {
        match self {
            Button::Left => 0,
            Button::Right => 1,
            Button::Unknown => 2,
        }
    }

    pub fn index(self) -> (r: usize)
        ensures
            r == self.spec_index(),
            r < BUTTON_SLOTS,
    {
        match self {
            Button::Left => 0,
            Button::Right => 1,
            Button::Unknown => 2,
        }
    }
}

impl InputIndex for Button {
    open spec fn spec_slot(&self) -> nat {
        self.spec_index()
    }

    fn slot(self) -> (r: usize) {
        self.index()
    }
}

/// A button's state together with the cursor position of its last event.
#[derive(Debug, PartialEq, Eq, Structural, Copy, Clone)]
pub enum ButtonState {
    WasPressed(i32, i32),
    Pressed(i32, i32),
    WasReleased(i32, i32),
    Released(i32, i32),
    Position(i32, i32),
}

impl ButtonState {
    pub open spec fn spec_position(self) -> (i32, i32) {
        match self {
            ButtonState::WasPressed(x, y) => (x, y),
            ButtonState::Pressed(x, y) => (x, y),
            ButtonState::WasReleased(x, y) => (x, y),
            ButtonState::Released(x, y) => (x, y),
            ButtonState::Position(x, y) => (x, y),
        }
    }

    pub fn position(&self) -> (r: (i32, i32))
        ensures
            r == self.spec_position(),
    {
        match *self {
            ButtonState::WasPressed(x, y) => (x, y),
            ButtonState::Pressed(x, y) => (x, y),
            ButtonState::WasReleased(x, y) => (x, y),
            ButtonState::Released(x, y) => (x, y),
            ButtonState::Position(x, y) => (x, y),
        }
    }
}

impl AdvanceableState for ButtonState {
    open spec fn advanced(&self) -> Self {
        match *self {
            ButtonState::WasReleased(x, y) => ButtonState::Released(x, y),
            ButtonState::WasPressed(x, y) => ButtonState::Pressed(x, y),
            _ => *self,
        }
    }

    open spec fn after_reset(&self) -> Self {
        match *self {
            ButtonState::Pressed(x, y) => ButtonState::WasReleased(x, y),
            _ => *self,
        }
    }

    open spec fn initial_state() -> Self {
        ButtonState::Released(-1i32, -1i32)
    }

    open spec fn spec_was_pressed(&self) -> bool {
        *self is WasPressed
    }

    open spec fn spec_was_released(&self) -> bool {
        *self is WasReleased
    }

    open spec fn spec_is_pressed(&self) -> bool {
        *self is Pressed || *self is WasPressed
    }

    open spec fn spec_is_released(&self) -> bool {
        *self is Released || *self is WasReleased
    }

    fn initial() -> (r: Self) {
        ButtonState::Released(-1i32, -1i32)
    }

    fn advance(&self) -> (r: Self) {
        match *self {
            ButtonState::WasReleased(x, y) => ButtonState::Released(x, y),
            ButtonState::WasPressed(x, y) => ButtonState::Pressed(x, y),
            _ => *self,
        }
    }

    fn reset(&self) -> (r: Self) {
        match *self {
            ButtonState::Pressed(x, y) => ButtonState::WasReleased(x, y),
            _ => *self,
        }
    }

    fn was_pressed(&self) -> (r: bool) {
        if let ButtonState::WasPressed(_, _) = *self {
            true
        } else {
            false
        }
    }

    fn was_released(&self) -> (r: bool) {
        if let ButtonState::WasReleased(_, _) = *self {
            true
        } else {
            false
        }
    }

    fn is_pressed(&self) -> (r: bool) {
        if let ButtonState::Pressed(_, _) = *self {
            true
        } else {
            self.was_pressed()
        }
    }

    fn is_released(&self) -> (r: bool) {
        if let ButtonState::Released(_, _) = *self {
            true
        } else {
            self.was_released()
        }
    }
}

impl Default for ButtonState {
    fn default() -> (r: Self)
        ensures
            r == ButtonState::Released(-1i32, -1i32),
    {
        ButtonState::Released(-1i32, -1i32)
    }
}

// Input state ----------------------------------------------------------------

/// One state per slot, indexed by `I`, plus a custom value (the cursor
/// position for a mouse).
pub struct InputState<I, T, C> {
    index: PhantomData<I>,
    fields: Vec<T>,
    custom: C,
}

pub type Keyboard = InputState<Key, KeyState, ()>;

pub type Mouse = InputState<Button, ButtonState, (i32, i32)>;

impl<I, T, C> View for InputState<I, T, C> {
    type V = Seq<T>;

    closed spec fn view(&self) -> Seq<T> {
        self.fields@
    }
}

impl<I, T, C> InputState<I, T, C> {
    /// The custom value held beside the states.
    pub closed spec fn extra(&self) -> C {
        self.custom
    }
}

impl<I: InputIndex, T: AdvanceableState + Copy, C> InputState<I, T, C> {
    /// `size` slots, each in the initial state.
    pub fn new(size: usize, custom: C) -> (r: Self)
        ensures
            r@ == Seq::new(size as nat, |i: int| T::initial_state()),
            r.extra() == custom,
    {
        let mut fields: Vec<T> = Vec::new();
        let mut n: usize = 0;
        while n < size
            invariant
                n <= size,
                fields@ == Seq::new(n as nat, |i: int| T::initial_state()),
            decreases size - n,
        {
            fields.push(T::initial());
            n = n + 1;
            assert(fields@ =~= Seq::new(n as nat, |i: int| T::initial_state()));
        }
        InputState { index: PhantomData, fields, custom }
    }

    /// Number of slots.
    pub fn len(&self) -> (r: usize)
        ensures
            r == self@.len(),
    {
        self.fields.len()
    }

    pub fn was_pressed(&self, index: I) -> (r: bool)
        requires
            index.spec_slot() < self@.len(),
        ensures
            r == self@[index.spec_slot() as int].spec_was_pressed(),
    {
        self.fields[index.slot()].was_pressed()
    }

    pub fn is_pressed(&self, index: I) -> (r: bool)
        requires
            index.spec_slot() < self@.len(),
        ensures
            r == self@[index.spec_slot() as int].spec_is_pressed(),
    {
        self.fields[index.slot()].is_pressed()
    }

    pub fn was_released(&self, index: I) -> (r: bool)
        requires
            index.spec_slot() < self@.len(),
        ensures
            r == self@[index.spec_slot() as int].spec_was_released(),
    {
        self.fields[index.slot()].was_released()
    }

    pub fn is_released(&self, index: I) -> (r: bool)
        requires
            index.spec_slot() < self@.len(),
        ensures
            r == self@[index.spec_slot() as int].spec_is_released(),
    {
        self.fields[index.slot()].is_released()
    }

    /// Records an event for one slot.
    pub fn set(&mut self, index: I, to: T)
        requires
            index.spec_slot() < old(self)@.len(),
        ensures
            final(self)@ == old(self)@.update(index.spec_slot() as int, to),
            final(self).extra() == old(self).extra(),
    {
        let i = index.slot();
        self.fields.set(i, to);
    }

    /// Moves every slot on by one frame.
    pub fn advance(&mut self)
        ensures
            final(self)@ == old(self)@.map_values(|s: T| s.advanced()),
            final(self).extra() == old(self).extra(),
    {
        let n = self.fields.len();
        let mut i: usize = 0;
        while i < n
            invariant
                i <= n,
                n == old(self)@.len(),
                self@.len() == n,
                self.extra() == old(self).extra(),
                forall|j: int| 0 <= j < i ==> self@[j] == old(self)@[j].advanced(),
                forall|j: int| i <= j < n ==> self@[j] == old(self)@[j],
            decreases n - i,
        {
            let s = self.fields[i].advance();
            self.fields.set(i, s);
            i = i + 1;
        }
        assert(self@ =~= old(self)@.map_values(|s: T| s.advanced()));
    }

    /// Releases every held slot, as after the window lost focus.
    pub fn reset(&mut self)
        ensures
            final(self)@ == old(self)@.map_values(|s: T| s.after_reset()),
            final(self).extra() == old(self).extra(),
    {
        let n = self.fields.len();
        let mut i: usize = 0;
        while i < n
            invariant
                i <= n,
                n == old(self)@.len(),
                self@.len() == n,
                self.extra() == old(self).extra(),
                forall|j: int| 0 <= j < i ==> self@[j] == old(self)@[j].after_reset(),
                forall|j: int| i <= j < n ==> self@[j] == old(self)@[j],
            decreases n - i,
        {
            let s = self.fields[i].reset();
            self.fields.set(i, s);
            i = i + 1;
        }
        assert(self@ =~= old(self)@.map_values(|s: T| s.after_reset()));
    }

    pub fn get(&self, index: I) -> (r: &T)
        requires
            index.spec_slot() < self@.len(),
        ensures
            *r == self@[index.spec_slot() as int],
    {
        &self.fields[index.slot()]
    }
}

impl InputState<Button, ButtonState, (i32, i32)> {
    pub fn set_position(&mut self, position: (i32, i32))
        ensures
            final(self)@ == old(self)@,
            final(self).extra() == position,
    {
        self.custom = position;
    }

    pub fn position(&self) -> (r: (i32, i32))
        ensures
            r == self.extra(),
    {
        self.custom
    }
}

} // verus!
