use vstd::prelude::*;

verus! {

/// Number of ids in the standard-key namespace (letters, digits, keypad digits).
pub const STANDARD_KEY_COUNT: usize = 46;

/// Number of ids in the modifier-key namespace (shift and control, left and right).
pub const MODIFIER_KEY_COUNT: usize = 4;

/// Number of ids in the mouse-button namespace.
pub const MOUSE_BUTTON_COUNT: usize = 10;

/// The three independent id spaces of the key catalog.
#[derive(Clone, Copy, Debug, PartialEq, Eq, Structural)]
pub enum Namespace {
    Standard,
    Modifier,
    Mouse,
}

impl Namespace {
    /// How many ids the namespace holds; valid ids are `0..key_count()`.
    pub open spec fn spec_key_count(self) -> nat {
        match self {
            Namespace::Standard => STANDARD_KEY_COUNT as nat,
            Namespace::Modifier => MODIFIER_KEY_COUNT as nat,
            Namespace::Mouse => MOUSE_BUTTON_COUNT as nat,
        }
    }

    pub fn key_count(&self) -> (r: usize)
        ensures
            r == self.spec_key_count(),
    {
        match self {
            Namespace::Standard => STANDARD_KEY_COUNT,
            Namespace::Modifier => MODIFIER_KEY_COUNT,
            Namespace::Mouse => MOUSE_BUTTON_COUNT,
        }
    }
}

/// Standard keys: letters, then the digit row, then the keypad digits.
#[allow(non_camel_case_types)]
#[derive(Clone, Copy, Debug, PartialEq, Eq, Structural)]
pub enum KSK {
    A,
    B,
    C,
    D,
    E,
    F,
    G,
    H,
    I,
    J,
    K,
    L,
    M,
    N,
    O,
    P,
    Q,
    R,
    S,
    T,
    U,
    V,
    W,
    X,
    Y,
    Z,
    ZERO,
    ONE,
    TWO,
    THREE,
    FOUR,
    FIVE,
    SIX,
    SEVEN,
    EIGHT,
    NINE,
    NUMPAD_ZERO,
    NUMPAD_ONE,
    NUMPAD_TWO,
    NUMPAD_THREE,
    NUMPAD_FOUR,
    NUMPAD_FIVE,
    NUMPAD_SIX,
    NUMPAD_SEVEN,
    NUMPAD_EIGHT,
    NUMPAD_NINE,
}

impl KSK {
    /// The key's id within its namespace: its position in the declaration.
    pub open spec fn spec_id(self) -> nat {
        match self {
            KSK::A => 0,
            KSK::B => 1,
            KSK::C => 2,
            KSK::D => 3,
            KSK::E => 4,
            KSK::F => 5,
            KSK::G => 6,
            KSK::H => 7,
            KSK::I => 8,
            KSK::J => 9,
            KSK::K => 10,
            KSK::L => 11,
            KSK::M => 12,
            KSK::N => 13,
            KSK::O => 14,
            KSK::P => 15,
            KSK::Q => 16,
            KSK::R => 17,
            KSK::S => 18,
            KSK::T => 19,
            KSK::U => 20,
            KSK::V => 21,
            KSK::W => 22,
            KSK::X => 23,
            KSK::Y => 24,
            KSK::Z => 25,
            KSK::ZERO => 26,
            KSK::ONE => 27,
            KSK::TWO => 28,
            KSK::THREE => 29,
            KSK::FOUR => 30,
            KSK::FIVE => 31,
            KSK::SIX => 32,
            KSK::SEVEN => 33,
            KSK::EIGHT => 34,
            KSK::NINE => 35,
            KSK::NUMPAD_ZERO => 36,
            KSK::NUMPAD_ONE => 37,
            KSK::NUMPAD_TWO => 38,
            KSK::NUMPAD_THREE => 39,
            KSK::NUMPAD_FOUR => 40,
            KSK::NUMPAD_FIVE => 41,
            KSK::NUMPAD_SIX => 42,
            KSK::NUMPAD_SEVEN => 43,
            KSK::NUMPAD_EIGHT => 44,
            KSK::NUMPAD_NINE => 45,
        }
    }

    pub fn id(&self) -> (r: u64)
        ensures
            r == self.spec_id(),
            r < STANDARD_KEY_COUNT,
    {
        match self {
            KSK::A => 0,
            KSK::B => 1,
            KSK::C => 2,
            KSK::D => 3,
            KSK::E => 4,
            KSK::F => 5,
            KSK::G => 6,
            KSK::H => 7,
            KSK::I => 8,
            KSK::J => 9,
            KSK::K => 10,
            KSK::L => 11,
            KSK::M => 12,
            KSK::N => 13,
            KSK::O => 14,
            KSK::P => 15,
            KSK::Q => 16,
            KSK::R => 17,
            KSK::S => 18,
            KSK::T => 19,
            KSK::U => 20,
            KSK::V => 21,
            KSK::W => 22,
            KSK::X => 23,
            KSK::Y => 24,
            KSK::Z => 25,
            KSK::ZERO => 26,
            KSK::ONE => 27,
            KSK::TWO => 28,
            KSK::THREE => 29,
            KSK::FOUR => 30,
            KSK::FIVE => 31,
            KSK::SIX => 32,
            KSK::SEVEN => 33,
            KSK::EIGHT => 34,
            KSK::NINE => 35,
            KSK::NUMPAD_ZERO => 36,
            KSK::NUMPAD_ONE => 37,
            KSK::NUMPAD_TWO => 38,
            KSK::NUMPAD_THREE => 39,
            KSK::NUMPAD_FOUR => 40,
            KSK::NUMPAD_FIVE => 41,
            KSK::NUMPAD_SIX => 42,
            KSK::NUMPAD_SEVEN => 43,
            KSK::NUMPAD_EIGHT => 44,
            KSK::NUMPAD_NINE => 45,
        }
    }
}

/// Modifier keys.
#[allow(non_camel_case_types)]
#[derive(Clone, Copy, Debug, PartialEq, Eq, Structural)]
pub enum KMK {
    LShift,
    RShift,
    LControl,
    RControl,
}

impl KMK {
    /// The key's id within its namespace: its position in the declaration.
    pub open spec fn spec_id(self) -> nat {
        match self {
            KMK::LShift => 0,
            KMK::RShift => 1,
            KMK::LControl => 2,
            KMK::RControl => 3,
        }
    }

    pub fn id(&self) -> (r: u32)
        ensures
            r == self.spec_id(),
            r < MODIFIER_KEY_COUNT,
    {
        match self {
            KMK::LShift => 0,
            KMK::RShift => 1,
            KMK::LControl => 2,
            KMK::RControl => 3,
        }
    }
}

/// Mouse buttons, `M1` being the first (left) button.
#[allow(non_camel_case_types)]
#[derive(Clone, Copy, Debug, PartialEq, Eq, Structural)]
pub enum KMB {
    M1,
    M2,
    M3,
    M4,
    M5,
    M6,
    M7,
    M8,
    M9,
    M10,
}

impl KMB {
    /// The key's id within its namespace: its position in the declaration.
    pub open spec fn spec_id(self) -> nat {
        match self {
            KMB::M1 => 0,
            KMB::M2 => 1,
            KMB::M3 => 2,
            KMB::M4 => 3,
            KMB::M5 => 4,
            KMB::M6 => 5,
            KMB::M7 => 6,
            KMB::M8 => 7,
            KMB::M9 => 8,
            KMB::M10 => 9,
        }
    }

    pub fn id(&self) -> (r: u16)
        ensures
            r == self.spec_id(),
            r < MOUSE_BUTTON_COUNT,
    {
        match self {
            KMB::M1 => 0,
            KMB::M2 => 1,
            KMB::M3 => 2,
            KMB::M4 => 3,
            KMB::M5 => 4,
            KMB::M6 => 5,
            KMB::M7 => 6,
            KMB::M8 => 7,
            KMB::M9 => 8,
            KMB::M10 => 9,
        }
    }
}

} // verus!
