//! The sixteen-key hex keypad and the host keyboard keys that stand for it.
use vstd::prelude::*;

verus! {

/// A key of the host keyboard that the emulator listens to.
///
/// The variants are listed in layout order: the four rows `1 2 3 4`,
/// `Q W E R`, `A S D F` and `Z X C V`, left to right.
#[derive(Clone, Copy, Debug, PartialEq, Eq, Structural)]
pub enum HostKey {
    Num1,
    Num2,
    Num3,
    Num4,
    Q,
    W,
    E,
    R,
    A,
    S,
    D,
    F,
    Z,
    X,
    C,
    V,
}

impl HostKey {
    /// The hex keypad value that this host key stands for.
    pub open spec fn spec_keypad_value(self) -> u8 {
        match self {
            HostKey::Num1 => 0x1,
            HostKey::Num2 => 0x2,
            HostKey::Num3 => 0x3,
            HostKey::Num4 => 0xC,
            HostKey::Q => 0x4,
            HostKey::W => 0x5,
            HostKey::E => 0x6,
            HostKey::R => 0xD,
            HostKey::A => 0x7,
            HostKey::S => 0x8,
            HostKey::D => 0x9,
            HostKey::F => 0xE,
            HostKey::Z => 0xA,
            HostKey::X => 0x0,
            HostKey::C => 0xB,
            HostKey::V => 0xF,
        }
    }

    /// Position of the key in the layout order (row by row, left to right).
    pub open spec fn layout_index(self) -> int {
        match self {
            HostKey::Num1 => 0,
            HostKey::Num2 => 1,
            HostKey::Num3 => 2,
            HostKey::Num4 => 3,
            HostKey::Q => 4,
            HostKey::W => 5,
            HostKey::E => 6,
            HostKey::R => 7,
            HostKey::A => 8,
            HostKey::S => 9,
            HostKey::D => 10,
            HostKey::F => 11,
            HostKey::Z => 12,
            HostKey::X => 13,
            HostKey::C => 14,
            HostKey::V => 15,
        }
    }

    /// The key at a position of the layout order; positions past 15 give `V`.
    pub open spec fn spec_at_layout_index(i: int) -> HostKey {
        if i == 0 {
            HostKey::Num1
        } else if i == 1 {
            HostKey::Num2
        } else if i == 2 {
            HostKey::Num3
        } else if i == 3 {
            HostKey::Num4
        } else if i == 4 {
            HostKey::Q
        } else if i == 5 {
            HostKey::W
        } else if i == 6 {
            HostKey::E
        } else if i == 7 {
            HostKey::R
        } else if i == 8 {
            HostKey::A
        } else if i == 9 {
            HostKey::S
        } else if i == 10 {
            HostKey::D
        } else if i == 11 {
            HostKey::F
        } else if i == 12 {
            HostKey::Z
        } else if i == 13 {
            HostKey::X
        } else if i == 14 {
            HostKey::C
        } else {
            HostKey::V
        }
    }

    /// The host key that stands for a keypad value; values past 15 give `V`.
    pub open spec fn for_keypad_value(value: u8) -> HostKey {
        if value == 0x0 {
            HostKey::X
        } else if value == 0x1 {
            HostKey::Num1
        } else if value == 0x2 {
            HostKey::Num2
        } else if value == 0x3 {
            HostKey::Num3
        } else if value == 0x4 {
            HostKey::Q
        } else if value == 0x5 {
            HostKey::W
        } else if value == 0x6 {
            HostKey::E
        } else if value == 0x7 {
            HostKey::A
        } else if value == 0x8 {
            HostKey::S
        } else if value == 0x9 {
            HostKey::D
        } else if value == 0xA {
            HostKey::Z
        } else if value == 0xB {
            HostKey::C
        } else if value == 0xC {
            HostKey::Num4
        } else if value == 0xD {
            HostKey::R
        } else if value == 0xE {
            HostKey::F
        } else {
            HostKey::V
        }
    }

    /// The hex keypad value that this host key stands for.
    #[verifier::when_used_as_spec(spec_keypad_value)]
    pub fn keypad_value(self) -> (value: u8)
        ensures
            value == self.spec_keypad_value(),
            value < 16,
    {
        match self {
            HostKey::Num1 => 0x1,
            HostKey::Num2 => 0x2,
            HostKey::Num3 => 0x3,
            HostKey::Num4 => 0xC,
            HostKey::Q => 0x4,
            HostKey::W => 0x5,
            HostKey::E => 0x6,
            HostKey::R => 0xD,
            HostKey::A => 0x7,
            HostKey::S => 0x8,
            HostKey::D => 0x9,
            HostKey::F => 0xE,
            HostKey::Z => 0xA,
            HostKey::X => 0x0,
            HostKey::C => 0xB,
            HostKey::V => 0xF,
        }
    }

    /// The host key at position `i` of the layout order.
    pub fn at_layout_index(i: usize) -> (key: HostKey)
        requires
            i < 16,
        ensures
            key == HostKey::spec_at_layout_index(i as int),
            key.layout_index() == i,
    {
        if i == 0 {
            HostKey::Num1
        } else if i == 1 {
            HostKey::Num2
        } else if i == 2 {
            HostKey::Num3
        } else if i == 3 {
            HostKey::Num4
        } else if i == 4 {
            HostKey::Q
        } else if i == 5 {
            HostKey::W
        } else if i == 6 {
            HostKey::E
        } else if i == 7 {
            HostKey::R
        } else if i == 8 {
            HostKey::A
        } else if i == 9 {
            HostKey::S
        } else if i == 10 {
            HostKey::D
        } else if i == 11 {
            HostKey::F
        } else if i == 12 {
            HostKey::Z
        } else if i == 13 {
            HostKey::X
        } else if i == 14 {
            HostKey::C
        } else {
            HostKey::V
        }
    }
}

/// The mapping from host keys to keypad values is a bijection onto the
/// sixteen keypad values `0x0..=0xF`: every host key names a keypad value,
/// no two host keys name the same one, and every keypad value is named.
pub proof fn lemma_keypad_mapping_is_bijection()
    ensures
        forall|k: HostKey| (#[trigger] k.spec_keypad_value()) < 16,
        forall|k: HostKey| #[trigger] HostKey::for_keypad_value(k.spec_keypad_value()) == k,
        forall|value: u8|
            value < 16 ==> (#[trigger] HostKey::for_keypad_value(value)).spec_keypad_value()
                == value,
        forall|a: HostKey, b: HostKey|
            a.spec_keypad_value() == b.spec_keypad_value() ==> a == b,
{
    assert forall|a: HostKey, b: HostKey|
        a.spec_keypad_value() == b.spec_keypad_value() implies a == b by {
        assert(HostKey::for_keypad_value(a.spec_keypad_value()) == a);
        assert(HostKey::for_keypad_value(b.spec_keypad_value()) == b);
    }
}

/// The layout order lists every host key exactly once.
pub proof fn lemma_layout_order_is_bijection()
    ensures
        forall|k: HostKey| 0 <= #[trigger] k.layout_index() < 16,
        forall|k: HostKey| #[trigger] HostKey::spec_at_layout_index(k.layout_index()) == k,
        forall|i: int|
            0 <= i < 16 ==> (#[trigger] HostKey::spec_at_layout_index(i)).layout_index() == i,
{
}

} // verus!
