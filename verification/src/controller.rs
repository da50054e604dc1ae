//! Joypads. A controller is read one button at a time: the `clock`-th read
//! reports button `clock % 8` (A, B, Select, Start, Up, Down, Left, Right).

use vstd::prelude::*;
use crate::cpu::spec_set_flag;

verus! {

/// Something plugged into a controller port.
pub trait Controller: Sized {
    /// Reads leave a controller of this kind as it is.
    spec fn reads_keep_state() -> bool;

    /// `bit` is what the `clock`-th read of this controller may report.
    spec fn reports(&self, clock: u64, bit: u8) -> bool;

    /// The bit reported by the `clock`-th read of the port (0 or 1).
    fn read(&mut self, clock: u64) -> (r: u8)
        ensures
            old(self).reports(clock, r),
            Self::reads_keep_state() ==> *final(self) == *old(self),
    ;
}

/// An empty port: every read is 0.
pub struct NoController;

impl Default for NoController {
    fn default() -> (r: NoController) {
        NoController
    }
}

impl Controller for NoController {
    open spec fn reads_keep_state() -> bool {
        true
    }

    /// An empty port reports 0.
    open spec fn reports(&self, clock: u64, bit: u8) -> bool {
        bit == 0
    }

    fn read(&mut self, clock: u64) -> (r: u8) {
        0
    }
}

/// The set of held buttons, one bit per button.
pub struct ControllerFlags(u8);

impl View for ControllerFlags {
    type V = u8;

    closed spec fn view(&self) -> u8 {
        self.0
    }
}

impl Default for ControllerFlags {
    fn default() -> (r: ControllerFlags)
        ensures
            r@ == 0,
    {
        ControllerFlags(0)
    }
}

impl ControllerFlags {
    pub const A: u8 = 0b0000_0001;
    pub const B: u8 = 0b0000_0010;
    pub const SELECT: u8 = 0b0000_0100;
    pub const START: u8 = 0b0000_1000;
    pub const UP: u8 = 0b0001_0000;
    pub const DOWN: u8 = 0b0010_0000;
    pub const LEFT: u8 = 0b0100_0000;
    pub const RIGHT: u8 = 0b1000_0000;

    /// No button held.
    pub fn empty() -> (r: ControllerFlags)
        ensures
            r@ == 0,
    {
        ControllerFlags(0)
    }

    /// The flags whose bits are exactly `bits`.
    pub fn from_bits_retain(bits: u8) -> (r: ControllerFlags)
        ensures
            r@ == bits,
    {
        ControllerFlags(bits)
    }

    pub fn bits(&self) -> (r: u8)
        ensures
            r == self@,
    {
        self.0
    }

    /// Every bit of `flag` is held.
    pub fn contains(&self, flag: u8) -> (r: bool)
        ensures
            r == (self@ & flag == flag),
    {
        self.0 & flag == flag
    }

    /// Holds the bits of `flag` as well.
    pub fn insert(&mut self, flag: u8)
        ensures
            final(self)@ == old(self)@ | flag,
    {
        self.0 = self.0 | flag;
    }

    /// Releases the bits of `flag`.
    pub fn remove(&mut self, flag: u8)
        ensures
            final(self)@ == old(self)@ & !flag,
    {
        self.0 = self.0 & !flag;
    }

    /// Holds or releases the bits of `flag`, as `value` says.
    pub fn set(&mut self, flag: u8, value: bool)
        ensures
            final(self)@ == spec_set_flag(old(self)@, flag, value),
    {
        if value {
            self.insert(flag)
        } else {
            self.remove(flag)
        }
    }
}

/// A standard joypad whose held buttons are set from outside.
pub struct GenericController {
    flags: ControllerFlags,
}

impl View for GenericController {
    type V = u8;

    closed spec fn view(&self) -> u8 {
        self.flags@
    }
}

impl Default for GenericController {
    fn default() -> (r: GenericController)
        ensures
            r@ == 0,
    {
        GenericController { flags: ControllerFlags::empty() }
    }
}

/// The bit that a joypad holding `flags` reports on its `clock`-th read.
pub open spec fn spec_button_bit(flags: u8, clock: u64) -> u8 {
    if flags & (1u8 << ((clock % 8) as u8)) != 0 { 1 } else { 0 }
}

impl GenericController {
    /// Replaces the held buttons with `flags`.
    pub fn press(&mut self, flags: ControllerFlags)
        ensures
            final(self)@ == flags@,
    {
        self.flags = flags
    }

    /// Holds or releases the buttons of `flag`.
    pub fn set(&mut self, flag: u8, value: bool)
        ensures
            final(self)@ == spec_set_flag(old(self)@, flag, value),
    {
        self.flags.set(flag, value)
    }
}

impl Controller for GenericController {
    open spec fn reads_keep_state() -> bool {
        true
    }

    /// A joypad reports the button that `clock` selects: 1 if it is held.
    open spec fn reports(&self, clock: u64, bit: u8) -> bool {
        bit == spec_button_bit(self@, clock)
    }

    fn read(&mut self, clock: u64) -> (r: u8)
        ensures
            r == spec_button_bit(old(self)@, clock),
            final(self)@ == old(self)@,
    {
        let shift: u8 = (clock % 8) as u8;
        if self.flags.0 & (1u8 << shift) != 0 {
            1
        } else {
            0
        }
    }
}

/// A held button reads as held, and a released one as released; the other
/// buttons are untouched.
pub proof fn lemma_hold_and_release(flags: u8, button: u8, other: u8)
    requires
        button == ControllerFlags::A || button == ControllerFlags::B || button == ControllerFlags::SELECT || button
            == ControllerFlags::START || button == ControllerFlags::UP || button == ControllerFlags::DOWN || button
            == ControllerFlags::LEFT || button == ControllerFlags::RIGHT,
        other & button == 0,
    ensures
        (flags | button) & button == button,
        (flags & !button) & button != button,
        (flags | button) & other == flags & other,
        (flags & !button) & other == flags & other,
{
    assert(button != 0 ==> (flags & !button) & button != button) by (bit_vector);
    assert((flags | button) & button == button) by (bit_vector);
    assert(other & button == 0 ==> (flags | button) & other == flags & other) by (bit_vector);
    assert(other & button == 0 ==> (flags & !button) & other == flags & other) by (bit_vector);
}

/// A joypad reports button `k` (bit `k` of its flags) on every read whose
/// clock is `k` modulo 8: eight reads from a multiple of 8 give all eight buttons in order.
pub proof fn lemma_joypad_reports_buttons(flags: u8, clock: u64)
    ensures
        spec_button_bit(flags, clock) == (flags >> ((clock % 8) as u8)) & 1,
{
    let k = (clock % 8) as u8;
    assert(k < 8);
    assert(k < 8 ==> ((flags & (1u8 << k) != 0) == ((flags >> k) & 1 == 1))) by (bit_vector);
    assert(((flags >> k) & 1 == 1) || ((flags >> k) & 1 == 0)) by (bit_vector);
}

/// Pressing a set of buttons is the same as setting each of the eight buttons,
/// one after the other, to whether the set holds it: whatever was held before
/// is forgotten.
pub proof fn lemma_press_is_eight_sets(held: u8, flags: u8)
    ensures
        spec_set_flag(
            spec_set_flag(
                spec_set_flag(
                    spec_set_flag(
                        spec_set_flag(
                            spec_set_flag(
                                spec_set_flag(
                                    spec_set_flag(held, ControllerFlags::A, flags & ControllerFlags::A == ControllerFlags::A),
                                    ControllerFlags::B,
                                    flags & ControllerFlags::B == ControllerFlags::B,
                                ),
                                ControllerFlags::SELECT,
                                flags & ControllerFlags::SELECT == ControllerFlags::SELECT,
                            ),
                            ControllerFlags::START,
                            flags & ControllerFlags::START == ControllerFlags::START,
                        ),
                        ControllerFlags::UP,
                        flags & ControllerFlags::UP == ControllerFlags::UP,
                    ),
                    ControllerFlags::DOWN,
                    flags & ControllerFlags::DOWN == ControllerFlags::DOWN,
                ),
                ControllerFlags::LEFT,
                flags & ControllerFlags::LEFT == ControllerFlags::LEFT,
            ),
            ControllerFlags::RIGHT,
            flags & ControllerFlags::RIGHT == ControllerFlags::RIGHT,
        ) == flags,
{
    let s1: u8 = if flags & 1u8 == 1u8 { held | 1u8 } else { held & !1u8 };
    let s2: u8 = if flags & 2u8 == 2u8 { s1 | 2u8 } else { s1 & !2u8 };
    let s3: u8 = if flags & 4u8 == 4u8 { s2 | 4u8 } else { s2 & !4u8 };
    let s4: u8 = if flags & 8u8 == 8u8 { s3 | 8u8 } else { s3 & !8u8 };
    let s5: u8 = if flags & 16u8 == 16u8 { s4 | 16u8 } else { s4 & !16u8 };
    let s6: u8 = if flags & 32u8 == 32u8 { s5 | 32u8 } else { s5 & !32u8 };
    let s7: u8 = if flags & 64u8 == 64u8 { s6 | 64u8 } else { s6 & !64u8 };
    let s8: u8 = if flags & 128u8 == 128u8 { s7 | 128u8 } else { s7 & !128u8 };
    assert(s8 == flags) by (bit_vector)
        requires
            s1 == (if flags & 1u8 == 1u8 { held | 1u8 } else { held & !1u8 }),
            s2 == (if flags & 2u8 == 2u8 { s1 | 2u8 } else { s1 & !2u8 }),
            s3 == (if flags & 4u8 == 4u8 { s2 | 4u8 } else { s2 & !4u8 }),
            s4 == (if flags & 8u8 == 8u8 { s3 | 8u8 } else { s3 & !8u8 }),
            s5 == (if flags & 16u8 == 16u8 { s4 | 16u8 } else { s4 & !16u8 }),
            s6 == (if flags & 32u8 == 32u8 { s5 | 32u8 } else { s5 & !32u8 }),
            s7 == (if flags & 64u8 == 64u8 { s6 | 64u8 } else { s6 & !64u8 }),
            s8 == (if flags & 128u8 == 128u8 { s7 | 128u8 } else { s7 & !128u8 }),
    ;
}

} // verus!
