//! Value-level model of the GPIO port that drives the user LEDs.
//!
//! Each pin of the port is a type of its own (`PC0` .. `PC3`), generic
//! over a marker that records its electrical configuration. A pin starts
//! in the reset configuration and can be moved into open-drain output
//! mode; only a pin in that mode offers the drive and read primitives.
//! The mode discipline is therefore checked at compile time and is never
//! re-validated at run time.
//!
//! `downgrade` erases the static position of a pin into the single
//! runtime-indexed handle type [`PC`], so that pins of different
//! positions can share one container. The dynamic pin identity and the
//! line's drive level are preserved.
//!
//! The model keeps, for every pin, exactly what the LED layer observes:
//! which line it is and whether the line is currently driven high. The
//! register accesses themselves are out of scope, so the drive and read
//! primitives of this model cannot fail; they keep the fallible
//! signatures of a hardware access so that callers must still decide
//! what a fault would mean to them.

use vstd::prelude::*;

verus! {

/// Marker: the reset configuration of a pin, before any mode transition.
pub struct Floating;

/// Marker: input mode with pull configuration `MODE`.
pub struct Input<MODE> {
    mode: MODE,
}

/// Marker: open-drain drive — the pin either pulls the line low or
/// releases it and lets the external pull set it high.
pub struct OpenDrain;

/// Marker: output mode with drive configuration `MODE`.
pub struct Output<MODE> {
    mode: MODE,
}

/// The one hardware fault kind of this boundary: a failed register
/// access while driving or reading a line. The value-level model never
/// produces it, but callers of the pin primitives still see it in the
/// signatures and must choose how to treat it.
pub struct PinError;

/// Pin 0 of the port, in configuration `MODE`.
pub struct PC0<MODE> {
    high: bool,
    mode: MODE,
}

/// Pin 1 of the port, in configuration `MODE`.
pub struct PC1<MODE> {
    high: bool,
    mode: MODE,
}

/// Pin 2 of the port, in configuration `MODE`.
pub struct PC2<MODE> {
    high: bool,
    mode: MODE,
}

/// Pin 3 of the port, in configuration `MODE`.
pub struct PC3<MODE> {
    high: bool,
    mode: MODE,
}

/// A pin of the port identified at run time: which line it is and its
/// current drive level, with the static position erased.
pub struct PC<MODE> {
    i: u8,
    high: bool,
    mode: MODE,
}

impl<MODE> PC0<MODE> {
    /// Whether the line is currently high.
    pub closed spec fn level_high(&self) -> bool {
        self.high
    }

    /// Moves the pin into open-drain output mode. The line level is not
    /// touched by the transition.
    pub fn into_open_drain_output(self) -> (r: PC0<Output<OpenDrain>>)
        ensures
            r.level_high() == self.level_high(),
    {
        PC0 { high: self.high, mode: Output { mode: OpenDrain } }
    }

    /// Erases the static position: the result is the runtime handle for
    /// line 0, at the same level and in the same mode.
    pub fn downgrade(self) -> (r: PC<MODE>)
        ensures
            r.pin_index() == 0,
            r.level_high() == self.level_high(),
    {
        PC { i: 0, high: self.high, mode: self.mode }
    }
}

impl<MODE> PC1<MODE> {
    /// Whether the line is currently high.
    pub closed spec fn level_high(&self) -> bool {
        self.high
    }

    /// Moves the pin into open-drain output mode. The line level is not
    /// touched by the transition.
    pub fn into_open_drain_output(self) -> (r: PC1<Output<OpenDrain>>)
        ensures
            r.level_high() == self.level_high(),
    {
        PC1 { high: self.high, mode: Output { mode: OpenDrain } }
    }

    /// Erases the static position: the result is the runtime handle for
    /// line 1, at the same level and in the same mode.
    pub fn downgrade(self) -> (r: PC<MODE>)
        ensures
            r.pin_index() == 1,
            r.level_high() == self.level_high(),
    {
        PC { i: 1, high: self.high, mode: self.mode }
    }
}

impl<MODE> PC2<MODE> {
    /// Whether the line is currently high.
    pub closed spec fn level_high(&self) -> bool {
        self.high
    }

    /// Moves the pin into open-drain output mode. The line level is not
    /// touched by the transition.
    pub fn into_open_drain_output(self) -> (r: PC2<Output<OpenDrain>>)
        ensures
            r.level_high() == self.level_high(),
    {
        PC2 { high: self.high, mode: Output { mode: OpenDrain } }
    }

    /// Erases the static position: the result is the runtime handle for
    /// line 2, at the same level and in the same mode.
    pub fn downgrade(self) -> (r: PC<MODE>)
        ensures
            r.pin_index() == 2,
            r.level_high() == self.level_high(),
    {
        PC { i: 2, high: self.high, mode: self.mode }
    }
}

impl<MODE> PC3<MODE> {
    /// Whether the line is currently high.
    pub closed spec fn level_high(&self) -> bool {
        self.high
    }

    /// Moves the pin into open-drain output mode. The line level is not
    /// touched by the transition.
    pub fn into_open_drain_output(self) -> (r: PC3<Output<OpenDrain>>)
        ensures
            r.level_high() == self.level_high(),
    {
        PC3 { high: self.high, mode: Output { mode: OpenDrain } }
    }

    /// Erases the static position: the result is the runtime handle for
    /// line 3, at the same level and in the same mode.
    pub fn downgrade(self) -> (r: PC<MODE>)
        ensures
            r.pin_index() == 3,
            r.level_high() == self.level_high(),
    {
        PC { i: 3, high: self.high, mode: self.mode }
    }
}

impl<MODE> PC<MODE> {
    /// Which line of the port this handle drives.
    pub closed spec fn pin_index(&self) -> u8 {
        self.i
    }

    /// Whether the line is currently high.
    pub closed spec fn level_high(&self) -> bool {
        self.high
    }
}

impl PC<Output<OpenDrain>> {
    /// Releases the line so the external pull takes it high. The model
    /// cannot fail, so the result is always `Ok`.
    pub fn set_high(&mut self) -> (r: Result<(), PinError>)
        ensures
            r is Ok,
            final(self).pin_index() == old(self).pin_index(),
            final(self).level_high(),
    {
        self.high = true;
        Result::Ok(())
    }

    /// Pulls the line low. The model cannot fail, so the result is
    /// always `Ok`.
    pub fn set_low(&mut self) -> (r: Result<(), PinError>)
        ensures
            r is Ok,
            final(self).pin_index() == old(self).pin_index(),
            !final(self).level_high(),
    {
        self.high = false;
        Result::Ok(())
    }

    /// Reads whether the line is low. The model cannot fail, so the
    /// result is always `Ok` of the level.
    pub fn is_low(&self) -> (r: Result<bool, PinError>)
        ensures
            r == Result::<bool, PinError>::Ok(!self.level_high()),
    {
        Result::Ok(!self.high)
    }
}

/// The split port: one field per pin, each in the reset configuration.
pub struct Parts {
    pub pc0: PC0<Input<Floating>>,
    pub pc1: PC1<Input<Floating>>,
    pub pc2: PC2<Input<Floating>>,
    pub pc3: PC3<Input<Floating>>,
}

impl Parts {
    /// Claims the port and hands out its four pins. Stands for the
    /// board-initialization step, which is out of scope here: the
    /// arguments give the level each line happens to hold at that
    /// moment, since this layer guarantees no particular initial state.
    pub fn new(pc0_high: bool, pc1_high: bool, pc2_high: bool, pc3_high: bool) -> (r: Parts)
        ensures
            r.pc0.level_high() == pc0_high,
            r.pc1.level_high() == pc1_high,
            r.pc2.level_high() == pc2_high,
            r.pc3.level_high() == pc3_high,
    {
        Parts {
            pc0: PC0 { high: pc0_high, mode: Input { mode: Floating } },
            pc1: PC1 { high: pc1_high, mode: Input { mode: Floating } },
            pc2: PC2 { high: pc2_high, mode: Input { mode: Floating } },
            pc3: PC3 { high: pc3_high, mode: Input { mode: Floating } },
        }
    }
}

} // verus!
