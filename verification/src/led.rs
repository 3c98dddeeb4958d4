//! The four on-board user LEDs as one indexable collection.
//!
//! Positions have a fixed meaning: 0 = left-green (line 1),
//! 1 = left-red (line 0), 2 = right-green (line 2),
//! 3 = right-red (line 3). A color label can stand in for a position;
//! its ordinal is the position it addresses, so `Green` and `Red` name
//! the two left LEDs and `Blue` lands on right-green, while no color
//! reaches right-red. That skewed mapping is deliberate: the ordinal is
//! taken as the position unchanged, and no nicer color scheme for the
//! four physical LEDs is invented behind the caller's back.

use vstd::prelude::*;
use vstd::pervasive::unreached;
use crate::gpio::{OpenDrain, Output, Parts, PC, PC0, PC1, PC2, PC3};

verus! {

/// The typed pin behind the LD1 indicator: line 0, open-drain output.
pub type LD1 = PC0<Output<OpenDrain>>;

/// The typed pin behind the LD2 indicator: line 1, open-drain output.
pub type LD2 = PC1<Output<OpenDrain>>;

/// The typed pin behind the LD3 indicator: line 2, open-drain output.
pub type LD3 = PC2<Output<OpenDrain>>;

/// The typed pin behind the LD4 indicator: line 3, open-drain output.
pub type LD4 = PC3<Output<OpenDrain>>;

/// User LED colors, usable as an alternate index into [`Leds`].
#[derive(Clone, Copy, PartialEq, Eq, Structural, Debug)]
pub enum LedColor {
    Green,
    Red,
    Blue,
}

impl LedColor {
    /// The position a color addresses: its ordinal. Every color maps
    /// below 4, so color-keyed access can never go out of bounds.
    pub open spec fn position_spec(self) -> int {
        match self {
            LedColor::Green => 0,
            LedColor::Red => 1,
            LedColor::Blue => 2,
        }
    }

    /// The position a color addresses.
    pub fn position(self) -> (r: usize)
        ensures
            r == self.position_spec(),
            r < 4,
    {
        match self {
            LedColor::Green => 0,
            LedColor::Red => 1,
            LedColor::Blue => 2,
        }
    }
}

/// The two observable states of one LED line.
#[derive(Clone, Copy, PartialEq, Eq, Structural, Debug)]
pub enum LedState {
    Lit,
    Unlit,
}

/// What `on` does to a line's state: it always ends Lit.
pub open spec fn step_on(s: LedState) -> LedState {
    LedState::Lit
}

/// What `off` does to a line's state: it always ends Unlit.
pub open spec fn step_off(s: LedState) -> LedState {
    LedState::Unlit
}

/// What `toggle` does to a line's state: it flips.
pub open spec fn step_toggle(s: LedState) -> LedState {
    match s {
        LedState::Lit => LedState::Unlit,
        LedState::Unlit => LedState::Lit,
    }
}

/// One of the on-board user LEDs: sole owner of the open-drain output
/// pin that drives it.
pub struct Led {
    pin: PC<Output<OpenDrain>>,
}

impl Led {
    /// Which line of the port this LED sits on.
    pub closed spec fn pin_index(&self) -> u8 {
        self.pin.pin_index()
    }

    /// Whether the LED is lit: the line is high (released), which
    /// lights the LED under the board's active-low open-drain wiring.
    pub closed spec fn lit(&self) -> bool {
        self.pin.level_high()
    }

    /// The LED's state as the two-state machine sees it.
    pub open spec fn state(&self) -> LedState {
        if self.lit() {
            LedState::Lit
        } else {
            LedState::Unlit
        }
    }

    /// Wraps a downgraded open-drain output pin as an LED handle.
    pub fn from_pin(pin: PC<Output<OpenDrain>>) -> (r: Led)
        ensures
            r.pin_index() == pin.pin_index(),
            r.lit() == pin.level_high(),
    {
        Led { pin }
    }

    /// Whether the LED is currently lit, read back from the line.
    pub fn is_lit(&self) -> (r: bool)
        ensures
            r == self.lit(),
    {
        match self.pin.is_low() {
            Result::Ok(low) => !low,
            Result::Err(_) => unreached(),
        }
    }

    /// The LED's current state, read back from the line.
    pub fn read_state(&self) -> (r: LedState)
        ensures
            r == self.state(),
    {
        if self.is_lit() {
            LedState::Lit
        } else {
            LedState::Unlit
        }
    }

    /// Turns the LED on: drives the line high. A failed drive would be
    /// discarded — lighting an LED is not worth surfacing a fault for.
    pub fn on(&mut self)
        ensures
            final(self).pin_index() == old(self).pin_index(),
            final(self).state() == step_on(old(self).state()),
    {
        let _ = self.pin.set_high();
    }

    /// Turns the LED off: drives the line low. A failed drive would be
    /// discarded, as in [`Led::on`].
    pub fn off(&mut self)
        ensures
            final(self).pin_index() == old(self).pin_index(),
            final(self).state() == step_off(old(self).state()),
    {
        let _ = self.pin.set_low();
    }

    /// Toggles the LED: reads the line and drives it to the other
    /// level. Unlike `on` and `off`, a failed read here would be fatal
    /// rather than ignored; the model's read cannot fail, and the fatal
    /// arm is proved unreachable.
    pub fn toggle(&mut self)
        ensures
            final(self).pin_index() == old(self).pin_index(),
            final(self).state() == step_toggle(old(self).state()),
    {
        let low = match self.pin.is_low() {
            Result::Ok(low) => low,
            Result::Err(_) => unreached(),
        };
        if low {
            let _ = self.pin.set_high();
        } else {
            let _ = self.pin.set_low();
        }
    }
}

/// The board's four user LEDs, in the fixed order left-green,
/// left-red, right-green, right-red. The collection owns its handles
/// for the life of the program; each physical line belongs to exactly
/// one of them.
pub struct Leds {
    leds: [Led; 4],
}

impl View for Leds {
    type V = Seq<Led>;

    closed spec fn view(&self) -> Seq<Led> {
        self.leds@
    }
}

impl Leds {
    /// Claims the four pins of the split port, moves each into
    /// open-drain output mode, erases their static positions and stores
    /// the handles in the fixed display order. Note the wiring: the
    /// left LEDs sit on lines 1 (green) and 0 (red). The lines' levels
    /// are carried over unchanged, so no particular initial visual
    /// state is promised beyond what the port arrived with.
    pub fn new(gpioc: Parts) -> (r: Leds)
        ensures
            r@.len() == 4,
            r@[0].pin_index() == 1 && r@[0].lit() == gpioc.pc1.level_high(),
            r@[1].pin_index() == 0 && r@[1].lit() == gpioc.pc0.level_high(),
            r@[2].pin_index() == 2 && r@[2].lit() == gpioc.pc2.level_high(),
            r@[3].pin_index() == 3 && r@[3].lit() == gpioc.pc3.level_high(),
    {
        let left_red: LD1 = gpioc.pc0.into_open_drain_output();
        let left_green: LD2 = gpioc.pc1.into_open_drain_output();
        let right_green: LD3 = gpioc.pc2.into_open_drain_output();
        let right_red: LD4 = gpioc.pc3.into_open_drain_output();

        Leds {
            leds: [
                Led::from_pin(left_green.downgrade()),
                Led::from_pin(left_red.downgrade()),
                Led::from_pin(right_green.downgrade()),
                Led::from_pin(right_red.downgrade()),
            ],
        }
    }

    /// How many LEDs the board has: always four.
    pub fn len(&self) -> (r: usize)
        ensures
            r == self@.len(),
            r == 4,
    {
        4
    }

    /// The four LEDs as one read-only slice, in position order.
    pub fn as_slice(&self) -> (r: &[Led])
        ensures
            r@ == self@,
    {
        self.leds.as_slice()
    }

    /// Position `i`'s LED. A position at or beyond 4 is a programmer
    /// error, not a recoverable condition: the precondition rules it
    /// out, exactly as fixed-size-array indexing would abort on it.
    pub fn at(&self, i: usize) -> (r: &Led)
        requires
            i < 4,
        ensures
            *r == self@[i as int],
    {
        &self.leds[i]
    }

    /// Position `i`'s LED, for mutation. Everything but position `i`
    /// is left untouched; out-of-range positions are ruled out as in
    /// [`Leds::at`].
    pub fn at_mut(&mut self, i: usize) -> (r: &mut Led)
        requires
            i < 4,
        ensures
            *r == old(self)@[i as int],
            final(self)@ == old(self)@.update(i as int, *final(r)),
    {
        &mut self.leds[i]
    }

    /// The LED a color addresses: the same handle as `at` at the
    /// color's position, never a copy. Total, since every color maps
    /// below 4.
    pub fn at_color(&self, c: LedColor) -> (r: &Led)
        ensures
            *r == self@[c.position_spec()],
    {
        let i = c.position();
        self.at(i)
    }

    /// The LED a color addresses, for mutation: the same handle as
    /// `at_mut` at the color's position.
    pub fn at_color_mut(&mut self, c: LedColor) -> (r: &mut Led)
        ensures
            *r == old(self)@[c.position_spec()],
            final(self)@ == old(self)@.update(c.position_spec(), *final(r)),
    {
        let i = c.position();
        self.at_mut(i)
    }
}

/// Driving a line on (or off) is idempotent: the second application of
/// the step changes nothing, and either way the line lands on the
/// fixed state — Lit for `on`, Unlit for `off` — whatever state it
/// started in.
pub proof fn lemma_on_off_idempotent(s: LedState)
    ensures
        step_on(step_on(s)) == step_on(s),
        step_on(s) == LedState::Lit,
        step_off(step_off(s)) == step_off(s),
        step_off(s) == LedState::Unlit,
{
}

/// Toggle correctness: a Lit line toggles to Unlit, an Unlit line to
/// Lit, and two toggles in a row return any line to where it started.
pub proof fn lemma_toggle_involution(s: LedState)
    ensures
        step_toggle(LedState::Lit) == LedState::Unlit,
        step_toggle(LedState::Unlit) == LedState::Lit,
        step_toggle(step_toggle(s)) == s,
{
}

/// Positions are independent, and a write is read back: putting a
/// handle at position `p` changes position `p` alone — reading `p`
/// afterwards sees exactly that handle, and every other position still
/// holds what it held before.
pub proof fn lemma_positions_independent(leds: Seq<Led>, p: int, q: int, led: Led)
    requires
        0 <= p < leds.len(),
        0 <= q < leds.len(),
    ensures
        p == q ==> leds.update(p, led)[q] == led,
        p != q ==> leds.update(p, led)[q] == leds[q],
{
}

} // verus!
