//! The two status LEDs of the board.
//!
//! Both LEDs are wired active-low: driving the pin low lights the LED,
//! driving it high darkens it. A [`Leds`] value holds, for each LED, the
//! level last driven on its pin, or `None` while the pin has not been
//! handed over yet. The firmware drives the real pins with the levels
//! that these operations leave behind.
use vstd::prelude::*;

verus! {

/// Electrical level of an output pin.
#[derive(Clone, Copy, PartialEq, Eq, Structural, Debug)]
pub enum PinLevel {
    Low,
    High,
}

impl PinLevel {
    /// The other level.
    pub open spec fn flipped(self) -> PinLevel {
        match self {
            PinLevel::Low => PinLevel::High,
            PinLevel::High => PinLevel::Low,
        }
    }

    /// The level reached after `n` flips.
    pub open spec fn flipped_times(self, n: nat) -> PinLevel
        decreases n,
    {
        if n == 0 {
            self
        } else {
            self.flipped_times((n - 1) as nat).flipped()
        }
    }

    /// An active-low LED on a pin at this level is lit.
    pub open spec fn lights(self) -> bool {
        self == PinLevel::Low
    }

    /// The other level.
    pub fn flip(self) -> (r: PinLevel)
        ensures
            r == self.flipped(),
    {
        match self {
            PinLevel::Low => PinLevel::High,
            PinLevel::High => PinLevel::Low,
        }
    }
}

/// The blue and the green status LED.
pub struct Leds {
    /// Level of the blue LED's pin; `None` until the pin is handed over.
    pub led_blue: Option<PinLevel>,
    /// Level of the green LED's pin; `None` until the pin is handed over.
    pub led_green: Option<PinLevel>,
}

impl Leds {
    /// LEDs whose pins have not been handed over yet.
    pub fn new() -> (r: Leds)
        ensures
            r.led_blue is None,
            r.led_green is None,
    {
        Leds { led_blue: None, led_green: None }
    }

    /// Takes over both pins and drives them high: both LEDs dark.
    pub fn init(&mut self)
        ensures
            final(self).led_green == Some(PinLevel::High),
            final(self).led_blue == Some(PinLevel::High),
            !final(self).led_green.unwrap().lights() && !final(self).led_blue.unwrap().lights(),
    {
        self.led_green = Some(PinLevel::High);
        self.led_blue = Some(PinLevel::High);
    }

    /// Flips the green LED; the blue one is left as it is.
    pub fn toggle_green(&mut self)
        requires
            old(self).led_green is Some,
        ensures
            final(self).led_green == Some(old(self).led_green.unwrap().flipped()),
            final(self).led_blue == old(self).led_blue,
    {
        let level = self.led_green.unwrap();
        self.led_green = Some(level.flip());
    }

    /// Flips the blue LED; the green one is left as it is.
    pub fn toggle_blue(&mut self)
        requires
            old(self).led_blue is Some,
        ensures
            final(self).led_blue == Some(old(self).led_blue.unwrap().flipped()),
            final(self).led_green == old(self).led_green,
    {
        let level = self.led_blue.unwrap();
        self.led_blue = Some(level.flip());
    }

    /// Lights the blue LED (drives its pin low); the green one is left as it is.
    pub fn set_blue_on(&mut self)
        requires
            old(self).led_blue is Some,
        ensures
            final(self).led_blue == Some(PinLevel::Low),
            final(self).led_blue.unwrap().lights(),
            final(self).led_green == old(self).led_green,
    {
        self.led_blue = Some(PinLevel::Low);
    }

    /// Darkens both LEDs (drives both pins high).
    pub fn off(&mut self)
        requires
            old(self).led_blue is Some,
            old(self).led_green is Some,
        ensures
            final(self).led_blue == Some(PinLevel::High),
            final(self).led_green == Some(PinLevel::High),
            !final(self).led_blue.unwrap().lights() && !final(self).led_green.unwrap().lights(),
    {
        self.led_blue = Some(PinLevel::High);
        self.led_green = Some(PinLevel::High);
    }

    /// Lights the blue LED and darkens the green one.
    pub fn flasher(&mut self)
        requires
            old(self).led_blue is Some,
            old(self).led_green is Some,
        ensures
            final(self).led_blue == Some(PinLevel::Low),
            final(self).led_green == Some(PinLevel::High),
            final(self).led_blue.unwrap().lights() && !final(self).led_green.unwrap().lights(),
    {
        self.led_blue = Some(PinLevel::Low);
        self.led_green = Some(PinLevel::High);
    }

    /// The stack-overflow signal: the blue LED is flipped ten times (five
    /// blinks, with a pause after each flip) and then lit for good.
    /// Returns the levels to drive on the blue pin, in order; the green LED
    /// is left as it is.
    pub fn stack_overflow_signal(&mut self) -> (levels: Vec<PinLevel>)
        requires
            old(self).led_blue is Some,
            old(self).led_green is Some,
        ensures
            levels.len() == 11,
            forall|i: int|
                0 <= i < 10 ==> levels[i] == old(self).led_blue.unwrap().flipped_times(
                    (i + 1) as nat,
                ),
            levels[10] == PinLevel::Low,
            final(self).led_blue == Some(PinLevel::Low),
            final(self).led_green == old(self).led_green,
    {
        let ghost start = self.led_blue.unwrap();
        let mut levels: Vec<PinLevel> = Vec::new();
        let mut k: usize = 0;
        while k < 10
            invariant
                k <= 10,
                levels.len() == k,
                self.led_blue == Some(start.flipped_times(k as nat)),
                self.led_green == old(self).led_green,
                forall|i: int| 0 <= i < k ==> levels[i] == start.flipped_times((i + 1) as nat),
            decreases 10 - k,
        {
            self.toggle_blue();
            levels.push(self.led_blue.unwrap());
            k = k + 1;
        }
        self.set_blue_on();
        levels.push(PinLevel::Low);
        levels
    }
}

/// Flipping a level twice gives it back: toggling an LED twice leaves
/// both LEDs as they were.
pub proof fn lemma_flip_twice(l: PinLevel)
    ensures
        l.flipped().flipped() == l,
{
}

/// An even number of flips gives the level back: the ten flips of the
/// stack-overflow signal end where they started.
pub proof fn lemma_even_flips(l: PinLevel, n: nat)
    ensures
        l.flipped_times(2 * n) == l,
    decreases n,
{
    if n > 0 {
        lemma_even_flips(l, (n - 1) as nat);
        assert(l.flipped_times(2 * n) == l.flipped_times((2 * n - 1) as nat).flipped());
        assert(l.flipped_times((2 * n - 1) as nat) == l.flipped_times((2 * (n - 1)) as nat).flipped());
    }
}

} // verus!
