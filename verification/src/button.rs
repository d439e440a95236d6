use vstd::prelude::*;

verus! {

/// The count after one more press has been registered.
pub open spec fn pressed(count: nat) -> nat {
    count + 1
}

/// The count after `presses` presses, starting from `start`.
pub open spec fn count_after(start: nat, presses: nat) -> nat
    decreases presses,
{
    if presses == 0 {
        start
    } else {
        pressed(count_after(start, (presses - 1) as nat))
    }
}

/// Whether the LED blinks after `presses` presses, starting from `blinking`:
/// each press switches the blinking on or off.
pub open spec fn blinking_after(blinking: bool, presses: nat) -> bool
    decreases presses,
{
    if presses == 0 {
        blinking
    } else {
        !blinking_after(blinking, (presses - 1) as nat)
    }
}

/// What the LED does on one tick of the blink period (500 ms).
#[derive(Clone, Copy, Debug, PartialEq, Eq, Structural)]
pub enum LedStep {
    /// Switch the LED to its other level.
    Toggle,
    /// Leave the LED as it is.
    Hold,
}

/// The blink effect of the button firmware: the LED changes level on every
/// tick while blinking is on, and each button press switches blinking on or
/// off. Blinking is on at start-up.
#[derive(Clone, Copy, Debug, PartialEq, Eq, Structural)]
pub struct Blinker {
    blinking: bool,
}

/// The LED step of a tick when blinking is on or off.
pub open spec fn step_for(blinking: bool) -> LedStep {
    if blinking {
        LedStep::Toggle
    } else {
        LedStep::Hold
    }
}

impl Blinker {
    /// Whether the LED is blinking.
    pub closed spec fn is_blinking(self) -> bool {
        self.blinking
    }

    /// The blink effect at start-up: blinking.
    pub fn new() -> (b: Self)
        ensures
            b.is_blinking(),
    {
        Blinker { blinking: true }
    }

    /// What the LED does on this tick.
    pub fn tick(&self) -> (step: LedStep)
        ensures
            step == step_for(self.is_blinking()),
    {
        if self.blinking {
            LedStep::Toggle
        } else {
            LedStep::Hold
        }
    }
}

/// Work of the button interrupt handler that is not I/O: register one press
/// in the shared counter, switch the blink effect on or off, and return the
/// count that the handler reports.
///
/// The counter is a `u32` incremented with `+`, so a press on a counter that
/// already holds `u32::MAX` is outside what the handler supports.
pub fn handler(count: &mut u32, blinker: &mut Blinker) -> (reported: u32)
    requires
        *old(count) < u32::MAX,
    ensures
        *final(count) == pressed(*old(count) as nat),
        reported == *final(count),
        final(blinker).is_blinking() == !old(blinker).is_blinking(),
{
    *count = *count + 1;
    blinker.blinking = !blinker.blinking;
    *count
}

/// Every press is counted exactly once: starting from `start`, `presses`
/// presses leave the counter at `start + presses`, so from start-up the
/// `i`-th press reports `i`.
pub proof fn presses_are_counted(start: nat, presses: nat)
    ensures
        count_after(start, presses) == start + presses,
    decreases presses,
{
    if presses > 0 {
        presses_are_counted(start, (presses - 1) as nat);
    }
}

/// The button controls the blinking: from start-up, the LED blinks exactly
/// after an even number of presses, and holds still after an odd number.
pub proof fn presses_switch_blinking(presses: nat)
    ensures
        blinking_after(true, presses) == (presses % 2 == 0),
        step_for(blinking_after(true, presses)) == (if presses % 2 == 0 {
            LedStep::Toggle
        } else {
            LedStep::Hold
        }),
    decreases presses,
{
    if presses > 0 {
        presses_switch_blinking((presses - 1) as nat);
    }
}

} // verus!
