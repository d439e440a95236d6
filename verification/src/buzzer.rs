use vstd::prelude::*;

verus! {

/// Length of one fade of the breathing cycle, in milliseconds.
pub const FADE_MS: u16 = 1000;

/// Highest duty cycle the LEDC channel accepts for a fade, in percent.
pub const MAX_DUTY_PCT: u8 = 100;

/// One hardware duty-cycle fade: from `start_pct` to `end_pct` percent over
/// `duration_ms` milliseconds.
#[derive(Clone, Copy, Debug, PartialEq, Eq, Structural)]
pub struct Fade {
    pub start_pct: u8,
    pub end_pct: u8,
    pub duration_ms: u16,
}

/// The breathing cycle of the buzzer firmware: fade from off to fully on
/// over a second, then from on back off over the next second, and repeat.
#[derive(Clone, Copy, Debug, PartialEq, Eq, Structural)]
pub struct Breathing {
    rising: bool,
}

/// The fade that comes next in a cycle whose next fade is rising or not.
pub open spec fn fade_for(rising: bool) -> Fade {
    if rising {
        Fade { start_pct: 0, end_pct: 100, duration_ms: 1000 }
    } else {
        Fade { start_pct: 100, end_pct: 0, duration_ms: 1000 }
    }
}

impl Breathing {
    /// Whether the next fade brightens.
    pub closed spec fn is_rising(self) -> bool {
        self.rising
    }

    /// The fade that the next call of `next_fade` starts.
    pub open spec fn upcoming(self) -> Fade {
        fade_for(self.is_rising())
    }

    /// A cycle that starts with the fade from off to on.
    pub fn new() -> (b: Self)
        ensures
            b.is_rising(),
            b.upcoming() == (Fade { start_pct: 0, end_pct: 100, duration_ms: 1000 }),
    {
        Breathing { rising: true }
    }

    /// The fade to start now; the cycle moves on to the opposite fade.
    pub fn next_fade(&mut self) -> (f: Fade)
        ensures
            f == old(self).upcoming(),
            final(self).is_rising() == !old(self).is_rising(),
    {
        let f = if self.rising {
            Fade { start_pct: 0, end_pct: MAX_DUTY_PCT, duration_ms: FADE_MS }
        } else {
            Fade { start_pct: MAX_DUTY_PCT, end_pct: 0, duration_ms: FADE_MS }
        };
        self.rising = !self.rising;
        f
    }
}

/// Every fade stays within the duty range that the LEDC channel accepts.
pub proof fn fades_are_in_range(b: Breathing)
    ensures
        b.upcoming().start_pct <= 100,
        b.upcoming().end_pct <= 100,
        b.upcoming().duration_ms == 1000,
{
}

/// The cycle is continuous: each fade starts at the duty where the fade
/// before it ended, and after two fades the cycle is back where it began.
pub proof fn breathing_is_continuous_and_periodic(b: Breathing, next: Breathing, after: Breathing)
    requires
        next.is_rising() == !b.is_rising(),
        after.is_rising() == !next.is_rising(),
    ensures
        next.upcoming().start_pct == b.upcoming().end_pct,
        after.upcoming().start_pct == next.upcoming().end_pct,
        after.upcoming() == b.upcoming(),
        next.upcoming() != b.upcoming(),
{
}

/// Whether a busy-wait of `duration_us` microseconds that started at the
/// clock reading `start_us` must go on at the clock reading `now_us`.
///
/// The clock is monotonic: a reading taken later is never smaller.
pub fn delay_pending(start_us: u64, now_us: u64, duration_us: u64) -> (wait: bool)
    requires
        start_us <= now_us,
    ensures
        wait == (now_us - start_us < duration_us),
{
    now_us - start_us < duration_us
}

/// What the firmware does once a panic has been raised.
#[derive(Clone, Copy, Debug, PartialEq, Eq, Structural)]
pub enum PanicResponse {
    /// Report nothing and park the core in an endless loop.
    SpinForever,
}

/// The buzzer firmware's panic policy: whatever the panic, it reports
/// nothing and parks the core.
pub fn panic() -> (r: PanicResponse)
    ensures
        r == PanicResponse::SpinForever,
{
    PanicResponse::SpinForever
}

} // verus!
