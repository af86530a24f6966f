//! Backlight brightness control.
//!
//! The PWM hardware reports a maximum duty value once at bring-up; from then
//! on brightness is requested as a percentage, clamped to 100, and scaled to
//! a duty with truncating integer arithmetic.  The shell that owns the PWM
//! channel commits the duty this module computes.

use vstd::prelude::*;
use vstd::arithmetic::div_mod::lemma_div_is_ordered;
use vstd::arithmetic::div_mod::lemma_div_multiples_vanish;
use vstd::arithmetic::div_mod::lemma_div_of0;
use vstd::arithmetic::div_mod::lemma_div_pos_is_pos;
use vstd::arithmetic::mul::lemma_mul_inequality;

verus! {

/// The PWM carrier frequency the timer is configured to: above the audible
/// range, comfortably below switching losses for a backlight LED.
pub const PWM_FREQUENCY_KHZ: u32 = 25;

/// Brightness requests above this are treated as this, not as an error.
pub const MAX_PERCENT: u32 = 100;

/// A percentage as the scaling sees it: anything above 100 counts as 100.
pub open spec fn clamped_percent_spec(percent: u32) -> u32 {
    if percent > MAX_PERCENT {
        MAX_PERCENT
    } else {
        percent
    }
}

/// The duty committed for a request: `max_duty * percent / 100` after
/// clamping, truncated toward zero.
pub open spec fn target_duty_spec(max_duty: u32, percent: u32) -> int {
    max_duty * clamped_percent_spec(percent) / 100
}

/// The logical state of the backlight channel: the hardware-reported maximum
/// duty, read once at bring-up, and the duty currently committed.
pub struct Backlight {
    max_duty: u32,
    duty: u32,
}

impl Backlight {
    /// The maximum counter value the hardware reported at bring-up.
    pub closed spec fn max_duty_spec(self) -> u32 {
        self.max_duty
    }

    /// The duty most recently committed.
    pub closed spec fn duty_spec(self) -> u32 {
        self.duty
    }

    /// The committed duty never exceeds the hardware maximum.
    pub open spec fn well_formed(self) -> bool {
        self.duty_spec() <= self.max_duty_spec()
    }

    /// Take ownership of a channel whose hardware reports `max_duty`, at full
    /// brightness: the boot default, so the screen is visible before any
    /// explicit brightness call.
    pub fn create_backlight(max_duty: u32) -> (bl: Backlight)
        ensures
            bl.well_formed(),
            bl.max_duty_spec() == max_duty,
            bl.duty_spec() == max_duty,
    {
        Backlight { max_duty, duty: max_duty }
    }

    /// The hardware-reported maximum duty.
    pub fn max_duty(&self) -> (d: u32)
        ensures
            d == self.max_duty_spec(),
    {
        self.max_duty
    }

    /// The duty most recently committed.
    pub fn duty(&self) -> (d: u32)
        ensures
            d == self.duty_spec(),
    {
        self.duty
    }

    /// Request a brightness percentage: clamp it to 100, scale it to a duty
    /// with truncating integer arithmetic, and return the duty the shell must
    /// commit to the channel.
    pub fn set(&mut self, percents: u32) -> (duty: u32)
        ensures
            final(self).max_duty_spec() == old(self).max_duty_spec(),
            duty == target_duty_spec(old(self).max_duty_spec(), percents),
            final(self).duty_spec() == duty,
            final(self).well_formed(),
            percents == 0 ==> duty == 0,
            percents >= MAX_PERCENT ==> duty == old(self).max_duty_spec(),
    {
        let p: u32 = if percents > MAX_PERCENT {
            MAX_PERCENT
        } else {
            percents
        };
        let max: u32 = self.max_duty;
        proof {
            lemma_scale_properties(max, p);
        }
        let wide: u64 = (max as u64) * (p as u64) / 100;
        let duty: u32 = wide as u32;
        self.duty = duty;
        duty
    }
}

/// The one arithmetic fact everything here rests on: scaling a duty by a
/// clamped percentage stays within `[0, max_duty]`, vanishes at 0 and is
/// exact at 100.
proof fn lemma_scale_properties(max_duty: u32, p: u32)
    requires
        p <= 100,
    ensures
        0 <= (max_duty as int) * (p as int) / 100,
        (max_duty as int) * (p as int) / 100 <= max_duty,
        (max_duty as int) * (p as int) <= (max_duty as int) * 100,
        p == 0 ==> (max_duty as int) * (p as int) / 100 == 0,
        p == 100 ==> (max_duty as int) * (p as int) / 100 == max_duty,
{
    let m = max_duty as int;
    let pi = p as int;
    lemma_mul_inequality(pi, 100, m);
    assert(m * pi == pi * m) by (nonlinear_arith);
    assert(m * 100 == 100 * m) by (nonlinear_arith);
    lemma_div_is_ordered(m * pi, m * 100, 100);
    lemma_div_multiples_vanish(m, 100);
    assert(m * pi >= 0) by (nonlinear_arith)
        requires
            m >= 0,
            pi >= 0,
    ;
    lemma_div_pos_is_pos(m * pi, 100);
    assert(m * 0 == 0) by (nonlinear_arith);
    lemma_div_of0(100);
}

/// Clamping: every percentage above 100 scales exactly as 100 does, so an
/// out-of-range request behaves identically to a full-brightness one.
pub proof fn lemma_brightness_clamp(max_duty: u32, percent: u32)
    requires
        percent > MAX_PERCENT,
    ensures
        target_duty_spec(max_duty, percent) == target_duty_spec(max_duty, MAX_PERCENT),
{
}

/// The truncating scale hits its endpoints exactly: zero percent yields duty
/// zero, one hundred percent yields the hardware maximum.
pub proof fn lemma_duty_endpoints(max_duty: u32)
    ensures
        target_duty_spec(max_duty, 0) == 0,
        target_duty_spec(max_duty, MAX_PERCENT) == max_duty,
{
    lemma_scale_properties(max_duty, 0);
    lemma_scale_properties(max_duty, 100);
}

/// The scaled duty never leaves `[0, max_duty]`, whatever the request: the
/// channel invariant holds for every percentage.
pub proof fn lemma_duty_bounded(max_duty: u32, percent: u32)
    ensures
        0 <= target_duty_spec(max_duty, percent),
        target_duty_spec(max_duty, percent) <= max_duty,
{
    lemma_scale_properties(max_duty, clamped_percent_spec(percent));
}

} // verus!
