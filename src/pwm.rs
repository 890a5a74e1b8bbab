//! Duty cycles for a PWM channel.
use vstd::prelude::*;

verus! {

/// The compare value that keeps a channel high for `percent` percent of a
/// period whose full scale is `max_duty`, rounded down.
pub open spec fn duty_of(max_duty: nat, percent: nat) -> nat {
    max_duty * percent / 100
}

/// The duty to program for `percent` percent of `max_duty`.
pub fn duty_for_percent(max_duty: u16, percent: u16) -> (r: u16)
    requires
        percent <= 100,
    ensures
        r as nat == duty_of(max_duty as nat, percent as nat),
        r <= max_duty,
{
    proof {
        assert(max_duty as nat * percent as nat <= 65535 * 100) by (nonlinear_arith)
            requires max_duty <= 65535, percent <= 100;
        assert(max_duty as nat * percent as nat <= max_duty as nat * 100) by (nonlinear_arith)
            requires percent <= 100;
        assert(max_duty as nat * 100 / 100 == max_duty as nat) by (nonlinear_arith);
        vstd::arithmetic::div_mod::lemma_div_is_ordered(
            (max_duty as nat * percent as nat) as int, (max_duty as nat * 100) as int, 100);
    }
    let wide: u32 = (max_duty as u32) * (percent as u32);
    (wide / 100) as u16
}

} // verus!
