//! Busy-wait lengths in core clock cycles.
use vstd::prelude::*;

verus! {

/// The number of core clock cycles in `ms` milliseconds at `sysclk_hz`,
/// rounded down.
pub open spec fn cycles_of(sysclk_hz: nat, ms: nat) -> nat {
    sysclk_hz * ms / 1000
}

/// The cycle count of a busy wait of `ms` milliseconds at a core clock of
/// `sysclk_hz`, or `None` when it does not fit in the 32-bit count that the
/// delay loop takes.
pub fn cycles_for_ms(sysclk_hz: u32, ms: u32) -> (r: Option<u32>)
    ensures
        r is Some <==> cycles_of(sysclk_hz as nat, ms as nat) <= u32::MAX,
        r matches Some(c) ==> c as nat == cycles_of(sysclk_hz as nat, ms as nat),
{
    proof {
        assert(sysclk_hz as nat * ms as nat <= u32::MAX as nat * u32::MAX as nat) by (nonlinear_arith)
            requires sysclk_hz <= u32::MAX, ms <= u32::MAX;
    }
    let product: u64 = (sysclk_hz as u64) * (ms as u64);
    let cycles: u64 = product / 1000;
    if cycles <= u32::MAX as u64 {
        Some(cycles as u32)
    } else {
        None
    }
}

} // verus!
