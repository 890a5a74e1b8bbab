//! The periodic timer interrupt that blinks an LED.
use vstd::prelude::*;

verus! {

/// What the timer interrupt does on one update event.
#[derive(Clone, Copy, Debug, PartialEq, Eq, Structural)]
pub struct TickPlan {
    /// Clear the timer's update flag, so that the interrupt does not fire
    /// again at once.
    pub clear_update_flag: bool,
    /// Toggle the LED.
    pub toggle_led: bool,
}

/// The handler acts on the timer and on the LED only once each has been
/// handed over to it by the main program.
pub fn plan_tick(timer_installed: bool, led_installed: bool) -> (r: TickPlan)
    ensures
        r.clear_update_flag == timer_installed,
        r.toggle_led == led_installed,
{
    TickPlan { clear_update_flag: timer_installed, toggle_led: led_installed }
}

} // verus!
