//! Status indication: the pure decision step of the status-LED blink
//! pattern. The surrounding firmware owns the LED and the timer; it performs
//! the returned action, waits the returned delay and hands the returned
//! state back to the next call.

use vstd::prelude::*;

verus! {

/// How many blinks the repeating pattern shows per burst.
pub const BLINKS: u8 = 1;

/// One step of the blink pattern: the level to drive the LED to now, how
/// long to wait, and the arguments of the next step.
pub struct BlinkStep {
    pub led_on: bool,
    pub delay_millis: u64,
    pub next_on: bool,
    pub next_blinks_left: u8,
}

/// Decides one step of the repeating blink pattern: each burst shows
/// `BLINKS` short flashes (on and off 200 ms each), then rests 2 s before
/// the pattern restarts.
pub fn blink(on: bool, blinks_left: u8) -> (step: BlinkStep)
    requires
        !on ==> blinks_left >= 1,
    ensures
        step.led_on == on,
        on ==> step.delay_millis == 200 && !step.next_on && step.next_blinks_left == blinks_left,
        !on ==> step.next_on,
        !on && blinks_left > 1 ==> step.delay_millis == 200 && step.next_blinks_left == blinks_left - 1,
        !on && blinks_left == 1 ==> step.delay_millis == 2000 && step.next_blinks_left == BLINKS,
{
    if on {
        BlinkStep { led_on: true, delay_millis: 200, next_on: false, next_blinks_left: blinks_left }
    } else {
        let blinks_left = blinks_left - 1;
        if blinks_left > 0 {
            BlinkStep {
                led_on: false,
                delay_millis: 200,
                next_on: true,
                next_blinks_left: blinks_left,
            }
        } else {
            BlinkStep { led_on: false, delay_millis: 2000, next_on: true, next_blinks_left: BLINKS }
        }
    }
}

} // verus!
