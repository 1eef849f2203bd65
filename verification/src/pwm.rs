//! A software-pulse-width-modulated pin, as the LED driver uses it: the
//! wrapper that owns a pin. Driving the pin itself (pulses and levels) needs
//! the board's GPIO and timing facilities and lives outside this crate.

use vstd::prelude::*;

verus! {

/// One output pin driven by software pulses.
pub struct PWMPin<P> {
    pub pin: P,
}

impl<P> PWMPin<P> {
    /// Take ownership of a pin.
    pub fn new(pin: P) -> (r: PWMPin<P>)
        ensures
            r == (PWMPin { pin }),
    {
        PWMPin { pin }
    }
}

} // verus!
