//! The vocabulary of the terminal event pump: what it delivers to the UI
//! loop, and how often it ticks.
use vstd::prelude::*;

verus! {

/// What the event pump delivers: a piece of input, or a timer tick that
/// lets the loop redraw.
pub enum Event<I> {
    Input(I),
    Tick,
}

/// Settings of the event pump.
#[derive(Clone, Copy, PartialEq, Eq, Structural, Debug)]
pub struct Config {
    /// Milliseconds between ticks.
    pub tick_rate_ms: u64,
}

impl Default for Config {
    /// Four ticks a second.
    fn default() -> (r: Config)
        ensures
            r.tick_rate_ms == 250,
    {
        Config { tick_rate_ms: 250 }
    }
}

} // verus!
