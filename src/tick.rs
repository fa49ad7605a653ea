use vstd::prelude::*;

verus! {

/// What the tick source does next.
#[derive(Clone, Copy, Debug, PartialEq, Eq, Structural)]
pub enum TickStep {
    /// Sleep for this many milliseconds, then publish a tick.
    Sleep(u64),
    /// The channel has closed: the tick source ends.
    Stop,
}

/// The tick source's decision after an attempt to publish a tick.
/// `interval_ms` is the period read afresh for this cycle, so a change takes
/// effect on the next sleep. A failed publish means the consumer is gone and
/// ends the source quietly; it is not an error for anyone else.
pub fn tick_step(published: bool, interval_ms: u64) -> (r: TickStep)
    ensures
        published ==> r == TickStep::Sleep(interval_ms),
        !published ==> r == TickStep::Stop,
{
    if published {
        TickStep::Sleep(interval_ms)
    } else {
        TickStep::Stop
    }
}

} // verus!
