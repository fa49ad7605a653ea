use vstd::prelude::*;

verus! {

/// One event taken from the event channel: a decoded input, or the passage
/// of one tick period.
pub enum Event<I> {
    Input(I),
    Tick,
}

/// What a window asks of the stack after handling one event.
///
/// `remove` pops the window that handled the event; `child`, when present,
/// is pushed afterwards. With both set the handling window is replaced by
/// its child.
pub struct EventResult<W> {
    pub remove: bool,
    pub child: Option<W>,
}

impl<W> EventResult<W> {
    /// A result that leaves the stack as it is.
    pub fn new() -> (r: EventResult<W>)
        ensures
            !r.remove,
            r.child.is_none(),
    {
        EventResult { remove: false, child: None }
    }
}

} // verus!
