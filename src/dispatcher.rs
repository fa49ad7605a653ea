use vstd::prelude::*;
use crate::event::{Event, EventResult};
use crate::settings::{WindowManagerSettings, TerminalAction};

verus! {

/// The tick period used until the caller sets another one.
pub const DEFAULT_TICK_RATE_MS: u64 = 250;

/// The stack with its top window popped; an empty stack stays empty.
pub open spec fn popped<W>(s: Seq<W>) -> Seq<W> {
    if s.len() == 0 {
        s
    } else {
        s.drop_last()
    }
}

/// The stack after a window's result is applied: first the pop, if asked
/// for, then the push of the child, if any.
pub open spec fn applied<W>(s: Seq<W>, remove: bool, child: Option<W>) -> Seq<W> {
    let t = if remove {
        popped(s)
    } else {
        s
    };
    match child {
        Some(c) => t.push(c),
        None => t,
    }
}

/// The stack after the results `rs` are applied in order.
pub open spec fn replayed<W>(s: Seq<W>, rs: Seq<EventResult<W>>) -> Seq<W>
    decreases rs.len(),
{
    if rs.len() == 0 {
        s
    } else {
        replayed(applied(s, rs[0].remove, rs[0].child), rs.drop_first())
    }
}

/// No result in `rs`, applied in order from `s`, pops a window below depth
/// `depth`: each pop leaves at least `depth` windows.
pub open spec fn keeps_depth<W>(s: Seq<W>, rs: Seq<EventResult<W>>, depth: int) -> bool
    decreases rs.len(),
{
    if rs.len() == 0 {
        s.len() >= depth
    } else {
        (if rs[0].remove {
            popped(s)
        } else {
            s
        }).len() >= depth && keeps_depth(
            applied(s, rs[0].remove, rs[0].child),
            rs.drop_first(),
            depth,
        )
    }
}

/// What the loop does at the start of an iteration.
#[derive(Clone, Copy, Debug, PartialEq, Eq, Structural)]
pub enum Step {
    /// The stack is empty: the loop has ended.
    Terminate,
    /// The top window asked to close and was popped without being rendered;
    /// the next iteration starts at once.
    Closed,
    /// Render the top window, then wait for one event.
    Render,
}

/// Where a received event goes.
pub enum Delivery<I> {
    /// The loop ends: the channel closed, or no window is left to take it.
    Terminate,
    /// Call the top window's input handler with this input.
    Input(I),
    /// Call the top window's tick handler with this period in milliseconds.
    Tick(u64),
}

/// Why the render target could not be acquired.
#[derive(Clone, Copy, Debug, PartialEq, Eq, Structural)]
pub struct SetupError {
    /// The mode change that failed.
    pub action: TerminalAction,
}

/// The window stack and the decisions of the dispatch loop.
///
/// The loop itself is run by the caller, which owns the render target and
/// the event channel: at the start of each iteration it asks `begin_iteration`
/// what to do; after rendering it waits for one event and asks `route_event`
/// where it goes; it hands what the window returned to `apply_event_result`.
pub struct Dispatcher<W> {
    tick_rate: u64,
    windows: Vec<W>,
    settings: WindowManagerSettings,
}

impl<W> Dispatcher<W> {
    /// The windows on the stack, bottom first; the last one is active.
    pub closed spec fn stack(&self) -> Seq<W> {
        self.windows@
    }

    /// The tick period in milliseconds.
    pub closed spec fn spec_tick_rate(&self) -> u64 {
        self.tick_rate
    }

    pub closed spec fn spec_settings(&self) -> WindowManagerSettings {
        self.settings
    }

    /// The loop is running while a window is left on the stack.
    pub open spec fn running(&self) -> bool {
        self.stack().len() > 0
    }

    /// An empty stack with the default tick period.
    pub fn new(settings: WindowManagerSettings) -> (r: Self)
        ensures
            r.stack() == Seq::<W>::empty(),
            r.spec_tick_rate() == DEFAULT_TICK_RATE_MS,
            r.spec_settings() == settings,
    {
        Dispatcher { tick_rate: DEFAULT_TICK_RATE_MS, windows: Vec::new(), settings }
    }

    /// Builds the running dispatcher from the outcome of acquiring the render
    /// target: on failure the error comes back and no window is ever placed
    /// on a stack; on success `initial` is the only window.
    pub fn start(
        setup: Result<(), SetupError>,
        settings: WindowManagerSettings,
        initial: W,
    ) -> (r: Result<Self, SetupError>)
        ensures
            setup is Err ==> r == Err::<Self, SetupError>(setup->Err_0),
            setup is Ok ==> r is Ok && r->Ok_0.stack() == seq![initial]
                && r->Ok_0.spec_tick_rate() == DEFAULT_TICK_RATE_MS
                && r->Ok_0.spec_settings() == settings,
    {
        match setup {
            Err(e) => Err(e),
            Ok(()) => {
                let mut d = Dispatcher::new(settings);
                d.push_window(initial);
                Ok(d)
            },
        }
    }

    pub fn tick_rate(&self) -> (r: u64)
        ensures
            r == self.spec_tick_rate(),
    {
        self.tick_rate
    }

    /// Sets the tick period; ticks received from now on carry it.
    pub fn set_tick_rate(&mut self, tick_rate: u64)
        ensures
            final(self).spec_tick_rate() == tick_rate,
            final(self).stack() == old(self).stack(),
            final(self).spec_settings() == old(self).spec_settings(),
    {
        self.tick_rate = tick_rate;
    }

    pub fn settings(&self) -> (r: WindowManagerSettings)
        ensures
            r == self.spec_settings(),
    {
        self.settings
    }

    /// The number of windows on the stack.
    pub fn len(&self) -> (r: usize)
        ensures
            r == self.stack().len(),
    {
        self.windows.len()
    }

    pub fn is_empty(&self) -> (r: bool)
        ensures
            r == !self.running(),
    {
        self.windows.len() == 0
    }

    /// The active window, if any.
    pub fn top(&self) -> (r: Option<&W>)
        ensures
            self.running() ==> r == Some(&self.stack().last()),
            !self.running() ==> r is None,
    {
        if self.windows.len() == 0 {
            None
        } else {
            Some(&self.windows[self.windows.len() - 1])
        }
    }

    /// The active window, borrowed for rendering or for one event; what the
    /// caller leaves in it is what the stack holds afterwards.
    pub fn top_mut(&mut self) -> (r: Option<&mut W>)
        ensures
            old(self).running() ==> r is Some && *r->Some_0 == old(self).stack().last()
                && final(self).stack() == old(self).stack().update(
                old(self).stack().len() - 1,
                *final(r->Some_0),
            ),
            !old(self).running() ==> r is None && final(self).stack() == old(self).stack(),
            final(self).spec_tick_rate() == old(self).spec_tick_rate(),
            final(self).spec_settings() == old(self).spec_settings(),
    {
        self.windows.last_mut()
    }

    /// Places `window` on top of the stack, where it is served next.
    pub fn push_window(&mut self, window: W)
        ensures
            final(self).stack() == old(self).stack().push(window),
            final(self).spec_tick_rate() == old(self).spec_tick_rate(),
            final(self).spec_settings() == old(self).spec_settings(),
    {
        self.windows.push(window);
    }

    /// Applies what the window that handled the last event returned: the
    /// pop, if asked for, then the push of the child, if any.
    pub fn apply_event_result(&mut self, event_result: EventResult<W>)
        ensures
            final(self).stack() == applied(
                old(self).stack(),
                event_result.remove,
                event_result.child,
            ),
            final(self).spec_tick_rate() == old(self).spec_tick_rate(),
            final(self).spec_settings() == old(self).spec_settings(),
    {
        if event_result.remove {
            self.windows.pop();
        }
        if let Some(child) = event_result.child {
            self.windows.push(child);
        }
    }

    /// Starts one iteration of the loop. `top_should_close` is what the top
    /// window's close predicate answered; it is not read on an empty stack.
    /// A window that asks to close is popped here, before it could be
    /// rendered or handed an event.
    pub fn begin_iteration(&mut self, top_should_close: bool) -> (r: Step)
        ensures
            !old(self).running() ==> r == Step::Terminate && final(self).stack() == old(
                self,
            ).stack(),
            old(self).running() && top_should_close ==> r == Step::Closed
                && final(self).stack() == old(self).stack().drop_last(),
            old(self).running() && !top_should_close ==> r == Step::Render
                && final(self).stack() == old(self).stack(),
            final(self).spec_tick_rate() == old(self).spec_tick_rate(),
            final(self).spec_settings() == old(self).spec_settings(),
    {
        if self.windows.len() == 0 {
            Step::Terminate
        } else if top_should_close {
            self.windows.pop();
            Step::Closed
        } else {
            Step::Render
        }
    }

    /// Where the event taken from the channel goes; `None` means the channel
    /// closed without delivering one. An event is handed to a window only
    /// while the stack holds one.
    pub fn route_event<I>(&self, received: Option<Event<I>>) -> (r: Delivery<I>)
        ensures
            !self.running() ==> r is Terminate,
            self.running() ==> match received {
                None => r is Terminate,
                Some(Event::Tick) => r == Delivery::<I>::Tick(self.spec_tick_rate()),
                Some(Event::Input(i)) => r == Delivery::<I>::Input(i),
            },
    {
        if self.windows.len() == 0 {
            return Delivery::Terminate;
        }
        match received {
            None => Delivery::Terminate,
            Some(Event::Tick) => Delivery::Tick(self.tick_rate),
            Some(Event::Input(i)) => Delivery::Input(i),
        }
    }
}

/// Results only ever change the top of the stack: every window below the
/// one that handled the event keeps its place, and the window served next is
/// the most recently pushed one that has not been popped — the child when
/// one was pushed, else the handling window when it stays, else the window
/// directly below it.
pub proof fn lemma_lifo<W>(s: Seq<W>, remove: bool, child: Option<W>)
    requires
        s.len() > 0,
    ensures
        applied(s, remove, child).len() >= s.len() - 1,
        applied(s, remove, child).subrange(0, s.len() - 1) == s.drop_last(),
        child is Some ==> applied(s, remove, child).last() == child->Some_0,
        child is None && !remove ==> applied(s, remove, child) == s,
        child is None && remove ==> applied(s, remove, child) == s.drop_last(),
        child is None && remove && s.len() > 1 ==> applied(s, remove, child).last() == s[s.len()
            - 2],
{
    let t = applied(s, remove, child);
    assert(t.subrange(0, s.len() - 1) =~= s.drop_last());
}

/// The stack is served last in, first out, over any run of results: while
/// no result pops below depth `depth`, the lowest `depth` windows stay
/// exactly as they were; and once everything pushed above them has been
/// popped again, the window served is the one that was at that depth — the
/// most recently pushed window that has not been popped.
pub proof fn lemma_lifo_replay<W>(s: Seq<W>, rs: Seq<EventResult<W>>, depth: int)
    requires
        0 <= depth,
        keeps_depth(s, rs, depth),
    ensures
        replayed(s, rs).len() >= depth,
        replayed(s, rs).subrange(0, depth) == s.subrange(0, depth),
        depth > 0 && replayed(s, rs).len() == depth ==> replayed(s, rs).last() == s[depth - 1],
    decreases rs.len(),
{
    if rs.len() > 0 {
        let t = applied(s, rs[0].remove, rs[0].child);
        assert(t.subrange(0, depth) =~= s.subrange(0, depth));
        lemma_lifo_replay(t, rs.drop_first(), depth);
        let u = replayed(s, rs);
        if depth > 0 && u.len() == depth {
            assert(u.subrange(0, depth)[depth - 1] == s.subrange(0, depth)[depth - 1]);
        }
    } else {
        if depth > 0 && s.len() == depth {
            assert(s.subrange(0, depth)[depth - 1] == s[depth - 1]);
        }
    }
}

/// A result that both removes and pushes replaces the handling window with
/// its child: the old top is gone and the child is the new top, above the
/// same windows as before.
pub proof fn lemma_replace<W>(s: Seq<W>, child: W)
    requires
        s.len() > 0,
    ensures
        applied(s, true, Some(child)) == s.drop_last().push(child),
        applied(s, true, Some(child)).len() == s.len(),
        applied(s, true, Some(child)).last() == child,
{
}

/// A child that is pushed and later removes itself hands control back to
/// the window that spawned it: the stack is what it was before the push.
pub proof fn lemma_child_returns_to_parent<W>(s: Seq<W>, child: W)
    ensures
        applied(applied(s, false, Some(child)), true, None) == s,
{
    assert(s.push(child).drop_last() =~= s);
}

} // verus!
