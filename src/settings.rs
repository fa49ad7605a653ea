use vstd::prelude::*;

verus! {

/// How the render target is acquired at construction and released at
/// teardown.
#[derive(Clone, Copy, Debug, PartialEq, Eq, Structural)]
pub struct WindowManagerSettings {
    pub show_cursor: bool,
    pub raw_mode: bool,
    pub alternate_screen: bool,
}

impl Default for WindowManagerSettings {
    fn default() -> (r: Self)
        ensures
            r.show_cursor,
            !r.raw_mode,
            !r.alternate_screen,
    {
        WindowManagerSettings { show_cursor: true, raw_mode: false, alternate_screen: false }
    }
}

/// One change of terminal mode that the backend performs.
#[derive(Clone, Copy, Debug, PartialEq, Eq, Structural)]
pub enum TerminalAction {
    EnableRawMode,
    EnterAlternateScreen,
    HideCursor,
    DisableRawMode,
    LeaveAlternateScreen,
    ShowCursor,
}

/// `a` alone when `b` holds, nothing otherwise.
pub open spec fn action_if(b: bool, a: TerminalAction) -> Seq<TerminalAction> {
    if b {
        seq![a]
    } else {
        Seq::empty()
    }
}

/// The mode changes made when the render target is acquired: raw mode, then
/// the alternate screen, then the cursor, each only where the settings ask
/// for it.
pub open spec fn setup_plan(s: WindowManagerSettings) -> Seq<TerminalAction> {
    action_if(s.raw_mode, TerminalAction::EnableRawMode) + action_if(
        s.alternate_screen,
        TerminalAction::EnterAlternateScreen,
    ) + action_if(!s.show_cursor, TerminalAction::HideCursor)
}

/// The mode changes made when the render target is released: the backend
/// modes first (raw mode, then the alternate screen), the cursor last.
pub open spec fn teardown_plan(s: WindowManagerSettings) -> Seq<TerminalAction> {
    action_if(s.raw_mode, TerminalAction::DisableRawMode) + action_if(
        s.alternate_screen,
        TerminalAction::LeaveAlternateScreen,
    ) + action_if(!s.show_cursor, TerminalAction::ShowCursor)
}

/// The action that undoes an acquisition step.
pub open spec fn release_of(a: TerminalAction) -> TerminalAction {
    match a {
        TerminalAction::EnableRawMode => TerminalAction::DisableRawMode,
        TerminalAction::EnterAlternateScreen => TerminalAction::LeaveAlternateScreen,
        TerminalAction::HideCursor => TerminalAction::ShowCursor,
        TerminalAction::DisableRawMode => TerminalAction::EnableRawMode,
        TerminalAction::LeaveAlternateScreen => TerminalAction::EnterAlternateScreen,
        TerminalAction::ShowCursor => TerminalAction::HideCursor,
    }
}

impl WindowManagerSettings {
    /// The mode changes to perform, in order, when acquiring the render
    /// target.
    pub fn setup_actions(&self) -> (r: Vec<TerminalAction>)
        ensures
            r@ == setup_plan(*self),
    {
        let mut r: Vec<TerminalAction> = Vec::new();
        if self.raw_mode {
            r.push(TerminalAction::EnableRawMode);
        }
        if self.alternate_screen {
            r.push(TerminalAction::EnterAlternateScreen);
        }
        if !self.show_cursor {
            r.push(TerminalAction::HideCursor);
        }
        assert(r@ =~= setup_plan(*self));
        r
    }

    /// The mode changes to perform, in order, when releasing the render
    /// target.
    pub fn teardown_actions(&self) -> (r: Vec<TerminalAction>)
        ensures
            r@ == teardown_plan(*self),
    {
        let mut r: Vec<TerminalAction> = Vec::new();
        if self.raw_mode {
            r.push(TerminalAction::DisableRawMode);
        }
        if self.alternate_screen {
            r.push(TerminalAction::LeaveAlternateScreen);
        }
        if !self.show_cursor {
            r.push(TerminalAction::ShowCursor);
        }
        assert(r@ =~= teardown_plan(*self));
        r
    }
}

/// Teardown releases exactly what setup acquired: each acquisition step is
/// matched, in the same position, by the step that undoes it, so no mode is
/// left behind and none is restored that was never entered.
pub proof fn lemma_teardown_releases_setup(s: WindowManagerSettings)
    ensures
        teardown_plan(s) == setup_plan(s).map_values(|a: TerminalAction| release_of(a)),
{
    assert(teardown_plan(s) =~= setup_plan(s).map_values(|a: TerminalAction| release_of(a)));
}

} // verus!
