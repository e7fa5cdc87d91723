use vstd::prelude::*;

verus! {

/// Where a surface stands with respect to its disposal.
#[derive(Clone, Copy, Debug, PartialEq, Eq, Structural)]
pub enum SurfaceState {
    /// Somebody is accounted for as the disposer; tearing the surface down is silent.
    OwnedTracked,
    /// Disposal is still owed by the holder; tearing the surface down is a protocol violation.
    OwnedPending,
    /// The surface has been disposed of. Nothing leaves this state.
    Disposed,
}

impl SurfaceState {
    /// The disposal-tracking flag: whether tearing down a surface in this state leaks it.
    pub open spec fn will_leak(self) -> bool {
        self is OwnedPending
    }

    pub open spec fn is_terminal(self) -> bool {
        self is Disposed
    }

    /// The state after the holder declares that disposal is owed.
    pub open spec fn marked_will_leak(self) -> SurfaceState {
        if self is Disposed {
            SurfaceState::Disposed
        } else {
            SurfaceState::OwnedPending
        }
    }

    /// The state after the holder declares that disposal is somebody else's business.
    pub open spec fn marked_wont_leak(self) -> SurfaceState {
        if self is Disposed {
            SurfaceState::Disposed
        } else {
            SurfaceState::OwnedTracked
        }
    }

    /// The state after disposal.
    pub open spec fn destroyed(self) -> SurfaceState {
        SurfaceState::Disposed
    }

    pub fn leaks(self) -> (flag: bool)
        ensures
            flag == self.will_leak(),
    {
        match self {
            SurfaceState::OwnedPending => true,
            SurfaceState::OwnedTracked => false,
            SurfaceState::Disposed => false,
        }
    }

    pub fn with_leak_marked(self) -> (next: SurfaceState)
        ensures
            next == self.marked_will_leak(),
    {
        match self {
            SurfaceState::Disposed => SurfaceState::Disposed,
            SurfaceState::OwnedTracked => SurfaceState::OwnedPending,
            SurfaceState::OwnedPending => SurfaceState::OwnedPending,
        }
    }

    pub fn with_leak_waived(self) -> (next: SurfaceState)
        ensures
            next == self.marked_wont_leak(),
    {
        match self {
            SurfaceState::Disposed => SurfaceState::Disposed,
            SurfaceState::OwnedTracked => SurfaceState::OwnedTracked,
            SurfaceState::OwnedPending => SurfaceState::OwnedTracked,
        }
    }
}

/// A surface that is torn down leaks exactly when it is still pending: a disposed surface
/// never does, and neither does a tracked surface, before or after its disposal.
pub proof fn lemma_teardown_fires_only_when_pending(state: SurfaceState)
    ensures
        state.will_leak() <==> state == SurfaceState::OwnedPending,
        !SurfaceState::Disposed.will_leak(),
        !SurfaceState::OwnedTracked.will_leak(),
        !state.destroyed().will_leak(),
{
}

/// Disposal takes every state that is not terminal to the terminal one.
pub proof fn lemma_destroy_reaches_disposed(state: SurfaceState)
    requires
        !state.is_terminal(),
    ensures
        state.destroyed() == SurfaceState::Disposed,
        state.destroyed().is_terminal(),
{
}

/// Declaring that disposal is owed makes the teardown of a live surface fire, whatever its
/// state was before; waiving it makes the teardown silent, with or without a disposal.
pub proof fn lemma_marks_decide_teardown(state: SurfaceState)
    requires
        !state.is_terminal(),
    ensures
        state.marked_will_leak().will_leak(),
        !state.marked_wont_leak().will_leak(),
        !state.marked_will_leak().is_terminal(),
        !state.marked_wont_leak().is_terminal(),
{
}

/// The terminal state absorbs both marks.
pub proof fn lemma_disposed_is_terminal(state: SurfaceState)
    requires
        state.is_terminal(),
    ensures
        state.marked_will_leak() == state,
        state.marked_wont_leak() == state,
        state.destroyed() == state,
{
}

} // verus!
