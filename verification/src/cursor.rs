//! The cursor-visibility controller.
//!
//! Hiding the on-screen cursor is delegated to an auxiliary helper process.
//! This controller only decides when that process must be spawned or
//! stopped; the spawning, killing and waiting themselves are outside work,
//! performed by the shell that drives the library. The protocol is:
//!
//! * [`CursorVisibility::set_hidden`] returns the helper request the caller
//!   must carry out, if any;
//! * a `Spawn` request optimistically records the helper as running; if the
//!   spawn fails, the caller reports it with
//!   [`CursorVisibility::spawn_failed`], which treats the cursor as not
//!   hidden again.
//!
//! Under that protocol at most one helper process is ever recorded as
//! running, repeated identical requests are idempotent, and un-hiding with
//! no helper running is a no-op.

use vstd::prelude::*;

verus! {

/// An outside action the caller must perform on the helper process.
#[derive(Clone, Copy, Debug, PartialEq, Eq, Structural)]
pub enum HelperRequest {
    /// Start the cursor-hiding helper process.
    Spawn,
    /// Kill the running helper process and wait for it to exit.
    Stop,
}

/// Records whether a cursor-hiding helper process is currently running.
#[derive(Clone, Copy, Debug, PartialEq, Eq, Structural)]
pub struct CursorVisibility {
    /// Whether a helper process is currently running (cursor hidden).
    pub helper_active: bool,
}

/// What [`CursorVisibility::set_hidden`] decides: the new controller state
/// and the request the caller must carry out.
pub open spec fn set_hidden_spec(c: CursorVisibility, hidden: bool) -> (
    CursorVisibility,
    Option<HelperRequest>,
) {
    if hidden && !c.helper_active {
        (CursorVisibility { helper_active: true }, Some(HelperRequest::Spawn))
    } else if !hidden && c.helper_active {
        (CursorVisibility { helper_active: false }, Some(HelperRequest::Stop))
    } else {
        (c, None)
    }
}

impl CursorVisibility {
    /// A fresh controller: no helper process is running.
    pub fn new() -> (r: CursorVisibility)
        ensures
            !r.helper_active,
    {
        CursorVisibility { helper_active: false }
    }

    /// Requests the cursor to be hidden or shown.
    ///
    /// Hiding spawns a helper only if none is running; showing stops the
    /// helper only if one is. Repeating the current state is a no-op.
    pub fn set_hidden(&mut self, hidden: bool) -> (r: Option<HelperRequest>)
        ensures
            (*final(self), r) == set_hidden_spec(*old(self), hidden),
    {
        if hidden && !self.helper_active {
            self.helper_active = true;
            Some(HelperRequest::Spawn)
        } else if !hidden && self.helper_active {
            self.helper_active = false;
            Some(HelperRequest::Stop)
        } else {
            None
        }
    }

    /// The caller reports that carrying out a `Spawn` request failed: the
    /// cursor is treated as not hidden, and no helper is recorded.
    pub fn spawn_failed(&mut self)
        ensures
            !final(self).helper_active,
    {
        self.helper_active = false;
    }

    /// Whether a helper process is currently running (cursor hidden).
    pub fn is_hidden(&self) -> (r: bool)
        ensures
            r == self.helper_active,
    {
        self.helper_active
    }
}

/// Two consecutive hide requests spawn at most one helper process: the
/// second request is always a no-op.
pub proof fn lemma_hide_twice_spawns_once(c: CursorVisibility)
    ensures
        ({
            let (c1, r1) = set_hidden_spec(c, true);
            let (c2, r2) = set_hidden_spec(c1, true);
            r2 is None && c2 == c1
        }),
{
}

/// Un-hiding with no helper running performs no action and changes nothing.
pub proof fn lemma_show_untracked_is_noop(c: CursorVisibility)
    requires
        !c.helper_active,
    ensures
        set_hidden_spec(c, false) == (c, None::<HelperRequest>),
{
}

} // verus!
