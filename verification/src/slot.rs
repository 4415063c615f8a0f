//! The scoped-slot frame bridge.
//!
//! The frame source lends the host a drawing resource for the duration of
//! one draw callback — the lending window.  The resource itself never
//! enters this crate; what the bridge tracks is *validity*: whether a
//! lending window is open right now, and which window a caller's access
//! token came from.  Each token carries the generation of the window that
//! issued it; closing a window advances the generation, so a stale token
//! can never authorize drawing again.  A drawing call made outside the
//! lending window is rejected with [`NotRendering`], which the host
//! surfaces to the script as a catchable exception.

use vstd::prelude::*;
use crate::native::{clear_command, rectangle_command, spec_clear_command, spec_rectangle_command,
    DrawCommand};

verus! {

/// The error a drawing call raises when no lending window is open (or its
/// token is stale): the script asked to draw while the host was not
/// rendering.
#[derive(Clone, Copy, Debug, PartialEq, Eq, Structural)]
pub struct NotRendering;

impl NotRendering {
    /// The message the host attaches to the script-visible exception.
    pub fn message(&self) -> (s: &'static str)
        ensures
            s@ == "not rendering"@,
    {
        "not rendering"
    }
}

/// Proof of access to one particular lending window: it records the
/// generation of the window that issued it and authorizes drawing only
/// while that same window is still open.
#[derive(Clone, Copy, Debug, PartialEq, Eq, Structural)]
pub struct FrameToken {
    generation: u64,
}

impl FrameToken {
    /// The generation of the lending window this token came from.
    pub closed spec fn spec_generation(self) -> u64 {
        self.generation
    }
}

/// The frame-scoped slot: either no lending window is open, or the one of
/// the current generation is.  Opening a window issues a [`FrameToken`];
/// closing it advances the generation, invalidating every token the
/// window issued.
pub struct SlotBridge {
    window_open: bool,
    generation: u64,
}

impl SlotBridge {
    /// Whether a lending window is open right now.
    pub closed spec fn spec_open(self) -> bool {
        self.window_open
    }

    /// The generation of the current (or next) lending window.
    pub closed spec fn spec_generation(self) -> u64 {
        self.generation
    }

    /// Whether `token` authorizes drawing right now: a window is open and
    /// the token was issued by that very window.
    pub open spec fn authorizes(self, token: FrameToken) -> bool {
        self.spec_open() && token.spec_generation() == self.spec_generation()
    }

    /// A bridge with no lending window open.
    pub fn new() -> (bridge: SlotBridge)
        ensures
            !bridge.spec_open(),
            bridge.spec_generation() == 0,
    {
        SlotBridge { window_open: false, generation: 0 }
    }

    /// Open the lending window for one draw callback and issue the token
    /// that authorizes drawing inside it.
    pub fn open_window(&mut self) -> (token: FrameToken)
        requires
            !old(self).spec_open(),
        ensures
            final(self).spec_open(),
            final(self).spec_generation() == old(self).spec_generation(),
            token.spec_generation() == final(self).spec_generation(),
            final(self).authorizes(token),
    {
        self.window_open = true;
        FrameToken { generation: self.generation }
    }

    /// Close the lending window.  The generation advances, so no token
    /// issued by the closed window is ever authorized again.
    pub fn close_window(&mut self)
        requires
            old(self).spec_open(),
            old(self).spec_generation() < u64::MAX,
        ensures
            !final(self).spec_open(),
            final(self).spec_generation() == old(self).spec_generation() + 1,
    {
        self.window_open = false;
        self.generation = self.generation + 1;
    }

    /// Decide whether `token` may draw right now: `Ok` exactly when the
    /// window that issued it is still open, `Err(NotRendering)` otherwise.
    pub fn authorize(&self, token: &FrameToken) -> (r: Result<(), NotRendering>)
        ensures
            r is Ok <==> self.authorizes(*token),
    {
        if self.window_open && token.generation == self.generation {
            Result::Ok(())
        } else {
            Result::Err(NotRendering)
        }
    }

    /// A script's `clear(r, g, b, a)` under this bridge: inside the
    /// lending window it yields the coerced clear command for immediate
    /// application to the lent surface; outside it raises
    /// [`NotRendering`].
    pub fn clear_in_window(&self, token: &FrameToken, args: &Vec<Option<u64>>) -> (r: Result<
        DrawCommand,
        NotRendering,
    >)
        ensures
            self.authorizes(*token) ==> r == Result::<DrawCommand, NotRendering>::Ok(
                spec_clear_command(args@),
            ),
            !self.authorizes(*token) ==> r is Err,
    {
        match self.authorize(token) {
            Result::Ok(()) => Result::Ok(clear_command(args)),
            Result::Err(e) => Result::Err(e),
        }
    }

    /// A script's `rectangle(r, g, b, a, x, y, w, h)` under this bridge,
    /// with the same authorization rule as [`Self::clear_in_window`].
    pub fn rectangle_in_window(&self, token: &FrameToken, args: &Vec<Option<u64>>) -> (r: Result<
        DrawCommand,
        NotRendering,
    >)
        ensures
            self.authorizes(*token) ==> r == Result::<DrawCommand, NotRendering>::Ok(
                spec_rectangle_command(args@),
            ),
            !self.authorizes(*token) ==> r is Err,
    {
        match self.authorize(token) {
            Result::Ok(()) => Result::Ok(rectangle_command(args)),
            Result::Err(e) => Result::Err(e),
        }
    }
}

/// A token from an earlier generation is never authorized again: the
/// bridge's generation only grows, so once the issuing window has closed,
/// every later state of the bridge rejects the token with
/// [`NotRendering`].
pub proof fn lemma_stale_token_rejected(bridge: SlotBridge, token: FrameToken)
    requires
        token.spec_generation() < bridge.spec_generation(),
    ensures
        !bridge.authorizes(token),
{
}

} // verus!
