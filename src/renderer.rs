//! Frame composition and the terminal session's lifecycle. The renderer
//! decides what reaches the device and when the device must be switched;
//! the caller performs the switch and writes the flushed operations.

use vstd::prelude::*;

verus! {

/// One queued drawing operation.
pub enum DrawOp {
    /// Reset colours, clear the whole screen, hide the cursor, move home.
    Clear,
    /// Text at the start of a row.
    Line { row: u16, text: String },
    /// Text on the bottom row.
    Status { text: String },
}

/// What a drawing operation holds.
pub enum DrawOpView {
    Clear,
    Line(u16, Seq<char>),
    Status(Seq<char>),
}

impl View for DrawOp {
    type V = DrawOpView;

    open spec fn view(&self) -> DrawOpView {
        match self {
            DrawOp::Clear => DrawOpView::Clear,
            DrawOp::Line { row, text } => DrawOpView::Line(*row, text@),
            DrawOp::Status { text } => DrawOpView::Status(text@),
        }
    }
}

/// The views of a sequence of drawing operations.
pub open spec fn ops_view(ops: Seq<DrawOp>) -> Seq<DrawOpView> {
    ops.map_values(|o: DrawOp| o@)
}

/// Where the terminal session stands.
#[derive(Debug, Clone, Copy, PartialEq, Eq, Structural)]
pub enum SessionState {
    /// The terminal is as the user left it.
    Idle,
    /// Raw mode and the alternate screen are on.
    Active,
    /// The terminal has been given back.
    Released,
}

/// The session after a release request.
pub open spec fn after_release(s: SessionState) -> SessionState {
    if s == SessionState::Active {
        SessionState::Released
    } else {
        s
    }
}

/// How many of `n` successive release requests, made from state `s`,
/// restore the device.
pub open spec fn releases_performed(s: SessionState, n: nat) -> nat
    decreases n,
{
    if n == 0 {
        0
    } else {
        (if s == SessionState::Active {
            1nat
        } else {
            0nat
        }) + releases_performed(after_release(s), (n - 1) as nat)
    }
}

proof fn lemma_no_release_after_release(n: nat)
    ensures
        releases_performed(SessionState::Released, n) == 0,
    decreases n,
{
    if n > 0 {
        lemma_no_release_after_release((n - 1) as nat);
    }
}

/// Once the terminal is acquired, any number of release requests (one on
/// the normal exit and one from the guard on every path, for instance)
/// restores the device exactly once.
pub proof fn lemma_release_exactly_once(n: nat)
    requires
        n >= 1,
    ensures
        releases_performed(SessionState::Active, n) == 1,
{
    lemma_no_release_after_release((n - 1) as nat);
}

/// The renderer's state: the session and the operations not yet flushed.
pub struct RendererView {
    pub session: SessionState,
    pub queued: Seq<DrawOpView>,
}

/// Holds the terminal session's state and the frame being composed.
pub struct Renderer {
    session: SessionState,
    queued: Vec<DrawOp>,
}

impl View for Renderer {
    type V = RendererView;

    closed spec fn view(&self) -> RendererView {
        RendererView { session: self.session, queued: ops_view(self.queued@) }
    }
}

impl Renderer {
    /// A renderer whose terminal has not been acquired yet.
    pub fn new() -> (r: Self)
        ensures
            r@.session == SessionState::Idle,
            r@.queued.len() == 0,
    {
        Renderer { session: SessionState::Idle, queued: Vec::new() }
    }

    /// Acquires the terminal. True when the caller must now switch it to the
    /// alternate screen and raw mode; a second request asks for nothing.
    pub fn enter_screen(&mut self) -> (r: bool)
        ensures
            r == (old(self)@.session == SessionState::Idle),
            final(self)@.session == (if r {
                SessionState::Active
            } else {
                old(self)@.session
            }),
            final(self)@.queued == old(self)@.queued,
    {
        if self.session == SessionState::Idle {
            self.session = SessionState::Active;
            true
        } else {
            false
        }
    }

    /// Releases the terminal. True when the caller must now leave raw mode
    /// and the alternate screen and show the cursor again: only for the
    /// first request after the terminal was acquired.
    pub fn leave_screen(&mut self) -> (r: bool)
        ensures
            r == (old(self)@.session == SessionState::Active),
            final(self)@.session == after_release(old(self)@.session),
            final(self)@.queued == old(self)@.queued,
    {
        if self.session == SessionState::Active {
            self.session = SessionState::Released;
            true
        } else {
            false
        }
    }

    /// Queues a clear of the whole screen.
    pub fn clear_screen(&mut self)
        ensures
            final(self)@.session == old(self)@.session,
            final(self)@.queued == old(self)@.queued.push(DrawOpView::Clear),
    {
        self.queued.push(DrawOp::Clear);
    }

    /// Queues `text` at the start of `row`.
    pub fn write_line(&mut self, text: String, row: u16)
        ensures
            final(self)@.session == old(self)@.session,
            final(self)@.queued == old(self)@.queued.push(DrawOpView::Line(row, text@)),
    {
        self.queued.push(DrawOp::Line { row, text });
    }

    /// Queues `text` on the bottom row.
    pub fn write_status(&mut self, text: String)
        ensures
            final(self)@.session == old(self)@.session,
            final(self)@.queued == old(self)@.queued.push(DrawOpView::Status(text@)),
    {
        self.queued.push(DrawOp::Status { text });
    }

    /// Hands over the composed frame, whole, and starts an empty one.
    pub fn flush(&mut self) -> (r: Vec<DrawOp>)
        ensures
            ops_view(r@) == old(self)@.queued,
            final(self)@.session == old(self)@.session,
            final(self)@.queued.len() == 0,
    {
        let mut frame: Vec<DrawOp> = Vec::new();
        std::mem::swap(&mut frame, &mut self.queued);
        frame
    }
}

} // verus!
