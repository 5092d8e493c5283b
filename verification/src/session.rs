//! The per-session data model: the control messages understood by the two
//! loops, the session lifecycle states, and the session record itself.

use vstd::prelude::*;

verus! {

/// A message on one of a session's two control channels. The caller-facing
/// operations enqueue these; the writer loop and the reader loop consume
/// them in order.
pub enum PtyMessage {
    /// Text to be written, in full and in order, to the terminal's input.
    Write(String),
    /// New terminal geometry, `(rows, cols)`, to be applied by the reader
    /// loop, which owns the live terminal handle.
    Resize(u16, u16),
    /// Stop the receiving loop.
    Interrupt,
}

impl PtyMessage {
    /// The text carried by a `Write` message; empty for the others.
    pub open spec fn payload(&self) -> Seq<char> {
        match self {
            PtyMessage::Write(s) => s@,
            _ => Seq::empty(),
        }
    }
}

/// Where a session stands in its life.
///
/// `Starting` covers the factory spawn, before the session is in the
/// table; `Running` is the steady state; `Draining` begins the instant an
/// `Interrupt` is sent to either control channel; `Terminated` means both
/// loops have returned and every handle is released.
#[derive(Clone, Copy, Debug, PartialEq, Eq, Structural)]
pub enum SessionState {
    Starting,
    Running,
    Draining,
    Terminated,
}

/// One multiplexed terminal session: its lifecycle state, the geometry it
/// was last asked to take, and the contents of its two control channels.
///
/// The session does not own the operating-system pseudoterminal: the
/// writer loop owns the input stream and the reader loop owns the output
/// stream and the resize entry point, so no handle is ever shared across
/// threads. The two queues here are the messages sent to those loops and
/// not yet consumed.
pub struct Session {
    /// Requested terminal height; never zero.
    pub rows: u16,
    /// Requested terminal width; never zero.
    pub cols: u16,
    /// Lifecycle state.
    pub state: SessionState,
    /// Messages enqueued for the writer loop, oldest first.
    pub write_queue: Vec<PtyMessage>,
    /// Messages enqueued for the reader loop, oldest first.
    pub read_queue: Vec<PtyMessage>,
}

impl Session {
    /// Well-formedness: terminal geometry is always non-zero.
    pub open spec fn wf(&self) -> bool {
        self.rows > 0 && self.cols > 0
    }

    /// A fresh running session with the given geometry and empty control
    /// channels, as inserted into the table once the factory has spawned
    /// the terminal and its child process.
    pub fn running(rows: u16, cols: u16) -> (r: Session)
        requires
            rows > 0,
            cols > 0,
        ensures
            r.wf(),
            r.rows == rows,
            r.cols == cols,
            r.state is Running,
            r.write_queue@ == Seq::<PtyMessage>::empty(),
            r.read_queue@ == Seq::<PtyMessage>::empty(),
    {
        Session {
            rows,
            cols,
            state: SessionState::Running,
            write_queue: Vec::new(),
            read_queue: Vec::new(),
        }
    }

    /// Marks the session fully torn down: called once both of its loops
    /// have been joined and the terminal handles released.
    pub fn terminated(self) -> (r: Session)
        ensures
            r.state is Terminated,
            r.rows == self.rows,
            r.cols == self.cols,
            r.write_queue@ == self.write_queue@,
            r.read_queue@ == self.read_queue@,
    {
        Session { state: SessionState::Terminated, ..self }
    }
}

} // verus!
