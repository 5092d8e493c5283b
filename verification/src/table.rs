//! The session table and the caller-facing lifecycle operations.
//!
//! A table maps each session key to at most one live session. The
//! operations here are the decision half of the multiplexer: they look a
//! key up, record what must be sent on a session's control channels, and
//! say what the embedding program has to do next (spawn a terminal, send
//! the queued messages, join the loops). The long-running input/output of
//! the two loops never happens inside these functions, so the embedding
//! program can hold its table lock across any of these calls without ever
//! holding it during a blocking read or write.
//!
//! A session whose loops have died on their own — a stream error, or
//! terminal output that fails to decode — is not reaped eagerly: it is
//! discovered by the next operation that tries to reach it, which removes
//! the entry with [`destroy`] and reports `NotFound` to its caller.

use vstd::prelude::*;

use crate::errors::PtyError;
use crate::session::{PtyMessage, Session, SessionState};

verus! {

broadcast use vstd::std_specs::hash::group_hash_axioms;

/// The shared state of the multiplexer: the table of live sessions.
///
/// A key is present exactly while a session has been created and not yet
/// destroyed, and every session in the table is running with non-zero
/// geometry.
pub struct ApplicationState {
    /// The live sessions, keyed by their caller-visible handle.
    pub sessions: std::collections::HashMap<u32, Session>,
}

impl View for ApplicationState {
    type V = Map<u32, Session>;

    open spec fn view(&self) -> Map<u32, Session> {
        self.sessions@
    }
}

impl ApplicationState {
    /// Table invariant: every live session is well-formed and running.
    pub open spec fn wf(&self) -> bool {
        forall|k: u32|
            #[trigger] self@.contains_key(k) ==> self@[k].wf() && self@[k].state is Running
    }

    /// An empty table: no session exists yet.
    pub fn create() -> (r: Result<ApplicationState, PtyError>)
        ensures
            r matches Ok(state) && state@ == Map::<u32, Session>::empty(),
            r matches Ok(state) && state.wf(),
    {
        Ok(ApplicationState { sessions: std::collections::HashMap::new() })
    }
}

/// What a `create` call asks of the embedding program.
pub enum CreateStep {
    /// The key already had a live session; the requested geometry and a
    /// nudge have been queued for it and nothing is to be spawned.
    Attached,
    /// The key is free: spawn a terminal and its command through the
    /// factory, start the two loops, and on success call [`install`].
    NeedsSpawn,
}

/// True when `post` is `pre` with exactly one message appended.
pub open spec fn pushed_one(pre: Seq<PtyMessage>, post: Seq<PtyMessage>) -> bool {
    post.len() == pre.len() + 1 && post.take(pre.len() as int) == pre
}

/// Ensures-half of `create` for a key that already has a session: the
/// reader loop is told the requested geometry, the writer loop is nudged
/// with a newline, the stored geometry follows the request, and nothing
/// else — in this or any other session — changes.
pub open spec fn attached_to_existing(
    pre: Map<u32, Session>,
    post: Map<u32, Session>,
    key: u32,
    rows: u16,
    cols: u16,
) -> bool {
    &&& post.dom() == pre.dom()
    &&& post[key].rows == rows
    &&& post[key].cols == cols
    &&& post[key].state == pre[key].state
    &&& pushed_one(pre[key].read_queue@, post[key].read_queue@)
    &&& post[key].read_queue@.last() == PtyMessage::Resize(rows, cols)
    &&& pushed_one(pre[key].write_queue@, post[key].write_queue@)
    &&& post[key].write_queue@.last() is Write
    &&& post[key].write_queue@.last().payload() == "\n"@
    &&& forall|k: u32| k != key && pre.contains_key(k) ==> post[k] == pre[k]
}

/// Ensures that a session exists for `key` with the given geometry.
///
/// If the key already maps to a live session this is not a duplicate-
/// creation error: the existing session is kept — so concurrent calls for
/// one key spawn at most one underlying process — and is asked to take
/// the requested geometry, and its writer loop is nudged with a newline.
/// If the key is free, nothing changes yet: the caller must run the
/// terminal factory and, only if that spawn succeeds, call [`install`];
/// a factory failure is its `CreationError` and the key is never inserted.
pub fn create(state: &mut ApplicationState, key: u32, rows: u16, cols: u16) -> (r: CreateStep)
    requires
        old(state).wf(),
        rows > 0,
        cols > 0,
    ensures
        final(state).wf(),
        old(state)@.contains_key(key) ==> {
            &&& r is Attached
            &&& attached_to_existing(old(state)@, final(state)@, key, rows, cols)
        },
        !old(state)@.contains_key(key) ==> {
            &&& r is NeedsSpawn
            &&& final(state)@ == old(state)@
        },
{
    match state.sessions.remove(&key) {
        Some(mut session) => {
            session.read_queue.push(PtyMessage::Resize(rows, cols));
            session.write_queue.push(PtyMessage::Write("\n".to_owned()));
            session.rows = rows;
            session.cols = cols;
            state.sessions.insert(key, session);
            proof {
                assert(state@.dom() =~= old(state)@.dom());
                assert(state@[key].read_queue@.take(old(state)@[key].read_queue@.len() as int)
                    =~= old(state)@[key].read_queue@);
                assert(state@[key].write_queue@.take(old(state)@[key].write_queue@.len() as int)
                    =~= old(state)@[key].write_queue@);
            }
            CreateStep::Attached
        },
        None => CreateStep::NeedsSpawn,
    }
}

/// Inserts the session for a key whose terminal and command the factory
/// has just spawned: the second half of a `create` that found the key
/// free. The new session is running, has the geometry the factory was
/// given, and has empty control channels; every other session is
/// untouched. Returns the key, echoed back as the handle of the now-live
/// session.
pub fn install(state: &mut ApplicationState, key: u32, rows: u16, cols: u16) -> (r: u32)
    requires
        old(state).wf(),
        !old(state)@.contains_key(key),
        rows > 0,
        cols > 0,
    ensures
        final(state).wf(),
        r == key,
        final(state)@.dom() == old(state)@.dom().insert(key),
        final(state)@[key].state is Running,
        final(state)@[key].rows == rows,
        final(state)@[key].cols == cols,
        final(state)@[key].write_queue@ == Seq::<PtyMessage>::empty(),
        final(state)@[key].read_queue@ == Seq::<PtyMessage>::empty(),
        forall|k: u32| k != key && old(state)@.contains_key(k) ==> final(state)@[k] == old(state)@[k],
{
    let session = Session::running(rows, cols);
    state.sessions.insert(key, session);
    proof {
        assert(state@.dom() =~= old(state)@.dom().insert(key));
    }
    key
}

/// Enqueues `input` for the writer loop of the session at `key`, to be
/// written to the terminal after everything enqueued before it. The call
/// only enqueues — it never waits for the write to happen. A key with no
/// live session reports `NotFound` and changes nothing.
pub fn write(state: &mut ApplicationState, key: u32, input: String) -> (r: Result<(), PtyError>)
    requires
        old(state).wf(),
    ensures
        final(state).wf(),
        old(state)@.contains_key(key) ==> {
            &&& r is Ok
            &&& final(state)@.dom() == old(state)@.dom()
            &&& final(state)@[key].write_queue@ == old(state)@[key].write_queue@.push(
                PtyMessage::Write(input),
            )
            &&& final(state)@[key].read_queue@ == old(state)@[key].read_queue@
            &&& final(state)@[key].rows == old(state)@[key].rows
            &&& final(state)@[key].cols == old(state)@[key].cols
            &&& final(state)@[key].state == old(state)@[key].state
            &&& forall|k: u32|
                k != key && old(state)@.contains_key(k) ==> final(state)@[k] == old(state)@[k]
        },
        !old(state)@.contains_key(key) ==> {
            &&& r matches Err(e) && e is NotFound
            &&& final(state)@ == old(state)@
        },
{
    match state.sessions.remove(&key) {
        Some(mut session) => {
            session.write_queue.push(PtyMessage::Write(input));
            state.sessions.insert(key, session);
            proof {
                assert(state@.dom() =~= old(state)@.dom());
            }
            Ok(())
        },
        None => Err(PtyError::NotFound("no session with this key".to_owned())),
    }
}

/// Enqueues new geometry for the reader loop of the session at `key` —
/// the reader loop owns the live terminal handle, so geometry is applied
/// there, not on the writer side — and records it as the session's
/// requested geometry. A key with no live session reports `NotFound` and
/// changes nothing.
pub fn resize(state: &mut ApplicationState, key: u32, rows: u16, cols: u16) -> (r: Result<
    (),
    PtyError,
>)
    requires
        old(state).wf(),
        rows > 0,
        cols > 0,
    ensures
        final(state).wf(),
        old(state)@.contains_key(key) ==> {
            &&& r is Ok
            &&& final(state)@.dom() == old(state)@.dom()
            &&& final(state)@[key].read_queue@ == old(state)@[key].read_queue@.push(
                PtyMessage::Resize(rows, cols),
            )
            &&& final(state)@[key].write_queue@ == old(state)@[key].write_queue@
            &&& final(state)@[key].rows == rows
            &&& final(state)@[key].cols == cols
            &&& final(state)@[key].state == old(state)@[key].state
            &&& forall|k: u32|
                k != key && old(state)@.contains_key(k) ==> final(state)@[k] == old(state)@[k]
        },
        !old(state)@.contains_key(key) ==> {
            &&& r matches Err(e) && e is NotFound
            &&& final(state)@ == old(state)@
        },
{
    match state.sessions.remove(&key) {
        Some(mut session) => {
            session.read_queue.push(PtyMessage::Resize(rows, cols));
            session.rows = rows;
            session.cols = cols;
            state.sessions.insert(key, session);
            proof {
                assert(state@.dom() =~= old(state)@.dom());
            }
            Ok(())
        },
        None => Err(PtyError::NotFound("no session with this key".to_owned())),
    }
}

/// Removes the session at `key` and starts its shutdown handshake.
///
/// The returned session is the teardown order for the embedding program:
/// its read queue ends with an `Interrupt` and its write queue ends with
/// an `Interrupt`, and they must be delivered in that order — reader side
/// first, writer side second. The reader loop cannot act on its interrupt
/// while it is blocked in a terminal read; it is the writer loop,
/// processing its own interrupt, that writes the end-of-file sentinel
/// which makes that pending read return. Sent the other way around, the
/// writer could stop with the reader never told to, or the reader could
/// stay blocked forever. After both loops are joined the caller marks the
/// session [`Session::terminated`].
///
/// The key leaves the table here, so a repeated `destroy` — and any
/// `write` or `resize` that arrives after this call — reports `NotFound`
/// and changes nothing: destroying twice never tears down twice.
pub fn destroy(state: &mut ApplicationState, key: u32) -> (r: Result<Session, PtyError>)
    requires
        old(state).wf(),
    ensures
        final(state).wf(),
        old(state)@.contains_key(key) ==> {
            &&& r matches Ok(s) && {
                &&& s.state is Draining
                &&& s.rows == old(state)@[key].rows
                &&& s.cols == old(state)@[key].cols
                &&& s.wf()
                &&& s.read_queue@ == old(state)@[key].read_queue@.push(PtyMessage::Interrupt)
                &&& s.write_queue@ == old(state)@[key].write_queue@.push(PtyMessage::Interrupt)
            }
            &&& final(state)@ == old(state)@.remove(key)
            &&& !final(state)@.contains_key(key)
        },
        !old(state)@.contains_key(key) ==> {
            &&& r matches Err(e) && e is NotFound
            &&& final(state)@ == old(state)@
        },
{
    match state.sessions.remove(&key) {
        Some(mut session) => {
            session.read_queue.push(PtyMessage::Interrupt);
            session.write_queue.push(PtyMessage::Interrupt);
            session.state = SessionState::Draining;
            Ok(session)
        },
        None => Err(PtyError::NotFound("no session with this key".to_owned())),
    }
}

/// Destroy is idempotent: a successful `destroy` leaves the table without
/// the key, so a repeated `destroy` — like any `write` or `resize` sent
/// after it — finds no session and, by those operations' contracts,
/// reports `NotFound` and changes nothing: the session is never torn down
/// twice.
pub proof fn lemma_destroy_idempotent(table: Map<u32, Session>, key: u32)
    ensures
        !table.remove(key).contains_key(key),
{
}

} // verus!
