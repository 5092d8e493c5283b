//! The reader loop's protocol: one dedicated consumer per session that
//! interleaves non-blocking control checks with blocking terminal reads,
//! decodes each chunk of output as text, forwards it to the output sink,
//! and applies geometry changes — the live terminal handle lives on this
//! side.

use vstd::prelude::*;
use vstd::utf8::{decode_utf8, valid_utf8};

use crate::errors::PtyError;
use crate::session::PtyMessage;

verus! {

/// What the reader loop does after one non-blocking check of its control
/// channel.
pub enum ReaderStep {
    /// An `Interrupt` arrived: stop the loop now, before reading again.
    Stop,
    /// Apply this geometry to the terminal, then go on to the next read.
    Resize(u16, u16),
    /// No control work: go on to the next blocking read.
    Read,
}

/// The reader loop's decision for one non-blocking control check: an
/// interrupt stops the loop before it blocks in another read, geometry is
/// applied and reading goes on, and anything else — no message, or one
/// that carries nothing for the read side — just reads on.
pub fn reader_poll(msg: Option<&PtyMessage>) -> (r: ReaderStep)
    ensures
        msg is None ==> r is Read,
        msg matches Some(m) ==> (match m {
            PtyMessage::Interrupt => r is Stop,
            PtyMessage::Resize(rows, cols) => r == ReaderStep::Resize(*rows, *cols),
            PtyMessage::Write(_) => r is Read,
        }),
{
    match msg {
        Some(PtyMessage::Interrupt) => ReaderStep::Stop,
        Some(PtyMessage::Resize(rows, cols)) => ReaderStep::Resize(*rows, *cols),
        Some(PtyMessage::Write(_)) => ReaderStep::Read,
        None => ReaderStep::Read,
    }
}

/// Relies on `std::str::from_utf8`: it returns `Ok` exactly when the bytes
/// are valid UTF-8, and then the string holds their decoding.
#[verifier::external_body]
fn utf8_to_string(bytes: &Vec<u8>) -> (r: Option<String>)
    ensures
        r is Some <==> valid_utf8(bytes@),
        r matches Some(s) ==> s@ == decode_utf8(bytes@),
{
    match std::str::from_utf8(bytes.as_slice()) {
        Ok(s) => Some(s.to_owned()),
        Err(_) => None,
    }
}

/// Decodes one chunk of terminal output as text. Decoding is strict: a
/// malformed byte sequence is not replaced lossily but reported as a
/// `ReadError`, which is fatal to the reader loop that hits it.
pub fn decode_chunk(bytes: &Vec<u8>) -> (r: Result<String, PtyError>)
    ensures
        r is Ok <==> valid_utf8(bytes@),
        r matches Ok(s) ==> s@ == decode_utf8(bytes@),
        r matches Err(e) ==> e is ReadError,
{
    match utf8_to_string(bytes) {
        Some(s) => Ok(s),
        None => Err(PtyError::ReadError("terminal output is not valid text".to_owned())),
    }
}

/// One observation made by the reader loop: either its non-blocking
/// control check handed it a message, or the check was empty and the
/// blocking terminal read returned a chunk of output bytes.
pub enum ReaderEvent {
    /// The control channel held this message.
    Control(PtyMessage),
    /// The blocking read returned these bytes.
    Chunk(Vec<u8>),
}

/// How a reader loop left off after a sequence of observations.
#[derive(Clone, Copy, Debug, PartialEq, Eq, Structural)]
pub enum ReaderOutcome {
    /// An `Interrupt` was observed and the loop stopped.
    Stopped,
    /// A chunk failed to decode; the loop died with a `ReadError`.
    Failed,
    /// Every observation was consumed and the loop reads on.
    Reading,
}

/// The texts the reader loop forwards to the output sink, in order, while
/// consuming these observations: each chunk's decoding, up to the first
/// interrupt or the first malformed chunk — after either, nothing more is
/// ever emitted.
pub open spec fn reader_texts(events: Seq<ReaderEvent>) -> Seq<Seq<char>>
    decreases events.len(),
{
    if events.len() == 0 {
        Seq::empty()
    } else {
        match events[0] {
            ReaderEvent::Control(m) => if m is Interrupt {
                Seq::empty()
            } else {
                reader_texts(events.drop_first())
            },
            ReaderEvent::Chunk(b) => if valid_utf8(b@) {
                seq![decode_utf8(b@)] + reader_texts(events.drop_first())
            } else {
                Seq::empty()
            },
        }
    }
}

/// The geometry the terminal is left with after these observations,
/// starting from `(rows, cols)`: the last `Resize` applied before the
/// loop stopped.
pub open spec fn reader_geometry(events: Seq<ReaderEvent>, rows: u16, cols: u16) -> (u16, u16)
    decreases events.len(),
{
    if events.len() == 0 {
        (rows, cols)
    } else {
        match events[0] {
            ReaderEvent::Control(m) => match m {
                PtyMessage::Interrupt => (rows, cols),
                PtyMessage::Resize(r, c) => reader_geometry(events.drop_first(), r, c),
                PtyMessage::Write(_) => reader_geometry(events.drop_first(), rows, cols),
            },
            ReaderEvent::Chunk(b) => if valid_utf8(b@) {
                reader_geometry(events.drop_first(), rows, cols)
            } else {
                (rows, cols)
            },
        }
    }
}

/// How the reader loop leaves off on these observations.
pub open spec fn reader_outcome(events: Seq<ReaderEvent>) -> ReaderOutcome
    decreases events.len(),
{
    if events.len() == 0 {
        ReaderOutcome::Reading
    } else {
        match events[0] {
            ReaderEvent::Control(m) => if m is Interrupt {
                ReaderOutcome::Stopped
            } else {
                reader_outcome(events.drop_first())
            },
            ReaderEvent::Chunk(b) => if valid_utf8(b@) {
                reader_outcome(events.drop_first())
            } else {
                ReaderOutcome::Failed
            },
        }
    }
}

/// The outcome of a reader loop consuming a sequence of observations.
pub struct ReaderRun {
    /// The decoded texts handed to the output sink, in order.
    pub emitted: Vec<String>,
    /// Terminal height the loop last applied.
    pub rows: u16,
    /// Terminal width the loop last applied.
    pub cols: u16,
    /// How the loop left off.
    pub outcome: ReaderOutcome,
}

/// The reader loop over a sequence of observations, starting from the
/// geometry the session was created with: decodes and forwards every chunk
/// in order, applies geometry as it is told to, stops the moment it sees
/// an interrupt, and dies on the first malformed chunk.
pub fn run_reader(events: &Vec<ReaderEvent>, rows: u16, cols: u16) -> (r: ReaderRun)
    ensures
        r.emitted.deep_view() == reader_texts(events@),
        (r.rows, r.cols) == reader_geometry(events@, rows, cols),
        r.outcome == reader_outcome(events@),
{
    let mut emitted: Vec<String> = Vec::new();
    let mut cur_rows = rows;
    let mut cur_cols = cols;
    let n = events.len();
    let mut i: usize = 0;
    proof {
        assert(events@.skip(0) =~= events@);
        assert(emitted.deep_view() =~= Seq::<Seq<char>>::empty());
        assert(emitted.deep_view() + reader_texts(events@) =~= reader_texts(events@));
    }
    while i < n
        invariant
            n == events@.len(),
            0 <= i <= n,
            reader_texts(events@) == emitted.deep_view() + reader_texts(events@.skip(i as int)),
            reader_geometry(events@, rows, cols) == reader_geometry(
                events@.skip(i as int),
                cur_rows,
                cur_cols,
            ),
            reader_outcome(events@) == reader_outcome(events@.skip(i as int)),
        decreases n - i,
    {
        proof {
            assert(events@.skip(i as int)[0] == events@[i as int]);
            assert(events@.skip(i as int).drop_first() =~= events@.skip(i as int + 1));
        }
        match &events[i] {
            ReaderEvent::Control(m) => {
                match reader_poll(Some(m)) {
                    ReaderStep::Stop => {
                        return ReaderRun {
                            emitted,
                            rows: cur_rows,
                            cols: cur_cols,
                            outcome: ReaderOutcome::Stopped,
                        };
                    },
                    ReaderStep::Resize(r, c) => {
                        cur_rows = r;
                        cur_cols = c;
                    },
                    ReaderStep::Read => {},
                }
            },
            ReaderEvent::Chunk(b) => {
                match decode_chunk(b) {
                    Ok(s) => {
                        let ghost pre = emitted.deep_view();
                        emitted.push(s);
                        proof {
                            assert(emitted.deep_view() =~= pre.push(s@)) by {
                                assert forall|j: int|
                                    0 <= j < emitted.deep_view().len() implies #[trigger] emitted.deep_view()[j]
                                    == pre.push(s@)[j] by {
                                    if j < pre.len() {
                                        assert(emitted@[j] == emitted@.drop_last()[j]);
                                    }
                                }
                            }
                            assert(emitted.deep_view() + reader_texts(events@.skip(i as int + 1))
                                =~= pre + (seq![decode_utf8(b@)] + reader_texts(
                                events@.skip(i as int + 1),
                            )));
                        }
                    },
                    Err(_) => {
                        return ReaderRun {
                            emitted,
                            rows: cur_rows,
                            cols: cur_cols,
                            outcome: ReaderOutcome::Failed,
                        };
                    },
                }
            },
        }
        i = i + 1;
    }
    proof {
        assert(events@.skip(n as int) =~= Seq::<ReaderEvent>::empty());
        assert(emitted.deep_view() + Seq::<Seq<char>>::empty() =~= emitted.deep_view());
    }
    ReaderRun { emitted, rows: cur_rows, cols: cur_cols, outcome: ReaderOutcome::Reading }
}

/// Geometry round trip: a resize that reaches a loop still reading — one
/// that has hit neither an interrupt nor a malformed chunk — is applied
/// exactly, and the terminal is left with precisely the requested
/// dimensions, whatever geometry it started from or was given meanwhile.
pub proof fn lemma_resize_applies(
    events: Seq<ReaderEvent>,
    rows: u16,
    cols: u16,
    start_rows: u16,
    start_cols: u16,
)
    requires
        reader_outcome(events) is Reading,
    ensures
        reader_geometry(
            events.push(ReaderEvent::Control(PtyMessage::Resize(rows, cols))),
            start_rows,
            start_cols,
        ) == (rows, cols),
    decreases events.len(),
{
    let ext = events.push(ReaderEvent::Control(PtyMessage::Resize(rows, cols)));
    if events.len() == 0 {
        assert(ext[0] == ReaderEvent::Control(PtyMessage::Resize(rows, cols)));
        assert(ext.drop_first() =~= Seq::<ReaderEvent>::empty());
        assert(reader_geometry(ext, start_rows, start_cols) == reader_geometry(
            ext.drop_first(),
            rows,
            cols,
        ));
        assert(reader_geometry(Seq::<ReaderEvent>::empty(), rows, cols) == (rows, cols));
    } else {
        assert(ext[0] == events[0]);
        assert(ext.drop_first() =~= events.drop_first().push(
            ReaderEvent::Control(PtyMessage::Resize(rows, cols)),
        ));
        match events[0] {
            ReaderEvent::Control(m) => match m {
                PtyMessage::Interrupt => {
                    assert(false);
                },
                PtyMessage::Resize(r, c) => {
                    lemma_resize_applies(events.drop_first(), rows, cols, r, c);
                },
                PtyMessage::Write(_) => {
                    lemma_resize_applies(events.drop_first(), rows, cols, start_rows, start_cols);
                },
            },
            ReaderEvent::Chunk(b) => {
                assert(valid_utf8(b@));
                lemma_resize_applies(events.drop_first(), rows, cols, start_rows, start_cols);
            },
        }
    }
}

/// No output outlives shutdown: everything the reader loop ever emits was
/// read before the interrupt was observed — once `destroy` has queued the
/// interrupt and the loop has seen it, not one further text reaches the
/// output sink.
pub proof fn lemma_no_output_after_interrupt(events: Seq<ReaderEvent>, i: int)
    requires
        0 <= i < events.len(),
        events[i] matches ReaderEvent::Control(m) && m is Interrupt,
    ensures
        reader_texts(events) == reader_texts(events.take(i)),
    decreases i,
{
    if i == 0 {
        assert(reader_texts(events) =~= Seq::<Seq<char>>::empty());
        assert(events.take(0) =~= Seq::<ReaderEvent>::empty());
    } else {
        let rest = events.drop_first();
        assert(events.take(i).drop_first() =~= rest.take(i - 1));
        assert(events.take(i)[0] == events[0]);
        assert(rest[i - 1] == events[i]);
        match events[0] {
            ReaderEvent::Control(m) => {
                if m is Interrupt {
                    assert(reader_texts(events) =~= Seq::<Seq<char>>::empty());
                    assert(reader_texts(events.take(i)) =~= Seq::<Seq<char>>::empty());
                } else {
                    lemma_no_output_after_interrupt(rest, i - 1);
                }
            },
            ReaderEvent::Chunk(b) => {
                if valid_utf8(b@) {
                    lemma_no_output_after_interrupt(rest, i - 1);
                } else {
                    assert(reader_texts(events) =~= Seq::<Seq<char>>::empty());
                    assert(reader_texts(events.take(i)) =~= Seq::<Seq<char>>::empty());
                }
            },
        }
    }
}

} // verus!
