//! The writer loop's protocol: one dedicated consumer per session that
//! serializes every write to the terminal's input stream and performs the
//! write half of the shutdown handshake.

use vstd::prelude::*;
use vstd::utf8::encode_utf8;

use crate::session::PtyMessage;

verus! {

/// The end-of-file sentinel (ASCII end-of-transmission). Writing this one
/// byte to the terminal's input is what makes the reader loop's pending
/// blocking read return during shutdown.
pub const EOF_SENTINEL: u8 = 4;

/// True when some message in the queue is an `Interrupt`.
pub open spec fn has_interrupt(q: Seq<PtyMessage>) -> bool {
    exists|i: int| 0 <= i < q.len() && q[i] is Interrupt
}

/// Everything the writer loop writes to the terminal's input while
/// consuming this queue in order: the full text of each `Write` message,
/// then — at the first `Interrupt` — the end-of-file sentinel, after which
/// the loop has stopped and writes nothing more.
pub open spec fn writer_bytes(q: Seq<PtyMessage>) -> Seq<u8>
    decreases q.len(),
{
    if q.len() == 0 {
        Seq::empty()
    } else {
        match q[0] {
            PtyMessage::Write(s) => encode_utf8(s@) + writer_bytes(q.drop_first()),
            PtyMessage::Resize(_, _) => writer_bytes(q.drop_first()),
            PtyMessage::Interrupt => seq![EOF_SENTINEL],
        }
    }
}

/// How many messages the writer loop consumes from this queue before it
/// stops: all of them, or only those up to and including the first
/// `Interrupt`.
pub open spec fn writer_steps(q: Seq<PtyMessage>) -> int
    decreases q.len(),
{
    if q.len() == 0 {
        0
    } else if q[0] is Interrupt {
        1
    } else {
        1 + writer_steps(q.drop_first())
    }
}

/// What the writer loop does with one received message.
pub enum WriterAction {
    /// Write this text, in full, to the terminal's input, then consume the
    /// next message.
    Data(String),
    /// Write the end-of-file sentinel byte and stop the loop.
    Shutdown,
    /// Nothing to write on this side; consume the next message.
    Skip,
}

/// The writer loop's decision for one control message: text is written
/// through as it is, an interrupt becomes the sentinel write and stops the
/// loop, and geometry messages carry nothing for the write side.
pub fn writer_step(msg: &PtyMessage) -> (r: WriterAction)
    ensures
        msg matches PtyMessage::Write(s) ==> r matches WriterAction::Data(d) && d == s,
        msg is Interrupt ==> r is Shutdown,
        msg is Resize ==> r is Skip,
{
    match msg {
        PtyMessage::Write(s) => WriterAction::Data(s.clone()),
        PtyMessage::Interrupt => WriterAction::Shutdown,
        PtyMessage::Resize(_, _) => WriterAction::Skip,
    }
}

/// The outcome of a writer loop consuming one queue.
pub struct WriterRun {
    /// Every byte written to the terminal's input, in order.
    pub output: Vec<u8>,
    /// Whether the loop stopped on an `Interrupt` (as against running out
    /// of messages, the model of a closed channel).
    pub interrupted: bool,
    /// How many messages the loop consumed.
    pub consumed: usize,
}

/// The writer loop over a whole queue: consumes messages in order, writes
/// each `Write` text in full before looking at the next message, and stops
/// at the first `Interrupt` after writing the sentinel. The loop never
/// consumes more messages than the queue holds — with an interrupt queued,
/// shutdown comes within that bound.
pub fn run_writer(queue: &Vec<PtyMessage>) -> (r: WriterRun)
    ensures
        r.output@ == writer_bytes(queue@),
        r.interrupted == has_interrupt(queue@),
        r.consumed == writer_steps(queue@),
        r.consumed <= queue@.len(),
{
    let mut output: Vec<u8> = Vec::new();
    let n = queue.len();
    let mut i: usize = 0;
    proof {
        assert(queue@.skip(0) =~= queue@);
        assert(output@ + writer_bytes(queue@) =~= writer_bytes(queue@));
    }
    while i < n
        invariant
            n == queue@.len(),
            0 <= i <= n,
            !has_interrupt(queue@.take(i as int)),
            writer_bytes(queue@) == output@ + writer_bytes(queue@.skip(i as int)),
            writer_steps(queue@) == i + writer_steps(queue@.skip(i as int)),
        decreases n - i,
    {
        proof {
            assert(queue@.skip(i as int)[0] == queue@[i as int]);
            assert(queue@.skip(i as int).drop_first() =~= queue@.skip(i as int + 1));
        }
        match writer_step(&queue[i]) {
            WriterAction::Data(d) => {
                output.extend_from_slice(d.as_str().as_bytes());
            },
            WriterAction::Skip => {},
            WriterAction::Shutdown => {
                output.push(EOF_SENTINEL);
                let r = WriterRun { output, interrupted: true, consumed: i + 1 };
                proof {
                    assert(has_interrupt(queue@)) by {
                        assert(queue@[i as int] is Interrupt);
                    }
                }
                return r;
            },
        }
        proof {
            assert forall|j: int| 0 <= j < i + 1 implies !(#[trigger] queue@.take(i as int + 1)[j]
                is Interrupt) by {
                assert(queue@.take(i as int + 1)[j] == queue@[j]);
                if j < i {
                    assert(queue@.take(i as int)[j] == queue@[j]);
                }
            }
        }
        i = i + 1;
    }
    proof {
        assert(queue@.take(n as int) =~= queue@);
        assert(queue@.skip(n as int) =~= Seq::<PtyMessage>::empty());
    }
    WriterRun { output, interrupted: false, consumed: n }
}

/// Writing is first come, first served: what the writer writes for a
/// queue of two parts splits at the seam — while the earlier part holds
/// no shutdown, all of its bytes come out before any byte of the later
/// part.
pub proof fn lemma_writer_bytes_append(q1: Seq<PtyMessage>, q2: Seq<PtyMessage>)
    requires
        !has_interrupt(q1),
    ensures
        writer_bytes(q1 + q2) == writer_bytes(q1) + writer_bytes(q2),
    decreases q1.len(),
{
    if q1.len() == 0 {
        assert(q1 + q2 =~= q2);
        assert(writer_bytes(q1) + writer_bytes(q2) =~= writer_bytes(q2));
    } else {
        assert(!(q1[0] is Interrupt));
        assert(!has_interrupt(q1.drop_first())) by {
            assert forall|j: int| 0 <= j < q1.drop_first().len() implies !(#[trigger] q1.drop_first()[j]
                is Interrupt) by {
                assert(q1.drop_first()[j] == q1[j + 1]);
            }
        }
        lemma_writer_bytes_append(q1.drop_first(), q2);
        assert((q1 + q2).drop_first() =~= q1.drop_first() + q2);
        assert((q1 + q2)[0] == q1[0]);
        match q1[0] {
            PtyMessage::Write(s) => {
                assert(writer_bytes(q1 + q2) =~= writer_bytes(q1) + writer_bytes(q2));
            },
            PtyMessage::Resize(_, _) => {
                assert(writer_bytes(q1 + q2) =~= writer_bytes(q1) + writer_bytes(q2));
            },
            PtyMessage::Interrupt => {},
        }
    }
}

/// Ordering of writes: with no shutdown pending, enqueueing text `a` and
/// then text `b` makes the writer loop write all of `a`'s bytes strictly
/// before any of `b`'s.
pub proof fn lemma_write_ordering(q: Seq<PtyMessage>, a: PtyMessage, b: PtyMessage)
    requires
        !has_interrupt(q),
        a is Write,
        b is Write,
    ensures
        writer_bytes(q.push(a).push(b)) == writer_bytes(q) + encode_utf8(a.payload())
            + encode_utf8(b.payload()),
{
    let pair = seq![a, b];
    let tail = seq![b];
    assert(q.push(a).push(b) =~= q + pair);
    lemma_writer_bytes_append(q, pair);
    assert(pair.drop_first() =~= tail);
    assert(tail.drop_first() =~= Seq::<PtyMessage>::empty());
    match b {
        PtyMessage::Write(sb) => {
            assert(tail[0] == b);
            assert(writer_bytes(Seq::<PtyMessage>::empty()) =~= Seq::<u8>::empty());
            assert(writer_bytes(tail) == encode_utf8(sb@) + writer_bytes(tail.drop_first()));
            assert(encode_utf8(sb@) + Seq::<u8>::empty() =~= encode_utf8(sb@));
        },
        _ => {},
    }
    match a {
        PtyMessage::Write(sa) => {
            assert(pair[0] == a);
            assert(writer_bytes(pair) =~= encode_utf8(sa@) + writer_bytes(tail));
        },
        _ => {},
    }
    assert(writer_bytes(pair) =~= encode_utf8(a.payload()) + encode_utf8(b.payload()));
}

/// Shutdown is reached and is the writer's last act: once an `Interrupt`
/// is anywhere in the queue, the loop stops within the queue's own length,
/// and the last byte it ever writes is the end-of-file sentinel that
/// unblocks the reader loop's pending read.
pub proof fn lemma_writer_shutdown(q: Seq<PtyMessage>)
    requires
        has_interrupt(q),
    ensures
        writer_steps(q) <= q.len(),
        writer_bytes(q).len() > 0,
        writer_bytes(q).last() == EOF_SENTINEL,
    decreases q.len(),
{
    let i = choose|i: int| 0 <= i < q.len() && q[i] is Interrupt;
    if q[0] is Interrupt {
        assert(writer_bytes(q) =~= seq![EOF_SENTINEL]);
    } else {
        assert(q.drop_first()[i - 1] is Interrupt);
        assert(has_interrupt(q.drop_first()));
        lemma_writer_shutdown(q.drop_first());
        match q[0] {
            PtyMessage::Write(s) => {
                assert(writer_bytes(q) == encode_utf8(s@) + writer_bytes(q.drop_first()));
                assert(writer_bytes(q).last() == writer_bytes(q.drop_first()).last());
            },
            PtyMessage::Resize(_, _) => {},
            PtyMessage::Interrupt => {},
        }
    }
}

} // verus!
