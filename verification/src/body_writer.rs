//! The writer handed to a streaming request body.

use crate::buffer::bytes_contents;
use crate::buffer::bytes_mut_contents;
use crate::channel::send_error_disconnected;
use crate::progress::Progress;
use bytes::Bytes;
use bytes::BytesMut;
use core::task::Context;
use futures::channel::mpsc::SendError;
use futures::channel::mpsc::Sender;
use vstd::prelude::*;

verus! {

/// The number of buffered bytes above which the next write flushes first.
pub const FLUSH_THRESHOLD: usize = 4096;

/// One unit sent from the body producer to the transport.
pub enum BodyPart {
    Chunk(Bytes),
    Done,
}

/// What a body part is to a contract.
pub enum PartModel {
    Chunk(Seq<u8>),
    Done,
}

impl View for BodyPart {
    type V = PartModel;

    open spec fn view(&self) -> PartModel {
        match *self {
            BodyPart::Chunk(b) => PartModel::Chunk(bytes_contents(b)),
            BodyPart::Done => PartModel::Done,
        }
    }
}

/// Why a write was refused.
pub enum WriteError {
    /// The channel refused the part: the receiving side is gone.
    Closed(SendError),
    /// The writer was finished before.
    Finished,
}

/// The answer of the channel to the question whether it can take a part.
enum ChannelPoll {
    Ready,
    Pending,
    Closed(SendError),
}

/// `Sender::poll_ready`: ready, not yet ready (the task is then woken through
/// `cx` once there is room), or failed. Which of the three it is depends on
/// the receiving side; the one failure that the call knows is that the
/// receiver is gone.
#[verifier::external_body]
fn channel_poll_ready(sender: &mut Sender<BodyPart>, cx: &mut Context<'_>) -> (r: ChannelPoll)
    ensures
        r matches ChannelPoll::Closed(e) ==> send_error_disconnected(e),
{
    match sender.poll_ready(cx) {
        core::task::Poll::Ready(Ok(())) => ChannelPoll::Ready,
        core::task::Poll::Ready(Err(e)) => ChannelPoll::Closed(e),
        core::task::Poll::Pending => ChannelPoll::Pending,
    }
}

/// The answer of a wait for room, for each answer of the channel: a receiver
/// that is gone counts as drained.
spec fn drain_answer(answer: ChannelPoll) -> Progress<Result<(), WriteError>> {
    match answer {
        ChannelPoll::Pending => Progress::Pending,
        ChannelPoll::Ready => Progress::Ready(Ok(())),
        ChannelPoll::Closed(e) => if send_error_disconnected(e) {
            Progress::Ready(Ok(()))
        } else {
            Progress::Ready(Err(WriteError::Closed(e)))
        },
    }
}

/// Turns an answer of the channel into the answer of a wait for room.
fn drained(answer: ChannelPoll) -> (r: Progress<Result<(), WriteError>>)
    ensures
        r == drain_answer(answer),
{
    match answer {
        ChannelPoll::Pending => Progress::Pending,
        ChannelPoll::Ready => Progress::Ready(Ok(())),
        ChannelPoll::Closed(e) => {
            if e.is_disconnected() {
                Progress::Ready(Ok(()))
            } else {
                Progress::Ready(Err(WriteError::Closed(e)))
            }
        },
    }
}

/// The answer of a send that cannot hand its part over yet, for each answer
/// of the channel: no answer where the channel has room.
spec fn wait_answer(answer: ChannelPoll) -> Option<Progress<Result<(), WriteError>>> {
    match answer {
        ChannelPoll::Ready => None,
        ChannelPoll::Pending => Some(Progress::Pending),
        ChannelPoll::Closed(e) => Some(Progress::Ready(Err(WriteError::Closed(e)))),
    }
}

/// Turns an answer of the channel into the answer of a send that has to
/// wait or fail, if it has to.
fn waiting(answer: ChannelPoll) -> (r: Option<Progress<Result<(), WriteError>>>)
    ensures
        r == wait_answer(answer),
{
    match answer {
        ChannelPoll::Ready => None,
        ChannelPoll::Pending => Some(Progress::Pending),
        ChannelPoll::Closed(e) => Some(Progress::Ready(Err(WriteError::Closed(e)))),
    }
}

/// The bytes of all chunks of a sequence of parts, in order.
pub open spec fn payload(parts: Seq<PartModel>) -> Seq<u8>
    decreases parts.len(),
{
    if parts.len() == 0 {
        Seq::<u8>::empty()
    } else {
        payload(parts.drop_last()) + match parts.last() {
            PartModel::Chunk(b) => b,
            PartModel::Done => Seq::<u8>::empty(),
        }
    }
}

/// The asynchronous writer handed to a streaming body.
///
/// Small writes are gathered in a buffer; the buffer travels to the channel
/// as one chunk when a write finds more than [`FLUSH_THRESHOLD`] bytes in it,
/// on an explicit flush, before a chunk written with `write_bytes`, and on
/// `finish`. Every operation is one poll: `Pending` means that the channel
/// has no room yet and that the task is woken once it has.
pub struct BodyWriter {
    sender: Sender<BodyPart>,
    buf: BytesMut,
    log: SendLog,
}

/// What has gone to the channel: the parts accepted, and whether the
/// terminal marker was among them.
struct SendLog {
    finished: bool,
    parts: Ghost<Seq<PartModel>>,
}

impl BodyWriter {
    /// The bytes accepted but not yet handed to the channel.
    pub closed spec fn buffered(&self) -> Seq<u8> {
        bytes_mut_contents(self.buf)
    }

    /// The parts that the channel has accepted, oldest first.
    pub closed spec fn sent(&self) -> Seq<PartModel> {
        self.log.parts@
    }

    /// Whether the terminal marker has been sent.
    pub closed spec fn is_finished(&self) -> bool {
        self.log.finished
    }

    /// Only the last part sent can be the terminal marker, it is the last
    /// part exactly when the writer is finished, and a finished writer
    /// buffers nothing.
    pub open spec fn wf(&self) -> bool {
        &&& forall|i: int| 0 <= i < self.sent().len() - 1 ==> self.sent()[i] is Chunk
        &&& self.is_finished() <==> (self.sent().len() > 0 && self.sent().last() is Done)
        &&& self.is_finished() ==> self.buffered().len() == 0
    }

    /// Every byte accepted so far, in the order written.
    pub open spec fn written(&self) -> Seq<u8> {
        payload(self.sent()) + self.buffered()
    }

    /// The parts sent once the buffer has been flushed.
    pub open spec fn after_flush(&self) -> Seq<PartModel> {
        if self.buffered().len() > 0 {
            self.sent().push(PartModel::Chunk(self.buffered()))
        } else {
            self.sent()
        }
    }

    /// Nothing has happened between `pre` and `self`.
    pub open spec fn same_as(&self, pre: &BodyWriter) -> bool {
        &&& self.sent() == pre.sent()
        &&& self.buffered() == pre.buffered()
        &&& self.is_finished() == pre.is_finished()
    }

    /// The buffer of `pre` has been flushed, and nothing else has happened.
    pub open spec fn flushed_from(&self, pre: &BodyWriter) -> bool {
        &&& self.sent() == pre.after_flush()
        &&& self.buffered() == Seq::<u8>::empty()
        &&& self.is_finished() == pre.is_finished()
    }

    /// The buffer of `pre` has been flushed and then `part` has been sent.
    pub open spec fn sent_after(&self, pre: &BodyWriter, part: PartModel) -> bool {
        &&& self.sent() == pre.after_flush().push(part)
        &&& self.buffered() == Seq::<u8>::empty()
        &&& self.is_finished() == (pre.is_finished() || part is Done)
    }

    /// The channel refused somewhere on the way from `pre`: no part has been
    /// sent since, except perhaps the flushed buffer, and the buffer is as it
    /// was or has been lost with the refused chunk.
    pub open spec fn broken_from(&self, pre: &BodyWriter) -> bool {
        &&& self.is_finished() == pre.is_finished()
        &&& self.sent() == pre.sent() || self.sent() == pre.after_flush()
        &&& self.buffered() == pre.buffered() || self.buffered() == Seq::<u8>::empty()
    }

    /// A writer onto `sender` that has accepted nothing yet.
    pub fn new(sender: Sender<BodyPart>) -> (w: BodyWriter)
        ensures
            w.wf(),
            w.sent() == Seq::<PartModel>::empty(),
            w.buffered() == Seq::<u8>::empty(),
            !w.is_finished(),
    {
        BodyWriter {
            sender,
            buf: BytesMut::new(),
            log: SendLog { finished: false, parts: Ghost(Seq::empty()) },
        }
    }

    /// The number of bytes waiting in the buffer.
    pub fn buffered_len(&self) -> (n: usize)
        ensures
            n == self.buffered().len(),
    {
        self.buf.len()
    }

    /// Whether `finish` has sent the terminal marker.
    pub fn finished(&self) -> (f: bool)
        ensures
            f == self.is_finished(),
    {
        self.log.finished
    }

    /// Waits for room in the channel without sending anything. A receiver
    /// that is gone counts as drained, and the channel knows no other
    /// failure: the wait never fails.
    fn poll_drain(&mut self, cx: &mut Context<'_>) -> (r: Progress<Result<(), WriteError>>)
        ensures
            final(self).same_as(old(self)),
            r == Progress::<Result<(), WriteError>>::Pending || r == Progress::<
                Result<(), WriteError>,
            >::Ready(Ok(())),
    {
        drained(channel_poll_ready(&mut self.sender, cx))
    }

    /// Takes note of what the channel said to a part that was handed to it:
    /// an accepted part joins the parts sent, and the writer is finished if
    /// it was the last; after a refusal the writer is as before.
    fn record(&mut self, part: Ghost<PartModel>, last: bool, said: Result<(), SendError>) -> (r:
        Progress<Result<(), WriteError>>)
        ensures
            final(self).buffered() == old(self).buffered(),
            match said {
                Ok(()) => {
                    &&& r == Progress::<Result<(), WriteError>>::Ready(Ok(()))
                    &&& final(self).sent() == old(self).sent().push(part@)
                    &&& final(self).is_finished() == last
                },
                Err(e) => {
                    &&& r == Progress::<Result<(), WriteError>>::Ready(Err(WriteError::Closed(e)))
                    &&& final(self).same_as(old(self))
                },
            },
    {
        match said {
            Ok(()) => {
                self.log = SendLog { finished: last, parts: Ghost(self.log.parts@.push(part@)) };
                Progress::Ready(Ok(()))
            },
            Err(e) => Progress::Ready(Err(WriteError::Closed(e))),
        }
    }

    /// Waits for room and hands the part in `slot` to the channel.
    ///
    /// While the channel has no room the part stays in `slot`. Once it has,
    /// the part is taken out and handed over; if the channel accepts it, it
    /// joins the parts sent, and the terminal marker finishes the writer.
    fn poll_part(&mut self, cx: &mut Context<'_>, slot: &mut Option<BodyPart>) -> (r: Progress<
        Result<(), WriteError>,
    >)
        requires
            old(self).wf(),
            !old(self).is_finished(),
            old(self).buffered().len() == 0,
            *old(slot) is Some,
        ensures
            final(self).buffered() == old(self).buffered(),
            match r {
                Progress::Ready(Ok(())) => {
                    &&& *final(slot) is None
                    &&& final(self).sent() == old(self).sent().push(old(slot)->0@)
                    &&& final(self).is_finished() == (old(slot)->0 is Done)
                },
                Progress::Pending => {
                    &&& *final(slot) == *old(slot)
                    &&& final(self).sent() == old(self).sent()
                    &&& !final(self).is_finished()
                },
                Progress::Ready(Err(e)) => {
                    &&& e is Closed
                    &&& *final(slot) == *old(slot) || *final(slot) is None
                    &&& final(self).sent() == old(self).sent()
                    &&& !final(self).is_finished()
                },
            },
    {
        match waiting(channel_poll_ready(&mut self.sender, cx)) {
            Some(answer) => {
                return answer;
            },
            None => {},
        }
        let part = slot.take().unwrap();
        let ghost model = part@;
        let last = match &part {
            BodyPart::Chunk(_) => false,
            BodyPart::Done => true,
        };
        let said = self.sender.start_send(part);
        self.record(Ghost(model), last, said)
    }

    /// Hands the buffered bytes to the channel as one chunk.
    ///
    /// With an empty buffer there is nothing to do. Otherwise the chunk is
    /// sent as soon as the channel has room.
    pub fn poll_flush(&mut self, cx: &mut Context<'_>) -> (r: Progress<Result<(), WriteError>>)
        requires
            old(self).wf(),
        ensures
            final(self).wf(),
            old(self).buffered().len() == 0 ==> r == Progress::<Result<(), WriteError>>::Ready(
                Ok(()),
            ),
            match r {
                Progress::Ready(Ok(())) => {
                    &&& final(self).flushed_from(old(self))
                    &&& payload(final(self).sent()) == old(self).written()
                },
                Progress::Pending => final(self).same_as(old(self)),
                Progress::Ready(Err(e)) => {
                    &&& e is Closed
                    &&& final(self).sent() == old(self).sent()
                    &&& final(self).is_finished() == old(self).is_finished()
                    &&& final(self).buffered() == old(self).buffered() || final(self).buffered()
                        == Seq::<u8>::empty()
                },
            },
    {
        if self.buf.is_empty() {
            assert(self.buffered() =~= Seq::<u8>::empty());
            return Progress::Ready(Ok(()));
        }
        match channel_poll_ready(&mut self.sender, cx) {
            ChannelPoll::Pending => {
                return Progress::Pending;
            },
            ChannelPoll::Closed(e) => {
                return Progress::Ready(Err(WriteError::Closed(e)));
            },
            ChannelPoll::Ready => {},
        }
        let chunk = self.buf.split().freeze();
        let ghost part = PartModel::Chunk(bytes_contents(chunk));
        match self.sender.start_send(BodyPart::Chunk(chunk)) {
            Ok(()) => {
                proof {
                    assert(self.log.parts@.push(part).drop_last() =~= self.log.parts@);
                }
                self.log = SendLog { finished: false, parts: Ghost(self.log.parts@.push(part)) };
                Progress::Ready(Ok(()))
            },
            Err(e) => Progress::Ready(Err(WriteError::Closed(e))),
        }
    }

    /// Accepts `data` into the buffer, all of it or none.
    ///
    /// A write that finds more than [`FLUSH_THRESHOLD`] bytes buffered flushes
    /// them first and waits for the channel if it must. A finished writer
    /// refuses every write.
    pub fn poll_write(&mut self, cx: &mut Context<'_>, data: &[u8]) -> (r: Progress<
        Result<usize, WriteError>,
    >)
        requires
            old(self).wf(),
            data@.len() + FLUSH_THRESHOLD <= usize::MAX,
        ensures
            final(self).wf(),
            !old(self).is_finished() && old(self).buffered().len() <= FLUSH_THRESHOLD ==> r
                is Ready && r->Ready_0 is Ok,
            match r {
                Progress::Ready(Ok(n)) => {
                    &&& n == data@.len()
                    &&& !old(self).is_finished()
                    &&& final(self).is_finished() == old(self).is_finished()
                    &&& final(self).written() == old(self).written() + data@
                    &&& if old(self).buffered().len() > FLUSH_THRESHOLD {
                        &&& final(self).sent() == old(self).after_flush()
                        &&& final(self).buffered() == data@
                    } else {
                        &&& final(self).sent() == old(self).sent()
                        &&& final(self).buffered() == old(self).buffered() + data@
                    }
                },
                Progress::Pending => {
                    &&& !old(self).is_finished()
                    &&& old(self).buffered().len() > FLUSH_THRESHOLD
                    &&& final(self).same_as(old(self))
                },
                Progress::Ready(Err(WriteError::Finished)) => {
                    &&& old(self).is_finished()
                    &&& final(self).same_as(old(self))
                },
                Progress::Ready(Err(WriteError::Closed(_))) => {
                    &&& !old(self).is_finished()
                    &&& old(self).buffered().len() > FLUSH_THRESHOLD
                    &&& final(self).broken_from(old(self))
                    &&& final(self).sent() == old(self).sent()
                },
            },
    {
        if self.log.finished {
            return Progress::Ready(Err(WriteError::Finished));
        }
        if self.buf.len() > FLUSH_THRESHOLD {
            match self.poll_flush(cx) {
                Progress::Pending => {
                    return Progress::Pending;
                },
                Progress::Ready(Err(e)) => {
                    return Progress::Ready(Err(e));
                },
                Progress::Ready(Ok(())) => {},
            }
        }
        self.buf.extend_from_slice(data);
        proof {
            assert(final(self).written() =~= old(self).written() + data@);
        }
        Progress::Ready(Ok(data.len()))
    }

    /// Sends the chunk in `slot` without copying it into the buffer.
    ///
    /// The buffer is flushed first, so that bytes leave in the order written;
    /// then the chunk is sent as soon as the channel has room and is taken out
    /// of `slot`; then the call waits until the channel has room again. A
    /// later poll with the emptied slot only waits, and never fails. A
    /// finished writer refuses a chunk. Where the channel refuses, the chunk
    /// has not been sent.
    pub fn write_bytes(&mut self, cx: &mut Context<'_>, slot: &mut Option<Bytes>) -> (r: Progress<
        Result<(), WriteError>,
    >)
        requires
            old(self).wf(),
        ensures
            final(self).wf(),
            match r {
                Progress::Ready(Ok(())) => {
                    &&& *final(slot) is None
                    &&& match *old(slot) {
                        Some(b) => {
                            &&& !old(self).is_finished()
                            &&& final(self).sent_after(
                                old(self),
                                PartModel::Chunk(bytes_contents(b)),
                            )
                            &&& final(self).written() == old(self).written() + bytes_contents(b)
                        },
                        None => final(self).same_as(old(self)),
                    }
                },
                Progress::Pending => {
                    ||| {
                        &&& *final(slot) == *old(slot)
                        &&& final(self).same_as(old(self)) || final(self).flushed_from(old(self))
                    }
                    ||| {
                        &&& *old(slot) is Some
                        &&& *final(slot) is None
                        &&& final(self).sent_after(
                            old(self),
                            PartModel::Chunk(bytes_contents(old(slot)->0)),
                        )
                    }
                },
                Progress::Ready(Err(WriteError::Finished)) => {
                    &&& old(self).is_finished()
                    &&& *old(slot) is Some
                    &&& *final(slot) == *old(slot)
                    &&& final(self).same_as(old(self))
                },
                Progress::Ready(Err(WriteError::Closed(_))) => {
                    &&& *old(slot) is Some
                    &&& !old(self).is_finished()
                    &&& *final(slot) == *old(slot) || *final(slot) is None
                    &&& final(self).broken_from(old(self))
                },
            },
            *old(slot) is None ==> final(self).same_as(old(self)) && !(r is Ready && r->Ready_0
                is Err),
            *old(slot) is Some && old(self).is_finished() ==> r is Ready && r->Ready_0 is Err,
            *old(slot) is Some && !old(self).is_finished() ==> !(r matches Progress::Ready(
                Err(WriteError::Finished),
            )),
    {
        let ghost pre = *self;
        match slot.take() {
            None => {},
            Some(bytes) => {
                if self.log.finished {
                    *slot = Some(bytes);
                    return Progress::Ready(Err(WriteError::Finished));
                }
                match self.poll_flush(cx) {
                    Progress::Pending => {
                        *slot = Some(bytes);
                        return Progress::Pending;
                    },
                    Progress::Ready(Err(e)) => {
                        *slot = Some(bytes);
                        return Progress::Ready(Err(e));
                    },
                    Progress::Ready(Ok(())) => {},
                }
                let ghost chunk = bytes_contents(bytes);
                let mut part = Some(BodyPart::Chunk(bytes));
                match self.poll_part(cx, &mut part) {
                    Progress::Pending => {
                        match part {
                            Some(BodyPart::Chunk(b)) => {
                                *slot = Some(b);
                            },
                            _ => {},
                        }
                        return Progress::Pending;
                    },
                    Progress::Ready(Err(e)) => {
                        return Progress::Ready(Err(e));
                    },
                    Progress::Ready(Ok(())) => {
                        proof {
                            assert(self.sent().drop_last() =~= pre.after_flush());
                            assert(self.written() =~= pre.written() + chunk);
                        }
                    },
                }
            },
        }
        self.poll_drain(cx)
    }

    /// Ends the stream: flushes the buffer, sends the terminal marker, and
    /// waits until the channel has room again. A later poll only waits, and
    /// never fails. Where the channel refuses, the terminal marker has not
    /// been sent and the writer is not finished.
    pub fn finish(&mut self, cx: &mut Context<'_>) -> (r: Progress<Result<(), WriteError>>)
        requires
            old(self).wf(),
        ensures
            final(self).wf(),
            old(self).is_finished() ==> {
                &&& final(self).same_as(old(self))
                &&& !(r is Ready && r->Ready_0 is Err)
            },
            match r {
                Progress::Ready(Ok(())) => {
                    &&& final(self).is_finished()
                    &&& payload(final(self).sent()) == old(self).written()
                    &&& if old(self).is_finished() {
                        final(self).same_as(old(self))
                    } else {
                        final(self).sent_after(old(self), PartModel::Done)
                    }
                },
                Progress::Pending => {
                    ||| final(self).same_as(old(self))
                    ||| final(self).flushed_from(old(self))
                    ||| !old(self).is_finished() && final(self).sent_after(
                        old(self),
                        PartModel::Done,
                    )
                },
                Progress::Ready(Err(e)) => {
                    &&& e is Closed
                    &&& !old(self).is_finished()
                    &&& !final(self).is_finished()
                    &&& final(self).broken_from(old(self))
                },
            },
    {
        let ghost pre = *self;
        if !self.log.finished {
            match self.poll_flush(cx) {
                Progress::Pending => {
                    return Progress::Pending;
                },
                Progress::Ready(Err(e)) => {
                    return Progress::Ready(Err(e));
                },
                Progress::Ready(Ok(())) => {},
            }
            let mut part = Some(BodyPart::Done);
            match self.poll_part(cx, &mut part) {
                Progress::Pending => {
                    return Progress::Pending;
                },
                Progress::Ready(Err(e)) => {
                    return Progress::Ready(Err(e));
                },
                Progress::Ready(Ok(())) => {
                    proof {
                        assert(self.sent().drop_last() =~= pre.after_flush());
                    }
                },
            }
        }
        self.poll_drain(cx)
    }

    /// Nothing is left to do when the producer shuts the writer down: the
    /// stream ends with `finish`.
    pub fn poll_shutdown(&mut self, cx: &mut Context<'_>) -> (r: Progress<Result<(), WriteError>>)
        ensures
            *final(self) == *old(self),
            r == Progress::<Result<(), WriteError>>::Ready(Ok(())),
    {
        Progress::Ready(Ok(()))
    }
}

/// Appending a chunk appends its bytes to the payload; the terminal marker
/// adds none.
pub proof fn lemma_payload_push(parts: Seq<PartModel>, part: PartModel)
    ensures
        payload(parts.push(part)) == payload(parts) + match part {
            PartModel::Chunk(b) => b,
            PartModel::Done => Seq::<u8>::empty(),
        },
{
    assert(parts.push(part).drop_last() =~= parts);
}

/// In a well-formed writer no part follows the terminal marker: whatever
/// stands before another part is a chunk.
pub proof fn lemma_done_is_last(w: BodyWriter, i: int, j: int)
    requires
        w.wf(),
        0 <= i < j < w.sent().len(),
    ensures
        w.sent()[i] is Chunk,
{
}

} // verus!
