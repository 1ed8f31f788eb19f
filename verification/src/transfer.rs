//! The payload of one physical attempt: how a body reaches the transport.
//!
//! A fully buffered body is handed over as it is, and the body is not
//! touched. A streaming body gets a writer onto a bounded channel whose
//! receiving end goes to the transport; the task then lets the body write
//! and ends the stream.

use crate::body::Body;
use crate::body::ResetTrackingBody;
use crate::body_writer::BodyPart;
use crate::body_writer::BodyWriter;
use crate::body_writer::PartModel;
use crate::body_writer::WriteError;
use crate::buffer::bytes_contents;
use crate::progress::Progress;
use bytes::Bytes;
use conjure_error::Error;
use core::task::Context;
use futures::channel::mpsc::Receiver;
use vstd::prelude::*;

verus! {

/// The number of parts that the channel between a body and the transport
/// holds beside the one that the writer may always put.
pub const BODY_CHANNEL_BUFFER: usize = 1;

/// What the transport gets to send.
pub enum Payload {
    /// The whole body.
    Full(Bytes),
    /// The end of the channel from which the parts of the body come.
    Stream(Receiver<BodyPart>),
}

/// Why the body did not get through.
pub enum TransferError {
    /// The body failed to produce its bytes.
    Body(Error),
    /// The transport no longer takes the parts.
    Channel(WriteError),
}

/// The producing side of one attempt's payload.
pub struct BodyTask {
    writer: Option<BodyWriter>,
    produced: bool,
}

impl BodyTask {
    /// Whether the task streams a body. The task of a fully buffered body has
    /// nothing to do.
    pub closed spec fn streaming(&self) -> bool {
        self.writer is Some
    }

    /// The writer of a streaming task.
    pub closed spec fn writer(&self) -> BodyWriter {
        self.writer->0
    }

    /// Whether the body has written all it has.
    pub closed spec fn produced(&self) -> bool {
        self.produced
    }

    /// The writer of a streaming task is as it should be.
    pub open spec fn wf(&self) -> bool {
        self.streaming() ==> self.writer().wf()
    }

    /// Whether the task streams a body.
    pub fn is_streaming(&self) -> (b: bool)
        ensures
            b == self.streaming(),
    {
        self.writer.is_some()
    }

    /// Drives the task one step.
    ///
    /// Nothing is ever written from a body that is fully buffered: whatever
    /// the task, a step on such a body is through at once and leaves the
    /// body as it is, with no need of a reset that it had not before. The
    /// task of such a body is one that does not stream. A streaming
    /// task lets the body write, which marks the body as in need of a reset,
    /// and, once the body is through, ends the stream: what the body left in
    /// the buffer is flushed, and the terminal marker follows.
    pub fn poll<T: Body>(&mut self, body: &mut ResetTrackingBody<T>, cx: &mut Context<'_>) -> (r:
        Progress<Result<(), TransferError>>)
        requires
            old(self).wf(),
            old(self).streaming() ==> old(body).full() is None,
        ensures
            final(self).wf(),
            final(self).streaming() == old(self).streaming(),
            final(body).full() == old(body).full(),
            old(body).full() is Some ==> {
                &&& r == Progress::<Result<(), TransferError>>::Ready(Ok(()))
                &&& *final(body) == *old(body)
                &&& final(body).dirty() == old(body).dirty()
            },
            !old(self).streaming() ==> {
                &&& r == Progress::<Result<(), TransferError>>::Ready(Ok(()))
                &&& *final(body) == *old(body)
                &&& *final(self) == *old(self)
            },
            old(self).streaming() && !old(self).produced() ==> final(body).dirty(),
            old(self).streaming() && old(self).produced() ==> {
                &&& *final(body) == *old(body)
                &&& final(self).produced()
            },
            old(self).streaming() && r == Progress::<Result<(), TransferError>>::Ready(Ok(()))
                ==> {
                &&& final(self).produced()
                &&& final(self).writer().is_finished()
                &&& final(self).writer().buffered().len() == 0
                &&& final(self).writer().sent().last() == PartModel::Done
            },
            r matches Progress::Ready(Err(TransferError::Body(_))) ==> !old(self).produced()
                && !final(self).produced(),
    {
        match &mut self.writer {
            None => Progress::Ready(Ok(())),
            Some(writer) => {
                if !self.produced {
                    match body.write(cx, writer) {
                        Progress::Pending => {
                            return Progress::Pending;
                        },
                        Progress::Ready(Err(e)) => {
                            return Progress::Ready(Err(TransferError::Body(e)));
                        },
                        Progress::Ready(Ok(())) => {
                            self.produced = true;
                        },
                    }
                }
                match writer.finish(cx) {
                    Progress::Pending => Progress::Pending,
                    Progress::Ready(Err(e)) => Progress::Ready(Err(TransferError::Channel(e))),
                    Progress::Ready(Ok(())) => Progress::Ready(Ok(())),
                }
            },
        }
    }
}

/// Prepares the payload of the next attempt.
///
/// A body that is fully buffered is handed over whole, with a task that has
/// nothing to do. For any other body a channel is opened: its receiving end
/// is the payload, and the task streams into it through a fresh writer.
pub fn begin_attempt<T: Body>(body: &ResetTrackingBody<T>) -> (r: (Payload, BodyTask))
    ensures
        r.1.wf(),
        !r.1.produced(),
        match r.0 {
            Payload::Full(bytes) => {
                &&& body.full() == Some(bytes_contents(bytes))
                &&& !r.1.streaming()
            },
            Payload::Stream(_) => {
                &&& body.full() is None
                &&& r.1.streaming()
                &&& r.1.writer().sent() == Seq::<PartModel>::empty()
                &&& r.1.writer().buffered() == Seq::<u8>::empty()
                &&& !r.1.writer().is_finished()
            },
        },
{
    match body.full_body() {
        Some(bytes) => (Payload::Full(bytes), BodyTask { writer: None, produced: false }),
        None => {
            let (sender, receiver) = futures::channel::mpsc::channel::<BodyPart>(
                BODY_CHANNEL_BUFFER,
            );
            (
                Payload::Stream(receiver),
                BodyTask { writer: Some(BodyWriter::new(sender)), produced: false },
            )
        },
    }
}

} // verus!
