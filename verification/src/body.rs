//! Request bodies: the capability that a payload source implements, the
//! in-memory body, and the wrapper that remembers whether a body has to be
//! rewound before it is sent again.

use crate::body_writer::BodyWriter;
use crate::buffer::bytes_contents;
use crate::header::header_value_bytes;
use crate::progress::Progress;
use bytes::Bytes;
use conjure_error::Error;
use core::task::Context;
use hyper::header::HeaderValue;
use vstd::pervasive::unreached;
use vstd::prelude::*;

verus! {

/// A request body.
///
/// A body is either fully buffered, and then `full_body` hands out its bytes
/// and `write` is never called, or streaming, and then `write` produces the
/// bytes through a [`BodyWriter`]. `write` and `reset` are polled: `Pending`
/// means that the call has to be repeated once the task is woken.
pub trait Body {
    /// The whole payload, if the body is fully buffered. A body that does
    /// not say otherwise is a streaming one, whose `full_body` returns
    /// `None`.
    open spec fn full(&self) -> Option<Seq<u8>> {
        None
    }

    /// Returns the length of the body if known.
    fn content_length(&self) -> Option<u64>;

    /// Returns the content type of the body.
    fn content_type(&self) -> HeaderValue;

    /// Returns the entire body if it is fully buffered.
    ///
    /// `write` will only be called if this method returns `None`.
    fn full_body(&self) -> (b: Option<Bytes>)
        ensures
            match b {
                Some(bytes) => self.full() == Some(bytes_contents(bytes)),
                None => self.full() is None,
            },
    ;

    /// Writes the body data out. Called only on a body that is not fully
    /// buffered, which it then stays while the write is under way.
    fn write(&mut self, cx: &mut Context<'_>, w: &mut BodyWriter) -> (r: Progress<
        Result<(), Error>,
    >)
        requires
            old(self).full() is None,
            old(w).wf(),
        ensures
            final(self).full() is None,
            final(w).wf(),
    ;

    /// Resets the body to its start; `true` iff it could be.
    ///
    /// Requests with non-resettable bodies cannot be retried.
    fn reset(&mut self, cx: &mut Context<'_>) -> (r: Progress<bool>);
}

/// A body which consists of a byte buffer and a content type.
///
/// It reports its content length and is resettable.
pub struct BytesBody {
    body: Bytes,
    content_type: HeaderValue,
}

impl BytesBody {
    /// The payload.
    pub closed spec fn bytes(&self) -> Seq<u8> {
        bytes_contents(self.body)
    }

    /// The bytes of the content type.
    pub closed spec fn media_type(&self) -> Seq<u8> {
        header_value_bytes(self.content_type)
    }

    /// Creates a new `BytesBody`.
    pub fn new(body: Bytes, content_type: HeaderValue) -> (b: BytesBody)
        ensures
            b.bytes() == bytes_contents(body),
            b.media_type() == header_value_bytes(content_type),
    {
        BytesBody { body, content_type }
    }
}

impl Body for BytesBody {
    open spec fn full(&self) -> Option<Seq<u8>> {
        Some(self.bytes())
    }

    fn content_length(&self) -> (n: Option<u64>)
        ensures
            n == Some(self.bytes().len() as u64),
    {
        Some(self.body.len() as u64)
    }

    fn content_type(&self) -> (t: HeaderValue)
        ensures
            header_value_bytes(t) == self.media_type(),
    {
        self.content_type.clone()
    }

    fn full_body(&self) -> (b: Option<Bytes>)
        ensures
            b is Some,
    {
        Some(self.body.clone())
    }

    fn write(&mut self, cx: &mut Context<'_>, w: &mut BodyWriter) -> (r: Progress<
        Result<(), Error>,
    >) {
        unreached()
    }

    fn reset(&mut self, cx: &mut Context<'_>) -> (r: Progress<bool>)
        ensures
            r == Progress::Ready(true),
            *final(self) == *old(self),
    {
        Progress::Ready(true)
    }
}

/// A body together with the knowledge whether it must be rewound before it
/// can be sent again: it must from the moment `write` is called until a
/// `reset` succeeds.
pub struct ResetTrackingBody<T> {
    needs_reset: bool,
    body: T,
}

impl<T: Body> ResetTrackingBody<T> {
    /// The wrapped body.
    pub closed spec fn inner(&self) -> T {
        self.body
    }

    /// Whether the body has been written to since it was last at its start.
    pub closed spec fn dirty(&self) -> bool {
        self.needs_reset
    }

    pub fn new(body: T) -> (b: ResetTrackingBody<T>)
        ensures
            !b.dirty(),
            b.inner() == body,
    {
        ResetTrackingBody { needs_reset: false, body }
    }

    pub fn needs_reset(&self) -> (b: bool)
        ensures
            b == self.dirty(),
    {
        self.needs_reset
    }
}

impl<T: Body> Body for ResetTrackingBody<T> {
    open spec fn full(&self) -> Option<Seq<u8>> {
        self.inner().full()
    }

    fn content_length(&self) -> (n: Option<u64>)
        ensures
            T::content_length.ensures((&self.inner(),), n),
    {
        self.body.content_length()
    }

    fn content_type(&self) -> (t: HeaderValue)
        ensures
            T::content_type.ensures((&self.inner(),), t),
    {
        self.body.content_type()
    }

    fn full_body(&self) -> (b: Option<Bytes>)
        ensures
            T::full_body.ensures((&self.inner(),), b),
    {
        self.body.full_body()
    }

    /// Marks the body as in need of a reset and lets the wrapped body write:
    /// the answer is that of its `write` into the same writer, which has
    /// left the wrapped body and the writer as they are now.
    fn write(&mut self, cx: &mut Context<'_>, w: &mut BodyWriter) -> (r: Progress<
        Result<(), Error>,
    >)
        ensures
            final(self).dirty(),
            exists|body: &mut T, c: &mut Context<'_>, writer: &mut BodyWriter|
                *body == old(self).inner() && *final(body) == final(self).inner() && *writer
                    == *old(w) && *final(writer) == *final(w) && #[trigger] T::write.ensures(
                    (body, c, writer),
                    r,
                ),
    {
        self.needs_reset = true;
        self.body.write(cx, w)
    }

    /// Resets the wrapped body: the answer is that of its `reset`, which
    /// has left it as it is now, and only the answer `true` ends the need
    /// of a reset.
    fn reset(&mut self, cx: &mut Context<'_>) -> (r: Progress<bool>)
        ensures
            exists|body: &mut T, c: &mut Context<'_>|
                *body == old(self).inner() && *final(body) == final(self).inner()
                    && #[trigger] T::reset.ensures((body, c), r),
            final(self).dirty() == (old(self).dirty() && r != Progress::Ready(true)),
    {
        let r = self.body.reset(cx);
        match r {
            Progress::Ready(true) => {
                self.needs_reset = false;
            },
            _ => {},
        }
        r
    }
}

} // verus!
