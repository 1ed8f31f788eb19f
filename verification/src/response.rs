//! The response to a request: its head, and its body as a sequence of chunks
//! that the transport delivers one at a time.

use crate::buffer::bytes_contents;
use crate::buffer::bytes_copy_to_slice;
use crate::progress::Progress;
use bytes::Bytes;
use hyper::header::HeaderMap;
use hyper::StatusCode;
use vstd::prelude::*;

verus! {

/// What the transport delivers next: a chunk of the body, or its end.
pub enum Input {
    Chunk(Bytes),
    End,
}

/// A streaming response body.
///
/// The body holds what is left of the chunk delivered last. A read that finds
/// nothing left and the stream not ended answers `Pending`: the caller then
/// fetches the next chunk from the transport and hands it over with `feed`.
pub struct ResponseBody {
    cur: Bytes,
    ended: bool,
}

impl ResponseBody {
    /// The bytes delivered and not yet read.
    pub closed spec fn remaining(&self) -> Seq<u8> {
        bytes_contents(self.cur)
    }

    /// Whether the transport has signalled the end of the stream.
    pub closed spec fn ended(&self) -> bool {
        self.ended
    }

    /// Whether the next read has to wait for the transport.
    pub open spec fn starved(&self) -> bool {
        self.remaining().len() == 0 && !self.ended()
    }

    /// A body to which nothing has been delivered yet.
    pub fn new() -> (b: ResponseBody)
        ensures
            b.remaining() == Seq::<u8>::empty(),
            !b.ended(),
    {
        ResponseBody { cur: Bytes::new(), ended: false }
    }

    /// Whether the body waits for the next chunk.
    pub fn needs_input(&self) -> (b: bool)
        ensures
            b == self.starved(),
    {
        self.cur.is_empty() && !self.ended
    }

    /// Takes what the transport delivered. The body takes input only while
    /// it waits for some; otherwise the input comes back unused.
    pub fn feed(&mut self, input: Input) -> (r: Result<(), Input>)
        ensures
            match r {
                Ok(()) => {
                    &&& old(self).starved()
                    &&& match input {
                        Input::Chunk(b) => final(self).remaining() == bytes_contents(b)
                            && !final(self).ended(),
                        Input::End => final(self).remaining() == old(self).remaining()
                            && final(self).ended(),
                    }
                },
                Err(back) => {
                    &&& !old(self).starved()
                    &&& back == input
                    &&& *final(self) == *old(self)
                },
            },
    {
        if !self.needs_input() {
            return Err(input);
        }
        match input {
            Input::Chunk(b) => {
                self.cur = b;
            },
            Input::End => {
                self.ended = true;
            },
        }
        Ok(())
    }

    /// Reads the next chunk of bytes from the response: all that is left of
    /// the chunk delivered last. At the end of the stream the answer is
    /// `None`, however often it is asked for.
    pub fn read_bytes(&mut self) -> (r: Progress<Option<Bytes>>)
        ensures
            final(self).ended() == old(self).ended(),
            match r {
                Progress::Ready(Some(b)) => {
                    &&& old(self).remaining().len() > 0
                    &&& bytes_contents(b) == old(self).remaining()
                    &&& final(self).remaining() == Seq::<u8>::empty()
                },
                Progress::Ready(None) => {
                    &&& old(self).remaining().len() == 0
                    &&& old(self).ended()
                    &&& final(self).remaining() == old(self).remaining()
                },
                Progress::Pending => {
                    &&& old(self).starved()
                    &&& final(self).remaining() == old(self).remaining()
                },
            },
    {
        if !self.cur.is_empty() {
            let mut chunk = Bytes::new();
            core::mem::swap(&mut self.cur, &mut chunk);
            Progress::Ready(Some(chunk))
        } else if self.ended {
            Progress::Ready(None)
        } else {
            Progress::Pending
        }
    }

    /// Reads into `buf` as many bytes as are left of the chunk delivered last
    /// and as `buf` takes, and answers how many. At the end of the stream the
    /// answer is 0.
    pub fn read(&mut self, buf: &mut [u8]) -> (r: Progress<usize>)
        ensures
            final(self).ended() == old(self).ended(),
            final(buf)@.len() == old(buf)@.len(),
            match r {
                Progress::Ready(n) => {
                    &&& !old(self).starved()
                    &&& n == if old(buf)@.len() <= old(self).remaining().len() {
                        old(buf)@.len()
                    } else {
                        old(self).remaining().len()
                    }
                    &&& final(buf)@ == old(self).remaining().subrange(0, n as int) + old(
                        buf,
                    )@.skip(n as int)
                    &&& final(self).remaining() == old(self).remaining().skip(n as int)
                },
                Progress::Pending => {
                    &&& old(self).starved()
                    &&& final(self).remaining() == old(self).remaining()
                    &&& final(buf)@ == old(buf)@
                },
            },
    {
        if self.needs_input() {
            return Progress::Pending;
        }
        let held = self.cur.len();
        let n = if buf.len() <= held {
            buf.len()
        } else {
            held
        };
        let ghost before = buf@;
        let (head, tail) = buf.split_at_mut(n);
        bytes_copy_to_slice(&mut self.cur, head);
        proof {
            assert(tail@ =~= before.skip(n as int));
            assert(old(self).remaining().skip(0) =~= old(self).remaining());
        }
        Progress::Ready(n)
    }
}

/// An HTTP response.
pub struct Response {
    status: StatusCode,
    headers: HeaderMap,
    body: ResponseBody,
}

impl Response {
    /// The status of the response.
    pub closed spec fn status_code(&self) -> StatusCode {
        self.status
    }

    /// The headers of the response.
    pub closed spec fn header_map(&self) -> HeaderMap {
        self.headers
    }

    /// The body of the response.
    pub closed spec fn body(&self) -> ResponseBody {
        self.body
    }

    pub fn new(status: StatusCode, headers: HeaderMap, body: ResponseBody) -> (r: Response)
        ensures
            r.status_code() == status,
            r.header_map() == headers,
            r.body() == body,
    {
        Response { status, headers, body }
    }

    /// Returns the response's status.
    pub fn status(&self) -> (s: StatusCode)
        ensures
            s == self.status_code(),
    {
        self.status
    }

    /// Returns the response's headers.
    pub fn headers(&self) -> (h: &HeaderMap)
        ensures
            *h == self.header_map(),
    {
        &self.headers
    }

    /// Consumes the response, returning its body.
    pub fn into_body(self) -> (b: ResponseBody)
        ensures
            b == self.body(),
    {
        self.body
    }
}

} // verus!
