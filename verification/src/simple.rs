//! An unchecked mock stream: a fixed run of bytes to read and a log of
//! whatever is written.

use crate::bytes::{append, copy_to_front};
use crate::error::StreamError;
use crate::read_buf::{capacity_of, filled_bytes, put_slice, remaining, room};
use tokio::io::ReadBuf;
use vstd::prelude::*;
use vstd::slice::slice_subrange;

verus! {

/// A mock stream backed by two buffers. Reads hand out the initial bytes in
/// order; writes are appended to a log and never checked.
#[derive(Debug)]
pub struct SimpleMockStream {
    written: Vec<u8>,
    source: Source,
}

/// The bytes to hand out and how far reading has come.
#[derive(Debug)]
pub struct Source {
    read: Vec<u8>,
    pos: usize,
}

impl Source {
    #[verifier::type_invariant]
    spec fn well_formed(self) -> bool {
        self.pos <= self.read.len()
    }

    /// The bytes held.
    pub closed spec fn data(&self) -> Seq<u8> {
        self.read@
    }

    /// How many of them have been read.
    pub closed spec fn position(&self) -> nat {
        self.pos as nat
    }
}

impl Clone for Source {
    fn clone(&self) -> (copy: Self)
        ensures
            copy.data() == self.data(),
            copy.position() == self.position(),
    {
        proof {
            use_type_invariant(self);
        }
        Source { read: self.read.clone(), pos: self.pos }
    }
}

impl Clone for SimpleMockStream {
    /// A stream of its own with the same data, position and log.
    fn clone(&self) -> (copy: Self)
        ensures
            copy@ == self@,
            self@.wf(),
    {
        proof {
            use_type_invariant(&self.source);
        }
        SimpleMockStream { written: self.written.clone(), source: self.source.clone() }
    }
}

/// The mathematical value of a [`SimpleMockStream`].
pub struct SimpleView {
    /// All bytes that the stream was given to hand out.
    pub data: Seq<u8>,
    /// How many of them have been read.
    pub pos: nat,
    /// Everything written so far.
    pub written: Seq<u8>,
}

impl SimpleView {
    /// The read position does not pass the end of the data. Every stream
    /// keeps its value so, and every call on a stream says so.
    pub open spec fn wf(self) -> bool {
        self.pos <= self.data.len()
    }

    /// The bytes not yet read.
    pub open spec fn remaining(self) -> Seq<u8> {
        self.data.subrange(self.pos as int, self.data.len() as int)
    }

    /// How many bytes a read into room for `cap` bytes delivers.
    pub open spec fn read_len(self, cap: nat) -> nat {
        if self.data.len() - self.pos <= cap {
            (self.data.len() - self.pos) as nat
        } else {
            cap
        }
    }

    /// The bytes that a read into room for `cap` bytes delivers.
    pub open spec fn read_bytes(self, cap: nat) -> Seq<u8> {
        self.data.subrange(self.pos as int, (self.pos + self.read_len(cap)) as int)
    }

    /// The stream after a read into room for `cap` bytes.
    pub open spec fn after_read(self, cap: nat) -> SimpleView {
        SimpleView { pos: self.pos + self.read_len(cap), ..self }
    }

    /// The stream after `bytes` were written.
    pub open spec fn after_write(self, bytes: Seq<u8>) -> SimpleView {
        SimpleView { written: self.written + bytes, ..self }
    }
}

impl View for SimpleMockStream {
    type V = SimpleView;

    closed spec fn view(&self) -> SimpleView {
        SimpleView {
            data: self.source.read@,
            pos: self.source.pos as nat,
            written: self.written@,
        }
    }
}

impl SimpleMockStream {
    /// Creates a new mock stream with nothing to read.
    pub fn empty() -> (s: SimpleMockStream)
        ensures
            s@ == (SimpleView { data: Seq::empty(), pos: 0, written: Seq::empty() }),
            s@.wf(),
    {
        SimpleMockStream::new(Vec::new())
    }

    /// Creates a new mock stream with the specified bytes to read.
    pub fn new(initial: Vec<u8>) -> (s: SimpleMockStream)
        ensures
            s@ == (SimpleView { data: initial@, pos: 0, written: Seq::empty() }),
            s@.wf(),
    {
        SimpleMockStream { written: Vec::new(), source: Source { read: initial, pos: 0 } }
    }

    /// Creates a new mock stream with the specified bytes to read and room set
    /// aside for `capacity` written bytes.
    pub fn with_capacity(initial: Vec<u8>, capacity: usize) -> (s: SimpleMockStream)
        ensures
            s@ == (SimpleView { data: initial@, pos: 0, written: Seq::empty() }),
            s@.wf(),
    {
        SimpleMockStream {
            written: Vec::with_capacity(capacity),
            source: Source { read: initial, pos: 0 },
        }
    }

    /// Rewinds the read position and empties the written log.
    pub fn reset(&mut self)
        ensures
            final(self)@ == (SimpleView { pos: 0, written: Seq::empty(), ..old(self)@ }),
            final(self)@.wf(),
    {
        self.reset_actions();
        self.reset_written();
    }

    /// Rewinds the read position; the written log is kept.
    pub fn reset_actions(&mut self)
        ensures
            final(self)@ == (SimpleView { pos: 0, ..old(self)@ }),
            final(self)@.wf(),
    {
        self.source.pos = 0;
    }

    /// Empties the written log; the read position is kept.
    pub fn reset_written(&mut self)
        ensures
            final(self)@ == (SimpleView { written: Seq::empty(), ..old(self)@ }),
            final(self)@.wf(),
    {
        proof {
            use_type_invariant(&self.source);
        }
        self.written.clear();
    }

    /// The bytes written so far.
    pub fn written(&self) -> (bytes: &[u8])
        ensures
            bytes@ == self@.written,
            self@.wf(),
    {
        proof {
            use_type_invariant(&self.source);
        }
        self.written.as_slice()
    }

    /// All the bytes that the stream was given to hand out, read or not.
    pub fn readed(&self) -> (bytes: &[u8])
        ensures
            bytes@ == self@.data,
            self@.wf(),
    {
        proof {
            use_type_invariant(&self.source);
        }
        self.source.read.as_slice()
    }

    /// The bytes not yet read.
    pub fn remaining(&self) -> (bytes: &[u8])
        ensures
            bytes@ == self@.remaining(),
            self@.wf(),
    {
        proof {
            use_type_invariant(&self.source);
        }
        slice_subrange(self.source.read.as_slice(), self.source.pos, self.source.read.len())
    }

    /// Copies as many unread bytes as fit to the front of `buf` and returns
    /// their number. The rest of `buf` is left as it was. Never fails; at the
    /// end of the data, or with an empty `buf`, the count is zero.
    pub fn read(&mut self, buf: &mut [u8]) -> (r: Result<usize, StreamError>)
        ensures
            r == Ok::<usize, StreamError>(old(self)@.read_len(old(buf)@.len()) as usize),
            final(self)@ == old(self)@.after_read(old(buf)@.len()),
            final(self)@.wf(),
            final(buf)@ == old(self)@.read_bytes(old(buf)@.len()) + old(buf)@.skip(
                old(self)@.read_len(old(buf)@.len()) as int,
            ),
    {
        proof {
            use_type_invariant(&self.source);
        }
        let left: usize = self.source.read.len() - self.source.pos;
        let len: usize = if left <= buf.len() { left } else { buf.len() };
        let end: usize = self.source.pos + len;
        copy_to_front(buf, slice_subrange(self.source.read.as_slice(), self.source.pos, end));
        self.source.pos = end;
        Ok(len)
    }

    /// Appends all of `buf` to the written log and returns its length. Never
    /// fails.
    pub fn write(&mut self, buf: &[u8]) -> (r: Result<usize, StreamError>)
        ensures
            r == Ok::<usize, StreamError>(buf@.len() as usize),
            final(self)@ == old(self)@.after_write(buf@),
            final(self)@.wf(),
    {
        proof {
            use_type_invariant(&self.source);
        }
        append(&mut self.written, buf);
        Ok(buf.len())
    }

    /// Does nothing: written bytes are in the log at once.
    pub fn flush(&mut self) -> (r: Result<(), StreamError>)
        ensures
            r == Ok::<(), StreamError>(()),
            final(self)@ == old(self)@,
            final(self)@.wf(),
    {
        proof {
            use_type_invariant(&self.source);
        }
        Ok(())
    }

    /// The polled form of [`read`](Self::read): appends as many unread bytes
    /// as fit to the filled region of `buf`. Always ready, never fails.
    pub fn poll_read(&mut self, buf: &mut ReadBuf<'_>) -> (r: Result<(), StreamError>)
        ensures
            r == Ok::<(), StreamError>(()),
            final(self)@ == old(self)@.after_read(room(old(buf)) as nat),
            final(self)@.wf(),
            filled_bytes(final(buf)) == filled_bytes(old(buf)) + old(self)@.read_bytes(
                room(old(buf)) as nat,
            ),
            capacity_of(final(buf)) == capacity_of(old(buf)),
    {
        proof {
            use_type_invariant(&self.source);
        }
        if self.source.pos < self.source.read.len() {
            let left: usize = self.source.read.len() - self.source.pos;
            let cap: usize = remaining(buf);
            let len: usize = if left <= cap { left } else { cap };
            let end: usize = self.source.pos + len;
            put_slice(buf, slice_subrange(self.source.read.as_slice(), self.source.pos, end));
            self.source.pos = end;
        } else {
            assert(filled_bytes(buf) == filled_bytes(buf) + self@.read_bytes(room(buf) as nat));
        }
        Ok(())
    }

    /// The polled form of [`write`](Self::write): appends all of `buf` to the
    /// written log. Always ready, never fails.
    pub fn poll_write(&mut self, buf: &[u8]) -> (r: Result<usize, StreamError>)
        ensures
            r == Ok::<usize, StreamError>(buf@.len() as usize),
            final(self)@ == old(self)@.after_write(buf@),
            final(self)@.wf(),
    {
        proof {
            use_type_invariant(&self.source);
        }
        append(&mut self.written, buf);
        Ok(buf.len())
    }

    /// Does nothing. Always ready, never fails.
    pub fn poll_flush(&mut self) -> (r: Result<(), StreamError>)
        ensures
            r == Ok::<(), StreamError>(()),
            final(self)@ == old(self)@,
            final(self)@.wf(),
    {
        proof {
            use_type_invariant(&self.source);
        }
        Ok(())
    }

    /// Does nothing: there is no connection to close. Always ready, never
    /// fails.
    pub fn poll_shutdown(&mut self) -> (r: Result<(), StreamError>)
        ensures
            r == Ok::<(), StreamError>(()),
            final(self)@ == old(self)@,
            final(self)@.wf(),
    {
        proof {
            use_type_invariant(&self.source);
        }
        Ok(())
    }
}

} // verus!
