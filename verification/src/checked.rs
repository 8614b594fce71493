//! A mock stream that follows a script of expected reads, writes, errors and
//! pauses.

use crate::action::{script_view, Action};
use crate::bytes::{append, copy_to_front, starts_with};
use crate::error::StreamError;
use crate::model::{Outcome, StreamView};
use crate::read_buf::{capacity_of, filled_bytes, put_slice, remaining, room};
use std::time::Duration;
use tokio::io::ReadBuf;
use vstd::prelude::*;
use vstd::slice::slice_subrange;

verus! {

/// How a blocking call that did not fail ended.
#[derive(Debug)]
pub enum Transfer {
    /// This many bytes were transferred.
    Done(usize),
    /// The script asks for a pause. The cursor has moved past it: the caller
    /// sleeps this long and makes the call again.
    Wait(Duration),
}

/// How a polled call that did not fail ended.
#[derive(Debug)]
pub enum Polled {
    /// Ready: this many bytes were transferred.
    Ready(usize),
    /// Not ready: the script asks for a pause. The cursor has moved past it.
    /// The caller arms a timer for this long, asks to be woken at once, and
    /// polls that timer before each later call.
    Sleep(Duration),
    /// Not ready: the timer in flight has not expired.
    Pending,
}

/// The outcome that the result of a blocking call stands for.
pub open spec fn transfer_outcome(r: Result<Transfer, StreamError>) -> Outcome {
    match r {
        Ok(Transfer::Done(n)) => Outcome::Done(n as nat),
        Ok(Transfer::Wait(pause)) => Outcome::Wait(pause),
        Err(err) => Outcome::Failed(err@),
    }
}

/// The outcome that the result of a polled call stands for.
pub open spec fn polled_outcome(r: Result<Polled, StreamError>) -> Outcome {
    match r {
        Ok(Polled::Ready(n)) => Outcome::Done(n as nat),
        Ok(Polled::Sleep(pause)) => Outcome::Wait(pause),
        Ok(Polled::Pending) => Outcome::Pending,
        Err(err) => Outcome::Failed(err@),
    }
}

/// The script and the position in it.
#[derive(Debug)]
pub struct Cursor {
    actions: Vec<Action>,
    action: usize,
    pos: usize,
}

impl Cursor {
    #[verifier::type_invariant]
    spec fn well_formed(self) -> bool {
        &&& self.action <= self.actions.len()
        &&& self.pos > 0 ==> {
            &&& self.action < self.actions.len()
            &&& self.actions[self.action as int] matches Action::Read(data)
            &&& self.pos < data.len()
        }
    }
}

/// A mock stream driven by a script. Each read or write call is held against
/// the current action of the script; see [`StreamView`] for what each call
/// does.
#[derive(Debug)]
pub struct CheckedMockStream {
    cursor: Cursor,
    written: Vec<u8>,
    sleep: Option<Duration>,
}

impl View for CheckedMockStream {
    type V = StreamView;

    closed spec fn view(&self) -> StreamView {
        StreamView {
            script: script_view(self.cursor.actions@),
            action: self.cursor.action as nat,
            pos: self.cursor.pos as nat,
            written: self.written@,
            timer: self.sleep,
        }
    }
}

impl CheckedMockStream {
    /// A stream at the start of the script `actions`, with an empty log that
    /// has room for `capacity` bytes.
    pub(crate) fn from_actions(actions: Vec<Action>, capacity: usize) -> (s: Self)
        ensures
            s@ == StreamView::start(script_view(actions@)),
            s@.wf(),
    {
        CheckedMockStream {
            cursor: Cursor { actions, action: 0, pos: 0 },
            written: Vec::with_capacity(capacity),
            sleep: None,
        }
    }

    /// Rewinds the cursor to the first action and empties the written log.
    pub fn reset(&mut self)
        ensures
            final(self)@ == old(self)@.reset_actions().reset_written(),
            final(self)@.wf(),
    {
        self.reset_actions();
        self.reset_written();
    }

    /// Rewinds the cursor to the first action; the written log is kept.
    pub fn reset_actions(&mut self)
        ensures
            final(self)@ == old(self)@.reset_actions(),
            final(self)@.wf(),
    {
        proof {
            use_type_invariant(&self.cursor);
        }
        self.cursor.pos = 0;
        self.cursor.action = 0;
    }

    /// Moves the cursor to the start of action `action`; the written log is
    /// kept. An index past the last action leaves the script exhausted.
    pub fn seek_action(&mut self, action: usize)
        ensures
            final(self)@ == old(self)@.seek_action(action as nat),
            final(self)@.wf(),
    {
        proof {
            use_type_invariant(&self.cursor);
        }
        self.cursor.pos = 0;
        self.cursor.action = if action <= self.cursor.actions.len() {
            action
        } else {
            self.cursor.actions.len()
        };
    }

    /// Empties the written log; the cursor is kept.
    pub fn reset_written(&mut self)
        ensures
            final(self)@ == old(self)@.reset_written(),
            final(self)@.wf(),
    {
        proof {
            use_type_invariant(&self.cursor);
        }
        self.written.clear();
    }

    /// The bytes accepted by `Write` actions since the log was last emptied.
    pub fn written(&self) -> (bytes: &[u8])
        ensures
            bytes@ == self@.written,
            self@.wf(),
    {
        proof {
            use_type_invariant(&self.cursor);
        }
        self.written.as_slice()
    }

    /// The bytes that a read with room for `cap` bytes would deliver, if any.
    fn next_chunk(&self, cap: usize) -> (chunk: Option<&[u8]>)
        ensures
            match chunk {
                Some(bytes) => bytes@ == self@.read(cap as nat).reply.bytes && bytes@.len() <= cap,
                None => self@.read(cap as nat).reply.bytes == Seq::<u8>::empty(),
            },
    {
        proof {
            use_type_invariant(&self.cursor);
        }
        if self.cursor.action >= self.cursor.actions.len() || cap == 0 {
            return None;
        }
        match &self.cursor.actions[self.cursor.action] {
            Action::Read(data) => {
                let left: usize = data.len() - self.cursor.pos;
                let len: usize = if left <= cap { left } else { cap };
                Some(slice_subrange(data.as_slice(), self.cursor.pos, self.cursor.pos + len))
            },
            _ => None,
        }
    }

    /// Moves the cursor as a read with room for `cap` bytes does.
    fn step_read(&mut self, cap: usize) -> (r: Result<Transfer, StreamError>)
        ensures
            final(self)@ == old(self)@.read(cap as nat).next,
            final(self)@.wf(),
            transfer_outcome(r) == old(self)@.read(cap as nat).reply.outcome,
    {
        proof {
            use_type_invariant(&self.cursor);
        }
        if self.cursor.action >= self.cursor.actions.len() || cap == 0 {
            return Ok(Transfer::Done(0));
        }
        match &self.cursor.actions[self.cursor.action] {
            Action::ReadError(err) => {
                let err: StreamError = (**err).clone();
                self.cursor.action = self.cursor.action + 1;
                Err(err)
            },
            Action::Read(data) => {
                let left: usize = data.len() - self.cursor.pos;
                let len: usize = if left <= cap { left } else { cap };
                if len == left {
                    self.cursor.pos = 0;
                    self.cursor.action = self.cursor.action + 1;
                } else {
                    self.cursor.pos = self.cursor.pos + len;
                }
                Ok(Transfer::Done(len))
            },
            Action::Wait(pause) => {
                let pause: Duration = *pause;
                self.cursor.action = self.cursor.action + 1;
                Ok(Transfer::Wait(pause))
            },
            _ => Ok(Transfer::Done(0)),
        }
    }

    /// One read call. With the script exhausted, an empty `buf`, or a write
    /// expected, nothing is transferred. A `Read` action delivers as many of
    /// its remaining bytes as fit to the front of `buf` and is left behind
    /// once all are delivered. A `ReadError` action fails the call once and
    /// is left behind. A `Wait` action is left behind and reported. The rest
    /// of `buf` is left as it was.
    pub fn read(&mut self, buf: &mut [u8]) -> (r: Result<Transfer, StreamError>)
        ensures
            final(self)@ == old(self)@.read(old(buf)@.len()).next,
            final(self)@.wf(),
            transfer_outcome(r) == old(self)@.read(old(buf)@.len()).reply.outcome,
            final(buf)@ == old(self)@.read(old(buf)@.len()).reply.bytes + old(buf)@.skip(
                old(self)@.read(old(buf)@.len()).reply.bytes.len() as int,
            ),
    {
        let cap: usize = buf.len();
        match self.next_chunk(cap) {
            Some(bytes) => {
                copy_to_front(buf, bytes);
            },
            None => {
                assert(buf@ == Seq::<u8>::empty() + buf@.skip(0));
            },
        }
        self.step_read(cap)
    }

    /// One write call. With the script exhausted, an empty `buf`, or a read
    /// expected, nothing is accepted. A `Write` action whose bytes `buf`
    /// begins with accepts exactly those bytes into the log and is left
    /// behind; any other `buf` fails the call as invalid input and changes
    /// nothing. A `WriteError` action fails the call once and is left behind.
    /// A `Wait` action is left behind and reported.
    pub fn write(&mut self, buf: &[u8]) -> (r: Result<Transfer, StreamError>)
        ensures
            final(self)@ == old(self)@.write(buf@).next,
            final(self)@.wf(),
            transfer_outcome(r) == old(self)@.write(buf@).reply.outcome,
    {
        proof {
            use_type_invariant(&self.cursor);
        }
        if self.cursor.action >= self.cursor.actions.len() || buf.len() == 0 {
            return Ok(Transfer::Done(0));
        }
        match &self.cursor.actions[self.cursor.action] {
            Action::WriteError(err) => {
                let err: StreamError = (**err).clone();
                self.cursor.action = self.cursor.action + 1;
                Err(err)
            },
            Action::Write(expected) => {
                if starts_with(buf, expected.as_slice()) {
                    let len: usize = expected.len();
                    append(&mut self.written, slice_subrange(buf, 0, len));
                    self.cursor.action = self.cursor.action + 1;
                    Ok(Transfer::Done(len))
                } else {
                    Err(StreamError::mismatch())
                }
            },
            Action::Wait(pause) => {
                let pause: Duration = *pause;
                self.cursor.action = self.cursor.action + 1;
                Ok(Transfer::Wait(pause))
            },
            _ => Ok(Transfer::Done(0)),
        }
    }

    /// Does nothing: accepted bytes are in the log at once. The cursor is not
    /// touched.
    pub fn flush(&mut self) -> (r: Result<(), StreamError>)
        ensures
            r == Ok::<(), StreamError>(()),
            final(self)@ == old(self)@,
            final(self)@.wf(),
    {
        proof {
            use_type_invariant(&self.cursor);
        }
        Ok(())
    }

    /// Reports whether a polled call must give way to the timer in flight,
    /// and forgets a timer that has expired.
    fn gate(&mut self, timer_ready: bool) -> (blocked: bool)
        ensures
            blocked == old(self)@.blocked(timer_ready),
            final(self)@ == if blocked {
                old(self)@
            } else {
                old(self)@.disarm()
            },
            final(self)@.wf(),
    {
        proof {
            use_type_invariant(&self.cursor);
        }
        if self.sleep.is_some() && !timer_ready {
            true
        } else {
            self.sleep = None;
            false
        }
    }

    /// Turns the result of a step of the script into that of a polled call,
    /// and notes the timer that a pause calls for.
    fn arm(&mut self, r: Result<Transfer, StreamError>) -> (p: Result<Polled, StreamError>)
        requires
            !(transfer_outcome(r) is Wait) ==> old(self)@.timer is None,
        ensures
            polled_outcome(p) == transfer_outcome(r),
            final(self)@ == (StreamView {
                timer: match transfer_outcome(r) {
                    Outcome::Wait(pause) => Some(pause),
                    _ => None,
                },
                ..old(self)@
            }),
            final(self)@.wf(),
    {
        proof {
            use_type_invariant(&self.cursor);
        }
        match r {
            Ok(Transfer::Done(n)) => Ok(Polled::Ready(n)),
            Ok(Transfer::Wait(pause)) => {
                self.sleep = Some(pause);
                Ok(Polled::Sleep(pause))
            },
            Err(err) => Err(err),
        }
    }

    /// One polled read call into the unfilled part of `buf`. `timer_ready`
    /// says whether the timer in flight, if there is one, has expired; with
    /// none in flight it is not looked at. While the timer runs the call is
    /// not ready and changes nothing. Otherwise the script is followed as in
    /// [`read`](Self::read), with the delivered bytes appended to the filled
    /// region of `buf`, except that a `Wait` action leaves a timer in flight.
    pub fn poll_read(&mut self, timer_ready: bool, buf: &mut ReadBuf<'_>) -> (r: Result<
        Polled,
        StreamError,
    >)
        ensures
            final(self)@ == old(self)@.poll_read(timer_ready, room(old(buf)) as nat).next,
            final(self)@.wf(),
            polled_outcome(r) == old(self)@.poll_read(
                timer_ready,
                room(old(buf)) as nat,
            ).reply.outcome,
            filled_bytes(final(buf)) == filled_bytes(old(buf)) + old(self)@.poll_read(
                timer_ready,
                room(old(buf)) as nat,
            ).reply.bytes,
            capacity_of(final(buf)) == capacity_of(old(buf)),
    {
        if self.gate(timer_ready) {
            return Ok(Polled::Pending);
        }
        let cap: usize = remaining(buf);
        match self.next_chunk(cap) {
            Some(bytes) => {
                put_slice(buf, bytes);
            },
            None => {},
        }
        let r = self.step_read(cap);
        self.arm(r)
    }

    /// One polled write call. `timer_ready` says whether the timer in flight,
    /// if there is one, has expired; with none in flight it is not looked at.
    /// While the timer runs the call is not ready and changes nothing.
    /// Otherwise the script is followed as in [`write`](Self::write), except
    /// that a `Wait` action leaves a timer in flight.
    pub fn poll_write(&mut self, timer_ready: bool, buf: &[u8]) -> (r: Result<Polled, StreamError>)
        ensures
            final(self)@ == old(self)@.poll_write(timer_ready, buf@).next,
            final(self)@.wf(),
            polled_outcome(r) == old(self)@.poll_write(timer_ready, buf@).reply.outcome,
    {
        if self.gate(timer_ready) {
            return Ok(Polled::Pending);
        }
        let r = self.write(buf);
        self.arm(r)
    }

    /// Does nothing. Always ready, never fails.
    pub fn poll_flush(&mut self) -> (r: Result<(), StreamError>)
        ensures
            r == Ok::<(), StreamError>(()),
            final(self)@ == old(self)@,
            final(self)@.wf(),
    {
        proof {
            use_type_invariant(&self.cursor);
        }
        Ok(())
    }

    /// Does nothing: there is no connection to close. Always ready, never
    /// fails.
    pub fn poll_shutdown(&mut self) -> (r: Result<(), StreamError>)
        ensures
            r == Ok::<(), StreamError>(()),
            final(self)@ == old(self)@,
            final(self)@.wf(),
    {
        proof {
            use_type_invariant(&self.cursor);
        }
        Ok(())
    }
}

} // verus!
