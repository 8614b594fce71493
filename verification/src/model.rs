//! The scripted stream as a state machine over mathematical values.
//!
//! Every call on a [`CheckedMockStream`](crate::CheckedMockStream) is
//! specified as one transition of a [`StreamView`]. The blocking and the
//! polled calls share the same transitions; they differ only in how a pause
//! is honoured.

use crate::action::ActionView;
use crate::error::{ErrorView, StreamError};
use std::time::Duration;
use vstd::prelude::*;

verus! {

/// The mathematical value of a scripted stream.
pub struct StreamView {
    /// The actions, fixed when the stream is built.
    pub script: Seq<ActionView>,
    /// The index of the current action; `script.len()` once the script is
    /// exhausted.
    pub action: nat,
    /// How many bytes of the current `Read` action have been handed out.
    pub pos: nat,
    /// Everything accepted by `Write` actions since the log was last emptied.
    pub written: Seq<u8>,
    /// The pause of the timer in flight, in polled use.
    pub timer: Option<Duration>,
}

/// How one call ended.
pub enum Outcome {
    /// This many bytes were transferred.
    Done(nat),
    /// The call failed.
    Failed(ErrorView),
    /// The script asks for a pause of this length before the call is made
    /// again.
    Wait(Duration),
    /// A timer is in flight and has not expired.
    Pending,
}

/// What one call hands back: how it ended and, for a read, the bytes
/// delivered.
pub struct Reply {
    pub outcome: Outcome,
    pub bytes: Seq<u8>,
}

/// A stream after one call, with that call's reply.
pub struct Step {
    pub next: StreamView,
    pub reply: Reply,
}

/// One call on a stream, with what the caller supplies.
pub enum Call {
    /// A blocking read with room for this many bytes.
    Read(nat),
    /// A blocking write of these bytes.
    Write(Seq<u8>),
    /// A polled read with room for this many bytes.
    PollRead { timer_ready: bool, cap: nat },
    /// A polled write of these bytes.
    PollWrite { timer_ready: bool, buf: Seq<u8> },
}

impl Call {
    /// Whether the call is a polled one.
    pub open spec fn polled(self) -> bool {
        self is PollRead || self is PollWrite
    }

    /// Whether the call is a polled one that gives way to a timer in flight.
    pub open spec fn unready(self) -> bool {
        match self {
            Call::PollRead { timer_ready, .. } => !timer_ready,
            Call::PollWrite { timer_ready, .. } => !timer_ready,
            _ => false,
        }
    }
}

/// Whether the first polled call among `calls` gives way to a timer in
/// flight. Only then does it matter to `calls` whether a timer is in flight
/// before them: a blocking call passes a timer by, and a polled call that
/// does not give way leaves behind the timer that it calls for, or none.
pub open spec fn waits_on_timer(calls: Seq<Call>) -> bool
    decreases calls.len(),
{
    if calls.len() == 0 {
        false
    } else if calls[0].polled() {
        calls[0].unready()
    } else {
        waits_on_timer(calls.skip(1))
    }
}

/// The bytes of the `Read` actions of `script` from action `from` on, in
/// order.
pub open spec fn read_payload(script: Seq<ActionView>, from: nat) -> Seq<u8>
    decreases script.len() - from,
{
    if from >= script.len() {
        Seq::empty()
    } else {
        let head = match script[from as int] {
            ActionView::Read(data) => data,
            _ => Seq::empty(),
        };
        head + read_payload(script, from + 1)
    }
}

impl StreamView {
    /// A stream as built: at the first action, with an empty log and no timer.
    pub open spec fn start(script: Seq<ActionView>) -> StreamView {
        StreamView { script, action: 0, pos: 0, written: Seq::empty(), timer: None }
    }

    /// The cursor lies within the script, and an offset is only ever held
    /// inside a `Read` action that still has bytes left.
    pub open spec fn wf(self) -> bool {
        &&& self.action <= self.script.len()
        &&& self.pos > 0 ==> {
            &&& self.action < self.script.len()
            &&& self.script[self.action as int] matches ActionView::Read(data)
            &&& self.pos < data.len()
        }
    }

    /// No action is left.
    pub open spec fn exhausted(self) -> bool {
        self.action >= self.script.len()
    }

    /// The current action.
    pub open spec fn current(self) -> ActionView
        recommends
            !self.exhausted(),
    {
        self.script[self.action as int]
    }

    /// The stream moved on to the next action.
    pub open spec fn advance(self) -> StreamView {
        StreamView { action: self.action + 1, pos: 0, ..self }
    }

    /// The stream with `bytes` added to its log.
    pub open spec fn log(self, bytes: Seq<u8>) -> StreamView {
        StreamView { written: self.written + bytes, ..self }
    }

    /// The stream left as it is, with nothing transferred.
    pub open spec fn idle(self) -> Step {
        Step { next: self, reply: Reply { outcome: Outcome::Done(0), bytes: Seq::empty() } }
    }

    /// One read call with room for `cap` bytes.
    pub open spec fn read(self, cap: nat) -> Step {
        if self.exhausted() || cap == 0 {
            self.idle()
        } else {
            match self.current() {
                ActionView::ReadError(err) => Step {
                    next: self.advance(),
                    reply: Reply { outcome: Outcome::Failed(err), bytes: Seq::empty() },
                },
                ActionView::Read(data) => {
                    let len = if data.len() - self.pos <= cap {
                        (data.len() - self.pos) as nat
                    } else {
                        cap
                    };
                    Step {
                        next: if self.pos + len == data.len() {
                            self.advance()
                        } else {
                            StreamView { pos: self.pos + len, ..self }
                        },
                        reply: Reply {
                            outcome: Outcome::Done(len),
                            bytes: data.subrange(self.pos as int, (self.pos + len) as int),
                        },
                    }
                },
                ActionView::Wait(pause) => Step {
                    next: self.advance(),
                    reply: Reply { outcome: Outcome::Wait(pause), bytes: Seq::empty() },
                },
                _ => self.idle(),
            }
        }
    }

    /// One write call with the bytes `buf`.
    pub open spec fn write(self, buf: Seq<u8>) -> Step {
        if self.exhausted() || buf.len() == 0 {
            self.idle()
        } else {
            match self.current() {
                ActionView::WriteError(err) => Step {
                    next: self.advance(),
                    reply: Reply { outcome: Outcome::Failed(err), bytes: Seq::empty() },
                },
                ActionView::Write(expected) => if expected.is_prefix_of(buf) {
                    Step {
                        next: self.advance().log(expected),
                        reply: Reply {
                            outcome: Outcome::Done(expected.len()),
                            bytes: Seq::empty(),
                        },
                    }
                } else {
                    Step {
                        next: self,
                        reply: Reply {
                            outcome: Outcome::Failed(StreamError::mismatch_view()),
                            bytes: Seq::empty(),
                        },
                    }
                },
                ActionView::Wait(pause) => Step {
                    next: self.advance(),
                    reply: Reply { outcome: Outcome::Wait(pause), bytes: Seq::empty() },
                },
                _ => self.idle(),
            }
        }
    }

    /// Whether a polled call must give way to the timer in flight.
    pub open spec fn blocked(self, timer_ready: bool) -> bool {
        self.timer is Some && !timer_ready
    }

    /// The stream held up by its timer.
    pub open spec fn pending(self) -> Step {
        Step { next: self, reply: Reply { outcome: Outcome::Pending, bytes: Seq::empty() } }
    }

    /// The stream with no timer in flight.
    pub open spec fn disarm(self) -> StreamView {
        StreamView { timer: None, ..self }
    }

    /// A step of the script taken by a polled call: where it ends in a pause,
    /// the timer for that pause is in flight afterwards.
    pub open spec fn arm(step: Step) -> Step {
        match step.reply.outcome {
            Outcome::Wait(pause) => Step {
                next: StreamView { timer: Some(pause), ..step.next },
                reply: step.reply,
            },
            _ => step,
        }
    }

    /// One polled read call with room for `cap` bytes. `timer_ready` says
    /// whether the timer in flight, if there is one, has expired.
    pub open spec fn poll_read(self, timer_ready: bool, cap: nat) -> Step {
        if self.blocked(timer_ready) {
            self.pending()
        } else {
            Self::arm(self.disarm().read(cap))
        }
    }

    /// One polled write call with the bytes `buf`. `timer_ready` says whether
    /// the timer in flight, if there is one, has expired.
    pub open spec fn poll_write(self, timer_ready: bool, buf: Seq<u8>) -> Step {
        if self.blocked(timer_ready) {
            self.pending()
        } else {
            Self::arm(self.disarm().write(buf))
        }
    }

    /// The cursor back at the first action; log and timer are kept.
    pub open spec fn reset_actions(self) -> StreamView {
        StreamView { action: 0, pos: 0, ..self }
    }

    /// The log emptied; cursor and timer are kept.
    pub open spec fn reset_written(self) -> StreamView {
        StreamView { written: Seq::empty(), ..self }
    }

    /// The cursor at the start of action `index`, or at the end of the script
    /// if there is no such action; log and timer are kept.
    pub open spec fn seek_action(self, index: nat) -> StreamView {
        StreamView {
            action: if index <= self.script.len() {
                index
            } else {
                self.script.len()
            },
            pos: 0,
            ..self
        }
    }

    /// The call `c` made on the stream.
    pub open spec fn call(self, c: Call) -> Step {
        match c {
            Call::Read(cap) => self.read(cap),
            Call::Write(buf) => self.write(buf),
            Call::PollRead { timer_ready, cap } => self.poll_read(timer_ready, cap),
            Call::PollWrite { timer_ready, buf } => self.poll_write(timer_ready, buf),
        }
    }

    /// The stream after the calls `calls`, made in order.
    pub open spec fn run(self, calls: Seq<Call>) -> StreamView
        decreases calls.len(),
    {
        if calls.len() == 0 {
            self
        } else {
            self.call(calls[0]).next.run(calls.skip(1))
        }
    }

    /// The replies to the calls `calls`, made in order.
    pub open spec fn replies(self, calls: Seq<Call>) -> Seq<Reply>
        decreases calls.len(),
    {
        if calls.len() == 0 {
            Seq::empty()
        } else {
            seq![self.call(calls[0]).reply] + self.call(calls[0]).next.replies(calls.skip(1))
        }
    }

    /// All the bytes that the calls `calls`, made in order, deliver.
    pub open spec fn delivered(self, calls: Seq<Call>) -> Seq<u8>
        decreases calls.len(),
    {
        if calls.len() == 0 {
            Seq::empty()
        } else {
            self.call(calls[0]).reply.bytes + self.call(calls[0]).next.delivered(calls.skip(1))
        }
    }

    /// The bytes that the script still has to hand out: those of the `Read`
    /// actions from the cursor on, less what the current one has handed out.
    pub open spec fn unread(self) -> Seq<u8> {
        read_payload(self.script, self.action).skip(self.pos as int)
    }

    /// Whether two streams follow the same script and stand at the same place
    /// in it; their logs and timers may differ.
    pub open spec fn same_place(self, other: StreamView) -> bool {
        &&& self.script == other.script
        &&& self.action == other.action
        &&& self.pos == other.pos
    }

    /// Whether the timers of two streams make no difference to `calls`: a
    /// timer is in flight in both or in neither, or `calls` do not wait on
    /// one.
    pub open spec fn timers_alike(self, other: StreamView, calls: Seq<Call>) -> bool {
        (self.timer is Some) == (other.timer is Some) || !waits_on_timer(calls)
    }

    /// What the stream has logged beyond its first `len` bytes.
    pub open spec fn logged_since(self, len: nat) -> Seq<u8> {
        self.written.skip(len as int)
    }

    /// Whether `self` stands in its script as `other` does in the script
    /// without its first `k` actions, with the same log.
    pub open spec fn shifted(self, other: StreamView, k: nat) -> bool {
        &&& k <= self.script.len()
        &&& other.script == self.script.skip(k as int)
        &&& self.action == other.action + k
        &&& self.pos == other.pos
        &&& self.written == other.written
    }
}

} // verus!
