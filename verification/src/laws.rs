//! Laws of the scripted stream, proved of its state machine.
//!
//! Every call on a [`CheckedMockStream`](crate::CheckedMockStream) is
//! specified as a transition of its [`StreamView`], so what is proved here of
//! sequences of transitions holds of sequences of calls.

use crate::action::ActionView;
use crate::error::StreamError;
use crate::model::{read_payload, waits_on_timer, Call, Outcome, Reply, Step, StreamView};
use vstd::prelude::*;

verus! {

/// A stream as built is well formed.
pub proof fn lemma_start_wf(script: Seq<ActionView>)
    ensures
        StreamView::start(script).wf(),
        StreamView::start(script).unread() == read_payload(script, 0),
{
}

/// Every call keeps a well-formed stream well formed, follows the same
/// script, and hands out exactly the bytes by which the unread payload
/// shrinks.
pub proof fn lemma_call_delivers(m: StreamView, c: Call)
    requires
        m.wf(),
    ensures
        m.call(c).next.wf(),
        m.call(c).next.script == m.script,
        m.unread() == m.call(c).reply.bytes + m.call(c).next.unread(),
{
    let step = m.call(c);
    if !m.exhausted() {
        let rest = read_payload(m.script, m.action + 1);
        match m.current() {
            ActionView::Read(data) => {
                assert(read_payload(m.script, m.action) == data + rest);
                assert(m.unread() =~= step.reply.bytes + step.next.unread());
            },
            _ => {
                assert(read_payload(m.script, m.action) =~= rest);
                assert(m.unread() =~= step.reply.bytes + step.next.unread());
            },
        }
    } else {
        assert(m.unread() =~= step.reply.bytes + step.next.unread());
    }
}

/// A call never moves the cursor back and never past more than one action;
/// when the cursor moves on, the offset starts again at zero. The log is
/// only ever added to, and only by a write that a `Write` action accepts.
pub proof fn lemma_call_progress(m: StreamView, c: Call)
    requires
        m.wf(),
    ensures
        m.action <= m.call(c).next.action <= m.action + 1,
        m.call(c).next.action == m.action + 1 ==> m.call(c).next.pos == 0,
        m.written.is_prefix_of(m.call(c).next.written),
        m.call(c).next.written != m.written ==> {
            &&& !m.exhausted()
            &&& m.current() is Write
            &&& m.call(c).reply.outcome is Done
            &&& c is Write || c is PollWrite
        },
{
    let next = m.call(c).next;
    assert(next.written.subrange(0, m.written.len() as int) =~= m.written);
    if next.written != m.written {
        assert(next.written =~= m.written + m.current()->Write_0);
    }
}

/// At most one timer is in flight. A blocking call leaves the timer alone.
/// A polled call asks for a timer only when none is in flight or the one in
/// flight has expired; while one runs, it reports that it is not ready and
/// changes nothing; and when it is ready or fails, no timer is left.
pub proof fn lemma_one_timer(m: StreamView, c: Call)
    ensures
        c is Read || c is Write ==> m.call(c).next.timer == m.timer,
        c matches Call::PollRead { timer_ready, .. } ==> (m.blocked(timer_ready) <==> m.call(
            c,
        ).reply.outcome is Pending),
        c matches Call::PollWrite { timer_ready, .. } ==> (m.blocked(timer_ready) <==> m.call(
            c,
        ).reply.outcome is Pending),
        m.call(c).reply.outcome is Pending ==> m.call(c).next == m,
        c is PollRead || c is PollWrite ==> (m.call(c).reply.outcome matches Outcome::Wait(pause)
            ==> m.call(c).next.timer == Some(pause)),
        c is PollRead || c is PollWrite ==> (m.call(c).reply.outcome is Done || m.call(
            c,
        ).reply.outcome is Failed ==> m.call(c).next.timer is None),
{
}

/// Chunking invariance. Whatever calls are made, and however the room
/// offered by each read cuts the data into pieces, the bytes delivered so
/// far followed by the bytes still unread are the bytes that were unread at
/// the start. So once the script is exhausted, all of them have been
/// delivered, in order.
pub proof fn lemma_chunking_invariance(m: StreamView, calls: Seq<Call>)
    requires
        m.wf(),
    ensures
        m.run(calls).wf(),
        m.run(calls).script == m.script,
        m.unread() == m.delivered(calls) + m.run(calls).unread(),
        m.run(calls).exhausted() ==> m.delivered(calls) == m.unread(),
    decreases calls.len(),
{
    if calls.len() > 0 {
        let next = m.call(calls[0]).next;
        lemma_call_delivers(m, calls[0]);
        lemma_chunking_invariance(next, calls.skip(1));
        assert(m.unread() =~= m.delivered(calls) + m.run(calls).unread());
    }
    if m.run(calls).exhausted() {
        assert(m.run(calls).unread() =~= Seq::<u8>::empty());
    }
}

/// A fresh stream driven to the end of its script has delivered the bytes of
/// all its `Read` actions, in order, whatever the calls were.
pub proof fn lemma_reads_reassemble(script: Seq<ActionView>, calls: Seq<Call>)
    requires
        StreamView::start(script).run(calls).exhausted(),
    ensures
        StreamView::start(script).delivered(calls) == read_payload(script, 0),
{
    lemma_start_wf(script);
    lemma_chunking_invariance(StreamView::start(script), calls);
}

/// What a write call does at a `Write` action. Writing exactly the expected
/// bytes accepts all of them and moves on. Writing more, with the expected
/// bytes in front, accepts the expected bytes only and moves on. Any other
/// bytes fail as invalid input; the log and the cursor stay as they were.
pub proof fn lemma_write_matching(m: StreamView, expected: Seq<u8>, buf: Seq<u8>)
    requires
        !m.exhausted(),
        m.current() == ActionView::Write(expected),
        buf.len() > 0,
    ensures
        buf == expected ==> m.write(buf) == (Step {
            next: m.advance().log(buf),
            reply: Reply { outcome: Outcome::Done(buf.len()), bytes: Seq::empty() },
        }),
        expected.is_prefix_of(buf) ==> {
            &&& m.write(buf).reply.outcome == Outcome::Done(expected.len())
            &&& m.write(buf).next.written == m.written + expected
            &&& m.write(buf).next.action == m.action + 1
        },
        !expected.is_prefix_of(buf) ==> m.write(buf) == (Step {
            next: m,
            reply: Reply {
                outcome: Outcome::Failed(StreamError::mismatch_view()),
                bytes: Seq::empty(),
            },
        }),
{
    if buf == expected {
        assert(expected.is_prefix_of(buf)) by {
            assert(buf.subrange(0, expected.len() as int) =~= expected);
        }
    }
}

/// The replies to a call, and where it leaves the cursor, do not depend on
/// the written log; and what the call adds to the log does not depend on
/// what the log held. Nor do they depend on the timer in flight, unless the
/// call gives way to it.
pub proof fn lemma_call_ignores_log(a: StreamView, b: StreamView, c: Call)
    requires
        a.same_place(b),
        c.unready() ==> ((a.timer is Some) == (b.timer is Some)),
    ensures
        a.call(c).reply == b.call(c).reply,
        a.call(c).next.same_place(b.call(c).next),
        c.polled() ==> ((a.call(c).next.timer is Some) == (b.call(c).next.timer is Some)),
        !c.polled() ==> a.call(c).next.timer == a.timer && b.call(c).next.timer == b.timer,
        a.call(c).next.written.len() >= a.written.len(),
        b.call(c).next.written.len() >= b.written.len(),
        a.call(c).next.written.take(a.written.len() as int) == a.written,
        b.call(c).next.written.take(b.written.len() as int) == b.written,
        a.call(c).next.logged_since(a.written.len()) == b.call(c).next.logged_since(
            b.written.len(),
        ),
{
    let x = a.call(c).next;
    let y = b.call(c).next;
    assert(x.written.take(a.written.len() as int) =~= a.written);
    assert(y.written.take(b.written.len() as int) =~= b.written);
    assert(x.logged_since(a.written.len()) =~= y.logged_since(b.written.len()));
}

/// The same over a sequence of calls.
pub proof fn lemma_run_ignores_log(a: StreamView, b: StreamView, calls: Seq<Call>)
    requires
        a.same_place(b),
        a.timers_alike(b, calls),
    ensures
        a.replies(calls) == b.replies(calls),
        a.run(calls).same_place(b.run(calls)),
        a.run(calls).written.len() >= a.written.len(),
        b.run(calls).written.len() >= b.written.len(),
        a.run(calls).written.take(a.written.len() as int) == a.written,
        b.run(calls).written.take(b.written.len() as int) == b.written,
        a.run(calls).logged_since(a.written.len()) == b.run(calls).logged_since(b.written.len()),
    decreases calls.len(),
{
    if calls.len() > 0 {
        let x = a.call(calls[0]).next;
        let y = b.call(calls[0]).next;
        lemma_call_ignores_log(a, b, calls[0]);
        lemma_run_ignores_log(x, y, calls.skip(1));
        let xs = a.run(calls);
        let ys = b.run(calls);
        assert(xs.written.take(a.written.len() as int) =~= a.written) by {
            assert(xs.written.take(x.written.len() as int).take(a.written.len() as int)
                =~= xs.written.take(a.written.len() as int));
        }
        assert(xs.logged_since(a.written.len()) =~= x.logged_since(a.written.len())
            + xs.logged_since(x.written.len())) by {
            assert(xs.written.take(x.written.len() as int) == x.written);
        }
        assert(ys.written.take(b.written.len() as int) =~= b.written) by {
            assert(ys.written.take(y.written.len() as int).take(b.written.len() as int)
                =~= ys.written.take(b.written.len() as int));
        }
        assert(ys.logged_since(b.written.len()) =~= y.logged_since(b.written.len())
            + ys.logged_since(y.written.len())) by {
            assert(ys.written.take(y.written.len() as int) == y.written);
        }
    } else {
        assert(a.logged_since(a.written.len()) =~= b.logged_since(b.written.len()));
        assert(a.written.take(a.written.len() as int) =~= a.written);
        assert(b.written.take(b.written.len() as int) =~= b.written);
    }
}

/// Calls that are all blocking do not wait on a timer, and leave the timer
/// as it was.
pub proof fn lemma_blocking_calls_pass_timer_by(m: StreamView, calls: Seq<Call>)
    requires
        forall|i: int| 0 <= i < calls.len() ==> !(#[trigger] calls[i]).polled(),
    ensures
        !waits_on_timer(calls),
        m.run(calls).timer == m.timer,
    decreases calls.len(),
{
    if calls.len() > 0 {
        assert(!calls[0].polled());
        assert forall|i: int| 0 <= i < calls.skip(1).len() implies !(#[trigger] calls.skip(
            1,
        )[i]).polled() by {
            assert(!calls[i + 1].polled());
        }
        lemma_blocking_calls_pass_timer_by(m.call(calls[0]).next, calls.skip(1));
    }
}

/// Replay. Take a stream at the start of its script and make some calls;
/// then rewind the cursor and make the same calls again. The second pass
/// gets the same replies and ends at the same place. The log is not rewound:
/// the second pass adds to it what the first pass added. Where the calls
/// wait on a timer, this holds if the first pass ends as it began, with a
/// timer in flight or without one.
pub proof fn lemma_replay_after_reset(m: StreamView, calls: Seq<Call>)
    requires
        m.action == 0,
        m.pos == 0,
        m.timers_alike(m.run(calls), calls),
    ensures
        m.run(calls).reset_actions().replies(calls) == m.replies(calls),
        m.run(calls).reset_actions().run(calls).same_place(m.run(calls)),
        m.run(calls).written == m.written + m.run(calls).logged_since(m.written.len()),
        m.run(calls).reset_actions().run(calls).written == m.run(calls).written + m.run(
            calls,
        ).logged_since(m.written.len()),
{
    let first = m.run(calls);
    let again = first.reset_actions();
    lemma_run_keeps_script(m, calls);
    lemma_run_ignores_log(m, again, calls);
    assert(first.written =~= m.written + first.logged_since(m.written.len()));
    assert(again.run(calls).written =~= again.written + again.run(calls).logged_since(
        again.written.len(),
    ));
}

/// A run of calls leaves the script as it was.
pub proof fn lemma_run_keeps_script(m: StreamView, calls: Seq<Call>)
    ensures
        m.run(calls).script == m.script,
    decreases calls.len(),
{
    if calls.len() > 0 {
        lemma_run_keeps_script(m.call(calls[0]).next, calls.skip(1));
    }
}

/// A call made at action `k` or later does not look at the actions before
/// `k`: it does to the stream what it does to one whose script begins at
/// action `k`.
pub proof fn lemma_call_shifted(a: StreamView, b: StreamView, k: nat, c: Call)
    requires
        a.shifted(b, k),
        c.unready() ==> ((a.timer is Some) == (b.timer is Some)),
    ensures
        a.call(c).reply == b.call(c).reply,
        a.call(c).next.shifted(b.call(c).next, k),
        c.polled() ==> ((a.call(c).next.timer is Some) == (b.call(c).next.timer is Some)),
        !c.polled() ==> a.call(c).next.timer == a.timer && b.call(c).next.timer == b.timer,
{
    assert(a.exhausted() == b.exhausted());
    if !a.exhausted() {
        assert(a.current() == b.current());
    }
}

/// The same over a sequence of calls.
pub proof fn lemma_run_shifted(a: StreamView, b: StreamView, k: nat, calls: Seq<Call>)
    requires
        a.shifted(b, k),
        a.timers_alike(b, calls),
    ensures
        a.replies(calls) == b.replies(calls),
        a.run(calls).shifted(b.run(calls), k),
    decreases calls.len(),
{
    if calls.len() > 0 {
        lemma_call_shifted(a, b, k, calls[0]);
        lemma_run_shifted(a.call(calls[0]).next, b.call(calls[0]).next, k, calls.skip(1));
    }
}

/// Seeking. A stream moved to action `k`, with its log emptied, answers
/// every sequence of calls as a stream freshly built from the actions from
/// `k` on does, and logs the same bytes. Where the calls wait on a timer,
/// this holds if none is in flight, as in a fresh stream.
pub proof fn lemma_seek_is_fresh_suffix(m: StreamView, k: nat, calls: Seq<Call>)
    requires
        k <= m.script.len(),
        m.timer is None || !waits_on_timer(calls),
    ensures
        m.seek_action(k).reset_written().replies(calls) == StreamView::start(
            m.script.skip(k as int),
        ).replies(calls),
        m.seek_action(k).reset_written().run(calls).written == StreamView::start(
            m.script.skip(k as int),
        ).run(calls).written,
        m.seek_action(k).reset_written().run(calls).shifted(
            StreamView::start(m.script.skip(k as int)).run(calls),
            k,
        ),
{
    lemma_run_shifted(
        m.seek_action(k).reset_written(),
        StreamView::start(m.script.skip(k as int)),
        k,
        calls,
    );
}

/// A pause suspends a polled call. A polled call that meets a `Wait` action
/// is not ready: it reports the pause, moves past it and leaves its timer in
/// flight. Until that timer has expired, every polled call is not ready
/// either and changes nothing.
pub proof fn lemma_pause_suspends(m: StreamView, timer_ready: bool, cap: nat, buf: Seq<u8>)
    requires
        !m.exhausted(),
        m.current() is Wait,
        !m.blocked(timer_ready),
        cap > 0,
        buf.len() > 0,
    ensures
        m.poll_read(timer_ready, cap) == m.poll_write(timer_ready, buf),
        m.poll_read(timer_ready, cap).reply.outcome == Outcome::Wait(m.current()->Wait_0),
        m.poll_read(timer_ready, cap).next == (StreamView {
            timer: Some(m.current()->Wait_0),
            ..m.advance()
        }),
        forall|room: nat| #[trigger]
            m.poll_read(timer_ready, cap).next.poll_read(false, room) == m.poll_read(
                timer_ready,
                cap,
            ).next.pending(),
        forall|bytes: Seq<u8>| #[trigger]
            m.poll_read(timer_ready, cap).next.poll_write(false, bytes) == m.poll_read(
                timer_ready,
                cap,
            ).next.pending(),
{
}

/// A pause is reported to a blocking call with its length, once: the cursor
/// moves past it, so that the call made after the pause meets the next
/// action.
pub proof fn lemma_pause_reported(m: StreamView, cap: nat, buf: Seq<u8>)
    requires
        !m.exhausted(),
        m.current() is Wait,
        cap > 0,
        buf.len() > 0,
    ensures
        m.read(cap) == m.write(buf),
        m.read(cap).reply.outcome == Outcome::Wait(m.current()->Wait_0),
        m.read(cap).next == m.advance(),
{
}

} // verus!
