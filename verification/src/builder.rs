//! Building the script of a [`CheckedMockStream`].

use crate::action::{expected_writes, script_view, Action, ActionView};
use crate::checked::CheckedMockStream;
use crate::error::StreamError;
use crate::model::StreamView;
use std::sync::Arc;
use std::time::Duration;
use vstd::prelude::*;

verus! {

/// Collects the actions of a script, in order, and the number of bytes that
/// its `Write` actions expect in all.
#[derive(Debug)]
pub struct CheckedMockStreamBuilder {
    actions: Vec<Action>,
    writed: usize,
}

impl CheckedMockStreamBuilder {
    /// The running total is that of the script.
    #[verifier::type_invariant]
    spec fn well_formed(self) -> bool {
        self.writed == expected_writes(script_view(self.actions@))
    }

    /// The actions queued so far.
    pub closed spec fn script(&self) -> Seq<ActionView> {
        script_view(self.actions@)
    }

    /// One more action at the end of a script, and what it adds to the bytes
    /// expected.
    proof fn lemma_queued(actions: Seq<Action>, action: Action)
        ensures
            script_view(actions.push(action)) == script_view(actions).push(action@),
            expected_writes(script_view(actions).push(action@)) == expected_writes(
                script_view(actions),
            ) + (match action@ {
                ActionView::Write(bytes) => bytes.len(),
                _ => 0,
            }),
    {
        assert(script_view(actions.push(action)) =~= script_view(actions).push(action@));
        assert(script_view(actions).push(action@).drop_last() =~= script_view(actions));
    }

    /// Creates a builder with an empty script.
    pub fn new() -> (b: Self)
        ensures
            b.script() == Seq::<ActionView>::empty(),
    {
        assert(script_view(Seq::<Action>::empty()) =~= Seq::<ActionView>::empty());
        CheckedMockStreamBuilder { actions: Vec::new(), writed: 0 }
    }

    /// Queues bytes to be handed out by read calls.
    pub fn read(self, value: Vec<u8>) -> (b: Self)
        ensures
            b.script() == self.script().push(ActionView::Read(value@)),
    {
        proof {
            use_type_invariant(&self);
        }
        self.queue(Action::Read(value), 0)
    }

    /// Queues an error to be returned by one read call.
    pub fn read_error(self, err: StreamError) -> (b: Self)
        ensures
            b.script() == self.script().push(ActionView::ReadError(err@)),
    {
        proof {
            use_type_invariant(&self);
        }
        self.queue(Action::ReadError(Arc::new(err)), 0)
    }

    /// Queues bytes that a write call is required to begin with. The bytes
    /// expected by the whole script must be countable.
    pub fn write(self, want: Vec<u8>) -> (b: Self)
        requires
            expected_writes(self.script()) + want@.len() <= usize::MAX,
        ensures
            b.script() == self.script().push(ActionView::Write(want@)),
    {
        let len: usize = want.len();
        self.queue(Action::Write(want), len)
    }

    /// Queues an error to be returned by one write call.
    pub fn write_error(self, err: StreamError) -> (b: Self)
        ensures
            b.script() == self.script().push(ActionView::WriteError(err@)),
    {
        proof {
            use_type_invariant(&self);
        }
        self.queue(Action::WriteError(Arc::new(err)), 0)
    }

    /// Queues a pause.
    pub fn wait(self, duration: Duration) -> (b: Self)
        ensures
            b.script() == self.script().push(ActionView::Wait(duration)),
    {
        proof {
            use_type_invariant(&self);
        }
        self.queue(Action::Wait(duration), 0)
    }

    /// Builds the stream: at the first action of the script, with an empty
    /// written log and no timer in flight.
    pub fn build(self) -> (s: CheckedMockStream)
        ensures
            s@ == StreamView::start(self.script()),
            s@.wf(),
    {
        CheckedMockStream::from_actions(self.actions, 0)
    }

    /// Builds the stream as [`build`](Self::build) does, with room set aside
    /// in the written log for all the bytes that the script expects.
    pub fn build_cap(self) -> (s: CheckedMockStream)
        ensures
            s@ == StreamView::start(self.script()),
            s@.wf(),
    {
        CheckedMockStream::from_actions(self.actions, self.writed)
    }

    /// Adds `action` at the end of the script; `expects` is the number of
    /// bytes that it expects to be written.
    fn queue(self, action: Action, expects: usize) -> (b: Self)
        requires
            expects == match action@ {
                ActionView::Write(bytes) => bytes.len(),
                _ => 0,
            },
            expected_writes(self.script()) + expects <= usize::MAX,
        ensures
            b.script() == self.script().push(action@),
    {
        proof {
            use_type_invariant(&self);
            Self::lemma_queued(self.actions@, action);
        }
        let CheckedMockStreamBuilder { actions, writed } = self;
        let mut actions = actions;
        actions.push(action);
        CheckedMockStreamBuilder { actions, writed: writed + expects }
    }
}

impl Default for CheckedMockStreamBuilder {
    /// A builder with an empty script.
    fn default() -> (b: Self)
        ensures
            b.script() == Seq::<ActionView>::empty(),
    {
        CheckedMockStreamBuilder::new()
    }
}

impl Clone for CheckedMockStreamBuilder {
    /// A builder of its own with the same script.
    fn clone(&self) -> (copy: Self)
        ensures
            copy.script() == self.script(),
    {
        proof {
            use_type_invariant(self);
        }
        let mut actions: Vec<Action> = Vec::new();
        let mut i: usize = 0;
        while i < self.actions.len()
            invariant
                i <= self.actions.len(),
                script_view(actions@) == script_view(self.actions@.take(i as int)),
            decreases self.actions.len() - i,
        {
            actions.push(self.actions[i].clone());
            proof {
                Self::lemma_queued(self.actions@.take(i as int), self.actions@[i as int]);
                assert(self.actions@.take(i + 1) == self.actions@.take(i as int).push(
                    self.actions@[i as int],
                ));
                assert(script_view(actions@) =~= script_view(self.actions@.take(i + 1)));
            }
            i = i + 1;
        }
        assert(self.actions@.take(i as int) == self.actions@);
        CheckedMockStreamBuilder { actions, writed: self.writed }
    }
}

} // verus!
