//! One scripted unit of behaviour.

use crate::error::{ErrorView, StreamError};
use std::sync::Arc;
use std::time::Duration;
use vstd::prelude::*;

verus! {

/// One step of a script. Errors are held behind a shared handle: the script
/// keeps its error while every call that meets it reports a copy.
#[derive(Debug)]
pub enum Action {
    /// Bytes to hand out on read calls.
    Read(Vec<u8>),
    /// An error for one read call.
    ReadError(Arc<StreamError>),
    /// The bytes that a write call must begin with.
    Write(Vec<u8>),
    /// An error for one write call.
    WriteError(Arc<StreamError>),
    /// A pause before the next step.
    Wait(Duration),
}

/// The mathematical value of an [`Action`].
pub enum ActionView {
    Read(Seq<u8>),
    ReadError(ErrorView),
    Write(Seq<u8>),
    WriteError(ErrorView),
    Wait(Duration),
}

impl View for Action {
    type V = ActionView;

    open spec fn view(&self) -> ActionView {
        match self {
            Action::Read(bytes) => ActionView::Read(bytes@),
            Action::ReadError(err) => ActionView::ReadError(err@),
            Action::Write(bytes) => ActionView::Write(bytes@),
            Action::WriteError(err) => ActionView::WriteError(err@),
            Action::Wait(pause) => ActionView::Wait(*pause),
        }
    }
}

/// Calls `Arc::clone`, which returns another handle to the same value.
#[verifier::external_body]
fn share(err: &Arc<StreamError>) -> (handle: Arc<StreamError>)
    ensures
        handle == *err,
{
    Arc::clone(err)
}

impl Clone for Action {
    fn clone(&self) -> (copy: Self)
        ensures
            copy@ == self@,
    {
        match self {
            Action::Read(bytes) => Action::Read(bytes.clone()),
            Action::ReadError(err) => Action::ReadError(share(err)),
            Action::Write(bytes) => Action::Write(bytes.clone()),
            Action::WriteError(err) => Action::WriteError(share(err)),
            Action::Wait(pause) => Action::Wait(*pause),
        }
    }
}

/// The values of a run of actions, in order.
pub open spec fn script_view(actions: Seq<Action>) -> Seq<ActionView> {
    actions.map_values(|a: Action| a@)
}

/// The number of bytes that the `Write` actions of `script` expect in all.
pub open spec fn expected_writes(script: Seq<ActionView>) -> nat
    decreases script.len(),
{
    if script.len() == 0 {
        0
    } else {
        let last = match script.last() {
            ActionView::Write(bytes) => bytes.len(),
            _ => 0,
        };
        expected_writes(script.drop_last()) + last
    }
}

} // verus!
