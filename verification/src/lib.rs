//! Mock byte streams for exercising protocol code without real I/O.
//!
//! [`SimpleMockStream`] is an unchecked pair of buffers: bytes to hand out and
//! a log of bytes taken in. [`CheckedMockStream`] follows a script of expected
//! reads, writes, errors and pauses, built with [`CheckedMockStreamBuilder`].
//!
//! Nothing here sleeps or polls a timer. Where a script asks for a pause, the
//! stream reports it and the caller waits.

pub mod action;
pub mod builder;
mod bytes;
pub mod checked;
pub mod error;
pub mod laws;
pub mod model;
pub mod read_buf;
pub mod simple;

pub use action::{Action, ActionView};
pub use builder::CheckedMockStreamBuilder;
pub use checked::{polled_outcome, transfer_outcome, CheckedMockStream, Polled, Transfer};
pub use error::{ErrorView, StreamError};
pub use model::{Call, Outcome, Reply, Step, StreamView};
pub use simple::{SimpleMockStream, SimpleView};
