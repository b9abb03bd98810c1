//! The core of an agent that asks a hosted language model to act as a
//! function: prompt shaping, the retry policy, and the decoding of the
//! answer.
//!
//! - [`message`]: the messages, the request body with its fixed model and
//!   temperature, and the result that comes back.
//! - [`prompt`]: wraps a template's instruction and the caller's input into
//!   one system message that makes the model print a result and nothing else.
//! - [`request`]: one request as a state machine: a failed transport is
//!   retried once, a second failure is fatal.
//! - [`course`]: what a whole request amounts to for given outcomes of its
//!   attempts, and the laws that hold of it.
//! - [`decode`]: turns the text of a completion into a typed value, or into
//!   a fatal error.
//! - [`error`]: the failures.
//!
//! Nothing here touches the network, the environment or the file system.
//! The state machine says what to send; whoever drives it sends it.

pub mod course;
pub mod decode;
pub mod error;
pub mod message;
pub mod prompt;
pub mod request;
