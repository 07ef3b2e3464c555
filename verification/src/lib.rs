//! Socket activation without system calls.
//!
//! A supervising process may open sockets and hand them down to the process
//! it starts, so that connections survive a restart. This library holds the
//! rules of that hand-over: which descriptors the environment offers, when a
//! raw handle may become a socket of a requested kind, and that every
//! offered handle is given out at most once.
//!
//! The library itself never touches the operating system. Its functions take
//! what the system reported as plain values and say what is to be done next,
//! so every decision is stated in a contract and proved. The caller reads the
//! environment, makes the system calls, and wraps the handle that a claim
//! ends in.
//!
//! - [`unix`] reads the offer from the `LISTEN_*` variables and decides, from
//!   what the system reports of a descriptor, whether it is a socket of the
//!   requested family and type.
//! - [`windows`] leads the handshake with the endpoint that the supervisor
//!   advertises, and says what the offer is once the endpoint has answered.
//! - [`manager`] holds the offered handles in numbered slots. A claim on a
//!   slot goes through the steps of `unix` or `windows` and empties the slot
//!   when, and only when, it succeeds.
//!
//! A claim on a descriptor is made in steps. The caller starts with
//! `Answers` that hold nothing and calls `take_tcp_listener`, or another of
//! the claims. As long as the result is a question, `Step::Probe` or
//! `Step::SetCloexec`, it asks the system, adds the answer and calls again.
//! `Step::Done` ends the claim: with the descriptor, with nothing where the
//! slot was empty, or with the error.
pub mod environ;
pub mod error;
pub mod manager;
pub mod text;
pub mod unix;
pub mod windows;

pub use crate::error::{Error, ErrorKind};
pub use crate::manager::ListenFd;
