//! Client-side orchestration of asynchronous, deadline-bounded HTTP
//! request/response exchanges, executed by an external transport.
//!
//! The library builds a request, submits it, waits (singly or in a batch)
//! for completion under time budgets, and lazily streams a response body
//! through a small fixed-size buffer. The actual network execution is
//! behind the [`transport::Transport`] trait; every contract here speaks
//! of the ghost log of calls made into that trait.

pub mod body;
pub mod headers;
pub mod request;
pub mod response;
pub mod stub;
pub mod transport;
pub mod wait;
