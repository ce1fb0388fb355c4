//! A workflow engine for HTTP, one step at a time.
//!
//! A [`Stepable`] step describes one request as a [`Request`] and says what to
//! do with the [`Context`] once the request succeeded, failed or timed out. A
//! [`Worker`] keeps steps by name and runs the step it is asked for: it lets
//! the step produce its request, follows a directive to another step or builds
//! the request with its [`HttpRequester`], judges the status code of the
//! response by the step's list of accepted codes, stores the body, and tells
//! the step how it went.
//!
//! The worker decides and the caller waits: sending a request and reading a
//! body are left to whoever drives the worker, see [`worker`].

pub mod client_settings;
pub mod codec;
pub mod context;
pub mod errors;
pub mod header_text;
pub mod http_requester;
pub mod request;
pub mod steps;
pub mod text;
pub mod transport;
pub mod worker;

pub use client_settings::ClientSettings;
pub use context::Context;
pub use errors::StepError;
pub use header_text::hdr;
pub use http_requester::HttpRequester;
pub use request::Request;
pub use steps::Stepable;
pub use worker::Worker;
