//! Core of a small HTTP API server scaffold: a dispatch context with one
//! example endpoint ("hello"), the endpoint's declared response variants, a
//! closed failure type, and the error-handling hook that turns failures into
//! wire-level responses. The surrounding process (listener, router, logging)
//! lives outside this crate and hands the library plain request metadata.

pub mod api_context;
pub mod api_error;
pub mod apis;
pub mod handlers;
pub mod request;
