//! Typed command dispatch and response interpretation for an interactive
//! shell that drives a Language Server Protocol session.
//!
//! The library decides; its caller runs the client. For each input line
//! [`dispatch::handle_input`] returns the text to print and at most one action
//! (start a server, send a request, send a notification), and keeps the
//! session's request counter. [`response::handle_response`] classifies how a
//! request ended and gives the text to print for it.
pub mod commands;
pub mod dispatch;
pub mod laws;
pub mod response;
pub mod session;
pub mod text;
