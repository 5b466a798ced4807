//! The protocol core of a safe binding to an X-style display server and its
//! GLX extension.
//!
//! Nothing in this crate talks to a server. Every operation of the binding is
//! split in two: a function that decides which [`protocol::Request`]s go to
//! the server, and a function that says what a [`protocol::Reply`] means. A
//! driver performs the requests and hands the replies back. What the binding
//! owns, which resources it must release and in what order, which surface a
//! drawing call targets and when the event loop stops are all decided here,
//! and proved.
#![allow(non_upper_case_globals)]

pub mod error;
pub mod glx;
pub mod protocol;
pub mod util;
pub mod xcb;
pub mod xlib;
