//! A minimal HTTP request dispatcher.
//!
//! The library holds the verified core of a one-shot command-line HTTP
//! client: parsing and validating the argument vector, choosing the GET or
//! POST request constructor for the supplied URL, rendering a response's
//! status line and headers, and deciding the process outcome (what to print
//! on which stream, and the exit status). The network call itself is left to
//! the surrounding program.

pub mod cli;
pub mod dispatch;
pub mod outcome;
pub mod response;
pub mod text;
