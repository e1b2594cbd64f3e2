//! Decision logic of a development-loop supervisor: it keeps one subprocess
//! alive behind a reverse proxy and offers a small control plane next to it.
//!
//! Everything here works on plain values. The program around the library
//! owns the sockets, the child process and the channels; it reports what
//! happened and carries out what the library answers.

pub mod auth;
pub mod control;
pub mod proxy;
pub mod schedule;
pub mod status;
pub mod subproc;
pub mod text;
