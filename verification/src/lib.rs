//! The rules of a worker that runs a script in a Deno process and talks to it
//! over a Unix domain socket.
//!
//! The library decides and computes; it starts no process and opens no
//! socket. It composes the sandbox flags and the command line of the runtime
//! (`flags`, `launch`), tells how long to wait for the runtime's socket
//! (`readiness`), builds the requests that go to the runtime and decodes its
//! answers (`request`, `response`), classifies the end of the process
//! (`monitor`), and keeps the state of the worker through all of this
//! (`worker`).

pub mod error;
pub mod flags;
pub mod launch;
pub mod monitor;
pub mod options;
pub mod readiness;
pub mod request;
pub mod response;
pub mod text;
pub mod worker;
