//! The request execution engine of an HTTP request runner: it decodes
//! declarative request entries, decides what goes on the wire, normalises what
//! came back into a reportable outcome, and drives batch runs and interactive
//! submissions as state machines whose I/O is performed by the caller.

pub mod text;
pub mod method;
pub mod request;
pub mod executor;
pub mod history;
pub mod batch;
pub mod interactive;
