//! The decisions of a safe binding to the Tcl scripting engine.
//!
//! The runtime is a C library with handles that it counts by hand and statuses
//! that it returns as integers. This crate holds what a binding has to decide:
//! which entry point is called when and with what, what each result means, and
//! when a value or an interpreter is given back. It makes no call itself. An
//! operation of a handle is a sequence of steps (`task::Step`): each step names
//! the call to make (`ffi::Call`) and takes what the call returned
//! (`ffi::Reply`), until the operation is over.
//!
//! - `init`: the guard that has the runtime made ready once in a process
//! - `interp`: the handle to an interpreter
//! - `obj`: the handles to the values of the runtime
//! - `task`: the steps of the operations
//! - `ffi`: the calls, the replies, and the constants of the runtime
//! - `completion_code`, `error`: what the runtime's statuses mean
//! - `c_str`: strings on their way to and from the runtime
pub mod c_str;
pub mod completion_code;
pub mod error;
pub mod ffi;
pub mod init;
pub mod interp;
pub mod obj;
pub mod task;

pub use completion_code::CompletionCode;
pub use error::TclError;
pub use ffi::{Call, Reply};
pub use init::InitGuard;
pub use interp::TclInterp;
pub use obj::TclObj;
pub use task::{Output, Step, Task};
