//! Crash capture for a worker thread that runs generated code.
//!
//! A vectored exception handler sees every structured exception of the process first.
//! The library decides which of them belong to the registered worker and can be survived,
//! records the machine state of such a crash in a one-slot buffer, and redirects the thread
//! to a recovery routine. A supervisor later takes the dump out of the buffer and shows it as text.
//!
//! * [`seh`]: the status codes and the answers of a handler.
//! * [`dump`]: the captured machine state, and its text.
//! * [`stack`]: merging the bytes that could be read from the faulting stack.
//! * [`handler`]: the handler's state and the operations on it.
//! * [`text`]: hexadecimal and decimal numbers.
//! * [`laws`]: what holds across several operations.
//! * [`readback`]: what the text of a dump tells.

pub mod dump;
pub mod handler;
pub mod laws;
pub mod readback;
pub mod seh;
pub mod stack;
pub mod text;

pub use dump::{format_code, format_dump, CapturedDump};
pub use handler::{
    install, register_worker_thread, take_dump, unregister_worker_thread, veh_callback, Context,
    CrashState, ExceptionPointers, ExceptionRecord,
};
pub use seh::exception_name;
pub use stack::{copy_stack_safely, StackRead};
