# crash_handler

Crash capture for a worker thread that runs generated code, for 64-bit Windows.

* `src/` is the verified library: which exceptions are intercepted, what is recorded of a crash, how
  the one-slot dump buffer behaves over time, and the text of a dump.
* `app/` is the process-wide handler around it: system calls, shared cells and raw pointers.
* `tests/` runs the library on concrete values.

The status codes come from the `windows` crate. That crate's system calls are unsafe functions and are
made in `app/`.
