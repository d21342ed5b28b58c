//! Decision logic of a desktop shell that launches, stops and health-checks a
//! local web backend, and probes the machine for the runtime dependencies the
//! backend needs (conda, a named conda environment, a Python interpreter,
//! ffmpeg).
//!
//! Every operation of the shell is a thin layer of I/O (spawning a process,
//! one HTTP request) around a pure decision: which command line to run, what
//! status to report for a given outcome, how to read a tool's output. Those
//! decisions live here, each with a contract; the I/O layer hands in plain
//! values (exit flags, captured output, response codes) and gets plain values
//! back.

pub mod backend_manager;
pub mod env_checker;
pub mod text;
