//! Sub-interpreter state of a Python extension runtime.
//!
//! A Python object belongs to exactly one interpreter. This crate holds the bookkeeping that
//! keeps it that way when several interpreters, each under its own GIL, use one extension in
//! one process: where a thread attaches, which interpreter a deferred decref belongs to, where
//! each interpreter keeps its own cached values, and what a module tells CPython about itself.
//!
//! Everything here is plain state and decisions on plain values. Interpreters, thread states
//! and Python objects are addresses (`usize`, zero for null); the calls into CPython are made
//! by the code around this crate, which performs the actions that the functions here name and
//! hands back what came of them.

pub mod config;
pub mod impl_;
pub mod internal;
pub mod marker;
pub mod probe;
pub mod reference;
pub mod sync;
mod table;
