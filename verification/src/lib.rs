//! Process sandboxing: a policy of system call rules, compiled into a kernel
//! filter, with optional interception of system calls by a supervising tracer.
//!
//! The library decides and the embedding program acts. A
//! [`policy::Policy`] collects rules and handlers and, applied, gives the
//! steps that put it into force. Where handlers are registered, a parent
//! process traces the confined child, and [`event_loop::EventLoop`] answers
//! every stop of the child: which handler runs, how the child is resumed,
//! when it is killed. [`registers::Registers`] is the child's register file
//! at a stop, which an interceptor reads, changes and commits.
//!
//! No function of this library makes a system call. The embedding program
//! makes them, and hands what they return to the functions of [`wrapper`],
//! which read it.

pub mod error;
pub mod event_loop;
pub mod filter;
pub mod interceptor;
pub mod policy;
pub mod registers;
pub mod syscall;
mod sys;
mod text;
pub mod tracer;
pub mod wrapper;

pub use error::SeccompError;
pub use wrapper::TraceAction;
