//! The argument-binding core of an OpenQASM interpreter.
//!
//! The body of a user-defined operation speaks of its formal parameters
//! only. Before an invocation can be expanded, every such reference has to be
//! replaced by the actual argument given at the call site. The
//! [`interpreter::argument_solver::ArgumentSolver`] does that replacement and
//! reports the names that are bound to nothing.

pub mod error;
pub mod grammar;
pub mod interpreter;
