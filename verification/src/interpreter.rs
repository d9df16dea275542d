//! The steps that expand a program before it is simulated.

pub mod argument_solver;
