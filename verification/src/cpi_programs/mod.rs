//! A program that invokes another, and the counter program it invokes.

pub mod caller_program;
pub mod counter_program;
