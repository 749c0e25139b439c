//! Statements about the two state machines that hold of every run, each proved
//! from the machine's rule.

pub mod flow;
pub mod supervisor;
