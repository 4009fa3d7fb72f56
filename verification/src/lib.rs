//! A minimal interactive process debugger: the register model, the command
//! parser and the decisions of the control loop that drives a traced process.

pub mod command;
pub mod register;
pub mod session;
pub mod text;
pub mod tracee;
