//! Turns the raw arguments of one invocation of a geospatial tool runner into
//! a single command, together with the working directory, the verbosity and
//! the arguments that are handed on to the tool.

pub mod text;
pub mod token;
pub mod command;
pub mod state;
pub mod resolve;
pub mod guarantees;
pub mod dispatch;
pub mod banner;
