//! A front-end over native package managers: it resolves which manager to
//! target, translates a user command into a manager-agnostic action, and
//! tracks the stream of output lines that the manager's process produces.

pub mod command;
pub mod resolve;
pub mod stream;
pub mod request;
