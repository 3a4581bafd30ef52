//! Command dispatch and filesystem-scope bootstrapping for a desktop
//! application shell, with the greeting command it exposes.

pub mod bootstrap;
pub mod command;
pub mod greeting;
pub mod scope;
