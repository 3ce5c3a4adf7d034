//! The command bridge of a desktop shell: the operations that the embedded
//! user interface can invoke, and the set of capability plugins that the host
//! registers at startup.

pub mod commands;
pub mod plugins;
