pub mod command;
pub mod error;
pub mod laws;
pub mod reply;
pub mod text;
pub mod tool;
pub mod trusted;
pub mod vault;
