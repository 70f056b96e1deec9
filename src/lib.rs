//! A small chat-bot library: the `ping` command, the log records of the
//! command lifecycle, the response to framework errors and the startup
//! sequence, each as verified decisions over plain values.

pub mod commands;
pub mod data;
pub mod dispatch;
pub mod logging;
pub mod startup;

pub use commands::{ping, ping_reply, CommandDescriptor};
pub use data::Data;
pub use logging::{BOT_NAME, COMMAND_TARGET, ERROR_TARGET};
