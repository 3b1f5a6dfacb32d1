//! Command logic of gnirehtet, which gives Android devices reverse tethering
//! through adb: the adb invocations that each command performs and the order
//! in which they run, the decision whether the client must be installed,
//! command-line parsing, device tracking and the usage text.

pub mod text;
pub mod execution_error;
pub mod cli_args;
pub mod client;
pub mod session;
pub mod adb;
pub mod command;
pub mod usage;
pub mod devices;
