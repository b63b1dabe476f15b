//! Desktop notifications for the song that the Music Player Daemon plays.
//!
//! The library holds the rules of the program: how the daemon's
//! configuration and state files are read, where the configuration is looked
//! for, and how the watch loop decides when to notify.

pub mod args;
pub mod text;
pub mod decimal;
pub mod error;
pub mod config;
pub mod state;
pub mod locate;
pub mod notify;
pub mod watch;

pub use args::Args;
pub use config::{parse_config, Config};
pub use error::Error;
pub use state::{parse_state, Scanner};
pub use watch::{Action, Event, Phase, WatchLoop};
