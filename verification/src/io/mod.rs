//! Leveled logging.

pub mod logging;

pub use logging::{get_log_level, log, set_log_level, LogLevel};
