//! The logic of a small desktop application shell: the greeting command, the
//! logging configuration, and the order in which capabilities are attached
//! at startup.
//!
//! Nothing here touches a window, a file or the network. The program around
//! this library reads the build mode, asks for the configuration and the
//! startup order, and hands both to the application framework.

pub mod greeting;
pub mod logging;
pub mod startup;

pub use greeting::greet;
pub use logging::{configure_logging, LogTarget, LoggingConfig, Verbosity};
pub use startup::{startup_plugins, Plugin};
