//! Decision logic of a supervisor that keeps one `hypridle` process running
//! with the configuration that matches the current power source.
//!
//! The library decides and never acts. A driver reads the environment, the
//! file system and the power-status service, stops and starts processes, and
//! asks the library at each turn what comes next:
//!
//! - [`discovery`] names the places where the configuration file is looked
//!   for and picks the first at which one was found;
//! - [`startup`] gives the order of the steps of startup and ends it at the
//!   first step that fails;
//! - [`config`] holds the settings and reads the log level;
//! - [`command`] builds the command line that starts `hypridle`;
//! - [`supervisor`] answers each report of the power source with the child
//!   to stop and the command to start;
//! - [`world`] models a driver at work and proves what holds of every run.

pub mod command;
pub mod config;
pub mod discovery;
pub mod power;
pub mod startup;
pub mod supervisor;
pub mod world;
