//! The core of a monitoring agent that samples local metrics on a fixed
//! interval and publishes them to an MQTT broker.
//!
//! The library performs no input or output. Whatever touches a file, a
//! socket, a process or the clock is asked of the caller as a
//! [`transport::Request`] and answered with a [`transport::Response`];
//! every decision in between is made, and verified, here.
//!
//! - [`config`]: the configuration and its defaults.
//! - [`filetools`] and [`datatools`]: the readings, as far as they are
//!   text: the value token of a metric file, and the usage listing of the
//!   mounted file systems.
//! - [`wire`]: the frames, encoded by the `mqtt` crate.
//! - [`server`]: the connection manager and the keep-alive reader.
//! - [`watches`]: one round of sampling and publishing.
//! - [`scheduler`]: the main loop.

pub mod config;
pub mod datatools;
pub mod filetools;
pub mod scheduler;
pub mod server;
pub mod text;
pub mod transport;
pub mod watches;
pub mod wire;
