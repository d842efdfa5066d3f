//! Connection-serving core of a small static-file web server: request
//! routing and response framing, the polling state machine shared by the
//! listeners and the control channel, the worker pool's message protocol,
//! and the configuration model.

pub mod bytes;
pub mod request_handler;
pub mod connection;
pub mod polling;
pub mod thread_pool;
pub mod control;
pub mod settings;
pub mod tls;
