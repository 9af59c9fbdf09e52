//! The desktop GUI's records (devices as shown, its tabs, what it shows of
//! the platform it runs on) and the routes of its embedded HTTP server.

pub mod app;
pub mod http_server;
pub mod platform;
