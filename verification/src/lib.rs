//! A minimal HTTP/1.1-subset server library: route decision, response
//! composition, and the per-connection handler state machine, all verified.
//! Network and file I/O live outside the library and hand in plain bytes.

pub mod conn;
pub mod response;
pub mod route;
