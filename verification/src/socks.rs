pub mod handler;
pub mod server;
pub mod server_protocol;
