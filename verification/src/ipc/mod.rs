pub mod i3_compat;
pub mod i3_server;
pub mod protocol;
