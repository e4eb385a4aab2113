pub mod packet;
pub mod extensions;
pub mod handshake;
pub mod buffer;
pub mod mux;
pub mod plugins;
pub mod plugin;
