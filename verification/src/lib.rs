pub mod capture;
pub mod connection;
pub mod encode;
pub mod error;
pub mod input;
pub mod json;
pub mod network;
pub mod server;
pub mod settings;
pub mod stream;
pub mod text;
