pub mod capturer;
pub mod factory;
pub mod frame;
pub mod mock_capturer;
pub mod pipewire_capturer;
