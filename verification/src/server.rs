pub mod registry;
pub mod relay;
