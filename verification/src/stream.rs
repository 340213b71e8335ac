pub mod pipeline;
pub mod rate_control;
