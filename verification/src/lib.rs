pub mod common;
pub mod ecs;
pub mod gateway;
pub mod voice;
