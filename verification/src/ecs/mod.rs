pub mod channels;
pub mod commands;
pub mod components;
pub mod outbox;
pub mod storage;
pub mod systems;
pub mod world;

pub use channels::Delivery;
pub use commands::{Command, Effects, Reply, UserView};
pub use world::{deliver, entity_to_id, handle_command, id_to_entity, plan_command};
