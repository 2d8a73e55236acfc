pub mod buf;
pub mod jitter;
pub mod message;
pub mod packet;
pub mod text;
