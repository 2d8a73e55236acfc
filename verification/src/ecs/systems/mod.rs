pub mod audio_forward;
pub mod device_switch;
pub mod presence;
pub mod text_broadcast;
