pub mod commands;
pub mod playback;
pub mod presence;
pub mod settings;
pub mod text;
