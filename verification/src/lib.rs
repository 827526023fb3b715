pub mod action;
pub mod channel_content;
pub mod create_file;
pub mod place_channel_configuration;
