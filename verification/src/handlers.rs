pub mod auth_handler;
pub mod sensor_handler;
pub mod command_handler;
