pub mod auth;
pub mod sensor;
pub mod command;
