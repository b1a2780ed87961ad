pub mod sensor;
pub mod auth;
pub mod command;
