//! Verified core of the sensor-dashboard API: request validation, the
//! dashboard's sensor-stabilisation rule, the background scheduler's
//! decisions, the authentication flows and the error model.
pub mod clock;
pub mod error;
pub mod handlers;
pub mod middleware;
pub mod models;
pub mod text;
pub mod schemas;
pub mod services;
