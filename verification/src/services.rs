pub mod heartbeat;
pub mod redis_service;
pub mod sensor_service;
pub mod auth_service;
