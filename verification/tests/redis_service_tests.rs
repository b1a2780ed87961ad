use axum_api::services::redis_service::ttl;
use axum_api::services::redis_service::{latest_buffer_index, SENSOR_BUFFER_KEY};

#[test]
fn test_latest_buffer_index_lpush_order_returns_head() {
    assert_eq!(latest_buffer_index(), 0);
}

#[test]
fn buffer_key_and_ttls() {
    assert_eq!(SENSOR_BUFFER_KEY, "sensor:buffer");
    assert_eq!(ttl::SHORT, 60);
    assert_eq!(ttl::SENSOR_BUFFER, 300);
}
