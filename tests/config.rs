use pixel_canvas::config::{create_connection_string, StoreConfig};
use pixel_canvas::error::CanvasError;

fn s(v: &str) -> Option<String> {
    Some(v.to_string())
}

#[test]
fn connection_string_without_credentials() {
    assert_eq!(create_connection_string(s("h"), s("6379"), None, None).unwrap(), "redis://h:6379/");
}

#[test]
fn connection_string_with_username() {
    assert_eq!(create_connection_string(s("h"), s("1"), s("u"), None).unwrap(), "redis://u:@h:1/");
}

#[test]
fn connection_string_with_password() {
    assert_eq!(create_connection_string(s("h"), s("1"), None, s("p")).unwrap(), "redis://:p@h:1/");
}

#[test]
fn connection_string_with_both() {
    assert_eq!(create_connection_string(s("h"), s("1"), s("u"), s("p")).unwrap(), "redis://u:p@h:1/");
}

#[test]
fn connection_string_needs_host_and_port() {
    assert_eq!(create_connection_string(None, s("1"), None, None), Err(CanvasError::ConfigMissing));
    assert_eq!(create_connection_string(s("h"), None, None, None), Err(CanvasError::ConfigMissing));
}

#[test]
fn pool_settings_default() {
    let c = StoreConfig::from_values(s("h"), s("1"), None, None, None, None, None).unwrap();
    assert_eq!(c.connection_string, "redis://h:1/");
    assert_eq!((c.max_open, c.min_idle, c.expire_seconds), (5, 1, 1800));
    let c = StoreConfig::from_values(s("h"), s("1"), None, None, Some(9), Some(2), Some(60)).unwrap();
    assert_eq!((c.max_open, c.min_idle, c.expire_seconds), (9, 2, 60));
    assert!(StoreConfig::from_values(None, None, None, None, None, None, None).is_err());
}
