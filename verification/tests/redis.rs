use cache::drivers::redis::{Config, Error, RedisDriver, WriteCommand};

fn driver(prefix: &str) -> RedisDriver {
    RedisDriver::new(Config {
        prefix: prefix.to_string(),
        ..Default::default()
    })
    .unwrap()
}

#[test]
fn test_redis_config_default() {
    let config = Config::default();
    assert_eq!(config.prefix, "".to_string());
    assert_eq!(config.redis_url, "redis://localhost".to_string());
}

#[test]
fn test_redis_prefixed_key() {
    let prefixed = driver("app:");
    assert_eq!(prefixed.prefixed("foo"), "app:foo".to_string());

    let bare = driver("");
    assert_eq!(bare.prefixed("foo"), "foo".to_string());
}

#[test]
fn test_redis_put_command_with_expiry() {
    let driver = driver("app:");
    let command = driver
        .put("foo", &"bar".to_string(), Some(10))
        .unwrap();

    match command {
        WriteCommand::SetWithExpiry { key, data, seconds } => {
            assert_eq!(key, "app:foo".to_string());
            assert_eq!(seconds, 10);
            assert_eq!(data, bitcode::serialize(&"bar".to_string()).unwrap());
        }
        WriteCommand::SetForever { .. } => panic!("expected an expiring write"),
    }
}

#[test]
fn test_redis_put_command_forever() {
    let driver = driver("");
    let command = driver.put("foo", &"bar".to_string(), None).unwrap();

    match command {
        WriteCommand::SetForever { key, data } => {
            assert_eq!(key, "foo".to_string());
            assert_eq!(data, bitcode::serialize(&"bar".to_string()).unwrap());
        }
        WriteCommand::SetWithExpiry { .. } => panic!("expected a write with no expiry"),
    }
}

#[test]
fn test_redis_payload_is_encoded_not_raw() {
    let driver = driver("");
    let command = driver.put("foo", &"bar".to_string(), None).unwrap();

    match command {
        WriteCommand::SetForever { data, .. } => {
            assert_ne!(data, b"bar".to_vec());
        }
        WriteCommand::SetWithExpiry { .. } => panic!("expected a write with no expiry"),
    }
}

#[test]
fn test_redis_read_get_reply_roundtrip() {
    let driver = driver("");
    let stored = bitcode::serialize(&"bar".to_string()).unwrap();

    assert_eq!(
        driver.get(Some(stored)).unwrap(),
        Some("bar".to_string())
    );
    assert_eq!(driver.get(None).unwrap(), None);
}

#[test]
fn test_redis_read_get_reply_malformed() {
    let driver = driver("");
    let reply = driver.get(Some(vec![0xff, 0xff, 0xff, 0xff]));
    assert_eq!(reply, Err(Error::Serialization));
}
