use cache::drivers::dynamodb::{parse_u64, u64_to_digits, Attr, Config, DynamoDBDriver, Error};

fn driver() -> DynamoDBDriver {
    DynamoDBDriver::new(Config::default()).unwrap()
}

#[test]
fn test_dynamodb_config_default() {
    let config = Config::default();
    assert_eq!(config.table, "cache".to_string());
    assert_eq!(config.prefix, "".to_string());
    assert_eq!(config.key_attribute, "key".to_string());
    assert_eq!(config.value_attribute, "value".to_string());
    assert_eq!(config.expiration_attribute, "expires_at".to_string());
}

#[test]
fn test_dynamodb_parse_u64() {
    assert_eq!(parse_u64(&b"0".to_vec()), Some(0));
    assert_eq!(parse_u64(&b"123".to_vec()), Some(123));
    assert_eq!(parse_u64(&b"007".to_vec()), Some(7));
    assert_eq!(parse_u64(&b"18446744073709551615".to_vec()), Some(u64::MAX));

    assert_eq!(parse_u64(&b"".to_vec()), None);
    assert_eq!(parse_u64(&b"12a".to_vec()), None);
    assert_eq!(parse_u64(&b"-1".to_vec()), None);
    assert_eq!(parse_u64(&b"18446744073709551616".to_vec()), None);
}

#[test]
fn test_dynamodb_digits_roundtrip() {
    assert_eq!(u64_to_digits(0), b"0".to_vec());
    assert_eq!(u64_to_digits(7), b"7".to_vec());
    assert_eq!(u64_to_digits(1234), b"1234".to_vec());
    assert_eq!(u64_to_digits(u64::MAX), b"18446744073709551615".to_vec());
    assert_eq!(parse_u64(&u64_to_digits(987654321)), Some(987654321));
}

#[test]
fn test_dynamodb_put_then_get() {
    let driver = driver();
    let item = driver
        .put("foo", &"bar".to_string(), Some(10), 1000)
        .unwrap();

    assert_eq!(
        driver.get(Some(&item), 1005).unwrap(),
        Some("bar".to_string())
    );
    assert!(driver.has(Some(&item), 1005).unwrap());

    assert_eq!(driver.get(Some(&item), 1010).unwrap(), None);
    assert!(!driver.has(Some(&item), 1010).unwrap());

    assert_eq!(driver.get(None, 1000).unwrap(), None);
    assert!(!driver.has(None, 1000).unwrap());
}

#[test]
fn test_dynamodb_put_item_shape() {
    let driver = DynamoDBDriver::new(Config {
        prefix: "app:".to_string(),
        ..Default::default()
    })
    .unwrap();
    let item = driver
        .put("foo", &"bar".to_string(), Some(10), 1000)
        .unwrap();

    assert_eq!(item.len(), 3);
    assert_eq!(item[0].0, "key".to_string());
    match &item[0].1 {
        Attr::S(key) => assert_eq!(key, &"app:foo".to_string()),
        _ => panic!("expected a string key attribute"),
    }
    assert_eq!(item[1].0, "value".to_string());
    match &item[1].1 {
        Attr::B(data) => {
            assert_eq!(data, &bitcode::serialize(&"bar".to_string()).unwrap());
            assert_ne!(data, &b"bar".to_vec());
        }
        _ => panic!("expected a binary value attribute"),
    }
    assert_eq!(item[2].0, "expires_at".to_string());
    match &item[2].1 {
        Attr::N(digits) => assert_eq!(digits, &b"1010".to_vec()),
        _ => panic!("expected a numeric expiration attribute"),
    }
}

#[test]
fn test_dynamodb_flush_not_supported() {
    let mut driver = driver();
    let item = driver.put("foo", &"bar".to_string(), None, 1000).unwrap();

    assert_eq!(driver.flush(), Err(Error::FlushNotSupported));

    // The store was left untouched: the item still reads back.
    assert_eq!(
        driver.get(Some(&item), 5000).unwrap(),
        Some("bar".to_string())
    );
}

#[test]
fn test_dynamodb_null_expiration_never_expires() {
    let driver = driver();
    let item = driver.put("foo", &"bar".to_string(), None, 1000).unwrap();

    match &item[2].1 {
        Attr::Null => {}
        _ => panic!("expected a null expiration attribute"),
    }
    assert_eq!(
        driver.get(Some(&item), u64::MAX).unwrap(),
        Some("bar".to_string())
    );
}

#[test]
fn test_dynamodb_invalid_data_format() {
    let driver = driver();

    // Wrong type in the value slot.
    let item = vec![
        ("key".to_string(), Attr::S("foo".to_string())),
        ("value".to_string(), Attr::S("bar".to_string())),
        ("expires_at".to_string(), Attr::Null),
    ];
    assert_eq!(driver.get(Some(&item), 1000), Err(Error::InvalidDataFormat));
    assert_eq!(driver.has(Some(&item), 1000), Err(Error::InvalidDataFormat));

    // Wrong type in the expiration slot.
    let item = vec![
        ("key".to_string(), Attr::S("foo".to_string())),
        ("value".to_string(), Attr::B(vec![1, 2, 3])),
        ("expires_at".to_string(), Attr::S("soon".to_string())),
    ];
    assert_eq!(driver.get(Some(&item), 1000), Err(Error::InvalidDataFormat));

    // A malformed number in the expiration slot.
    let item = vec![
        ("key".to_string(), Attr::S("foo".to_string())),
        ("value".to_string(), Attr::B(vec![1, 2, 3])),
        ("expires_at".to_string(), Attr::N(b"abc".to_vec())),
    ];
    assert_eq!(driver.get(Some(&item), 1000), Err(Error::InvalidDataFormat));

    // No value attribute at all.
    let item = vec![("key".to_string(), Attr::S("foo".to_string()))];
    assert_eq!(driver.get(Some(&item), 1000), Err(Error::InvalidDataFormat));
}

#[test]
fn test_dynamodb_forget_key() {
    let driver = DynamoDBDriver::new(Config {
        prefix: "app:".to_string(),
        ..Default::default()
    })
    .unwrap();
    let (name, attr) = driver.forget("foo");

    assert_eq!(name, "key".to_string());
    match attr {
        Attr::S(key) => assert_eq!(key, "app:foo".to_string()),
        _ => panic!("expected a string key attribute"),
    }
}
