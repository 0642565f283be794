use cache::drivers::database::{CacheEntry, DatabaseDriver, Error};

fn driver() -> DatabaseDriver {
    DatabaseDriver::new(()).unwrap()
}

#[test]
fn test_database_make_entry() {
    let entry = driver()
        .make_entry("foo", &"bar".to_string(), Some(10), 1000)
        .unwrap();

    assert_eq!(entry.key, "foo".to_string());
    assert_eq!(entry.value, serde_json::to_string(&"bar".to_string()).unwrap());
    assert_eq!(entry.value, "\"bar\"".to_string());
    assert_eq!(entry.expiration, Some(1010));
}

#[test]
fn test_database_make_entry_forever() {
    let entry = driver()
        .make_entry("foo", &"bar".to_string(), None, 1000)
        .unwrap();

    assert_eq!(entry.expiration, None);
}

#[test]
fn test_database_value_is_encoded_not_raw() {
    let entry = driver()
        .make_entry("foo", &"bar".to_string(), None, 1000)
        .unwrap();

    assert_ne!(entry.value, "bar".to_string());
}

#[test]
fn test_database_get_roundtrip() {
    let driver = driver();
    let entry = driver
        .make_entry("foo", &"bar".to_string(), Some(10), 1000)
        .unwrap();

    assert_eq!(
        driver.get(Some(&entry), 1009).unwrap(),
        Some("bar".to_string())
    );
    assert_eq!(driver.get(Some(&entry), 1010).unwrap(), None);
    assert_eq!(driver.get(None, 1000).unwrap(), None);
}

#[test]
fn test_database_get_malformed_value() {
    let driver = driver();
    let entry = CacheEntry {
        key: "foo".to_string(),
        value: "bar".to_string(),
        expiration: None,
    };

    assert_eq!(driver.get(Some(&entry), 1000), Err(Error::Serialize));
}

#[test]
fn test_database_entry_is_live() {
    let driver = driver();
    let entry = CacheEntry {
        key: "foo".to_string(),
        value: "\"bar\"".to_string(),
        expiration: Some(1010),
    };

    assert!(driver.entry_is_live(&entry, 1009));
    assert!(!driver.entry_is_live(&entry, 1010));
    assert!(!driver.entry_is_live(&entry, 2000));

    let forever = CacheEntry {
        key: "foo".to_string(),
        value: "\"bar\"".to_string(),
        expiration: None,
    };
    assert!(driver.entry_is_live(&forever, u64::MAX));
}

#[test]
fn test_database_has() {
    let driver = driver();
    assert!(!driver.has(0));
    assert!(driver.has(1));
    assert!(driver.has(7));
}
