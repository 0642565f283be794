use cache::drivers::null::NullDriver;
use cache::Cache;

#[test]
fn test_null_driver() {
    let mut cache = Cache::<NullDriver>::new(()).unwrap();
    let now: u64 = 1000;

    assert_eq!(cache.get("foo", now).unwrap(), None);
    assert!(!cache.has("foo", now).unwrap());

    cache.put("foo", &"bar".to_string(), 1, now).unwrap();

    assert_eq!(cache.get("foo", now).unwrap(), None);
    assert!(!cache.has("foo", now).unwrap());

    cache.forget("foo").unwrap();

    assert_eq!(cache.get("foo", now).unwrap(), None);
    assert!(!cache.has("foo", now).unwrap());
}

#[test]
fn test_null_driver_composed_operations() {
    let mut cache = Cache::<NullDriver>::new(()).unwrap();
    let now: u64 = 1000;

    // The write "succeeds" but nothing is stored.
    assert!(cache.add("foo", "bar".to_string(), 10, now).unwrap());
    assert_eq!(cache.get("foo", now).unwrap(), None);

    // remember always misses, stores nothing, and returns the given value.
    let value = cache.remember("foo", 10, "bar".to_string(), now).unwrap();
    assert_eq!(value, "bar".to_string());
    assert_eq!(cache.get("foo", now).unwrap(), None);

    assert_eq!(cache.pull("foo", now).unwrap(), None);
    cache.flush().unwrap();
}
