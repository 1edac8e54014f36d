use mee_node::store::{Key, KvStore, Namespace, Value};
use mee_node::store_mem::MemKvStore;

#[test]
fn set_then_get_round_trip() {
    let mut store = MemKvStore::new();
    let ns = Namespace("inbox".to_string());
    let key = Key("items".to_string());
    let value = Value("hello".to_string());
    store.set(&ns, &key, &value).unwrap();
    assert_eq!(store.get(&ns, &key).unwrap(), Some(Value("hello".to_string())));
}

#[test]
fn get_of_never_written_key_is_none() {
    let store = MemKvStore::new();
    let ns = Namespace("inbox".to_string());
    let key = Key("missing".to_string());
    assert_eq!(store.get(&ns, &key).unwrap(), None);
}

#[test]
fn last_writer_wins() {
    let mut store = MemKvStore::new();
    let ns = Namespace("n".to_string());
    let key = Key("k".to_string());
    store.set(&ns, &key, &Value("first".to_string())).unwrap();
    store.set(&ns, &key, &Value("second".to_string())).unwrap();
    assert_eq!(store.get(&ns, &key).unwrap(), Some(Value("second".to_string())));
}

#[test]
fn namespaces_are_isolated() {
    let mut store = MemKvStore::new();
    let key = Key("k".to_string());
    store.set(&Namespace("a".to_string()), &key, &Value("va".to_string())).unwrap();
    assert_eq!(store.get(&Namespace("b".to_string()), &key).unwrap(), None);
    store.set(&Namespace("b".to_string()), &key, &Value("vb".to_string())).unwrap();
    assert_eq!(
        store.get(&Namespace("a".to_string()), &key).unwrap(),
        Some(Value("va".to_string()))
    );
    assert_eq!(
        store.get(&Namespace("b".to_string()), &key).unwrap(),
        Some(Value("vb".to_string()))
    );
}

#[test]
fn keys_are_scoped_within_a_namespace() {
    let mut store = MemKvStore::new();
    let ns = Namespace("n".to_string());
    store.set(&ns, &Key("k1".to_string()), &Value("v1".to_string())).unwrap();
    assert_eq!(store.get(&ns, &Key("k2".to_string())).unwrap(), None);
}

#[test]
fn default_store_is_empty() {
    let store = MemKvStore::default();
    assert_eq!(
        store.get(&Namespace("n".to_string()), &Key("k".to_string())).unwrap(),
        None
    );
}
