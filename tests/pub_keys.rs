use identity_store::pub_keys::PubKeys;

#[test]
fn key_is_length_prefixed() {
    assert_eq!(PubKeys::key("random_hash", "02ab"), "11:random_hash02ab");
    assert_eq!(PubKeys::key("", "pk"), "0:pk");
    assert_eq!(PubKeys::key("0123456789", ""), "10:0123456789");
}

#[test]
fn key_separates_shifted_pairs() {
    assert_ne!(PubKeys::key("ab", "c"), PubKeys::key("a", "bc"));
    assert_ne!(PubKeys::key("1:a", "b"), PubKeys::key("1", ":ab"));
    assert_ne!(PubKeys::key("", "x"), PubKeys::key("x", ""));
}

#[test]
fn index_round_trip() {
    let mut keys = PubKeys::new();
    assert_eq!(keys.num_keys(), 0);
    assert!(keys.get_user_uuid("k1").is_none());
    keys.insert("k1".to_string(), "u1".to_string());
    keys.insert("k2".to_string(), "u2".to_string());
    assert_eq!(keys.get_user_uuid("k1"), Some(&"u1".to_string()));
    assert_eq!(keys.get_user_uuid("k2"), Some(&"u2".to_string()));
    assert!(keys.get_user_uuid("k3").is_none());
    assert_eq!(keys.num_keys(), 2);
}

#[test]
fn index_insert_overwrites() {
    let mut keys = PubKeys::new();
    keys.insert("k".to_string(), "old".to_string());
    keys.insert("k".to_string(), "new".to_string());
    assert_eq!(keys.num_keys(), 1);
    assert_eq!(keys.get_user_uuid("k"), Some(&"new".to_string()));
    assert_eq!(keys.entries().len(), 1);
}
