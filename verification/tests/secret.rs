use cert_manager_https::secret::SecretData;

#[test]
fn entries_are_found_by_name() {
    let mut data = SecretData::new();
    assert_eq!(data.insert("a".to_string(), vec![1]), None);
    assert_eq!(data.insert("b".to_string(), vec![2, 3]), None);
    assert_eq!(data.remove("b"), Some(vec![2, 3]));
    assert_eq!(data.remove("b"), None);
    assert_eq!(data.remove("a"), Some(vec![1]));
    assert_eq!(data.remove("c"), None);
}

#[test]
fn a_name_occurs_once() {
    let mut data = SecretData::new();
    assert_eq!(data.insert("a".to_string(), vec![1]), None);
    assert_eq!(data.insert("a".to_string(), vec![2]), Some(vec![1]));
    assert_eq!(data.remove("a"), Some(vec![2]));
    assert_eq!(data.remove("a"), None);
}
