use containerization_framework::Labels;

#[test]
fn keeps_labels_in_key_order_each_once() {
    let mut labels = Labels::new();
    labels.insert("org.b".to_string(), "2".to_string());
    labels.insert("org.a".to_string(), "1".to_string());
    labels.insert("org.c".to_string(), "3".to_string());
    labels.insert("org.b".to_string(), "two".to_string());
    labels.insert("org".to_string(), "0".to_string());

    assert_eq!(labels.len(), 4);
    let keys: Vec<&str> = labels.entries().iter().map(|(key, _)| key.as_str()).collect();
    assert_eq!(keys, ["org", "org.a", "org.b", "org.c"]);
    assert_eq!(labels.get("org.b").map(String::as_str), Some("two"));
    assert_eq!(labels.get("org.d"), None);
}

#[test]
fn a_clone_holds_the_same_labels() {
    let mut labels = Labels::new();
    labels.insert("k".to_string(), "v".to_string());
    let copy = labels.clone();
    assert_eq!(copy, labels);
    assert_eq!(copy.get("k").map(String::as_str), Some("v"));
}
