use colord::dict::Dict;
use colord::value::OptionValue;

#[test]
fn dict_new_is_empty() {
    let dict: Dict<String> = Dict::new();
    assert_eq!(dict.len(), 0);
    assert_eq!(dict.get("anything"), None);
    assert_eq!(dict.entry(0), None);
}

#[test]
fn dict_insert_then_get() {
    let mut dict: Dict<String> = Dict::new();
    dict.insert("Colorspace".to_string(), "rgb".to_string());
    dict.insert("Mode".to_string(), "virtual".to_string());
    assert_eq!(dict.len(), 2);
    assert_eq!(dict.get("Colorspace"), Some(&"rgb".to_string()));
    assert_eq!(dict.get("Mode"), Some(&"virtual".to_string()));
    assert_eq!(dict.get("mode"), None);
    assert_eq!(dict.get(""), None);
}

#[test]
fn dict_insert_replaces_the_value_of_a_key() {
    let mut dict: Dict<String> = Dict::new();
    dict.insert("a".to_string(), "1".to_string());
    dict.insert("b".to_string(), "2".to_string());
    dict.insert("a".to_string(), "3".to_string());
    assert_eq!(dict.len(), 2);
    assert_eq!(dict.get("a"), Some(&"3".to_string()));
    assert_eq!(dict.get("b"), Some(&"2".to_string()));
    assert_eq!(dict.entry(0), Some(("a", &"3".to_string())));
    assert_eq!(dict.entry(1), Some(("b", &"2".to_string())));
    assert_eq!(dict.entry(2), None);
}

#[test]
fn dict_entries_keep_the_order_of_insertion() {
    let mut dict: Dict<String> = Dict::new();
    dict.insert("z".to_string(), "26".to_string());
    dict.insert("a".to_string(), "1".to_string());
    dict.insert("m".to_string(), "13".to_string());
    assert_eq!(dict.entry(0), Some(("z", &"26".to_string())));
    assert_eq!(dict.entry(1), Some(("a", &"1".to_string())));
    assert_eq!(dict.entry(2), Some(("m", &"13".to_string())));
}

#[test]
fn dict_of_option_values() {
    let mut dict: Dict<OptionValue> = Dict::new();
    dict.insert("remote-profile-hash".to_string(), OptionValue::Str("abc".to_string()));
    dict.insert("averages".to_string(), OptionValue::U32(5));
    dict.insert("integration".to_string(), OptionValue::Double(0.5f64.to_bits()));
    dict.insert("averages".to_string(), OptionValue::I64(-1));
    assert_eq!(dict.len(), 3);
    assert_eq!(dict.get("averages"), Some(&OptionValue::I64(-1)));
    assert_eq!(dict.get("integration"), Some(&OptionValue::Double(0x3fe0_0000_0000_0000)));
    assert_eq!(dict.get("missing"), None);
}

#[test]
fn dict_keys_are_compared_by_characters() {
    let mut dict: Dict<String> = Dict::new();
    dict.insert("key".to_string(), "lower".to_string());
    dict.insert("Key".to_string(), "upper".to_string());
    dict.insert("".to_string(), "empty".to_string());
    assert_eq!(dict.len(), 3);
    assert_eq!(dict.get("key"), Some(&"lower".to_string()));
    assert_eq!(dict.get("Key"), Some(&"upper".to_string()));
    assert_eq!(dict.get(""), Some(&"empty".to_string()));
}
