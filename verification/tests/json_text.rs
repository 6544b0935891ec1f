use indexnow_api::json::{array_of, encode_strings, join, object_of, Member};

fn texts(items: &[&str]) -> Vec<String> {
    items.iter().map(|item| item.to_string()).collect()
}

#[test]
fn join_puts_the_separator_between_neighbours() {
    assert_eq!(join(&texts(&[]), ","), "");
    assert_eq!(join(&texts(&["a"]), ","), "a");
    assert_eq!(join(&texts(&["a", "b"]), ","), "a,b");
    assert_eq!(join(&texts(&["a", "b", "c"]), ", "), "a, b, c");
    assert_eq!(join(&texts(&["", ""]), "-"), "-");
    assert_eq!(join(&texts(&["a", "b"]), ""), "ab");
}

#[test]
fn array_of_frames_the_elements() {
    assert_eq!(array_of(&texts(&[])), "[]");
    assert_eq!(array_of(&texts(&["1"])), "[1]");
    assert_eq!(array_of(&texts(&["1", "\"two\"", "null"])), "[1,\"two\",null]");
}

#[test]
fn object_of_frames_the_members() {
    assert_eq!(object_of(&Vec::new()), "{}");
    let one = vec![Member { name: "a".to_string(), text: "1".to_string() }];
    assert_eq!(object_of(&one), "{\"a\":1}");
    let two = vec![
        Member { name: "b".to_string(), text: "[]".to_string() },
        Member { name: "a".to_string(), text: "\"x\"".to_string() },
    ];
    assert_eq!(object_of(&two), "{\"b\":[],\"a\":\"x\"}");
}

#[test]
fn object_of_encodes_member_names() {
    let members = vec![Member { name: "a\"b".to_string(), text: "true".to_string() }];
    let text = object_of(&members);
    assert_eq!(text, "{\"a\\\"b\":true}");
    let value: serde_json::Value = serde_json::from_str(&text).unwrap();
    assert_eq!(value["a\"b"].as_bool(), Some(true));
}

#[test]
fn encode_strings_quotes_and_escapes_each_string() {
    assert_eq!(encode_strings(&texts(&[])), texts(&[]));
    assert_eq!(
        encode_strings(&texts(&["plain", "", "say \"hi\"", "back\\slash", "new\nline", "caf\u{e9}"])),
        texts(&["\"plain\"", "\"\"", "\"say \\\"hi\\\"\"", "\"back\\\\slash\"", "\"new\\nline\"", "\"caf\u{e9}\""])
    );
}

#[test]
fn encoded_strings_frame_into_an_array() {
    let encoded = encode_strings(&texts(&["a", "b"]));
    assert_eq!(array_of(&encoded), "[\"a\",\"b\"]");
}
