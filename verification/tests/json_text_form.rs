use quantpilot::json::JsonValue;
use quantpilot::json_text::json_to_text;

fn to_serde(v: &JsonValue) -> serde_json::Value {
    match v {
        JsonValue::Null => serde_json::Value::Null,
        JsonValue::Bool(b) => serde_json::Value::Bool(*b),
        JsonValue::Number(n) => serde_json::from_str(n).unwrap(),
        JsonValue::Str(s) => serde_json::Value::String(s.clone()),
        JsonValue::Array(items) => serde_json::Value::Array(items.iter().map(to_serde).collect()),
        JsonValue::Object(entries) => {
            let mut m = serde_json::Map::new();
            for (k, v) in entries {
                m.insert(k.clone(), to_serde(v));
            }
            serde_json::Value::Object(m)
        }
    }
}

#[test]
fn json_text_matches_serde_json_compact_form() {
    let value = JsonValue::Object(vec![
        ("a".to_string(), JsonValue::Array(vec![JsonValue::Null, JsonValue::Bool(true), JsonValue::Number("-1.5".to_string())])),
        ("b\"q".to_string(), JsonValue::Str("line\nnext\t\u{1}\u{7f}é\\".to_string())),
        ("c".to_string(), JsonValue::Object(vec![])),
        ("d".to_string(), JsonValue::Array(vec![])),
    ]);
    let ours = json_to_text(&value);
    assert_eq!(ours, serde_json::to_string(&to_serde(&value)).unwrap());
    assert_eq!(ours, "{\"a\":[null,true,-1.5],\"b\\\"q\":\"line\\nnext\\t\\u0001\u{7f}é\\\\\",\"c\":{},\"d\":[]}");
}

#[test]
fn json_text_of_scalars() {
    assert_eq!(json_to_text(&JsonValue::Null), "null");
    assert_eq!(json_to_text(&JsonValue::Bool(false)), "false");
    assert_eq!(json_to_text(&JsonValue::Str("\u{8}\u{c}\r\u{1f}".to_string())), "\"\\b\\f\\r\\u001f\"");
}
