use std::collections::HashMap;

use dyn_cfg::MappingConfigWithDefault;

fn mapping_from_json(json: &str) -> MappingConfigWithDefault<u32, bool> {
    let value: serde_json::Value = serde_json::from_str(json).expect("valid json");
    let mut mapping = HashMap::new();
    for (k, v) in value["mapping"].as_object().expect("mapping object") {
        mapping.insert(k.parse::<u32>().expect("numeric key"), v.as_bool().expect("bool value"));
    }
    let default_value = value["default"].as_bool().expect("bool default");
    MappingConfigWithDefault::new(mapping, default_value)
}

#[test]
fn test_mapping_config_with_default() {
    let json = r#"{"mapping":{"1": true, "2": false}, "default": true}"#;
    let v = mapping_from_json(json);
    assert_eq!(*v.get(&1), true);
    assert_eq!(*v.get(&2), false);
    let (mapping, default_value) = v.into_parts();
    assert_eq!(default_value, true);
    assert_eq!(mapping.get(&1), Some(&true));
    assert_eq!(mapping.get(&2), Some(&false));
}

#[test]
fn get_falls_back_to_default_for_missing_key() {
    let mut m = HashMap::new();
    m.insert(1u32, false);
    let c = MappingConfigWithDefault::new(m, true);
    assert_eq!(*c.get(&1), false);
    assert_eq!(*c.get(&7), true);
}

#[test]
fn default_config_answers_default_for_every_key() {
    let c: MappingConfigWithDefault<u32, String> = MappingConfigWithDefault::default("d".to_string());
    assert_eq!(c.get(&0), "d");
    assert_eq!(c.get(&u32::MAX), "d");
    let (m, d) = c.into_parts();
    assert!(m.is_empty());
    assert_eq!(d, "d");
}

#[test]
fn get_by_borrowed_key() {
    let mut m = HashMap::new();
    m.insert("a".to_string(), 1u8);
    let c = MappingConfigWithDefault::new(m, 9u8);
    assert_eq!(*c.get("a"), 1);
    assert_eq!(*c.get("b"), 9);
}
