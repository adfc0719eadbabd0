use dyn_cfg::{
    config_keys, parse_field_config, plan_dynamic_config, AttrPath, ConfigMacroError, FieldAttr,
    FieldSpec, ItemShape, MetaItem, MetaName, MetaValue,
};

fn key(k: &str) -> MetaItem {
    MetaItem {
        name: MetaName::Key,
        value: MetaValue::Str { tokens: format!("{:?}", k), value: k.to_string() },
    }
}

fn expr(name: MetaName, tokens: &str) -> MetaItem {
    MetaItem { name, value: MetaValue::Expr { tokens: tokens.to_string() } }
}

fn attr(path: AttrPath, items: Vec<MetaItem>) -> FieldAttr {
    FieldAttr { path, args: Some(items) }
}

fn field(name: &str, attrs: Vec<FieldAttr>) -> FieldSpec {
    FieldSpec { name: Some(name.to_string()), ty: "u32".to_string(), attrs }
}

#[test]
fn must_init_field_is_required() {
    let f = field("log_level", vec![attr(
        AttrPath::MustInit,
        vec![key("log.level"), expr(MetaName::Parse, "(|x: &str| x.parse::<u32>())")],
    )]);
    let c = parse_field_config(&f).unwrap().unwrap();
    assert_eq!(c.field_name, "log_level");
    assert_eq!(c.field_type, "u32");
    assert_eq!(c.key, "log.level");
    assert_eq!(c.parse_fn.tokens, "(|x: &str| x.parse::<u32>())");
    assert!(!c.parse_fn.with_cli);
    assert!(c.is_required);
    assert!(c.default_value.is_none());
}

#[test]
fn default_field_is_optional_with_default() {
    let f = field("mp", vec![attr(
        AttrPath::Default,
        vec![key("mp"), expr(MetaName::Default, "HashMap::new()"), expr(MetaName::Parse, "serde_json::from_str")],
    )]);
    let c = parse_field_config(&f).unwrap().unwrap();
    assert_eq!(c.key, "mp");
    assert_eq!(c.default_value.as_deref(), Some("HashMap::new()"));
    assert!(!c.is_required);
}

#[test]
fn unknown_entry_with_value_leaves_field_out() {
    let f = field("a", vec![attr(
        AttrPath::Default,
        vec![key("a"), expr(MetaName::Default, "x"), expr(MetaName::Parse, "p"), expr(MetaName::Other, "1")],
    )]);
    assert!(matches!(parse_field_config(&f), Ok(None)));
}

#[test]
fn unknown_entry_without_value_is_ignored() {
    let f = field("a", vec![attr(
        AttrPath::MustInit,
        vec![key("a"), MetaItem { name: MetaName::Other, value: MetaValue::Absent }, expr(MetaName::Parse, "p")],
    )]);
    assert!(matches!(parse_field_config(&f), Ok(Some(_))));
}

#[test]
fn parse_with_cli_field_is_kept() {
    let f = field("cli_test", vec![attr(
        AttrPath::Default,
        vec![
            key("cli_test"),
            expr(MetaName::Default, "\"default\".to_string()"),
            expr(MetaName::ParseWithCli, "parse_with_cli_fn"),
        ],
    )]);
    let c = parse_field_config(&f).unwrap().unwrap();
    assert_eq!(c.key, "cli_test");
    assert_eq!(c.parse_fn.tokens, "parse_with_cli_fn");
    assert!(c.parse_fn.with_cli);
    assert!(!c.is_required);
    assert_eq!(c.default_value.as_deref(), Some("\"default\".to_string()"));
}

#[test]
fn later_parser_entry_wins() {
    let f = field("a", vec![attr(
        AttrPath::MustInit,
        vec![key("a"), expr(MetaName::ParseWithCli, "q"), expr(MetaName::Parse, "p")],
    )]);
    let c = parse_field_config(&f).unwrap().unwrap();
    assert_eq!(c.parse_fn.tokens, "p");
    assert!(!c.parse_fn.with_cli);
}

#[test]
fn example_config_keeps_every_field() {
    let fields = vec![
        field("log_level", vec![attr(
            AttrPath::MustInit,
            vec![key("log.level"), expr(MetaName::Parse, "(|x: &str| x.parse::<u32>())")],
        )]),
        field("mp", vec![attr(
            AttrPath::Default,
            vec![key("mp"), expr(MetaName::Default, "HashMap::new()"), expr(MetaName::Parse, "serde_json::from_str")],
        )]),
        field("mapping_with_default", vec![attr(
            AttrPath::Default,
            vec![
                key("mapping.with_default"),
                expr(MetaName::Default, "MappingConfigWithDefault::default(false)"),
                expr(MetaName::Parse, "serde_json::from_str"),
            ],
        )]),
        field("cli_test", vec![attr(
            AttrPath::Default,
            vec![
                key("cli_test"),
                expr(MetaName::Default, "\"default\".to_string()"),
                expr(MetaName::ParseWithCli, "parse_with_cli_fn"),
            ],
        )]),
    ];
    let plan = plan_dynamic_config(&ItemShape::NamedStruct(fields)).unwrap();
    let names: Vec<&str> = plan.iter().map(|c| c.field_name.as_str()).collect();
    assert_eq!(names, vec!["log_level", "mp", "mapping_with_default", "cli_test"]);
    assert_eq!(config_keys(&plan), vec!["log.level", "mp", "mapping.with_default", "cli_test"]);
}

#[test]
fn missing_parser_leaves_field_out() {
    let f = field("a", vec![attr(AttrPath::MustInit, vec![key("a")])]);
    assert!(matches!(parse_field_config(&f), Ok(None)));
}

#[test]
fn key_must_be_a_string_literal() {
    let f = field("a", vec![attr(AttrPath::MustInit, vec![expr(MetaName::Key, "k"), expr(MetaName::Parse, "p")])]);
    assert!(matches!(parse_field_config(&f), Ok(None)));
}

#[test]
fn default_entry_not_taken_by_must_init() {
    let f = field("a", vec![attr(
        AttrPath::MustInit,
        vec![key("a"), expr(MetaName::Parse, "p"), expr(MetaName::Default, "1")],
    )]);
    assert!(matches!(parse_field_config(&f), Ok(None)));
}

#[test]
fn rejections() {
    let f = field("a", vec![attr(AttrPath::Default, vec![expr(MetaName::Parse, "p")])]);
    assert!(matches!(parse_field_config(&f), Err(ConfigMacroError::MissingKey { field }) if field == "a"));
    let f = field("a", vec![attr(AttrPath::Other("serde".to_string()), vec![])]);
    assert!(matches!(parse_field_config(&f),
        Err(ConfigMacroError::UnknownAttr { field, path }) if field == "a" && path == "serde"));
    let f = field("a", vec![]);
    assert!(matches!(parse_field_config(&f), Err(ConfigMacroError::NoAttr { field }) if field == "a"));
    let f = FieldSpec { name: None, ty: "u8".to_string(), attrs: vec![] };
    assert!(matches!(parse_field_config(&f), Ok(None)));
}

#[test]
fn plan_collects_fields_in_order() {
    let fields = vec![
        field("a", vec![attr(AttrPath::MustInit, vec![key("a"), expr(MetaName::Parse, "p")])]),
        field("b", vec![attr(AttrPath::MustInit, vec![key("b")])]),
        field("c", vec![attr(AttrPath::Default, vec![key("c"), expr(MetaName::Parse, "p"), expr(MetaName::Default, "0")])]),
    ];
    let plan = plan_dynamic_config(&ItemShape::NamedStruct(fields)).unwrap();
    let names: Vec<&str> = plan.iter().map(|c| c.field_name.as_str()).collect();
    assert_eq!(names, vec!["a", "c"]);
}

#[test]
fn plan_rejections() {
    assert!(matches!(plan_dynamic_config(&ItemShape::NotStruct), Err(ConfigMacroError::NotStruct)));
    assert!(matches!(plan_dynamic_config(&ItemShape::UnnamedStruct), Err(ConfigMacroError::UnnamedFields)));
    let fields = vec![field("b", vec![attr(AttrPath::MustInit, vec![key("b")])])];
    assert!(matches!(plan_dynamic_config(&ItemShape::NamedStruct(fields)), Err(ConfigMacroError::NoValidField)));
    let fields = vec![field("d", vec![attr(AttrPath::Default, vec![key("d"), expr(MetaName::Parse, "p")])])];
    assert!(matches!(plan_dynamic_config(&ItemShape::NamedStruct(fields)),
        Err(ConfigMacroError::MissingDefault { field }) if field == "d"));
}

#[test]
fn bare_attribute_leaves_field_out() {
    let f = field("a", vec![FieldAttr { path: AttrPath::MustInit, args: None }]);
    assert!(matches!(parse_field_config(&f), Ok(None)));
}
