use vstd::prelude::*;

verus! {

/// The name of one entry inside a field attribute, such as `key` in `key = "log.level"`.
#[derive(Debug, Clone, Copy, PartialEq, Eq, Structural)]
pub enum MetaName {
    Key,
    Parse,
    ParseWithCli,
    Default,
    Other,
}

/// What follows the name of an entry.
#[derive(Debug, Clone)]
pub enum MetaValue {
    /// No `= value` follows the name.
    Absent,
    /// `= "..."`: a string literal, with its tokens and the text it stands for.
    Str { tokens: String, value: String },
    /// `= expr` for any other expression, as tokens.
    Expr { tokens: String },
    /// Something that is neither of the above, such as a nested list.
    Malformed,
}

/// One entry of a field attribute.
#[derive(Debug, Clone)]
pub struct MetaItem {
    pub name: MetaName,
    pub value: MetaValue,
}

/// The path of a field attribute.
#[derive(Debug, Clone)]
pub enum AttrPath {
    MustInit,
    Default,
    Other(String),
}

/// A field attribute: its path, and its entries where its arguments form a list.
#[derive(Debug, Clone)]
pub struct FieldAttr {
    pub path: AttrPath,
    pub args: Option<Vec<MetaItem>>,
}

/// A field of the configuration struct: its name (none for a tuple field), its type
/// as tokens, and its attributes in order.
#[derive(Debug, Clone)]
pub struct FieldSpec {
    pub name: Option<String>,
    pub ty: String,
    pub attrs: Vec<FieldAttr>,
}

/// The item that the attribute macro is applied to.
#[derive(Debug, Clone)]
pub enum ItemShape {
    NamedStruct(Vec<FieldSpec>),
    UnnamedStruct,
    NotStruct,
}

/// The parser of a field: its tokens, and whether it is a `parse_with_cli` parser, which is
/// awaited with the configuration center and the raw text, or a plain `parse` one, which
/// is called with the raw text alone.
#[derive(Debug, Clone)]
pub struct FieldParser {
    pub tokens: String,
    pub with_cli: bool,
}

/// How one field is read from the configuration center.
#[derive(Debug, Clone)]
pub struct FieldConfig {
    pub field_name: String,
    pub field_type: String,
    pub key: String,
    pub parse_fn: FieldParser,
    pub default_value: Option<String>,
    pub is_required: bool,
}

/// Why the attribute macro rejects the item.
#[derive(Debug, Clone)]
pub enum ConfigMacroError {
    NotStruct,
    UnnamedFields,
    UnknownAttr { field: String, path: String },
    MissingKey { field: String },
    NoAttr { field: String },
    NoValidField,
    MissingDefault { field: String },
}

/// What the attributes of one field have set so far.
#[derive(Debug, Clone)]
pub struct FieldState {
    pub key: Option<String>,
    pub parse_fn: Option<FieldParser>,
    pub default_value: Option<String>,
    pub is_required: bool,
}

pub open spec fn initial_state() -> FieldState {
    FieldState { key: None, parse_fn: None, default_value: None, is_required: false }
}

/// The tokens of an entry's value, where it has one that is an expression.
pub open spec fn value_tokens(v: MetaValue) -> Option<String> {
    match v {
        MetaValue::Str { tokens, .. } => Some(tokens),
        MetaValue::Expr { tokens } => Some(tokens),
        _ => None,
    }
}

/// One entry applied to the state; `None` where the entry does not parse.
/// `key` takes a string literal; `parse` and `parse_with_cli` take an expression and set
/// the field's parser (the later entry wins), `parse_with_cli` marking it as one that is
/// awaited with the configuration center; `default` takes an expression where
/// `allow_default` tells that the attribute takes one; any other entry parses only
/// without a value, and is then ignored.
pub open spec fn apply_item(s: FieldState, item: MetaItem, allow_default: bool) -> Option<
    FieldState,
> {
    match item.name {
        MetaName::Key => match item.value {
            MetaValue::Str { value, .. } => Some(
                FieldState {
                    key: Some(value),
                    parse_fn: s.parse_fn,
                    default_value: s.default_value,
                    is_required: s.is_required,
                },
            ),
            _ => None,
        },
        MetaName::Parse => match value_tokens(item.value) {
            Some(t) => Some(
                FieldState {
                    key: s.key,
                    parse_fn: Some(FieldParser { tokens: t, with_cli: false }),
                    default_value: s.default_value,
                    is_required: s.is_required,
                },
            ),
            None => None,
        },
        MetaName::ParseWithCli => match value_tokens(item.value) {
            Some(t) => Some(
                FieldState {
                    key: s.key,
                    parse_fn: Some(FieldParser { tokens: t, with_cli: true }),
                    default_value: s.default_value,
                    is_required: s.is_required,
                },
            ),
            None => None,
        },
        MetaName::Default => if allow_default {
            match value_tokens(item.value) {
                Some(t) => Some(
                    FieldState {
                        key: s.key,
                        parse_fn: s.parse_fn,
                        default_value: Some(t),
                        is_required: s.is_required,
                    },
                ),
                None => None,
            }
        } else if item.value is Absent {
            Some(s)
        } else {
            None
        },
        MetaName::Other => if item.value is Absent {
            Some(s)
        } else {
            None
        },
    }
}

/// The entries of one attribute applied in order; `None` as soon as one does not parse.
pub open spec fn apply_items(s: FieldState, items: Seq<MetaItem>, allow_default: bool) -> Option<
    FieldState,
>
    decreases items.len(),
{
    if items.len() == 0 {
        Some(s)
    } else {
        match apply_item(s, items[0], allow_default) {
            Some(t) => apply_items(t, items.drop_first(), allow_default),
            None => None,
        }
    }
}

pub open spec fn with_required(s: FieldState, is_required: bool) -> FieldState {
    FieldState {
        key: s.key,
        parse_fn: s.parse_fn,
        default_value: s.default_value,
        is_required,
    }
}

/// One attribute of the field `field` applied to the state: `Ok(Some(..))` to go on,
/// `Ok(None)` where the field is to be left out, `Err(..)` where the item is rejected.
pub open spec fn apply_attr(s: FieldState, attr: FieldAttr, field: String) -> Result<
    Option<FieldState>,
    ConfigMacroError,
> {
    match attr.path {
        AttrPath::MustInit => match attr.args {
            None => Ok(None),
            Some(items) => Ok(apply_items(with_required(s, true), items@, false)),
        },
        AttrPath::Default => match attr.args {
            None => Ok(None),
            Some(items) => match apply_items(with_required(s, false), items@, true) {
                None => Ok(None),
                Some(t) => if t.key is None {
                    Err(ConfigMacroError::MissingKey { field })
                } else {
                    Ok(Some(t))
                },
            },
        },
        AttrPath::Other(p) => Err(ConfigMacroError::UnknownAttr { field, path: p }),
    }
}

/// The attributes of the field `field` applied in order, stopping at the first that
/// leaves the field out or rejects the item.
pub open spec fn apply_attrs(s: FieldState, attrs: Seq<FieldAttr>, field: String) -> Result<
    Option<FieldState>,
    ConfigMacroError,
>
    decreases attrs.len(),
{
    if attrs.len() == 0 {
        Ok(Some(s))
    } else {
        match apply_attr(s, attrs[0], field) {
            Ok(Some(t)) => apply_attrs(t, attrs.drop_first(), field),
            other => other,
        }
    }
}

/// How a field is read, `None` where it is left out, or why the item is rejected.
pub open spec fn field_config_of(f: FieldSpec) -> Result<Option<FieldConfig>, ConfigMacroError> {
    match f.name {
        None => Ok(None),
        Some(n) => match apply_attrs(initial_state(), f.attrs@, n) {
            Err(e) => Err(e),
            Ok(None) => Ok(None),
            Ok(Some(t)) => if f.attrs@.len() == 0 {
                Err(ConfigMacroError::NoAttr { field: n })
            } else {
                match (t.key, t.parse_fn) {
                    (Some(k), Some(p)) => Ok(
                        Some(
                            FieldConfig {
                                field_name: n,
                                field_type: f.ty,
                                key: k,
                                parse_fn: p,
                                default_value: t.default_value,
                                is_required: t.is_required,
                            },
                        ),
                    ),
                    _ => Ok(None),
                }
            },
        },
    }
}

/// The configurations of the fields in order, leaving out the fields left out, or the
/// rejection of the first field that is rejected.
pub open spec fn configs_of(fields: Seq<FieldSpec>) -> Result<Seq<FieldConfig>, ConfigMacroError>
    decreases fields.len(),
{
    if fields.len() == 0 {
        Ok(Seq::empty())
    } else {
        match field_config_of(fields[0]) {
            Err(e) => Err(e),
            Ok(o) => match configs_of(fields.drop_first()) {
                Err(e) => Err(e),
                Ok(cs) => Ok(
                    match o {
                        Some(c) => seq![c] + cs,
                        None => cs,
                    },
                ),
            },
        }
    }
}

/// The first configuration that is neither required nor has a default value.
pub open spec fn missing_default(cs: Seq<FieldConfig>) -> Option<ConfigMacroError>
    decreases cs.len(),
{
    if cs.len() == 0 {
        None
    } else if !cs[0].is_required && cs[0].default_value is None {
        Some(ConfigMacroError::MissingDefault { field: cs[0].field_name })
    } else {
        missing_default(cs.drop_first())
    }
}

/// What the attribute macro makes of the item: the configuration of every field it
/// reads, in the order of the fields, or why it rejects the item.
pub open spec fn plan_of(shape: ItemShape) -> Result<Seq<FieldConfig>, ConfigMacroError> {
    match shape {
        ItemShape::NotStruct => Err(ConfigMacroError::NotStruct),
        ItemShape::UnnamedStruct => Err(ConfigMacroError::UnnamedFields),
        ItemShape::NamedStruct(fields) => match configs_of(fields@) {
            Err(e) => Err(e),
            Ok(cs) => if cs.len() == 0 {
                Err(ConfigMacroError::NoValidField)
            } else {
                match missing_default(cs) {
                    Some(e) => Err(e),
                    None => Ok(cs),
                }
            },
        },
    }
}

fn clone_tokens(v: &MetaValue) -> (r: Option<String>)
    ensures
        r == value_tokens(*v),
{
    match v {
        MetaValue::Str { tokens, .. } => Some(tokens.clone()),
        MetaValue::Expr { tokens } => Some(tokens.clone()),
        _ => None,
    }
}

fn step_item(s: FieldState, item: &MetaItem, allow_default: bool) -> (r: Option<FieldState>)
    ensures
        r == apply_item(s, *item, allow_default),
{
    let mut s = s;
    match item.name {
        MetaName::Key => match &item.value {
            MetaValue::Str { value, .. } => {
                s.key = Some(value.clone());
                Some(s)
            },
            _ => None,
        },
        MetaName::Parse => match clone_tokens(&item.value) {
            Some(t) => {
                s.parse_fn = Some(FieldParser { tokens: t, with_cli: false });
                Some(s)
            },
            None => None,
        },
        MetaName::ParseWithCli => match clone_tokens(&item.value) {
            Some(t) => {
                s.parse_fn = Some(FieldParser { tokens: t, with_cli: true });
                Some(s)
            },
            None => None,
        },
        MetaName::Default => if allow_default {
            match clone_tokens(&item.value) {
                Some(t) => {
                    s.default_value = Some(t);
                    Some(s)
                },
                None => None,
            }
        } else if matches!(item.value, MetaValue::Absent) {
            Some(s)
        } else {
            None
        },
        MetaName::Other => if matches!(item.value, MetaValue::Absent) {
            Some(s)
        } else {
            None
        },
    }
}

fn step_items(s: FieldState, items: &Vec<MetaItem>, allow_default: bool) -> (r: Option<FieldState>)
    ensures
        r == apply_items(s, items@, allow_default),
{
    let mut cur = s;
    let mut i: usize = 0;
    assert(items@.skip(0) =~= items@);
    while i < items.len()
        invariant
            i <= items.len(),
            apply_items(s, items@, allow_default) == apply_items(cur, items@.skip(i as int), allow_default),
        decreases items.len() - i,
    {
        assert(items@.skip(i as int).drop_first() =~= items@.skip(i + 1));
        match step_item(cur, &items[i], allow_default) {
            Some(t) => cur = t,
            None => return None,
        }
        i = i + 1;
    }
    Some(cur)
}

fn step_attr(s: FieldState, attr: &FieldAttr, field: &String) -> (r: Result<Option<FieldState>, ConfigMacroError>)
    ensures
        r == apply_attr(s, *attr, *field),
{
    let mut s = s;
    match &attr.path {
        AttrPath::MustInit => match &attr.args {
            None => Ok(None),
            Some(items) => {
                s.is_required = true;
                Ok(step_items(s, items, false))
            },
        },
        AttrPath::Default => match &attr.args {
            None => Ok(None),
            Some(items) => {
                s.is_required = false;
                match step_items(s, items, true) {
                    None => Ok(None),
                    Some(t) => if t.key.is_none() {
                        Err(ConfigMacroError::MissingKey { field: field.clone() })
                    } else {
                        Ok(Some(t))
                    },
                }
            },
        },
        AttrPath::Other(p) => Err(ConfigMacroError::UnknownAttr { field: field.clone(), path: p.clone() }),
    }
}

/// Reads the attributes of one field: how it is read from the configuration center,
/// `None` where it is left out (no name, an entry that does not parse, or no key or
/// parser), or why the item is rejected (an unknown attribute, a `default` attribute
/// without a key, or no attribute at all).
pub fn parse_field_config(field: &FieldSpec) -> (r: Result<Option<FieldConfig>, ConfigMacroError>)
    ensures
        r == field_config_of(*field),
{
    let name = match &field.name {
        None => return Ok(None),
        Some(n) => n,
    };
    let mut cur = FieldState { key: None, parse_fn: None, default_value: None, is_required: false };
    let mut i: usize = 0;
    assert(field.attrs@.skip(0) =~= field.attrs@);
    while i < field.attrs.len()
        invariant
            i <= field.attrs.len(),
            field.name == Some(*name),
            apply_attrs(initial_state(), field.attrs@, *name) == apply_attrs(cur, field.attrs@.skip(i as int), *name),
        decreases field.attrs.len() - i,
    {
        assert(field.attrs@.skip(i as int).drop_first() =~= field.attrs@.skip(i + 1));
        let ghost rest = field.attrs@.skip(i as int);
        assert(rest[0] == field.attrs@[i as int]);
        match step_attr(cur, &field.attrs[i], name) {
            Ok(Some(t)) => cur = t,
            Ok(None) => {
                assert(apply_attrs(cur, rest, *name) == Ok::<Option<FieldState>, ConfigMacroError>(None));
                return Ok(None);
            },
            Err(e) => {
                assert(apply_attrs(cur, rest, *name) == Err::<Option<FieldState>, ConfigMacroError>(e));
                return Err(e);
            },
        }
        i = i + 1;
    }
    if field.attrs.len() == 0 {
        return Err(ConfigMacroError::NoAttr { field: name.clone() });
    }
    match (cur.key, cur.parse_fn) {
        (Some(k), Some(p)) => Ok(
            Some(
                FieldConfig {
                    field_name: name.clone(),
                    field_type: field.ty.clone(),
                    key: k,
                    parse_fn: p,
                    default_value: cur.default_value,
                    is_required: cur.is_required,
                },
            ),
        ),
        _ => Ok(None),
    }
}

/// The configurations gathered so far, followed by those of the fields still to read.
pub open spec fn gathered(acc: Seq<FieldConfig>, rest: Result<Seq<FieldConfig>, ConfigMacroError>) -> Result<
    Seq<FieldConfig>,
    ConfigMacroError,
> {
    match rest {
        Err(e) => Err(e),
        Ok(cs) => Ok(acc + cs),
    }
}

/// Decides what the attribute macro makes of the item: the configuration of each field
/// that it reads, in the order of the fields, or why it rejects the item (not a struct,
/// unnamed fields, a rejected field, no field to read, or a field with a `default`
/// attribute but no default value).
pub fn plan_dynamic_config(shape: &ItemShape) -> (r: Result<Vec<FieldConfig>, ConfigMacroError>)
    ensures
        match r {
            Ok(v) => plan_of(*shape) == Ok::<Seq<FieldConfig>, ConfigMacroError>(v@),
            Err(e) => plan_of(*shape) == Err::<Seq<FieldConfig>, ConfigMacroError>(e),
        },
{
    let fields = match shape {
        ItemShape::NotStruct => return Err(ConfigMacroError::NotStruct),
        ItemShape::UnnamedStruct => return Err(ConfigMacroError::UnnamedFields),
        ItemShape::NamedStruct(fields) => fields,
    };
    let mut configs: Vec<FieldConfig> = Vec::new();
    let mut i: usize = 0;
    assert(fields@.skip(0) =~= fields@);
    assert(configs@ + Seq::<FieldConfig>::empty() =~= configs@);
    while i < fields.len()
        invariant
            i <= fields.len(),
            *shape == ItemShape::NamedStruct(*fields),
            configs_of(fields@) == gathered(configs@, configs_of(fields@.skip(i as int))),
        decreases fields.len() - i,
    {
        let ghost rest = fields@.skip(i as int);
        let ghost acc = configs@;
        assert(rest[0] == fields@[i as int]);
        assert(rest.drop_first() =~= fields@.skip(i + 1));
        match parse_field_config(&fields[i]) {
            Err(e) => return Err(e),
            Ok(Some(c)) => {
                configs.push(c);
                assert forall|cs: Seq<FieldConfig>| #[trigger] (acc + (seq![c] + cs)) =~= configs@ + cs by {}
            },
            Ok(None) => {},
        }
        i = i + 1;
    }
    assert(fields@.skip(i as int) =~= Seq::<FieldSpec>::empty());
    assert(configs@ + Seq::<FieldConfig>::empty() =~= configs@);
    if configs.len() == 0 {
        return Err(ConfigMacroError::NoValidField);
    }
    let mut j: usize = 0;
    assert(configs@.skip(0) =~= configs@);
    while j < configs.len()
        invariant
            j <= configs.len(),
            configs.len() > 0,
            *shape == ItemShape::NamedStruct(*fields),
            configs_of(fields@) == Ok::<Seq<FieldConfig>, ConfigMacroError>(configs@),
            missing_default(configs@) == missing_default(configs@.skip(j as int)),
        decreases configs.len() - j,
    {
        assert(configs@.skip(j as int)[0] == configs@[j as int]);
        assert(configs@.skip(j as int).drop_first() =~= configs@.skip(j + 1));
        if !configs[j].is_required && configs[j].default_value.is_none() {
            return Err(ConfigMacroError::MissingDefault { field: configs[j].field_name.clone() });
        }
        j = j + 1;
    }
    assert(configs@.skip(j as int) =~= Seq::<FieldConfig>::empty());
    Ok(configs)
}

proof fn lemma_no_missing_default(cs: Seq<FieldConfig>)
    requires
        missing_default(cs) is None,
    ensures
        forall|i: int| 0 <= i < cs.len() ==> #[trigger] cs[i].is_required || cs[i].default_value is Some,
    decreases cs.len(),
{
    if cs.len() > 0 {
        lemma_no_missing_default(cs.drop_first());
        assert forall|i: int| 0 <= i < cs.len() implies #[trigger] cs[i].is_required || cs[i].default_value is Some by {
            if i > 0 {
                assert(cs[i] == cs.drop_first()[i - 1]);
            }
        }
    }
}

proof fn lemma_configs_at_most_fields(fields: Seq<FieldSpec>)
    ensures
        configs_of(fields) matches Ok(cs) ==> cs.len() <= fields.len(),
    decreases fields.len(),
{
    if fields.len() > 0 {
        lemma_configs_at_most_fields(fields.drop_first());
    }
}

/// An accepted item reads at least one field and at most one configuration per field,
/// and every field it reads is either required or has a default value to fall back on.
pub proof fn law_plan_is_well_formed(fields: Vec<FieldSpec>)
    ensures
        plan_of(ItemShape::NamedStruct(fields)) matches Ok(cs) ==> {
            &&& 0 < cs.len() <= fields@.len()
            &&& forall|i: int| 0 <= i < cs.len() ==> #[trigger] cs[i].is_required
                || cs[i].default_value is Some
        },
{
    lemma_configs_at_most_fields(fields@);
    if let Ok(cs) = configs_of(fields@) {
        if missing_default(cs) is None {
            lemma_no_missing_default(cs);
        }
    }
}

proof fn lemma_configs_of_kept(fields: Seq<FieldSpec>, cs: Seq<FieldConfig>)
    requires
        fields.len() == cs.len(),
        forall|i: int| 0 <= i < fields.len() ==> field_config_of(#[trigger] fields[i]) == Ok::<
            Option<FieldConfig>,
            ConfigMacroError,
        >(Some(cs[i])),
    ensures
        configs_of(fields) == Ok::<Seq<FieldConfig>, ConfigMacroError>(cs),
    decreases fields.len(),
{
    if fields.len() > 0 {
        assert forall|i: int| 0 <= i < fields.len() - 1 implies field_config_of(
            #[trigger] fields.drop_first()[i],
        ) == Ok::<Option<FieldConfig>, ConfigMacroError>(Some(cs.drop_first()[i])) by {
            assert(fields.drop_first()[i] == fields[i + 1]);
        }
        lemma_configs_of_kept(fields.drop_first(), cs.drop_first());
        assert(field_config_of(fields[0]) == Ok::<Option<FieldConfig>, ConfigMacroError>(
            Some(cs[0]),
        ));
        assert(seq![cs[0]] + cs.drop_first() =~= cs);
    } else {
        assert(cs =~= Seq::<FieldConfig>::empty());
    }
}

proof fn lemma_all_defaulted(cs: Seq<FieldConfig>)
    requires
        forall|i: int| 0 <= i < cs.len() ==> #[trigger] cs[i].is_required || cs[i].default_value is Some,
    ensures
        missing_default(cs) is None,
    decreases cs.len(),
{
    if cs.len() > 0 {
        assert forall|i: int| 0 <= i < cs.len() - 1 implies #[trigger] cs.drop_first()[i].is_required
            || cs.drop_first()[i].default_value is Some by {
            assert(cs.drop_first()[i] == cs[i + 1]);
        }
        lemma_all_defaulted(cs.drop_first());
    }
}

/// A struct whose every field is read, each either required or with a default value,
/// is accepted with all its fields, in their order.
pub proof fn law_plan_keeps_read_fields(fields: Vec<FieldSpec>, cs: Seq<FieldConfig>)
    requires
        0 < fields@.len() == cs.len(),
        forall|i: int| 0 <= i < fields@.len() ==> field_config_of(#[trigger] fields@[i]) == Ok::<
            Option<FieldConfig>,
            ConfigMacroError,
        >(Some(cs[i])),
        forall|i: int| 0 <= i < cs.len() ==> #[trigger] cs[i].is_required || cs[i].default_value is Some,
    ensures
        plan_of(ItemShape::NamedStruct(fields)) == Ok::<Seq<FieldConfig>, ConfigMacroError>(cs),
{
    lemma_configs_of_kept(fields@, cs);
    lemma_all_defaulted(cs);
}

/// A field whose one attribute is `#[default(key = "..", default = .., parse_with_cli = ..)]`
/// is kept: it is read under that key with its default value, and its parser is awaited
/// with the configuration center.
pub proof fn law_parse_with_cli_default_field_kept(
    name: String,
    ty: String,
    attrs: Vec<FieldAttr>,
    items: Vec<MetaItem>,
    key_tokens: String,
    key: String,
    default_tokens: String,
    parser_tokens: String,
)
    requires
        attrs@ == seq![FieldAttr { path: AttrPath::Default, args: Some(items) }],
        items@ == seq![
            MetaItem { name: MetaName::Key, value: MetaValue::Str { tokens: key_tokens, value: key } },
            MetaItem { name: MetaName::Default, value: MetaValue::Expr { tokens: default_tokens } },
            MetaItem { name: MetaName::ParseWithCli, value: MetaValue::Expr { tokens: parser_tokens } },
        ],
    ensures
        field_config_of(FieldSpec { name: Some(name), ty, attrs }) == Ok::<
            Option<FieldConfig>,
            ConfigMacroError,
        >(
            Some(
                FieldConfig {
                    field_name: name,
                    field_type: ty,
                    key,
                    parse_fn: FieldParser { tokens: parser_tokens, with_cli: true },
                    default_value: Some(default_tokens),
                    is_required: false,
                },
            ),
        ),
{
    let s0 = with_required(initial_state(), false);
    let i = items@;
    assert(i.drop_first().drop_first().drop_first() =~= Seq::<MetaItem>::empty());
    reveal_with_fuel(apply_items, 4);
    assert(attrs@.drop_first() =~= Seq::<FieldAttr>::empty());
    reveal_with_fuel(apply_attrs, 2);
}

/// A field whose one attribute is `#[must_init(key = "..", parse_with_cli = ..)]` is kept:
/// it is required, read under that key, and its parser is awaited with the configuration
/// center.
pub proof fn law_parse_with_cli_required_field_kept(
    name: String,
    ty: String,
    attrs: Vec<FieldAttr>,
    items: Vec<MetaItem>,
    key_tokens: String,
    key: String,
    parser_tokens: String,
)
    requires
        attrs@ == seq![FieldAttr { path: AttrPath::MustInit, args: Some(items) }],
        items@ == seq![
            MetaItem { name: MetaName::Key, value: MetaValue::Str { tokens: key_tokens, value: key } },
            MetaItem { name: MetaName::ParseWithCli, value: MetaValue::Expr { tokens: parser_tokens } },
        ],
    ensures
        field_config_of(FieldSpec { name: Some(name), ty, attrs }) == Ok::<
            Option<FieldConfig>,
            ConfigMacroError,
        >(
            Some(
                FieldConfig {
                    field_name: name,
                    field_type: ty,
                    key,
                    parse_fn: FieldParser { tokens: parser_tokens, with_cli: true },
                    default_value: None,
                    is_required: true,
                },
            ),
        ),
{
    let i = items@;
    assert(i.drop_first().drop_first() =~= Seq::<MetaItem>::empty());
    reveal_with_fuel(apply_items, 3);
    assert(attrs@.drop_first() =~= Seq::<FieldAttr>::empty());
    reveal_with_fuel(apply_attrs, 2);
}

/// The keys that the fields are read under, in the order of the fields.
pub fn config_keys(configs: &Vec<FieldConfig>) -> (r: Vec<String>)
    ensures
        r@.len() == configs@.len(),
        forall|i: int| 0 <= i < configs@.len() ==> #[trigger] r@[i] == configs@[i].key,
{
    let mut keys: Vec<String> = Vec::new();
    let mut i: usize = 0;
    while i < configs.len()
        invariant
            i <= configs.len(),
            keys@.len() == i,
            forall|j: int| 0 <= j < i ==> #[trigger] keys@[j] == configs@[j].key,
        decreases configs.len() - i,
    {
        keys.push(configs[i].key.clone());
        i = i + 1;
    }
    keys
}

/// What each entry does, whatever the attribute and the state before it:
/// `key = "k"` sets the key to the literal's text and nothing else, and takes nothing but
/// a string literal; `parse = e` sets a plain parser (one called with the raw text
/// alone) to the tokens of `e` and nothing else; `parse_with_cli = e` sets a parser
/// awaited with the center to the tokens of `e` and nothing else; `default = e`, where the
/// attribute takes it, sets the default value to the tokens of `e` (the quotes of a
/// string literal included) and nothing else; an entry of any other name, and `default`
/// where the attribute does not take it, changes nothing when it has no value.
pub proof fn law_entry_effects(s: FieldState, item: MetaItem, allow_default: bool)
    ensures
        item.name == MetaName::Key ==> match item.value {
            MetaValue::Str { value, .. } => apply_item(s, item, allow_default) matches Some(t) && t.key
                == Some(value) && t.parse_fn == s.parse_fn && t.default_value == s.default_value
                && t.is_required == s.is_required,
            _ => apply_item(s, item, allow_default) is None,
        },
        item.name == MetaName::Parse ==> match item.value {
            MetaValue::Str { tokens, .. } | MetaValue::Expr { tokens } => apply_item(
                s,
                item,
                allow_default,
            ) matches Some(t) && t.parse_fn == Some(FieldParser { tokens, with_cli: false }) && t.key
                == s.key && t.default_value == s.default_value && t.is_required == s.is_required,
            _ => apply_item(s, item, allow_default) is None,
        },
        item.name == MetaName::ParseWithCli ==> match item.value {
            MetaValue::Str { tokens, .. } | MetaValue::Expr { tokens } => apply_item(
                s,
                item,
                allow_default,
            ) matches Some(t) && t.parse_fn == Some(FieldParser { tokens, with_cli: true }) && t.key
                == s.key && t.default_value == s.default_value && t.is_required == s.is_required,
            _ => apply_item(s, item, allow_default) is None,
        },
        item.name == MetaName::Default && allow_default ==> match item.value {
            MetaValue::Str { tokens, .. } | MetaValue::Expr { tokens } => apply_item(
                s,
                item,
                allow_default,
            ) matches Some(t) && t.default_value == Some(tokens) && t.key == s.key && t.parse_fn
                == s.parse_fn && t.is_required == s.is_required,
            _ => apply_item(s, item, allow_default) is None,
        },
        (item.name == MetaName::Other || (item.name == MetaName::Default && !allow_default))
            ==> apply_item(s, item, allow_default) == (if item.value is Absent {
            Some(s)
        } else {
            None
        }),
{
}

/// Whether two entries set the same part of a field: both the key, both a parser, or
/// both the default value.
pub open spec fn same_target(a: MetaName, b: MetaName) -> bool {
    ||| a == MetaName::Key && b == MetaName::Key
    ||| (a == MetaName::Parse || a == MetaName::ParseWithCli) && (b == MetaName::Parse || b
        == MetaName::ParseWithCli)
    ||| a == MetaName::Default && b == MetaName::Default
}

proof fn lemma_apply_items_append(s: FieldState, x: Seq<MetaItem>, y: Seq<MetaItem>, ad: bool)
    ensures
        apply_items(s, x + y, ad) == (match apply_items(s, x, ad) {
            None => None,
            Some(t) => apply_items(t, y, ad),
        }),
    decreases x.len(),
{
    if x.len() == 0 {
        assert(x + y =~= y);
    } else {
        assert((x + y)[0] == x[0]);
        assert((x + y).drop_first() =~= x.drop_first() + y);
        match apply_item(s, x[0], ad) {
            None => {},
            Some(t) => lemma_apply_items_append(t, x.drop_first(), y, ad),
        }
    }
}

/// The order of two neighbouring entries of an attribute does not matter where they set
/// different parts of the field: `#[must_init(parse = p, key = k)]` reads the field as
/// `#[must_init(key = k, parse = p)]` does, and so for every attribute and position.
pub proof fn law_entries_commute(
    s: FieldState,
    pre: Seq<MetaItem>,
    a: MetaItem,
    b: MetaItem,
    post: Seq<MetaItem>,
    allow_default: bool,
)
    requires
        !same_target(a.name, b.name),
    ensures
        apply_items(s, pre + seq![a, b] + post, allow_default) == apply_items(
            s,
            pre + seq![b, a] + post,
            allow_default,
        ),
{
    lemma_apply_items_append(s, pre + seq![a, b], post, allow_default);
    lemma_apply_items_append(s, pre + seq![b, a], post, allow_default);
    lemma_apply_items_append(s, pre, seq![a, b], allow_default);
    lemma_apply_items_append(s, pre, seq![b, a], allow_default);
    if let Some(t) = apply_items(s, pre, allow_default) {
        assert(seq![a, b].drop_first() =~= seq![b]);
        assert(seq![b, a].drop_first() =~= seq![a]);
        assert(seq![a].drop_first() =~= Seq::<MetaItem>::empty());
        assert(seq![b].drop_first() =~= Seq::<MetaItem>::empty());
        reveal_with_fuel(apply_items, 3);
    }
}

/// A field with a `#[default(key = "k", default = d, parse = p)]` attribute is read under
/// `k` with the plain parser `p` (called with the raw text alone) and the default value
/// `d` as written (a string literal with its quotes), and is not required.
pub proof fn law_default_field_read(
    name: String,
    ty: String,
    attrs: Vec<FieldAttr>,
    items: Vec<MetaItem>,
    key_tokens: String,
    key: String,
    default_value: MetaValue,
    parser: MetaValue,
)
    requires
        attrs@ == seq![FieldAttr { path: AttrPath::Default, args: Some(items) }],
        items@ == seq![
            MetaItem { name: MetaName::Key, value: MetaValue::Str { tokens: key_tokens, value: key } },
            MetaItem { name: MetaName::Default, value: default_value },
            MetaItem { name: MetaName::Parse, value: parser },
        ],
        value_tokens(default_value) is Some,
        value_tokens(parser) is Some,
    ensures
        field_config_of(FieldSpec { name: Some(name), ty, attrs }) == Ok::<
            Option<FieldConfig>,
            ConfigMacroError,
        >(
            Some(
                FieldConfig {
                    field_name: name,
                    field_type: ty,
                    key,
                    parse_fn: FieldParser { tokens: value_tokens(parser).unwrap(), with_cli: false },
                    default_value: value_tokens(default_value),
                    is_required: false,
                },
            ),
        ),
{
    assert(items@.drop_first().drop_first().drop_first() =~= Seq::<MetaItem>::empty());
    reveal_with_fuel(apply_items, 4);
    assert(attrs@.drop_first() =~= Seq::<FieldAttr>::empty());
    reveal_with_fuel(apply_attrs, 2);
}

/// A field with a `#[must_init(key = "k", parse = p)]` attribute is required and read
/// under `k` with the plain parser `p`, with no default value.
pub proof fn law_required_field_read(
    name: String,
    ty: String,
    attrs: Vec<FieldAttr>,
    items: Vec<MetaItem>,
    key_tokens: String,
    key: String,
    parser: MetaValue,
)
    requires
        attrs@ == seq![FieldAttr { path: AttrPath::MustInit, args: Some(items) }],
        items@ == seq![
            MetaItem { name: MetaName::Key, value: MetaValue::Str { tokens: key_tokens, value: key } },
            MetaItem { name: MetaName::Parse, value: parser },
        ],
        value_tokens(parser) is Some,
    ensures
        field_config_of(FieldSpec { name: Some(name), ty, attrs }) == Ok::<
            Option<FieldConfig>,
            ConfigMacroError,
        >(
            Some(
                FieldConfig {
                    field_name: name,
                    field_type: ty,
                    key,
                    parse_fn: FieldParser { tokens: value_tokens(parser).unwrap(), with_cli: false },
                    default_value: None,
                    is_required: true,
                },
            ),
        ),
{
    assert(items@.drop_first().drop_first() =~= Seq::<MetaItem>::empty());
    reveal_with_fuel(apply_items, 3);
    assert(attrs@.drop_first() =~= Seq::<FieldAttr>::empty());
    reveal_with_fuel(apply_attrs, 2);
}

/// A named field without any attribute is rejected.
pub proof fn law_field_without_attribute_rejected(name: String, ty: String, attrs: Vec<FieldAttr>)
    requires
        attrs@.len() == 0,
    ensures
        field_config_of(FieldSpec { name: Some(name), ty, attrs }) == Err::<
            Option<FieldConfig>,
            ConfigMacroError,
        >(ConfigMacroError::NoAttr { field: name }),
{
}

proof fn lemma_configs_of_rejected(fields: Seq<FieldSpec>, i: int, e: ConfigMacroError)
    requires
        0 <= i < fields.len(),
        field_config_of(fields[i]) == Err::<Option<FieldConfig>, ConfigMacroError>(e),
        forall|j: int| 0 <= j < i ==> !(#[trigger] field_config_of(fields[j]) is Err),
    ensures
        configs_of(fields) == Err::<Seq<FieldConfig>, ConfigMacroError>(e),
    decreases i,
{
    if i > 0 {
        assert forall|j: int| 0 <= j < i - 1 implies !(#[trigger] field_config_of(
            fields.drop_first()[j],
        ) is Err) by {
            assert(fields.drop_first()[j] == fields[j + 1]);
        }
        assert(fields.drop_first()[i - 1] == fields[i]);
        lemma_configs_of_rejected(fields.drop_first(), i - 1, e);
        assert(!(field_config_of(fields[0]) is Err));
    }
}

/// A struct is rejected as soon as one of its fields is: the rejection of the first
/// rejected field is the rejection of the struct, and no field is left out in its place.
pub proof fn law_rejected_field_rejects_struct(fields: Vec<FieldSpec>, i: int, e: ConfigMacroError)
    requires
        0 <= i < fields@.len(),
        field_config_of(fields@[i]) == Err::<Option<FieldConfig>, ConfigMacroError>(e),
        forall|j: int| 0 <= j < i ==> !(#[trigger] field_config_of(fields@[j]) is Err),
    ensures
        plan_of(ItemShape::NamedStruct(fields)) == Err::<Seq<FieldConfig>, ConfigMacroError>(e),
{
    lemma_configs_of_rejected(fields@, i, e);
}

proof fn lemma_items_keep_required(s: FieldState, items: Seq<MetaItem>, ad: bool)
    ensures
        apply_items(s, items, ad) matches Some(t) ==> t.is_required == s.is_required,
    decreases items.len(),
{
    if items.len() > 0 {
        if let Some(t) = apply_item(s, items[0], ad) {
            lemma_items_keep_required(t, items.drop_first(), ad);
        }
    }
}

/// What each attribute does: an attribute of any other path rejects the item, naming the
/// field and the path; a bare `must_init` or `default` (no argument list) leaves the field
/// out; a `must_init` attribute that parses makes the field required; a `default`
/// attribute that parses makes it optional and rejects the item unless a key has been
/// read by then; an entry that does not parse leaves the field out, and rejects nothing.
pub proof fn law_attr_effects(s: FieldState, attr: FieldAttr, field: String)
    ensures
        attr.path matches AttrPath::Other(p) ==> apply_attr(s, attr, field) == Err::<
            Option<FieldState>,
            ConfigMacroError,
        >(ConfigMacroError::UnknownAttr { field, path: p }),
        !(attr.path is Other) && attr.args is None ==> apply_attr(s, attr, field) == Ok::<
            Option<FieldState>,
            ConfigMacroError,
        >(None),
        attr.path is MustInit ==> (apply_attr(s, attr, field) matches Ok(Some(t)) ==> t.is_required),
        attr.path is MustInit ==> apply_attr(s, attr, field) is Ok,
        attr.path is Default ==> (apply_attr(s, attr, field) matches Ok(Some(t)) ==> !t.is_required
            && t.key is Some),
        attr.path is Default ==> (apply_attr(s, attr, field) matches Err(e) ==> e
            == ConfigMacroError::MissingKey { field }),
        attr.path is Default && (attr.args matches Some(items) && apply_items(
            with_required(s, false),
            items@,
            true,
        ) matches Some(t) && t.key is None) ==> apply_attr(s, attr, field) == Err::<
            Option<FieldState>,
            ConfigMacroError,
        >(ConfigMacroError::MissingKey { field }),
{
    if let Some(items) = attr.args {
        lemma_items_keep_required(with_required(s, true), items@, false);
        lemma_items_keep_required(with_required(s, false), items@, true);
    }
}

proof fn lemma_missing_default_first(cs: Seq<FieldConfig>, i: int)
    requires
        0 <= i < cs.len(),
        !cs[i].is_required && cs[i].default_value is None,
        forall|j: int| 0 <= j < i ==> #[trigger] cs[j].is_required || cs[j].default_value is Some,
    ensures
        missing_default(cs) == Some(ConfigMacroError::MissingDefault { field: cs[i].field_name }),
    decreases i,
{
    if i > 0 {
        assert forall|j: int| 0 <= j < i - 1 implies #[trigger] cs.drop_first()[j].is_required
            || cs.drop_first()[j].default_value is Some by {
            assert(cs.drop_first()[j] == cs[j + 1]);
        }
        assert(cs.drop_first()[i - 1] == cs[i]);
        assert(cs[0].is_required || cs[0].default_value is Some);
        lemma_missing_default_first(cs.drop_first(), i - 1);
    }
}

/// A struct whose every field is read is rejected where a field read is neither required
/// nor has a default value, naming the first such field.
pub proof fn law_missing_default_rejects_struct(fields: Vec<FieldSpec>, cs: Seq<FieldConfig>, i: int)
    requires
        fields@.len() == cs.len(),
        forall|k: int| 0 <= k < fields@.len() ==> field_config_of(#[trigger] fields@[k]) == Ok::<
            Option<FieldConfig>,
            ConfigMacroError,
        >(Some(cs[k])),
        0 <= i < cs.len(),
        !cs[i].is_required && cs[i].default_value is None,
        forall|j: int| 0 <= j < i ==> #[trigger] cs[j].is_required || cs[j].default_value is Some,
    ensures
        plan_of(ItemShape::NamedStruct(fields)) == Err::<Seq<FieldConfig>, ConfigMacroError>(
            ConfigMacroError::MissingDefault { field: cs[i].field_name },
        ),
{
    lemma_configs_of_kept(fields@, cs);
    lemma_missing_default_first(cs, i);
}

} // verus!
