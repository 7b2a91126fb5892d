use derive_build::schema::{RawField, Schema, SchemaAttr, SchemaKind, TypeDesc, Value};
use derive_build::semantics::{construct, invoke, FieldBinding, FieldState, Instance};
use derive_build::synth::generate;

fn ty(name: &str) -> TypeDesc {
    TypeDesc::Path { segments: vec![name.to_string()], args: vec![] }
}

fn ty1(name: &str, a: TypeDesc) -> TypeDesc {
    TypeDesc::Path { segments: vec![name.to_string()], args: vec![a] }
}

fn ty2(name: &str, a: TypeDesc, b: TypeDesc) -> TypeDesc {
    TypeDesc::Path { segments: vec![name.to_string()], args: vec![a, b] }
}

fn text(s: &str) -> Value {
    Value::Text(s.to_string())
}

fn binding(name: &str, state: FieldState) -> FieldBinding {
    FieldBinding { name: name.to_string(), state }
}

fn record(fields: Vec<RawField>) -> Schema {
    Schema {
        name: "Request".to_string(),
        generics: vec![],
        kind: SchemaKind::Record,
        fields,
    }
}

fn plain(name: &str, t: TypeDesc) -> RawField {
    RawField { name: name.to_string(), ty: t, attrs: vec![] }
}

fn required(name: &str, t: TypeDesc) -> RawField {
    RawField { name: name.to_string(), ty: t, attrs: vec![SchemaAttr::Required] }
}

#[test]
fn constructor_single_required_scalar() {
    let api = generate(record(vec![required("url", ty("String"))])).unwrap();
    let request = construct(&api, vec![text("example.com")]);
    assert_eq!(
        request,
        Instance { fields: vec![binding("url", FieldState::Single(text("example.com")))] }
    );
}

#[test]
fn constructor_zero_defaults() {
    let api = generate(record(vec![
        required("url", ty("String")),
        plain("count", ty("u32")),
        plain("label", ty("String")),
    ]))
    .unwrap();
    let request = construct(&api, vec![text("example.com")]);
    assert_eq!(
        request,
        Instance {
            fields: vec![
                binding("url", FieldState::Single(text("example.com"))),
                binding("count", FieldState::Single(Value::Int(0))),
                binding("label", FieldState::Single(text(""))),
            ],
        }
    );
}

#[test]
fn option_last_write_wins() {
    let api = generate(record(vec![
        required("url", ty("String")),
        plain("path", ty1("Option", ty("String"))),
    ]))
    .unwrap();
    let request = construct(&api, vec![text("example.com")]);
    let request = invoke(&api, request, "path", vec![text("first")]).unwrap();
    let request = invoke(&api, request, "path", vec![text("second")]).unwrap();
    assert_eq!(
        request.fields[1],
        binding("path", FieldState::Optional(Some(text("second"))))
    );
}

#[test]
fn sequence_keeps_insertion_order() {
    let api = generate(record(vec![
        required("url", ty("String")),
        plain("messages", ty1("Vec", ty("String"))),
    ]))
    .unwrap();
    let request = construct(&api, vec![text("example.com")]);
    let request = invoke(&api, request, "message", vec![text("first")]).unwrap();
    let request = invoke(&api, request, "message", vec![text("second")]).unwrap();
    assert_eq!(
        request.fields[1],
        binding("messages", FieldState::Sequence(vec![text("first"), text("second")]))
    );
}

#[test]
fn map_same_key_keeps_one_entry() {
    let api = generate(record(vec![
        required("url", ty("String")),
        plain("queries", ty2("HashMap", ty("String"), ty("String"))),
    ]))
    .unwrap();
    let request = construct(&api, vec![text("example.com")]);
    let request = invoke(&api, request, "query", vec![text("k"), text("first")]).unwrap();
    let request = invoke(&api, request, "query", vec![text("k"), text("second")]).unwrap();
    assert_eq!(
        request.fields[1],
        binding("queries", FieldState::MapEntries(vec![(text("k"), text("second"))]))
    );
}

#[test]
fn map_distinct_keys_keep_both_entries() {
    let api = generate(record(vec![
        required("url", ty("String")),
        plain("queries", ty2("HashMap", ty("String"), ty("String"))),
    ]))
    .unwrap();
    let request = construct(&api, vec![text("example.com")]);
    let request = invoke(&api, request, "query", vec![text("k1"), text("first")]).unwrap();
    let request = invoke(&api, request, "query", vec![text("k2"), text("second")]).unwrap();
    assert_eq!(
        request.fields[1],
        binding(
            "queries",
            FieldState::MapEntries(vec![
                (text("k1"), text("first")),
                (text("k2"), text("second")),
            ])
        )
    );
}

#[test]
fn set_duplicate_insert_is_no_op() {
    let api = generate(record(vec![
        required("url", ty("String")),
        plain("messages", ty1("HashSet", ty("String"))),
    ]))
    .unwrap();
    let request = construct(&api, vec![text("example.com")]);
    let request = invoke(&api, request, "message", vec![text("hello")]).unwrap();
    let request = invoke(&api, request, "message", vec![text("hello")]).unwrap();
    assert_eq!(
        request.fields[1],
        binding("messages", FieldState::SetElems(vec![text("hello")]))
    );
}

#[test]
fn default_literal_held_without_call() {
    let api = generate(record(vec![
        required("url", ty("String")),
        RawField {
            name: "protocol_version".to_string(),
            ty: ty("u32"),
            attrs: vec![SchemaAttr::DefaultValue(Value::Int(123))],
        },
    ]))
    .unwrap();
    let request = construct(&api, vec![text("example.com")]);
    assert_eq!(
        request.fields[1],
        binding("protocol_version", FieldState::Single(Value::Int(123)))
    );
}

#[test]
fn map_singular_method_single_entry() {
    let api = generate(record(vec![
        required("url", ty("String")),
        plain("query_b_tree", ty2("BTreeMap", ty("u16"), ty("String"))),
    ]))
    .unwrap();
    let request = construct(&api, vec![text("example.com")]);
    let request =
        invoke(&api, request, "query_b_tree", vec![Value::Int(123), text("hello")]).unwrap();
    assert_eq!(
        request.fields[1],
        binding(
            "query_b_tree",
            FieldState::MapEntries(vec![(Value::Int(123), text("hello"))])
        )
    );
}

#[test]
fn unknown_method_is_rejected() {
    let api = generate(record(vec![
        required("url", ty("String")),
        plain("path", ty1("Option", ty("String"))),
    ]))
    .unwrap();
    let request = construct(&api, vec![text("example.com")]);
    assert!(invoke(&api, request, "route", vec![text("x")]).is_none());
}

#[test]
fn wrong_arity_is_rejected() {
    let api = generate(record(vec![
        required("url", ty("String")),
        plain("path", ty1("Option", ty("String"))),
    ]))
    .unwrap();
    let request = construct(&api, vec![text("example.com")]);
    assert!(invoke(&api, request, "path", vec![text("a"), text("b")]).is_none());
}
