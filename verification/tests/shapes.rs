use derive_build::classify::ParameterMode;
use derive_build::schema::{RawField, Schema, SchemaAttr, SchemaKind, TypeDesc};
use derive_build::synth::{generate, MutationKind};

fn ty(name: &str) -> TypeDesc {
    TypeDesc::Path { segments: vec![name.to_string()], args: vec![] }
}

fn named(name: &str, args: Vec<TypeDesc>) -> TypeDesc {
    TypeDesc::Path { segments: vec![name.to_string()], args }
}

fn qualified(segments: Vec<&str>, args: Vec<TypeDesc>) -> TypeDesc {
    TypeDesc::Path {
        segments: segments.into_iter().map(|s| s.to_string()).collect(),
        args,
    }
}

fn record(fields: Vec<RawField>) -> Schema {
    Schema { name: "Request".to_string(), generics: vec![], kind: SchemaKind::Record, fields }
}

fn plain(name: &str, t: TypeDesc) -> RawField {
    RawField { name: name.to_string(), ty: t, attrs: vec![] }
}

fn required(name: &str, t: TypeDesc) -> RawField {
    RawField { name: name.to_string(), ty: t, attrs: vec![SchemaAttr::Required] }
}

#[test]
fn collection_methods_get_singular_names() {
    let api = generate(record(vec![
        required("url", ty("String")),
        plain("messages", named("Vec", vec![ty("String")])),
        plain("crates", named("HashSet", vec![ty("String")])),
    ]))
    .unwrap();
    assert_eq!(api.methods[0].name, "message");
    assert_eq!(api.methods[0].mutation, MutationKind::Append);
    assert_eq!(api.methods[1].name, "crate");
    assert_eq!(api.methods[1].mutation, MutationKind::InsertUnique);
}

#[test]
fn option_and_scalar_methods_keep_field_names() {
    let api = generate(record(vec![
        required("url", ty("String")),
        plain("path", named("Option", vec![ty("String")])),
        plain("label", ty("String")),
    ]))
    .unwrap();
    assert_eq!(api.methods[0].name, "path");
    assert_eq!(api.methods[0].mutation, MutationKind::WrapOptional);
    assert_eq!(api.methods[1].name, "label");
    assert_eq!(api.methods[1].mutation, MutationKind::Overwrite);
}

#[test]
fn wrong_arity_container_degrades_to_scalar() {
    let api = generate(record(vec![
        required("url", ty("String")),
        plain("options", ty("Option")),
        plain("pairs", named("HashMap", vec![ty("String")])),
    ]))
    .unwrap();
    assert_eq!(api.methods[0].name, "options");
    assert_eq!(api.methods[0].mutation, MutationKind::Overwrite);
    assert_eq!(api.methods[1].name, "pairs");
    assert_eq!(api.methods[1].mutation, MutationKind::Overwrite);
}

#[test]
fn qualified_container_name_degrades_to_scalar() {
    let api = generate(record(vec![
        required("url", ty("String")),
        plain("messages", qualified(vec!["std", "vec", "Vec"], vec![ty("String")])),
    ]))
    .unwrap();
    assert_eq!(api.methods[0].name, "messages");
    assert_eq!(api.methods[0].mutation, MutationKind::Overwrite);
}

#[test]
fn unknown_container_degrades_to_scalar() {
    let api = generate(record(vec![
        required("url", ty("String")),
        plain("entries", named("VecDeque", vec![ty("String")])),
    ]))
    .unwrap();
    assert_eq!(api.methods[0].name, "entries");
    assert_eq!(api.methods[0].mutation, MutationKind::Overwrite);
}

#[test]
fn integer_and_reference_parameters_are_exact() {
    let api = generate(record(vec![
        required("port", ty("u16")),
        required("body", TypeDesc::Reference),
        required("url", ty("String")),
        plain("weights", named("Vec", vec![ty("i64")])),
    ]))
    .unwrap();
    assert_eq!(api.ctor.params[0].mode, ParameterMode::Exact);
    assert_eq!(api.ctor.params[1].mode, ParameterMode::Exact);
    assert_eq!(api.ctor.params[2].mode, ParameterMode::Convertible);
    assert_eq!(api.methods[0].params[0].mode, ParameterMode::Exact);
}

#[test]
fn map_method_takes_key_and_value() {
    let api = generate(record(vec![
        required("url", ty("String")),
        plain("queries", named("BTreeMap", vec![ty("u16"), ty("String")])),
    ]))
    .unwrap();
    assert_eq!(api.methods[0].params.len(), 2);
    assert_eq!(api.methods[0].params[0].name, "key");
    assert_eq!(api.methods[0].params[0].mode, ParameterMode::Exact);
    assert_eq!(api.methods[0].params[1].name, "value");
    assert_eq!(api.methods[0].params[1].mode, ParameterMode::Convertible);
    assert_eq!(api.methods[0].mutation, MutationKind::InsertKeyed);
}
