use derive_build::schema::{RawField, Schema, SchemaAttr, SchemaKind, TypeDesc, Value};
use derive_build::semantics::{construct, invoke, FieldBinding, FieldState, Instance};
use derive_build::synth::generate;

fn ty(name: &str) -> TypeDesc {
    TypeDesc::Path { segments: vec![name.to_string()], args: vec![] }
}

fn ty1(name: &str, a: TypeDesc) -> TypeDesc {
    TypeDesc::Path { segments: vec![name.to_string()], args: vec![a] }
}

fn text(s: &str) -> Value {
    Value::Text(s.to_string())
}

fn binding(name: &str, state: FieldState) -> FieldBinding {
    FieldBinding { name: name.to_string(), state }
}

fn request_schema() -> Schema {
    Schema {
        name: "Request".to_string(),
        generics: vec![],
        kind: SchemaKind::Record,
        fields: vec![
            RawField {
                name: "url".to_string(),
                ty: ty("String"),
                attrs: vec![SchemaAttr::Required],
            },
            RawField {
                name: "path".to_string(),
                ty: ty1("Option", ty("String")),
                attrs: vec![],
            },
            RawField {
                name: "messages".to_string(),
                ty: ty1("Vec", ty("String")),
                attrs: vec![],
            },
        ],
    }
}

#[test]
fn basic_test_builder() {
    let api = generate(request_schema()).unwrap();

    let request = construct(&api, vec![text("example.com")]);
    let request = invoke(&api, request, "path", vec![text("tester")]).unwrap();
    let request = invoke(&api, request, "message", vec![text("hello")]).unwrap();
    let request = invoke(&api, request, "message", vec![text("goodbye")]).unwrap();

    let expected = Instance {
        fields: vec![
            binding("url", FieldState::Single(text("example.com"))),
            binding("path", FieldState::Optional(Some(text("tester")))),
            binding(
                "messages",
                FieldState::Sequence(vec![text("hello"), text("goodbye")]),
            ),
        ],
    };
    assert_eq!(request, expected);

    let request = construct(&api, vec![text("example.com")]);
    assert_eq!(
        request,
        Instance {
            fields: vec![
                binding("url", FieldState::Single(text("example.com"))),
                binding("path", FieldState::Optional(None)),
                binding("messages", FieldState::Sequence(vec![])),
            ],
        }
    );

    let request = construct(&api, vec![text("example.com")]);
    let request = invoke(&api, request, "path", vec![text("tester")]).unwrap();
    assert_eq!(
        request,
        Instance {
            fields: vec![
                binding("url", FieldState::Single(text("example.com"))),
                binding("path", FieldState::Optional(Some(text("tester")))),
                binding("messages", FieldState::Sequence(vec![])),
            ],
        }
    );

    let request = construct(&api, vec![text("example.com")]);
    let request = invoke(&api, request, "message", vec![text("hello")]).unwrap();
    let request = invoke(&api, request, "message", vec![text("goodbye")]).unwrap();
    assert_eq!(
        request,
        Instance {
            fields: vec![
                binding("url", FieldState::Single(text("example.com"))),
                binding("path", FieldState::Optional(None)),
                binding(
                    "messages",
                    FieldState::Sequence(vec![text("hello"), text("goodbye")]),
                ),
            ],
        }
    );
}
