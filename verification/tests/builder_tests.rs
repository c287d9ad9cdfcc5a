use builder::annot::parse_each;
use builder::classify::{classify, FieldStrategy};
use builder::dynamics::{BuildError, Builder, FieldValue, RecordValue, Value};
use builder::emit::{emit, Artifact, InitKind, MethodBody, ReadMode};
use builder::model::{build_model, BuilderModel, MethodSpec, StorageKind};
use builder::schema::{
    parse_schema, ClassificationError, FieldSpec, RawDecl, RawShape, StructSchema, TypeDesc,
};

fn plain(name: &str) -> TypeDesc {
    TypeDesc::Plain { name: name.to_string() }
}

fn generic(name: &str, inner: TypeDesc) -> TypeDesc {
    TypeDesc::Generic { name: name.to_string(), inner: Box::new(inner) }
}

fn field(name: &str, ty: TypeDesc, annotation: Option<&str>) -> FieldSpec {
    FieldSpec {
        name: name.to_string(),
        declared_type: ty,
        annotation: annotation.map(|a| a.to_string()),
    }
}

/// The scenario schema: `Command { executable: String, args: Vec<String>
/// @each("arg"), env: Option<Vec<String>>, current_dir: String }`.
fn command_decl() -> RawDecl {
    RawDecl {
        record_name: "Command".to_string(),
        shape: RawShape::NamedFields,
        generic_params: false,
        fields: vec![
            field("executable", plain("String"), None),
            field("args", generic("Vec", plain("String")), Some("each = \"arg\"")),
            field("env", generic("Option", generic("Vec", plain("String"))), None),
            field("current_dir", plain("String"), None),
        ],
    }
}

fn command_artifact() -> Artifact {
    builder::derive(command_decl()).expect("the scenario schema must derive cleanly")
}

fn text(s: &str) -> Value {
    Value::Text(s.to_string())
}

fn record_value(rec: &RecordValue, name: &str) -> FieldValue {
    for f in &rec.fields {
        if f.name == name {
            return match &f.value {
                FieldValue::One(v) => FieldValue::One(v.clone()),
                FieldValue::Opt(Some(v)) => FieldValue::Opt(Some(v.clone())),
                FieldValue::Opt(None) => FieldValue::Opt(None),
                FieldValue::Many(vs) => FieldValue::Many(vs.clone()),
            };
        }
    }
    panic!("no field named {}", name);
}

#[test]
fn parse_each_accepts_the_grammar() {
    assert_eq!(parse_each("each = \"arg\""), Some("arg".to_string()));
    assert_eq!(parse_each("  each=\"arg\"  "), Some("arg".to_string()));
    assert_eq!(parse_each("\teach\n=\r\"x y\" "), Some("x y".to_string()));
    assert_eq!(parse_each("each = \"\""), Some("".to_string()));
}

#[test]
fn parse_each_rejects_everything_else() {
    assert_eq!(parse_each(""), None);
    assert_eq!(parse_each("each"), None);
    assert_eq!(parse_each("each \"arg\""), None);
    assert_eq!(parse_each("each = arg"), None);
    assert_eq!(parse_each("each = 12"), None);
    assert_eq!(parse_each("each = \"arg"), None);
    assert_eq!(parse_each("foo = \"arg\""), None);
    assert_eq!(parse_each("each = \"arg\" trailing"), None);
    assert_eq!(parse_each("eachx = \"arg\""), None);
}

#[test]
fn parse_schema_accepts_named_records_only() {
    assert!(parse_schema(command_decl()).is_ok());
    let mut tuple_decl = command_decl();
    tuple_decl.shape = RawShape::TupleFields;
    assert_eq!(parse_schema(tuple_decl), Err(ClassificationError::UnsupportedShape));
    let mut enum_decl = command_decl();
    enum_decl.shape = RawShape::EnumShape;
    assert_eq!(parse_schema(enum_decl), Err(ClassificationError::UnsupportedShape));
    let mut generic_decl = command_decl();
    generic_decl.generic_params = true;
    assert_eq!(parse_schema(generic_decl), Err(ClassificationError::UnsupportedShape));
}

#[test]
fn classify_plain_field_is_required() {
    let f = field("executable", plain("String"), None);
    assert_eq!(classify(&f), Ok(FieldStrategy::Required { elem: plain("String") }));
}

#[test]
fn classify_optional_field_is_naturally_optional() {
    let f = field("env", generic("Option", plain("String")), None);
    assert_eq!(classify(&f), Ok(FieldStrategy::NaturallyOptional { elem: plain("String") }));
}

#[test]
fn classify_optional_field_ignores_its_annotation() {
    let f = field("env", generic("Option", plain("String")), Some("utter nonsense"));
    assert_eq!(classify(&f), Ok(FieldStrategy::NaturallyOptional { elem: plain("String") }));
}

#[test]
fn classify_annotated_collection_is_accumulator() {
    let f = field("args", generic("Vec", plain("String")), Some("each = \"arg\""));
    assert_eq!(
        classify(&f),
        Ok(FieldStrategy::Accumulator {
            elem: plain("String"),
            appender_name: "arg".to_string()
        })
    );
}

#[test]
fn classify_unannotated_collection_is_required() {
    let f = field("args", generic("Vec", plain("String")), None);
    assert_eq!(
        classify(&f),
        Ok(FieldStrategy::Required { elem: generic("Vec", plain("String")) })
    );
}

#[test]
fn classify_malformed_annotation_is_diagnosed_on_its_field() {
    for bad in ["each", "each \"arg\"", "foo = \"arg\"", "each = 12", "each = \"arg"] {
        let f = field("args", generic("Vec", plain("String")), Some(bad));
        assert_eq!(
            classify(&f),
            Err(ClassificationError::MalformedAnnotation { field: "args".to_string() }),
            "payload {:?} must be malformed",
            bad
        );
    }
}

#[test]
fn classify_each_on_non_collection_is_a_type_mismatch() {
    let f = field("executable", plain("String"), Some("each = \"arg\""));
    assert_eq!(
        classify(&f),
        Err(ClassificationError::AnnotationTypeMismatch { field: "executable".to_string() })
    );
}

#[test]
fn first_diagnostic_wins() {
    let mut decl = command_decl();
    decl.fields[1].annotation = Some("nonsense".to_string());
    decl.fields[3].annotation = Some("also nonsense".to_string());
    assert_eq!(
        builder::derive(decl),
        Err(ClassificationError::MalformedAnnotation { field: "args".to_string() })
    );
}

#[test]
fn diagnostic_messages() {
    assert_eq!(
        ClassificationError::UnsupportedShape.message(),
        "expected a record type with named fields"
    );
    assert_eq!(
        ClassificationError::MalformedAnnotation { field: "args".to_string() }.message(),
        "expected `each = \"...\"`"
    );
    assert_eq!(
        ClassificationError::AnnotationTypeMismatch { field: "args".to_string() }.message(),
        "each annotation requires a collection-typed field"
    );
}

fn command_model() -> BuilderModel {
    let schema = parse_schema(command_decl()).unwrap();
    let strategies = builder::classify::classify_all(&schema.fields).unwrap();
    build_model(&schema, &strategies)
}

#[test]
fn model_names_and_required_fields() {
    let m = command_model();
    assert_eq!(m.builder_name, "CommandBuilder");
    assert_eq!(m.record_name, "Command");
    assert_eq!(
        m.required_fields,
        vec!["executable".to_string(), "current_dir".to_string()]
    );
}

#[test]
fn model_storage_kinds() {
    let m = command_model();
    assert_eq!(m.storage.len(), 4);
    assert_eq!(m.storage[0].field, "executable");
    assert_eq!(m.storage[0].kind, StorageKind::OptionalSlot { elem: plain("String") });
    assert_eq!(m.storage[1].kind, StorageKind::CollectionSlot { elem: plain("String") });
    assert_eq!(
        m.storage[2].kind,
        StorageKind::OptionalSlot { elem: generic("Vec", plain("String")) }
    );
    assert_eq!(m.storage[3].kind, StorageKind::OptionalSlot { elem: plain("String") });
}

#[test]
fn model_methods_without_collision_hold_setter_then_appender() {
    let m = command_model();
    assert_eq!(m.methods.len(), 5);
    assert_eq!(
        m.methods[0],
        MethodSpec::Setter { field: "executable".to_string(), param: plain("String") }
    );
    assert_eq!(
        m.methods[1],
        MethodSpec::Setter {
            field: "args".to_string(),
            param: generic("Vec", plain("String"))
        }
    );
    assert_eq!(
        m.methods[2],
        MethodSpec::Appender {
            field: "args".to_string(),
            elem: plain("String"),
            method_name: "arg".to_string()
        }
    );
    assert_eq!(
        m.methods[3],
        MethodSpec::Setter {
            field: "env".to_string(),
            param: generic("Vec", plain("String"))
        }
    );
    assert_eq!(
        m.methods[4],
        MethodSpec::Setter { field: "current_dir".to_string(), param: plain("String") }
    );
}

#[test]
fn colliding_appender_name_suppresses_the_setter() {
    let decl = RawDecl {
        record_name: "Command".to_string(),
        shape: RawShape::NamedFields,
        generic_params: false,
        fields: vec![field(
            "args",
            generic("Vec", plain("String")),
            Some("each = \"args\""),
        )],
    };
    let schema = parse_schema(decl).unwrap();
    let strategies = builder::classify::classify_all(&schema.fields).unwrap();
    let m = build_model(&schema, &strategies);
    assert_eq!(m.methods.len(), 1);
    assert_eq!(
        m.methods[0],
        MethodSpec::Appender {
            field: "args".to_string(),
            elem: plain("String"),
            method_name: "args".to_string()
        }
    );
    let a = emit(&m);
    assert_eq!(a.method_decls.len(), 1);
    assert_eq!(a.method_decls[0].name, "args");
    assert_eq!(a.method_decls[0].body, MethodBody::AppendElement);
}

#[test]
fn emitted_artifact_declarations() {
    let a = command_artifact();
    assert_eq!(a.builder_name, "CommandBuilder");
    assert_eq!(a.record_name, "Command");

    assert_eq!(a.storage_decls.len(), 4);
    assert_eq!(a.storage_decls[0].ty, generic("Option", plain("String")));
    assert_eq!(a.storage_decls[0].init, InitKind::EmptyOptional);
    assert_eq!(a.storage_decls[1].ty, generic("Vec", plain("String")));
    assert_eq!(a.storage_decls[1].init, InitKind::EmptyCollection);
    assert_eq!(
        a.storage_decls[2].ty,
        generic("Option", generic("Vec", plain("String")))
    );

    assert_eq!(a.method_decls.len(), 5);
    assert_eq!(a.method_decls[0].name, "executable");
    assert_eq!(a.method_decls[0].body, MethodBody::StoreValue);
    assert_eq!(a.method_decls[1].name, "args");
    assert_eq!(a.method_decls[1].body, MethodBody::ReplaceCollection);
    assert_eq!(a.method_decls[2].name, "arg");
    assert_eq!(a.method_decls[2].body, MethodBody::AppendElement);
    assert_eq!(a.method_decls[3].name, "env");
    assert_eq!(a.method_decls[3].body, MethodBody::StoreValue);
    assert_eq!(a.method_decls[4].name, "current_dir");
    assert_eq!(a.method_decls[4].body, MethodBody::StoreValue);

    assert_eq!(a.finalizer.len(), 4);
    assert_eq!(a.finalizer[0].mode, ReadMode::UnwrapRequired);
    assert_eq!(a.finalizer[1].mode, ReadMode::CopyCollection);
    assert_eq!(a.finalizer[2].mode, ReadMode::CopyOptional);
    assert_eq!(a.finalizer[3].mode, ReadMode::UnwrapRequired);
}

#[test]
fn fresh_builder_reports_the_first_required_field() {
    let a = command_artifact();
    let b = Builder::fresh(&a);
    assert_eq!(
        b.finalize(),
        Err(BuildError::MissingField { field: "executable".to_string() })
    );
}

#[test]
fn later_missing_required_field_is_named() {
    let a = command_artifact();
    let mut b = Builder::fresh(&a);
    b.set_value(0, text("/bin/ls"));
    assert_eq!(
        b.finalize(),
        Err(BuildError::MissingField { field: "current_dir".to_string() })
    );
}

#[test]
fn untouched_optional_and_accumulator_fields_default() {
    let a = command_artifact();
    let mut b = Builder::fresh(&a);
    b.set_value(0, text("/bin/ls"));
    b.set_value(3, text("/tmp"));
    let rec = b.finalize().expect("every required field is set");
    assert_eq!(record_value(&rec, "args"), FieldValue::Many(vec![]));
    assert_eq!(record_value(&rec, "env"), FieldValue::Opt(None));
}

#[test]
fn scenario_appenders_accumulate_in_call_order() {
    let a = command_artifact();
    let mut b = Builder::fresh(&a);
    b.set_value(0, text("/bin/ls"));
    b.set_value(3, text("/tmp"));
    b.append_value(1, text("-l"));
    b.append_value(1, text("-a"));
    let rec = b.finalize().expect("every required field is set");
    assert_eq!(record_value(&rec, "executable"), FieldValue::One(text("/bin/ls")));
    assert_eq!(
        record_value(&rec, "args"),
        FieldValue::Many(vec![text("-l"), text("-a")])
    );
    assert_eq!(record_value(&rec, "env"), FieldValue::Opt(None));
    assert_eq!(record_value(&rec, "current_dir"), FieldValue::One(text("/tmp")));
}

#[test]
fn scenario_whole_collection_setter_overwrites() {
    let a = command_artifact();
    let mut b = Builder::fresh(&a);
    b.set_value(0, text("/bin/ls"));
    b.set_value(3, text("/tmp"));
    b.append_value(1, text("-l"));
    b.append_value(1, text("-a"));
    b.set_collection(1, vec![text("-R")]);
    let rec = b.finalize().expect("every required field is set");
    assert_eq!(record_value(&rec, "args"), FieldValue::Many(vec![text("-R")]));
    b.append_value(1, text("-t"));
    let rec2 = b.finalize().expect("every required field is set");
    assert_eq!(
        record_value(&rec2, "args"),
        FieldValue::Many(vec![text("-R"), text("-t")])
    );
}

#[test]
fn setter_overwrites_required_value() {
    let a = command_artifact();
    let mut b = Builder::fresh(&a);
    b.set_value(0, text("/bin/ls"));
    b.set_value(0, text("/bin/cat"));
    b.set_value(3, text("/tmp"));
    let rec = b.finalize().unwrap();
    assert_eq!(record_value(&rec, "executable"), FieldValue::One(text("/bin/cat")));
}

#[test]
fn finalization_is_idempotent() {
    let a = command_artifact();
    let mut b = Builder::fresh(&a);
    let first = b.finalize();
    let second = b.finalize();
    assert_eq!(first, second);
    b.set_value(0, text("/bin/ls"));
    b.set_value(3, text("/tmp"));
    b.append_value(1, text("-l"));
    let ok_first = b.finalize();
    let ok_second = b.finalize();
    assert_eq!(ok_first, ok_second);
    assert!(ok_first.is_ok());
}

#[test]
fn derive_rejects_unsupported_shapes() {
    let decl = RawDecl {
        record_name: "Command".to_string(),
        shape: RawShape::UnionShape,
        generic_params: false,
        fields: vec![],
    };
    assert_eq!(builder::derive(decl), Err(ClassificationError::UnsupportedShape));
}

#[test]
fn derive_matches_stagewise_pipeline() {
    let a = command_artifact();
    let schema: StructSchema = parse_schema(command_decl()).unwrap();
    let strategies = builder::classify::classify_all(&schema.fields).unwrap();
    let m = build_model(&schema, &strategies);
    assert_eq!(a, emit(&m));
}
