use openapi_struct_gen::catalogue::Catalogue;
use openapi_struct_gen::definition::Definition;
use openapi_struct_gen::definition::GeneratedModule;
use openapi_struct_gen::definition::RecordField;
use openapi_struct_gen::definition::UnionVariant;
use openapi_struct_gen::error::GenError;
use openapi_struct_gen::generate::build_module;
use openapi_struct_gen::generate::generate;
use openapi_struct_gen::generate::generate_enum;
use openapi_struct_gen::generate::generate_for_schema;
use openapi_struct_gen::generate::generate_struct;
use openapi_struct_gen::options::decorations_for;
use openapi_struct_gen::options::Decoration;
use openapi_struct_gen::options::Import;
use openapi_struct_gen::options::Options;
use openapi_struct_gen::schema::ArrayType;
use openapi_struct_gen::schema::IntegerFormat;
use openapi_struct_gen::schema::NumberFormat;
use openapi_struct_gen::schema::ObjectType;
use openapi_struct_gen::schema::Property;
use openapi_struct_gen::schema::SchemaKind;
use openapi_struct_gen::schema::SchemaRef;
use openapi_struct_gen::schema::Type;
use openapi_struct_gen::types::TypeExpr;
use openapi_struct_gen::types::Unsupported;

fn inline(t: Type) -> SchemaRef {
    SchemaRef::Inline(Box::new(SchemaKind::Type(t)))
}

fn reference(name: &str) -> SchemaRef {
    SchemaRef::Reference(format!("#/components/schemas/{}", name))
}

fn property(name: &str, schema: SchemaRef) -> Property {
    Property { name: name.to_string(), schema }
}

fn strings(v: &[&str]) -> Vec<String> {
    v.iter().map(|s| s.to_string()).collect()
}

fn pet() -> Type {
    Type::Object(ObjectType {
        required: strings(&["id"]),
        properties: vec![
            property("id", inline(Type::Integer(IntegerFormat::Int64))),
            property("name", inline(Type::String)),
        ],
    })
}

fn decoration(text: &str, exceptions: &[&str]) -> Decoration {
    Decoration { text: text.to_string(), exceptions: strings(exceptions) }
}

fn with_derives(derivatives: &[&str]) -> Options {
    let mut options = Options::new();
    options.derivatives = strings(derivatives);
    options
}

fn catalogue(entries: Vec<(&str, SchemaKind)>) -> Catalogue {
    let mut c = Catalogue::new();
    for (name, kind) in entries {
        c.insert(name.to_string(), kind);
    }
    c
}

fn unsupported(r: Result<String, GenError>) -> (String, Unsupported) {
    match r {
        Err(GenError::Unsupported { schema, reason }) => (schema, reason),
        other => panic!("expected an unsupported schema, got {:?}", other),
    }
}

#[test]
fn test_generate() {
    let mut options = Options::new();
    options.derivatives = strings(&["Clone", "Serialize", "Deserialize"]);
    options.imports = vec![
        Import { path: "serde".to_string(), name: "Serialize".to_string() },
        Import { path: "serde".to_string(), name: "Deserialize".to_string() },
    ];
    options.container_attrs = vec![decoration(r#"#[skip_serializing_none]"#, &[])];
    options.field_attrs = vec![decoration(r#"#[serde(rename_all = "camelCase")]"#, &[])];
    let schemas = catalogue(vec![
        ("Pet", SchemaKind::Type(pet())),
        ("Pets", SchemaKind::Type(Type::Array(ArrayType { items: Some(reference("Pet")) }))),
    ]);
    generate(schemas, &options).unwrap();
}

#[test]
fn pet_becomes_a_record() {
    let options = with_derives(&["Clone"]);
    let text = generate(catalogue(vec![("Pet", SchemaKind::Type(pet()))]), &options).unwrap();
    assert_eq!(
        text,
        "#[derive(Debug, Clone)]\npub struct Pet {\n    pub id: i64,\n    pub name: Option<String>,\n}"
    );
}

#[test]
fn pet_record_as_a_definition() {
    let options = with_derives(&["Clone"]);
    assert_eq!(
        generate_struct("Pet".to_string(), pet(), &options),
        Ok(Definition::Record {
            name: "Pet".to_string(),
            derives: strings(&["Debug", "Clone"]),
            decorations: vec![],
            fields: vec![
                RecordField { name: "id".to_string(), ty: TypeExpr::Int64, decorations: vec![] },
                RecordField {
                    name: "name".to_string(),
                    ty: TypeExpr::Optional(Box::new(TypeExpr::String)),
                    decorations: vec![],
                },
            ],
        })
    );
}

#[test]
fn record_without_extra_derives_has_debug() {
    let text = generate(catalogue(vec![("Pet", SchemaKind::Type(pet()))]), &Options::new()).unwrap();
    assert_eq!(
        text,
        "#[derive(Debug)]\npub struct Pet {\n    pub id: i64,\n    pub name: Option<String>,\n}"
    );
}

#[test]
fn object_without_properties_is_a_unit_struct() {
    let empty = Type::Object(ObjectType { required: vec![], properties: vec![] });
    let text = generate(catalogue(vec![("Empty", SchemaKind::Type(empty))]), &Options::new()).unwrap();
    assert_eq!(text, "#[derive(Debug)]\npub struct Empty;");
}

#[test]
fn field_names_are_snake_case_and_escaped() {
    let object = Type::Object(ObjectType {
        required: strings(&["petName", "type"]),
        properties: vec![
            property("petName", inline(Type::String)),
            property("type", inline(Type::Boolean)),
            property("HTTPStatus", inline(Type::Number(NumberFormat::Unspecified))),
        ],
    });
    let definition = generate_struct("Thing".to_string(), object, &Options::new()).unwrap();
    match definition {
        Definition::Record { fields, .. } => {
            let names: Vec<&str> = fields.iter().map(|f| f.name.as_str()).collect();
            assert_eq!(names, vec!["pet_name", "r#type", "http_status"]);
            assert_eq!(fields[0].ty, TypeExpr::String);
            assert_eq!(fields[1].ty, TypeExpr::Bool);
            assert_eq!(fields[2].ty, TypeExpr::Optional(Box::new(TypeExpr::Float32)));
        },
        other => panic!("expected a record, got {:?}", other),
    }
}

#[test]
fn imports_come_first() {
    let mut options = with_derives(&["Serialize"]);
    options.imports = vec![
        Import { path: "serde".to_string(), name: "Serialize".to_string() },
        Import { path: "serde".to_string(), name: "Deserialize".to_string() },
        Import { path: "std::fmt".to_string(), name: "Debug".to_string() },
    ];
    let text = generate(
        catalogue(vec![("Id", SchemaKind::Type(Type::Integer(IntegerFormat::Int64)))]),
        &options,
    )
    .unwrap();
    assert_eq!(
        text,
        "use serde::{Serialize, Deserialize};\nuse std::fmt::Debug;\n\npub type Id = i64;"
    );
}

#[test]
fn container_decoration_skips_its_exceptions() {
    let mut options = Options::new();
    options.container_attrs = vec![decoration("#[serde(rename_all = \"camelCase\")]", &["Foo"])];
    let object = || Type::Object(ObjectType { required: vec![], properties: vec![] });
    let text = generate(
        catalogue(vec![("Bar", SchemaKind::Type(object())), ("Foo", SchemaKind::Type(object()))]),
        &options,
    )
    .unwrap();
    assert_eq!(
        text,
        "#[serde(rename_all = \"camelCase\")]\n\n#[derive(Debug)]\npub struct Bar;\n\n#[derive(Debug)]\npub struct Foo;"
    );
}

#[test]
fn record_and_union_are_decorated_alike() {
    let mut options = Options::new();
    options.container_attrs = vec![decoration("#[one]", &[]), decoration("#[two]", &[])];
    let schemas = catalogue(vec![
        ("A", SchemaKind::Type(Type::Object(ObjectType { required: vec![], properties: vec![] }))),
        ("B", SchemaKind::OneOf(vec![reference("A")])),
    ]);
    let text = generate(schemas, &options).unwrap();
    assert_eq!(
        text,
        "#[one]\n\n#[two]\n\n#[derive(Debug)]\npub struct A;\n\n#[one]\n\n#[two]\n\n#[derive(Debug)]\npub enum B {\n    A(A),\n}"
    );
}

#[test]
fn record_decorations_are_kept_in_the_definition() {
    let mut options = Options::new();
    options.container_attrs = vec![decoration("#[one]", &[]), decoration("#[two]", &["Pet"])];
    match generate_struct("Pet".to_string(), pet(), &options).unwrap() {
        Definition::Record { decorations, .. } => assert_eq!(decorations, strings(&["#[one]"])),
        other => panic!("expected a record, got {:?}", other),
    }
}

#[test]
fn equal_imports_are_kept_once() {
    let mut options = Options::new();
    options.imports = vec![
        Import { path: "serde".to_string(), name: "Serialize".to_string() },
        Import { path: "std::fmt".to_string(), name: "Debug".to_string() },
        Import { path: "serde".to_string(), name: "Serialize".to_string() },
        Import { path: "serde".to_string(), name: "de::Error".to_string() },
        Import { path: "serde".to_string(), name: "de::Visitor".to_string() },
    ];
    let text = generate(
        catalogue(vec![("Id", SchemaKind::Type(Type::Integer(IntegerFormat::Int64)))]),
        &options,
    )
    .unwrap();
    assert_eq!(text, "use serde::{Serialize, de};\nuse std::fmt::Debug;\n\npub type Id = i64;");
}

#[test]
fn decorations_for_keeps_order_and_drops_exceptions() {
    let decorations = vec![
        decoration("a", &[]),
        decoration("b", &["Foo"]),
        decoration("c", &["Bar", "Foo"]),
        decoration("d", &["Bar"]),
    ];
    assert_eq!(decorations_for(&decorations, "Foo"), strings(&["a", "d"]));
    assert_eq!(decorations_for(&decorations, "Bar"), strings(&["a", "b"]));
    assert_eq!(decorations_for(&decorations, "Baz"), strings(&["a", "b", "c", "d"]));
    assert_eq!(decorations_for(&Vec::new(), "Foo"), Vec::<String>::new());
}

#[test]
fn field_decoration_goes_on_every_field() {
    let mut options = Options::new();
    options.field_attrs =
        vec![decoration("#[serde(default)]", &["Other"]), decoration("#[skip]", &["Pet"])];
    let text = generate(catalogue(vec![("Pet", SchemaKind::Type(pet()))]), &options).unwrap();
    assert_eq!(
        text,
        "#[derive(Debug)]\npub struct Pet {\n    #[serde(default)]\n    pub id: i64,\n    #[serde(default)]\n    pub name: Option<String>,\n}"
    );
}

#[test]
fn top_level_array_is_an_alias() {
    let pets = Type::Array(ArrayType { items: Some(reference("Pet")) });
    assert_eq!(
        generate_struct("Pets".to_string(), pets, &Options::new()),
        Ok(Definition::Alias {
            name: "Pets".to_string(),
            target: TypeExpr::Sequence(Box::new(TypeExpr::Named("Pet".to_string()))),
        })
    );
    let pets = Type::Array(ArrayType { items: Some(reference("Pet")) });
    let text = generate(catalogue(vec![("Pets", SchemaKind::Type(pets))]), &Options::new()).unwrap();
    assert_eq!(text, "pub type Pets = Vec<Pet>;");
}

#[test]
fn top_level_primitive_is_an_alias() {
    assert_eq!(
        generate_struct("Name".to_string(), Type::String, &Options::new()),
        Ok(Definition::Alias { name: "Name".to_string(), target: TypeExpr::String })
    );
    assert_eq!(
        generate_struct("Ratio".to_string(), Type::Number(NumberFormat::Double), &Options::new()),
        Ok(Definition::Alias { name: "Ratio".to_string(), target: TypeExpr::Float64 })
    );
}

#[test]
fn one_of_becomes_a_union() {
    let options = with_derives(&["Clone"]);
    let definition = generate_enum(
        "Animal".to_string(),
        vec![reference("Cat"), reference("Dog"), inline(Type::String)],
        &options,
    );
    assert_eq!(
        definition,
        Ok(Definition::Union {
            name: "Animal".to_string(),
            derives: strings(&["Debug", "Clone"]),
            decorations: vec![],
            variants: vec![
                UnionVariant {
                    name: "Cat".to_string(),
                    payload: TypeExpr::Named("Cat".to_string()),
                },
                UnionVariant {
                    name: "Dog".to_string(),
                    payload: TypeExpr::Named("Dog".to_string()),
                },
                UnionVariant { name: "String".to_string(), payload: TypeExpr::String },
            ],
        })
    );
}

#[test]
fn union_text_has_one_tuple_variant_per_alternative() {
    let kind = SchemaKind::OneOf(vec![reference("Cat"), reference("Dog")]);
    let text = generate(catalogue(vec![("Animal", kind)]), &with_derives(&["Clone"])).unwrap();
    assert_eq!(text, "#[derive(Debug, Clone)]\npub enum Animal {\n    Cat(Cat),\n    Dog(Dog),\n}");
}

#[test]
fn any_of_is_treated_like_one_of() {
    let kind = SchemaKind::AnyOf(vec![reference("Cat")]);
    let text = generate(catalogue(vec![("Animal", kind)]), &Options::new()).unwrap();
    assert_eq!(text, "#[derive(Debug)]\npub enum Animal {\n    Cat(Cat),\n}");
}

#[test]
fn union_has_the_container_decorations_and_no_field_decorations() {
    let mut options = Options::new();
    options.container_attrs = vec![decoration("#[one]", &[]), decoration("#[two]", &["Animal"])];
    options.field_attrs = vec![decoration("#[three]", &[])];
    let kind = SchemaKind::OneOf(vec![reference("Cat")]);
    let text = generate(catalogue(vec![("Animal", kind)]), &options).unwrap();
    assert_eq!(text, "#[one]\n\n#[derive(Debug)]\npub enum Animal {\n    Cat(Cat),\n}");
    let definition =
        generate_enum("Animal".to_string(), vec![reference("Cat")], &options).unwrap();
    match definition {
        Definition::Union { decorations, .. } => assert_eq!(decorations, strings(&["#[one]"])),
        other => panic!("expected a union, got {:?}", other),
    }
}

#[test]
fn union_alternatives_are_never_optional() {
    let definition = generate_enum(
        "Value".to_string(),
        vec![inline(Type::Array(ArrayType { items: Some(inline(Type::Boolean)) }))],
        &Options::new(),
    )
    .unwrap();
    match definition {
        Definition::Union { variants, .. } => {
            assert_eq!(variants.len(), 1);
            assert_eq!(variants[0].name, "Vec<bool>");
            assert_eq!(variants[0].payload, TypeExpr::Sequence(Box::new(TypeExpr::Bool)));
        },
        other => panic!("expected a union, got {:?}", other),
    }
}

#[test]
fn definitions_follow_the_order_of_the_names() {
    let schemas = catalogue(vec![
        ("Zebra", SchemaKind::Type(Type::String)),
        ("Ant", SchemaKind::Type(Type::Boolean)),
        ("Mole", SchemaKind::Type(Type::Integer(IntegerFormat::Int32))),
    ]);
    let text = generate(schemas, &Options::new()).unwrap();
    assert_eq!(text, "pub type Ant = bool;\n\npub type Mole = i32;\n\npub type Zebra = String;");
}

#[test]
fn all_of_at_the_top_is_refused() {
    let r = generate(catalogue(vec![("Mixed", SchemaKind::AllOf)]), &Options::new());
    assert_eq!(unsupported(r), ("Mixed".to_string(), Unsupported::Combinator));
}

#[test]
fn not_at_the_top_is_refused() {
    let r = generate(catalogue(vec![("Never", SchemaKind::Not)]), &Options::new());
    assert_eq!(unsupported(r), ("Never".to_string(), Unsupported::Combinator));
}

#[test]
fn unrecognised_schema_at_the_top_is_refused() {
    let r = generate(catalogue(vec![("What", SchemaKind::Any)]), &Options::new());
    assert_eq!(unsupported(r), ("What".to_string(), Unsupported::Combinator));
}

#[test]
fn all_of_in_a_property_is_refused() {
    let object = Type::Object(ObjectType {
        required: vec![],
        properties: vec![
            property("fine", inline(Type::String)),
            property("mixed", SchemaRef::Inline(Box::new(SchemaKind::AllOf))),
        ],
    });
    let r = generate(
        catalogue(vec![("Good", SchemaKind::Type(Type::String)), ("Holder", SchemaKind::Type(object))]),
        &Options::new(),
    );
    assert_eq!(unsupported(r), ("Holder".to_string(), Unsupported::Combinator));
}

#[test]
fn not_in_array_items_is_refused() {
    let array =
        Type::Array(ArrayType { items: Some(SchemaRef::Inline(Box::new(SchemaKind::Not))) });
    let r = generate(catalogue(vec![("List", SchemaKind::Type(array))]), &Options::new());
    assert_eq!(unsupported(r), ("List".to_string(), Unsupported::Combinator));
}

#[test]
fn all_of_in_a_union_alternative_is_refused() {
    let kind =
        SchemaKind::OneOf(vec![reference("Cat"), SchemaRef::Inline(Box::new(SchemaKind::AllOf))]);
    let r = generate(catalogue(vec![("Animal", kind)]), &Options::new());
    assert_eq!(unsupported(r), ("Animal".to_string(), Unsupported::Combinator));
}

#[test]
fn nested_object_in_a_property_is_refused() {
    let inner = Type::Object(ObjectType { required: vec![], properties: vec![] });
    let object = Type::Object(ObjectType {
        required: vec![],
        properties: vec![property("inner", inline(inner))],
    });
    let r = generate(catalogue(vec![("Outer", SchemaKind::Type(object))]), &Options::new());
    assert_eq!(unsupported(r), ("Outer".to_string(), Unsupported::NestedObject));
}

#[test]
fn malformed_reference_in_a_property_is_refused() {
    let object = Type::Object(ObjectType {
        required: vec![],
        properties: vec![property(
            "pet",
            SchemaRef::Reference("#/components/responses/Pet".to_string()),
        )],
    });
    let r = generate_for_schema("Owner".to_string(), SchemaKind::Type(object), &Options::new());
    match r {
        Err(GenError::Unsupported { schema, reason }) => {
            assert_eq!(schema, "Owner");
            assert_eq!(reason, Unsupported::Reference);
        },
        other => panic!("expected an unsupported schema, got {:?}", other),
    }
}

#[test]
fn the_first_failing_schema_is_reported() {
    let schemas = catalogue(vec![
        ("C", SchemaKind::Not),
        ("B", SchemaKind::Type(Type::Array(ArrayType { items: None }))),
        ("A", SchemaKind::Type(Type::String)),
    ]);
    let r = generate(schemas, &Options::new());
    assert_eq!(unsupported(r), ("B".to_string(), Unsupported::MissingItems));
}

#[test]
fn the_first_failing_property_is_reported() {
    let object = Type::Object(ObjectType {
        required: vec![],
        properties: vec![
            property("a", SchemaRef::Reference("nowhere".to_string())),
            property("b", SchemaRef::Inline(Box::new(SchemaKind::Not))),
        ],
    });
    assert_eq!(
        generate_struct("Thing".to_string(), object, &Options::new()),
        Err(Unsupported::Reference)
    );
}

#[test]
fn empty_catalogue_gives_empty_text() {
    assert_eq!(generate(Catalogue::new(), &Options::new()).unwrap(), "");
}

#[test]
fn generation_gives_the_same_text_every_time() {
    let make = || {
        catalogue(vec![
            ("Pet", SchemaKind::Type(pet())),
            ("Animal", SchemaKind::OneOf(vec![reference("Pet")])),
        ])
    };
    let options = with_derives(&["Clone"]);
    let first = generate(make(), &options).unwrap();
    let second = generate(make(), &options).unwrap();
    assert_eq!(first, second);
}

#[test]
fn module_holds_imports_and_definitions() {
    let mut options = Options::new();
    options.imports = vec![Import { path: "serde".to_string(), name: "Serialize".to_string() }];
    let module =
        build_module(catalogue(vec![("Name", SchemaKind::Type(Type::String))]), &options).unwrap();
    assert_eq!(
        module,
        GeneratedModule {
            imports: vec![Import { path: "serde".to_string(), name: "Serialize".to_string() }],
            definitions: vec![Definition::Alias {
                name: "Name".to_string(),
                target: TypeExpr::String
            }],
        }
    );
    assert_eq!(module.render(), "use serde::Serialize;\n\npub type Name = String;");
}
