use openapi_struct_gen::schema::ArrayType;
use openapi_struct_gen::schema::IntegerFormat;
use openapi_struct_gen::schema::NumberFormat;
use openapi_struct_gen::schema::ObjectType;
use openapi_struct_gen::schema::SchemaKind;
use openapi_struct_gen::schema::SchemaRef;
use openapi_struct_gen::schema::Type;
use openapi_struct_gen::types::gen_array_type;
use openapi_struct_gen::types::gen_property_type_for_schema_kind;
use openapi_struct_gen::types::gen_type_name_for_type;
use openapi_struct_gen::types::get_integer_type;
use openapi_struct_gen::types::get_number_type;
use openapi_struct_gen::types::get_property_type_from_schema_refor;
use openapi_struct_gen::types::handle_reference;
use openapi_struct_gen::types::TypeExpr;
use openapi_struct_gen::types::Unsupported;

fn inline(t: Type) -> SchemaRef {
    SchemaRef::Inline(Box::new(SchemaKind::Type(t)))
}

fn reference(s: &str) -> SchemaRef {
    SchemaRef::Reference(s.to_string())
}

fn array_of(items: SchemaRef) -> Type {
    Type::Array(ArrayType { items: Some(items) })
}

fn empty_object() -> Type {
    Type::Object(ObjectType { required: vec![], properties: vec![] })
}

#[test]
fn integer_is_64_bits_only_when_the_format_says_so() {
    assert_eq!(get_integer_type(IntegerFormat::Int64), TypeExpr::Int64);
    assert_eq!(get_integer_type(IntegerFormat::Int32), TypeExpr::Int32);
    assert_eq!(get_integer_type(IntegerFormat::Unspecified), TypeExpr::Int32);
}

#[test]
fn number_is_double_only_when_the_format_says_so() {
    assert_eq!(get_number_type(NumberFormat::Double), TypeExpr::Float64);
    assert_eq!(get_number_type(NumberFormat::Float), TypeExpr::Float32);
    assert_eq!(get_number_type(NumberFormat::Unspecified), TypeExpr::Float32);
}

#[test]
fn plain_types_map_to_primitives() {
    assert_eq!(gen_type_name_for_type(Type::String), Ok(TypeExpr::String));
    assert_eq!(gen_type_name_for_type(Type::Boolean), Ok(TypeExpr::Bool));
    assert_eq!(
        gen_type_name_for_type(Type::Integer(IntegerFormat::Int64)),
        Ok(TypeExpr::Int64)
    );
    assert_eq!(
        gen_type_name_for_type(Type::Number(NumberFormat::Double)),
        Ok(TypeExpr::Float64)
    );
}

#[test]
fn nested_object_is_refused() {
    assert_eq!(gen_type_name_for_type(empty_object()), Err(Unsupported::NestedObject));
    assert_eq!(
        get_property_type_from_schema_refor(inline(empty_object()), true),
        Err(Unsupported::NestedObject)
    );
    assert_eq!(
        get_property_type_from_schema_refor(inline(array_of(inline(empty_object()))), false),
        Err(Unsupported::NestedObject)
    );
}

#[test]
fn array_is_a_sequence_of_its_items() {
    assert_eq!(
        gen_array_type(ArrayType { items: Some(inline(Type::String)) }),
        Ok(TypeExpr::Sequence(Box::new(TypeExpr::String)))
    );
    assert_eq!(
        gen_array_type(ArrayType { items: Some(reference("#/components/schemas/Pet")) }),
        Ok(TypeExpr::Sequence(Box::new(TypeExpr::Named("Pet".to_string()))))
    );
}

#[test]
fn array_without_items_is_refused() {
    assert_eq!(gen_array_type(ArrayType { items: None }), Err(Unsupported::MissingItems));
}

#[test]
fn required_position_keeps_its_type() {
    assert_eq!(
        get_property_type_from_schema_refor(inline(Type::Integer(IntegerFormat::Int64)), true),
        Ok(TypeExpr::Int64)
    );
}

#[test]
fn optional_position_is_wrapped() {
    assert_eq!(
        get_property_type_from_schema_refor(inline(Type::String), false),
        Ok(TypeExpr::Optional(Box::new(TypeExpr::String)))
    );
    assert_eq!(
        get_property_type_from_schema_refor(reference("#/components/schemas/Pet"), false),
        Ok(TypeExpr::Optional(Box::new(TypeExpr::Named("Pet".to_string()))))
    );
}

#[test]
fn array_items_stay_required_in_an_optional_array() {
    assert_eq!(
        get_property_type_from_schema_refor(inline(array_of(inline(Type::String))), false),
        Ok(TypeExpr::Optional(Box::new(TypeExpr::Sequence(Box::new(TypeExpr::String)))))
    );
    assert_eq!(
        get_property_type_from_schema_refor(inline(array_of(inline(Type::String))), true),
        Ok(TypeExpr::Sequence(Box::new(TypeExpr::String)))
    );
    assert_eq!(
        get_property_type_from_schema_refor(
            inline(array_of(inline(array_of(inline(Type::Boolean))))),
            false
        ),
        Ok(TypeExpr::Optional(Box::new(TypeExpr::Sequence(Box::new(TypeExpr::Sequence(
            Box::new(TypeExpr::Bool)
        ))))))
    );
}

#[test]
fn schema_reference_resolves_to_its_name() {
    assert_eq!(
        handle_reference("#/components/schemas/Foo".to_string()),
        Ok("Foo".to_string())
    );
    assert_eq!(
        get_property_type_from_schema_refor(reference("#/components/schemas/Foo"), true),
        Ok(TypeExpr::Named("Foo".to_string()))
    );
}

#[test]
fn reference_of_another_length_is_refused() {
    assert_eq!(
        handle_reference("#/components/schemas/Foo/properties/bar".to_string()),
        Err(Unsupported::Reference)
    );
    assert_eq!(
        handle_reference("#/components/schemas/Foo/Bar".to_string()),
        Err(Unsupported::Reference)
    );
    assert_eq!(handle_reference("#/components/schemas".to_string()), Err(Unsupported::Reference));
    assert_eq!(handle_reference("#/components".to_string()), Err(Unsupported::Reference));
    assert_eq!(handle_reference("#".to_string()), Err(Unsupported::Reference));
    assert_eq!(handle_reference("Foo".to_string()), Err(Unsupported::Reference));
    assert_eq!(handle_reference("".to_string()), Err(Unsupported::Reference));
    assert_eq!(
        get_property_type_from_schema_refor(
            reference("#/components/schemas/Foo/properties/bar"),
            true
        ),
        Err(Unsupported::Reference)
    );
}

#[test]
fn reference_without_a_name_is_refused() {
    assert_eq!(handle_reference("#/components/schemas/".to_string()), Err(Unsupported::Reference));
}

#[test]
fn reference_that_does_not_start_at_the_root_is_refused() {
    assert_eq!(
        handle_reference("/components/schemas/Foo".to_string()),
        Err(Unsupported::Reference)
    );
    assert_eq!(
        handle_reference("x/components/schemas/Foo".to_string()),
        Err(Unsupported::Reference)
    );
}

#[test]
fn reference_outside_the_schemas_is_refused() {
    assert_eq!(
        handle_reference("#/components/responses/Foo".to_string()),
        Err(Unsupported::Reference)
    );
    assert_eq!(
        handle_reference("#/definitions/schemas/Foo".to_string()),
        Err(Unsupported::Reference)
    );
    assert_eq!(
        handle_reference("other.yaml#/components/schemas/Foo".to_string()),
        Err(Unsupported::Reference)
    );
    assert_eq!(handle_reference("#/components".to_string()), Err(Unsupported::Reference));
    assert_eq!(handle_reference("".to_string()), Err(Unsupported::Reference));
    assert_eq!(
        get_property_type_from_schema_refor(reference("#/components/responses/Foo"), false),
        Err(Unsupported::Reference)
    );
}

#[test]
fn combinators_below_the_top_level_are_refused() {
    assert_eq!(gen_property_type_for_schema_kind(SchemaKind::AllOf), Err(Unsupported::Combinator));
    assert_eq!(gen_property_type_for_schema_kind(SchemaKind::Not), Err(Unsupported::Combinator));
    assert_eq!(gen_property_type_for_schema_kind(SchemaKind::Any), Err(Unsupported::Combinator));
    assert_eq!(
        gen_property_type_for_schema_kind(SchemaKind::OneOf(vec![inline(Type::String)])),
        Err(Unsupported::Combinator)
    );
    assert_eq!(
        gen_property_type_for_schema_kind(SchemaKind::AnyOf(vec![])),
        Err(Unsupported::Combinator)
    );
    assert_eq!(
        get_property_type_from_schema_refor(
            inline(array_of(SchemaRef::Inline(Box::new(SchemaKind::Not)))),
            true
        ),
        Err(Unsupported::Combinator)
    );
}

#[test]
fn type_text_of_every_shape() {
    assert_eq!(TypeExpr::Bool.text(), "bool");
    assert_eq!(TypeExpr::String.text(), "String");
    assert_eq!(TypeExpr::Float32.text(), "f32");
    assert_eq!(TypeExpr::Float64.text(), "f64");
    assert_eq!(TypeExpr::Int32.text(), "i32");
    assert_eq!(TypeExpr::Int64.text(), "i64");
    assert_eq!(TypeExpr::DynamicMap.text(), "serde_json::Map<String, serde_json::Value>");
    assert_eq!(TypeExpr::Named("Pet".to_string()).text(), "Pet");
    assert_eq!(TypeExpr::Sequence(Box::new(TypeExpr::Int64)).text(), "Vec<i64>");
    assert_eq!(
        TypeExpr::Optional(Box::new(TypeExpr::Sequence(Box::new(TypeExpr::Named(
            "Pet".to_string()
        )))))
        .text(),
        "Option<Vec<Pet>>"
    );
}
