use openapi_struct_gen::catalogue::Catalogue;
use openapi_struct_gen::catalogue::NamedSchema;
use openapi_struct_gen::document::Components;
use openapi_struct_gen::document::MediaType;
use openapi_struct_gen::document::ReferenceOr;
use openapi_struct_gen::document::RequestBody;
use openapi_struct_gen::document::Response;
use openapi_struct_gen::document::SchemaDocument;
use openapi_struct_gen::naming::join_request_body_name;
use openapi_struct_gen::naming::join_response_name;
use openapi_struct_gen::parse::try_parse_schema;
use openapi_struct_gen::schema::SchemaKind;
use openapi_struct_gen::schema::SchemaRef;
use openapi_struct_gen::schema::Type;
use openapi_struct_gen::text::has_char;

fn untyped_response() -> SchemaDocument {
    SchemaDocument {
        components: Some(Components {
            schemas: vec![],
            responses: vec![(
                "Broken".to_string(),
                ReferenceOr::Item(Response {
                    content: vec![("json".to_string(), MediaType { schema: None })],
                }),
            )],
            request_bodies: vec![],
        }),
        paths: vec![],
    }
}

fn typed_body() -> SchemaDocument {
    SchemaDocument {
        components: Some(Components {
            schemas: vec![],
            responses: vec![],
            request_bodies: vec![(
                "NewPet".to_string(),
                ReferenceOr::Item(RequestBody {
                    content: vec![(
                        "application/json".to_string(),
                        MediaType {
                            schema: Some(SchemaRef::Inline(Box::new(SchemaKind::Type(
                                Type::String,
                            )))),
                        },
                    )],
                }),
            )],
        }),
        paths: vec![],
    }
}

#[test]
fn new_catalogue_is_empty() {
    let c = Catalogue::new();
    assert_eq!(c.len(), 0);
    assert_eq!(c.find("Pet"), None);
    assert_eq!(c.into_entries(), Vec::<NamedSchema>::new());
}

#[test]
fn insert_keeps_the_names_sorted() {
    let mut c = Catalogue::new();
    for name in ["m", "z", "a", "mm", "b", "M"] {
        c.insert(name.to_string(), SchemaKind::Type(Type::String));
    }
    let names: Vec<String> = c.into_entries().into_iter().map(|e| e.name).collect();
    assert_eq!(names, vec!["M", "a", "b", "m", "mm", "z"]);
}

#[test]
fn insert_order_does_not_matter() {
    let mut first = Catalogue::new();
    first.insert("a".to_string(), SchemaKind::Type(Type::String));
    first.insert("b".to_string(), SchemaKind::Type(Type::Boolean));
    let mut second = Catalogue::new();
    second.insert("b".to_string(), SchemaKind::Type(Type::Boolean));
    second.insert("a".to_string(), SchemaKind::Type(Type::String));
    assert_eq!(first, second);
}

#[test]
fn entry_gives_name_and_schema() {
    let mut c = Catalogue::new();
    c.insert("b".to_string(), SchemaKind::Not);
    c.insert("a".to_string(), SchemaKind::AllOf);
    assert_eq!(c.entry(0), &NamedSchema { name: "a".to_string(), kind: SchemaKind::AllOf });
    assert_eq!(c.entry(1), &NamedSchema { name: "b".to_string(), kind: SchemaKind::Not });
}

#[test]
fn find_looks_for_the_whole_name() {
    let mut c = Catalogue::new();
    c.insert("Pet".to_string(), SchemaKind::Type(Type::String));
    assert_eq!(c.find("Pet"), Some(&SchemaKind::Type(Type::String)));
    assert_eq!(c.find("Pe"), None);
    assert_eq!(c.find("Pets"), None);
    assert_eq!(c.find("pet"), None);
}

#[test]
fn document_with_an_untyped_media_type_is_not_collected() {
    assert!(!untyped_response().is_typed());
    assert!(try_parse_schema(untyped_response()).is_none());
}

#[test]
fn document_with_typed_media_types_is_collected() {
    assert!(typed_body().is_typed());
    let c = try_parse_schema(typed_body()).unwrap();
    assert_eq!(c.len(), 1);
    assert_eq!(c.find("NewPetJsonRequestBody"), Some(&SchemaKind::Type(Type::String)));
}

#[test]
fn references_are_typed_whatever_they_say() {
    let doc = SchemaDocument {
        components: None,
        paths: vec![("/x".to_string(), ReferenceOr::Reference("elsewhere".to_string()))],
    };
    assert!(doc.is_typed());
    assert!(SchemaDocument { components: None, paths: vec![] }.is_typed());
}

#[test]
fn names_are_joined_in_order() {
    assert_eq!(
        join_response_name("/pets/{id}".to_string(), "Get", "", "Json", true),
        "/pets/{id}GetJsonResponseDefault"
    );
    assert_eq!(
        join_response_name("/pets".to_string(), "Get", "404", "Json", false),
        "/petsGet404JsonResponse"
    );
    assert_eq!(join_response_name("".to_string(), "", "", "", false), "Response");
    assert_eq!(
        join_request_body_name("/pets".to_string(), "Post", "Json"),
        "/petsPostJsonRequestBody"
    );
}

#[test]
fn has_char_finds_the_separator() {
    assert!(has_char("application/json", '/'));
    assert!(has_char("/", '/'));
    assert!(!has_char("json", '/'));
    assert!(!has_char("", '/'));
}
