use openapi_struct_gen::error::GenError;
use openapi_struct_gen::input::from_json;
use openapi_struct_gen::input::from_yaml;
use openapi_struct_gen::input::input_format;
use openapi_struct_gen::input::read_document;
use openapi_struct_gen::input::InputFormat;
use openapi_struct_gen::types::Unsupported;

#[test]
fn json_extension_selects_json() {
    assert!(matches!(input_format(Some("json")), Ok(InputFormat::Json)));
}

#[test]
fn yaml_extensions_select_yaml() {
    assert!(matches!(input_format(Some("yaml")), Ok(InputFormat::Yaml)));
    assert!(matches!(input_format(Some("yml")), Ok(InputFormat::Yaml)));
}

#[test]
fn other_extension_is_refused_with_the_extension() {
    match input_format(Some("toml")) {
        Err(GenError::WrongFileExtension(Some(e))) => assert_eq!(e, "toml"),
        other => panic!("expected a wrong extension, got {:?}", other),
    }
    match input_format(Some("JSON")) {
        Err(GenError::WrongFileExtension(Some(e))) => assert_eq!(e, "JSON"),
        other => panic!("expected a wrong extension, got {:?}", other),
    }
}

#[test]
fn missing_extension_is_refused() {
    assert!(matches!(input_format(None), Err(GenError::WrongFileExtension(None))));
}

#[test]
fn message_of_a_wrong_extension() {
    assert_eq!(
        GenError::WrongFileExtension(Some("toml".to_string())).message(),
        "Bad file type: toml"
    );
    assert_eq!(GenError::WrongFileExtension(None).message(), "Bad file type");
}

#[test]
fn message_of_an_io_error() {
    let e = std::io::Error::new(std::io::ErrorKind::NotFound, "no such file");
    let expected = format!("Io error occurred: {}", e);
    assert_eq!(GenError::from(e).message(), expected);
}

#[test]
fn message_of_a_json_error() {
    let e = serde_json::from_str::<serde_json::Value>("{").unwrap_err();
    let expected = format!("Json deserialization error occurred: {}", e);
    let error = GenError::from(e);
    assert!(matches!(error, GenError::JsonError(_)));
    assert_eq!(error.message(), expected);
}

#[test]
fn message_of_a_yaml_error() {
    let e = serde_yaml::from_str::<serde_yaml::Value>("a: [").unwrap_err();
    let expected = format!("Yaml deserialization error occurred: {}", e);
    let error = GenError::from(e);
    assert!(matches!(error, GenError::YamlError(_)));
    assert_eq!(error.message(), expected);
}

#[test]
fn message_of_an_unsupported_schema_names_it() {
    let e = GenError::Unsupported { schema: "Pet".to_string(), reason: Unsupported::NestedObject };
    assert_eq!(e.message(), "Unsupported schema Pet: an object below the top level is not supported");
    let e = GenError::Unsupported { schema: "Mixed".to_string(), reason: Unsupported::Combinator };
    assert_eq!(
        e.message(),
        "Unsupported schema Mixed: 'allOf', 'not' and 'any' are not supported, nor 'oneOf' and 'anyOf' below the top level"
    );
    assert_eq!(
        Unsupported::Reference.text(),
        "only references to '#/components/schemas' are supported"
    );
    assert_eq!(Unsupported::MissingItems.text(), "an array needs an item schema");
}

const JSON: &str = r#"{"openapi": "3.0.0", "info": {"title": "Pets", "version": "1"}, "paths": {}}"#;

const YAML: &str = "openapi: 3.0.0\ninfo:\n  title: Pets\n  version: '1'\npaths: {}\n";

#[test]
fn json_text_is_read_as_json() {
    let document = read_document(Some("json"), JSON).unwrap();
    assert_eq!(document.info.title, "Pets");
    assert!(document.paths.paths.is_empty());
}

#[test]
fn yaml_text_is_read_as_yaml() {
    let document = read_document(Some("yaml"), YAML).unwrap();
    assert_eq!(document.info.title, "Pets");
    let document = read_document(Some("yml"), YAML).unwrap();
    assert_eq!(document.info.version, "1");
}

#[test]
fn malformed_json_is_a_json_error() {
    assert!(matches!(read_document(Some("json"), "{"), Err(GenError::JsonError(_))));
    assert!(matches!(read_document(Some("json"), YAML), Err(GenError::JsonError(_))));
}

#[test]
fn malformed_yaml_is_a_yaml_error() {
    assert!(matches!(read_document(Some("yaml"), "a: ["), Err(GenError::YamlError(_))));
    assert!(matches!(read_document(Some("yml"), "just text"), Err(GenError::YamlError(_))));
}

#[test]
fn wrong_extension_is_refused_before_parsing() {
    assert!(matches!(
        read_document(Some("toml"), JSON),
        Err(GenError::WrongFileExtension(Some(e))) if e == "toml"
    ));
    assert!(matches!(read_document(None, JSON), Err(GenError::WrongFileExtension(None))));
}

#[test]
fn parser_results_keep_their_side() {
    let parsed = serde_json::from_str::<openapiv3::OpenAPI>(JSON);
    assert_eq!(from_json(parsed).unwrap().info.title, "Pets");
    let parsed = serde_json::from_str::<openapiv3::OpenAPI>("[");
    assert!(matches!(from_json(parsed), Err(GenError::JsonError(_))));
    let parsed = serde_yaml::from_str::<openapiv3::OpenAPI>(YAML);
    assert_eq!(from_yaml(parsed).unwrap().info.title, "Pets");
    let parsed = serde_yaml::from_str::<openapiv3::OpenAPI>("[");
    assert!(matches!(from_yaml(parsed), Err(GenError::YamlError(_))));
}
