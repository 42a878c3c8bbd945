//! Reading a description: the format is chosen by the extension of the file's
//! name, and the text is handed to the parser of that format.

use vstd::prelude::*;
use crate::error::GenError;
use crate::text::str_equal;

verus! {

/// `openapiv3::OpenAPI`: a parsed description, carried through untouched.
#[verifier::external_type_specification]
#[verifier::external_body]
pub struct ExOpenApi(openapiv3::OpenAPI);

/// A format in which a description can be written.
#[derive(Clone, Copy, Debug, PartialEq, Eq, Structural)]
pub enum InputFormat {
    Json,
    Yaml,
}

/// The format that an extension stands for: `json`, or `yaml` and `yml`.
pub open spec fn format_of(extension: Seq<char>) -> Option<InputFormat> {
    if extension == "json"@ {
        Some(InputFormat::Json)
    } else if extension == "yaml"@ || extension == "yml"@ {
        Some(InputFormat::Yaml)
    } else {
        None
    }
}

/// The format of an optional extension.
pub open spec fn format_for(extension: Option<&str>) -> Option<InputFormat> {
    match extension {
        Some(e) => format_of(e@),
        None => None,
    }
}

/// What `serde_json` makes of a text as a description: the description, or
/// the parser's error.
pub uninterp spec fn json_outcome(data: Seq<char>) -> Result<openapiv3::OpenAPI, serde_json::Error>;

/// What `serde_yaml` makes of a text as a description: the description, or
/// the parser's error.
pub uninterp spec fn yaml_outcome(data: Seq<char>) -> Result<openapiv3::OpenAPI, serde_yaml::Error>;

/// `serde_json::from_str` for a description. Whether a text parses, and to
/// what, depends on the text alone; the contract gives the outcome a name and
/// claims nothing else.
#[verifier::external_body]
fn parse_json(data: &str) -> (r: Result<openapiv3::OpenAPI, serde_json::Error>)
    ensures
        r == json_outcome(data@),
{
    serde_json::from_str(data)
}

/// `serde_yaml::from_str` for a description. Whether a text parses, and to
/// what, depends on the text alone; the contract gives the outcome a name and
/// claims nothing else.
#[verifier::external_body]
fn parse_yaml(data: &str) -> (r: Result<openapiv3::OpenAPI, serde_yaml::Error>)
    ensures
        r == yaml_outcome(data@),
{
    serde_yaml::from_str(data)
}

/// The outcome of the JSON parser as a result of the library: the description
/// as it is, or the parser's error as [`GenError::JsonError`].
pub open spec fn json_result(parsed: Result<openapiv3::OpenAPI, serde_json::Error>) -> Result<
    openapiv3::OpenAPI,
    GenError,
> {
    match parsed {
        Ok(document) => Ok(document),
        Err(e) => Err(GenError::JsonError(e)),
    }
}

/// The outcome of the YAML parser as a result of the library: the description
/// as it is, or the parser's error as [`GenError::YamlError`].
pub open spec fn yaml_result(parsed: Result<openapiv3::OpenAPI, serde_yaml::Error>) -> Result<
    openapiv3::OpenAPI,
    GenError,
> {
    match parsed {
        Ok(document) => Ok(document),
        Err(e) => Err(GenError::YamlError(e)),
    }
}

/// The format of a file with the given extension. Any other extension, or
/// none, is refused with an error that carries it.
pub fn input_format(extension: Option<&str>) -> (r: Result<InputFormat, GenError>)
    ensures
        (match r {
            Ok(format) => format_for(extension) == Some(format),
            Err(GenError::WrongFileExtension(Some(refused))) => extension matches Some(e)
                && refused@ == e@ && format_of(e@) is None,
            Err(GenError::WrongFileExtension(None)) => extension is None,
            Err(_) => false,
        }),
{
    match extension {
        Some(e) => {
            if str_equal(e, "json") {
                Ok(InputFormat::Json)
            } else if str_equal(e, "yaml") || str_equal(e, "yml") {
                Ok(InputFormat::Yaml)
            } else {
                Err(GenError::WrongFileExtension(Some(e.to_owned())))
            }
        },
        None => Err(GenError::WrongFileExtension(None)),
    }
}

/// What the JSON parser returned, as a result of the library: the description
/// as it is, or the parser's error as [`GenError::JsonError`].
pub fn from_json(parsed: Result<openapiv3::OpenAPI, serde_json::Error>) -> (r: Result<
    openapiv3::OpenAPI,
    GenError,
>)
    ensures
        r == json_result(parsed),
{
    match parsed {
        Ok(document) => Ok(document),
        Err(e) => Err(GenError::from(e)),
    }
}

/// What the YAML parser returned, as a result of the library: the description
/// as it is, or the parser's error as [`GenError::YamlError`].
pub fn from_yaml(parsed: Result<openapiv3::OpenAPI, serde_yaml::Error>) -> (r: Result<
    openapiv3::OpenAPI,
    GenError,
>)
    ensures
        r == yaml_result(parsed),
{
    match parsed {
        Ok(document) => Ok(document),
        Err(e) => Err(GenError::from(e)),
    }
}

/// What reading owes: for an extension that names a format, what the parser
/// of the format makes of the text; for any other, the error that carries the
/// extension.
pub open spec fn was_read(
    extension: Option<&str>,
    data: Seq<char>,
    r: Result<openapiv3::OpenAPI, GenError>,
) -> bool {
    match format_for(extension) {
        Some(InputFormat::Json) => r == json_result(json_outcome(data)),
        Some(InputFormat::Yaml) => r == yaml_result(yaml_outcome(data)),
        None => match r {
            Err(GenError::WrongFileExtension(Some(refused))) => extension matches Some(e)
                && refused@ == e@,
            Err(GenError::WrongFileExtension(None)) => extension is None,
            _ => false,
        },
    }
}

/// Parses the text of a file whose name has the given extension.
///
/// An extension that names no format is refused before anything is parsed,
/// with an error that carries it. Otherwise the text is handed to the parser
/// of the format: the result is the description that the parser makes of the
/// text, or the parser's error as the error of that format.
pub fn read_document(extension: Option<&str>, data: &str) -> (r: Result<
    openapiv3::OpenAPI,
    GenError,
>)
    ensures
        was_read(extension, data@, r),
{
    match input_format(extension) {
        Ok(InputFormat::Json) => from_json(parse_json(data)),
        Ok(InputFormat::Yaml) => from_yaml(parse_yaml(data)),
        Err(e) => Err(e),
    }
}

} // verus!
