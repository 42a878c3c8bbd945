//! The errors of code generation.

use vstd::prelude::*;
use vstd::string::StringExecFns;
use vstd::string::to_string_from_display_ensures;
use crate::types::Unsupported;

verus! {

/// An I/O error of the standard library, carried through untouched.
#[verifier::external_type_specification]
#[verifier::external_body]
pub struct ExIoError(std::io::Error);

/// A deserialization error of `serde_json`, carried through untouched.
#[verifier::external_type_specification]
#[verifier::external_body]
pub struct ExJsonError(serde_json::Error);

/// A deserialization error of `serde_yaml`, carried through untouched.
#[verifier::external_type_specification]
#[verifier::external_body]
pub struct ExYamlError(serde_yaml::Error);

/// Why generation failed.
#[derive(Debug)]
pub enum GenError {
    /// Reading the input or writing the output failed.
    IoError(std::io::Error),
    /// The input is not a JSON document of the expected form.
    JsonError(serde_json::Error),
    /// The input is not a YAML document of the expected form.
    YamlError(serde_yaml::Error),
    /// The input file's extension names no known format.
    WrongFileExtension(Option<String>),
    /// A schema uses a construct that has no type.
    Unsupported { schema: String, reason: Unsupported },
}

impl From<std::io::Error> for GenError {
    fn from(e: std::io::Error) -> (r: GenError) {
        GenError::IoError(e)
    }
}

impl vstd::std_specs::convert::FromSpecImpl<std::io::Error> for GenError {
    open spec fn obeys_from_spec() -> bool {
        true
    }

    open spec fn from_spec(e: std::io::Error) -> GenError {
        GenError::IoError(e)
    }
}

impl From<serde_json::Error> for GenError {
    fn from(e: serde_json::Error) -> (r: GenError) {
        GenError::JsonError(e)
    }
}

impl vstd::std_specs::convert::FromSpecImpl<serde_json::Error> for GenError {
    open spec fn obeys_from_spec() -> bool {
        true
    }

    open spec fn from_spec(e: serde_json::Error) -> GenError {
        GenError::JsonError(e)
    }
}

impl From<serde_yaml::Error> for GenError {
    fn from(e: serde_yaml::Error) -> (r: GenError) {
        GenError::YamlError(e)
    }
}

impl vstd::std_specs::convert::FromSpecImpl<serde_yaml::Error> for GenError {
    open spec fn obeys_from_spec() -> bool {
        true
    }

    open spec fn from_spec(e: serde_yaml::Error) -> GenError {
        GenError::YamlError(e)
    }
}

/// How a reason reads in a message.
pub open spec fn reason_text(reason: Unsupported) -> Seq<char> {
    match reason {
        Unsupported::Combinator => "'allOf', 'not' and 'any' are not supported, nor 'oneOf' and 'anyOf' below the top level"@,
        Unsupported::NestedObject => "an object below the top level is not supported"@,
        Unsupported::Reference => "only references to '#/components/schemas' are supported"@,
        Unsupported::MissingItems => "an array needs an item schema"@,
    }
}

impl Unsupported {
    /// The reason in words.
    pub fn text(&self) -> (r: &'static str)
        ensures
            r@ == reason_text(*self),
    {
        match self {
            Unsupported::Combinator => "'allOf', 'not' and 'any' are not supported, nor 'oneOf' and 'anyOf' below the top level",
            Unsupported::NestedObject => "an object below the top level is not supported",
            Unsupported::Reference => "only references to '#/components/schemas' are supported",
            Unsupported::MissingItems => "an array needs an item schema",
        }
    }
}

impl GenError {
    /// Whether this is the error for `schema` failing for `reason`.
    pub open spec fn is_unsupported(&self, schema: Seq<char>, reason: Unsupported) -> bool {
        match self {
            GenError::Unsupported { schema: s, reason: r } => s@ == schema && *r == reason,
            _ => false,
        }
    }

    /// What the message says, given the text `detail` of the error carried
    /// inside, where there is one.
    pub open spec fn message_with(&self, detail: Seq<char>) -> Seq<char> {
        match self {
            GenError::IoError(_) => "Io error occurred: "@ + detail,
            GenError::JsonError(_) => "Json deserialization error occurred: "@ + detail,
            GenError::YamlError(_) => "Yaml deserialization error occurred: "@ + detail,
            GenError::WrongFileExtension(Some(extension)) => "Bad file type: "@ + extension@,
            GenError::WrongFileExtension(None) => "Bad file type"@,
            GenError::Unsupported { schema, reason } => "Unsupported schema "@ + schema@ + ": "@
                + reason_text(*reason),
        }
    }

    /// Whether `detail` is the text of the error carried inside.
    pub open spec fn has_detail(&self, detail: String) -> bool {
        match self {
            GenError::IoError(e) => to_string_from_display_ensures::<std::io::Error>(e, detail),
            GenError::JsonError(e) => to_string_from_display_ensures::<serde_json::Error>(
                e,
                detail,
            ),
            GenError::YamlError(e) => to_string_from_display_ensures::<serde_yaml::Error>(
                e,
                detail,
            ),
            _ => detail@ == Seq::<char>::empty(),
        }
    }

    /// The error as one line of text.
    pub fn message(&self) -> (r: String)
        ensures
            exists|detail: String| self.has_detail(detail) && r@ == self.message_with(detail@),
    {
        match self {
            GenError::IoError(e) => {
                let detail = e.to_string();
                let r = String::from_str("Io error occurred: ").concat(detail.as_str());
                assert(self.has_detail(detail) && r@ == self.message_with(detail@));
                r
            },
            GenError::JsonError(e) => {
                let detail = e.to_string();
                let r = String::from_str("Json deserialization error occurred: ").concat(
                    detail.as_str(),
                );
                assert(self.has_detail(detail) && r@ == self.message_with(detail@));
                r
            },
            GenError::YamlError(e) => {
                let detail = e.to_string();
                let r = String::from_str("Yaml deserialization error occurred: ").concat(
                    detail.as_str(),
                );
                assert(self.has_detail(detail) && r@ == self.message_with(detail@));
                r
            },
            GenError::WrongFileExtension(Some(extension)) => {
                let detail = String::new();
                let r = String::from_str("Bad file type: ").concat(extension.as_str());
                assert(self.has_detail(detail) && r@ == self.message_with(detail@));
                r
            },
            GenError::WrongFileExtension(None) => {
                let detail = String::new();
                let r = String::from_str("Bad file type");
                assert(self.has_detail(detail) && r@ == self.message_with(detail@));
                r
            },
            GenError::Unsupported { schema, reason } => {
                let detail = String::new();
                let r = String::from_str("Unsupported schema ").concat(schema.as_str()).concat(
                    ": ",
                ).concat(reason.text());
                assert(self.has_detail(detail) && r@ == self.message_with(detail@));
                r
            },
        }
    }
}

} // verus!
