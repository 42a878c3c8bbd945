//! The shapes a schema can take, as far as code generation reads them.

use vstd::prelude::*;

verus! {

/// The declared precision of a `number` schema.
#[derive(Clone, Copy, Debug, PartialEq, Eq, Structural)]
pub enum NumberFormat {
    /// No format, or one that is not recognised.
    Unspecified,
    /// Single precision.
    Float,
    /// Double precision.
    Double,
}

/// The declared width of an `integer` schema.
#[derive(Clone, Copy, Debug, PartialEq, Eq, Structural)]
pub enum IntegerFormat {
    /// No format, or one that is not recognised.
    Unspecified,
    /// 32 bits.
    Int32,
    /// 64 bits.
    Int64,
}

/// A schema position: either a pointer to a named component or a schema
/// written in place.
#[derive(Debug, PartialEq, Eq)]
pub enum SchemaRef {
    /// A pointer such as `#/components/schemas/Pet`.
    Reference(String),
    /// A schema written in place.
    Inline(Box<SchemaKind>),
}

/// What a schema describes.
#[derive(Debug, PartialEq, Eq)]
pub enum SchemaKind {
    /// A plain type.
    Type(Type),
    /// Exactly one of the alternatives.
    OneOf(Vec<SchemaRef>),
    /// Any of the alternatives.
    AnyOf(Vec<SchemaRef>),
    /// A composition of several schemas.
    AllOf,
    /// The negation of a schema.
    Not,
    /// A schema that fits none of the other kinds.
    Any,
}

/// A plain type.
#[derive(Debug, PartialEq, Eq)]
pub enum Type {
    String,
    Number(NumberFormat),
    Integer(IntegerFormat),
    Boolean,
    Object(ObjectType),
    Array(ArrayType),
}

/// An array and the schema of its items.
#[derive(Debug, PartialEq, Eq)]
pub struct ArrayType {
    pub items: Option<SchemaRef>,
}

/// An object: its properties in document order and the names of those that
/// must be present.
#[derive(Debug, PartialEq, Eq)]
pub struct ObjectType {
    pub required: Vec<String>,
    pub properties: Vec<Property>,
}

/// One property of an object.
#[derive(Debug, PartialEq, Eq)]
pub struct Property {
    pub name: String,
    pub schema: SchemaRef,
}

} // verus!
