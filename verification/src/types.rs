//! Type resolution: from a schema position to the type expression that stands
//! for it in the generated code.

use vstd::prelude::*;
use vstd::string::StringExecFns;
use crate::schema::ArrayType;
use crate::schema::IntegerFormat;
use crate::schema::NumberFormat;
use crate::schema::SchemaKind;
use crate::schema::SchemaRef;
use crate::schema::Type;
use crate::text::split;
use crate::text::split_on;
use crate::text::str_equal;
use crate::text::texts;

verus! {

/// A resolved type.
#[derive(Debug, PartialEq, Eq)]
pub enum TypeExpr {
    /// `bool`.
    Bool,
    /// `String`.
    String,
    /// A number of single precision.
    Float32,
    /// A number of double precision.
    Float64,
    /// A signed integer of 32 bits.
    Int32,
    /// A signed integer of 64 bits.
    Int64,
    /// A map from names to values of any shape.
    DynamicMap,
    /// A sequence of elements of one type.
    Sequence(Box<TypeExpr>),
    /// A value that may be absent.
    Optional(Box<TypeExpr>),
    /// The definition of the schema with this name.
    Named(String),
}

/// The mathematical value of a [`TypeExpr`].
pub enum TypeModel {
    Bool,
    String,
    Float32,
    Float64,
    Int32,
    Int64,
    DynamicMap,
    Sequence(Box<TypeModel>),
    Optional(Box<TypeModel>),
    Named(Seq<char>),
}

/// The mathematical value of a type expression.
pub open spec fn type_model(t: TypeExpr) -> TypeModel
    decreases t,
{
    match t {
        TypeExpr::Bool => TypeModel::Bool,
        TypeExpr::String => TypeModel::String,
        TypeExpr::Float32 => TypeModel::Float32,
        TypeExpr::Float64 => TypeModel::Float64,
        TypeExpr::Int32 => TypeModel::Int32,
        TypeExpr::Int64 => TypeModel::Int64,
        TypeExpr::DynamicMap => TypeModel::DynamicMap,
        TypeExpr::Sequence(e) => TypeModel::Sequence(Box::new(type_model(*e))),
        TypeExpr::Optional(e) => TypeModel::Optional(Box::new(type_model(*e))),
        TypeExpr::Named(n) => TypeModel::Named(n@),
    }
}

impl View for TypeExpr {
    type V = TypeModel;

    open spec fn view(&self) -> TypeModel {
        type_model(*self)
    }
}

/// Why a schema cannot be turned into a type.
#[derive(Clone, Copy, Debug, PartialEq, Eq, Structural)]
pub enum Unsupported {
    /// `allOf`, `not` or an unrecognised combinator; `oneOf` or `anyOf` below
    /// the top level.
    Combinator,
    /// An object written in place where only a reference, a primitive or an
    /// array can stand.
    NestedObject,
    /// A reference that does not point into `#/components/schemas`.
    Reference,
    /// An array without an item schema.
    MissingItems,
}

/// The name a reference points to. A reference has the form
/// `#/components/schemas/<Name>`: exactly four segments, of which the first
/// three are `#`, `components` and `schemas` and the fourth is the name, which
/// is not empty. Anything else points nowhere.
pub open spec fn reference_target(reference: Seq<char>) -> Result<Seq<char>, Unsupported> {
    let parts = split(reference, '/');
    if parts.len() == 4 && parts[0] == "#"@ && parts[1] == "components"@ && parts[2]
        == "schemas"@ && parts[3].len() > 0 {
        Ok(parts[3])
    } else {
        Err(Unsupported::Reference)
    }
}

/// `number` is single precision unless its format says double.
pub open spec fn number_type(format: NumberFormat) -> TypeModel {
    if format == NumberFormat::Double {
        TypeModel::Float64
    } else {
        TypeModel::Float32
    }
}

/// `integer` is 32 bits wide unless its format says 64.
pub open spec fn integer_type(format: IntegerFormat) -> TypeModel {
    if format == IntegerFormat::Int64 {
        TypeModel::Int64
    } else {
        TypeModel::Int32
    }
}

/// The type of a schema position, before requiredness is applied.
pub open spec fn inner_type(r: SchemaRef) -> Result<TypeModel, Unsupported>
    decreases r,
{
    match r {
        SchemaRef::Reference(reference) => match reference_target(reference@) {
            Ok(name) => Ok(TypeModel::Named(name)),
            Err(e) => Err(e),
        },
        SchemaRef::Inline(kind) => kind_type(*kind),
    }
}

/// The type of a schema written in place: only plain types have one.
pub open spec fn kind_type(kind: SchemaKind) -> Result<TypeModel, Unsupported>
    decreases kind,
{
    match kind {
        SchemaKind::Type(t) => plain_type(t),
        _ => Err(Unsupported::Combinator),
    }
}

/// The type of a plain type below the top level.
pub open spec fn plain_type(t: Type) -> Result<TypeModel, Unsupported>
    decreases t,
{
    match t {
        Type::String => Ok(TypeModel::String),
        Type::Number(format) => Ok(number_type(format)),
        Type::Integer(format) => Ok(integer_type(format)),
        Type::Boolean => Ok(TypeModel::Bool),
        Type::Object(_) => Err(Unsupported::NestedObject),
        Type::Array(a) => array_type(a),
    }
}

/// A sequence of the item type; the items are always taken as required.
pub open spec fn array_type(a: ArrayType) -> Result<TypeModel, Unsupported>
    decreases a,
{
    match a.items {
        None => Err(Unsupported::MissingItems),
        Some(items) => match inner_type(items) {
            Ok(t) => Ok(TypeModel::Sequence(Box::new(t))),
            Err(e) => Err(e),
        },
    }
}

/// The type of a schema position: the inner type where the position is
/// required, the inner type wrapped as optional where it is not.
pub open spec fn resolved_type(r: SchemaRef, is_required: bool) -> Result<TypeModel, Unsupported> {
    match inner_type(r) {
        Ok(t) => Ok(
            if is_required {
                t
            } else {
                TypeModel::Optional(Box::new(t))
            },
        ),
        Err(e) => Err(e),
    }
}

/// How a type is written in the generated code.
pub open spec fn type_text(t: TypeModel) -> Seq<char>
    decreases t,
{
    match t {
        TypeModel::Bool => "bool"@,
        TypeModel::String => "String"@,
        TypeModel::Float32 => "f32"@,
        TypeModel::Float64 => "f64"@,
        TypeModel::Int32 => "i32"@,
        TypeModel::Int64 => "i64"@,
        TypeModel::DynamicMap => "serde_json::Map<String, serde_json::Value>"@,
        TypeModel::Sequence(e) => "Vec<"@ + type_text(*e) + ">"@,
        TypeModel::Optional(e) => "Option<"@ + type_text(*e) + ">"@,
        TypeModel::Named(n) => n,
    }
}

/// Whether two results agree: the same type, or the same reason.
pub open spec fn resolves_to(r: Result<TypeExpr, Unsupported>, m: Result<TypeModel, Unsupported>) -> bool {
    match r {
        Ok(t) => m == Ok::<TypeModel, Unsupported>(t@),
        Err(e) => m == Err::<TypeModel, Unsupported>(e),
    }
}

impl TypeExpr {
    /// The type as it is written in the generated code.
    pub fn text(&self) -> (r: String)
        ensures
            r@ == type_text(self@),
        decreases self,
    {
        match self {
            TypeExpr::Bool => String::from_str("bool"),
            TypeExpr::String => String::from_str("String"),
            TypeExpr::Float32 => String::from_str("f32"),
            TypeExpr::Float64 => String::from_str("f64"),
            TypeExpr::Int32 => String::from_str("i32"),
            TypeExpr::Int64 => String::from_str("i64"),
            TypeExpr::DynamicMap => String::from_str("serde_json::Map<String, serde_json::Value>"),
            TypeExpr::Sequence(e) => {
                let inner = e.text();
                String::from_str("Vec<").concat(inner.as_str()).concat(">")
            },
            TypeExpr::Optional(e) => {
                let inner = e.text();
                String::from_str("Option<").concat(inner.as_str()).concat(">")
            },
            TypeExpr::Named(n) => n.clone(),
        }
    }
}

/// Resolves a reference to the name of the schema it points to.
///
/// Succeeds exactly on a reference of the form `#/components/schemas/<Name>`
/// with a name that is not empty, and gives the name. Any other reference,
/// shorter, longer or into another part of the document, is refused.
pub fn handle_reference(reference: String) -> (r: Result<String, Unsupported>)
    ensures
        (match r {
            Ok(name) => reference_target(reference@) == Ok::<Seq<char>, Unsupported>(name@),
            Err(e) => reference_target(reference@) == Err::<Seq<char>, Unsupported>(e),
        }),
{
    let mut parts = split_on(reference.as_str(), '/');
    if parts.len() != 4 {
        return Err(Unsupported::Reference);
    }
    if !str_equal(parts[0].as_str(), "#") || !str_equal(parts[1].as_str(), "components")
        || !str_equal(parts[2].as_str(), "schemas") {
        return Err(Unsupported::Reference);
    }
    let ghost all = parts@;
    let last = parts.pop();
    match last {
        Some(name) => {
            assert(name@ == texts(all)[3]);
            if name.as_str().is_empty() {
                Err(Unsupported::Reference)
            } else {
                Ok(name)
            }
        },
        None => Err(Unsupported::Reference),
    }
}

/// The type of a `number` schema.
pub fn get_number_type(format: NumberFormat) -> (r: TypeExpr)
    ensures
        r@ == number_type(format),
{
    match format {
        NumberFormat::Double => TypeExpr::Float64,
        _ => TypeExpr::Float32,
    }
}

/// The type of an `integer` schema.
pub fn get_integer_type(format: IntegerFormat) -> (r: TypeExpr)
    ensures
        r@ == integer_type(format),
{
    match format {
        IntegerFormat::Int64 => TypeExpr::Int64,
        _ => TypeExpr::Int32,
    }
}

/// The type of a plain type below the top level.
pub fn gen_type_name_for_type(t: Type) -> (r: Result<TypeExpr, Unsupported>)
    ensures
        resolves_to(r, plain_type(t)),
    decreases t,
{
    match t {
        Type::String => Ok(TypeExpr::String),
        Type::Number(format) => Ok(get_number_type(format)),
        Type::Integer(format) => Ok(get_integer_type(format)),
        Type::Boolean => Ok(TypeExpr::Bool),
        Type::Object(_) => Err(Unsupported::NestedObject),
        Type::Array(a) => gen_array_type(a),
    }
}

/// The type of a schema written in place below the top level.
pub fn gen_property_type_for_schema_kind(sk: SchemaKind) -> (r: Result<TypeExpr, Unsupported>)
    ensures
        resolves_to(r, kind_type(sk)),
    decreases sk,
{
    match sk {
        SchemaKind::Type(t) => gen_type_name_for_type(t),
        _ => Err(Unsupported::Combinator),
    }
}

/// The type of a schema position, wrapped as optional unless `is_required`.
pub fn get_property_type_from_schema_refor(refor: SchemaRef, is_required: bool) -> (r: Result<
    TypeExpr,
    Unsupported,
>)
    ensures
        resolves_to(r, resolved_type(refor, is_required)),
    decreases refor,
{
    let inner = match refor {
        SchemaRef::Inline(kind) => gen_property_type_for_schema_kind(*kind),
        SchemaRef::Reference(reference) => match handle_reference(reference) {
            Ok(name) => Ok(TypeExpr::Named(name)),
            Err(e) => Err(e),
        },
    };
    assert(resolves_to(inner, inner_type(refor)));
    match inner {
        Ok(t) => if is_required {
            Ok(t)
        } else {
            Ok(TypeExpr::Optional(Box::new(t)))
        },
        Err(e) => Err(e),
    }
}

/// The type of an array: a sequence of its item type.
pub fn gen_array_type(a: ArrayType) -> (r: Result<TypeExpr, Unsupported>)
    ensures
        resolves_to(r, array_type(a)),
    decreases a,
{
    match a.items {
        Some(items) => match get_property_type_from_schema_refor(items, true) {
            Ok(t) => Ok(TypeExpr::Sequence(Box::new(t))),
            Err(e) => Err(e),
        },
        None => Err(Unsupported::MissingItems),
    }
}

} // verus!
