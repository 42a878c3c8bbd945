//! The definitions that make up the generated code.

use vstd::prelude::*;
use crate::options::Import;
use crate::options::import_pairs;
use crate::text::texts;
use crate::types::TypeExpr;
use crate::types::TypeModel;

verus! {

/// A field of a record.
#[derive(Debug, PartialEq, Eq)]
pub struct RecordField {
    pub name: String,
    pub ty: TypeExpr,
    pub decorations: Vec<String>,
}

/// The mathematical value of a [`RecordField`].
pub struct FieldModel {
    pub name: Seq<char>,
    pub ty: TypeModel,
    pub decorations: Seq<Seq<char>>,
}

impl View for RecordField {
    type V = FieldModel;

    open spec fn view(&self) -> FieldModel {
        FieldModel { name: self.name@, ty: self.ty@, decorations: texts(self.decorations@) }
    }
}

/// A variant of a union: one payload, and the payload's type as its name.
#[derive(Debug, PartialEq, Eq)]
pub struct UnionVariant {
    pub name: String,
    pub payload: TypeExpr,
}

/// The mathematical value of a [`UnionVariant`].
pub struct VariantModel {
    pub name: Seq<char>,
    pub payload: TypeModel,
}

impl View for UnionVariant {
    type V = VariantModel;

    open spec fn view(&self) -> VariantModel {
        VariantModel { name: self.name@, payload: self.payload@ }
    }
}

/// The values of a sequence of fields.
pub open spec fn field_models(fields: Seq<RecordField>) -> Seq<FieldModel> {
    Seq::new(fields.len(), |i: int| fields[i]@)
}

/// The values of a sequence of variants.
pub open spec fn variant_models(variants: Seq<UnionVariant>) -> Seq<VariantModel> {
    Seq::new(variants.len(), |i: int| variants[i]@)
}

/// One definition of the generated code.
#[derive(Debug, PartialEq, Eq)]
pub enum Definition {
    /// A struct with named fields.
    Record { name: String, derives: Vec<String>, decorations: Vec<String>, fields: Vec<RecordField> },
    /// An enum with one tuple variant per alternative.
    Union { name: String, derives: Vec<String>, decorations: Vec<String>, variants: Vec<UnionVariant> },
    /// Another name for a type.
    Alias { name: String, target: TypeExpr },
}

/// The mathematical value of a [`Definition`].
pub enum DefinitionModel {
    Record {
        name: Seq<char>,
        derives: Seq<Seq<char>>,
        decorations: Seq<Seq<char>>,
        fields: Seq<FieldModel>,
    },
    Union {
        name: Seq<char>,
        derives: Seq<Seq<char>>,
        decorations: Seq<Seq<char>>,
        variants: Seq<VariantModel>,
    },
    Alias { name: Seq<char>, target: TypeModel },
}

impl View for Definition {
    type V = DefinitionModel;

    open spec fn view(&self) -> DefinitionModel {
        match self {
            Definition::Record { name, derives, decorations, fields } => DefinitionModel::Record {
                name: name@,
                derives: texts(derives@),
                decorations: texts(decorations@),
                fields: field_models(fields@),
            },
            Definition::Union { name, derives, decorations, variants } => DefinitionModel::Union {
                name: name@,
                derives: texts(derives@),
                decorations: texts(decorations@),
                variants: variant_models(variants@),
            },
            Definition::Alias { name, target } => DefinitionModel::Alias {
                name: name@,
                target: target@,
            },
        }
    }
}

/// The values of a sequence of definitions.
pub open spec fn definition_models(definitions: Seq<Definition>) -> Seq<DefinitionModel> {
    Seq::new(definitions.len(), |i: int| definitions[i]@)
}

/// The generated code before it is written out: imports, then definitions in
/// the order of the catalogue.
#[derive(Debug, PartialEq, Eq)]
pub struct GeneratedModule {
    pub imports: Vec<Import>,
    pub definitions: Vec<Definition>,
}

/// The mathematical value of a [`GeneratedModule`].
pub struct ModuleModel {
    pub imports: Seq<(Seq<char>, Seq<char>)>,
    pub definitions: Seq<DefinitionModel>,
}

impl View for GeneratedModule {
    type V = ModuleModel;

    open spec fn view(&self) -> ModuleModel {
        ModuleModel {
            imports: import_pairs(self.imports@),
            definitions: definition_models(self.definitions@),
        }
    }
}

} // verus!
