//! The emitter: from each catalogued schema to its definition.

use vstd::prelude::*;
use crate::case::into_safe;
use crate::case::safe_name;
use crate::case::snake_case;
use crate::case::to_snek_case;
use crate::catalogue::Catalogue;
use crate::catalogue::NamedSchema;
use crate::definition::Definition;
use crate::definition::DefinitionModel;
use crate::definition::RecordField;
use crate::definition::FieldModel;
use crate::definition::GeneratedModule;
use crate::definition::ModuleModel;
use crate::definition::UnionVariant;
use crate::definition::VariantModel;
use crate::definition::definition_models;
use crate::definition::field_models;
use crate::definition::variant_models;
use crate::error::GenError;
use crate::options::Import;
use crate::options::Options;
use crate::options::active_decorations;
use crate::options::clone_texts;
use crate::options::contains_text;
use crate::options::decorations_for;
use crate::options::derives_of;
use crate::options::import_pairs;
use crate::render::module_text;
use crate::schema::ObjectType;
use crate::schema::Property;
use crate::schema::SchemaKind;
use crate::schema::SchemaRef;
use crate::schema::Type;
use crate::sequence::lemma_try_map_failed;
use crate::sequence::lemma_try_map_step;
use crate::sequence::try_map;
use crate::text::holds_text;
use crate::text::texts;
use crate::types::Unsupported;
use crate::types::gen_array_type;
use crate::types::gen_type_name_for_type;
use crate::types::get_property_type_from_schema_refor;
use crate::types::inner_type;
use crate::types::plain_type;
use crate::types::resolved_type;
use crate::types::type_text;

verus! {

/// The name of the field for a property: snake case, escaped where it is a
/// keyword.
pub open spec fn field_name(property: Seq<char>) -> Seq<char> {
    safe_name(snake_case(property))
}

/// The field for one property of an object.
pub open spec fn field_of(
    property: Property,
    required: Seq<String>,
    decorations: Seq<Seq<char>>,
) -> Result<FieldModel, Unsupported> {
    match resolved_type(property.schema, holds_text(required, property.name@)) {
        Ok(ty) => Ok(FieldModel { name: field_name(property.name@), ty, decorations }),
        Err(e) => Err(e),
    }
}

/// The fields of a record, one per property and in their order.
pub open spec fn record_fields(
    properties: Seq<Property>,
    required: Seq<String>,
    decorations: Seq<Seq<char>>,
) -> Result<Seq<FieldModel>, Unsupported> {
    try_map(properties, field_maker(required, decorations))
}

/// [`field_of`] for fixed required names and decorations.
pub open spec fn field_maker(required: Seq<String>, decorations: Seq<Seq<char>>) -> spec_fn(
    Property,
) -> Result<FieldModel, Unsupported> {
    |p: Property| field_of(p, required, decorations)
}

/// The variant for one alternative of a union.
pub open spec fn variant_of(alternative: SchemaRef) -> Result<VariantModel, Unsupported> {
    match inner_type(alternative) {
        Ok(payload) => Ok(VariantModel { name: type_text(payload), payload }),
        Err(e) => Err(e),
    }
}

/// The variants of a union, one per alternative and in their order.
pub open spec fn union_variants(alternatives: Seq<SchemaRef>) -> Result<
    Seq<VariantModel>,
    Unsupported,
> {
    try_map(alternatives, variant_maker())
}

/// [`variant_of`] as a function value.
pub open spec fn variant_maker() -> spec_fn(SchemaRef) -> Result<VariantModel, Unsupported> {
    |a: SchemaRef| variant_of(a)
}

/// The definition of a plain type at the top level: a record for an object,
/// an alias for anything else.
pub open spec fn struct_definition(name: Seq<char>, ty: Type, options: Options) -> Result<
    DefinitionModel,
    Unsupported,
> {
    match ty {
        Type::Object(object) => match record_fields(
            object.properties@,
            object.required@,
            active_decorations(options.field_attrs@, name),
        ) {
            Ok(fields) => Ok(
                DefinitionModel::Record {
                    name,
                    derives: derives_of(options),
                    decorations: active_decorations(options.container_attrs@, name),
                    fields,
                },
            ),
            Err(e) => Err(e),
        },
        _ => match plain_type(ty) {
            Ok(target) => Ok(DefinitionModel::Alias { name, target }),
            Err(e) => Err(e),
        },
    }
}

/// The definition of a `oneOf` or `anyOf` at the top level: a union with the
/// container decorations. It has no fields, so no field decoration applies.
pub open spec fn enum_definition(
    name: Seq<char>,
    alternatives: Seq<SchemaRef>,
    options: Options,
) -> Result<DefinitionModel, Unsupported> {
    match union_variants(alternatives) {
        Ok(variants) => Ok(
            DefinitionModel::Union {
                name,
                derives: derives_of(options),
                decorations: active_decorations(options.container_attrs@, name),
                variants,
            },
        ),
        Err(e) => Err(e),
    }
}

/// The definition of a catalogued schema.
pub open spec fn schema_definition(name: Seq<char>, kind: SchemaKind, options: Options) -> Result<
    DefinitionModel,
    Unsupported,
> {
    match kind {
        SchemaKind::Type(ty) => struct_definition(name, ty, options),
        SchemaKind::OneOf(alternatives) => enum_definition(name, alternatives@, options),
        SchemaKind::AnyOf(alternatives) => enum_definition(name, alternatives@, options),
        _ => Err(Unsupported::Combinator),
    }
}

/// A failure, with the name of the schema that caused it.
pub struct Failure {
    pub schema: Seq<char>,
    pub reason: Unsupported,
}

/// The definition of one entry of the catalogue.
pub open spec fn entry_definition(entry: NamedSchema, options: Options) -> Result<
    DefinitionModel,
    Failure,
> {
    match schema_definition(entry.name@, entry.kind, options) {
        Ok(d) => Ok(d),
        Err(reason) => Err(Failure { schema: entry.name@, reason }),
    }
}

/// The definitions of all entries, in their order, or the failure of the
/// first entry that has none.
pub open spec fn definitions_of(entries: Seq<NamedSchema>, options: Options) -> Result<
    Seq<DefinitionModel>,
    Failure,
> {
    try_map(entries, definition_maker(options))
}

/// [`entry_definition`] for fixed options.
pub open spec fn definition_maker(options: Options) -> spec_fn(NamedSchema) -> Result<
    DefinitionModel,
    Failure,
> {
    |e: NamedSchema| entry_definition(e, options)
}

/// The module generated from the entries of a catalogue.
pub open spec fn module_of(entries: Seq<NamedSchema>, options: Options) -> Result<
    ModuleModel,
    Failure,
> {
    match definitions_of(entries, options) {
        Ok(definitions) => Ok(ModuleModel { imports: import_pairs(options.imports@), definitions }),
        Err(f) => Err(f),
    }
}

/// Whether a result is the definition, or the reason, that the model gives.
pub open spec fn defines(
    r: Result<Definition, Unsupported>,
    m: Result<DefinitionModel, Unsupported>,
) -> bool {
    match r {
        Ok(d) => m == Ok::<DefinitionModel, Unsupported>(d@),
        Err(e) => m == Err::<DefinitionModel, Unsupported>(e),
    }
}

/// The definition of a plain type at the top level.
///
/// An object becomes a record: one field per property, optional unless the
/// property is required, named in snake case and escaped where the name is a
/// keyword. An array becomes an alias of a sequence, any other type an alias
/// of itself.
#[verifier::loop_isolation(false)]
pub fn generate_struct(name: String, ty: Type, options: &Options) -> (r: Result<
    Definition,
    Unsupported,
>)
    ensures
        defines(r, struct_definition(name@, ty, *options)),
{
    match ty {
        Type::Object(object) => {
            let derives = options.derives();
            let decorations = decorations_for(&options.container_attrs, name.as_str());
            let field_decorations = decorations_for(&options.field_attrs, name.as_str());
            let ObjectType { required, properties } = object;
            let ghost all = properties@;
            let ghost f = field_maker(required@, texts(field_decorations@));
            let mut fields: Vec<RecordField> = Vec::new();
            assert(field_models(fields@) =~= Seq::<FieldModel>::empty());
            for property in it: properties
                invariant
                    it.seq() == all,
                    f == field_maker(required@, texts(field_decorations@)),
                    try_map(all.take(it.index()), f) == Ok::<Seq<FieldModel>, Unsupported>(
                        field_models(fields@),
                    ),
            {
                let ghost k = it.index();
                proof {
                    lemma_try_map_step(all, f, k);
                }
                let Property { name: property_name, schema } = property;
                let is_required = contains_text(&required, property_name.as_str());
                match get_property_type_from_schema_refor(schema, is_required) {
                    Ok(ty) => {
                        let field = RecordField {
                            name: into_safe(to_snek_case(property_name.as_str())),
                            ty,
                            decorations: clone_texts(&field_decorations),
                        };
                        assert(field_models(fields@.push(field)) =~= field_models(fields@).push(
                            field@,
                        ));
                        fields.push(field);
                    },
                    Err(e) => {
                        proof {
                            lemma_try_map_failed(all, f, k + 1);
                        }
                        return Err(e);
                    },
                }
            }
            assert(all.take(all.len() as int) =~= all);
            Ok(Definition::Record { name, derives, decorations, fields })
        },
        Type::Array(a) => match gen_array_type(a) {
            Ok(target) => Ok(Definition::Alias { name, target }),
            Err(e) => Err(e),
        },
        t => match gen_type_name_for_type(t) {
            Ok(target) => Ok(Definition::Alias { name, target }),
            Err(e) => Err(e),
        },
    }
}

/// The definition of a `oneOf` or `anyOf` at the top level: a union with one
/// variant per alternative, each named after the type it carries, under the
/// container decorations that apply to it.
pub fn generate_enum(name: String, types: Vec<SchemaRef>, options: &Options) -> (r: Result<
    Definition,
    Unsupported,
>)
    ensures
        defines(r, enum_definition(name@, types@, *options)),
{
    let decorations = decorations_for(&options.container_attrs, name.as_str());
    let derives = options.derives();
    let ghost all = types@;
    let ghost f = variant_maker();
    let mut variants: Vec<UnionVariant> = Vec::new();
    assert(variant_models(variants@) =~= Seq::<VariantModel>::empty());
    for alternative in it: types
        invariant
            it.seq() == all,
            f == variant_maker(),
            try_map(all.take(it.index()), f) == Ok::<Seq<VariantModel>, Unsupported>(
                variant_models(variants@),
            ),
    {
        let ghost k = it.index();
        proof {
            lemma_try_map_step(all, f, k);
        }
        match get_property_type_from_schema_refor(alternative, true) {
            Ok(payload) => {
                let variant = UnionVariant { name: payload.text(), payload };
                assert(variant_models(variants@.push(variant)) =~= variant_models(variants@).push(
                    variant@,
                ));
                variants.push(variant);
            },
            Err(e) => {
                proof {
                    lemma_try_map_failed(all, f, k + 1);
                }
                return Err(e);
            },
        }
    }
    assert(all.take(all.len() as int) =~= all);
    Ok(Definition::Union { name, derives, decorations, variants })
}

/// The definition of a catalogued schema, or the error that names the schema
/// and says why it has none.
pub fn generate_for_schema(name: String, kind: SchemaKind, options: &Options) -> (r: Result<
    Definition,
    GenError,
>)
    ensures
        (match r {
            Ok(d) => schema_definition(name@, kind, *options) == Ok::<
                DefinitionModel,
                Unsupported,
            >(d@),
            Err(e) => schema_definition(name@, kind, *options) is Err && e.is_unsupported(
                name@,
                schema_definition(name@, kind, *options)->Err_0,
            ),
        }),
{
    let schema = name.clone();
    let made = match kind {
        SchemaKind::Type(ty) => generate_struct(name, ty, options),
        SchemaKind::OneOf(one_of) => generate_enum(name, one_of, options),
        SchemaKind::AnyOf(any_of) => generate_enum(name, any_of, options),
        _ => Err(Unsupported::Combinator),
    };
    match made {
        Ok(d) => Ok(d),
        Err(reason) => Err(GenError::Unsupported { schema, reason }),
    }
}

/// Whether a result is the module, or the failure, that the model gives.
pub open spec fn builds(r: Result<GeneratedModule, GenError>, m: Result<ModuleModel, Failure>) -> bool {
    match r {
        Ok(module) => m == Ok::<ModuleModel, Failure>(module@),
        Err(e) => m is Err && e.is_unsupported(m->Err_0.schema, m->Err_0.reason),
    }
}

/// A copy of the imports.
pub fn clone_imports(imports: &Vec<Import>) -> (r: Vec<Import>)
    ensures
        import_pairs(r@) == import_pairs(imports@),
{
    let mut r: Vec<Import> = Vec::new();
    let mut i: usize = 0;
    while i < imports.len()
        invariant
            0 <= i <= imports.len(),
            import_pairs(r@) == import_pairs(imports@.take(i as int)),
        decreases imports.len() - i,
    {
        let import = Import { path: imports[i].path.clone(), name: imports[i].name.clone() };
        proof {
            let pair = (import.path@, import.name@);
            assert(import_pairs(r@.push(import)) =~= import_pairs(r@).push(pair));
            assert(import_pairs(imports@.take(i + 1)) =~= import_pairs(imports@.take(i as int)).push(
                pair,
            ));
        }
        r.push(import);
        i += 1;
    }
    assert(imports@.take(imports.len() as int) =~= imports@);
    r
}

/// The module for a catalogue: the configured imports and one definition per
/// entry, in the order of the catalogue. Fails on the first entry that has no
/// definition.
#[verifier::loop_isolation(false)]
pub fn build_module(schemas: Catalogue, options: &Options) -> (r: Result<GeneratedModule, GenError>)
    ensures
        builds(r, module_of(schemas.entries(), *options)),
{
    let imports = clone_imports(&options.imports);
    let entries = schemas.into_entries();
    let ghost all = entries@;
    let ghost f = definition_maker(*options);
    let mut definitions: Vec<Definition> = Vec::new();
    assert(definition_models(definitions@) =~= Seq::<DefinitionModel>::empty());
    for entry in it: entries
        invariant
            it.seq() == all,
            f == definition_maker(*options),
            try_map(all.take(it.index()), f) == Ok::<Seq<DefinitionModel>, Failure>(
                definition_models(definitions@),
            ),
    {
        let ghost k = it.index();
        proof {
            lemma_try_map_step(all, f, k);
        }
        let NamedSchema { name, kind } = entry;
        match generate_for_schema(name, kind, options) {
            Ok(d) => {
                assert(definition_models(definitions@.push(d)) =~= definition_models(
                    definitions@,
                ).push(d@));
                definitions.push(d);
            },
            Err(e) => {
                proof {
                    lemma_try_map_failed(all, f, k + 1);
                }
                return Err(e);
            },
        }
    }
    assert(all.take(all.len() as int) =~= all);
    Ok(GeneratedModule { imports, definitions })
}

/// What generation owes for the entries of a catalogue: the text of their
/// module, or the error that names the first entry without a definition and
/// the reason.
pub open spec fn generated(
    entries: Seq<NamedSchema>,
    options: Options,
    r: Result<String, GenError>,
) -> bool {
    match r {
        Ok(text) => module_of(entries, options) is Ok && text@ == module_text(
            module_of(entries, options)->Ok_0,
        ),
        Err(e) => module_of(entries, options) is Err && e.is_unsupported(
            module_of(entries, options)->Err_0.schema,
            module_of(entries, options)->Err_0.reason,
        ),
    }
}

/// The source text for a catalogue.
///
/// Every entry gets its definition, in the order of the catalogue, after the
/// configured imports. Where an entry has no definition, nothing is generated
/// and the error names the first such entry and the reason.
pub fn generate(schemas: Catalogue, options: &Options) -> (r: Result<String, GenError>)
    ensures
        generated(schemas.entries(), *options, r),
{
    match build_module(schemas, options) {
        Ok(module) => Ok(module.render()),
        Err(e) => Err(e),
    }
}

} // verus!
