//! Writing a module out as source text, through the `codegen` crate.
//!
//! `codegen` builds a scope from structs, enums and raw lines and formats it.
//! Its builders are opaque here: each gets a name for the parts it was built
//! from, and the wrappers below say how each call changes them.

use vstd::prelude::*;
use vstd::string::StringExecFns;
use crate::definition::Definition;
use crate::definition::DefinitionModel;
use crate::definition::RecordField;
use crate::definition::FieldModel;
use crate::definition::GeneratedModule;
use crate::definition::ModuleModel;
use crate::definition::UnionVariant;
use crate::definition::VariantModel;
use crate::definition::definition_models;
use crate::definition::field_models;
use crate::definition::variant_models;
use crate::options::import_pairs;
use crate::text::texts;
use crate::types::type_text;

verus! {

/// `codegen::Scope`: the builder of a whole file.
#[verifier::external_type_specification]
#[verifier::external_body]
pub struct ExScope(codegen::Scope);

/// `codegen::Struct`: the builder of one struct.
#[verifier::external_type_specification]
#[verifier::external_body]
pub struct ExStruct(codegen::Struct);

/// `codegen::Field`: one named field.
#[verifier::external_type_specification]
#[verifier::external_body]
pub struct ExField(codegen::Field);

/// `codegen::Enum`: the builder of one enum.
#[verifier::external_type_specification]
#[verifier::external_body]
pub struct ExEnum(codegen::Enum);

/// `codegen::Variant`: one variant of an enum.
#[verifier::external_type_specification]
#[verifier::external_body]
pub struct ExVariant(codegen::Variant);

/// What a field was built from.
pub struct FieldParts {
    pub name: Seq<char>,
    pub ty: Seq<char>,
    pub vis: Option<Seq<char>>,
    pub annotations: Seq<Seq<char>>,
}

/// The fields of a struct or variant: none yet, tuple fields given by their
/// types, or named fields. Once a field is there the kind is fixed.
pub enum FieldsParts {
    Empty,
    Tuple(Seq<Seq<char>>),
    Named(Seq<FieldParts>),
}

/// What a struct was built from.
pub struct StructParts {
    pub name: Seq<char>,
    pub vis: Option<Seq<char>>,
    pub derives: Seq<Seq<char>>,
    pub fields: FieldsParts,
}

/// What a variant was built from.
pub struct VariantParts {
    pub name: Seq<char>,
    pub fields: FieldsParts,
}

/// The fields after one more named field.
pub open spec fn with_named(fields: FieldsParts, field: FieldParts) -> FieldsParts {
    match fields {
        FieldsParts::Empty => FieldsParts::Named(seq![field]),
        FieldsParts::Named(named) => FieldsParts::Named(named.push(field)),
        FieldsParts::Tuple(tuple) => FieldsParts::Tuple(tuple),
    }
}

/// The fields after one more tuple field.
pub open spec fn with_tuple(fields: FieldsParts, ty: Seq<char>) -> FieldsParts {
    match fields {
        FieldsParts::Empty => FieldsParts::Tuple(seq![ty]),
        FieldsParts::Tuple(tuple) => FieldsParts::Tuple(tuple.push(ty)),
        FieldsParts::Named(named) => FieldsParts::Named(named),
    }
}

/// What an enum was built from.
pub struct EnumParts {
    pub name: Seq<char>,
    pub vis: Option<Seq<char>>,
    pub derives: Seq<Seq<char>>,
    pub variants: Seq<VariantParts>,
}

/// One item of a scope.
pub enum ItemParts {
    Struct(StructParts),
    Enum(EnumParts),
    Raw(Seq<char>),
}

/// The symbols that a scope imports from one path, in the order in which
/// they were first asked for.
pub struct ImportParts {
    pub path: Seq<char>,
    pub symbols: Seq<Seq<char>>,
}

/// What a scope holds: its imports by path, in the order in which the paths
/// were first asked for, and the items pushed, in the order of the calls.
pub struct ScopeParts {
    pub imports: Seq<ImportParts>,
    pub items: Seq<ItemParts>,
}

/// The position of the first `::` in `s` at or after `from`, or `s.len()`
/// when there is none.
pub open spec fn first_double_colon(s: Seq<char>, from: int) -> int
    decreases s.len() - from,
{
    if from < 0 || from + 1 >= s.len() {
        s.len() as int
    } else if s[from] == ':' && s[from + 1] == ':' {
        from
    } else {
        first_double_colon(s, from + 1)
    }
}

/// The symbol that is imported for a name: the name up to its first `::`.
pub open spec fn symbol_of(name: Seq<char>) -> Seq<char> {
    name.take(first_double_colon(name, 0))
}

/// Whether something is imported from `path`.
pub open spec fn has_path(imports: Seq<ImportParts>, path: Seq<char>) -> bool {
    exists|i: int| 0 <= i < imports.len() && (#[trigger] imports[i]).path == path
}

/// Where the imports from `path` stand.
pub open spec fn path_position(imports: Seq<ImportParts>, path: Seq<char>) -> int {
    choose|i: int| 0 <= i < imports.len() && (#[trigger] imports[i]).path == path
}

/// The imports after `name` is asked for from `path`: a path that is there
/// gets the symbol behind its others unless it has it, and a new path comes
/// last with that one symbol.
pub open spec fn with_import(
    imports: Seq<ImportParts>,
    path: Seq<char>,
    name: Seq<char>,
) -> Seq<ImportParts> {
    let symbol = symbol_of(name);
    if has_path(imports, path) {
        let at = path_position(imports, path);
        if imports[at].symbols.contains(symbol) {
            imports
        } else {
            imports.update(at, ImportParts { path, symbols: imports[at].symbols.push(symbol) })
        }
    } else {
        imports.push(ImportParts { path, symbols: seq![symbol] })
    }
}

/// The imports of a scope after a sequence of requests, each a path and a
/// name.
pub open spec fn imported(requests: Seq<(Seq<char>, Seq<char>)>) -> Seq<ImportParts>
    decreases requests.len(),
{
    if requests.len() == 0 {
        Seq::empty()
    } else {
        with_import(imported(requests.drop_last()), requests.last().0, requests.last().1)
    }
}

/// The parts a `codegen::Field` was built from.
pub uninterp spec fn field_parts(f: codegen::Field) -> FieldParts;

/// The parts a `codegen::Struct` was built from.
pub uninterp spec fn struct_parts(s: codegen::Struct) -> StructParts;

/// The parts a `codegen::Variant` was built from.
pub uninterp spec fn variant_parts(v: codegen::Variant) -> VariantParts;

/// The parts a `codegen::Enum` was built from.
pub uninterp spec fn enum_parts(e: codegen::Enum) -> EnumParts;

/// The parts a `codegen::Scope` was built from.
pub uninterp spec fn scope_parts(s: codegen::Scope) -> ScopeParts;

/// The text that `codegen` formats a scope to.
pub uninterp spec fn scope_text(parts: ScopeParts) -> Seq<char>;

/// `codegen::Scope::new`: a scope without imports or items.
#[verifier::external_body]
fn scope_new() -> (scope: codegen::Scope)
    ensures
        scope_parts(scope) == (ScopeParts { imports: Seq::empty(), items: Seq::empty() }),
{
    codegen::Scope::new()
}

/// `codegen::Scope::import`: asks for `use path::name`. The scope cuts the
/// name at its first `::` and keeps, by path and then by symbol, what is not
/// there yet: a known symbol of a known path changes nothing.
#[verifier::external_body]
fn scope_import(scope: &mut codegen::Scope, path: &str, name: &str)
    ensures
        scope_parts(*final(scope)) == (ScopeParts {
            imports: with_import(scope_parts(*old(scope)).imports, path@, name@),
            ..scope_parts(*old(scope))
        }),
{
    scope.import(path, name);
}

/// `codegen::Scope::raw`: pushes a text that is formatted as it is.
#[verifier::external_body]
fn scope_raw(scope: &mut codegen::Scope, line: &str)
    ensures
        scope_parts(*final(scope)) == (ScopeParts {
            items: scope_parts(*old(scope)).items.push(ItemParts::Raw(line@)),
            ..scope_parts(*old(scope))
        }),
{
    scope.raw(line);
}

/// `codegen::Scope::push_struct`: pushes a struct as the last item.
#[verifier::external_body]
fn scope_push_struct(scope: &mut codegen::Scope, item: codegen::Struct)
    ensures
        scope_parts(*final(scope)) == (ScopeParts {
            items: scope_parts(*old(scope)).items.push(ItemParts::Struct(struct_parts(item))),
            ..scope_parts(*old(scope))
        }),
{
    scope.push_struct(item);
}

/// `codegen::Scope::push_enum`: pushes an enum as the last item.
#[verifier::external_body]
fn scope_push_enum(scope: &mut codegen::Scope, item: codegen::Enum)
    ensures
        scope_parts(*final(scope)) == (ScopeParts {
            items: scope_parts(*old(scope)).items.push(ItemParts::Enum(enum_parts(item))),
            ..scope_parts(*old(scope))
        }),
{
    scope.push_enum(item);
}

/// `codegen::Scope::to_string`: the formatted scope. The text depends on the
/// parts alone; the contract gives it a name and claims nothing else.
#[verifier::external_body]
fn scope_to_string(scope: &codegen::Scope) -> (r: String)
    ensures
        r@ == scope_text(scope_parts(*scope)),
{
    scope.to_string()
}

/// `codegen::Struct::new`: a struct with a name and nothing else.
#[verifier::external_body]
fn struct_new(name: &str) -> (s: codegen::Struct)
    ensures
        struct_parts(s) == (StructParts {
            name: name@,
            vis: None,
            derives: Seq::empty(),
            fields: FieldsParts::Empty,
        }),
{
    codegen::Struct::new(name)
}

/// `codegen::Struct::vis`: sets the visibility.
#[verifier::external_body]
fn struct_vis(s: &mut codegen::Struct, vis: &str)
    ensures
        struct_parts(*final(s)) == (StructParts { vis: Some(vis@), ..struct_parts(*old(s)) }),
{
    s.vis(vis);
}

/// `codegen::Struct::derive`: adds a derive after those already there.
#[verifier::external_body]
fn struct_derive(s: &mut codegen::Struct, name: &str)
    ensures
        struct_parts(*final(s)) == (StructParts {
            derives: struct_parts(*old(s)).derives.push(name@),
            ..struct_parts(*old(s))
        }),
{
    s.derive(name);
}

/// `codegen::Struct::push_field`: adds a named field after those already
/// there; the first one makes the fields named. It panics on a struct with
/// tuple fields.
#[verifier::external_body]
fn struct_push_field(s: &mut codegen::Struct, field: codegen::Field)
    requires
        !(struct_parts(*old(s)).fields is Tuple),
    ensures
        struct_parts(*final(s)) == (StructParts {
            fields: with_named(struct_parts(*old(s)).fields, field_parts(field)),
            ..struct_parts(*old(s))
        }),
{
    s.push_field(field);
}

/// `codegen::Field::new`: a field with a name and a type.
#[verifier::external_body]
fn field_new(name: &str, ty: &str) -> (f: codegen::Field)
    ensures
        field_parts(f) == (FieldParts {
            name: name@,
            ty: ty@,
            vis: None,
            annotations: Seq::empty(),
        }),
{
    codegen::Field::new(name, ty)
}

/// `codegen::Field::vis`: sets the visibility.
#[verifier::external_body]
fn field_vis(f: &mut codegen::Field, vis: &str)
    ensures
        field_parts(*final(f)) == (FieldParts { vis: Some(vis@), ..field_parts(*old(f)) }),
{
    f.vis(vis);
}

/// `codegen::Field::annotation`: adds an annotation after those already
/// there.
#[verifier::external_body]
fn field_annotation(f: &mut codegen::Field, annotation: &str)
    ensures
        field_parts(*final(f)) == (FieldParts {
            annotations: field_parts(*old(f)).annotations.push(annotation@),
            ..field_parts(*old(f))
        }),
{
    f.annotation(annotation);
}

/// `codegen::Enum::new`: an enum with a name and nothing else.
#[verifier::external_body]
fn enum_new(name: &str) -> (e: codegen::Enum)
    ensures
        enum_parts(e) == (EnumParts {
            name: name@,
            vis: None,
            derives: Seq::empty(),
            variants: Seq::empty(),
        }),
{
    codegen::Enum::new(name)
}

/// `codegen::Enum::vis`: sets the visibility.
#[verifier::external_body]
fn enum_vis(e: &mut codegen::Enum, vis: &str)
    ensures
        enum_parts(*final(e)) == (EnumParts { vis: Some(vis@), ..enum_parts(*old(e)) }),
{
    e.vis(vis);
}

/// `codegen::Enum::derive`: adds a derive after those already there.
#[verifier::external_body]
fn enum_derive(e: &mut codegen::Enum, name: &str)
    ensures
        enum_parts(*final(e)) == (EnumParts {
            derives: enum_parts(*old(e)).derives.push(name@),
            ..enum_parts(*old(e))
        }),
{
    e.derive(name);
}

/// `codegen::Enum::push_variant`: adds a variant after those already there.
#[verifier::external_body]
fn enum_push_variant(e: &mut codegen::Enum, variant: codegen::Variant)
    ensures
        enum_parts(*final(e)) == (EnumParts {
            variants: enum_parts(*old(e)).variants.push(variant_parts(variant)),
            ..enum_parts(*old(e))
        }),
{
    e.push_variant(variant);
}

/// `codegen::Variant::new`: a variant with a name and no fields.
#[verifier::external_body]
fn variant_new(name: &str) -> (v: codegen::Variant)
    ensures
        variant_parts(v) == (VariantParts { name: name@, fields: FieldsParts::Empty }),
{
    codegen::Variant::new(name)
}

/// `codegen::Variant::tuple`: adds a tuple field after those already there;
/// the first one makes the fields a tuple. It panics on a variant with named
/// fields.
#[verifier::external_body]
fn variant_tuple(v: &mut codegen::Variant, ty: &str)
    requires
        !(variant_parts(*old(v)).fields is Named),
    ensures
        variant_parts(*final(v)) == (VariantParts {
            fields: with_tuple(variant_parts(*old(v)).fields, ty@),
            ..variant_parts(*old(v))
        }),
{
    v.tuple(ty);
}

/// The visibility of everything that is generated.
pub open spec fn public() -> Seq<char> {
    "pub"@
}

/// A field as `codegen` gets it.
pub open spec fn field_item(f: FieldModel) -> FieldParts {
    FieldParts {
        name: f.name,
        ty: type_text(f.ty),
        vis: Some(public()),
        annotations: f.decorations,
    }
}

/// A variant as `codegen` gets it: a tuple variant of one field.
pub open spec fn variant_item(v: VariantModel) -> VariantParts {
    VariantParts { name: v.name, fields: FieldsParts::Tuple(seq![type_text(v.payload)]) }
}

/// Named fields as `codegen` holds them: without a field there are no fields
/// of any kind.
pub open spec fn named_fields(fields: Seq<FieldParts>) -> FieldsParts {
    if fields.len() == 0 {
        FieldsParts::Empty
    } else {
        FieldsParts::Named(fields)
    }
}

/// The line that declares an alias.
pub open spec fn alias_line(name: Seq<char>, target: Seq<char>) -> Seq<char> {
    "pub type "@ + name + " = "@ + target + ";"@
}

/// The decorations of a definition as `codegen` gets them: each a raw line.
pub open spec fn decoration_lines(decorations: Seq<Seq<char>>) -> Seq<ItemParts> {
    decorations.map_values(|line: Seq<char>| ItemParts::Raw(line))
}

/// The items of one definition. A record and a union are decorated alike:
/// the decorations come first, each as a raw line, then the struct or the
/// enum. An alias is one raw line.
pub open spec fn definition_items(d: DefinitionModel) -> Seq<ItemParts> {
    match d {
        DefinitionModel::Record { name, derives, decorations, fields } => decoration_lines(
            decorations,
        ).push(
            ItemParts::Struct(
                StructParts {
                    name,
                    vis: Some(public()),
                    derives,
                    fields: named_fields(fields.map_values(|f: FieldModel| field_item(f))),
                },
            ),
        ),
        DefinitionModel::Union { name, derives, decorations, variants } => decoration_lines(
            decorations,
        ).push(
            ItemParts::Enum(
                EnumParts {
                    name,
                    vis: Some(public()),
                    derives,
                    variants: variants.map_values(|v: VariantModel| variant_item(v)),
                },
            ),
        ),
        DefinitionModel::Alias { name, target } => seq![
            ItemParts::Raw(alias_line(name, type_text(target))),
        ],
    }
}

/// The items of a sequence of definitions, in order.
pub open spec fn module_items(definitions: Seq<DefinitionModel>) -> Seq<ItemParts>
    decreases definitions.len(),
{
    if definitions.len() == 0 {
        Seq::empty()
    } else {
        module_items(definitions.drop_last()) + definition_items(definitions.last())
    }
}

/// A module as `codegen` gets it.
pub open spec fn module_parts(m: ModuleModel) -> ScopeParts {
    ScopeParts { imports: imported(m.imports), items: module_items(m.definitions) }
}

/// The source text of a module.
pub open spec fn module_text(m: ModuleModel) -> Seq<char> {
    scope_text(module_parts(m))
}

/// Builds the `codegen` field for `field`.
fn make_field(field: &RecordField) -> (f: codegen::Field)
    ensures
        field_parts(f) == field_item(field@),
{
    let ty = field.ty.text();
    let mut f = field_new(field.name.as_str(), ty.as_str());
    field_vis(&mut f, "pub");
    assert(texts(field.decorations@).take(0) =~= Seq::<Seq<char>>::empty());
    let mut i: usize = 0;
    while i < field.decorations.len()
        invariant
            0 <= i <= field.decorations.len(),
            field_parts(f) == (FieldParts {
                annotations: texts(field.decorations@).take(i as int),
                ..field_item(field@)
            }),
        decreases field.decorations.len() - i,
    {
        field_annotation(&mut f, field.decorations[i].as_str());
        assert(texts(field.decorations@).take(i as int).push(field.decorations@[i as int]@)
            =~= texts(field.decorations@).take(i + 1));
        i += 1;
    }
    assert(texts(field.decorations@).take(i as int) =~= texts(field.decorations@));
    f
}

/// Pushes the decorations of a definition to `scope`, each as a raw line.
fn push_decorations(scope: &mut codegen::Scope, decorations: &Vec<String>)
    ensures
        scope_parts(*final(scope)) == (ScopeParts {
            items: scope_parts(*old(scope)).items + decoration_lines(texts(decorations@)),
            ..scope_parts(*old(scope))
        }),
{
    let ghost before = scope_parts(*scope);
    let ghost lines = decoration_lines(texts(decorations@));
    assert(before.items + lines.take(0) =~= before.items);
    let mut j: usize = 0;
    while j < decorations.len()
        invariant
            0 <= j <= decorations.len(),
            lines == decoration_lines(texts(decorations@)),
            scope_parts(*scope) == (ScopeParts {
                items: before.items + lines.take(j as int),
                ..before
            }),
        decreases decorations.len() - j,
    {
        scope_raw(scope, decorations[j].as_str());
        assert((before.items + lines.take(j as int)).push(ItemParts::Raw(decorations@[j as int]@))
            =~= before.items + lines.take(j + 1));
        j += 1;
    }
    assert(lines.take(j as int) =~= lines);
}

/// Pushes the decorations and the struct for a record to `scope`.
fn push_record(
    scope: &mut codegen::Scope,
    name: &String,
    derives: &Vec<String>,
    decorations: &Vec<String>,
    fields: &Vec<RecordField>,
)
    ensures
        scope_parts(*final(scope)) == (ScopeParts {
            items: scope_parts(*old(scope)).items + decoration_lines(texts(decorations@)).push(
                ItemParts::Struct(
                    StructParts {
                        name: name@,
                        vis: Some(public()),
                        derives: texts(derives@),
                        fields: named_fields(
                            field_models(fields@).map_values(|f: FieldModel| field_item(f)),
                        ),
                    },
                ),
            ),
            ..scope_parts(*old(scope))
        }),
{
    let ghost before = scope_parts(*scope);
    let ghost lines = decoration_lines(texts(decorations@));
    push_decorations(scope, decorations);
    let mut s = struct_new(name.as_str());
    struct_vis(&mut s, "pub");
    let ghost start = struct_parts(s);
    assert(texts(derives@).take(0) =~= Seq::<Seq<char>>::empty());
    let mut i: usize = 0;
    while i < derives.len()
        invariant
            0 <= i <= derives.len(),
            struct_parts(s) == (StructParts { derives: texts(derives@).take(i as int), ..start }),
        decreases derives.len() - i,
    {
        struct_derive(&mut s, derives[i].as_str());
        assert(texts(derives@).take(i as int).push(derives@[i as int]@) =~= texts(derives@).take(
            i + 1,
        ));
        i += 1;
    }
    assert(texts(derives@).take(i as int) =~= texts(derives@));
    let ghost items = field_models(fields@).map_values(|f: FieldModel| field_item(f));
    assert(items.take(0) =~= Seq::<FieldParts>::empty());
    let mut k: usize = 0;
    while k < fields.len()
        invariant
            0 <= k <= fields.len(),
            items == field_models(fields@).map_values(|f: FieldModel| field_item(f)),
            struct_parts(s) == (StructParts {
                derives: texts(derives@),
                fields: named_fields(items.take(k as int)),
                ..start
            }),
        decreases fields.len() - k,
    {
        let f = make_field(&fields[k]);
        proof {
            let item = field_item(fields@[k as int]@);
            assert(items.take(k as int).push(item) =~= items.take(k + 1));
            if k == 0 {
                assert(items.take(0).len() == 0);
                assert(seq![item] =~= items.take(1));
            } else {
                assert(items.take(k as int).len() > 0);
            }
            assert(with_named(named_fields(items.take(k as int)), item) == named_fields(
                items.take(k + 1),
            ));
        }
        struct_push_field(&mut s, f);
        k += 1;
    }
    assert(items.take(k as int) =~= items);
    scope_push_struct(scope, s);
    assert((before.items + lines).push(ItemParts::Struct(struct_parts(s))) =~= before.items
        + lines.push(ItemParts::Struct(struct_parts(s))));
}

/// Pushes the decorations and the enum for a union to `scope`.
fn push_union(
    scope: &mut codegen::Scope,
    name: &String,
    derives: &Vec<String>,
    decorations: &Vec<String>,
    variants: &Vec<UnionVariant>,
)
    ensures
        scope_parts(*final(scope)) == (ScopeParts {
            items: scope_parts(*old(scope)).items + decoration_lines(texts(decorations@)).push(
                ItemParts::Enum(
                    EnumParts {
                        name: name@,
                        vis: Some(public()),
                        derives: texts(derives@),
                        variants: variant_models(variants@).map_values(
                            |v: VariantModel| variant_item(v),
                        ),
                    },
                ),
            ),
            ..scope_parts(*old(scope))
        }),
{
    let ghost before = scope_parts(*scope);
    let ghost lines = decoration_lines(texts(decorations@));
    push_decorations(scope, decorations);
    let mut e = enum_new(name.as_str());
    enum_vis(&mut e, "pub");
    let ghost start = enum_parts(e);
    assert(texts(derives@).take(0) =~= Seq::<Seq<char>>::empty());
    let mut i: usize = 0;
    while i < derives.len()
        invariant
            0 <= i <= derives.len(),
            enum_parts(e) == (EnumParts { derives: texts(derives@).take(i as int), ..start }),
        decreases derives.len() - i,
    {
        enum_derive(&mut e, derives[i].as_str());
        assert(texts(derives@).take(i as int).push(derives@[i as int]@) =~= texts(derives@).take(
            i + 1,
        ));
        i += 1;
    }
    assert(texts(derives@).take(i as int) =~= texts(derives@));
    let ghost items = variant_models(variants@).map_values(|v: VariantModel| variant_item(v));
    assert(items.take(0) =~= Seq::<VariantParts>::empty());
    let mut k: usize = 0;
    while k < variants.len()
        invariant
            0 <= k <= variants.len(),
            items == variant_models(variants@).map_values(|v: VariantModel| variant_item(v)),
            enum_parts(e) == (EnumParts {
                derives: texts(derives@),
                variants: items.take(k as int),
                ..start
            }),
        decreases variants.len() - k,
    {
        let ty = variants[k].payload.text();
        let mut v = variant_new(variants[k].name.as_str());
        variant_tuple(&mut v, ty.as_str());
        enum_push_variant(&mut e, v);
        assert(items.take(k as int).push(variant_item(variants@[k as int]@)) =~= items.take(k + 1));
        k += 1;
    }
    assert(items.take(k as int) =~= items);
    scope_push_enum(scope, e);
    assert((before.items + lines).push(ItemParts::Enum(enum_parts(e))) =~= before.items
        + lines.push(ItemParts::Enum(enum_parts(e))));
}

/// Pushes the items of one definition to `scope`.
fn push_definition(scope: &mut codegen::Scope, definition: &Definition)
    ensures
        scope_parts(*final(scope)) == (ScopeParts {
            items: scope_parts(*old(scope)).items + definition_items(definition@),
            ..scope_parts(*old(scope))
        }),
{
    let ghost before = scope_parts(*scope);
    match definition {
        Definition::Record { name, derives, decorations, fields } => {
            push_record(scope, name, derives, decorations, fields);
        },
        Definition::Union { name, derives, decorations, variants } => {
            push_union(scope, name, derives, decorations, variants);
        },
        Definition::Alias { name, target } => {
            let ty = target.text();
            let line = String::from_str("pub type ").concat(name.as_str()).concat(" = ").concat(
                ty.as_str(),
            ).concat(";");
            scope_raw(scope, line.as_str());
            assert(before.items.push(definition_items(definition@)[0]) =~= before.items
                + definition_items(definition@));
        },
    }
}

impl GeneratedModule {
    /// The module as source text: the imports first, then every definition in
    /// order, each as its decorations followed by the definition itself.
    pub fn render(&self) -> (r: String)
        ensures
            r@ == module_text(self@),
    {
        let mut scope = scope_new();
        let ghost pairs = import_pairs(self.imports@);
        assert(pairs.take(0) =~= Seq::<(Seq<char>, Seq<char>)>::empty());
        assert(imported(pairs.take(0)) =~= Seq::<ImportParts>::empty());
        let mut i: usize = 0;
        while i < self.imports.len()
            invariant
                0 <= i <= self.imports.len(),
                pairs == import_pairs(self.imports@),
                scope_parts(scope) == (ScopeParts {
                    imports: imported(pairs.take(i as int)),
                    items: Seq::empty(),
                }),
            decreases self.imports.len() - i,
        {
            scope_import(&mut scope, self.imports[i].path.as_str(), self.imports[i].name.as_str());
            proof {
                assert(pairs.take(i + 1).drop_last() =~= pairs.take(i as int));
                assert(pairs.take(i + 1).last() == pairs[i as int]);
            }
            i += 1;
        }
        assert(pairs.take(i as int) =~= pairs);
        let ghost models = definition_models(self.definitions@);
        assert(module_items(models.take(0)) =~= Seq::<ItemParts>::empty());
        let mut k: usize = 0;
        while k < self.definitions.len()
            invariant
                0 <= k <= self.definitions.len(),
                models == definition_models(self.definitions@),
                scope_parts(scope) == (ScopeParts {
                    imports: imported(pairs),
                    items: module_items(models.take(k as int)),
                }),
            decreases self.definitions.len() - k,
        {
            push_definition(&mut scope, &self.definitions[k]);
            proof {
                assert(models.take(k + 1).drop_last() =~= models.take(k as int));
                assert(models.take(k + 1).last() == self.definitions@[k as int]@);
            }
            k += 1;
        }
        assert(models.take(k as int) =~= models);
        scope_to_string(&scope)
    }
}

} // verus!
