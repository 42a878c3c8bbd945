//! What holds of the library as a whole, proved from the definitions that its
//! contracts use.

use vstd::prelude::*;
use crate::catalogue::Catalogue;
use crate::catalogue::NamedSchema;
use crate::catalogue::lemma_entries_determined_by_map;
use crate::document::MediaType;
use crate::document::Operation;
use crate::document::PathItem;
use crate::document::ReferenceOr;
use crate::document::RequestBody;
use crate::document::Response;
use crate::document::SchemaDocument;
use crate::document::StatusCode;
use crate::error::GenError;
use crate::generate::definition_maker;
use crate::input::was_read;
use crate::generate::entry_definition;
use crate::generate::field_maker;
use crate::generate::field_of;
use crate::generate::generated;
use crate::generate::schema_definition;
use crate::generate::struct_definition;
use crate::generate::variant_maker;
use crate::options::Decoration;
use crate::options::Options;
use crate::options::active_decorations;
use crate::options::exempts;
use crate::parse::Entries;
use crate::parse::collected;
use crate::parse::with_bodies;
use crate::parse::with_body;
use crate::parse::with_operation;
use crate::parse::with_path_item;
use crate::parse::with_paths;
use crate::parse::with_response;
use crate::parse::with_responses;
use crate::parse::with_status_responses;
use crate::parse::with_schemas;
use crate::schema::ArrayType;
use crate::schema::ObjectType;
use crate::schema::SchemaKind;
use crate::schema::SchemaRef;
use crate::schema::Type;
use crate::sequence::lemma_try_map_err;
use crate::sequence::lemma_try_map_ok;
use crate::sequence::lemma_try_map_pointwise;
use crate::text::holds_text;
use crate::text::joined;
use crate::text::lemma_split_joins_back;
use crate::text::next_separator;
use crate::text::split;
use crate::text::split_from;
use crate::types::TypeModel;
use crate::types::Unsupported;
use crate::types::array_type;
use crate::types::inner_type;
use crate::types::kind_type;
use crate::types::reference_target;
use crate::types::resolved_type;

verus! {

/// Whether two outcomes of generation are the same: the same text, or a
/// failure on the same schema for the same reason.
pub open spec fn same_outcome(a: Result<String, GenError>, b: Result<String, GenError>) -> bool {
    match (a, b) {
        (Ok(x), Ok(y)) => x@ == y@,
        (
            Err(GenError::Unsupported { schema: s, reason: r }),
            Err(GenError::Unsupported { schema: t, reason: q }),
        ) => s@ == t@ && r == q,
        _ => false,
    }
}

/// Generation is a function of its input: whatever two runs on the same
/// entries and options return, they return the same.
pub proof fn law_generation_is_deterministic(
    entries: Seq<NamedSchema>,
    options: Options,
    a: Result<String, GenError>,
    b: Result<String, GenError>,
)
    requires
        generated(entries, options, a),
        generated(entries, options, b),
    ensures
        same_outcome(a, b),
{
}

/// Whether two outcomes of reading are the same: the same description, or
/// the same error.
pub open spec fn same_reading(
    a: Result<openapiv3::OpenAPI, GenError>,
    b: Result<openapiv3::OpenAPI, GenError>,
) -> bool {
    match (a, b) {
        (Ok(x), Ok(y)) => x == y,
        (Err(GenError::JsonError(e)), Err(GenError::JsonError(f))) => e == f,
        (Err(GenError::YamlError(e)), Err(GenError::YamlError(f))) => e == f,
        (
            Err(GenError::WrongFileExtension(Some(e))),
            Err(GenError::WrongFileExtension(Some(f))),
        ) => e@ == f@,
        (Err(GenError::WrongFileExtension(None)), Err(GenError::WrongFileExtension(None))) => true,
        _ => false,
    }
}

/// Reading is a function of the extension and the text: whatever two runs on
/// the same file return, they return the same.
pub proof fn law_reading_is_deterministic(
    extension: Option<&str>,
    data: Seq<char>,
    a: Result<openapiv3::OpenAPI, GenError>,
    b: Result<openapiv3::OpenAPI, GenError>,
)
    requires
        was_read(extension, data, a),
        was_read(extension, data, b),
    ensures
        same_reading(a, b),
{
}

/// From a document to its text there is no choice: two catalogues of the same
/// document list the same schemas in the same order, so whatever two runs on
/// them return with the same options, they return the same.
pub proof fn law_pipeline_is_deterministic(
    document: SchemaDocument,
    options: Options,
    first: Catalogue,
    second: Catalogue,
    a: Result<String, GenError>,
    b: Result<String, GenError>,
)
    requires
        first.wf(),
        first@ == collected(document),
        second.wf(),
        second@ == collected(document),
        generated(first.entries(), options, a),
        generated(second.entries(), options, b),
    ensures
        same_outcome(a, b),
{
    let f = definition_maker(options);
    lemma_entries_determined_by_map(first.entries(), second.entries());
    assert forall|i: int| 0 <= i < first.entries().len() implies f(#[trigger] first.entries()[i])
        == f(second.entries()[i]) by {
        assert(f(first.entries()[i]) == entry_definition(first.entries()[i], options));
        assert(f(second.entries()[i]) == entry_definition(second.entries()[i], options));
    }
    lemma_try_map_pointwise(first.entries(), second.entries(), f);
}

/// The type of a position before requiredness is applied is never optional.
pub proof fn lemma_inner_type_is_not_optional(r: SchemaRef)
    requires
        inner_type(r) is Ok,
    ensures
        !(inner_type(r)->Ok_0 is Optional),
{
    match r {
        SchemaRef::Reference(_) => {},
        SchemaRef::Inline(kind) => {
            match *kind {
                SchemaKind::Type(t) => {
                    match t {
                        Type::Array(a) => {
                            assert(array_type(a) is Ok);
                        },
                        _ => {},
                    }
                },
                _ => {},
            }
        },
    }
}

/// A position that has a type keeps it where it is required and has it
/// wrapped as optional where it is not; the type itself is not optional.
pub proof fn law_requiredness(r: SchemaRef)
    requires
        inner_type(r) is Ok,
    ensures
        !(inner_type(r)->Ok_0 is Optional),
        resolved_type(r, true) == Ok::<TypeModel, Unsupported>(inner_type(r)->Ok_0),
        resolved_type(r, false) == Ok::<TypeModel, Unsupported>(
            TypeModel::Optional(Box::new(inner_type(r)->Ok_0)),
        ),
{
    lemma_inner_type_is_not_optional(r);
}

/// In a record the field of a required property has the property's own type,
/// which is not optional, and the field of any other property has that type
/// wrapped as optional.
pub proof fn law_record_requiredness(
    name: Seq<char>,
    object: ObjectType,
    options: Options,
    i: int,
)
    requires
        0 <= i < object.properties@.len(),
        struct_definition(name, Type::Object(object), options) is Ok,
    ensures
        struct_definition(name, Type::Object(object), options)->Ok_0 is Record,
        inner_type(object.properties@[i].schema) is Ok,
        !(inner_type(object.properties@[i].schema)->Ok_0 is Optional),
        ({
            let fields = struct_definition(name, Type::Object(object), options)->Ok_0->fields;
            let property = object.properties@[i];
            let own = inner_type(property.schema)->Ok_0;
            &&& fields.len() == object.properties@.len()
            &&& holds_text(object.required@, property.name@) ==> fields[i].ty == own
            &&& !holds_text(object.required@, property.name@) ==> fields[i].ty
                == TypeModel::Optional(Box::new(own))
        }),
{
    let decorations = active_decorations(options.field_attrs@, name);
    let f = field_maker(object.required@, decorations);
    lemma_try_map_ok(object.properties@, f);
    let property = object.properties@[i];
    assert(f(property) == field_of(property, object.required@, decorations));
    lemma_inner_type_is_not_optional(property.schema);
}

/// The array whose items have the schema `items`, written in place.
pub open spec fn array_of(items: SchemaRef) -> SchemaRef {
    SchemaRef::Inline(Box::new(SchemaKind::Type(Type::Array(ArrayType { items: Some(items) }))))
}

/// The items of an array are resolved as required whether or not the array
/// itself is: only the sequence is wrapped as optional, never its items.
pub proof fn law_array_items_are_required(items: SchemaRef, is_required: bool)
    requires
        resolved_type(array_of(items), is_required) is Ok,
    ensures
        inner_type(items) is Ok,
        !(inner_type(items)->Ok_0 is Optional),
        resolved_type(array_of(items), true) == Ok::<TypeModel, Unsupported>(
            TypeModel::Sequence(Box::new(inner_type(items)->Ok_0)),
        ),
        resolved_type(array_of(items), false) == Ok::<TypeModel, Unsupported>(
            TypeModel::Optional(
                Box::new(TypeModel::Sequence(Box::new(inner_type(items)->Ok_0))),
            ),
        ),
{
    let kind = SchemaKind::Type(Type::Array(ArrayType { items: Some(items) }));
    assert(inner_type(array_of(items)) == kind_type(kind));
    assert(kind_type(kind) == array_type(ArrayType { items: Some(items) }));
    lemma_inner_type_is_not_optional(items);
}

/// Where nothing between `from` and `to` is the separator and `to` is one, or
/// the end, the next separator from `from` on is at `to`.
pub proof fn lemma_next_separator_at(s: Seq<char>, sep: char, from: int, to: int)
    requires
        0 <= from <= to <= s.len(),
        forall|j: int| from <= j < to ==> s[j] != sep,
        to < s.len() ==> s[to] == sep,
    ensures
        next_separator(s, sep, from) == to,
    decreases to - from,
{
    if from < to {
        lemma_next_separator_at(s, sep, from + 1, to);
    }
}

/// A reference to a schema of the components resolves to exactly the name
/// behind `#/components/schemas/`.
pub proof fn law_schema_reference_resolves(name: Seq<char>)
    requires
        name.len() > 0,
        !name.contains('/'),
    ensures
        reference_target("#/components/schemas/"@ + name) == Ok::<Seq<char>, Unsupported>(name),
{
    reveal_strlit("#/components/schemas/");
    reveal_strlit("#");
    reveal_strlit("components");
    reveal_strlit("schemas");
    let prefix = "#/components/schemas/"@;
    let s = prefix + name;
    assert(prefix.len() == 21);
    assert(forall|j: int| 0 <= j < 21 ==> s[j] == prefix[j]);
    assert forall|j: int| 21 <= j < s.len() implies s[j] != '/' by {
        assert(s[j] == name[j - 21]);
        assert(name.contains(name[j - 21]));
    }
    lemma_next_separator_at(s, '/', 0, 1);
    lemma_next_separator_at(s, '/', 2, 12);
    lemma_next_separator_at(s, '/', 13, 20);
    lemma_next_separator_at(s, '/', 21, s.len() as int);
    let last = split_from(s, '/', 21);
    assert(last == seq![s.subrange(21, s.len() as int)]);
    let third = split_from(s, '/', 13);
    assert(third == seq![s.subrange(13, 20)] + last);
    let second = split_from(s, '/', 2);
    assert(second == seq![s.subrange(2, 12)] + third);
    let parts = split(s, '/');
    assert(parts == seq![s.subrange(0, 1)] + second);
    assert(parts.len() == 4);
    assert(parts[0] =~= "#"@);
    assert(parts[1] =~= "components"@);
    assert(parts[2] =~= "schemas"@);
    assert(parts[3] =~= name);
}

/// Only references of the form `#/components/schemas/<Name>` resolve: a
/// reference that resolves to a name is that prefix followed by the name, and
/// the name is not empty and holds no `/`.
pub proof fn law_resolved_reference_has_the_form(reference: Seq<char>)
    requires
        reference_target(reference) is Ok,
    ensures
        reference == "#/components/schemas/"@ + reference_target(reference)->Ok_0,
        reference_target(reference)->Ok_0.len() > 0,
        !reference_target(reference)->Ok_0.contains('/'),
{
    reveal_strlit("#/components/schemas/");
    reveal_strlit("#");
    reveal_strlit("components");
    reveal_strlit("schemas");
    let parts = split(reference, '/');
    let name = parts[3];
    lemma_split_joins_back(reference, '/', 0);
    assert(reference.subrange(0, reference.len() as int) =~= reference);
    let from_second = parts.drop_first();
    let from_third = from_second.drop_first();
    let from_fourth = from_third.drop_first();
    assert(from_fourth.len() == 1);
    assert(joined(from_fourth, '/') == name);
    assert(joined(from_third, '/') == parts[2] + seq!['/'] + name);
    assert(joined(from_second, '/') == parts[1] + seq!['/'] + joined(from_third, '/'));
    assert(joined(parts, '/') == parts[0] + seq!['/'] + joined(from_second, '/'));
    assert(reference =~= "#/components/schemas/"@ + name);
}

/// A reference whose second segment is not `components`, or whose third is
/// not `schemas`, resolves to nothing.
pub proof fn law_other_reference_fails(reference: Seq<char>)
    requires
        split(reference, '/').len() >= 3 ==> split(reference, '/')[1] != "components"@ || split(
            reference,
            '/',
        )[2] != "schemas"@,
    ensures
        reference_target(reference) == Err::<Seq<char>, Unsupported>(Unsupported::Reference),
{
}

/// A reference of fewer or more than four segments resolves to nothing, and
/// so does one whose name is empty.
pub proof fn law_reference_of_other_length_fails(reference: Seq<char>)
    requires
        split(reference, '/').len() != 4 || split(reference, '/')[3].len() == 0,
    ensures
        reference_target(reference) == Err::<Seq<char>, Unsupported>(Unsupported::Reference),
{
}

/// A reference into the responses of the components, whatever it names,
/// resolves to nothing: its third segment is not `schemas`.
pub proof fn law_response_reference_fails(name: Seq<char>)
    ensures
        reference_target("#/components/responses/"@ + name) == Err::<Seq<char>, Unsupported>(
            Unsupported::Reference,
        ),
{
    reveal_strlit("#/components/responses/");
    reveal_strlit("schemas");
    let prefix = "#/components/responses/"@;
    let s = prefix + name;
    assert(prefix.len() == 23);
    assert(forall|j: int| 0 <= j < 23 ==> s[j] == prefix[j]);
    lemma_next_separator_at(s, '/', 0, 1);
    lemma_next_separator_at(s, '/', 2, 12);
    lemma_next_separator_at(s, '/', 13, 22);
    let third = split_from(s, '/', 13);
    assert(third == seq![s.subrange(13, 22)] + split_from(s, '/', 23));
    let second = split_from(s, '/', 2);
    assert(second == seq![s.subrange(2, 12)] + third);
    let parts = split(s, '/');
    assert(parts == seq![s.subrange(0, 1)] + second);
    assert(parts[2] == s.subrange(13, 22));
    assert(parts[2].len() == 9);
    assert("schemas"@.len() == 7);
    assert(parts[2] != "schemas"@);
}

/// Whether a schema position uses `allOf` or `not`, itself or anywhere below.
pub open spec fn position_uses_composition(r: SchemaRef) -> bool
    decreases r,
{
    match r {
        SchemaRef::Inline(kind) => uses_composition(*kind),
        SchemaRef::Reference(_) => false,
    }
}

/// Whether a schema uses `allOf` or `not`, itself or anywhere below.
pub open spec fn uses_composition(kind: SchemaKind) -> bool
    decreases kind,
{
    match kind {
        SchemaKind::AllOf => true,
        SchemaKind::Not => true,
        SchemaKind::Any => false,
        SchemaKind::OneOf(alternatives) => exists|i: int|
            0 <= i < alternatives@.len() && position_uses_composition(#[trigger] alternatives@[i]),
        SchemaKind::AnyOf(alternatives) => exists|i: int|
            0 <= i < alternatives@.len() && position_uses_composition(#[trigger] alternatives@[i]),
        SchemaKind::Type(Type::Array(a)) => match a.items {
            Some(items) => position_uses_composition(items),
            None => false,
        },
        SchemaKind::Type(Type::Object(object)) => exists|i: int|
            0 <= i < object.properties@.len() && position_uses_composition(
                (#[trigger] object.properties@[i]).schema,
            ),
        SchemaKind::Type(_) => false,
    }
}

/// A position that uses `allOf` or `not` has no type.
pub proof fn lemma_composition_has_no_type(r: SchemaRef)
    requires
        position_uses_composition(r),
    ensures
        inner_type(r) is Err,
    decreases r,
{
    match r {
        SchemaRef::Reference(_) => {},
        SchemaRef::Inline(kind) => {
            match *kind {
                SchemaKind::Type(Type::Array(a)) => {
                    match a.items {
                        Some(items) => {
                            lemma_composition_has_no_type(items);
                        },
                        None => {},
                    }
                },
                _ => {},
            }
        },
    }
}

/// A schema that uses `allOf` or `not` anywhere has no definition.
pub proof fn lemma_composition_has_no_definition(
    name: Seq<char>,
    kind: SchemaKind,
    options: Options,
)
    requires
        uses_composition(kind),
    ensures
        schema_definition(name, kind, options) is Err,
{
    match kind {
        SchemaKind::OneOf(alternatives) => {
            let i = choose|i: int|
                0 <= i < alternatives@.len() && position_uses_composition(
                    #[trigger] alternatives@[i],
                );
            lemma_composition_has_no_type(alternatives@[i]);
            assert(variant_maker()(alternatives@[i]) is Err);
            lemma_try_map_err(alternatives@, variant_maker(), i);
        },
        SchemaKind::AnyOf(alternatives) => {
            let i = choose|i: int|
                0 <= i < alternatives@.len() && position_uses_composition(
                    #[trigger] alternatives@[i],
                );
            lemma_composition_has_no_type(alternatives@[i]);
            assert(variant_maker()(alternatives@[i]) is Err);
            lemma_try_map_err(alternatives@, variant_maker(), i);
        },
        SchemaKind::Type(Type::Array(a)) => {
            match a.items {
                Some(items) => {
                    lemma_composition_has_no_type(items);
                },
                None => {},
            }
        },
        SchemaKind::Type(Type::Object(object)) => {
            let i = choose|i: int|
                0 <= i < object.properties@.len() && position_uses_composition(
                    (#[trigger] object.properties@[i]).schema,
                );
            lemma_composition_has_no_type(object.properties@[i].schema);
            let f = field_maker(
                object.required@,
                active_decorations(options.field_attrs@, name),
            );
            assert(f(object.properties@[i]) is Err);
            lemma_try_map_err(object.properties@, f, i);
        },
        _ => {},
    }
}

/// One schema that uses `allOf` or `not`, at the top or anywhere below, makes
/// generation fail: no text is produced.
pub proof fn law_composition_is_rejected(
    entries: Seq<NamedSchema>,
    options: Options,
    i: int,
    r: Result<String, GenError>,
)
    requires
        0 <= i < entries.len(),
        uses_composition(entries[i].kind),
        generated(entries, options, r),
    ensures
        r is Err,
{
    lemma_composition_has_no_definition(entries[i].name@, entries[i].kind, options);
    assert(definition_maker(options)(entries[i]) is Err);
    lemma_try_map_err(entries, definition_maker(options), i);
}

/// A component schema that is only a reference adds nothing to the catalogue:
/// where every entry called `name` is a reference, the catalogue holds under
/// `name` what it held before, or nothing if it held nothing.
pub proof fn law_reference_component_is_dropped(
    m: Entries,
    schemas: Seq<(String, SchemaRef)>,
    name: Seq<char>,
)
    requires
        forall|i: int|
            0 <= i < schemas.len() && (#[trigger] schemas[i]).0@ == name ==> schemas[i].1
                is Reference,
    ensures
        with_schemas(m, schemas).dom().contains(name) == m.dom().contains(name),
        m.dom().contains(name) ==> with_schemas(m, schemas)[name] == m[name],
    decreases schemas.len(),
{
    if schemas.len() > 0 {
        let before = schemas.drop_last();
        assert forall|i: int| 0 <= i < before.len() && (#[trigger] before[i]).0@ == name implies before[i].1 is Reference by {
            assert(before[i] == schemas[i]);
        }
        law_reference_component_is_dropped(m, before, name);
        assert(schemas.last() == schemas[schemas.len() - 1]);
    }
}

/// Whether two catalogues hold the same under `name`: both nothing, or both
/// the same schema.
pub open spec fn agree_at(a: Entries, b: Entries, name: Seq<char>) -> bool {
    &&& a.dom().contains(name) == b.dom().contains(name)
    &&& a.dom().contains(name) ==> a[name] == b[name]
}

/// What a response adds under a name does not depend on what else the
/// catalogue holds.
pub proof fn lemma_response_keeps_agreement(
    a: Entries,
    b: Entries,
    key: Seq<char>,
    name: Seq<char>,
    method: Option<Seq<char>>,
    status_code: Option<StatusCode>,
    is_default: bool,
    content: Seq<(String, MediaType)>,
)
    requires
        agree_at(a, b, key),
    ensures
        agree_at(
            with_response(a, name, method, status_code, is_default, content),
            with_response(b, name, method, status_code, is_default, content),
            key,
        ),
    decreases content.len(),
{
    if content.len() > 0 {
        lemma_response_keeps_agreement(
            a,
            b,
            key,
            name,
            method,
            status_code,
            is_default,
            content.drop_last(),
        );
    }
}

/// What a request body adds under a name does not depend on what else the
/// catalogue holds.
pub proof fn lemma_body_keeps_agreement(
    a: Entries,
    b: Entries,
    key: Seq<char>,
    name: Seq<char>,
    method: Option<Seq<char>>,
    content: Seq<(String, MediaType)>,
)
    requires
        agree_at(a, b, key),
    ensures
        agree_at(with_body(a, name, method, content), with_body(b, name, method, content), key),
    decreases content.len(),
{
    if content.len() > 0 {
        lemma_body_keeps_agreement(a, b, key, name, method, content.drop_last());
    }
}

/// What the named responses add under a name does not depend on what else the
/// catalogue holds.
pub proof fn lemma_responses_keep_agreement(
    a: Entries,
    b: Entries,
    key: Seq<char>,
    responses: Seq<(String, ReferenceOr<Response>)>,
)
    requires
        agree_at(a, b, key),
    ensures
        agree_at(with_responses(a, responses), with_responses(b, responses), key),
    decreases responses.len(),
{
    if responses.len() > 0 {
        lemma_responses_keep_agreement(a, b, key, responses.drop_last());
        match responses.last().1 {
            ReferenceOr::Item(response) => {
                lemma_response_keeps_agreement(
                    with_responses(a, responses.drop_last()),
                    with_responses(b, responses.drop_last()),
                    key,
                    responses.last().0@,
                    None,
                    None,
                    false,
                    response.content@,
                );
            },
            ReferenceOr::Reference(_) => {},
        }
    }
}

/// What the named request bodies add under a name does not depend on what
/// else the catalogue holds.
pub proof fn lemma_bodies_keep_agreement(
    a: Entries,
    b: Entries,
    key: Seq<char>,
    bodies: Seq<(String, ReferenceOr<RequestBody>)>,
)
    requires
        agree_at(a, b, key),
    ensures
        agree_at(with_bodies(a, bodies), with_bodies(b, bodies), key),
    decreases bodies.len(),
{
    if bodies.len() > 0 {
        lemma_bodies_keep_agreement(a, b, key, bodies.drop_last());
        match bodies.last().1 {
            ReferenceOr::Item(body) => {
                lemma_body_keeps_agreement(
                    with_bodies(a, bodies.drop_last()),
                    with_bodies(b, bodies.drop_last()),
                    key,
                    bodies.last().0@,
                    None,
                    body.content@,
                );
            },
            ReferenceOr::Reference(_) => {},
        }
    }
}

/// What the responses of an operation add under a name does not depend on
/// what else the catalogue holds.
pub proof fn lemma_status_responses_keep_agreement(
    a: Entries,
    b: Entries,
    key: Seq<char>,
    name: Seq<char>,
    method: Seq<char>,
    responses: Seq<(StatusCode, ReferenceOr<Response>)>,
)
    requires
        agree_at(a, b, key),
    ensures
        agree_at(
            with_status_responses(a, name, method, responses),
            with_status_responses(b, name, method, responses),
            key,
        ),
    decreases responses.len(),
{
    if responses.len() > 0 {
        lemma_status_responses_keep_agreement(a, b, key, name, method, responses.drop_last());
        match responses.last().1 {
            ReferenceOr::Item(response) => {
                lemma_response_keeps_agreement(
                    with_status_responses(a, name, method, responses.drop_last()),
                    with_status_responses(b, name, method, responses.drop_last()),
                    key,
                    name,
                    Some(method),
                    Some(responses.last().0),
                    false,
                    response.content@,
                );
            },
            ReferenceOr::Reference(_) => {},
        }
    }
}

/// What an operation adds under a name does not depend on what else the
/// catalogue holds.
pub proof fn lemma_operation_keeps_agreement(
    a: Entries,
    b: Entries,
    key: Seq<char>,
    name: Seq<char>,
    method: Seq<char>,
    operation: Operation,
)
    requires
        agree_at(a, b, key),
    ensures
        agree_at(
            with_operation(a, name, method, operation),
            with_operation(b, name, method, operation),
            key,
        ),
{
    let (a1, b1) = match operation.request_body {
        Some(ReferenceOr::Item(body)) => {
            lemma_body_keeps_agreement(a, b, key, name, Some(method), body.content@);
            (
                with_body(a, name, Some(method), body.content@),
                with_body(b, name, Some(method), body.content@),
            )
        },
        _ => (a, b),
    };
    let (a2, b2) = match operation.responses.default {
        Some(ReferenceOr::Item(response)) => {
            lemma_response_keeps_agreement(
                a1,
                b1,
                key,
                name,
                Some(method),
                None,
                true,
                response.content@,
            );
            (
                with_response(a1, name, Some(method), None, true, response.content@),
                with_response(b1, name, Some(method), None, true, response.content@),
            )
        },
        _ => (a1, b1),
    };
    lemma_status_responses_keep_agreement(
        a2,
        b2,
        key,
        name,
        method,
        operation.responses.responses@,
    );
}

/// What a path adds under a name does not depend on what else the catalogue
/// holds.
pub proof fn lemma_path_item_keeps_agreement(
    a: Entries,
    b: Entries,
    key: Seq<char>,
    name: Seq<char>,
    operations: Seq<(String, Operation)>,
)
    requires
        agree_at(a, b, key),
    ensures
        agree_at(with_path_item(a, name, operations), with_path_item(b, name, operations), key),
    decreases operations.len(),
{
    if operations.len() > 0 {
        lemma_path_item_keeps_agreement(a, b, key, name, operations.drop_last());
        lemma_operation_keeps_agreement(
            with_path_item(a, name, operations.drop_last()),
            with_path_item(b, name, operations.drop_last()),
            key,
            name,
            operations.last().0@,
            operations.last().1,
        );
    }
}

/// What the paths add under a name does not depend on what else the catalogue
/// holds.
pub proof fn lemma_paths_keep_agreement(
    a: Entries,
    b: Entries,
    key: Seq<char>,
    paths: Seq<(String, ReferenceOr<PathItem>)>,
)
    requires
        agree_at(a, b, key),
    ensures
        agree_at(with_paths(a, paths), with_paths(b, paths), key),
    decreases paths.len(),
{
    if paths.len() > 0 {
        lemma_paths_keep_agreement(a, b, key, paths.drop_last());
        match paths.last().1 {
            ReferenceOr::Item(item) => {
                lemma_path_item_keeps_agreement(
                    with_paths(a, paths.drop_last()),
                    with_paths(b, paths.drop_last()),
                    key,
                    paths.last().0@,
                    item.operations@,
                );
            },
            ReferenceOr::Reference(_) => {},
        }
    }
}

/// The catalogue of a document without its component schemas: what its
/// responses, request bodies and paths give.
pub open spec fn collected_beside_schemas(document: SchemaDocument) -> Entries {
    let from_components = match document.components {
        Some(components) => with_bodies(
            with_responses(Map::empty(), components.responses@),
            components.request_bodies@,
        ),
        None => Map::empty(),
    };
    with_paths(from_components, document.paths@)
}

/// In any document, component schemas that are only references add nothing:
/// where every component schema called `name` is a reference, the catalogue
/// holds under `name` exactly what the rest of the document puts there, and
/// nothing if the rest puts nothing there.
pub proof fn law_reference_component_adds_nothing(document: SchemaDocument, name: Seq<char>)
    requires
        document.components matches Some(components) ==> forall|i: int|
            0 <= i < components.schemas@.len() && (#[trigger] components.schemas@[i]).0@ == name
                ==> components.schemas@[i].1 is Reference,
    ensures
        agree_at(collected(document), collected_beside_schemas(document), name),
{
    match document.components {
        Some(components) => {
            let empty = Map::<Seq<char>, SchemaKind>::empty();
            let with_named = with_schemas(empty, components.schemas@);
            law_reference_component_is_dropped(empty, components.schemas@, name);
            assert(agree_at(with_named, empty, name));
            lemma_responses_keep_agreement(with_named, empty, name, components.responses@);
            lemma_bodies_keep_agreement(
                with_responses(with_named, components.responses@),
                with_responses(empty, components.responses@),
                name,
                components.request_bodies@,
            );
            lemma_paths_keep_agreement(
                with_bodies(
                    with_responses(with_named, components.responses@),
                    components.request_bodies@,
                ),
                with_bodies(with_responses(empty, components.responses@), components.request_bodies@),
                name,
                document.paths@,
            );
        },
        None => {},
    }
}

/// The catalogue of a document that holds nothing but component schemas has
/// no entry for a name whose schemas are all references.
pub proof fn law_reference_only_name_is_absent(document: SchemaDocument, name: Seq<char>)
    requires
        document.paths@.len() == 0,
        document.components matches Some(components) ==> ({
            &&& components.responses@.len() == 0
            &&& components.request_bodies@.len() == 0
            &&& forall|i: int|
                0 <= i < components.schemas@.len() && (#[trigger] components.schemas@[i]).0@
                    == name ==> components.schemas@[i].1 is Reference
        }),
    ensures
        !collected(document).dom().contains(name),
{
    match document.components {
        Some(components) => {
            law_reference_component_is_dropped(Map::empty(), components.schemas@, name);
        },
        None => {},
    }
}

/// A decoration is put on a schema exactly when its exception list does not
/// name the schema.
pub proof fn law_decoration_exceptions(d: Decoration, schema: Seq<char>)
    ensures
        exempts(d, schema) ==> active_decorations(seq![d], schema) == Seq::<Seq<char>>::empty(),
        !exempts(d, schema) ==> active_decorations(seq![d], schema) == seq![d.text@],
{
    let one = seq![d];
    assert(one.drop_last() =~= Seq::<Decoration>::empty());
    assert(one.last() == d);
    assert(active_decorations(one.drop_last(), schema) =~= Seq::<Seq<char>>::empty());
    if !exempts(d, schema) {
        assert(active_decorations(one, schema) =~= seq![d.text@]);
    }
}

/// Among many decorations, those that apply to a schema are exactly those
/// whose exception lists do not name it.
pub proof fn law_active_decorations(decorations: Seq<Decoration>, schema: Seq<char>, text: Seq<char>)
    ensures
        active_decorations(decorations, schema).contains(text) <==> exists|i: int|
            0 <= i < decorations.len() && (#[trigger] decorations[i]).text@ == text && !exempts(
                decorations[i],
                schema,
            ),
    decreases decorations.len(),
{
    if decorations.len() > 0 {
        let before = decorations.drop_last();
        let last = decorations.last();
        law_active_decorations(before, schema, text);
        let active_before = active_decorations(before, schema);
        let active = active_decorations(decorations, schema);
        if active.contains(text) {
            if active_before.contains(text) {
                let i = choose|i: int|
                    0 <= i < before.len() && (#[trigger] before[i]).text@ == text && !exempts(
                        before[i],
                        schema,
                    );
                assert(decorations[i] == before[i]);
            } else {
                assert(!exempts(last, schema));
                let k = choose|k: int| 0 <= k < active.len() && active[k] == text;
                if k < active_before.len() {
                    assert(active_before[k] == text);
                }
                assert(decorations[decorations.len() - 1].text@ == text);
            }
        }
        if exists|i: int|
            0 <= i < decorations.len() && (#[trigger] decorations[i]).text@ == text && !exempts(
                decorations[i],
                schema,
            ) {
            let i = choose|i: int|
                0 <= i < decorations.len() && (#[trigger] decorations[i]).text@ == text
                    && !exempts(decorations[i], schema);
            if i < before.len() {
                assert(before[i] == decorations[i]);
                assert(active_before.contains(text));
                let k = choose|k: int| 0 <= k < active_before.len() && active_before[k] == text;
                assert(active[k] == text);
            } else {
                assert(active[active.len() - 1] == text);
            }
        }
    }
}

} // verus!
