//! The collector: from a document to the catalogue of its schemas.
//!
//! Schemas written in place are catalogued: the named schemas of the
//! components under their own names, the bodies of responses and requests
//! under synthesized names. A position that only points elsewhere
//! contributes nothing.

use vstd::prelude::*;
use crate::catalogue::Catalogue;
use crate::document::Components;
use crate::document::MediaType;
use crate::document::Operation;
use crate::document::PathItem;
use crate::document::ReferenceOr;
use crate::document::RequestBody;
use crate::document::Response;
use crate::document::Responses;
use crate::document::SchemaDocument;
use crate::document::StatusCode;
use crate::naming::generate_request_body_name;
use crate::naming::generate_response_name;
use crate::naming::method_view;
use crate::naming::request_body_name;
use crate::naming::response_name;
use crate::schema::SchemaKind;
use crate::schema::SchemaRef;
use crate::text::has_char;

verus! {

/// The catalogue as a map from name to schema.
pub type Entries = Map<Seq<char>, SchemaKind>;

/// A media type adds its schema under `name` where the schema is written in
/// place.
pub open spec fn with_media_type(m: Entries, name: Seq<char>, mt: MediaType) -> Entries {
    match mt.schema {
        Some(SchemaRef::Inline(kind)) => m.insert(name, *kind),
        _ => m,
    }
}

/// The bodies of a response, each under its response name.
pub open spec fn with_response(
    m: Entries,
    name: Seq<char>,
    method: Option<Seq<char>>,
    status_code: Option<StatusCode>,
    is_default: bool,
    content: Seq<(String, MediaType)>,
) -> Entries
    decreases content.len(),
{
    if content.len() == 0 {
        m
    } else {
        with_media_type(
            with_response(m, name, method, status_code, is_default, content.drop_last()),
            response_name(name, method, status_code, is_default, content.last().0@),
            content.last().1,
        )
    }
}

/// The bodies of a request, each under its request body name.
pub open spec fn with_body(
    m: Entries,
    name: Seq<char>,
    method: Option<Seq<char>>,
    content: Seq<(String, MediaType)>,
) -> Entries
    decreases content.len(),
{
    if content.len() == 0 {
        m
    } else {
        with_media_type(
            with_body(m, name, method, content.drop_last()),
            request_body_name(name, method, content.last().0@),
            content.last().1,
        )
    }
}

/// The named schemas of the components: those written in place, under their
/// own names.
pub open spec fn with_schemas(m: Entries, schemas: Seq<(String, SchemaRef)>) -> Entries
    decreases schemas.len(),
{
    if schemas.len() == 0 {
        m
    } else {
        let before = with_schemas(m, schemas.drop_last());
        match schemas.last().1 {
            SchemaRef::Inline(kind) => before.insert(schemas.last().0@, *kind),
            SchemaRef::Reference(_) => before,
        }
    }
}

/// The named responses of the components.
pub open spec fn with_responses(m: Entries, responses: Seq<(String, ReferenceOr<Response>)>) -> Entries
    decreases responses.len(),
{
    if responses.len() == 0 {
        m
    } else {
        let before = with_responses(m, responses.drop_last());
        match responses.last().1 {
            ReferenceOr::Item(response) => with_response(
                before,
                responses.last().0@,
                None,
                None,
                false,
                response.content@,
            ),
            ReferenceOr::Reference(_) => before,
        }
    }
}

/// The named request bodies of the components.
pub open spec fn with_bodies(m: Entries, bodies: Seq<(String, ReferenceOr<RequestBody>)>) -> Entries
    decreases bodies.len(),
{
    if bodies.len() == 0 {
        m
    } else {
        let before = with_bodies(m, bodies.drop_last());
        match bodies.last().1 {
            ReferenceOr::Item(body) => with_body(before, bodies.last().0@, None, body.content@),
            ReferenceOr::Reference(_) => before,
        }
    }
}

/// The responses of an operation that carry a status.
pub open spec fn with_status_responses(
    m: Entries,
    name: Seq<char>,
    method: Seq<char>,
    responses: Seq<(StatusCode, ReferenceOr<Response>)>,
) -> Entries
    decreases responses.len(),
{
    if responses.len() == 0 {
        m
    } else {
        let before = with_status_responses(m, name, method, responses.drop_last());
        match responses.last().1 {
            ReferenceOr::Item(response) => with_response(
                before,
                name,
                Some(method),
                Some(responses.last().0),
                false,
                response.content@,
            ),
            ReferenceOr::Reference(_) => before,
        }
    }
}

/// One operation: its request body, its default response, then its responses
/// by status.
pub open spec fn with_operation(
    m: Entries,
    name: Seq<char>,
    method: Seq<char>,
    operation: Operation,
) -> Entries {
    let with_request = match operation.request_body {
        Some(ReferenceOr::Item(body)) => with_body(m, name, Some(method), body.content@),
        _ => m,
    };
    let with_default = match operation.responses.default {
        Some(ReferenceOr::Item(response)) => with_response(
            with_request,
            name,
            Some(method),
            None,
            true,
            response.content@,
        ),
        _ => with_request,
    };
    with_status_responses(with_default, name, method, operation.responses.responses@)
}

/// The operations of one path.
pub open spec fn with_path_item(m: Entries, name: Seq<char>, operations: Seq<(String, Operation)>) -> Entries
    decreases operations.len(),
{
    if operations.len() == 0 {
        m
    } else {
        with_operation(
            with_path_item(m, name, operations.drop_last()),
            name,
            operations.last().0@,
            operations.last().1,
        )
    }
}

/// The paths of a document.
pub open spec fn with_paths(m: Entries, paths: Seq<(String, ReferenceOr<PathItem>)>) -> Entries
    decreases paths.len(),
{
    if paths.len() == 0 {
        m
    } else {
        let before = with_paths(m, paths.drop_last());
        match paths.last().1 {
            ReferenceOr::Item(item) => with_path_item(before, paths.last().0@, item.operations@),
            ReferenceOr::Reference(_) => before,
        }
    }
}

/// The shared definitions of a document: schemas, then responses, then
/// request bodies.
pub open spec fn with_components(m: Entries, components: Components) -> Entries {
    with_bodies(
        with_responses(with_schemas(m, components.schemas@), components.responses@),
        components.request_bodies@,
    )
}

/// The catalogue of a document: its components, then its paths. Where two
/// schemas get the same name, the later one stays.
pub open spec fn collected(document: SchemaDocument) -> Entries {
    let from_components = match document.components {
        Some(components) => with_components(Map::empty(), components),
        None => Map::empty(),
    };
    with_paths(from_components, document.paths@)
}

/// Whether every media type of a body names a subtype.
pub open spec fn content_is_typed(content: Seq<(String, MediaType)>) -> bool {
    forall|i: int| 0 <= i < content.len() ==> (#[trigger] content[i]).0@.contains('/')
}

/// Whether every media type of a response written in place names a subtype.
pub open spec fn response_is_typed(response: ReferenceOr<Response>) -> bool {
    match response {
        ReferenceOr::Item(r) => content_is_typed(r.content@),
        ReferenceOr::Reference(_) => true,
    }
}

/// Whether every media type of a request body written in place names a
/// subtype.
pub open spec fn body_is_typed(body: ReferenceOr<RequestBody>) -> bool {
    match body {
        ReferenceOr::Item(b) => content_is_typed(b.content@),
        ReferenceOr::Reference(_) => true,
    }
}

/// Whether every media type of an operation names a subtype.
pub open spec fn operation_is_typed(operation: Operation) -> bool {
    &&& operation.request_body matches Some(body) ==> body_is_typed(body)
    &&& operation.responses.default matches Some(response) ==> response_is_typed(response)
    &&& forall|i: int|
        0 <= i < operation.responses.responses@.len() ==> response_is_typed(
            (#[trigger] operation.responses.responses@[i]).1,
        )
}

/// Whether every media type of the operations of a path names a subtype.
pub open spec fn operations_are_typed(operations: Seq<(String, Operation)>) -> bool {
    forall|i: int| 0 <= i < operations.len() ==> operation_is_typed((#[trigger] operations[i]).1)
}

/// Whether every media type of a path written in place names a subtype.
pub open spec fn path_is_typed(path: ReferenceOr<PathItem>) -> bool {
    match path {
        ReferenceOr::Item(item) => operations_are_typed(item.operations@),
        ReferenceOr::Reference(_) => true,
    }
}

/// Whether every media type of the components names a subtype.
pub open spec fn components_are_typed(components: Components) -> bool {
    &&& forall|i: int|
        0 <= i < components.responses@.len() ==> response_is_typed(
            (#[trigger] components.responses@[i]).1,
        )
    &&& forall|i: int|
        0 <= i < components.request_bodies@.len() ==> body_is_typed(
            (#[trigger] components.request_bodies@[i]).1,
        )
}

/// Whether every media type of a response or request body that the document
/// writes in place has the form `type/subtype`.
pub open spec fn document_is_typed(document: SchemaDocument) -> bool {
    &&& document.components matches Some(components) ==> components_are_typed(components)
    &&& forall|i: int|
        0 <= i < document.paths@.len() ==> path_is_typed((#[trigger] document.paths@[i]).1)
}

/// Whether every media type of a body names a subtype.
pub fn content_typed(content: &Vec<(String, MediaType)>) -> (r: bool)
    ensures
        r == content_is_typed(content@),
{
    let mut i: usize = 0;
    while i < content.len()
        invariant
            0 <= i <= content.len(),
            forall|k: int| 0 <= k < i ==> (#[trigger] content@[k]).0@.contains('/'),
        decreases content.len() - i,
    {
        if !has_char(content[i].0.as_str(), '/') {
            return false;
        }
        i += 1;
    }
    true
}

/// Whether every media type of a response written in place names a subtype.
pub fn response_typed(response: &ReferenceOr<Response>) -> (r: bool)
    ensures
        r == response_is_typed(*response),
{
    match response {
        ReferenceOr::Item(item) => content_typed(&item.content),
        ReferenceOr::Reference(_) => true,
    }
}

/// Whether every media type of a request body written in place names a
/// subtype.
pub fn body_typed(body: &ReferenceOr<RequestBody>) -> (r: bool)
    ensures
        r == body_is_typed(*body),
{
    match body {
        ReferenceOr::Item(item) => content_typed(&item.content),
        ReferenceOr::Reference(_) => true,
    }
}

/// Whether every media type of an operation names a subtype.
#[verifier::loop_isolation(false)]
pub fn operation_typed(operation: &Operation) -> (r: bool)
    ensures
        r == operation_is_typed(*operation),
{
    if let Some(body) = &operation.request_body {
        if !body_typed(body) {
            return false;
        }
    }
    if let Some(response) = &operation.responses.default {
        if !response_typed(response) {
            return false;
        }
    }
    let responses = &operation.responses.responses;
    let mut i: usize = 0;
    while i < responses.len()
        invariant
            0 <= i <= responses.len(),
            forall|k: int| 0 <= k < i ==> response_is_typed((#[trigger] responses@[k]).1),
        decreases responses.len() - i,
    {
        if !response_typed(&responses[i].1) {
            return false;
        }
        i += 1;
    }
    true
}

/// Whether every media type of a path written in place names a subtype.
#[verifier::loop_isolation(false)]
pub fn path_typed(path: &ReferenceOr<PathItem>) -> (r: bool)
    ensures
        r == path_is_typed(*path),
{
    match path {
        ReferenceOr::Item(item) => {
            let mut i: usize = 0;
            while i < item.operations.len()
                invariant
                    0 <= i <= item.operations.len(),
                    forall|k: int|
                        0 <= k < i ==> operation_is_typed((#[trigger] item.operations@[k]).1),
                decreases item.operations.len() - i,
            {
                if !operation_typed(&item.operations[i].1) {
                    return false;
                }
                i += 1;
            }
            true
        },
        ReferenceOr::Reference(_) => true,
    }
}

/// Whether every media type of the components names a subtype.
#[verifier::loop_isolation(false)]
pub fn components_typed(components: &Components) -> (r: bool)
    ensures
        r == components_are_typed(*components),
{
    let mut i: usize = 0;
    while i < components.responses.len()
        invariant
            0 <= i <= components.responses.len(),
            forall|k: int|
                0 <= k < i ==> response_is_typed((#[trigger] components.responses@[k]).1),
        decreases components.responses.len() - i,
    {
        if !response_typed(&components.responses[i].1) {
            return false;
        }
        i += 1;
    }
    let mut j: usize = 0;
    while j < components.request_bodies.len()
        invariant
            0 <= j <= components.request_bodies.len(),
            forall|k: int|
                0 <= k < components.responses@.len() ==> response_is_typed(
                    (#[trigger] components.responses@[k]).1,
                ),
            forall|k: int|
                0 <= k < j ==> body_is_typed((#[trigger] components.request_bodies@[k]).1),
        decreases components.request_bodies.len() - j,
    {
        if !body_typed(&components.request_bodies[j].1) {
            return false;
        }
        j += 1;
    }
    true
}

impl SchemaDocument {
    /// Whether every media type of a response or request body that the
    /// document writes in place has the form `type/subtype`, as collecting
    /// its schemas needs.
    #[verifier::loop_isolation(false)]
    pub fn is_typed(&self) -> (r: bool)
        ensures
            r == document_is_typed(*self),
    {
        if let Some(components) = &self.components {
            if !components_typed(components) {
                return false;
            }
        }
        let mut i: usize = 0;
        while i < self.paths.len()
            invariant
                0 <= i <= self.paths.len(),
                self.components matches Some(components) ==> components_are_typed(components),
                forall|k: int| 0 <= k < i ==> path_is_typed((#[trigger] self.paths@[k]).1),
            decreases self.paths.len() - i,
        {
            if !path_typed(&self.paths[i].1) {
                return false;
            }
            i += 1;
        }
        true
    }
}

/// Catalogues the named schemas of the components. An entry that is only a
/// reference is left out.
pub fn gather_from_schemas(schemas: &mut Catalogue, map: Vec<(String, SchemaRef)>)
    requires
        old(schemas).wf(),
    ensures
        final(schemas).wf(),
        final(schemas)@ == with_schemas(old(schemas)@, map@),
{
    let ghost all = map@;
    let ghost start = schemas@;
    for entry in it: map
        invariant
            it.seq() == all,
            schemas.wf(),
            schemas@ == with_schemas(start, all.take(it.index())),
    {
        proof {
            assert(all.take(it.index() + 1).drop_last() =~= all.take(it.index()));
        }
        let (name, refor) = entry;
        if let SchemaRef::Inline(i) = refor {
            schemas.insert(name, *i);
        }
    }
    assert(all.take(all.len() as int) =~= all);
}

/// Catalogues the schema of one media type under `name`, where it is written
/// in place.
pub fn from_single_media_type(schemas: &mut Catalogue, name: String, mt: MediaType)
    requires
        old(schemas).wf(),
    ensures
        final(schemas).wf(),
        final(schemas)@ == with_media_type(old(schemas)@, name@, mt),
{
    if let Some(refor) = mt.schema {
        if let SchemaRef::Inline(i) = refor {
            schemas.insert(name, *i);
        }
    }
}

/// Catalogues the bodies of one response.
pub fn from_single_response(
    schemas: &mut Catalogue,
    name: &String,
    method: Option<&str>,
    status_code: Option<StatusCode>,
    is_default: bool,
    resp: Response,
)
    requires
        old(schemas).wf(),
        content_is_typed(resp.content@),
    ensures
        final(schemas).wf(),
        final(schemas)@ == with_response(
            old(schemas)@,
            name@,
            method_view(method),
            status_code,
            is_default,
            resp.content@,
        ),
{
    let ghost all = resp.content@;
    let ghost start = schemas@;
    for entry in it: resp.content
        invariant
            it.seq() == all,
            content_is_typed(all),
            schemas.wf(),
            schemas@ == with_response(
                start,
                name@,
                method_view(method),
                status_code,
                is_default,
                all.take(it.index()),
            ),
    {
        proof {
            assert(all.take(it.index() + 1).drop_last() =~= all.take(it.index()));
            assert(all[it.index()].0@.contains('/'));
        }
        let (mtn, mt) = entry;
        let schema_name = generate_response_name(name.clone(), method, status_code, is_default, mtn);
        from_single_media_type(schemas, schema_name, mt);
    }
    assert(all.take(all.len() as int) =~= all);
}

/// Catalogues the bodies of one request body.
pub fn from_single_body(
    schemas: &mut Catalogue,
    name: &String,
    method: Option<&str>,
    body: RequestBody,
)
    requires
        old(schemas).wf(),
        content_is_typed(body.content@),
    ensures
        final(schemas).wf(),
        final(schemas)@ == with_body(old(schemas)@, name@, method_view(method), body.content@),
{
    let ghost all = body.content@;
    let ghost start = schemas@;
    for entry in it: body.content
        invariant
            it.seq() == all,
            content_is_typed(all),
            schemas.wf(),
            schemas@ == with_body(start, name@, method_view(method), all.take(it.index())),
    {
        proof {
            assert(all.take(it.index() + 1).drop_last() =~= all.take(it.index()));
            assert(all[it.index()].0@.contains('/'));
        }
        let (mtn, mt) = entry;
        let schema_name = generate_request_body_name(name.clone(), method, mtn);
        from_single_media_type(schemas, schema_name, mt);
    }
    assert(all.take(all.len() as int) =~= all);
}

/// Catalogues the named responses of the components.
pub fn gather_from_responses(schemas: &mut Catalogue, map: Vec<(String, ReferenceOr<Response>)>)
    requires
        old(schemas).wf(),
        forall|i: int| 0 <= i < map@.len() ==> response_is_typed((#[trigger] map@[i]).1),
    ensures
        final(schemas).wf(),
        final(schemas)@ == with_responses(old(schemas)@, map@),
{
    let ghost all = map@;
    let ghost start = schemas@;
    for entry in it: map
        invariant
            it.seq() == all,
            forall|i: int| 0 <= i < all.len() ==> response_is_typed((#[trigger] all[i]).1),
            schemas.wf(),
            schemas@ == with_responses(start, all.take(it.index())),
    {
        proof {
            assert(all.take(it.index() + 1).drop_last() =~= all.take(it.index()));
            assert(response_is_typed(all[it.index()].1));
        }
        let (name, refor) = entry;
        if let ReferenceOr::Item(i) = refor {
            from_single_response(schemas, &name, None, None, false, i);
        }
    }
    assert(all.take(all.len() as int) =~= all);
}

/// Catalogues the named request bodies of the components.
pub fn gather_from_bodies(schemas: &mut Catalogue, map: Vec<(String, ReferenceOr<RequestBody>)>)
    requires
        old(schemas).wf(),
        forall|i: int| 0 <= i < map@.len() ==> body_is_typed((#[trigger] map@[i]).1),
    ensures
        final(schemas).wf(),
        final(schemas)@ == with_bodies(old(schemas)@, map@),
{
    let ghost all = map@;
    let ghost start = schemas@;
    for entry in it: map
        invariant
            it.seq() == all,
            forall|i: int| 0 <= i < all.len() ==> body_is_typed((#[trigger] all[i]).1),
            schemas.wf(),
            schemas@ == with_bodies(start, all.take(it.index())),
    {
        proof {
            assert(all.take(it.index() + 1).drop_last() =~= all.take(it.index()));
            assert(body_is_typed(all[it.index()].1));
        }
        let (name, refor) = entry;
        if let ReferenceOr::Item(i) = refor {
            from_single_body(schemas, &name, None, i);
        }
    }
    assert(all.take(all.len() as int) =~= all);
}

/// Catalogues the bodies of one operation: its request body, its default
/// response, then its responses by status.
fn from_single_operation(
    schemas: &mut Catalogue,
    name: &String,
    method: &str,
    operation: Operation,
)
    requires
        old(schemas).wf(),
        operation_is_typed(operation),
    ensures
        final(schemas).wf(),
        final(schemas)@ == with_operation(old(schemas)@, name@, method@, operation),
{
    let Operation { request_body, responses } = operation;
    let Responses { default, responses } = responses;
    if let Some(ReferenceOr::Item(body)) = request_body {
        from_single_body(schemas, name, Some(method), body);
    }
    if let Some(ReferenceOr::Item(resp)) = default {
        from_single_response(schemas, name, Some(method), None, true, resp);
    }
    let ghost all = responses@;
    let ghost start = schemas@;
    for entry in it: responses
        invariant
            it.seq() == all,
            forall|i: int| 0 <= i < all.len() ==> response_is_typed((#[trigger] all[i]).1),
            schemas.wf(),
            schemas@ == with_status_responses(start, name@, method@, all.take(it.index())),
    {
        proof {
            assert(all.take(it.index() + 1).drop_last() =~= all.take(it.index()));
            assert(response_is_typed(all[it.index()].1));
        }
        let (status_code, refor_resp) = entry;
        if let ReferenceOr::Item(resp) = refor_resp {
            from_single_response(schemas, name, Some(method), Some(status_code), false, resp);
        }
    }
    assert(all.take(all.len() as int) =~= all);
}

/// Catalogues the bodies of every operation of one path.
pub fn from_single_path_item(schemas: &mut Catalogue, name: String, pi: PathItem)
    requires
        old(schemas).wf(),
        operations_are_typed(pi.operations@),
    ensures
        final(schemas).wf(),
        final(schemas)@ == with_path_item(old(schemas)@, name@, pi.operations@),
{
    let ghost all = pi.operations@;
    let ghost start = schemas@;
    for entry in it: pi.operations
        invariant
            it.seq() == all,
            operations_are_typed(all),
            schemas.wf(),
            schemas@ == with_path_item(start, name@, all.take(it.index())),
    {
        proof {
            assert(all.take(it.index() + 1).drop_last() =~= all.take(it.index()));
            assert(operation_is_typed(all[it.index()].1));
        }
        let (method, operation) = entry;
        from_single_operation(schemas, &name, method.as_str(), operation);
    }
    assert(all.take(all.len() as int) =~= all);
}

/// Catalogues the bodies of every path written in place.
pub fn gather_from_paths(schemas: &mut Catalogue, map: Vec<(String, ReferenceOr<PathItem>)>)
    requires
        old(schemas).wf(),
        forall|i: int| 0 <= i < map@.len() ==> path_is_typed((#[trigger] map@[i]).1),
    ensures
        final(schemas).wf(),
        final(schemas)@ == with_paths(old(schemas)@, map@),
{
    let ghost all = map@;
    let ghost start = schemas@;
    for entry in it: map
        invariant
            it.seq() == all,
            forall|i: int| 0 <= i < all.len() ==> path_is_typed((#[trigger] all[i]).1),
            schemas.wf(),
            schemas@ == with_paths(start, all.take(it.index())),
    {
        proof {
            assert(all.take(it.index() + 1).drop_last() =~= all.take(it.index()));
            assert(path_is_typed(all[it.index()].1));
        }
        let (name, refor) = entry;
        if let ReferenceOr::Item(pi) = refor {
            from_single_path_item(schemas, name, pi);
        }
    }
    assert(all.take(all.len() as int) =~= all);
}

/// The catalogue of a document: one entry for every schema that the document
/// writes in place at a position that is collected, under a unique name and in
/// the order of the names.
pub fn parse_schema(oapi: SchemaDocument) -> (schemas: Catalogue)
    requires
        document_is_typed(oapi),
    ensures
        schemas.wf(),
        schemas@ == collected(oapi),
{
    let mut schemas = Catalogue::new();
    let SchemaDocument { components, paths } = oapi;
    if let Some(components) = components {
        let Components { schemas: named, responses, request_bodies } = components;
        gather_from_schemas(&mut schemas, named);
        gather_from_responses(&mut schemas, responses);
        gather_from_bodies(&mut schemas, request_bodies);
    }
    gather_from_paths(&mut schemas, paths);
    schemas
}

/// The catalogue of any document: as [`parse_schema`] where every media type
/// names a subtype, nothing where one does not.
pub fn try_parse_schema(oapi: SchemaDocument) -> (r: Option<Catalogue>)
    ensures
        (match r {
            Some(schemas) => document_is_typed(oapi) && schemas.wf() && schemas@ == collected(oapi),
            None => !document_is_typed(oapi),
        }),
{
    if oapi.is_typed() {
        Some(parse_schema(oapi))
    } else {
        None
    }
}

} // verus!
