//! The names of schemas that the document leaves anonymous: the bodies of
//! responses and requests.

use vstd::prelude::*;
use vstd::string::StringExecFns;
use crate::case::to_upper_camel_case;
use crate::case::upper_camel_case;
use crate::document::StatusCode;
use crate::text::lemma_next_separator_bounds;
use crate::text::lemma_split_joins_back;
use crate::text::next_separator;
use crate::text::split;
use crate::text::split_on;

verus! {

/// The character of a decimal digit.
pub open spec fn digit(d: int) -> char {
    if d == 0 {
        '0'
    } else if d == 1 {
        '1'
    } else if d == 2 {
        '2'
    } else if d == 3 {
        '3'
    } else if d == 4 {
        '4'
    } else if d == 5 {
        '5'
    } else if d == 6 {
        '6'
    } else if d == 7 {
        '7'
    } else if d == 8 {
        '8'
    } else {
        '9'
    }
}

/// A number in decimal, without leading zeros.
pub open spec fn decimal(n: nat) -> Seq<char>
    decreases n,
{
    if n < 10 {
        seq![digit(n as int)]
    } else {
        decimal(n / 10).push(digit((n % 10) as int))
    }
}

/// A status as it is written in a document: the code in decimal, or the first
/// digit of a range followed by `XX`.
pub open spec fn status_text(code: StatusCode) -> Seq<char> {
    match code {
        StatusCode::Code(n) => decimal(n as nat),
        StatusCode::Range(n) => decimal(n as nat) + "XX"@,
    }
}

/// `Display` of `openapiv3::StatusCode`, through `to_string`: a code is
/// written with `{}`, which for a `u16` is its decimal form, and a range is
/// written the same way with `XX` behind it.
#[verifier::external_body]
pub(crate) fn status_code_text(code: StatusCode) -> (r: String)
    ensures
        r@ == status_text(code),
{
    match code {
        StatusCode::Code(n) => openapiv3::StatusCode::Code(n).to_string(),
        StatusCode::Range(n) => openapiv3::StatusCode::Range(n).to_string(),
    }
}

/// The part of a media type behind its first `/`, up to the next one.
pub open spec fn media_subtype(media_type: Seq<char>) -> Seq<char> {
    split(media_type, '/')[1]
}

/// The method of an operation in upper camel case; nothing for a component,
/// which belongs to no operation.
pub open spec fn method_part(method: Option<Seq<char>>) -> Seq<char> {
    match method {
        Some(m) => upper_camel_case(m),
        None => Seq::empty(),
    }
}

/// The text of a method, where there is one.
pub open spec fn method_view(method: Option<&str>) -> Option<Seq<char>> {
    match method {
        Some(m) => Some(m@),
        None => None,
    }
}

/// The status of a response as text; nothing where there is none.
pub open spec fn status_part(status_code: Option<StatusCode>) -> Seq<char> {
    match status_code {
        Some(code) => status_text(code),
        None => Seq::empty(),
    }
}

/// A response name from its parts: the entity, the method, the status, the
/// media subtype, `Response`, and `Default` for the default response.
pub open spec fn joined_response_name(
    name: Seq<char>,
    method: Seq<char>,
    status: Seq<char>,
    subtype: Seq<char>,
    is_default: bool,
) -> Seq<char> {
    name + method + status + subtype + "Response"@ + (if is_default {
        "Default"@
    } else {
        Seq::empty()
    })
}

/// A request body name from its parts: the entity, the method, the media
/// subtype, and `RequestBody`.
pub open spec fn joined_request_body_name(
    name: Seq<char>,
    method: Seq<char>,
    subtype: Seq<char>,
) -> Seq<char> {
    name + method + subtype + "RequestBody"@
}

/// The name of the schema of a response body: the entity as it stands, the
/// method and the media subtype in upper camel case, the status between them.
pub open spec fn response_name(
    name: Seq<char>,
    method: Option<Seq<char>>,
    status_code: Option<StatusCode>,
    is_default: bool,
    media_type: Seq<char>,
) -> Seq<char> {
    joined_response_name(
        name,
        method_part(method),
        status_part(status_code),
        upper_camel_case(media_subtype(media_type)),
        is_default,
    )
}

/// The name of the schema of a request body: the entity as it stands, the
/// method and the media subtype in upper camel case.
pub open spec fn request_body_name(
    name: Seq<char>,
    method: Option<Seq<char>>,
    media_type: Seq<char>,
) -> Seq<char> {
    joined_request_body_name(
        name,
        method_part(method),
        upper_camel_case(media_subtype(media_type)),
    )
}

/// A text that holds the separator has a second segment.
pub proof fn lemma_split_has_second(s: Seq<char>, sep: char)
    requires
        s.contains(sep),
    ensures
        split(s, sep).len() >= 2,
{
    lemma_next_separator_bounds(s, sep, 0);
    let end = next_separator(s, sep, 0);
    let j = choose|j: int| 0 <= j < s.len() && s[j] == sep;
    assert(end <= j);
    lemma_split_joins_back(s, sep, end + 1);
}

/// The media subtype of `media_type`.
pub fn subtype_of(media_type: &str) -> (r: String)
    requires
        media_type@.contains('/'),
    ensures
        r@ == media_subtype(media_type@),
{
    let parts = split_on(media_type, '/');
    proof {
        lemma_split_has_second(media_type@, '/');
    }
    parts[1].clone()
}

/// The method in upper camel case, or nothing.
fn method_text(method: Option<&str>) -> (r: String)
    ensures
        r@ == method_part(method_view(method)),
{
    match method {
        Some(m) => to_upper_camel_case(m),
        None => String::new(),
    }
}

/// Puts the parts of a response name together.
pub fn join_response_name(
    name: String,
    method: &str,
    status: &str,
    subtype: &str,
    is_default: bool,
) -> (r: String)
    ensures
        r@ == joined_response_name(name@, method@, status@, subtype@, is_default),
{
    let r = name.concat(method).concat(status).concat(subtype).concat("Response");
    if is_default {
        r.concat("Default")
    } else {
        assert(r@ + Seq::<char>::empty() =~= r@);
        r
    }
}

/// Puts the parts of a request body name together.
pub fn join_request_body_name(name: String, method: &str, subtype: &str) -> (r: String)
    ensures
        r@ == joined_request_body_name(name@, method@, subtype@),
{
    name.concat(method).concat(subtype).concat("RequestBody")
}

/// The name under which the schema of a response body is catalogued.
pub fn generate_response_name(
    name: String,
    method: Option<&str>,
    status_code: Option<StatusCode>,
    is_default: bool,
    media_type: String,
) -> (r: String)
    requires
        media_type@.contains('/'),
    ensures
        r@ == response_name(name@, method_view(method), status_code, is_default, media_type@),
{
    let method = method_text(method);
    let status = match status_code {
        Some(code) => status_code_text(code),
        None => String::new(),
    };
    let subtype = subtype_of(media_type.as_str());
    let subtype = to_upper_camel_case(subtype.as_str());
    join_response_name(name, method.as_str(), status.as_str(), subtype.as_str(), is_default)
}

/// The name under which the schema of a request body is catalogued.
pub fn generate_request_body_name(name: String, method: Option<&str>, media_type: String) -> (r:
    String)
    requires
        media_type@.contains('/'),
    ensures
        r@ == request_body_name(name@, method_view(method), media_type@),
{
    let method = method_text(method);
    let subtype = subtype_of(media_type.as_str());
    let subtype = to_upper_camel_case(subtype.as_str());
    join_request_body_name(name, method.as_str(), subtype.as_str())
}

} // verus!
