//! A request matcher that accepts well-formed JSON uploads: a `POST` whose
//! `Content-Type` is `application/json`, whose `Content-Length` is the
//! length of its body, and whose body is a JSON object.

use vstd::prelude::*;
use vstd::utf8::{encode_utf8, is_ascii_chars_encode_utf8};
use crate::decimal::{
    decimal, lemma_decimal_digits, lemma_parse_decimal_roundtrip, parse_unsigned,
    parse_unsigned_spec, IntErrorKind,
};

verus! {

/// One header line of a request: its name and its raw value.
pub struct Header {
    pub name: Vec<u8>,
    pub value: Vec<u8>,
}

/// A request as the mock server received it, in plain values.  Its headers
/// are listed in the order of the server's header map, so that the first
/// one of a name is the value that the map gives for that name.
pub struct RecordedRequest {
    pub method: String,
    pub headers: Vec<Header>,
    pub body: Vec<u8>,
}

/// The byte `b` with ASCII upper-case letters turned to lower case.
pub open spec fn ascii_lower(b: u8) -> u8 {
    if 65 <= b <= 90 {
        (b + 32) as u8
    } else {
        b
    }
}

/// The two names are equal but for the case of ASCII letters, as header
/// names are compared.
pub open spec fn eq_ignore_ascii_case(a: Seq<u8>, b: Seq<u8>) -> bool {
    &&& a.len() == b.len()
    &&& forall|i: int| 0 <= i < a.len() ==> ascii_lower(#[trigger] a[i]) == ascii_lower(b[i])
}

/// The value of the first header named `key`, if any.
pub open spec fn find_header(headers: Seq<Header>, key: Seq<u8>) -> Option<Seq<u8>>
    decreases headers.len(),
{
    if headers.len() == 0 {
        None
    } else if eq_ignore_ascii_case(headers[0].name@, key) {
        Some(headers[0].value@)
    } else {
        find_header(headers.drop_first(), key)
    }
}

/// A byte that a header value may hold and still be read as text: visible
/// ASCII or a tab.
pub open spec fn is_visible_ascii(b: u8) -> bool {
    (32 <= b && b < 127) || b == 9
}

/// A header value that reads as text.
pub open spec fn is_header_text(value: Seq<u8>) -> bool {
    forall|i: int| 0 <= i < value.len() ==> is_visible_ascii(#[trigger] value[i])
}

/// Compares two names, ignoring the case of ASCII letters.
pub fn names_match(a: &[u8], b: &[u8]) -> (r: bool)
    ensures
        r == eq_ignore_ascii_case(a@, b@),
{
    if a.len() != b.len() {
        return false;
    }
    let mut i: usize = 0;
    while i < a.len()
        invariant
            a@.len() == b@.len(),
            i <= a@.len(),
            forall|j: int| 0 <= j < i ==> ascii_lower(#[trigger] a@[j]) == ascii_lower(b@[j]),
        decreases a@.len() - i,
    {
        let x = a[i];
        let y = b[i];
        let lx: u8 = if 65 <= x && x <= 90 { x + 32 } else { x };
        let ly: u8 = if 65 <= y && y <= 90 { y + 32 } else { y };
        if lx != ly {
            assert(ascii_lower(a@[i as int]) != ascii_lower(b@[i as int]));
            return false;
        }
        i = i + 1;
    }
    true
}

/// The value of the first header named `key` (ignoring ASCII case), as a
/// header map gives it.
pub fn header_value<'a>(headers: &'a Vec<Header>, key: &[u8]) -> (r: Option<&'a Vec<u8>>)
    ensures
        match find_header(headers@, key@) {
            Some(v) => r matches Some(x) && x@ == v,
            None => r is None,
        },
{
    let mut i: usize = 0;
    assert(headers@.skip(0) =~= headers@);
    while i < headers.len()
        invariant
            i <= headers@.len(),
            find_header(headers@, key@) == find_header(headers@.skip(i as int), key@),
        decreases headers@.len() - i,
    {
        assert(headers@.skip(i as int)[0] == headers@[i as int]);
        assert(headers@.skip(i as int).drop_first() =~= headers@.skip(i + 1));
        if names_match(headers[i].name.as_slice(), key) {
            return Some(&headers[i].value);
        }
        i = i + 1;
    }
    assert(headers@.skip(i as int).len() == 0);
    None
}

/// Whether the value reads as text.
pub fn header_text_ok(value: &[u8]) -> (r: bool)
    ensures
        r == is_header_text(value@),
{
    let mut i: usize = 0;
    while i < value.len()
        invariant
            i <= value@.len(),
            forall|j: int| 0 <= j < i ==> is_visible_ascii(#[trigger] value@[j]),
        decreases value@.len() - i,
    {
        let b = value[i];
        if !((32 <= b && b < 127) || b == 9) {
            assert(!is_visible_ascii(value@[i as int]));
            return false;
        }
        i = i + 1;
    }
    true
}

/// Whether two byte strings are equal.
pub fn bytes_equal(a: &[u8], b: &[u8]) -> (r: bool)
    ensures
        r == (a@ == b@),
{
    if a.len() != b.len() {
        return false;
    }
    let mut i: usize = 0;
    while i < a.len()
        invariant
            a@.len() == b@.len(),
            i <= a@.len(),
            forall|j: int| 0 <= j < i ==> a@[j] == b@[j],
        decreases a@.len() - i,
    {
        if a[i] != b[i] {
            return false;
        }
        i = i + 1;
    }
    assert(a@ =~= b@);
    true
}

/// What reading the `Content-Length` header gives: its value parsed as a
/// `usize`; an invalid digit when the header is missing or is not text.
pub open spec fn content_length_spec(request: RecordedRequest) -> Result<int, IntErrorKind> {
    match find_header(request.headers@, encode_utf8("Content-Length"@)) {
        None => Err(IntErrorKind::InvalidDigit),
        Some(v) => if is_header_text(v) {
            parse_unsigned_spec(v, usize::MAX as int)
        } else {
            Err(IntErrorKind::InvalidDigit)
        },
    }
}

/// Reads the `Content-Length` header of `request` as a `usize`.
pub fn get_content_length(request: &RecordedRequest) -> (r: Result<usize, IntErrorKind>)
    ensures
        match content_length_spec(*request) {
            Ok(v) => r matches Ok(n) && n == v,
            Err(e) => r == Err::<usize, IntErrorKind>(e),
        },
{
    match header_value(&request.headers, "Content-Length".as_bytes()) {
        None => Err(IntErrorKind::InvalidDigit),
        Some(value) => {
            if !header_text_ok(value.as_slice()) {
                return Err(IntErrorKind::InvalidDigit);
            }
            match parse_unsigned(value.as_slice(), usize::MAX as u64) {
                Ok(n) => Ok(n as usize),
                Err(e) => Err(e),
            }
        },
    }
}

/// Whether `serde_json::from_slice::<serde_json::Map<String, serde_json::Value>>`
/// accepts `bytes`: a single JSON object, with nothing but whitespace around
/// it.
pub uninterp spec fn json_object_parses(bytes: Seq<u8>) -> bool;

/// Calls `serde_json::from_slice::<serde_json::Map<String, serde_json::Value>>`
/// on `bytes` and tells whether it succeeded, that is whether the bytes hold
/// one JSON object.  The contract claims only that the answer is a function
/// of the bytes alone, named `json_object_parses`.
#[verifier::external_body]
fn body_parses_as_json_object(bytes: &[u8]) -> (r: bool)
    ensures
        r == json_object_parses(bytes@),
{
    serde_json::from_slice::<serde_json::Map<String, serde_json::Value>>(bytes).is_ok()
}

/// The request is a `POST`.
pub open spec fn method_ok(request: RecordedRequest) -> bool {
    request.method@ == "POST"@
}

/// The request says that its body is JSON.
pub open spec fn content_type_ok(request: RecordedRequest) -> bool {
    find_header(request.headers@, encode_utf8("Content-Type"@)) == Some(
        encode_utf8("application/json"@),
    )
}

/// The request's `Content-Length` is the length of its body.
pub open spec fn content_length_ok(request: RecordedRequest) -> bool {
    content_length_spec(request) == Ok::<int, IntErrorKind>(request.body@.len() as int)
}

/// Matches well-formed JSON uploads.
pub struct WellFormedJson;

impl WellFormedJson {
    /// Whether the request matches, given whether its body is a JSON object.
    pub fn matches_with_body_check(&self, request: &RecordedRequest, body_is_json: bool) -> (r: bool)
        ensures
            r == (method_ok(*request) && content_type_ok(*request) && content_length_ok(*request)
                && body_is_json),
    {
        let ok_method = request.method == "POST".to_owned();
        let ok_content_type = match header_value(&request.headers, "Content-Type".as_bytes()) {
            Some(value) => bytes_equal(value.as_slice(), "application/json".as_bytes()),
            None => false,
        };
        let ok_content_length = match get_content_length(request) {
            Ok(length) => length == request.body.len(),
            Err(_) => false,
        };
        ok_method && ok_content_type && ok_content_length && body_is_json
    }

    /// Whether the request is a `POST` of a JSON object whose
    /// `Content-Type` is `application/json` and whose `Content-Length` is the
    /// length of its body.
    pub fn matches(&self, request: &RecordedRequest) -> (r: bool)
        ensures
            r == (method_ok(*request) && content_type_ok(*request) && content_length_ok(*request)
                && json_object_parses(request.body@)),
    {
        let body_is_json = body_parses_as_json_object(request.body.as_slice());
        self.matches_with_body_check(request, body_is_json)
    }
}

/// A `Content-Type` whose value is not text never counts as JSON: the
/// request does not match.
pub proof fn lemma_unreadable_content_type_rejected(request: RecordedRequest)
    requires
        find_header(request.headers@, encode_utf8("Content-Type"@)) matches Some(v) && !is_header_text(v),
    ensures
        !content_type_ok(request),
{
    reveal_strlit("application/json");
    let chars = "application/json"@;
    assert(vstd::utf8::is_ascii_chars(chars));
    is_ascii_chars_encode_utf8(chars);
    let bytes = encode_utf8(chars);
    assert forall|i: int| 0 <= i < bytes.len() implies is_visible_ascii(#[trigger] bytes[i]) by {
        assert(bytes[i] == chars[i] as u8);
    }
}

/// Header names are looked up without regard to the case of ASCII
/// letters: two keys that differ only so find the same value.
pub proof fn lemma_header_lookup_ignores_case(headers: Seq<Header>, k1: Seq<u8>, k2: Seq<u8>)
    requires
        eq_ignore_ascii_case(k1, k2),
    ensures
        find_header(headers, k1) == find_header(headers, k2),
    decreases headers.len(),
{
    if headers.len() > 0 {
        let name = headers[0].name@;
        if eq_ignore_ascii_case(name, k1) {
            assert forall|i: int| 0 <= i < name.len() implies ascii_lower(#[trigger] name[i]) == ascii_lower(k2[i]) by {
                assert(ascii_lower(name[i]) == ascii_lower(k1[i]));
                assert(ascii_lower(k1[i]) == ascii_lower(k2[i]));
            }
        } else if eq_ignore_ascii_case(name, k2) {
            assert forall|i: int| 0 <= i < name.len() implies ascii_lower(#[trigger] name[i]) == ascii_lower(k1[i]) by {
                assert(ascii_lower(name[i]) == ascii_lower(k2[i]));
                assert(ascii_lower(k1[i]) == ascii_lower(k2[i]));
            }
        }
        lemma_header_lookup_ignores_case(headers.drop_first(), k1, k2);
    }
}

proof fn lemma_decimal_is_header_text(n: nat)
    ensures
        is_header_text(encode_utf8(decimal(n))),
    decreases n,
{
    lemma_decimal_digits(n);
    is_ascii_chars_encode_utf8(decimal(n));
    assert forall|i: int| 0 <= i < encode_utf8(decimal(n)).len() implies is_visible_ascii(
        #[trigger] encode_utf8(decimal(n))[i],
    ) by {
        assert(encode_utf8(decimal(n))[i] == decimal(n)[i] as u8);
    }
}

/// A `Content-Length` header that holds the body's length written in
/// decimal (as HTTP clients write it) is read back as that length.
pub proof fn lemma_decimal_content_length_accepted(request: RecordedRequest)
    requires
        request.body@.len() <= usize::MAX,
        find_header(request.headers@, encode_utf8("Content-Length"@)) == Some(
            encode_utf8(decimal(request.body@.len())),
        ),
    ensures
        content_length_ok(request),
{
    lemma_decimal_is_header_text(request.body@.len());
    lemma_parse_decimal_roundtrip(request.body@.len(), usize::MAX as int);
}

/// The content length depends on the request's headers alone: two requests
/// with the same headers, whatever their methods and bodies, read the same
/// length.
pub proof fn lemma_content_length_depends_on_headers(a: RecordedRequest, b: RecordedRequest)
    requires
        a.headers@ == b.headers@,
    ensures
        content_length_spec(a) == content_length_spec(b),
{
}

/// A `Content-Length` header written in decimal as `m` reads as `m`, and the
/// request's length check passes exactly when `m` is the body's length.
pub proof fn lemma_content_length_reads_decimal(request: RecordedRequest, m: nat)
    requires
        m <= usize::MAX,
        find_header(request.headers@, encode_utf8("Content-Length"@)) == Some(encode_utf8(decimal(m))),
    ensures
        content_length_spec(request) == Ok::<int, IntErrorKind>(m as int),
        content_length_ok(request) <==> m == request.body@.len(),
{
    lemma_decimal_is_header_text(m);
    lemma_parse_decimal_roundtrip(m, usize::MAX as int);
}

} // verus!
