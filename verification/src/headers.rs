//! The headers of the issuance request.
//!
//! The header map, its names and its values are those of the HTTP library that
//! sends the request. Their behaviour is stated here, in the trusted items of
//! this file, and is not proved; what this crate builds on top of them is.

use vstd::prelude::*;
use vstd::string::*;
use vstd::utf8::*;
use reqwest::header::{HeaderMap, HeaderName, HeaderValue, InvalidHeaderValue};
use reqwest::header::{AUTHORIZATION, CONTENT_TYPE};
use crate::error::HeaderError;

verus! {

/// The HTTP library's multimap from header names to header values.
#[verifier::external_type_specification]
#[verifier::external_body]
#[verifier::reject_recursive_types(T)]
pub struct ExHeaderMap<T>(reqwest::header::HeaderMap<T>);

/// The HTTP library's header value: a string of bytes that passed its checks.
#[verifier::external_type_specification]
#[verifier::external_body]
pub struct ExHeaderValue(reqwest::header::HeaderValue);

/// The HTTP library's header name, kept in lower case.
#[verifier::external_type_specification]
#[verifier::external_body]
pub struct ExHeaderName(reqwest::header::HeaderName);

/// The HTTP library's error for a string that is no header value.
#[verifier::external_type_specification]
#[verifier::external_body]
pub struct ExInvalidHeaderValue(reqwest::header::InvalidHeaderValue);

/// What a header map holds: for each name in it (as `HeaderName::as_str` gives
/// it), the values stored under that name, each as its bytes, in the order in
/// which `HeaderMap::get_all` yields them. The first is the one that
/// `HeaderMap::get` returns.
pub uninterp spec fn header_entries(headers: HeaderMap) -> Map<Seq<char>, Seq<Seq<u8>>>;

/// The bytes of a header value, as `HeaderValue::as_bytes` gives them.
pub uninterp spec fn header_value_bytes(value: HeaderValue) -> Seq<u8>;

/// The text of a header name, as `HeaderName::as_str` gives it.
pub uninterp spec fn header_name_text(name: HeaderName) -> Seq<char>;

/// A byte that `HeaderValue::from_static` lets through: printable ASCII or a tab.
pub open spec fn is_visible_ascii(b: u8) -> bool {
    (32 <= b < 127) || b == 9
}

/// A byte that `HeaderValue::from_str` lets through: anything from the space
/// upwards but DEL, or a tab.
pub open spec fn is_value_byte(b: u8) -> bool {
    (32 <= b && b != 127) || b == 9
}

/// Every byte of `bytes` may stand in a header value.
pub open spec fn all_value_bytes(bytes: Seq<u8>) -> bool {
    forall|i: int| 0 <= i < bytes.len() ==> is_value_byte(#[trigger] bytes[i])
}

/// The map that holds no header.
pub open spec fn no_headers() -> Map<Seq<char>, Seq<Seq<u8>>> {
    Map::empty()
}

/// `HeaderMap::insert` can fail only with this many names, or more, already
/// in the map. The map refuses to grow its table beyond 32768 slots, and it
/// grows a table no sooner than when five times the names reach the number of
/// its slots.
pub open spec fn insert_limit() -> nat {
    6554
}

/// Trusted: `HeaderMap::new` gives a map without entries.
#[verifier::external_body]
fn header_map_new() -> (headers: HeaderMap)
    ensures
        header_entries(headers) == no_headers(),
{
    HeaderMap::new()
}

/// Trusted: `HeaderMap::insert` makes `value` the only value under `name`,
/// whatever was stored there, and leaves the other names alone. It panics only
/// when the table would outgrow its limit, which the bound on the names rules
/// out.
#[verifier::external_body]
fn header_map_insert(headers: &mut HeaderMap, name: HeaderName, value: HeaderValue)
    requires
        header_entries(*old(headers)).dom().finite(),
        header_entries(*old(headers)).dom().len() < insert_limit(),
    ensures
        header_entries(*final(headers)) == header_entries(*old(headers)).insert(
            header_name_text(name),
            seq![header_value_bytes(value)],
        ),
{
    headers.insert(name, value);
}

/// Trusted: `HeaderValue::from_static` keeps the bytes of `text`. It panics on
/// a byte that is neither printable ASCII nor a tab, so callers must show
/// there is none.
#[verifier::external_body]
fn header_value_from_static(text: &'static str) -> (value: HeaderValue)
    requires
        forall|i: int|
            0 <= i < text.spec_bytes().len() ==> is_visible_ascii(#[trigger] text.spec_bytes()[i]),
    ensures
        header_value_bytes(value) == text.spec_bytes(),
{
    HeaderValue::from_static(text)
}

/// Trusted: `HeaderValue::from_str` accepts `text` exactly when each of its
/// bytes is at least 32 and not 127, or is a tab, and then keeps the bytes.
#[verifier::external_body]
fn header_value_from_str(text: &str) -> (parsed: Result<HeaderValue, InvalidHeaderValue>)
    ensures
        parsed is Ok <==> all_value_bytes(text.spec_bytes()),
        parsed matches Ok(value) ==> header_value_bytes(value) == text.spec_bytes(),
{
    HeaderValue::from_str(text)
}

/// Trusted: the `Display` text of `InvalidHeaderValue` is one fixed sentence.
#[verifier::external_body]
fn invalid_header_value_message(error: &InvalidHeaderValue) -> (message: String)
    ensures
        message@ == "failed to parse header value"@,
{
    error.to_string()
}

/// Trusted: the constant `CONTENT_TYPE` is the name `content-type`.
#[verifier::external_body]
fn content_type_name() -> (name: HeaderName)
    ensures
        header_name_text(name) == "content-type"@,
{
    CONTENT_TYPE
}

/// Trusted: the constant `AUTHORIZATION` is the name `authorization`.
#[verifier::external_body]
fn authorization_name() -> (name: HeaderName)
    ensures
        header_name_text(name) == "authorization"@,
{
    AUTHORIZATION
}

/// A character that may stand in a header value: no control character but the tab.
pub open spec fn is_header_char(c: char) -> bool {
    (32 <= c as u32 && c as u32 != 127) || c == '\t'
}

/// Every character of `text` may stand in a header value.
pub open spec fn header_safe(text: Seq<char>) -> bool {
    forall|i: int| 0 <= i < text.len() ==> is_header_char(#[trigger] text[i])
}

/// The value of the `authorization` header for a bearer credential.
pub open spec fn bearer(token: Seq<char>) -> Seq<char> {
    "Bearer "@ + token
}

/// The headers of an issuance request made with `token`, each with its one
/// value: a JSON body, and the credential as a bearer token.
pub open spec fn issuance_headers(token: Seq<char>) -> Map<Seq<char>, Seq<Seq<u8>>> {
    no_headers().insert("content-type"@, seq![encode_utf8("application/json"@)]).insert(
        "authorization"@,
        seq![encode_utf8(bearer(token))],
    )
}

proof fn lemma_scalar_bytes(c: char)
    ensures
        all_value_bytes(encode_scalar(c as u32)) <==> is_header_char(c),
{
    let v = c as u32;
    char_is_scalar(c);
    assert('\t' as u32 == 9);
    if has_width_1_encoding(v) {
        assert(leading_byte_width_1(v) == v) by (bit_vector)
            requires
                v <= 0x7F,
        ;
        assert(encode_scalar(v)[0] == v);
        if is_header_char(c) {
            assert(all_value_bytes(encode_scalar(v)));
        } else {
            assert(!is_value_byte(encode_scalar(v)[0]));
        }
    } else {
        assert(leading_byte_width_2(v) >= 0x80 && leading_byte_width_3(v) >= 0x80
            && leading_byte_width_4(v) >= 0x80 && last_continuation_byte(v) >= 0x80
            && second_last_continuation_byte(v) >= 0x80 && third_last_continuation_byte(v)
            >= 0x80) by (bit_vector);
        assert(all_value_bytes(encode_scalar(v)));
    }
}

/// A string passes the byte-wise check of the header value exactly when none
/// of its characters is a control character other than the tab: the bytes of a
/// character beyond ASCII all lie above 127.
pub proof fn lemma_encoded_value_bytes(text: Seq<char>)
    ensures
        all_value_bytes(encode_utf8(text)) <==> header_safe(text),
    decreases text.len(),
{
    if text.len() > 0 {
        let head = encode_scalar(text[0] as u32);
        let tail = encode_utf8(text.drop_first());
        lemma_scalar_bytes(text[0]);
        lemma_encoded_value_bytes(text.drop_first());
        assert(encode_utf8(text) == head + tail);
        if all_value_bytes(head + tail) {
            assert forall|i: int| 0 <= i < head.len() implies is_value_byte(#[trigger] head[i]) by {
                assert((head + tail)[i] == head[i]);
            }
            assert forall|i: int| 0 <= i < tail.len() implies is_value_byte(#[trigger] tail[i]) by {
                assert((head + tail)[head.len() + i] == tail[i]);
            }
            assert forall|i: int| 0 <= i < text.len() implies is_header_char(#[trigger] text[i]) by {
                if i > 0 {
                    assert(text.drop_first()[i - 1] == text[i]);
                }
            }
        }
        if header_safe(text) {
            assert(is_header_char(text[0]));
            assert forall|i: int| 0 <= i < text.drop_first().len() implies is_header_char(
                #[trigger] text.drop_first()[i],
            ) by {
                assert(text.drop_first()[i] == text[i + 1]);
            }
            assert(all_value_bytes(head + tail));
        }
    }
}

/// A credential with a line feed or a carriage return in it is never safe
/// to put in a header, wherever the character stands.
pub proof fn lemma_line_break_is_refused(token: Seq<char>)
    requires
        token.contains('\n') || token.contains('\r'),
    ensures
        !header_safe(token),
{
    let i = choose|i: int| 0 <= i < token.len() && (token[i] == '\n' || token[i] == '\r');
    assert(!is_header_char(token[i]));
}

/// A credential of printable ASCII characters is always safe to put in a header.
pub proof fn lemma_printable_is_safe(token: Seq<char>)
    requires
        forall|i: int| 0 <= i < token.len() ==> ' ' <= #[trigger] token[i] <= '~',
    ensures
        header_safe(token),
{
    assert forall|i: int| 0 <= i < token.len() implies is_header_char(#[trigger] token[i]) by {
        assert(' ' <= token[i] <= '~');
    }
}

/// Builds the headers of the issuance request: the body is JSON, and `token`
/// is presented as a bearer credential.
///
/// The only thing checked here is that the credential can stand in a header.
pub fn create_header(token: &str) -> (built: Result<HeaderMap, HeaderError>)
    ensures
        built is Ok <==> header_safe(token@),
        built matches Ok(headers) ==> header_entries(headers) == issuance_headers(token@),
        built matches Err(error) ==> error.message@ == "failed to parse header value"@,
{
    let mut headers = header_map_new();
    let bearer_token = String::from_str("Bearer ").concat(token);
    proof {
        reveal_strlit("application/json");
        reveal_strlit("Bearer ");
        reveal_strlit("content-type");
        reveal_strlit("authorization");
        is_ascii_chars_encode_utf8("application/json"@);
        lemma_encoded_value_bytes(bearer_token@);
        assert(header_safe(bearer_token@) <==> header_safe(token@)) by {
            let prefix = "Bearer "@;
            if header_safe(token@) {
                assert forall|i: int| 0 <= i < bearer_token@.len() implies is_header_char(
                    #[trigger] bearer_token@[i],
                ) by {
                    if i >= prefix.len() {
                        assert(bearer_token@[i] == token@[i - prefix.len()]);
                    }
                }
            }
            if header_safe(bearer_token@) {
                assert forall|i: int| 0 <= i < token@.len() implies is_header_char(
                    #[trigger] token@[i],
                ) by {
                    assert(bearer_token@[i + prefix.len()] == token@[i]);
                }
            }
        }
    }
    header_map_insert(&mut headers, content_type_name(), header_value_from_static("application/json"));
    match header_value_from_str(bearer_token.as_str()) {
        Ok(value) => {
            header_map_insert(&mut headers, authorization_name(), value);
            Ok(headers)
        },
        Err(error) => Err(HeaderError { message: invalid_header_value_message(&error) }),
    }
}

} // verus!
