//! The HTTP layer as the client logic sees it.
//!
//! Transports, header maps and URLs come from `reqwest`, `http` and `url`
//! and stay opaque to the verifier. Each function in this file that calls one
//! of those crates states in its contract what the call does; those contracts
//! are taken on trust, and the client logic is proved from them.

use reqwest::header::{HeaderMap, HeaderValue};
use reqwest::Client as HttpClient;
use reqwest::ClientBuilder as HttpClientBuilder;
use reqwest::Error as HttpError;
use url::Url;
use vstd::prelude::*;
use vstd::utf8::encode_utf8;

verus! {

/// The error type of `reqwest`, carried through as an opaque value.
#[verifier::external_type_specification]
#[verifier::external_body]
pub struct ExHttpError(HttpError);

/// The transport builder of `reqwest`, carried through as an opaque value.
#[verifier::external_type_specification]
#[verifier::external_body]
pub struct ExHttpClientBuilder(HttpClientBuilder);

/// The transport of `reqwest`, carried through as an opaque handle.
#[verifier::external_type_specification]
#[verifier::external_body]
pub struct ExHttpClient(HttpClient);

/// The URL type of `url`, carried through as an opaque value.
#[verifier::external_type_specification]
#[verifier::external_body]
pub struct ExUrl(Url);

/// The header map of `http`, which `reqwest` hands on.
#[verifier::external_type_specification]
#[verifier::external_body]
#[verifier::reject_recursive_types(T)]
pub struct ExHeaderMap<T>(HeaderMap<T>);

/// The header value of `http`, which `reqwest` hands on.
#[verifier::external_type_specification]
#[verifier::external_body]
pub struct ExHeaderValue(HeaderValue);

/// The headers of a request or of a transport's defaults: for each name the
/// bytes of its value.
pub type Headers = Map<Seq<char>, Seq<u8>>;

/// The content of a header map: for each name the values stored under it,
/// in the order in which they were added.
pub type HeaderValues = Map<Seq<char>, Seq<Seq<u8>>>;

/// A byte that may stand in a header value: anything from the space upwards
/// except the delete character, and the tab.
pub open spec fn header_value_byte(b: u8) -> bool {
    (b >= 32 && b != 127) || b == 9
}

/// Whether a text can be the value of a header: every byte of its UTF-8 form
/// may stand in one.
pub open spec fn is_header_value(text: Seq<char>) -> bool {
    forall|i: int|
        0 <= i < encode_utf8(text).len() ==> header_value_byte(#[trigger] encode_utf8(text)[i])
}

/// A character of a header name in its stored form: a lower-case letter, a
/// digit, or one of the punctuation marks that a token admits.
pub open spec fn header_name_char(c: char) -> bool {
    ('a' <= c <= 'z') || ('0' <= c <= '9') || c == '!' || c == '#' || c == '$' || c == '%' || c
        == '&' || c == '\'' || c == '*' || c == '+' || c == '-' || c == '.' || c == '^' || c == '_'
        || c == '`' || c == '|' || c == '~'
}

/// Whether a text is a header name in its stored form, short enough to be
/// looked up without allocation.
pub open spec fn is_header_name(name: Seq<char>) -> bool {
    &&& 1 <= name.len() <= 64
    &&& forall|i: int| 0 <= i < name.len() ==> header_name_char(#[trigger] name[i])
}

/// The bytes that a `HeaderValue` holds, as `HeaderValue::as_bytes` gives
/// them.
pub uninterp spec fn header_value_bytes(value: HeaderValue) -> Seq<u8>;

/// What a `HeaderMap` holds: for each name the values stored under it, in
/// the order in which they were added.
pub uninterp spec fn header_map_model(map: HeaderMap<HeaderValue>) -> HeaderValues;

/// The number of values that a `HeaderMap` holds, as `HeaderMap::len` gives
/// it.
pub uninterp spec fn header_map_len(map: HeaderMap<HeaderValue>) -> nat;

/// The default headers that a transport builder has been given so far.
pub uninterp spec fn builder_headers(builder: HttpClientBuilder) -> Headers;

/// The number of default headers that a transport builder holds, as the
/// length of its header map gives it.
pub uninterp spec fn builder_header_count(builder: HttpClientBuilder) -> nat;

/// The headers that a transport adds to every request that does not set
/// them itself.
pub uninterp spec fn default_headers_of(client: HttpClient) -> Headers;

/// The serialization of a `Url`, as `Url::as_str` gives it.
pub uninterp spec fn url_text(url: Url) -> Seq<char>;

/// The serialization of the URL that `Url::parse` reads from a text, or
/// `None` where it reports an error.
pub uninterp spec fn url_parsed(input: Seq<char>) -> Option<Seq<char>>;

/// The serialization of the URL that `Url::join` resolves a reference to,
/// against the base with the given serialization, or `None` where it reports
/// an error.
pub uninterp spec fn url_joined(base: Seq<char>, reference: Seq<char>) -> Option<Seq<char>>;

/// Default headers after the last value of each name in `extra` has been
/// put in place of what the name had.
pub open spec fn overlaid(defaults: Headers, extra: HeaderValues) -> Headers {
    Map::new(
        |name: Seq<char>| defaults.dom().contains(name) || extra.dom().contains(name),
        |name: Seq<char>|
            if extra.dom().contains(name) {
                extra[name].last()
            } else {
                defaults[name]
            },
    )
}

/// Calls `HeaderValue::from_str`, which accepts a text exactly when each of
/// its bytes is at least 32 and not 127, or is a tab, and then keeps the
/// bytes as they are.
#[verifier::external_body]
pub(crate) fn header_value(text: &str) -> (r: Option<HeaderValue>)
    ensures
        r is Some <==> is_header_value(text@),
        r matches Some(value) ==> header_value_bytes(value) == encode_utf8(text@),
{
    HeaderValue::from_str(text).ok()
}

/// Calls `HeaderMap::new`: a map that holds nothing.
#[verifier::external_body]
pub(crate) fn header_map_new() -> (r: HeaderMap<HeaderValue>)
    ensures
        header_map_model(r) == HeaderValues::empty(),
        header_map_len(r) == 0,
{
    HeaderMap::new()
}

/// Calls `HeaderMap::append` with a static string for the name. The value is
/// added behind those that the name already has. The call panics on a string
/// that is no header name and on a map that has reached its limit, so both
/// are kept out: the name is one in stored form, and the map is far below
/// the limit.
#[verifier::external_body]
pub(crate) fn header_map_append(
    map: &mut HeaderMap<HeaderValue>,
    name: &'static str,
    value: HeaderValue,
)
    requires
        is_header_name(name@),
        header_map_len(*old(map)) < 128,
    ensures
        header_map_model(*final(map)) == header_map_model(*old(map)).insert(
            name@,
            if header_map_model(*old(map)).dom().contains(name@) {
                header_map_model(*old(map))[name@].push(header_value_bytes(value))
            } else {
                seq![header_value_bytes(value)]
            },
        ),
        header_map_len(*final(map)) == header_map_len(*old(map)) + 1,
{
    map.append(name, value);
}

/// Calls `ClientBuilder::new` of `reqwest`: a builder whose only default
/// header is `accept: */*`.
#[verifier::external_body]
pub(crate) fn http_builder() -> (r: HttpClientBuilder)
    ensures
        builder_headers(r) == Headers::empty().insert("accept"@, seq![42u8, 47u8, 42u8]),
        builder_header_count(r) == 1,
{
    HttpClientBuilder::new()
}

/// Calls `ClientBuilder::user_agent` of `reqwest` with a header value: the
/// value becomes the `user-agent` default, in place of an earlier one. The
/// call stores into the builder's header map, which panics once the map has
/// reached its limit, so a builder near the limit is kept out.
#[verifier::external_body]
pub(crate) fn http_builder_user_agent(builder: HttpClientBuilder, value: HeaderValue) -> (r:
    HttpClientBuilder)
    requires
        builder_header_count(builder) < 128,
    ensures
        builder_headers(r) == builder_headers(builder).insert(
            "user-agent"@,
            header_value_bytes(value),
        ),
        builder_header_count(r) <= builder_header_count(builder) + 1,
{
    builder.user_agent(value)
}

/// Calls `ClientBuilder::default_headers` of `reqwest`, which stores every
/// value of the map under its name, one after the other, each in place of
/// what the name had: of each name in the map the last value stays, and the
/// defaults under other names stay as they are. Each store goes into the
/// builder's header map, which panics once it has reached its limit, so the
/// builder and the map are kept far below it.
#[verifier::external_body]
pub(crate) fn http_builder_default_headers(
    builder: HttpClientBuilder,
    headers: HeaderMap<HeaderValue>,
) -> (r: HttpClientBuilder)
    requires
        builder_header_count(builder) < 128,
        header_map_len(headers) < 128,
    ensures
        builder_headers(r) == overlaid(builder_headers(builder), header_map_model(headers)),
        builder_header_count(r) <= builder_header_count(builder) + header_map_len(headers),
{
    builder.default_headers(headers)
}

/// Calls `ClientBuilder::build` of `reqwest`. Whether a transport can be
/// built depends on the machine (the TLS backend must come up). Where one is
/// built, its default headers are those of the builder.
#[verifier::external_body]
pub(crate) fn http_builder_build(builder: HttpClientBuilder) -> (r: Result<HttpClient, HttpError>)
    ensures
        r matches Ok(client) ==> default_headers_of(client) == builder_headers(builder),
{
    builder.build()
}

/// Calls `Client::clone` of `reqwest`, which hands out another handle to
/// the same transport.
#[verifier::external_body]
pub(crate) fn http_client_clone(client: &HttpClient) -> (r: HttpClient)
    ensures
        r == *client,
{
    client.clone()
}

/// Calls `Url::parse`. The parser reads nothing but its input, so the URL it
/// gives is a function of the input; an error comes back as its message.
#[verifier::external_body]
pub(crate) fn url_parse(input: &str) -> (r: Result<Url, String>)
    ensures
        match r {
            Ok(url) => url_parsed(input@) == Some(url_text(url)),
            Err(_) => url_parsed(input@) is None,
        },
{
    Url::parse(input).map_err(|e| e.to_string())
}

/// Calls `Url::join`, which resolves a reference against a base as a browser
/// would. The outcome is a function of the base and the reference.
#[verifier::external_body]
pub(crate) fn url_join(base: &Url, reference: &str) -> (r: Option<Url>)
    ensures
        match r {
            Some(url) => url_joined(url_text(*base), reference@) == Some(url_text(url)),
            None => url_joined(url_text(*base), reference@) is None,
        },
{
    base.join(reference).ok()
}

/// Calls `Url::clone`: a copy equal to the original.
#[verifier::external_body]
pub(crate) fn url_clone(url: &Url) -> (r: Url)
    ensures
        r == *url,
{
    url.clone()
}

} // verus!
