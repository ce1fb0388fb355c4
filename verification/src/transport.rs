//! What this library takes from the HTTP transport: its types, carried through as
//! opaque values, and one small function for each of its operations that the
//! library calls. None of the contracts in this file is proved; each says what
//! the transport's source shows of the operation it names.

use reqwest::header::{HeaderMap, HeaderName, HeaderValue};
use reqwest::multipart::{Form, Part};
use reqwest::{Body, Client, ClientBuilder, Method, Proxy, RequestBuilder, Response};
use reqwest_cookie_store::{CookieStore, CookieStoreMutex};
use std::sync::Arc;
use std::time::Duration;
use vstd::prelude::*;
use vstd::utf8::encode_utf8;

verus! {

/// `reqwest::Method`.
#[verifier::external_type_specification]
#[verifier::external_body]
pub struct ExMethod(reqwest::Method);

/// `reqwest::header::HeaderValue`.
#[verifier::external_type_specification]
#[verifier::external_body]
pub struct ExHeaderValue(reqwest::header::HeaderValue);

/// `reqwest::header::HeaderName`.
#[verifier::external_type_specification]
#[verifier::external_body]
pub struct ExHeaderName(reqwest::header::HeaderName);

/// `reqwest::header::HeaderMap`.
#[verifier::external_type_specification]
#[verifier::external_body]
#[verifier::reject_recursive_types(T)]
pub struct ExHeaderMap<T>(reqwest::header::HeaderMap<T>);

/// `reqwest::Proxy`.
#[verifier::external_type_specification]
#[verifier::external_body]
pub struct ExProxy(reqwest::Proxy);

/// `reqwest::Body`.
#[verifier::external_type_specification]
#[verifier::external_body]
pub struct ExBody(reqwest::Body);

/// `reqwest::multipart::Form`.
#[verifier::external_type_specification]
#[verifier::external_body]
pub struct ExForm(reqwest::multipart::Form);

/// `reqwest::Client`.
#[verifier::external_type_specification]
#[verifier::external_body]
pub struct ExClient(reqwest::Client);

/// `reqwest::ClientBuilder`.
#[verifier::external_type_specification]
#[verifier::external_body]
pub struct ExClientBuilder(reqwest::ClientBuilder);

/// `reqwest::RequestBuilder`.
#[verifier::external_type_specification]
#[verifier::external_body]
pub struct ExRequestBuilder(reqwest::RequestBuilder);

/// `reqwest::Response`.
#[verifier::external_type_specification]
#[verifier::external_body]
pub struct ExResponse(reqwest::Response);

/// `reqwest::Error`.
#[verifier::external_type_specification]
#[verifier::external_body]
pub struct ExTransportError(reqwest::Error);

/// `reqwest_cookie_store::CookieStoreMutex`.
#[verifier::external_type_specification]
#[verifier::external_body]
pub struct ExCookieStoreMutex(reqwest_cookie_store::CookieStoreMutex);

/// `bytes::Bytes`.
#[verifier::external_type_specification]
#[verifier::external_body]
pub struct ExBytes(bytes::Bytes);

// ---------------------------------------------------------------------------
// Methods, header maps, proxies, durations, byte buffers
// ---------------------------------------------------------------------------

/// The name of a method: what `Method::as_str` returns for it.
pub uninterp spec fn method_name(m: Method) -> Seq<char>;

/// `Method::GET`, whose name is `GET`.
#[verifier::external_body]
pub(crate) fn method_get() -> (m: Method)
    ensures
        method_name(m) == "GET"@,
{
    Method::GET
}

/// `Method::clone`: the copy is the same method.
#[verifier::external_body]
pub(crate) fn clone_method(m: &Method) -> (copy: Method)
    ensures
        copy == *m,
{
    m.clone()
}

/// `HeaderMap::clone`: the copy holds the same headers.
#[verifier::external_body]
pub(crate) fn clone_headers(h: &HeaderMap) -> (copy: HeaderMap)
    ensures
        copy == *h,
{
    h.clone()
}

/// The header name that a text stands for, if it stands for one: what
/// `HeaderName::from_bytes` makes of the text's bytes.
pub uninterp spec fn parsed_header_name(text: Seq<char>) -> Option<HeaderName>;

/// The header value that a text stands for, if it stands for one: what
/// `HeaderValue::from_str` makes of the text.
pub uninterp spec fn parsed_header_value(text: Seq<char>) -> Option<HeaderValue>;

/// What a header map holds: for each name in it, the value that was put in
/// last.
pub uninterp spec fn header_entries(m: HeaderMap) -> Map<HeaderName, HeaderValue>;

/// `HeaderName::from_bytes` on the bytes of a text; `None` for its error.
#[verifier::external_body]
pub(crate) fn header_name(text: &str) -> (name: Option<HeaderName>)
    ensures
        name == parsed_header_name(text@),
{
    HeaderName::from_bytes(text.as_bytes()).ok()
}

/// `HeaderValue::from_str`; `None` for its error, which it gives for a text
/// with a byte that may not stand in a header value, and for no other.
#[verifier::external_body]
pub(crate) fn header_value(text: &str) -> (value: Option<HeaderValue>)
    ensures
        value == parsed_header_value(text@),
        value is Some <==> is_value_text(text@),
{
    HeaderValue::from_str(text).ok()
}

/// `HeaderMap::new`: a map without headers.
#[verifier::external_body]
pub(crate) fn empty_headers() -> (headers: HeaderMap)
    ensures
        header_entries(headers).dom() == Set::<HeaderName>::empty(),
        name_count(headers) == 0,
{
    HeaderMap::new()
}

/// A header map that holds no more names than this, or a few more, takes
/// another one, whatever went before. The transport refuses a header only
/// where the map's table would grow beyond 32768 slots, and a table of 32768
/// slots grows only once it holds a fifth as many names or more: 6554. Where
/// it refuses, `HeaderMap::try_insert` gives an error, and the functions that
/// the transport itself puts headers in with panic.
pub const HEADER_ROOM: usize = 6500;

/// How many names a header map holds: what `HeaderMap::keys_len` returns.
pub uninterp spec fn name_count(m: HeaderMap) -> nat;

/// `HeaderMap::keys_len`.
#[verifier::external_body]
pub(crate) fn count_names(m: &HeaderMap) -> (n: usize)
    ensures
        n == name_count(*m),
{
    m.keys_len()
}

/// `HeaderMap::try_insert`: the value takes the place of all that the map held
/// under the name. `false` for its error, which a map gives that is full; a
/// map with fewer than [`HEADER_ROOM`] names is not.
#[verifier::external_body]
pub(crate) fn put_header(m: &mut HeaderMap, name: HeaderName, value: HeaderValue) -> (done: bool)
    ensures
        done ==> header_entries(*final(m)) == header_entries(*old(m)).insert(name, value),
        done ==> name_count(*final(m)) <= name_count(*old(m)) + 1,
        name_count(*old(m)) < HEADER_ROOM ==> done,
{
    m.try_insert(name, value).is_ok()
}

/// `Proxy::clone`: the copy is the same proxy.
#[verifier::external_body]
pub(crate) fn clone_proxy(p: &Proxy) -> (copy: Proxy)
    ensures
        copy == *p,
{
    p.clone()
}

/// The duration of that many whole seconds: what `Duration::from_secs` returns.
pub uninterp spec fn seconds(secs: u64) -> Duration;

/// `Duration::from_secs`.
#[verifier::external_body]
pub(crate) fn whole_seconds(secs: u64) -> (d: Duration)
    ensures
        d == seconds(secs),
{
    Duration::from_secs(secs)
}

/// The bytes that a buffer holds: what it dereferences to.
pub uninterp spec fn bytes_content(b: bytes::Bytes) -> Seq<u8>;

/// `Bytes::clone`: the copy is the same buffer.
#[verifier::external_body]
pub(crate) fn clone_bytes(b: &bytes::Bytes) -> (copy: bytes::Bytes)
    ensures
        copy == *b,
{
    b.clone()
}

/// `Bytes::as_ref`: the bytes of the buffer as a slice.
#[verifier::external_body]
pub(crate) fn bytes_slice(b: &bytes::Bytes) -> (s: &[u8])
    ensures
        s@ == bytes_content(*b),
{
    b.as_ref()
}

// ---------------------------------------------------------------------------
// Payloads
// ---------------------------------------------------------------------------

/// The bytes of a body that lies in memory: what `Body::as_bytes` returns for it.
pub uninterp spec fn body_content(b: Body) -> Seq<u8>;

/// `Body::from` on a vector of bytes: a body in memory that holds these bytes.
#[verifier::external_body]
pub(crate) fn body_from_bytes(data: Vec<u8>) -> (b: Body)
    ensures
        body_content(b) == data@,
{
    Body::from(data)
}

/// `Body::from` on a string: a body in memory that holds the string's bytes.
#[verifier::external_body]
pub(crate) fn body_from_text(text: String) -> (b: Body)
    ensures
        body_content(b) == encode_utf8(text@),
{
    Body::from(text)
}

/// The fields of a multipart form in the order in which they were added, each
/// with its name and the bytes of its part.
pub uninterp spec fn form_fields(f: Form) -> Seq<(Seq<char>, Seq<u8>)>;

/// `Form::new`: a form without fields. Its boundary is drawn at random.
#[verifier::external_body]
pub(crate) fn empty_form() -> (f: Form)
    ensures
        form_fields(f) == Seq::<(Seq<char>, Seq<u8>)>::empty(),
{
    Form::new()
}

/// `Form::text`: the form with one more field, whose part holds the value's bytes.
#[verifier::external_body]
pub(crate) fn form_with_text(f: Form, name: String, value: String) -> (r: Form)
    ensures
        form_fields(r) == form_fields(f).push((name@, encode_utf8(value@))),
{
    f.text(name, value)
}

/// `Form::part` with `Part::bytes`: the form with one more field, whose part
/// holds these bytes.
#[verifier::external_body]
pub(crate) fn form_with_bytes(f: Form, name: String, data: Vec<u8>) -> (r: Form)
    ensures
        form_fields(r) == form_fields(f).push((name@, data@)),
{
    f.part(name, Part::bytes(data))
}

// ---------------------------------------------------------------------------
// Cookie jars
// ---------------------------------------------------------------------------

/// `CookieStoreMutex::new` on `CookieStore::new(None)`, shared: an empty jar.
#[verifier::external_body]
pub(crate) fn new_jar() -> Arc<CookieStoreMutex> {
    Arc::new(CookieStoreMutex::new(CookieStore::new(None)))
}

/// Whether a buffer is one that `CookieStore::save_json` wrote of this jar:
/// the cookies that the jar held then and that last and had not expired, one
/// JSON document on each line.
pub uninterp spec fn is_export_of(jar: Arc<CookieStoreMutex>, buffer: Seq<u8>) -> bool;

/// `CookieStoreMutex::lock`, then `CookieStore::save_json` into a buffer: the
/// jar's unexpired persistent cookies, one JSON document on each line. `None`
/// where the lock is poisoned or a cookie cannot be written. What comes back
/// depends on what the jar holds and on the time.
#[verifier::external_body]
pub(crate) fn export_jar(jar: &Arc<CookieStoreMutex>) -> (r: Option<Vec<u8>>)
    ensures
        r matches Some(buffer) ==> is_export_of(*jar, buffer@),
{
    let mut buffer: Vec<u8> = Vec::new();
    match jar.lock() {
        Ok(store) => match store.save_json(&mut buffer) {
            Ok(()) => Some(buffer),
            Err(_) => None,
        },
        Err(_) => None,
    }
}

// ---------------------------------------------------------------------------
// Client builders
// ---------------------------------------------------------------------------

/// The builder that `ClientBuilder::cookie_provider` returns for this builder
/// and this jar.
pub uninterp spec fn jar_attached(b: ClientBuilder, jar: Arc<CookieStoreMutex>) -> ClientBuilder;

/// The builder that `ClientBuilder::gzip` returns for this builder and this flag.
pub uninterp spec fn gzip_set(b: ClientBuilder, enable: bool) -> ClientBuilder;

/// The builder that `ClientBuilder::proxy` returns for this builder and this proxy.
pub uninterp spec fn proxy_added(b: ClientBuilder, proxy: Proxy) -> ClientBuilder;

/// The builder that `ClientBuilder::user_agent` returns for this builder and
/// this text.
pub uninterp spec fn user_agent_set(b: ClientBuilder, agent: Seq<char>) -> ClientBuilder;

/// Whether a byte may stand in a header value: any byte from 32 on but 127,
/// and the tab.
pub open spec fn is_value_byte(b: u8) -> bool {
    (b >= 32 && b != 127) || b == 9
}

/// Whether the transport takes a text as a header value: each byte of the
/// text in UTF-8 may stand in one.
pub open spec fn is_value_text(text: Seq<char>) -> bool {
    forall|i: int|
        0 <= i < encode_utf8(text).len() ==> is_value_byte(#[trigger] encode_utf8(text)[i])
}

/// The error that a builder has kept, if it has kept one: what
/// `ClientBuilder::build` gives in place of a client. Built without a TLS
/// backend, as it is here, the transport refuses a builder for no other reason.
pub uninterp spec fn kept_error(b: ClientBuilder) -> Option<reqwest::Error>;

/// Whether a builder is as `Client::builder` gives it: with the transport's
/// defaults.
pub uninterp spec fn is_new_builder(b: ClientBuilder) -> bool;

/// How many names the headers hold that a builder gives to every request of
/// its client: what `HeaderMap::keys_len` gives for them.
pub uninterp spec fn default_names(b: ClientBuilder) -> nat;

/// Whether a client is one that `ClientBuilder::build` made of this builder.
/// Such a client holds what the builder was given, and with it what the
/// transport found on the machine.
pub uninterp spec fn is_built_of(c: Client, b: ClientBuilder) -> bool;

/// `Client::builder`: a builder with the transport's defaults, which has kept
/// no error. Its one header for every request is `Accept`.
#[verifier::external_body]
pub(crate) fn new_client_builder() -> (b: ClientBuilder)
    ensures
        is_new_builder(b),
        kept_error(b) is None,
        default_names(b) <= 1,
{
    Client::builder()
}

/// `ClientBuilder::cookie_provider`, on another handle to the same jar. It
/// leaves the kept error and the headers as they are.
#[verifier::external_body]
pub(crate) fn attach_jar(b: ClientBuilder, jar: &Arc<CookieStoreMutex>) -> (r: ClientBuilder)
    ensures
        r == jar_attached(b, *jar),
        kept_error(r) == kept_error(b),
        default_names(r) == default_names(b),
{
    b.cookie_provider(Arc::clone(jar))
}

/// `ClientBuilder::gzip`. It leaves the kept error and the headers as they
/// are.
#[verifier::external_body]
pub(crate) fn set_gzip(b: ClientBuilder, enable: bool) -> (r: ClientBuilder)
    ensures
        r == gzip_set(b, enable),
        kept_error(r) == kept_error(b),
        default_names(r) == default_names(b),
{
    b.gzip(enable)
}

/// `ClientBuilder::proxy`. It leaves the kept error and the headers as they
/// are.
#[verifier::external_body]
pub(crate) fn add_proxy(b: ClientBuilder, proxy: Proxy) -> (r: ClientBuilder)
    ensures
        r == proxy_added(b, proxy),
        kept_error(r) == kept_error(b),
        default_names(r) == default_names(b),
{
    b.proxy(proxy)
}

/// `ClientBuilder::user_agent`. A text that the transport takes as a header
/// value leaves the kept error as it is; for any other text the builder keeps
/// an error. The value is put into the builder's headers with a function that
/// panics where the map refuses it. So the builder holds no more names than a
/// map is sure to take one more after.
#[verifier::external_body]
pub(crate) fn set_user_agent(b: ClientBuilder, agent: String) -> (r: ClientBuilder)
    requires
        default_names(b) <= HEADER_ROOM,
    ensures
        r == user_agent_set(b, agent@),
        is_value_text(agent@) ==> kept_error(r) == kept_error(b),
        !is_value_text(agent@) ==> kept_error(r) is Some,
{
    b.user_agent(agent)
}

/// `ClientBuilder::build`: the error that the builder has kept, or a client
/// where it has kept none. That holds of the transport as it is built here,
/// without a TLS backend; with one, setting up the backend may fail as well.
/// What the client holds depends on the machine too.
#[verifier::external_body]
pub(crate) fn finish_client(b: ClientBuilder) -> (r: Result<Client, reqwest::Error>)
    ensures
        match kept_error(b) {
            Some(e) => r matches Err(f) && f == e,
            None => r is Ok,
        },
        r matches Ok(c) ==> is_built_of(c, b),
{
    b.build()
}

// ---------------------------------------------------------------------------
// Request builders
// ---------------------------------------------------------------------------

/// The builder that `Client::request` returns for this client, method and URL.
pub uninterp spec fn request_started(
    client: Client,
    method: Method,
    url: Seq<char>,
) -> RequestBuilder;

/// The builder that `RequestBuilder::timeout` returns for this builder and duration.
pub uninterp spec fn timeout_set(rb: RequestBuilder, timeout: Duration) -> RequestBuilder;

/// The builder that `RequestBuilder::headers` returns for this builder and
/// these headers.
pub uninterp spec fn headers_added(rb: RequestBuilder, headers: HeaderMap) -> RequestBuilder;

/// The builder that `RequestBuilder::body` returns for this builder and body.
pub uninterp spec fn body_set(rb: RequestBuilder, body: Body) -> RequestBuilder;

/// The builder that `RequestBuilder::multipart` returns for this builder and form.
pub uninterp spec fn form_set(rb: RequestBuilder, form: Form) -> RequestBuilder;

/// The error that a builder keeps in place of a request, if it keeps one: what
/// `RequestBuilder::build_split` returns as an error.
pub uninterp spec fn build_failure(rb: RequestBuilder) -> Option<reqwest::Error>;

/// How many header names the request in a builder holds: what
/// `HeaderMap::keys_len` gives for its headers, and 0 where the builder keeps
/// an error.
pub uninterp spec fn handle_names(rb: RequestBuilder) -> nat;

/// `Client::request`. A URL that does not parse is kept as an error inside the
/// builder. The request has no header yet but one: a user and a password that
/// stand in the URL are taken out of it and put into an `Authorization` header.
#[verifier::external_body]
pub(crate) fn start_request(client: &Client, method: Method, url: &str) -> (rb: RequestBuilder)
    ensures
        rb == request_started(*client, method, url@),
        handle_names(rb) <= 1,
{
    client.request(method, url)
}

/// `RequestBuilder::timeout`. It leaves the headers as they are.
#[verifier::external_body]
pub(crate) fn set_timeout(rb: RequestBuilder, timeout: Duration) -> (r: RequestBuilder)
    ensures
        r == timeout_set(rb, timeout),
        handle_names(r) == handle_names(rb),
{
    rb.timeout(timeout)
}

/// `RequestBuilder::headers`: each name of `headers` is put into the headers
/// of the request, with a function that panics where the map refuses it. So
/// the names of both together are no more than a map is sure to take: as many
/// as a descriptor may have, and the one that the URL may have given.
#[verifier::external_body]
pub(crate) fn add_headers(rb: RequestBuilder, headers: HeaderMap) -> (r: RequestBuilder)
    requires
        handle_names(rb) + name_count(headers) <= HEADER_ROOM + 1,
    ensures
        r == headers_added(rb, headers),
        handle_names(r) <= handle_names(rb) + name_count(headers),
{
    rb.headers(headers)
}

/// `RequestBuilder::body`. It leaves the headers as they are.
#[verifier::external_body]
pub(crate) fn set_body(rb: RequestBuilder, body: Body) -> (r: RequestBuilder)
    ensures
        r == body_set(rb, body),
        handle_names(r) == handle_names(rb),
{
    rb.body(body)
}

/// `RequestBuilder::multipart`: it puts the form's content type and, where it
/// is known, its length into the headers of the request, with a function that
/// panics where the map refuses them. So the request holds no more names than
/// a map is sure to take two more after.
#[verifier::external_body]
pub(crate) fn set_form(rb: RequestBuilder, form: Form) -> (r: RequestBuilder)
    requires
        handle_names(rb) <= HEADER_ROOM + 1,
    ensures
        r == form_set(rb, form),
{
    rb.multipart(form)
}

/// `RequestBuilder::build_split`, and `RequestBuilder::from_parts` on what it
/// gave: the same builder where it holds a request, else the error it kept.
#[verifier::external_body]
pub(crate) fn check_request(rb: RequestBuilder) -> (r: Result<RequestBuilder, reqwest::Error>)
    ensures
        match build_failure(rb) {
            Some(e) => r == Err::<RequestBuilder, reqwest::Error>(e),
            None => r == Ok::<RequestBuilder, reqwest::Error>(rb),
        },
{
    let (client, request) = rb.build_split();
    match request {
        Ok(request) => Ok(RequestBuilder::from_parts(client, request)),
        Err(e) => Err(e),
    }
}

// ---------------------------------------------------------------------------
// Outcomes
// ---------------------------------------------------------------------------

/// Whether an error goes back to a timeout: what `Error::is_timeout` returns.
pub uninterp spec fn is_timeout_failure(e: reqwest::Error) -> bool;

/// The text of an error: what its `Display` writes.
pub uninterp spec fn failure_text(e: reqwest::Error) -> Seq<char>;

/// The status code of a response: what `Response::status` returns, as a number.
pub uninterp spec fn response_code(r: Response) -> u16;

/// `Error::is_timeout`.
#[verifier::external_body]
pub(crate) fn is_timeout(e: &reqwest::Error) -> (b: bool)
    ensures
        b == is_timeout_failure(*e),
{
    e.is_timeout()
}

/// The `Display` of `reqwest::Error`, as a string.
#[verifier::external_body]
pub(crate) fn describe_failure(e: &reqwest::Error) -> (text: String)
    ensures
        text@ == failure_text(*e),
{
    format!("{}", e)
}

/// `Response::status`, then `StatusCode::as_u16`.
#[verifier::external_body]
pub(crate) fn status_of(r: &Response) -> (code: u16)
    ensures
        code == response_code(*r),
{
    r.status().as_u16()
}

} // verus!
