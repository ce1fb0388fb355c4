//! The request descriptor: one HTTP call, the status codes it accepts, what it
//! changes of the client's settings, and the step to jump to in its place.

use crate::transport::{
    body_content, body_from_bytes, body_from_text, clone_headers, clone_method, clone_proxy,
    count_names, name_count, HEADER_ROOM,
    empty_form, form_fields, form_with_bytes, form_with_text, method_get, method_name,
    seconds, whole_seconds,
};
use reqwest::header::HeaderMap;
use reqwest::multipart::Form;
use reqwest::{Body, Method, Proxy};
use std::time::Duration;
use vstd::prelude::*;
use vstd::string::*;
use vstd::utf8::encode_utf8;

verus! {

/// The seconds a request may take where its descriptor names no timeout.
pub const DEFAULT_TIMEOUT_SECS: u64 = 30;

/// The view of an optional text.
pub open spec fn text_view(text: Option<String>) -> Option<Seq<char>> {
    match text {
        Some(t) => Some(t@),
        None => None,
    }
}

/// The view of an optional list of status codes.
pub open spec fn codes_view(codes: Option<Vec<u16>>) -> Option<Seq<u16>> {
    match codes {
        Some(c) => Some(c@),
        None => None,
    }
}

// ---------------------------------------------------------------------------
// Payloads
// ---------------------------------------------------------------------------

/// A request body held in memory: raw bytes or text.
#[derive(Debug)]
pub enum MimicBody {
    Bytes(Vec<u8>),
    Text(String),
}

/// A [`MimicBody`] with its content as a sequence.
pub enum MimicBodyView {
    Bytes(Seq<u8>),
    Text(Seq<char>),
}

impl View for MimicBody {
    type V = MimicBodyView;

    open spec fn view(&self) -> MimicBodyView {
        match self {
            MimicBody::Bytes(data) => MimicBodyView::Bytes(data@),
            MimicBody::Text(text) => MimicBodyView::Text(text@),
        }
    }
}

/// The bytes that a body puts on the wire: its bytes, or its text in UTF-8.
pub open spec fn payload_bytes(body: MimicBodyView) -> Seq<u8> {
    match body {
        MimicBodyView::Bytes(data) => data,
        MimicBodyView::Text(text) => encode_utf8(text),
    }
}

impl MimicBody {
    /// A body of raw bytes.
    pub fn from_bytes(data: Vec<u8>) -> (body: Self)
        ensures
            body@ == MimicBodyView::Bytes(data@),
    {
        MimicBody::Bytes(data)
    }

    /// A body of text.
    pub fn from_text(data: String) -> (body: Self)
        ensures
            body@ == MimicBodyView::Text(data@),
    {
        MimicBody::Text(data)
    }

    /// The transport's body with the same content.
    pub fn into_body(self) -> (body: Body)
        ensures
            body_content(body) == payload_bytes(self@),
    {
        match self {
            MimicBody::Bytes(data) => body_from_bytes(data),
            MimicBody::Text(text) => body_from_text(text),
        }
    }
}

impl From<MimicBody> for Body {
    /// The transport's body with the same content.
    fn from(body: MimicBody) -> (b: Body)
        ensures
            body_content(b) == payload_bytes(body@),
    {
        body.into_body()
    }
}

/// A body is the transport's own value and cannot be written down here: what
/// `from` makes is said by its `ensures`, not by `from_spec`.
impl vstd::std_specs::convert::FromSpecImpl<MimicBody> for Body {
    open spec fn obeys_from_spec() -> bool {
        false
    }

    open spec fn from_spec(body: MimicBody) -> Self {
        arbitrary()
    }
}

impl Clone for MimicBody {
    fn clone(&self) -> (copy: Self)
        ensures
            copy@ == self@,
    {
        match self {
            MimicBody::Bytes(data) => MimicBody::Bytes(data.clone()),
            MimicBody::Text(text) => MimicBody::Text(text.clone()),
        }
    }
}

/// A multipart form held in memory: text fields, then fields of raw bytes.
#[derive(Debug)]
pub struct MimicForm {
    texts: Vec<(String, String)>,
    bytes: Vec<(String, Vec<u8>)>,
}

/// A [`MimicForm`] with its fields as sequences.
pub struct MimicFormView {
    pub texts: Seq<(Seq<char>, Seq<char>)>,
    pub bytes: Seq<(Seq<char>, Seq<u8>)>,
}

/// Text fields by their views.
pub open spec fn text_fields(texts: Seq<(String, String)>) -> Seq<(Seq<char>, Seq<char>)> {
    Seq::new(texts.len(), |i: int| (texts[i].0@, texts[i].1@))
}

/// Byte fields by their views.
pub open spec fn byte_fields(bytes: Seq<(String, Vec<u8>)>) -> Seq<(Seq<char>, Seq<u8>)> {
    Seq::new(bytes.len(), |i: int| (bytes[i].0@, bytes[i].1@))
}

/// The fields that a form puts on the wire, in order: each text field with its
/// value in UTF-8, then each field of bytes.
pub open spec fn wire_fields(form: MimicFormView) -> Seq<(Seq<char>, Seq<u8>)> {
    Seq::new(form.texts.len(), |i: int| (form.texts[i].0, encode_utf8(form.texts[i].1)))
        + form.bytes
}

impl View for MimicForm {
    type V = MimicFormView;

    closed spec fn view(&self) -> MimicFormView {
        MimicFormView { texts: text_fields(self.texts@), bytes: byte_fields(self.bytes@) }
    }
}

impl MimicForm {
    /// A form of these text fields and these fields of bytes.
    pub fn new(texts: Vec<(String, String)>, bytes: Vec<(String, Vec<u8>)>) -> (form: Self)
        ensures
            form@ == (MimicFormView { texts: text_fields(texts@), bytes: byte_fields(bytes@) }),
    {
        Self { texts, bytes }
    }

    /// The transport's form with the same fields in the same order.
    pub fn into_form(self) -> (form: Form)
        ensures
            form_fields(form) == wire_fields(self@),
    {
        let mut form = empty_form();
        let mut i: usize = 0;
        while i < self.texts.len()
            invariant
                i <= self.texts.len(),
                form_fields(form) == wire_fields(self@).take(i as int),
            decreases self.texts.len() - i,
        {
            let key = self.texts[i].0.clone();
            let value = self.texts[i].1.clone();
            let ghost before = form_fields(form);
            form = form_with_text(form, key, value);
            assert(form_fields(form) =~= wire_fields(self@).take(i + 1)) by {
                assert(wire_fields(self@).take(i + 1) =~= wire_fields(self@).take(i as int).push(
                    wire_fields(self@)[i as int],
                ));
            }
            i = i + 1;
        }
        let mut j: usize = 0;
        while j < self.bytes.len()
            invariant
                i == self.texts.len(),
                j <= self.bytes.len(),
                form_fields(form) == wire_fields(self@).take(i + j),
            decreases self.bytes.len() - j,
        {
            let key = self.bytes[j].0.clone();
            let data = self.bytes[j].1.clone();
            form = form_with_bytes(form, key, data);
            assert(form_fields(form) =~= wire_fields(self@).take(i + j + 1)) by {
                assert(wire_fields(self@).take(i + j + 1) =~= wire_fields(self@).take(
                    i + j,
                ).push(wire_fields(self@)[i + j]));
            }
            j = j + 1;
        }
        assert(wire_fields(self@).take(i + j) =~= wire_fields(self@));
        form
    }
}

impl From<MimicForm> for Form {
    /// The transport's form with the same fields in the same order.
    fn from(form: MimicForm) -> (f: Form)
        ensures
            form_fields(f) == wire_fields(form@),
    {
        form.into_form()
    }
}

/// A form is the transport's own value and cannot be written down here: what
/// `from` makes is said by its `ensures`, not by `from_spec`.
impl vstd::std_specs::convert::FromSpecImpl<MimicForm> for Form {
    open spec fn obeys_from_spec() -> bool {
        false
    }

    open spec fn from_spec(form: MimicForm) -> Self {
        arbitrary()
    }
}

impl Clone for MimicForm {
    fn clone(&self) -> (copy: Self)
        ensures
            copy@ == self@,
    {
        let mut texts: Vec<(String, String)> = Vec::new();
        let mut i: usize = 0;
        while i < self.texts.len()
            invariant
                i <= self.texts.len(),
                texts.len() == i,
                text_fields(texts@) == text_fields(self.texts@).take(i as int),
            decreases self.texts.len() - i,
        {
            let ghost before = texts@;
            texts.push((self.texts[i].0.clone(), self.texts[i].1.clone()));
            assert forall|k: int| 0 <= k < i implies text_fields(texts@)[k] == text_fields(
                self.texts@,
            )[k] by {
                assert(texts@[k] == before[k]);
                assert(text_fields(before)[k] == text_fields(self.texts@).take(i as int)[k]);
            }
            assert(text_fields(texts@) =~= text_fields(self.texts@).take(i + 1));
            i = i + 1;
        }
        assert(text_fields(self.texts@).take(i as int) =~= text_fields(self.texts@));
        let mut bytes: Vec<(String, Vec<u8>)> = Vec::new();
        let mut j: usize = 0;
        while j < self.bytes.len()
            invariant
                j <= self.bytes.len(),
                bytes.len() == j,
                byte_fields(bytes@) == byte_fields(self.bytes@).take(j as int),
            decreases self.bytes.len() - j,
        {
            let ghost before = bytes@;
            bytes.push((self.bytes[j].0.clone(), self.bytes[j].1.clone()));
            assert forall|k: int| 0 <= k < j implies byte_fields(bytes@)[k] == byte_fields(
                self.bytes@,
            )[k] by {
                assert(bytes@[k] == before[k]);
                assert(byte_fields(before)[k] == byte_fields(self.bytes@).take(j as int)[k]);
            }
            assert(byte_fields(bytes@) =~= byte_fields(self.bytes@).take(j + 1));
            j = j + 1;
        }
        assert(byte_fields(self.bytes@).take(j as int) =~= byte_fields(self.bytes@));
        Self { texts, bytes }
    }
}

// ---------------------------------------------------------------------------
// The descriptor
// ---------------------------------------------------------------------------

/// One HTTP call and what goes with it. A descriptor is made by [`Request::new`],
/// changed by the `with_` methods, each of which hands back the changed
/// descriptor, and closed by [`Request::build`].
///
/// A descriptor carries at most one payload, and a form goes before a body:
/// [`Request::with_multipart`] drops a body that was set, and
/// [`Request::with_body`] leaves a descriptor that carries a form as it is.
#[derive(Debug)]
pub struct Request {
    method: Method,
    url: String,
    headers: Option<HeaderMap>,
    timeout: Option<Duration>,
    body: Option<MimicBody>,
    multipart: Option<MimicForm>,
    status_codes: Option<Vec<u16>>,
    proxy: Option<Proxy>,
    user_agent: Option<String>,
    gzip: bool,
    skip_to: Option<String>,
}

/// What a descriptor says, with texts and lists as sequences.
pub struct RequestView {
    pub method: Method,
    pub url: Seq<char>,
    pub headers: Option<HeaderMap>,
    pub timeout: Option<Duration>,
    pub body: Option<MimicBodyView>,
    pub multipart: Option<MimicFormView>,
    pub status_codes: Option<Seq<u16>>,
    pub proxy: Option<Proxy>,
    pub user_agent: Option<Seq<char>>,
    pub gzip: bool,
    pub skip_to: Option<Seq<char>>,
}

/// The time that a request may take: the descriptor's timeout, or the default
/// where it names none.
pub open spec fn effective_timeout(r: RequestView) -> Duration {
    match r.timeout {
        Some(d) => d,
        None => seconds(DEFAULT_TIMEOUT_SECS),
    }
}

/// Whether a descriptor is as [`Request::new`] makes it for this method and URL:
/// the default timeout, compression on, and nothing else set.
pub open spec fn is_fresh(r: RequestView, method: Method, url: Seq<char>) -> bool {
    &&& r.method == method
    &&& r.url == url
    &&& r.headers is None
    &&& r.timeout == Some(seconds(DEFAULT_TIMEOUT_SECS))
    &&& r.body is None
    &&& r.multipart is None
    &&& r.status_codes is None
    &&& r.proxy is None
    &&& r.user_agent is None
    &&& r.gzip
    &&& r.skip_to is None
}

/// Whether the headers of a descriptor are no more than the transport is sure
/// to take into a request.
pub open spec fn headers_fit(r: RequestView) -> bool {
    match r.headers {
        Some(h) => name_count(h) <= HEADER_ROOM,
        None => true,
    }
}

/// Whether a descriptor carries at most one payload.
pub open spec fn single_payload(r: RequestView) -> bool {
    !(r.body is Some && r.multipart is Some)
}

impl View for Request {
    type V = RequestView;

    closed spec fn view(&self) -> RequestView {
        RequestView {
            method: self.method,
            url: self.url@,
            headers: self.headers,
            timeout: self.timeout,
            body: match self.body {
                Some(b) => Some(b@),
                None => None,
            },
            multipart: match self.multipart {
                Some(m) => Some(m@),
                None => None,
            },
            status_codes: codes_view(self.status_codes),
            proxy: self.proxy,
            user_agent: text_view(self.user_agent),
            gzip: self.gzip,
            skip_to: text_view(self.skip_to),
        }
    }
}

impl Request {
    #[verifier::type_invariant]
    spec fn at_most_one_payload(&self) -> bool {
        !(self.body is Some && self.multipart is Some)
    }

    /// A descriptor for this method and URL, with everything else at its default.
    pub fn new(method: Method, url: String) -> (r: Self)
        ensures
            is_fresh(r@, method, url@),
    {
        Self {
            method,
            url,
            headers: None,
            timeout: Some(whole_seconds(DEFAULT_TIMEOUT_SECS)),
            body: None,
            multipart: None,
            status_codes: None,
            proxy: None,
            user_agent: None,
            gzip: true,
            skip_to: None,
        }
    }

    /// The method of the request.
    pub fn method(&self) -> (m: Method)
        ensures
            m == self@.method,
    {
        clone_method(&self.method)
    }

    /// The URL of the request.
    pub fn url(&self) -> (u: &String)
        ensures
            u@ == self@.url,
    {
        &self.url
    }

    /// Sets the headers of the request.
    pub fn with_headers(self, headers: HeaderMap) -> (r: Self)
        ensures
            r@ == (RequestView { headers: Some(headers), ..self@ }),
    {
        let mut next = self;
        proof {
            use_type_invariant(&next);
        }
        next.headers = Some(headers);
        next
    }

    /// The headers of the request.
    pub fn headers(&self) -> (h: Option<HeaderMap>)
        ensures
            h == self@.headers,
    {
        match &self.headers {
            Some(h) => Some(clone_headers(h)),
            None => None,
        }
    }

    /// Whether the headers are no more than the transport is sure to take into
    /// a request.
    pub fn headers_fit(&self) -> (fit: bool)
        ensures
            fit == headers_fit(self@),
    {
        match &self.headers {
            Some(h) => count_names(h) <= HEADER_ROOM,
            None => true,
        }
    }

    /// Sets the time that the request may take.
    pub fn with_timeout(self, timeout: Duration) -> (r: Self)
        ensures
            r@ == (RequestView { timeout: Some(timeout), ..self@ }),
    {
        let mut next = self;
        proof {
            use_type_invariant(&next);
        }
        next.timeout = Some(timeout);
        next
    }

    /// The time that the request may take, as it was set.
    pub fn timeout(&self) -> (t: Option<Duration>)
        ensures
            t == self@.timeout,
    {
        self.timeout
    }

    /// The time that the request may take: the descriptor's timeout, or the
    /// default where it names none.
    pub fn effective_timeout(&self) -> (t: Duration)
        ensures
            t == effective_timeout(self@),
    {
        match self.timeout {
            Some(d) => d,
            None => whole_seconds(DEFAULT_TIMEOUT_SECS),
        }
    }

    /// Sets the body, unless the descriptor carries a form: then it stays as it is.
    pub fn with_body(self, body: MimicBody) -> (r: Self)
        ensures
            r@ == (if self@.multipart is Some {
                self@
            } else {
                RequestView { body: Some(body@), ..self@ }
            }),
    {
        let mut next = self;
        proof {
            use_type_invariant(&next);
        }
        if next.multipart.is_none() {
            next.body = Some(body);
        }
        next
    }

    /// The body as the transport takes it.
    pub fn body(&self) -> (b: Option<Body>)
        ensures
            match self@.body {
                Some(payload) => b matches Some(body) && body_content(body) == payload_bytes(
                    payload,
                ),
                None => b is None,
            },
    {
        match &self.body {
            Some(b) => Some(Body::from(b.clone())),
            None => None,
        }
    }

    /// Sets the form, and drops a body that was set before.
    pub fn with_multipart(self, multipart: MimicForm) -> (r: Self)
        ensures
            r@ == (RequestView { multipart: Some(multipart@), body: None, ..self@ }),
    {
        let mut next = self;
        proof {
            use_type_invariant(&next);
        }
        next.body = None;
        next.multipart = Some(multipart);
        next
    }

    /// The form as the transport takes it.
    pub fn multipart(&self) -> (f: Option<Form>)
        ensures
            match self@.multipart {
                Some(fields) => f matches Some(form) && form_fields(form) == wire_fields(fields),
                None => f is None,
            },
    {
        match &self.multipart {
            Some(m) => Some(Form::from(m.clone())),
            None => None,
        }
    }

    /// Sets the status codes that are accepted of the response.
    pub fn with_status_codes(self, status_codes: Vec<u16>) -> (r: Self)
        ensures
            r@ == (RequestView { status_codes: Some(status_codes@), ..self@ }),
    {
        let mut next = self;
        proof {
            use_type_invariant(&next);
        }
        next.status_codes = Some(status_codes);
        next
    }

    /// The status codes that are accepted of the response.
    pub fn status_codes(&self) -> (c: Option<Vec<u16>>)
        ensures
            codes_view(c) == self@.status_codes,
    {
        match &self.status_codes {
            Some(c) => Some(c.clone()),
            None => None,
        }
    }

    /// Sets the proxy that the request goes through.
    pub fn with_proxy(self, proxy: Proxy) -> (r: Self)
        ensures
            r@ == (RequestView { proxy: Some(proxy), ..self@ }),
    {
        let mut next = self;
        proof {
            use_type_invariant(&next);
        }
        next.proxy = Some(proxy);
        next
    }

    /// The proxy that the request goes through.
    pub fn proxy(&self) -> (p: Option<Proxy>)
        ensures
            p == self@.proxy,
    {
        match &self.proxy {
            Some(p) => Some(clone_proxy(p)),
            None => None,
        }
    }

    /// Sets the user agent that the request is sent under.
    pub fn with_user_agent(self, user_agent: String) -> (r: Self)
        ensures
            r@ == (RequestView { user_agent: Some(user_agent@), ..self@ }),
    {
        let mut next = self;
        proof {
            use_type_invariant(&next);
        }
        next.user_agent = Some(user_agent);
        next
    }

    /// The user agent that the request is sent under.
    pub fn user_agent(&self) -> (a: Option<String>)
        ensures
            text_view(a) == self@.user_agent,
    {
        match &self.user_agent {
            Some(a) => Some(a.clone()),
            None => None,
        }
    }

    /// Asks for a compressed response.
    pub fn compressed(self) -> (r: Self)
        ensures
            r@ == (RequestView { gzip: true, ..self@ }),
    {
        let mut next = self;
        proof {
            use_type_invariant(&next);
        }
        next.gzip = true;
        next
    }

    /// Whether a compressed response is asked for.
    pub fn is_compressed(&self) -> (on: bool)
        ensures
            on == self@.gzip,
    {
        self.gzip
    }

    /// Asks for a response that is not compressed.
    pub fn no_compression(self) -> (r: Self)
        ensures
            r@ == (RequestView { gzip: false, ..self@ }),
    {
        let mut next = self;
        proof {
            use_type_invariant(&next);
        }
        next.gzip = false;
        next
    }

    /// Makes the descriptor a routing directive to `step`, or with `None` an
    /// ordinary request again.
    pub fn skip_to(self, step: Option<String>) -> (r: Self)
        ensures
            r@ == (RequestView { skip_to: text_view(step), ..self@ }),
    {
        let mut next = self;
        proof {
            use_type_invariant(&next);
        }
        next.skip_to = step;
        next
    }

    /// Whether the descriptor is a routing directive.
    pub fn is_skipped(&self) -> (skipped: bool)
        ensures
            skipped == self@.skip_to is Some,
    {
        self.skip_to.is_some()
    }

    /// The step that the descriptor points to, if it is a routing directive.
    pub fn get_skip_to_step(&self) -> (step: Option<String>)
        ensures
            text_view(step) == self@.skip_to,
    {
        match &self.skip_to {
            Some(s) => Some(s.clone()),
            None => None,
        }
    }

    /// Closes the descriptor: it is handed back unchanged, and carries at most
    /// one payload.
    pub fn build(self) -> (r: Self)
        ensures
            r@ == self@,
            single_payload(r@),
    {
        proof {
            use_type_invariant(&self);
        }
        self
    }
}

impl Default for Request {
    /// A `GET` of `/`, with everything else at its default.
    fn default() -> (r: Self)
        ensures
            is_fresh(r@, r@.method, "/"@),
            method_name(r@.method) == "GET"@,
    {
        Request::new(method_get(), String::from_str("/"))
    }
}

impl Clone for Request {
    fn clone(&self) -> (copy: Self)
        ensures
            copy@ == self@,
    {
        proof {
            use_type_invariant(self);
        }
        Self {
            method: clone_method(&self.method),
            url: self.url.clone(),
            headers: self.headers(),
            timeout: self.timeout,
            body: match &self.body {
                Some(b) => Some(b.clone()),
                None => None,
            },
            multipart: match &self.multipart {
                Some(m) => Some(m.clone()),
                None => None,
            },
            status_codes: self.status_codes(),
            proxy: self.proxy(),
            user_agent: self.user_agent(),
            gzip: self.gzip,
            skip_to: self.get_skip_to_step(),
        }
    }
}

} // verus!
