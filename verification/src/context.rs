//! The execution context: what one worker knows of the step it runs and of
//! the last response.

use crate::client_settings::ClientSettingsView;
use crate::codec::{
    decodable, decode_utf8, describe_json_failure, json_failure_text, json_parsed, parse_json,
    utf8_decoded, without_mark,
};
use crate::errors::{StepError, StepErrorView};
use crate::http_requester::{
    agent_accepted, assembled, carries, is_client_of, settings_of, HttpRequester,
};
use crate::request::{codes_view, headers_fit, is_fresh, text_view, Request, RequestView};
use crate::text::{append_decimal, decimal};
use crate::transport::{
    build_failure, bytes_content, bytes_slice, clone_bytes, method_name,
};
use reqwest::multipart::Form;
use reqwest::{Body, Client, Method, RequestBuilder};
use reqwest_cookie_store::CookieStoreMutex;
use std::sync::Arc;
use vstd::prelude::*;
use vstd::string::*;
use vstd::utf8::valid_utf8;

verus! {

/// The state that a worker carries from one step to the next. It is handed to
/// the callbacks of a step, which may read and change it.
pub struct Context {
    /// The descriptor of the request that was built last.
    pub request: Request,
    /// The step that is running, or ran last.
    pub current_step: Option<String>,
    /// The requester, with the cookie jar and the client's settings.
    pub http_requester: HttpRequester,
    /// The handle of the request that is ready to be sent.
    pub request_builder: Option<RequestBuilder>,
    /// The body of the last response that was accepted and read.
    pub response_body: Option<bytes::Bytes>,
    /// The step to run next.
    pub next_step: Option<String>,
    /// The status codes that the running step accepts.
    pub status_codes: Option<Vec<u16>>,
    /// How long the last attempt took, in milliseconds.
    pub time_elapsed: u64,
}

/// A [`Context`] with texts, lists and the captured body as sequences.
pub struct ContextView {
    pub request: RequestView,
    pub current_step: Option<Seq<char>>,
    pub jar: Arc<CookieStoreMutex>,
    pub settings: ClientSettingsView,
    pub request_builder: Option<RequestBuilder>,
    pub response_body: Option<Seq<u8>>,
    pub next_step: Option<Seq<char>>,
    pub status_codes: Option<Seq<u16>>,
    pub time_elapsed: u64,
}

/// The view of an optional buffer.
pub open spec fn body_view(body: Option<bytes::Bytes>) -> Option<Seq<u8>> {
    match body {
        Some(b) => Some(bytes_content(b)),
        None => None,
    }
}

impl View for Context {
    type V = ContextView;

    open spec fn view(&self) -> ContextView {
        ContextView {
            request: self.request@,
            current_step: text_view(self.current_step),
            jar: self.http_requester.jar(),
            settings: self.http_requester.settings_view(),
            request_builder: self.request_builder,
            response_body: body_view(self.response_body),
            next_step: text_view(self.next_step),
            status_codes: codes_view(self.status_codes),
            time_elapsed: self.time_elapsed,
        }
    }
}

/// Whether a request can be built of a descriptor at all: its headers are no
/// more than the transport is sure to take, and its user agent, if it names
/// one, is one that the transport takes.
pub open spec fn can_build(r: RequestView) -> bool {
    headers_fit(r) && agent_accepted(settings_of(r))
}

/// Whether `built` is what building the request of `r` gives, with the
/// settings that `r` asks for and this jar. Where a request can be built at
/// all, a client of the jar and the settings is built and the handle is put
/// together on it; the handle is there where it holds a request, and there is
/// none where it holds an error. Else there is none.
pub open spec fn is_build_of(
    built: Option<RequestBuilder>,
    r: RequestView,
    jar: Arc<CookieStoreMutex>,
) -> bool {
    if can_build(r) {
        exists|client: Client, body: Option<Body>, form: Option<Form>|
            is_client_of(client, jar, settings_of(r)) && carries(r, body, form) && built == (
            match build_failure(#[trigger] assembled(client, r, body, form)) {
                None => Some(assembled(client, r, body, form)),
                Some(_) => None,
            })
    } else {
        built is None
    }
}

/// Whether a handle is one of the request that `r` describes: building the
/// request of `r` with this jar gave it.
pub open spec fn is_handle_of(
    handle: RequestBuilder,
    r: RequestView,
    jar: Arc<CookieStoreMutex>,
) -> bool {
    is_build_of(Some(handle), r, jar)
}

/// The context once it has taken over what `r` says of the client and of the
/// status codes to accept.
pub open spec fn prepared(c: ContextView, r: RequestView) -> ContextView {
    ContextView { settings: settings_of(r), status_codes: r.status_codes, ..c }
}

/// How long an attempt took, for a reader: the milliseconds and their unit.
pub open spec fn elapsed_text(ms: u64) -> Seq<char> {
    decimal(ms as nat) + " ms"@
}

/// What reading the captured body as text gives.
pub open spec fn text_of(body: Option<Seq<u8>>) -> Result<Seq<char>, StepErrorView> {
    match body {
        Some(bytes) => Ok(utf8_decoded(bytes)),
        None => Err(StepErrorView::NoBodyError),
    }
}

/// The characters that a body encodes, where it is well-formed UTF-8: those
/// behind the byte order mark, where it starts with one.
pub open spec fn encoded_text(body: Option<Seq<u8>>) -> Option<Seq<char>> {
    match body {
        Some(bytes) => if valid_utf8(bytes) {
            Some(vstd::utf8::decode_utf8(without_mark(bytes)))
        } else {
            None
        },
        None => None,
    }
}

/// Whether `r` is `expected`, error by error.
pub open spec fn is_text(
    expected: Result<Seq<char>, StepErrorView>,
    r: Result<String, StepError>,
) -> bool {
    match expected {
        Ok(text) => r matches Ok(t) && t@ == text,
        Err(e) => r matches Err(f) && f@ == e,
    }
}

/// What the parser's answer means for a reader: the value, or a decode error
/// with the parser's words.
pub open spec fn json_reading(parsed: Result<serde_json::Value, serde_json::Error>) -> Result<
    serde_json::Value,
    StepErrorView,
> {
    match parsed {
        Ok(value) => Ok(value),
        Err(e) => Err(StepErrorView::DecodeError(json_failure_text(e))),
    }
}

/// What reading the captured body as JSON gives.
pub open spec fn json_of(body: Option<Seq<u8>>) -> Result<serde_json::Value, StepErrorView> {
    match body {
        Some(bytes) => json_reading(json_parsed(bytes)),
        None => Err(StepErrorView::NoBodyError),
    }
}

/// Whether `r` is `expected`, error by error.
pub open spec fn is_reading(
    expected: Result<serde_json::Value, StepErrorView>,
    r: Result<serde_json::Value, StepError>,
) -> bool {
    match expected {
        Ok(value) => r == Ok::<serde_json::Value, StepError>(value),
        Err(e) => r matches Err(f) && f@ == e,
    }
}

/// Whether a context is as [`Context::new`] makes it: a `GET` of `/` as its
/// descriptor, the default settings, no step, no body, no time. It holds what
/// building the request of that descriptor gave.
pub open spec fn is_initial(c: ContextView) -> bool {
    &&& is_fresh(c.request, c.request.method, "/"@)
    &&& method_name(c.request.method) == "GET"@
    &&& c.current_step is None
    &&& c.settings == (ClientSettingsView { proxy: None, user_agent: None, gzip: true })
    &&& is_build_of(c.request_builder, c.request, c.jar)
    &&& c.response_body is None
    &&& c.next_step is None
    &&& c.status_codes is None
    &&& c.time_elapsed == 0
}

impl Context {
    /// A context that has run nothing.
    pub fn new() -> (c: Self)
        ensures
            is_initial(c@),
    {
        let request = Request::default();
        let http_requester = HttpRequester::new();
        let request_builder = match http_requester.build_reqwest(request.clone()) {
            Ok(handle) => Some(handle),
            Err(_) => None,
        };
        Context {
            request,
            current_step: None,
            http_requester,
            request_builder,
            response_body: None,
            next_step: None,
            status_codes: None,
            time_elapsed: 0,
        }
    }

    /// Names the step that is running.
    pub fn set_current_step(&mut self, step: String)
        ensures
            final(self)@ == (ContextView { current_step: Some(step@), ..old(self)@ }),
    {
        self.current_step = Some(step);
    }

    /// The step that is running, or ran last.
    pub fn get_current_step(&self) -> (step: Option<String>)
        ensures
            text_view(step) == self@.current_step,
    {
        match &self.current_step {
            Some(s) => Some(s.clone()),
            None => None,
        }
    }

    /// Names the step to run next.
    pub fn set_next_step(&mut self, step: String)
        ensures
            final(self)@ == (ContextView { next_step: Some(step@), ..old(self)@ }),
    {
        self.next_step = Some(step);
    }

    /// Leaves no step to run next.
    pub fn clear_next_step(&mut self)
        ensures
            final(self)@ == (ContextView { next_step: None, ..old(self)@ }),
    {
        self.next_step = None;
    }

    /// The step to run next.
    pub fn get_next_step(&self) -> (step: Option<String>)
        ensures
            text_view(step) == self@.next_step,
    {
        match &self.next_step {
            Some(s) => Some(s.clone()),
            None => None,
        }
    }

    /// How long the last attempt took, in milliseconds.
    pub fn get_time_elapsed(&self) -> (ms: u64)
        ensures
            ms == self@.time_elapsed,
    {
        self.time_elapsed
    }

    /// Records how long the last attempt took, in milliseconds.
    pub fn set_time_elapsed(&mut self, time_elapsed: u64)
        ensures
            final(self)@ == (ContextView { time_elapsed, ..old(self)@ }),
    {
        self.time_elapsed = time_elapsed;
    }

    /// The time that the last attempt took, for a reader: `128 ms`.
    pub fn get_time_elapsed_as_string(&self) -> (text: String)
        ensures
            text@ == elapsed_text(self@.time_elapsed),
    {
        let mut text = String::new();
        append_decimal(&mut text, self.time_elapsed);
        text.append(" ms");
        assert(text@ =~= elapsed_text(self@.time_elapsed));
        text
    }

    /// Sets the status codes that are accepted.
    pub fn set_status_codes(&mut self, status_codes: Vec<u16>)
        ensures
            final(self)@ == (ContextView { status_codes: Some(status_codes@), ..old(self)@ }),
    {
        self.status_codes = Some(status_codes);
    }

    /// The status codes that are accepted.
    pub fn get_status_codes(&self) -> (codes: Option<Vec<u16>>)
        ensures
            codes_view(codes) == self@.status_codes,
    {
        match &self.status_codes {
            Some(c) => Some(c.clone()),
            None => None,
        }
    }

    /// Holds this handle as the one that is ready to be sent.
    pub fn set_request_builder(&mut self, req_builder: RequestBuilder)
        ensures
            final(self)@ == (ContextView { request_builder: Some(req_builder), ..old(self)@ }),
    {
        self.request_builder = Some(req_builder);
    }

    /// Hands out the handle that is ready to be sent, and leaves none behind.
    pub fn take_request_builder(&mut self) -> (handle: Option<RequestBuilder>)
        ensures
            handle == old(self)@.request_builder,
            final(self)@ == (ContextView { request_builder: None, ..old(self)@ }),
    {
        self.request_builder.take()
    }

    /// The URL of the current descriptor.
    pub fn get_url(&self) -> (url: String)
        ensures
            url@ == self@.request.url,
    {
        self.request.url().clone()
    }

    /// The method of the current descriptor.
    pub fn get_method(&self) -> (m: Method)
        ensures
            m == self@.request.method,
    {
        self.request.method()
    }

    /// Stores a body as the captured one.
    pub fn set_response_body(&mut self, res: bytes::Bytes)
        ensures
            final(self)@ == (ContextView {
                response_body: Some(bytes_content(res)),
                ..old(self)@
            }),
    {
        self.response_body = Some(res);
    }

    /// The captured body as it came.
    pub fn body_bytes(&self) -> (r: Result<bytes::Bytes, StepError>)
        ensures
            match self@.response_body {
                Some(bytes) => r matches Ok(b) && bytes_content(b) == bytes,
                None => r matches Err(e) && e@ == StepErrorView::NoBodyError,
            },
    {
        match &self.response_body {
            Some(b) => Ok(clone_bytes(b)),
            None => Err(StepError::NoBodyError),
        }
    }

    /// The captured body as text, read as UTF-8. A body that is well-formed
    /// UTF-8 gives the characters it encodes, without a byte order mark at its
    /// start. The body is no longer than the decoder takes;
    /// [`Context::body_text_if_decodable`] asks for nothing.
    pub fn body_text(&self) -> (r: Result<String, StepError>)
        requires
            self@.response_body matches Some(bytes) ==> decodable(bytes.len()),
        ensures
            is_text(text_of(self@.response_body), r),
            match encoded_text(self@.response_body) {
                Some(text) => r matches Ok(t) && t@ == text,
                None => true,
            },
    {
        match &self.response_body {
            Some(b) => Ok(decode_utf8(bytes_slice(b))),
            None => Err(StepError::NoBodyError),
        }
    }

    /// The captured body as text, read as UTF-8, or `None` where the body is
    /// longer than the decoder takes.
    pub fn body_text_if_decodable(&self) -> (r: Option<Result<String, StepError>>)
        ensures
            match self@.response_body {
                Some(bytes) if !decodable(bytes.len()) => r is None,
                _ => r matches Some(text) && is_text(text_of(self@.response_body), text),
            },
            match encoded_text(self@.response_body) {
                Some(text) => r matches Some(Ok(t)) ==> t@ == text,
                None => true,
            },
    {
        match &self.response_body {
            Some(b) => {
                if bytes_slice(b).len() <= usize::MAX / 8 {
                    Some(self.body_text())
                } else {
                    None
                }
            },
            None => Some(self.body_text()),
        }
    }

    /// The captured body as one JSON value.
    pub fn body_json(&self) -> (r: Result<serde_json::Value, StepError>)
        ensures
            is_reading(json_of(self@.response_body), r),
    {
        match &self.response_body {
            Some(b) => Self::json_outcome(parse_json(bytes_slice(b))),
            None => Err(StepError::NoBodyError),
        }
    }

    /// What the parser's answer means for the reader of a body that is there.
    pub fn json_outcome(parsed: Result<serde_json::Value, serde_json::Error>) -> (r: Result<
        serde_json::Value,
        StepError,
    >)
        ensures
            is_reading(json_reading(parsed), r),
    {
        match parsed {
            Ok(value) => Ok(value),
            Err(e) => Err(StepError::DecodeError(describe_json_failure(&e))),
        }
    }

    /// Makes the context ready for the request that `req` describes: the
    /// client's settings and the accepted status codes are taken from `req`,
    /// then the request is built as [`is_build_of`] says. Where that gives a
    /// handle the context holds the handle and `req`, and the result is `Ok`;
    /// where it gives none the context holds no handle and keeps the
    /// descriptor it had, and the result is `RequestBuildError`.
    pub fn update_from_request(&mut self, req: Request) -> (r: Result<(), StepError>)
        ensures
            is_build_of(final(self)@.request_builder, req@, old(self)@.jar),
            match final(self)@.request_builder {
                Some(handle) => r is Ok && final(self)@ == (ContextView {
                    request: req@,
                    request_builder: Some(handle),
                    ..prepared(old(self)@, req@)
                }),
                None => (r matches Err(e) && e@ == StepErrorView::RequestBuildError) && final(self)@
                    == (ContextView { request_builder: None, ..prepared(old(self)@, req@) }),
            },
    {
        self.http_requester.adopt(&req);
        self.status_codes = req.status_codes();
        if !req.headers_fit() {
            self.request_builder = None;
            return Err(StepError::RequestBuildError);
        }
        match self.http_requester.build_reqwest(req.clone()) {
            Ok(handle) => {
                self.request_builder = Some(handle);
                self.request = req;
                Ok(())
            },
            Err(_) => {
                self.request_builder = None;
                Err(StepError::RequestBuildError)
            },
        }
    }
}

} // verus!
