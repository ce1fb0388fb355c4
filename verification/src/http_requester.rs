//! The requester: one cookie jar that lasts, the settings of the next client,
//! and the building of a client and of a request handle from them.

use crate::client_settings::{ClientSettings, ClientSettingsView};
use crate::errors::{StepError, StepErrorView};
use crate::request::{
    effective_timeout, headers_fit, payload_bytes, wire_fields, Request, RequestView,
    DEFAULT_TIMEOUT_SECS,
};
use crate::transport::{
    add_headers, add_proxy, attach_jar, body_content, body_set, build_failure, check_request,
    clone_proxy, count_names, export_jar, finish_client, form_fields, form_set, gzip_set,
    handle_names, HEADER_ROOM, headers_added, is_built_of, is_export_of, is_new_builder,
    is_value_text, jar_attached, kept_error, name_count, new_client_builder, new_jar,
    proxy_added, request_started, seconds, set_body, set_form, set_gzip, set_timeout,
    set_user_agent, start_request, timeout_set, user_agent_set, whole_seconds,
};
use reqwest::header::HeaderMap;
use reqwest::multipart::Form;
use reqwest::{Body, Client, ClientBuilder, Method, RequestBuilder};
use reqwest_cookie_store::CookieStoreMutex;
use std::sync::Arc;
use vstd::prelude::*;

verus! {

/// The builder that a client is built from: `fresh` with the jar attached, the
/// compression flag set, the proxy added where there is one, and the user
/// agent set where there is one, in this order.
pub open spec fn configured(
    fresh: ClientBuilder,
    jar: Arc<CookieStoreMutex>,
    settings: ClientSettingsView,
) -> ClientBuilder {
    let based = gzip_set(jar_attached(fresh, jar), settings.gzip);
    let proxied = match settings.proxy {
        Some(p) => proxy_added(based, p),
        None => based,
    };
    match settings.user_agent {
        Some(a) => user_agent_set(proxied, a),
        None => proxied,
    }
}

/// The settings that a descriptor asks for: its proxy, its user agent and its
/// compression flag.
pub open spec fn settings_of(r: RequestView) -> ClientSettingsView {
    ClientSettingsView { proxy: r.proxy, user_agent: r.user_agent, gzip: r.gzip }
}

/// Whether a client is one of this jar and these settings: the transport made
/// it of a new builder that had the jar and the settings put on.
pub open spec fn is_client_of(
    c: Client,
    jar: Arc<CookieStoreMutex>,
    settings: ClientSettingsView,
) -> bool {
    exists|fresh: ClientBuilder|
        is_new_builder(fresh) && is_built_of(c, #[trigger] configured(fresh, jar, settings))
}

/// The handle of a request that is not described by a descriptor: `started`
/// with the default timeout, then these headers where there are any, then this
/// body where there is one.
pub open spec fn plain(
    started: RequestBuilder,
    headers: Option<HeaderMap>,
    body: Option<Body>,
) -> RequestBuilder {
    let timed = timeout_set(started, seconds(DEFAULT_TIMEOUT_SECS));
    let headed = match headers {
        Some(h) => headers_added(timed, h),
        None => timed,
    };
    match body {
        Some(b) => body_set(headed, b),
        None => headed,
    }
}

/// Whether a client can be built with these settings: they name no user
/// agent, or one that the transport takes as a header value.
pub open spec fn agent_accepted(settings: ClientSettingsView) -> bool {
    match settings.user_agent {
        Some(agent) => is_value_text(agent),
        None => true,
    }
}

/// Whether `body` and `form` are the payloads of the descriptor as the
/// transport takes them: each is there where the descriptor has it, and holds
/// what the descriptor holds.
pub open spec fn carries(r: RequestView, body: Option<Body>, form: Option<Form>) -> bool {
    &&& match r.body {
        Some(payload) => body matches Some(b) && body_content(b) == payload_bytes(payload),
        None => body is None,
    }
    &&& match r.multipart {
        Some(fields) => form matches Some(f) && form_fields(f) == wire_fields(fields),
        None => form is None,
    }
}

/// The handle of a request: started on `client` for the descriptor's method
/// and URL, then given its timeout, its headers where it has any, and its
/// payload where it has one.
pub open spec fn assembled(
    client: Client,
    r: RequestView,
    body: Option<Body>,
    form: Option<Form>,
) -> RequestBuilder {
    let timed = timeout_set(request_started(client, r.method, r.url), effective_timeout(r));
    let headed = match r.headers {
        Some(h) => headers_added(timed, h),
        None => timed,
    };
    let bodied = match body {
        Some(b) => body_set(headed, b),
        None => headed,
    };
    match form {
        Some(f) => form_set(bodied, f),
        None => bodied,
    }
}

/// A handle that holds a request is handed on; one that holds an error gives
/// the error.
pub open spec fn checked(rb: RequestBuilder) -> Result<RequestBuilder, reqwest::Error> {
    match build_failure(rb) {
        Some(e) => Err(e),
        None => Ok(rb),
    }
}

/// Owns the cookie jar and the settings. Every request gets a client of its
/// own, built from the settings as they are then; all of them share the jar.
#[derive(Clone)]
pub struct HttpRequester {
    cookie_store: Arc<CookieStoreMutex>,
    pub settings: Box<ClientSettings>,
}

impl HttpRequester {
    /// The jar that every client of this requester is given.
    pub closed spec fn jar(&self) -> Arc<CookieStoreMutex> {
        self.cookie_store
    }

    /// The settings that the next client is built with.
    pub closed spec fn settings_view(&self) -> ClientSettingsView {
        self.settings@
    }

    /// A requester with an empty jar and the default settings.
    pub fn new() -> (r: Self)
        ensures
            r.settings_view() == (ClientSettingsView {
                proxy: None,
                user_agent: None,
                gzip: true,
            }),
    {
        let cookie_store = new_jar();
        let settings = ClientSettings::new();
        Self { cookie_store, settings: Box::new(settings) }
    }

    /// Takes over what `req` says of the client: its proxy, its user agent and
    /// its compression flag replace the settings. The jar stays.
    pub fn adopt(&mut self, req: &Request)
        ensures
            final(self).jar() == old(self).jar(),
            final(self).settings_view() == settings_of(req@),
    {
        self.settings.set_proxy(req.proxy());
        self.settings.set_user_agent(req.user_agent());
        self.settings.set_compression(req.is_compressed());
    }

    /// A new builder with the jar and the settings put on. A user agent that
    /// the transport does not take leaves an error in the builder; else it has
    /// kept none.
    pub fn configure(&self) -> (b: ClientBuilder)
        ensures
            exists|fresh: ClientBuilder|
                is_new_builder(fresh) && b == #[trigger] configured(
                    fresh,
                    self.jar(),
                    self.settings_view(),
                ),
            agent_accepted(self.settings_view()) <==> kept_error(b) is None,
    {
        let fresh = new_client_builder();
        let ghost fresh0 = fresh;
        let mut builder = set_gzip(
            attach_jar(fresh, &self.cookie_store),
            self.settings.is_compressed(),
        );
        if let Some(proxy) = self.settings.proxy() {
            builder = add_proxy(builder, clone_proxy(proxy));
        }
        if let Some(agent) = self.settings.user_agent() {
            builder = set_user_agent(builder, agent.clone());
        }
        assert(builder == configured(fresh0, self.jar(), self.settings_view()));
        builder
    }

    /// The settings that the next client is built with.
    pub fn settings(&self) -> (s: &ClientSettings)
        ensures
            s@ == self.settings_view(),
    {
        &self.settings
    }

    /// The settings that the next client is built with, to be changed. The
    /// jar stays.
    pub fn settings_mut(&mut self) -> (s: &mut ClientSettings)
        ensures
            s@ == old(self).settings_view(),
            final(self).settings_view() == final(s)@,
            final(self).jar() == old(self).jar(),
    {
        &mut self.settings
    }

    /// Builds a client from the settings as they are now: of the builder that
    /// [`HttpRequester::configure`] gives. There is a client unless the
    /// settings name a user agent that the transport does not take; the
    /// transport is built without a TLS backend, which could fail as well.
    pub fn build_client(&self) -> (r: Result<Client, reqwest::Error>)
        ensures
            r is Ok <==> agent_accepted(self.settings_view()),
            r matches Ok(client) ==> is_client_of(client, self.jar(), self.settings_view()),
    {
        finish_client(self.configure())
    }

    /// Starts a request on `client` and makes it ready to be sent without a
    /// descriptor, as [`HttpRequester::plain_handle`] does. There is no handle
    /// where the headers are more than the transport is sure to take.
    pub fn plain_request(
        client: &Client,
        method: Method,
        url: &str,
        headers: Option<HeaderMap>,
        body: Option<Body>,
    ) -> (r: Option<RequestBuilder>)
        ensures
            match headers {
                Some(h) if name_count(h) > HEADER_ROOM => r is None,
                _ => r == Some(plain(request_started(*client, method, url@), headers, body)),
            },
    {
        let fits = match &headers {
            Some(h) => count_names(h) <= HEADER_ROOM,
            None => true,
        };
        if fits {
            Some(Self::plain_handle(start_request(client, method, url), headers, body))
        } else {
            None
        }
    }

    /// Makes a started request ready to be sent without a descriptor: with
    /// the default timeout, these headers and this body. `started` is as
    /// `Client::request` gives it, and the headers are no more than the
    /// transport is sure to take.
    pub fn plain_handle(
        started: RequestBuilder,
        headers: Option<HeaderMap>,
        body: Option<Body>,
    ) -> (r: RequestBuilder)
        requires
            handle_names(started) <= 1,
            headers matches Some(h) ==> name_count(h) <= HEADER_ROOM,
        ensures
            r == plain(started, headers, body),
    {
        let mut handle = set_timeout(started, whole_seconds(DEFAULT_TIMEOUT_SECS));
        if let Some(h) = headers {
            handle = add_headers(handle, h);
        }
        if let Some(b) = body {
            handle = set_body(handle, b);
        }
        handle
    }

    /// Builds the handle of the request that `req` describes on `client`, and
    /// gives the transport's error where the handle holds none. The headers of
    /// `req` are no more than the transport is sure to take:
    /// [`Request::headers_fit`] tells.
    pub fn request_with(client: &Client, req: &Request) -> (r: Result<
        RequestBuilder,
        reqwest::Error,
    >)
        requires
            headers_fit(req@),
        ensures
            exists|body: Option<Body>, form: Option<Form>|
                carries(req@, body, form) && r == checked(assembled(*client, req@, body, form)),
    {
        let mut handle = set_timeout(
            start_request(client, req.method(), req.url().as_str()),
            req.effective_timeout(),
        );
        if let Some(headers) = req.headers() {
            handle = add_headers(handle, headers);
        }
        let body = req.body();
        let form = req.multipart();
        let ghost body0 = body;
        let ghost form0 = form;
        if let Some(b) = body {
            handle = set_body(handle, b);
        }
        if let Some(f) = form {
            handle = set_form(handle, f);
        }
        assert(handle == assembled(*client, req@, body0, form0));
        assert(carries(req@, body0, form0));
        check_request(handle)
    }

    /// Builds a client, and on it the handle of the request that `req`
    /// describes. Where the settings name a user agent that the transport does
    /// not take, there is no client and no handle. Else the handle is put
    /// together on the client as [`HttpRequester::request_with`] does, and comes
    /// back where it holds a request; where it holds an error, the error does.
    /// The headers of `req` are no more than the transport is sure to take:
    /// [`Request::headers_fit`] tells.
    pub fn build_reqwest(&self, req: Request) -> (r: Result<RequestBuilder, reqwest::Error>)
        requires
            headers_fit(req@),
        ensures
            !agent_accepted(self.settings_view()) ==> r is Err,
            agent_accepted(self.settings_view()) ==> exists|
                client: Client,
                body: Option<Body>,
                form: Option<Form>,
            |
                is_client_of(client, self.jar(), self.settings_view()) && carries(req@, body, form)
                    && r == checked(#[trigger] assembled(client, req@, body, form)),
    {
        match self.build_client() {
            Ok(client) => Self::request_with(&client, &req),
            Err(e) => Err(e),
        }
    }

    /// The jar's cookies that last, as they are now: one JSON document on each
    /// line. The jar stays as it is. Whether the jar can be read is up to the
    /// jar; what comes back is an export of this requester's jar, or
    /// `Unsuccessful`.
    pub fn get_cookies(&self) -> (r: Result<Vec<u8>, StepError>)
        ensures
            r matches Ok(buffer) ==> is_export_of(self.jar(), buffer@),
            r matches Err(e) ==> e@ == StepErrorView::Unsuccessful,
    {
        Self::exported(export_jar(&self.cookie_store))
    }

    /// What an export of the jar means for the caller: the buffer where there
    /// is one, else that the export was unsuccessful.
    pub fn exported(answer: Option<Vec<u8>>) -> (r: Result<Vec<u8>, StepError>)
        ensures
            match answer {
                Some(buffer) => r == Ok::<Vec<u8>, StepError>(buffer),
                None => r matches Err(e) && e@ == StepErrorView::Unsuccessful,
            },
    {
        match answer {
            Some(buffer) => Ok(buffer),
            None => Err(StepError::Unsuccessful),
        }
    }
}

} // verus!
