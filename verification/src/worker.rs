//! The worker: runs one step at a time on its context.
//!
//! A step run is cut where the transport has to wait. [`Worker::begin_step`]
//! goes as far as the request that is ready to be sent, [`Worker::after_send`]
//! takes what sending gave and decides whether the body is to be read, and
//! [`Worker::after_body`] takes what reading gave. Whoever drives the worker
//! sends and reads in between.
//!
//! A timeout goes to the step's `on_timeout` wherever it strikes, while the
//! request is sent or while the body is read; every other failure goes to
//! `on_error`.

use crate::context::{is_build_of, is_initial, prepared, Context, ContextView};
use crate::errors::{StepError, StepErrorView};
use crate::request::{codes_view, RequestView};
use crate::steps::{named_by, with_step, with_steps, StepManager, Stepable};
use crate::transport::{
    bytes_content, describe_failure, failure_text, is_timeout, is_timeout_failure, response_code,
    status_of,
};
use reqwest::{RequestBuilder, Response};
use std::sync::Arc;
use vstd::prelude::*;
use vstd::string::*;

verus! {

// ---------------------------------------------------------------------------
// The acceptance policy
// ---------------------------------------------------------------------------

/// Whether a response with this status code is accepted. A list that names
/// codes accepts these and no others. No list, or a list without codes,
/// accepts the codes from 200 up to, but not including, 300.
pub open spec fn status_accepted(policy: Option<Seq<u16>>, code: u16) -> bool {
    match policy {
        Some(codes) => if codes.len() == 0 {
            200 <= code < 300
        } else {
            codes.contains(code)
        },
        None => 200 <= code < 300,
    }
}

/// The codes that a policy asks for: those of its list, or none.
pub open spec fn expected_codes(policy: Option<Seq<u16>>) -> Seq<u16> {
    match policy {
        Some(codes) => codes,
        None => Seq::empty(),
    }
}

fn lists(codes: &Vec<u16>, status_code: u16) -> (found: bool)
    ensures
        found == codes@.contains(status_code),
{
    let mut i: usize = 0;
    while i < codes.len()
        invariant
            i <= codes.len(),
            forall|k: int| 0 <= k < i ==> codes[k] != status_code,
        decreases codes.len() - i,
    {
        if codes[i] == status_code {
            return true;
        }
        i = i + 1;
    }
    false
}

/// Decides by the policy whether a status code is accepted.
pub fn accepts(policy: &Option<Vec<u16>>, status_code: u16) -> (accepted: bool)
    ensures
        accepted == status_accepted(codes_view(*policy), status_code),
{
    match policy {
        Some(codes) => {
            if codes.len() == 0 {
                200 <= status_code && status_code < 300
            } else {
                lists(codes, status_code)
            }
        },
        None => 200 <= status_code && status_code < 300,
    }
}

// ---------------------------------------------------------------------------
// What passes between the worker and its driver
// ---------------------------------------------------------------------------

/// What is to be done once a step was begun.
pub enum StepStart {
    /// Nothing: the step pointed to another step, and no request is made.
    Skipped,
    /// This request is to be sent.
    Send(RequestBuilder),
}

/// What sending a request gave.
pub enum Sent {
    /// The transport gave up waiting.
    TimedOut,
    /// Sending failed for another reason; the field says how.
    Failed(String),
    /// A response came, with this status code.
    Responded(u16),
}

/// [`Sent`] with the failure's text as a sequence.
pub enum SentView {
    TimedOut,
    Failed(Seq<char>),
    Responded(u16),
}

impl View for Sent {
    type V = SentView;

    open spec fn view(&self) -> SentView {
        match self {
            Sent::TimedOut => SentView::TimedOut,
            Sent::Failed(detail) => SentView::Failed(detail@),
            Sent::Responded(code) => SentView::Responded(*code),
        }
    }
}

/// What reading the body of a response gave.
pub enum Captured {
    /// The transport gave up waiting.
    TimedOut,
    /// Reading failed for another reason; the field says how.
    Failed(String),
    /// The whole body.
    Read(bytes::Bytes),
}

/// [`Captured`] with the failure's text and the body as sequences.
pub enum CapturedView {
    TimedOut,
    Failed(Seq<char>),
    Read(Seq<u8>),
}

impl View for Captured {
    type V = CapturedView;

    open spec fn view(&self) -> CapturedView {
        match self {
            Captured::TimedOut => CapturedView::TimedOut,
            Captured::Failed(detail) => CapturedView::Failed(detail@),
            Captured::Read(body) => CapturedView::Read(bytes_content(*body)),
        }
    }
}

/// What the transport's answer to a send means: a response by its status
/// code, an error as a timeout or by its text.
pub open spec fn sent_as(answer: Result<Response, reqwest::Error>) -> SentView {
    match answer {
        Ok(response) => SentView::Responded(response_code(response)),
        Err(e) => if is_timeout_failure(e) {
            SentView::TimedOut
        } else {
            SentView::Failed(failure_text(e))
        },
    }
}

/// What the transport's answer to a read means: the body, or an error as a
/// timeout or by its text.
pub open spec fn captured_as(answer: Result<bytes::Bytes, reqwest::Error>) -> CapturedView {
    match answer {
        Ok(body) => CapturedView::Read(bytes_content(body)),
        Err(e) => if is_timeout_failure(e) {
            CapturedView::TimedOut
        } else {
            CapturedView::Failed(failure_text(e))
        },
    }
}

// ---------------------------------------------------------------------------
// What a step run does to the context
// ---------------------------------------------------------------------------

/// The context after a step pointed to `target`: only the next step changes.
pub open spec fn skipped_to(c: ContextView, target: Seq<char>) -> ContextView {
    ContextView { next_step: Some(target), ..c }
}

/// The context once the request of step `name` is on its way: settings and
/// accepted codes are those of `request`, which is the current request; the
/// step is the current step; the handle was handed out.
pub open spec fn dispatched(c: ContextView, request: RequestView, name: Seq<char>) -> ContextView {
    ContextView {
        request,
        current_step: Some(name),
        request_builder: None,
        ..prepared(c, request)
    }
}

/// The context after no request could be built of `request`: settings and
/// accepted codes are those of `request`, and no handle is left.
pub open spec fn unbuilt(c: ContextView, request: RequestView) -> ContextView {
    ContextView { request_builder: None, ..prepared(c, request) }
}

/// The context with the time that the last attempt took.
pub open spec fn timed(c: ContextView, elapsed_ms: u64) -> ContextView {
    ContextView { time_elapsed: elapsed_ms, ..c }
}

/// The context as a step sees it when it is told of its success: the body is
/// stored, and no next step is named.
pub open spec fn captured(c: ContextView, body: Seq<u8>) -> ContextView {
    ContextView { response_body: Some(body), next_step: None, ..c }
}

/// What the caller is told once a request was sent.
pub open spec fn send_verdict(policy: Option<Seq<u16>>, sent: SentView) -> Result<
    (),
    StepErrorView,
> {
    match sent {
        SentView::TimedOut => Err(StepErrorView::TimeoutError),
        SentView::Failed(detail) => Err(StepErrorView::TransportError(detail)),
        SentView::Responded(code) => if status_accepted(policy, code) {
            Ok(())
        } else {
            Err(StepErrorView::StatusCodeNotFound(code as int, expected_codes(policy)))
        },
    }
}

/// What the caller is told once the body was read.
pub open spec fn body_verdict(read: CapturedView) -> Result<(), StepErrorView> {
    match read {
        CapturedView::TimedOut => Err(StepErrorView::TimeoutError),
        CapturedView::Failed(detail) => Err(StepErrorView::TransportError(detail)),
        CapturedView::Read(_) => Ok(()),
    }
}

/// Whether `step` was told of the failure `error` in `before` and left
/// `after`: of a timeout by its timeout callback, of any other failure by its
/// error callback.
pub open spec fn told_of_failure<S: Stepable + ?Sized>(
    step: Arc<S>,
    before: ContextView,
    error: StepErrorView,
    after: ContextView,
) -> bool {
    if error is TimeoutError {
        step.times_out(before, after)
    } else {
        step.fails(before, error, after)
    }
}

/// Whether `r` tells the caller `verdict`.
pub open spec fn tells<T>(r: Result<T, StepError>, verdict: Result<(), StepErrorView>) -> bool {
    match verdict {
        Ok(_) => r is Ok,
        Err(e) => r matches Err(f) && f@ == e,
    }
}

/// Whether beginning step `name`, which produced `request`, gave `r` and made
/// `after` of `before`. A directive is followed and nothing is built. Else
/// the request is built as [`is_build_of`] says: the handle that this gives is
/// handed out, and where it gives none the result is `RequestBuildError`.
pub open spec fn begun(
    before: ContextView,
    name: Seq<char>,
    request: RequestView,
    r: Result<StepStart, StepError>,
    after: ContextView,
) -> bool {
    match request.skip_to {
        Some(target) => r matches Ok(StepStart::Skipped) && after == skipped_to(before, target),
        None => match r {
            Ok(StepStart::Send(handle)) => is_build_of(Some(handle), request, before.jar) && after
                == dispatched(before, request, name),
            Ok(StepStart::Skipped) => false,
            Err(e) => e@ == StepErrorView::RequestBuildError && is_build_of(
                None,
                request,
                before.jar,
            ) && after == unbuilt(before, request),
        },
    }
}

/// Whether settling what sending gave made `after` of `before`: the time is
/// recorded; an accepted response changes nothing else, and of anything else
/// the step is told.
pub open spec fn sent_settled<S: Stepable + ?Sized>(
    step: Arc<S>,
    before: ContextView,
    elapsed_ms: u64,
    sent: SentView,
    after: ContextView,
) -> bool {
    match send_verdict(before.status_codes, sent) {
        Ok(_) => after == timed(before, elapsed_ms),
        Err(e) => told_of_failure(step, timed(before, elapsed_ms), e, after),
    }
}

/// Whether settling what reading gave made `after` of `before`: a body is
/// stored and the next step cleared before the step is told of its success;
/// of anything else the step is told as of a failure.
pub open spec fn body_settled<S: Stepable + ?Sized>(
    step: Arc<S>,
    before: ContextView,
    read: CapturedView,
    after: ContextView,
) -> bool {
    match read {
        CapturedView::Read(body) => step.succeeds(captured(before, body), after),
        _ => told_of_failure(step, before, body_verdict(read)->Err_0, after),
    }
}

// ---------------------------------------------------------------------------
// Laws
// ---------------------------------------------------------------------------

/// No list and a list without codes are one policy: both accept a status
/// code where it is at least 200 and below 300.
pub proof fn law_default_policy(code: u16)
    ensures
        status_accepted(None, code) == (200 <= code < 300),
        status_accepted(Some(Seq::<u16>::empty()), code) == status_accepted(None, code),
{
}

/// A list that names codes accepts a status code where it names it, whatever
/// range the code is in.
pub proof fn law_listed_policy(codes: Seq<u16>, code: u16)
    requires
        codes.len() > 0,
    ensures
        status_accepted(Some(codes), code) == codes.contains(code),
{
}

/// A response goes one of two ways. Where its status code is accepted the
/// caller is told of no error and the context only gains the time. Where it
/// is not, the caller gets `StatusCodeNotFound` with the code and the codes
/// that were asked for, and the step was told of just this error by its error
/// callback.
pub proof fn law_status_decides<S: Stepable + ?Sized>(
    step: Arc<S>,
    before: ContextView,
    elapsed_ms: u64,
    code: u16,
    after: ContextView,
)
    requires
        sent_settled(step, before, elapsed_ms, SentView::Responded(code), after),
    ensures
        status_accepted(before.status_codes, code) ==> send_verdict(
            before.status_codes,
            SentView::Responded(code),
        ) is Ok && after == timed(before, elapsed_ms),
        !status_accepted(before.status_codes, code) ==> send_verdict(
            before.status_codes,
            SentView::Responded(code),
        ) == Err::<(), StepErrorView>(
            StepErrorView::StatusCodeNotFound(code as int, expected_codes(before.status_codes)),
        ) && step.fails(
            timed(before, elapsed_ms),
            StepErrorView::StatusCodeNotFound(code as int, expected_codes(before.status_codes)),
            after,
        ),
{
}

/// A step that points to another step is run without a request: the caller
/// is told of success, the next step is the one pointed to, and nothing else
/// in the context changes: no handle is built, no status codes are taken over,
/// no step becomes the current one. Whether a step is registered under the
/// name pointed to plays no part.
pub proof fn law_directive_only_routes(
    before: ContextView,
    name: Seq<char>,
    request: RequestView,
    r: Result<StepStart, StepError>,
    after: ContextView,
)
    requires
        request.skip_to is Some,
        begun(before, name, request, r, after),
    ensures
        r matches Ok(StepStart::Skipped),
        after.next_step == request.skip_to,
        after == (ContextView { next_step: after.next_step, ..before }),
{
}

/// What a step sees when it is told of its success does not depend on the
/// next step or the body that an earlier run left in the context: two
/// contexts that differ in nothing else are the same once a body is captured,
/// and the next step is then cleared.
pub proof fn law_capture_forgets(first: ContextView, second: ContextView, body: Seq<u8>)
    requires
        first == (ContextView {
            next_step: first.next_step,
            response_body: first.response_body,
            ..second
        }),
    ensures
        captured(first, body) == captured(second, body),
        captured(first, body).next_step is None,
        captured(first, body).response_body == Some(body),
{
}

/// Capturing a body touches the body and the next step, and nothing else.
pub proof fn law_capture_frame(before: ContextView, body: Seq<u8>)
    ensures
        captured(before, body) == (ContextView {
            response_body: Some(body),
            next_step: None,
            ..before
        }),
        (ContextView {
            response_body: before.response_body,
            next_step: before.next_step,
            ..captured(before, body)
        }) == before,
{
}

/// Every failure is told to the step by exactly one callback: a timeout by
/// the timeout callback and by no other, any other failure by the error
/// callback and by no other.
pub proof fn law_one_callback<S: Stepable + ?Sized>(
    step: Arc<S>,
    before: ContextView,
    error: StepErrorView,
    after: ContextView,
)
    ensures
        error is TimeoutError ==> told_of_failure(step, before, error, after) == step.times_out(
            before,
            after,
        ),
        !(error is TimeoutError) ==> told_of_failure(step, before, error, after) == step.fails(
            before,
            error,
            after,
        ),
{
}

// ---------------------------------------------------------------------------
// The worker
// ---------------------------------------------------------------------------

/// A registry of steps and the context that the steps run on. A worker runs
/// one step at a time, and nothing is tried twice: every failure goes back to
/// the caller, after the step was told of it.
///
/// The worker holds shared steps of the kind `S`. Left unnamed, `S` is any
/// step, and steps of different types stand side by side.
pub struct Worker<S: Stepable + ?Sized = dyn Stepable> {
    steps: StepManager<S>,
    pub ctx: Context,
}

impl<S: Stepable + ?Sized> Worker<S> {
    /// The steps of this worker, by name.
    pub closed spec fn registry(&self) -> Map<Seq<char>, Arc<S>> {
        self.steps@
    }

    /// The context of this worker.
    pub closed spec fn context(&self) -> ContextView {
        self.ctx@
    }

    /// The context, to be read.
    pub fn ctx(&self) -> (c: &Context)
        ensures
            c@ == self.context(),
    {
        &self.ctx
    }

    /// The context, to be changed. The steps stay.
    pub fn ctx_mut(&mut self) -> (c: &mut Context)
        ensures
            c@ == old(self).context(),
            final(self).context() == final(c)@,
            final(self).registry() == old(self).registry(),
    {
        &mut self.ctx
    }

    /// A worker without steps, on a context that has run nothing.
    pub fn new() -> (w: Self)
        ensures
            w.registry() == Map::<Seq<char>, Arc<S>>::empty(),
            is_initial(w.context()),
    {
        let steps = StepManager::new();
        let ctx = Context::new();
        Worker { steps, ctx }
    }

    /// Registers `step` under the name it gives.
    pub fn add_step(&mut self, step: S) where S: Sized
        ensures
            final(self).context() == old(self).context(),
            exists|name: Seq<char>|
                step.names(name) && final(self).registry() == with_step(
                    old(self).registry(),
                    name,
                    Arc::new(step),
                ),
    {
        self.steps.insert(step);
    }

    /// Registers each of `steps` in turn.
    pub fn add_many_steps(&mut self, steps: Vec<Arc<S>>)
        ensures
            final(self).context() == old(self).context(),
            exists|names: Seq<Seq<char>>|
                named_by(steps@, names) && final(self).registry() == with_steps(
                    old(self).registry(),
                    names,
                    steps@,
                ),
    {
        self.steps.insert_many(steps);
    }

    /// Registers the shared `step` under the name it gives.
    pub fn add_step_arc(&mut self, step: Arc<S>)
        ensures
            final(self).context() == old(self).context(),
            exists|name: Seq<char>|
                step.names(name) && final(self).registry() == with_step(
                    old(self).registry(),
                    name,
                    step,
                ),
    {
        self.steps.insert_arc(step);
    }

    /// Gives up the worker for its registry.
    pub fn steps(self) -> (m: StepManager<S>)
        ensures
            m@ == self.registry(),
    {
        self.steps
    }

    /// The step that is registered under `name`, if there is one.
    pub fn get_step(&self, name: &str) -> (found: Option<Arc<S>>)
        ensures
            match found {
                Some(s) => self.registry().contains_key(name@) && s == self.registry()[name@],
                None => !self.registry().contains_key(name@),
            },
    {
        match self.steps.get(name) {
            Some(step) => Some(step.clone()),
            None => None,
        }
    }

    /// Whether the policy in effect accepts a response with this status code.
    pub fn check_status_code(&self, status_code: u16) -> (accepted: bool)
        ensures
            accepted == status_accepted(self.context().status_codes, status_code),
    {
        accepts(&self.ctx.status_codes, status_code)
    }

    /// Begins the step `name`: finds it, lets it produce its request, and either
    /// follows its directive to another step or makes the context ready and
    /// hands out the request that is to be sent.
    ///
    /// A name that is not registered gives `StepNotFound` and leaves the
    /// context as it is. A directive sets the next step, whether or not a step
    /// of that name is registered, and touches nothing else. A request that
    /// cannot be built gives `RequestBuildError`, and one that can be built is
    /// built. The step is told of none of these.
    pub fn begin_step(&mut self, name: &str) -> (r: Result<StepStart, StepError>)
        ensures
            final(self).registry() == old(self).registry(),
            !old(self).registry().contains_key(name@) ==> (r matches Err(e) && e@
                == StepErrorView::StepNotFound(name@)) && final(self).context()
                == old(self).context(),
            old(self).registry().contains_key(name@) ==> exists|request: RequestView|
                old(self).registry()[name@].requests(request) && begun(
                    old(self).context(),
                    name@,
                    request,
                    r,
                    final(self).context(),
                ),
    {
        let step = match self.steps.get(name) {
            Some(step) => step,
            None => {
                return Err(StepError::StepNotFound(name.to_owned()));
            },
        };
        let req = step.on_request();
        let ghost request = req@;
        if let Some(target) = req.get_skip_to_step() {
            self.ctx.set_next_step(target);
            let r = Ok(StepStart::Skipped);
            assert(begun(old(self).context(), name@, request, r, self.ctx@));
            return r;
        }
        if let Err(e) = self.ctx.update_from_request(req) {
            let r = Err(e);
            assert(begun(old(self).context(), name@, request, r, self.ctx@));
            return r;
        }
        self.ctx.set_current_step(name.to_owned());
        match self.ctx.take_request_builder() {
            Some(handle) => {
                let r = Ok(StepStart::Send(handle));
                assert(begun(old(self).context(), name@, request, r, self.ctx@));
                r
            },
            None => {
                assert(false);
                Err(StepError::RequestBuildError)
            },
        }
    }

    /// Settles what sending the request of step `name` gave, after
    /// `elapsed_ms` milliseconds. The time is recorded. A response whose
    /// status code the policy accepts gives `Ok`: its body is to be read. Of a
    /// timeout the step is told by `on_timeout`, of a failure and of a status
    /// code that is not accepted by `on_error`, and the caller gets the error.
    ///
    /// A name that is not registered gives `StepNotFound` and leaves the
    /// context as it is.
    pub fn settle_sent(&mut self, name: &str, elapsed_ms: u64, sent: Sent) -> (r: Result<
        (),
        StepError,
    >)
        ensures
            final(self).registry() == old(self).registry(),
            !old(self).registry().contains_key(name@) ==> (r matches Err(e) && e@
                == StepErrorView::StepNotFound(name@)) && final(self).context()
                == old(self).context(),
            old(self).registry().contains_key(name@) ==> tells(
                r,
                send_verdict(old(self).context().status_codes, sent@),
            ) && sent_settled(
                old(self).registry()[name@],
                old(self).context(),
                elapsed_ms,
                sent@,
                final(self).context(),
            ),
    {
        let step = match self.steps.get(name) {
            Some(step) => step,
            None => {
                return Err(StepError::StepNotFound(name.to_owned()));
            },
        };
        self.ctx.set_time_elapsed(elapsed_ms);
        match sent {
            Sent::TimedOut => {
                step.on_timeout(&mut self.ctx);
                Err(StepError::TimeoutError)
            },
            Sent::Failed(detail) => {
                let error = StepError::TransportError(detail);
                step.on_error(&mut self.ctx, error.clone());
                Err(error)
            },
            Sent::Responded(code) => {
                if accepts(&self.ctx.status_codes, code) {
                    Ok(())
                } else {
                    let expected = match self.ctx.get_status_codes() {
                        Some(codes) => codes,
                        None => Vec::new(),
                    };
                    let error = StepError::StatusCodeNotFound(code as i32, expected);
                    step.on_error(&mut self.ctx, error.clone());
                    Err(error)
                }
            },
        }
    }

    /// Settles what reading the body for step `name` gave. A body is stored in
    /// the context and the next step cleared; then the step is told by
    /// `on_success`, and the caller gets `Ok`. Of a timeout the step is told by
    /// `on_timeout`, of a failure by `on_error`, and the caller gets the error.
    ///
    /// A name that is not registered gives `StepNotFound` and leaves the
    /// context as it is.
    pub fn settle_body(&mut self, name: &str, read: Captured) -> (r: Result<(), StepError>)
        ensures
            final(self).registry() == old(self).registry(),
            !old(self).registry().contains_key(name@) ==> (r matches Err(e) && e@
                == StepErrorView::StepNotFound(name@)) && final(self).context()
                == old(self).context(),
            old(self).registry().contains_key(name@) ==> tells(r, body_verdict(read@))
                && body_settled(
                old(self).registry()[name@],
                old(self).context(),
                read@,
                final(self).context(),
            ),
    {
        let step = match self.steps.get(name) {
            Some(step) => step,
            None => {
                return Err(StepError::StepNotFound(name.to_owned()));
            },
        };
        match read {
            Captured::TimedOut => {
                step.on_timeout(&mut self.ctx);
                Err(StepError::TimeoutError)
            },
            Captured::Failed(detail) => {
                let error = StepError::TransportError(detail);
                step.on_error(&mut self.ctx, error.clone());
                Err(error)
            },
            Captured::Read(body) => {
                self.ctx.set_response_body(body);
                self.ctx.clear_next_step();
                step.on_success(&mut self.ctx);
                Ok(())
            },
        }
    }

    /// Settles the transport's answer to sending the request of step `name`,
    /// as [`Worker::settle_sent`] does, and hands back the response whose body
    /// is to be read.
    pub fn after_send(
        &mut self,
        name: &str,
        elapsed_ms: u64,
        answer: Result<Response, reqwest::Error>,
    ) -> (r: Result<Response, StepError>)
        ensures
            final(self).registry() == old(self).registry(),
            r matches Ok(response) ==> answer == Ok::<Response, reqwest::Error>(response),
            !old(self).registry().contains_key(name@) ==> (r matches Err(e) && e@
                == StepErrorView::StepNotFound(name@)) && final(self).context()
                == old(self).context(),
            old(self).registry().contains_key(name@) ==> tells(
                r,
                send_verdict(old(self).context().status_codes, sent_as(answer)),
            ) && sent_settled(
                old(self).registry()[name@],
                old(self).context(),
                elapsed_ms,
                sent_as(answer),
                final(self).context(),
            ),
    {
        match answer {
            Ok(response) => {
                let sent = Sent::Responded(status_of(&response));
                match self.settle_sent(name, elapsed_ms, sent) {
                    Ok(_) => Ok(response),
                    Err(e) => Err(e),
                }
            },
            Err(failure) => {
                let sent = if is_timeout(&failure) {
                    Sent::TimedOut
                } else {
                    Sent::Failed(describe_failure(&failure))
                };
                match self.settle_sent(name, elapsed_ms, sent) {
                    Ok(_) => {
                        assert(false);
                        Err(StepError::Unsuccessful)
                    },
                    Err(e) => Err(e),
                }
            },
        }
    }

    /// Settles the transport's answer to reading the body for step `name`, as
    /// [`Worker::settle_body`] does.
    pub fn after_body(&mut self, name: &str, answer: Result<bytes::Bytes, reqwest::Error>) -> (r:
        Result<(), StepError>)
        ensures
            final(self).registry() == old(self).registry(),
            !old(self).registry().contains_key(name@) ==> (r matches Err(e) && e@
                == StepErrorView::StepNotFound(name@)) && final(self).context()
                == old(self).context(),
            old(self).registry().contains_key(name@) ==> tells(r, body_verdict(captured_as(answer)))
                && body_settled(
                old(self).registry()[name@],
                old(self).context(),
                captured_as(answer),
                final(self).context(),
            ),
    {
        let read = match answer {
            Ok(body) => Captured::Read(body),
            Err(failure) => if is_timeout(&failure) {
                Captured::TimedOut
            } else {
                Captured::Failed(describe_failure(&failure))
            },
        };
        self.settle_body(name, read)
    }
}

impl<S: Stepable + ?Sized> Default for Worker<S> {
    fn default() -> (w: Self)
        ensures
            w.registry() == Map::<Seq<char>, Arc<S>>::empty(),
            is_initial(w.context()),
    {
        Worker::new()
    }
}

} // verus!
