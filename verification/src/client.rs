//! The client: defaults, middleware, and the way from a request to a
//! response future.

use crate::agent::Agent;
use crate::agent::AgentView;
use crate::config::ClientCertificate;
use crate::config::HttpVersion;
use crate::config::Options;
use crate::config::OptionsView;
use crate::config::RedirectPolicy;
use crate::easy::configure;
use crate::easy::easy_new;
use crate::easy::engine_version;
use crate::easy::passes_over;
use crate::easy::required;
use crate::easy::taken;
use crate::error::ClientError;
use crate::error::ConfigurationError;
use crate::error::TransportError;
use crate::handler::BodyPoll;
use crate::handler::BodyPollView;
use crate::handler::HandlerView;
use crate::handler::ReadOutcome;
use crate::handler::ReadOutcomeView;
use crate::handler::RequestHandler;
use crate::handler::WriteOutcome;
use crate::handler::DEFAULT_CAPACITY;
use crate::middleware::apply_request;
use crate::middleware::apply_response;
use crate::middleware::filter_request_chain;
use crate::middleware::filter_response_chain;
use crate::middleware::Middleware;
use crate::request::Body;
use crate::request::BodyView;
use crate::request::Request;
use crate::request::RequestView;
use crate::request::uri_accepted;
use crate::request::uri_printed;
use crate::response::Response;
use crate::response::ResponseView;
use crate::settings::easy_settings;
use crate::settings::plan_view;
use crate::settings::settings_spec;
use crate::settings::Setting;
use crate::settings::SettingView;
use crate::task::Poll;
use crate::text::user_agent;
use crate::text::lemma_visible_concat;
use crate::text::user_agent_spec;
use crate::text::visible;
use crate::text::visible_text;
use std::time::Duration;
use vstd::prelude::*;

verus! {

/// The version of this library, as it stands in the default product token.
pub const VERSION: &'static str = "0.5.0";

/// The name of the header that carries the product token.
pub const USER_AGENT: &'static str = "user-agent";

/// Builds a [`Client`] with defaults and middleware of one's own.
pub struct ClientBuilder {
    defaults: Options,
    middleware: Vec<Box<dyn Middleware>>,
}

/// An HTTP client.
///
/// A client holds what all its requests share: the default options and the
/// middleware. It is meant to be made once and used for many requests.
pub struct Client {
    defaults: Options,
    middleware: Vec<Box<dyn Middleware>>,
    user_agent: String,
}

impl Default for ClientBuilder {
    /// A builder without defaults or middleware.
    fn default() -> (builder: ClientBuilder)
        ensures
            builder.defaults() == OptionsView::unset(),
            builder.layers() == Seq::<Box<dyn Middleware>>::empty(),
    {
        ClientBuilder::new()
    }
}

impl ClientBuilder {
    /// The default options set so far.
    pub closed spec fn defaults(&self) -> OptionsView {
        self.defaults@
    }

    /// The middleware added so far, in the order in which it was added.
    pub closed spec fn layers(&self) -> Seq<Box<dyn Middleware>> {
        self.middleware@
    }

    /// A builder without defaults or middleware.
    pub fn new() -> (builder: ClientBuilder)
        ensures
            builder.defaults() == OptionsView::unset(),
            builder.layers() == Seq::<Box<dyn Middleware>>::empty(),
    {
        ClientBuilder { defaults: Options::new(), middleware: Vec::new() }
    }

    /// Adds a layer of middleware around those added before.
    pub fn middleware(self, middleware: Box<dyn Middleware>) -> (builder: ClientBuilder)
        ensures
            builder.defaults() == self.defaults(),
            builder.layers() == self.layers().push(middleware),
    {
        let mut builder = self;
        builder.middleware.push(middleware);
        builder
    }

    /// Sets the longest time a whole transfer may take. Without it there
    /// is no limit.
    pub fn timeout(self, timeout: Duration) -> (builder: ClientBuilder)
        ensures
            builder.defaults() == (OptionsView { timeout: Some(timeout), ..self.defaults() }),
            builder.layers() == self.layers(),
    {
        let mut builder = self;
        builder.defaults.timeout = Some(timeout);
        builder
    }

    /// Sets the longest time connecting may take.
    pub fn connect_timeout(self, timeout: Duration) -> (builder: ClientBuilder)
        ensures
            builder.defaults() == (OptionsView {
                connect_timeout: Some(timeout),
                ..self.defaults()
            }),
            builder.layers() == self.layers(),
    {
        let mut builder = self;
        builder.defaults.connect_timeout = Some(timeout);
        builder
    }

    /// Sets what is done about redirects. Without it they are not
    /// followed.
    pub fn redirect_policy(self, policy: RedirectPolicy) -> (builder: ClientBuilder)
        ensures
            builder.defaults() == (OptionsView {
                redirect_policy: Some(policy),
                ..self.defaults()
            }),
            builder.layers() == self.layers(),
    {
        let mut builder = self;
        builder.defaults.redirect_policy = Some(policy);
        builder
    }

    /// Has the `Referer` header updated when a redirect is followed.
    pub fn auto_referer(self) -> (builder: ClientBuilder)
        ensures
            builder.defaults() == (OptionsView { auto_referer: true, ..self.defaults() }),
            builder.layers() == self.layers(),
    {
        let mut builder = self;
        builder.defaults.auto_referer = true;
        builder
    }

    /// Sets the HTTP version to ask for. The server may still settle on
    /// another.
    pub fn preferred_http_version(self, version: HttpVersion) -> (builder: ClientBuilder)
        ensures
            builder.defaults() == (OptionsView {
                preferred_http_version: Some(version),
                ..self.defaults()
            }),
            builder.layers() == self.layers(),
    {
        let mut builder = self;
        builder.defaults.preferred_http_version = Some(version);
        builder
    }

    /// Switches TCP keepalive on, with the given time between probes.
    pub fn tcp_keepalive(self, interval: Duration) -> (builder: ClientBuilder)
        ensures
            builder.defaults() == (OptionsView {
                tcp_keepalive: Some(interval),
                ..self.defaults()
            }),
            builder.layers() == self.layers(),
    {
        let mut builder = self;
        builder.defaults.tcp_keepalive = Some(interval);
        builder
    }

    /// Switches `TCP_NODELAY` on.
    pub fn tcp_nodelay(self) -> (builder: ClientBuilder)
        ensures
            builder.defaults() == (OptionsView { tcp_nodelay: true, ..self.defaults() }),
            builder.layers() == self.layers(),
    {
        let mut builder = self;
        builder.defaults.tcp_nodelay = true;
        builder
    }

    /// Sets the proxy to go through, as a URI whose scheme names the kind
    /// of proxy.
    pub fn proxy(self, proxy: String) -> (builder: ClientBuilder)
        ensures
            builder.defaults() == (OptionsView { proxy: Some(proxy@), ..self.defaults() }),
            builder.layers() == self.layers(),
    {
        let mut builder = self;
        builder.defaults.proxy = Some(proxy);
        builder
    }

    /// Limits the speed of uploads, in bytes per second.
    pub fn max_upload_speed(self, max: u64) -> (builder: ClientBuilder)
        ensures
            builder.defaults() == (OptionsView { max_upload_speed: Some(max), ..self.defaults() }),
            builder.layers() == self.layers(),
    {
        let mut builder = self;
        builder.defaults.max_upload_speed = Some(max);
        builder
    }

    /// Limits the speed of downloads, in bytes per second.
    pub fn max_download_speed(self, max: u64) -> (builder: ClientBuilder)
        ensures
            builder.defaults() == (OptionsView {
                max_download_speed: Some(max),
                ..self.defaults()
            }),
            builder.layers() == self.layers(),
    {
        let mut builder = self;
        builder.defaults.max_download_speed = Some(max);
        builder
    }

    /// Sets the DNS servers to ask, each as an address with its port.
    pub fn dns_servers(self, servers: Vec<String>) -> (builder: ClientBuilder)
        ensures
            builder.defaults() == (OptionsView {
                dns_servers: Some(servers.deep_view()),
                ..self.defaults()
            }),
            builder.layers() == self.layers(),
    {
        let mut builder = self;
        builder.defaults.dns_servers = Some(servers);
        builder
    }

    /// Sets the TLS ciphers to offer, by the names the engine knows.
    pub fn ssl_ciphers(self, ciphers: Vec<String>) -> (builder: ClientBuilder)
        ensures
            builder.defaults() == (OptionsView {
                ssl_ciphers: Some(ciphers.deep_view()),
                ..self.defaults()
            }),
            builder.layers() == self.layers(),
    {
        let mut builder = self;
        builder.defaults.ssl_ciphers = Some(ciphers);
        builder
    }

    /// Sets the client certificate to present.
    pub fn ssl_client_certificate(self, certificate: ClientCertificate) -> (builder: ClientBuilder)
        ensures
            builder.defaults() == (OptionsView {
                ssl_client_certificate: Some(certificate@),
                ..self.defaults()
            }),
            builder.layers() == self.layers(),
    {
        let mut builder = self;
        builder.defaults.ssl_client_certificate = Some(certificate);
        builder
    }

    /// Has the engine report what it does on the error stream, or not.
    pub fn verbose(self, on: bool) -> (builder: ClientBuilder)
        ensures
            builder.defaults() == (OptionsView { verbose: on, ..self.defaults() }),
            builder.layers() == self.layers(),
    {
        let mut builder = self;
        builder.defaults.verbose = on;
        builder
    }

    /// The client for an engine of the given version: it has the builder's
    /// defaults and middleware, and the product token for that version
    /// (see [`product_token`]).
    pub fn build_for(self, engine_version: &str) -> (client: Client)
        ensures
            client.defaults() == self.defaults(),
            client.layers() == self.layers(),
            client.user_agent() == product_token(engine_version@),
    {
        proof {
            reveal_strlit("curl/");
            reveal_strlit(" chttp/");
            reveal_strlit("0.5.0");
            reveal_strlit("");
        }
        let named = if visible(engine_version) {
            engine_version
        } else {
            ""
        };
        let token = user_agent(named, VERSION);
        proof {
            lemma_visible_concat("curl/"@, named@);
            lemma_visible_concat("curl/"@ + named@, " chttp/"@);
            lemma_visible_concat("curl/"@ + named@ + " chttp/"@, VERSION@);
        }
        Client { defaults: self.defaults, middleware: self.middleware, user_agent: token }
    }

    /// Builds the client. Here this always succeeds; the product token
    /// is the one for whatever version the engine reports.
    pub fn build(self) -> (out: Result<Client, ClientError>)
        ensures
            out matches Ok(client) && client.defaults() == self.defaults() && client.layers()
                == self.layers() && exists|version: Seq<char>|
                client.user_agent() == product_token(version),
    {
        let version = engine_version();
        let client = self.build_for(version.as_str());
        assert(client.user_agent() == product_token(version@));
        Ok(client)
    }
}

/// The product token of a client for an engine of the given version: the
/// engine's name and version, then this library's. A version text that
/// cannot stand in a header is left out.
pub open spec fn product_token(engine_version: Seq<char>) -> Seq<char> {
    if visible_text(engine_version) {
        user_agent_spec(engine_version, VERSION@)
    } else {
        user_agent_spec(Seq::empty(), VERSION@)
    }
}

impl Client {
    /// The product token can stand in a header.
    #[verifier::type_invariant]
    spec fn token_is_visible(&self) -> bool {
        visible_text(self.user_agent@)
    }

    /// The default options of the client.
    pub closed spec fn defaults(&self) -> OptionsView {
        self.defaults@
    }

    /// The middleware of the client, in the order in which it was added.
    pub closed spec fn layers(&self) -> Seq<Box<dyn Middleware>> {
        self.middleware@
    }

    /// The product token the client sends when a request names none.
    pub closed spec fn user_agent(&self) -> Seq<char> {
        self.user_agent@
    }

    /// What a request has become when it is ready to be submitted: the
    /// product token is added unless the request names one, then the
    /// middleware has its say.
    pub open spec fn prepared(&self, request: RequestView) -> RequestView {
        filter_request_chain(
            self.layers(),
            request.with_default_header(USER_AGENT@, self.user_agent()),
        )
    }

    /// A client without defaults or middleware.
    pub fn new() -> (client: Client)
        ensures
            client.defaults() == OptionsView::unset(),
            client.layers() == Seq::<Box<dyn Middleware>>::empty(),
            exists|version: Seq<char>| client.user_agent() == product_token(version),
    {
        match ClientBuilder::new().build() {
            Ok(client) => client,
            Err(_) => vstd::pervasive::unreached(),
        }
    }

    /// A builder for a client with defaults and middleware of one's own.
    pub fn builder() -> (builder: ClientBuilder)
        ensures
            builder.defaults() == OptionsView::unset(),
            builder.layers() == Seq::<Box<dyn Middleware>>::empty(),
    {
        ClientBuilder::new()
    }

    /// Every setting the engine is given when this client sends `request`.
    pub fn settings_for(&self, request: &Request) -> (plan: Vec<Setting>)
        requires
            request@.sendable(),
        ensures
            plan_view(plan@) == settings_spec(request@, self.defaults()),
    {
        easy_settings(request, &self.defaults)
    }

    /// Makes an engine handle for `request` and gives it every setting of
    /// the transfer; with it come the handler the transfer will fill, and
    /// the places in the list of settings of those that the engine refused
    /// and the transfer does without. The request's header values must be
    /// such as can be sent (see [`RequestView::sendable`]).
    ///
    /// The engine may refuse a setting, so the outcome is not determined
    /// here. A failure is always a configuration error with the engine's
    /// code. On success the handle has taken every setting the transfer
    /// cannot do without, in order, and the handler is new and holds the
    /// request's body.
    pub fn create_easy_handle(&self, request: Request) -> (out: Result<
        (curl::easy::Easy, RequestHandler, Vec<usize>),
        ClientError,
    >)
        requires
            request@.sendable(),
        ensures
            out matches Err(e) ==> e matches ClientError::Configuration(
                ConfigurationError::Rejected { .. },
            ),
            out matches Ok(made) ==> {
                &&& required(taken(made.0)) == required(settings_spec(request@, self.defaults()))
                &&& made.1.wf()
                &&& made.1@ == HandlerView::fresh(request@.body, DEFAULT_CAPACITY as nat)
                &&& passes_over(settings_spec(request@, self.defaults()), made.2@)
            },
    {
        let plan = easy_settings(&request, &self.defaults);
        let mut easy = easy_new();
        let passed = match configure(&mut easy, &plan) {
            Ok(passed) => passed,
            Err(e) => {
                return Err(e);
            },
        };
        proof {
            assert(Seq::<SettingView>::empty() + required(plan_view(plan@)) =~= required(
                plan_view(plan@),
            ));
        }
        let handler = RequestHandler::new(request.body);
        Ok((easy, handler, passed))
    }

    /// What sending a request of the given method to `uri` comes to, once
    /// it is known whether the URI parses.
    fn send_new(&self, method: &str, uri: &str, body: Body) -> (future: ResponseFuture)
        ensures
            future.wf(),
            future@ == (if uri_accepted(uri@) {
                FutureView::unsubmitted(self.prepared(RequestView::plain(method@, uri_printed(uri@), body@)))
            } else {
                FutureView::failed(ClientError::Configuration(ConfigurationError::InvalidUri))
            }),
    {
        match Request::new(method, uri, body) {
            Ok(request) => self.send_async(request),
            Err(e) => ResponseFuture::failed(e),
        }
    }

    /// Begins a GET request for `uri`.
    ///
    /// The future fails at its first poll with `InvalidUri` if the URI
    /// does not parse; else it stands for the prepared request.
    pub fn get_async(&self, uri: &str) -> (future: ResponseFuture)
        ensures
            future.wf(),
            future@ == (if uri_accepted(uri@) {
                FutureView::unsubmitted(
                    self.prepared(RequestView::plain("GET"@, uri_printed(uri@), BodyView::empty())),
                )
            } else {
                FutureView::failed(ClientError::Configuration(ConfigurationError::InvalidUri))
            }),
    {
        self.send_new("GET", uri, Body::empty())
    }

    /// Begins a HEAD request for `uri` (see [`Client::get_async`]).
    pub fn head_async(&self, uri: &str) -> (future: ResponseFuture)
        ensures
            future.wf(),
            future@ == (if uri_accepted(uri@) {
                FutureView::unsubmitted(
                    self.prepared(RequestView::plain("HEAD"@, uri_printed(uri@), BodyView::empty())),
                )
            } else {
                FutureView::failed(ClientError::Configuration(ConfigurationError::InvalidUri))
            }),
    {
        self.send_new("HEAD", uri, Body::empty())
    }

    /// Begins a POST request that sends `body` to `uri` (see
    /// [`Client::get_async`]).
    pub fn post_async(&self, uri: &str, body: Body) -> (future: ResponseFuture)
        ensures
            future.wf(),
            future@ == (if uri_accepted(uri@) {
                FutureView::unsubmitted(self.prepared(RequestView::plain("POST"@, uri_printed(uri@), body@)))
            } else {
                FutureView::failed(ClientError::Configuration(ConfigurationError::InvalidUri))
            }),
    {
        self.send_new("POST", uri, body)
    }

    /// Begins a PUT request that sends `body` to `uri` (see
    /// [`Client::get_async`]).
    pub fn put_async(&self, uri: &str, body: Body) -> (future: ResponseFuture)
        ensures
            future.wf(),
            future@ == (if uri_accepted(uri@) {
                FutureView::unsubmitted(self.prepared(RequestView::plain("PUT"@, uri_printed(uri@), body@)))
            } else {
                FutureView::failed(ClientError::Configuration(ConfigurationError::InvalidUri))
            }),
    {
        self.send_new("PUT", uri, body)
    }

    /// Begins a DELETE request for `uri` (see [`Client::get_async`]).
    pub fn delete_async(&self, uri: &str) -> (future: ResponseFuture)
        ensures
            future.wf(),
            future@ == (if uri_accepted(uri@) {
                FutureView::unsubmitted(
                    self.prepared(RequestView::plain("DELETE"@, uri_printed(uri@), BodyView::empty())),
                )
            } else {
                FutureView::failed(ClientError::Configuration(ConfigurationError::InvalidUri))
            }),
    {
        self.send_new("DELETE", uri, Body::empty())
    }

    /// Begins sending `request`: prepares it (see [`Client::prepared`])
    /// and wraps it in a future. Nothing is submitted before the future is
    /// polled.
    pub fn send_async(&self, request: Request) -> (future: ResponseFuture)
        requires
            request@.sendable(),
        ensures
            future.wf(),
            future@ == FutureView::unsubmitted(self.prepared(request@)),
    {
        proof {
            use_type_invariant(self);
        }
        let mut request = request;
        request.default_header(USER_AGENT, self.user_agent.as_str());
        let request = apply_request(&self.middleware, request);
        ResponseFuture {
            request: Some(request),
            failure: None,
            inner: None,
            token: None,
            passed_over: Vec::new(),
            state: State::Unsubmitted,
        }
    }
}

/// Where a response future stands.
#[derive(Clone, Copy, Debug, PartialEq, Eq)]
pub enum State {
    /// Made, and not polled yet: nothing was submitted.
    Unsubmitted,
    /// Submitted to the agent; the response's head has not been handed
    /// over.
    Submitted,
    /// The response was handed over; its body has not been touched.
    HeadersReady,
    /// The body is being read.
    BodyInUse,
    /// The body was read to its end.
    Complete,
    /// The caller gave the transfer up.
    Cancelled,
    /// The transfer failed, and the caller was told.
    Failed,
}

impl State {
    /// Whether a future in this state can be in `next` after one more
    /// operation, other than by staying where it is.
    ///
    /// The way of a future goes from `Unsubmitted` to `Submitted` to
    /// `HeadersReady` to `BodyInUse` to `Complete`; a body that turns out
    /// to be over at once completes without being in use. From every state
    /// before the end the future can be cancelled, and it can fail; a
    /// future that cannot even be submitted fails before it was
    /// submitted. From `Complete`, `Cancelled` and `Failed` there is no
    /// way on.
    pub open spec fn may_become(self, next: State) -> bool {
        match self {
            State::Unsubmitted => next == State::Submitted || next == State::Failed || next
                == State::Cancelled,
            State::Submitted => next == State::HeadersReady || next == State::Failed || next
                == State::Cancelled,
            State::HeadersReady => next == State::BodyInUse || next == State::Complete || next
                == State::Failed || next == State::Cancelled,
            State::BodyInUse => next == State::Complete || next == State::Failed || next
                == State::Cancelled,
            State::Complete | State::Cancelled | State::Failed => false,
        }
    }
}

/// The response to a request, before it is there.
///
/// Polling it the first time submits the request to the agent. Later
/// polls give the response once its head has arrived. After that the
/// body is polled piece by piece. Cancelling at any time before the end
/// takes the transfer away from the agent.
pub struct ResponseFuture {
    request: Option<Request>,
    failure: Option<ClientError>,
    inner: Option<RequestHandler>,
    token: Option<u64>,
    passed_over: Vec<usize>,
    state: State,
}

/// Mathematical value of a [`ResponseFuture`].
#[verifier::ext_equal]
pub struct FutureView {
    pub state: State,
    /// The request that will be submitted at the first poll.
    pub request: Option<RequestView>,
    /// The failure that will be reported at the first poll.
    pub failure: Option<ClientError>,
    /// The transfer's handler, once the request was submitted.
    pub handler: Option<HandlerView>,
    /// The transfer's token with the agent, once the request was
    /// submitted.
    pub token: Option<u64>,
    /// The places, in the list of the transfer's settings, of those that
    /// the engine refused and that the transfer does without.
    pub passed_over: Seq<usize>,
}

/// The value of an optional request.
pub open spec fn request_view(request: Option<Request>) -> Option<RequestView> {
    match request {
        Some(r) => Some(r@),
        None => None,
    }
}

/// The value of an optional handler.
pub open spec fn handler_view(handler: Option<RequestHandler>) -> Option<HandlerView> {
    match handler {
        Some(h) => Some(h@),
        None => None,
    }
}

impl FutureView {
    /// A future for a request that is still to be submitted.
    pub open spec fn unsubmitted(request: RequestView) -> FutureView {
        FutureView {
            state: State::Unsubmitted,
            request: Some(request),
            failure: None,
            handler: None,
            token: None,
            passed_over: Seq::empty(),
        }
    }

    /// A future that fails at its first poll.
    pub open spec fn failed(error: ClientError) -> FutureView {
        FutureView {
            state: State::Unsubmitted,
            request: None,
            failure: Some(error),
            handler: None,
            token: None,
            passed_over: Seq::empty(),
        }
    }

    /// Whether the transfer is with the agent and has not ended for the
    /// caller.
    pub open spec fn in_flight(self) -> bool {
        self.state == State::Submitted || self.state == State::HeadersReady || self.state
            == State::BodyInUse
    }

    /// Whether the future has reached an end: its body was read, it was
    /// cancelled, or it failed.
    pub open spec fn terminal(self) -> bool {
        self.state == State::Complete || self.state == State::Cancelled || self.state
            == State::Failed
    }

    /// What holds of every future.
    pub open spec fn wf(self) -> bool {
        &&& self.state == State::Unsubmitted ==> {
            &&& self.handler is None
            &&& self.token is None
            &&& (self.request is Some) != (self.failure is Some)
            &&& self.request is Some ==> self.request->0.sendable()
        }
        &&& self.state != State::Unsubmitted ==> self.request is None && self.failure is None
        &&& self.in_flight() ==> {
            &&& self.handler is Some
            &&& self.token is Some
            &&& !self.handler->0.closed
            &&& self.handler->0.resolved == (self.state != State::Submitted)
        }
        &&& self.handler is Some ==> self.handler->0.wf()
    }

    /// What a poll for the response gives, when nothing is left to
    /// submit. `layers` is the client's middleware.
    pub open spec fn poll_outcome(self, layers: Seq<Box<dyn Middleware>>) -> Poll<
        Result<ResponseView, ClientError>,
    > {
        if self.state == State::Unsubmitted && self.failure is Some {
            Poll::Ready(Err(self.failure->0))
        } else if self.state == State::Submitted {
            match self.handler->0.response_outcome() {
                Poll::Ready(Ok(response)) => Poll::Ready(
                    Ok(filter_response_chain(layers, response)),
                ),
                other => other,
            }
        } else {
            Poll::Pending
        }
    }

    /// The future after a poll for the response, when nothing is left to
    /// submit.
    pub open spec fn after_poll(self) -> FutureView {
        if self.state == State::Unsubmitted && self.failure is Some {
            FutureView { state: State::Failed, failure: None, ..self }
        } else if self.state == State::Submitted {
            FutureView {
                state: match self.handler->0.response_outcome() {
                    Poll::Ready(Ok(_)) => State::HeadersReady,
                    Poll::Ready(Err(_)) => State::Failed,
                    Poll::Pending => State::Submitted,
                },
                handler: Some(self.handler->0.after_poll_response()),
                ..self
            }
        } else {
            self
        }
    }

    /// The future for a transfer that was handed to the agent under
    /// `token`, with `handler` to fill.
    pub open spec fn submitted(
        token: u64,
        handler: HandlerView,
        passed_over: Seq<usize>,
    ) -> FutureView {
        FutureView {
            state: State::Submitted,
            request: None,
            failure: None,
            handler: Some(handler),
            token: Some(token),
            passed_over,
        }
    }

    /// Whether the engine is told to go on after it handed over `line` of
    /// the head.
    pub open spec fn header_accepted(self, line: Seq<u8>) -> bool {
        self.handler is Some && self.handler->0.header_accepted(line)
    }

    /// The answer to the engine when it hands over the piece `data` of the
    /// body.
    pub open spec fn write_outcome(self, data: Seq<u8>) -> WriteOutcome {
        if self.handler is Some {
            self.handler->0.write_outcome(data)
        } else {
            WriteOutcome::Abort
        }
    }

    /// The answer to the engine when it asks for at most `max` bytes of
    /// the request body.
    pub open spec fn read_outcome(self, max: nat) -> ReadOutcomeView {
        if self.handler is Some {
            self.handler->0.read_outcome(max)
        } else {
            ReadOutcomeView::Abort
        }
    }

    /// The future with its handler, if it has one, replaced.
    pub open spec fn with_handler(self, handler: HandlerView) -> FutureView {
        if self.handler is Some {
            FutureView { handler: Some(handler), ..self }
        } else {
            self
        }
    }

    /// What a poll of the body gives.
    ///
    /// Before the response was handed over there is nothing to read.
    /// After the end, a cancellation or a failure, the body is over, and
    /// stays so.
    pub open spec fn body_outcome(self) -> BodyPollView {
        if self.state == State::HeadersReady || self.state == State::BodyInUse {
            self.handler->0.body_outcome()
        } else if self.terminal() {
            BodyPollView::End
        } else {
            BodyPollView::Pending
        }
    }

    /// Whether a poll of the body asks the agent to resume the transfer.
    pub open spec fn body_poll_resumes(self) -> bool {
        (self.state == State::HeadersReady || self.state == State::BodyInUse)
            && self.handler->0.after_poll_body().resume
    }

    /// The future after a poll of the body.
    pub open spec fn after_poll_body(self) -> FutureView {
        if self.state == State::HeadersReady || self.state == State::BodyInUse {
            FutureView {
                state: match self.handler->0.body_outcome() {
                    BodyPollView::End => State::Complete,
                    BodyPollView::Failed(_) => State::Failed,
                    _ => State::BodyInUse,
                },
                handler: Some(HandlerView { resume: false, ..self.handler->0.after_poll_body() }),
                ..self
            }
        } else {
            self
        }
    }

    /// The future after the caller gave it up.
    pub open spec fn after_cancel(self) -> FutureView {
        if self.state == State::Unsubmitted {
            FutureView { state: State::Cancelled, request: None, failure: None, ..self }
        } else if self.in_flight() {
            FutureView {
                state: State::Cancelled,
                handler: Some(self.handler->0.after_cancel()),
                ..self
            }
        } else {
            self
        }
    }
}

/// Cancelling before the response. When a future is cancelled while its
/// transfer is active and its response has not been handed over, the
/// agent has exactly one active transfer fewer and does not know the token
/// as active any more; and from then on no poll of the body hands over a
/// piece and the engine is told to give up, whatever it still offers.
pub proof fn law_cancel_before_headers<T>(
    future: FutureView,
    agent: AgentView<T>,
    line: Seq<u8>,
    data: Seq<u8>,
)
    requires
        future.wf(),
        agent.wf(),
        future.state == State::Submitted,
        agent.is_active(future.token->0),
    ensures
        agent.after_cancel(future.token->0).wf(),
        agent.after_cancel(future.token->0).active.len() == agent.active.len() - 1,
        agent.after_cancel(future.token->0).queue == agent.queue,
        !agent.after_cancel(future.token->0).is_active(future.token->0),
        future.after_cancel().wf(),
        future.after_cancel().state == State::Cancelled,
        future.after_cancel().body_outcome() is End,
        future.after_cancel().after_poll_body() == future.after_cancel(),
        !future.after_cancel().header_accepted(line),
        future.after_cancel().write_outcome(data) == WriteOutcome::Abort,
        future.after_cancel().with_handler(future.after_cancel().handler->0.after_write(data))
            == future.after_cancel(),
        future.after_cancel().with_handler(future.after_cancel().handler->0.after_header(line))
            == future.after_cancel(),
{
    crate::agent::lemma_cancel(agent, future.token->0);
}

/// The head comes before the body, for the caller of a future too: a poll
/// of the body hands over a piece only after the response was handed over,
/// and the head that belongs to the piece is complete.
pub proof fn law_response_before_body(future: FutureView)
    requires
        future.wf(),
    ensures
        future.body_outcome() is Chunk ==> (future.state == State::HeadersReady || future.state
            == State::BodyInUse) && future.handler->0.headers_ready,
        future.state == State::Unsubmitted || future.state == State::Submitted
            ==> future.body_outcome() is Pending,
{
}

/// A future that has reached an end stays there. Polling its body gives
/// `End` and changes nothing, polling for the response gives nothing,
/// cancelling changes nothing, and nothing the engine still hands over
/// brings the body back.
pub proof fn law_end_is_final(
    future: FutureView,
    layers: Seq<Box<dyn Middleware>>,
    data: Seq<u8>,
    result: Result<(), ClientError>,
)
    requires
        future.wf(),
        future.terminal(),
    ensures
        future.body_outcome() is End,
        future.after_poll_body() == future,
        future.poll_outcome(layers) is Pending,
        future.after_poll() == future,
        future.after_cancel() == future,
        future.with_handler(future.handler->0.after_write(data)).body_outcome() is End,
        future.with_handler(future.handler->0.after_complete(result)).body_outcome() is End,
{
}

/// Every operation moves a future along its way or leaves it where it is
/// (see [`State::may_become`]), and keeps it well-formed. What the engine
/// hands over never moves it: only the caller's polls and cancellations
/// do.
pub proof fn law_lifecycle(
    future: FutureView,
    line: Seq<u8>,
    data: Seq<u8>,
    max: nat,
    result: Result<(), ClientError>,
)
    requires
        future.wf(),
    ensures
        future.after_poll().wf(),
        future.after_poll().state == future.state || future.state.may_become(
            future.after_poll().state,
        ),
        future.after_poll_body().wf(),
        future.after_poll_body().state == future.state || future.state.may_become(
            future.after_poll_body().state,
        ),
        future.after_cancel().wf(),
        future.after_cancel().state == future.state || future.state.may_become(
            future.after_cancel().state,
        ),
        future.with_handler(future.handler->0.after_header(line)).wf(),
        future.with_handler(future.handler->0.after_header(line)).state == future.state,
        future.with_handler(future.handler->0.after_write(data)).wf(),
        future.with_handler(future.handler->0.after_write(data)).state == future.state,
        future.with_handler(future.handler->0.after_read(max)).wf(),
        future.with_handler(future.handler->0.after_read(max)).state == future.state,
        future.with_handler(future.handler->0.after_complete(result)).wf(),
        future.with_handler(future.handler->0.after_complete(result)).state == future.state,
{
}

/// Draining the body ends the future: the poll that gives `End` makes the
/// future `Complete`, and a poll that reports a failure makes it `Failed`;
/// either way every later poll gives `End`.
pub proof fn law_drained_body_ends(future: FutureView)
    requires
        future.wf(),
        future.state == State::HeadersReady || future.state == State::BodyInUse,
    ensures
        future.after_poll_body().wf(),
        future.body_outcome() is End ==> future.after_poll_body().state == State::Complete,
        future.body_outcome() is Failed ==> future.after_poll_body().state == State::Failed,
        future.body_outcome() is End || future.body_outcome() is Failed
            ==> future.after_poll_body().body_outcome() is End,
{
}

impl View for ResponseFuture {
    type V = FutureView;

    closed spec fn view(&self) -> FutureView {
        FutureView {
            state: self.state,
            request: request_view(self.request),
            failure: self.failure,
            handler: handler_view(self.inner),
            token: self.token,
            passed_over: self.passed_over@,
        }
    }
}

impl ResponseFuture {
    /// What holds of every future (see [`FutureView::wf`]).
    pub open spec fn wf(&self) -> bool {
        self@.wf()
    }

    /// A future that fails with `error` at its first poll.
    pub fn failed(error: ClientError) -> (future: ResponseFuture)
        ensures
            future.wf(),
            future@ == FutureView::failed(error),
    {
        ResponseFuture {
            request: None,
            failure: Some(error),
            inner: None,
            token: None,
            passed_over: Vec::new(),
            state: State::Unsubmitted,
        }
    }

    /// Where the future stands.
    pub fn state(&self) -> (state: State)
        ensures
            state == self@.state,
    {
        self.state
    }

    /// The places, in the list of the transfer's settings, of those that
    /// the engine refused and that the transfer does without.
    pub fn passed_over(&self) -> (places: &Vec<usize>)
        ensures
            places@ == self@.passed_over,
    {
        &self.passed_over
    }

    /// The transfer's token with the agent, once the request was
    /// submitted.
    pub fn token(&self) -> (token: Option<u64>)
        ensures
            token == self@.token,
    {
        self.token
    }

    /// The future for a request whose engine handle was prepared, or
    /// could not be.
    ///
    /// A prepared handle is submitted to the agent. If the agent takes
    /// it, the future is `Submitted` under the token the agent gave. If
    /// the handle could not be prepared, or the agent does not take it,
    /// the future fails at its first poll, with the error of the
    /// preparation or with `AgentUnreachable`.
    pub fn launched(
        agent: &mut Agent<curl::easy::Easy>,
        prepared: Result<(curl::easy::Easy, RequestHandler, Vec<usize>), ClientError>,
    ) -> (future: ResponseFuture)
        requires
            old(agent).wf(),
            prepared matches Ok(pair) ==> pair.1.wf() && !pair.1@.closed && !pair.1@.resolved,
        ensures
            final(agent).wf(),
            future.wf(),
            match prepared {
                Ok(pair) => {
                    &&& final(agent)@ == old(agent)@.after_submit(pair.0)
                    &&& future@ == (if old(agent)@.accepting() {
                        FutureView::submitted(old(agent)@.next_token, pair.1@, pair.2@)
                    } else {
                        FutureView::failed(ClientError::AgentUnreachable)
                    })
                },
                Err(e) => final(agent)@ == old(agent)@ && future@ == FutureView::failed(e),
            },
    {
        match prepared {
            Ok((easy, handler, passed_over)) => match agent.submit(easy) {
                Ok(token) => ResponseFuture {
                    request: None,
                    failure: None,
                    inner: Some(handler),
                    token: Some(token),
                    passed_over,
                    state: State::Submitted,
                },
                Err(e) => ResponseFuture::failed(ClientError::from_agent(e)),
            },
            Err(e) => ResponseFuture::failed(e),
        }
    }

    /// Polls for the response when nothing is left to submit.
    ///
    /// A future that was made to fail reports its failure. A submitted
    /// future gives what its handler gives: nothing yet, the failure of
    /// the transfer, or the response, which first passes the middleware
    /// from the innermost layer to the outermost. In every other state
    /// there is nothing to give.
    pub fn advance(&mut self, client: &Client) -> (out: Poll<Result<Response, ClientError>>)
        requires
            old(self).wf(),
        ensures
            final(self).wf(),
            final(self)@ == old(self)@.after_poll(),
            crate::handler::response_poll_view(out) == old(self)@.poll_outcome(client.layers()),
    {
        match self.state {
            State::Unsubmitted => match self.failure {
                Some(e) => {
                    self.failure = None;
                    self.state = State::Failed;
                    Poll::Ready(Err(e))
                },
                None => Poll::Pending,
            },
            State::Submitted => match &mut self.inner {
                Some(handler) => match handler.poll_response() {
                    Poll::Ready(Ok(response)) => {
                        self.state = State::HeadersReady;
                        Poll::Ready(Ok(apply_response(&client.middleware, response)))
                    },
                    Poll::Ready(Err(e)) => {
                        self.state = State::Failed;
                        Poll::Ready(Err(e))
                    },
                    Poll::Pending => Poll::Pending,
                },
                None => Poll::Pending,
            },
            _ => Poll::Pending,
        }
    }

    /// Polls for the response.
    ///
    /// The first poll of a future that holds a request submits it: an
    /// engine handle is prepared and handed to the agent (see
    /// [`ResponseFuture::launched`]). Then, and at every later poll, the
    /// future is advanced (see [`ResponseFuture::advance`]).
    ///
    /// Whether the engine takes the request's settings is not decided
    /// here. What holds of a first poll in any case: it ends `Submitted`
    /// and pending, with the agent holding one more submission under the
    /// future's token, whose handle has taken every setting the transfer
    /// cannot do without; or it ends `Failed` and reports why, with the
    /// agent left as it was.
    pub fn poll(&mut self, client: &Client, agent: &mut Agent<curl::easy::Easy>) -> (out: Poll<
        Result<Response, ClientError>,
    >)
        requires
            old(self).wf(),
            old(agent).wf(),
        ensures
            final(self).wf(),
            final(agent).wf(),
            old(self)@.request is None ==> {
                &&& final(agent)@ == old(agent)@
                &&& final(self)@ == old(self)@.after_poll()
                &&& crate::handler::response_poll_view(out) == old(self)@.poll_outcome(
                    client.layers(),
                )
            },
            old(self)@.request is Some ==> {
                ||| {
                    &&& final(self)@ == FutureView::submitted(
                        old(agent)@.next_token,
                        HandlerView::fresh(
                            old(self)@.request->0.body,
                            DEFAULT_CAPACITY as nat,
                        ).after_poll_response(),
                        final(self)@.passed_over,
                    )
                    &&& passes_over(
                        settings_spec(old(self)@.request->0, client.defaults()),
                        final(self)@.passed_over,
                    )
                    &&& out is Pending
                    &&& old(agent)@.accepting()
                    &&& exists|handle: curl::easy::Easy|
                        final(agent)@ == old(agent)@.after_submit(handle) && required(
                            taken(handle),
                        ) == required(settings_spec(old(self)@.request->0, client.defaults()))
                }
                ||| {
                    &&& final(self)@.state == State::Failed
                    &&& final(self)@.handler is None
                    &&& final(agent)@ == old(agent)@
                    &&& out matches Poll::Ready(Err(e))
                    &&& (e matches ClientError::Configuration(ConfigurationError::Rejected { .. })
                        || (e == ClientError::AgentUnreachable && !old(agent)@.accepting()))
                }
            },
    {
        match self.request.take() {
            Some(request) => {
                let prepared = client.create_easy_handle(request);
                let ghost made = prepared;
                *self = ResponseFuture::launched(agent, prepared);
                proof {
                    if made is Ok {
                        assert(agent@ == old(agent)@.after_submit(made->Ok_0.0));
                    }
                }
            },
            None => {},
        }
        self.advance(client)
    }

    /// Polls for the next piece of the response's body.
    ///
    /// While the body is being read this gives what the handler gives,
    /// and asks the agent to resume the transfer if taking a piece made
    /// room for a paused engine. The end of the body completes the
    /// future, a failure fails it. Once the future has reached an end,
    /// every poll gives `End`.
    pub fn poll_body(&mut self, agent: &mut Agent<curl::easy::Easy>) -> (out: BodyPoll)
        requires
            old(self).wf(),
            old(agent).wf(),
        ensures
            final(self).wf(),
            final(agent).wf(),
            out@ == old(self)@.body_outcome(),
            final(self)@ == old(self)@.after_poll_body(),
            final(agent)@ == (if old(self)@.body_poll_resumes() {
                old(agent)@.after_resume(old(self)@.token->0)
            } else {
                old(agent)@
            }),
    {
        match self.state {
            State::HeadersReady | State::BodyInUse => match &mut self.inner {
                Some(handler) => {
                    let out = handler.poll_body();
                    let resume = handler.take_resume();
                    match self.token {
                        Some(token) => {
                            if resume {
                                let _ = agent.resume(token);
                            }
                        },
                        None => {},
                    }
                    self.state = match out {
                        BodyPoll::End => State::Complete,
                        BodyPoll::Failed(_) => State::Failed,
                        _ => State::BodyInUse,
                    };
                    out
                },
                None => BodyPoll::Pending,
            },
            State::Complete | State::Cancelled | State::Failed => BodyPoll::End,
            _ => BodyPoll::Pending,
        }
    }

    /// Gives the transfer up.
    ///
    /// A future that was never submitted just ends. A transfer that is
    /// with the agent is taken away from it, and its handler is closed:
    /// nothing of the body will be handed over any more. A future that
    /// has reached an end stays as it is.
    pub fn cancel(&mut self, agent: &mut Agent<curl::easy::Easy>)
        requires
            old(self).wf(),
            old(agent).wf(),
        ensures
            final(self).wf(),
            final(agent).wf(),
            final(self)@ == old(self)@.after_cancel(),
            final(agent)@ == (if old(self)@.in_flight() {
                old(agent)@.after_cancel(old(self)@.token->0)
            } else {
                old(agent)@
            }),
    {
        match self.state {
            State::Unsubmitted => {
                self.request = None;
                self.failure = None;
                self.state = State::Cancelled;
            },
            State::Submitted | State::HeadersReady | State::BodyInUse => {
                match &mut self.inner {
                    Some(handler) => {
                        handler.cancel();
                    },
                    None => {},
                }
                match self.token {
                    Some(token) => {
                        let _ = agent.cancel(token);
                    },
                    None => {},
                }
                self.state = State::Cancelled;
            },
            _ => {},
        }
    }

    /// The engine hands over one line of the response's head (see
    /// [`RequestHandler::on_header`]). A future without a transfer tells
    /// the engine to stop.
    pub fn on_header(&mut self, line: &[u8]) -> (proceed: bool)
        requires
            old(self).wf(),
        ensures
            final(self).wf(),
            proceed == old(self)@.header_accepted(line@),
            final(self)@ == old(self)@.with_handler(old(self)@.handler->0.after_header(line@)),
    {
        match &mut self.inner {
            Some(handler) => handler.on_header(line),
            None => false,
        }
    }

    /// The engine hands over one piece of the response's body (see
    /// [`RequestHandler::on_body`]). A future without a transfer tells the
    /// engine to give up.
    pub fn on_body(&mut self, data: &[u8]) -> (outcome: WriteOutcome)
        requires
            old(self).wf(),
        ensures
            final(self).wf(),
            outcome == old(self)@.write_outcome(data@),
            final(self)@ == old(self)@.with_handler(old(self)@.handler->0.after_write(data@)),
    {
        match &mut self.inner {
            Some(handler) => handler.on_body(data),
            None => WriteOutcome::Abort,
        }
    }

    /// The engine asks for at most `max` bytes of the request's body (see
    /// [`RequestHandler::on_read`]). A future without a transfer tells the
    /// engine to give up.
    pub fn on_read(&mut self, max: usize) -> (outcome: ReadOutcome)
        requires
            old(self).wf(),
        ensures
            final(self).wf(),
            outcome@ == old(self)@.read_outcome(max as nat),
            final(self)@ == old(self)@.with_handler(old(self)@.handler->0.after_read(max as nat)),
    {
        match &mut self.inner {
            Some(handler) => handler.on_read(max),
            None => ReadOutcome::Abort,
        }
    }

    /// The engine reports how the transfer ended (see
    /// [`RequestHandler::on_complete`]).
    pub fn on_complete(&mut self, result: Result<(), ClientError>)
        requires
            old(self).wf(),
        ensures
            final(self).wf(),
            final(self)@ == old(self)@.with_handler(old(self)@.handler->0.after_complete(result)),
    {
        match &mut self.inner {
            Some(handler) => handler.on_complete(result),
            None => {},
        }
    }

    /// The producer of the request's body supplies more bytes (see
    /// [`RequestHandler::supply_body`]), and the agent is asked to resume
    /// the transfer if it was paused.
    pub fn supply_body(&mut self, agent: &mut Agent<curl::easy::Easy>, bytes: &[u8])
        requires
            old(self).wf(),
            old(agent).wf(),
        ensures
            final(self).wf(),
            final(agent).wf(),
            final(self)@ == old(self)@.with_handler(
                HandlerView { resume: false, ..old(self)@.handler->0.after_supply(bytes@) },
            ),
            final(agent)@ == (if old(self)@.handler is Some && old(self)@.token is Some
                && old(self)@.handler->0.after_supply(bytes@).resume {
                old(agent)@.after_resume(old(self)@.token->0)
            } else {
                old(agent)@
            }),
    {
        match &mut self.inner {
            Some(handler) => {
                handler.supply_body(bytes);
                match self.token {
                    Some(token) => {
                        if handler.take_resume() {
                            let _ = agent.resume(token);
                        }
                    },
                    None => {
                        let _ = handler.take_resume();
                    },
                }
            },
            None => {},
        }
    }

    /// The producer of the request's body says that it is done (see
    /// [`RequestHandler::finish_body`]), and the agent is asked to resume
    /// the transfer if it was paused.
    pub fn finish_body(&mut self, agent: &mut Agent<curl::easy::Easy>)
        requires
            old(self).wf(),
            old(agent).wf(),
        ensures
            final(self).wf(),
            final(agent).wf(),
            final(self)@ == old(self)@.with_handler(
                HandlerView { resume: false, ..old(self)@.handler->0.after_finish() },
            ),
            final(agent)@ == (if old(self)@.handler is Some && old(self)@.token is Some
                && old(self)@.handler->0.after_finish().resume {
                old(agent)@.after_resume(old(self)@.token->0)
            } else {
                old(agent)@
            }),
    {
        match &mut self.inner {
            Some(handler) => {
                handler.finish_body();
                match self.token {
                    Some(token) => {
                        if handler.take_resume() {
                            let _ = agent.resume(token);
                        }
                    },
                    None => {
                        let _ = handler.take_resume();
                    },
                }
            },
            None => {},
        }
    }

    /// Takes the notification for the caller, if one was raised (see
    /// [`RequestHandler::take_wake`]).
    pub fn take_wake(&mut self) -> (raised: bool)
        requires
            old(self).wf(),
        ensures
            final(self).wf(),
            raised == (old(self)@.handler is Some && old(self)@.handler->0.wake),
            final(self)@ == old(self)@.with_handler(
                HandlerView { wake: false, ..old(self)@.handler->0 },
            ),
    {
        match &mut self.inner {
            Some(handler) => handler.take_wake(),
            None => false,
        }
    }
}

} // verus!
