//! From a request and a client's defaults to the list of settings that the
//! engine is given for the transfer.
//!
//! The list is the whole outcome of preparing a transfer: which settings are
//! made, with which values, in which order. Applying it to an engine handle
//! is a separate step.

use crate::config::first_of;
use crate::config::ClientCertificate;
use crate::config::ClientCertificateView;
use crate::config::HttpVersion;
use crate::config::Options;
use crate::config::OptionsView;
use crate::config::PrivateKey;
use crate::config::PrivateKeyView;
use crate::config::RedirectPolicy;
use crate::request::BodyView;
use crate::request::Request;
use crate::request::RequestView;
use crate::text::header_line;
use crate::text::header_line_spec;
use crate::text::join;
use crate::text::join_spec;
use std::time::Duration;
use vstd::prelude::*;
use vstd::string::StringExecFns;

verus! {

/// The HTTP version the engine is asked to negotiate.
#[derive(Clone, Copy, Debug, PartialEq, Eq)]
pub enum EngineHttpVersion {
    /// The engine chooses.
    Any,
    V10,
    V11,
    V2,
}

/// One setting made on an engine handle.
#[derive(Debug, PartialEq, Eq)]
pub enum Setting {
    Verbose(bool),
    Signal(bool),
    Timeout(Duration),
    ConnectTimeout(Duration),
    TcpKeepAlive(bool),
    TcpKeepInterval(Duration),
    TcpNoDelay(bool),
    FollowLocation(bool),
    MaxRedirections(u32),
    MaxSendSpeed(u64),
    MaxRecvSpeed(u64),
    HttpVersion(EngineHttpVersion),
    Proxy(String),
    /// The DNS servers, separated by commas. An engine built without
    /// support for this may refuse it; the transfer goes on regardless.
    DnsServers(String),
    /// The TLS ciphers, separated by colons.
    SslCipherList(String),
    SslCert(String),
    SslCertType(String),
    SslKey(String),
    SslKeyType(String),
    KeyPassword(String),
    AcceptEncoding(String),
    CustomRequest(String),
    Url(String),
    /// The request's headers, one line each.
    HttpHeaders(Vec<String>),
    Upload(bool),
    InFileSize(u64),
}

/// Mathematical value of a [`Setting`].
pub enum SettingView {
    Verbose(bool),
    Signal(bool),
    Timeout(Duration),
    ConnectTimeout(Duration),
    TcpKeepAlive(bool),
    TcpKeepInterval(Duration),
    TcpNoDelay(bool),
    FollowLocation(bool),
    MaxRedirections(u32),
    MaxSendSpeed(u64),
    MaxRecvSpeed(u64),
    HttpVersion(EngineHttpVersion),
    Proxy(Seq<char>),
    DnsServers(Seq<char>),
    SslCipherList(Seq<char>),
    SslCert(Seq<char>),
    SslCertType(Seq<char>),
    SslKey(Seq<char>),
    SslKeyType(Seq<char>),
    KeyPassword(Seq<char>),
    AcceptEncoding(Seq<char>),
    CustomRequest(Seq<char>),
    Url(Seq<char>),
    HttpHeaders(Seq<Seq<char>>),
    Upload(bool),
    InFileSize(u64),
}

impl SettingView {
    /// Whether the transfer goes on when the engine refuses the setting.
    pub open spec fn is_optional(self) -> bool {
        self is DnsServers
    }
}

impl View for Setting {
    type V = SettingView;

    open spec fn view(&self) -> SettingView {
        match *self {
            Setting::Verbose(on) => SettingView::Verbose(on),
            Setting::Signal(on) => SettingView::Signal(on),
            Setting::Timeout(d) => SettingView::Timeout(d),
            Setting::ConnectTimeout(d) => SettingView::ConnectTimeout(d),
            Setting::TcpKeepAlive(on) => SettingView::TcpKeepAlive(on),
            Setting::TcpKeepInterval(d) => SettingView::TcpKeepInterval(d),
            Setting::TcpNoDelay(on) => SettingView::TcpNoDelay(on),
            Setting::FollowLocation(on) => SettingView::FollowLocation(on),
            Setting::MaxRedirections(n) => SettingView::MaxRedirections(n),
            Setting::MaxSendSpeed(n) => SettingView::MaxSendSpeed(n),
            Setting::MaxRecvSpeed(n) => SettingView::MaxRecvSpeed(n),
            Setting::HttpVersion(v) => SettingView::HttpVersion(v),
            Setting::Proxy(s) => SettingView::Proxy(s@),
            Setting::DnsServers(s) => SettingView::DnsServers(s@),
            Setting::SslCipherList(s) => SettingView::SslCipherList(s@),
            Setting::SslCert(s) => SettingView::SslCert(s@),
            Setting::SslCertType(s) => SettingView::SslCertType(s@),
            Setting::SslKey(s) => SettingView::SslKey(s@),
            Setting::SslKeyType(s) => SettingView::SslKeyType(s@),
            Setting::KeyPassword(s) => SettingView::KeyPassword(s@),
            Setting::AcceptEncoding(s) => SettingView::AcceptEncoding(s@),
            Setting::CustomRequest(s) => SettingView::CustomRequest(s@),
            Setting::Url(s) => SettingView::Url(s@),
            Setting::HttpHeaders(lines) => SettingView::HttpHeaders(lines.deep_view()),
            Setting::Upload(on) => SettingView::Upload(on),
            Setting::InFileSize(n) => SettingView::InFileSize(n),
        }
    }
}

impl Setting {
    /// Whether the transfer goes on when the engine refuses the setting.
    pub fn is_optional(&self) -> (optional: bool)
        ensures
            optional == self@.is_optional(),
    {
        match self {
            Setting::DnsServers(_) => true,
            _ => false,
        }
    }
}

/// The values of a list of settings.
pub open spec fn plan_view(plan: Seq<Setting>) -> Seq<SettingView> {
    plan.map_values(|s: Setting| s@)
}

/// What every transfer is given first: whether the engine is to report
/// what it does, and that it is to use no signals.
pub open spec fn base_settings(verbose: bool) -> Seq<SettingView> {
    seq![SettingView::Verbose(verbose), SettingView::Signal(false)]
}

pub open spec fn timeout_settings(timeout: Option<Duration>) -> Seq<SettingView> {
    match timeout {
        Some(d) => seq![SettingView::Timeout(d)],
        None => Seq::empty(),
    }
}

pub open spec fn connect_timeout_settings(timeout: Option<Duration>) -> Seq<SettingView> {
    match timeout {
        Some(d) => seq![SettingView::ConnectTimeout(d)],
        None => Seq::empty(),
    }
}

/// Keepalive is switched on together with its probe interval.
pub open spec fn keepalive_settings(interval: Option<Duration>) -> Seq<SettingView> {
    match interval {
        Some(d) => seq![SettingView::TcpKeepAlive(true), SettingView::TcpKeepInterval(d)],
        None => Seq::empty(),
    }
}

pub open spec fn nodelay_settings(nodelay: bool) -> Seq<SettingView> {
    if nodelay {
        seq![SettingView::TcpNoDelay(true)]
    } else {
        Seq::empty()
    }
}

/// A policy that is not set leaves the engine's own behaviour in place; one
/// that is set always says whether redirects are followed, and a limit adds
/// how often.
pub open spec fn redirect_settings(policy: Option<RedirectPolicy>) -> Seq<SettingView> {
    match policy {
        Some(RedirectPolicy::Follow) => seq![SettingView::FollowLocation(true)],
        Some(RedirectPolicy::Limit(max)) => seq![
            SettingView::FollowLocation(true),
            SettingView::MaxRedirections(max),
        ],
        Some(RedirectPolicy::Never) => seq![SettingView::FollowLocation(false)],
        None => Seq::empty(),
    }
}

pub open spec fn upload_speed_settings(limit: Option<u64>) -> Seq<SettingView> {
    match limit {
        Some(n) => seq![SettingView::MaxSendSpeed(n)],
        None => Seq::empty(),
    }
}

pub open spec fn download_speed_settings(limit: Option<u64>) -> Seq<SettingView> {
    match limit {
        Some(n) => seq![SettingView::MaxRecvSpeed(n)],
        None => Seq::empty(),
    }
}

/// The version the engine is asked for. Without a preference, and for a
/// version the engine cannot be asked for, the engine chooses.
pub open spec fn engine_version(preferred: Option<HttpVersion>) -> EngineHttpVersion {
    match preferred {
        Some(HttpVersion::Http10) => EngineHttpVersion::V10,
        Some(HttpVersion::Http11) => EngineHttpVersion::V11,
        Some(HttpVersion::Http2) => EngineHttpVersion::V2,
        _ => EngineHttpVersion::Any,
    }
}

pub open spec fn proxy_settings(proxy: Option<Seq<char>>) -> Seq<SettingView> {
    match proxy {
        Some(p) => seq![SettingView::Proxy(p)],
        None => Seq::empty(),
    }
}

pub open spec fn dns_settings(servers: Option<Seq<Seq<char>>>) -> Seq<SettingView> {
    match servers {
        Some(list) => seq![SettingView::DnsServers(join_spec(list, ","@))],
        None => Seq::empty(),
    }
}

pub open spec fn cipher_settings(ciphers: Option<Seq<Seq<char>>>) -> Seq<SettingView> {
    match ciphers {
        Some(list) => seq![SettingView::SslCipherList(join_spec(list, ":"@))],
        None => Seq::empty(),
    }
}

pub open spec fn password_settings(password: Option<Seq<char>>) -> Seq<SettingView> {
    match password {
        Some(p) => seq![SettingView::KeyPassword(p)],
        None => Seq::empty(),
    }
}

/// The settings for a private key: the file, its format, then the
/// password if there is one.
pub open spec fn key_settings(key: PrivateKeyView) -> Seq<SettingView> {
    match key {
        PrivateKeyView::PEM { path, password } => seq![
            SettingView::SslKey(path),
            SettingView::SslKeyType("PEM"@),
        ] + password_settings(password),
        PrivateKeyView::DER { path, password } => seq![
            SettingView::SslKey(path),
            SettingView::SslKeyType("DER"@),
        ] + password_settings(password),
    }
}

pub open spec fn optional_key_settings(key: Option<PrivateKeyView>) -> Seq<SettingView> {
    match key {
        Some(k) => key_settings(k),
        None => Seq::empty(),
    }
}

/// The settings for a client certificate: the file, its format, then
/// what belongs to its private key or its password.
pub open spec fn certificate_settings(cert: ClientCertificateView) -> Seq<SettingView> {
    match cert {
        ClientCertificateView::PEM { path, private_key } => seq![
            SettingView::SslCert(path),
            SettingView::SslCertType("PEM"@),
        ] + optional_key_settings(private_key),
        ClientCertificateView::DER { path, private_key } => seq![
            SettingView::SslCert(path),
            SettingView::SslCertType("DER"@),
        ] + optional_key_settings(private_key),
        ClientCertificateView::P12 { path, password } => seq![
            SettingView::SslCert(path),
            SettingView::SslCertType("P12"@),
        ] + password_settings(password),
    }
}

pub open spec fn optional_certificate_settings(cert: Option<ClientCertificateView>) -> Seq<
    SettingView,
> {
    match cert {
        Some(c) => certificate_settings(c),
        None => Seq::empty(),
    }
}

/// The request's headers as the lines the engine sends.
pub open spec fn header_lines(headers: Seq<(Seq<char>, Seq<char>)>) -> Seq<Seq<char>> {
    headers.map_values(|h: (Seq<char>, Seq<char>)| header_line_spec(h.0, h.1))
}

/// What describes the request itself: responses may come compressed in any
/// way the engine knows, then the method, the URI and the headers.
pub open spec fn request_settings(request: RequestView) -> Seq<SettingView> {
    seq![
        SettingView::AcceptEncoding(""@),
        SettingView::CustomRequest(request.method),
        SettingView::Url(request.uri),
        SettingView::HttpHeaders(header_lines(request.headers)),
    ]
}

/// A body that is not known to be empty is uploaded, and its size is
/// announced where it is known.
pub open spec fn body_settings(body: BodyView) -> Seq<SettingView> {
    if body.length == Some(0u64) {
        Seq::empty()
    } else {
        match body.length {
            Some(n) => seq![SettingView::Upload(true), SettingView::InFileSize(n)],
            None => seq![SettingView::Upload(true)],
        }
    }
}

/// The settings for the options in force, in the order in which they are
/// made.
pub open spec fn option_settings(o: OptionsView) -> Seq<SettingView> {
    timeout_settings(o.timeout) + connect_timeout_settings(o.connect_timeout) + keepalive_settings(
        o.tcp_keepalive,
    ) + nodelay_settings(o.tcp_nodelay) + redirect_settings(o.redirect_policy)
        + upload_speed_settings(o.max_upload_speed) + download_speed_settings(o.max_download_speed)
        + seq![SettingView::HttpVersion(engine_version(o.preferred_http_version))] + proxy_settings(
        o.proxy,
    ) + dns_settings(o.dns_servers) + cipher_settings(o.ssl_ciphers)
        + optional_certificate_settings(o.ssl_client_certificate)
}

/// Everything the engine is given for a request sent by a client with the
/// given defaults: the fixed settings, those of the options in force (the
/// request's own before the defaults), those of the request, those of its
/// body.
pub open spec fn settings_spec(request: RequestView, defaults: OptionsView) -> Seq<SettingView> {
    base_settings(request.options.or(defaults).verbose) + option_settings(
        request.options.or(defaults),
    ) + request_settings(request) + body_settings(request.body)
}

proof fn lemma_plan_push(plan: Seq<Setting>, setting: Setting)
    ensures
        plan_view(plan.push(setting)) == plan_view(plan) + seq![setting@],
{
}

fn put(plan: &mut Vec<Setting>, setting: Setting)
    ensures
        plan_view(final(plan)@) == plan_view(old(plan)@) + seq![setting@],
{
    proof {
        lemma_plan_push(plan@, setting);
    }
    plan.push(setting);
}

fn put_password(plan: &mut Vec<Setting>, password: &Option<String>)
    ensures
        plan_view(final(plan)@) == plan_view(old(plan)@) + password_settings(password.deep_view()),
{
    match password {
        Some(p) => {
            put(plan, Setting::KeyPassword(p.clone()));
        },
        None => {},
    }
}

/// Adds the settings for a private key.
fn put_private_key(plan: &mut Vec<Setting>, key: &PrivateKey)
    ensures
        plan_view(final(plan)@) == plan_view(old(plan)@) + key_settings(key@),
{
    match key {
        PrivateKey::PEM { path, password } => {
            put(plan, Setting::SslKey(path.clone()));
            put(plan, Setting::SslKeyType(String::from_str("PEM")));
            put_password(plan, password);
        },
        PrivateKey::DER { path, password } => {
            put(plan, Setting::SslKey(path.clone()));
            put(plan, Setting::SslKeyType(String::from_str("DER")));
            put_password(plan, password);
        },
    }
}

fn put_optional_key(plan: &mut Vec<Setting>, key: &Option<PrivateKey>)
    ensures
        plan_view(final(plan)@) == plan_view(old(plan)@) + optional_key_settings(
            crate::config::key_view(*key),
        ),
{
    match key {
        Some(k) => {
            put_private_key(plan, k);
        },
        None => {},
    }
}

/// Adds the settings for a client certificate.
fn put_certificate(plan: &mut Vec<Setting>, cert: &ClientCertificate)
    ensures
        plan_view(final(plan)@) == plan_view(old(plan)@) + certificate_settings(cert@),
{
    match cert {
        ClientCertificate::PEM { path, private_key } => {
            put(plan, Setting::SslCert(path.clone()));
            put(plan, Setting::SslCertType(String::from_str("PEM")));
            put_optional_key(plan, private_key);
        },
        ClientCertificate::DER { path, private_key } => {
            put(plan, Setting::SslCert(path.clone()));
            put(plan, Setting::SslCertType(String::from_str("DER")));
            put_optional_key(plan, private_key);
        },
        ClientCertificate::P12 { path, password } => {
            put(plan, Setting::SslCert(path.clone()));
            put(plan, Setting::SslCertType(String::from_str("P12")));
            put_password(plan, password);
        },
    }
}

/// The settings for a client certificate, on their own.
pub fn ssl_client_certificate(cert: &ClientCertificate) -> (plan: Vec<Setting>)
    ensures
        plan_view(plan@) == certificate_settings(cert@),
{
    let mut plan: Vec<Setting> = Vec::new();
    put_certificate(&mut plan, cert);
    plan
}

/// The settings for a private key, on their own.
pub fn ssl_private_key(key: &PrivateKey) -> (plan: Vec<Setting>)
    ensures
        plan_view(plan@) == key_settings(key@),
{
    let mut plan: Vec<Setting> = Vec::new();
    put_private_key(&mut plan, key);
    plan
}

/// The version the engine is asked for (see [`engine_version`]).
pub fn engine_version_for(preferred: &Option<HttpVersion>) -> (version: EngineHttpVersion)
    ensures
        version == engine_version(*preferred),
{
    match preferred {
        Some(HttpVersion::Http10) => EngineHttpVersion::V10,
        Some(HttpVersion::Http11) => EngineHttpVersion::V11,
        Some(HttpVersion::Http2) => EngineHttpVersion::V2,
        _ => EngineHttpVersion::Any,
    }
}

fn put_timeout(plan: &mut Vec<Setting>, timeout: &Option<Duration>)
    ensures
        plan_view(final(plan)@) == plan_view(old(plan)@) + timeout_settings(*timeout),
{
    match timeout {
        Some(d) => put(plan, Setting::Timeout(*d)),
        None => {},
    }
}

fn put_connect_timeout(plan: &mut Vec<Setting>, timeout: &Option<Duration>)
    ensures
        plan_view(final(plan)@) == plan_view(old(plan)@) + connect_timeout_settings(*timeout),
{
    match timeout {
        Some(d) => put(plan, Setting::ConnectTimeout(*d)),
        None => {},
    }
}

fn put_keepalive(plan: &mut Vec<Setting>, interval: &Option<Duration>)
    ensures
        plan_view(final(plan)@) == plan_view(old(plan)@) + keepalive_settings(*interval),
{
    match interval {
        Some(d) => {
            put(plan, Setting::TcpKeepAlive(true));
            put(plan, Setting::TcpKeepInterval(*d));
        },
        None => {},
    }
}

fn put_nodelay(plan: &mut Vec<Setting>, nodelay: bool)
    ensures
        plan_view(final(plan)@) == plan_view(old(plan)@) + nodelay_settings(nodelay),
{
    if nodelay {
        put(plan, Setting::TcpNoDelay(true));
    }
}

fn put_redirect(plan: &mut Vec<Setting>, policy: &Option<RedirectPolicy>)
    ensures
        plan_view(final(plan)@) == plan_view(old(plan)@) + redirect_settings(*policy),
{
    match policy {
        Some(RedirectPolicy::Follow) => {
            put(plan, Setting::FollowLocation(true));
        },
        Some(RedirectPolicy::Limit(max)) => {
            put(plan, Setting::FollowLocation(true));
            put(plan, Setting::MaxRedirections(*max));
        },
        Some(RedirectPolicy::Never) => {
            put(plan, Setting::FollowLocation(false));
        },
        None => {},
    }
}

fn put_upload_speed(plan: &mut Vec<Setting>, limit: &Option<u64>)
    ensures
        plan_view(final(plan)@) == plan_view(old(plan)@) + upload_speed_settings(*limit),
{
    match limit {
        Some(n) => put(plan, Setting::MaxSendSpeed(*n)),
        None => {},
    }
}

fn put_download_speed(plan: &mut Vec<Setting>, limit: &Option<u64>)
    ensures
        plan_view(final(plan)@) == plan_view(old(plan)@) + download_speed_settings(*limit),
{
    match limit {
        Some(n) => put(plan, Setting::MaxRecvSpeed(*n)),
        None => {},
    }
}

fn put_proxy(plan: &mut Vec<Setting>, proxy: &Option<String>)
    ensures
        plan_view(final(plan)@) == plan_view(old(plan)@) + proxy_settings(proxy.deep_view()),
{
    match proxy {
        Some(p) => put(plan, Setting::Proxy(p.clone())),
        None => {},
    }
}

fn put_dns(plan: &mut Vec<Setting>, servers: &Option<Vec<String>>)
    ensures
        plan_view(final(plan)@) == plan_view(old(plan)@) + dns_settings(servers.deep_view()),
{
    match servers {
        Some(list) => put(plan, Setting::DnsServers(join(list, ","))),
        None => {},
    }
}

fn put_ciphers(plan: &mut Vec<Setting>, ciphers: &Option<Vec<String>>)
    ensures
        plan_view(final(plan)@) == plan_view(old(plan)@) + cipher_settings(ciphers.deep_view()),
{
    match ciphers {
        Some(list) => put(plan, Setting::SslCipherList(join(list, ":"))),
        None => {},
    }
}

fn put_optional_certificate(plan: &mut Vec<Setting>, cert: &Option<ClientCertificate>)
    ensures
        plan_view(final(plan)@) == plan_view(old(plan)@) + optional_certificate_settings(
            crate::config::certificate_view(*cert),
        ),
{
    match cert {
        Some(c) => put_certificate(plan, c),
        None => {},
    }
}

/// Appending is associative.
proof fn lemma_append_assoc(a: Seq<SettingView>, b: Seq<SettingView>, c: Seq<SettingView>)
    ensures
        (a + b) + c == a + (b + c),
{
}

/// Adds the settings for the options in force.
fn put_options(plan: &mut Vec<Setting>, request: &Options, defaults: &Options)
    ensures
        plan_view(final(plan)@) == plan_view(old(plan)@) + option_settings(request@.or(defaults@)),
{
    // `done` is what the options have added so far; each step appends to
    // it what the step appended to the plan.
    let ghost o = request@.or(defaults@);
    let ghost before = plan_view(plan@);

    put_timeout(plan, first_of(&request.timeout, &defaults.timeout));
    let ghost mut done = timeout_settings(o.timeout);

    put_connect_timeout(plan, first_of(&request.connect_timeout, &defaults.connect_timeout));
    proof {
        lemma_append_assoc(before, done, connect_timeout_settings(o.connect_timeout));
        done = done + connect_timeout_settings(o.connect_timeout);
    }

    put_keepalive(plan, first_of(&request.tcp_keepalive, &defaults.tcp_keepalive));
    proof {
        lemma_append_assoc(before, done, keepalive_settings(o.tcp_keepalive));
        done = done + keepalive_settings(o.tcp_keepalive);
    }

    put_nodelay(plan, request.tcp_nodelay || defaults.tcp_nodelay);
    proof {
        lemma_append_assoc(before, done, nodelay_settings(o.tcp_nodelay));
        done = done + nodelay_settings(o.tcp_nodelay);
    }

    put_redirect(plan, first_of(&request.redirect_policy, &defaults.redirect_policy));
    proof {
        lemma_append_assoc(before, done, redirect_settings(o.redirect_policy));
        done = done + redirect_settings(o.redirect_policy);
    }

    put_upload_speed(plan, first_of(&request.max_upload_speed, &defaults.max_upload_speed));
    proof {
        lemma_append_assoc(before, done, upload_speed_settings(o.max_upload_speed));
        done = done + upload_speed_settings(o.max_upload_speed);
    }

    put_download_speed(plan, first_of(&request.max_download_speed, &defaults.max_download_speed));
    proof {
        lemma_append_assoc(before, done, download_speed_settings(o.max_download_speed));
        done = done + download_speed_settings(o.max_download_speed);
    }

    let version = engine_version_for(
        first_of(&request.preferred_http_version, &defaults.preferred_http_version),
    );
    put(plan, Setting::HttpVersion(version));
    proof {
        lemma_append_assoc(before, done, seq![SettingView::HttpVersion(version)]);
        done = done + seq![SettingView::HttpVersion(version)];
    }

    put_proxy(plan, first_of(&request.proxy, &defaults.proxy));
    proof {
        lemma_append_assoc(before, done, proxy_settings(o.proxy));
        done = done + proxy_settings(o.proxy);
    }

    put_dns(plan, first_of(&request.dns_servers, &defaults.dns_servers));
    proof {
        lemma_append_assoc(before, done, dns_settings(o.dns_servers));
        done = done + dns_settings(o.dns_servers);
    }

    put_ciphers(plan, first_of(&request.ssl_ciphers, &defaults.ssl_ciphers));
    proof {
        lemma_append_assoc(before, done, cipher_settings(o.ssl_ciphers));
        done = done + cipher_settings(o.ssl_ciphers);
    }

    put_optional_certificate(
        plan,
        first_of(&request.ssl_client_certificate, &defaults.ssl_client_certificate),
    );
    proof {
        lemma_append_assoc(before, done, optional_certificate_settings(o.ssl_client_certificate));
    }
}

/// The request's headers as lines for the engine.
pub fn format_headers(headers: &Vec<(String, String)>) -> (lines: Vec<String>)
    ensures
        lines.deep_view() == header_lines(headers.deep_view()),
{
    let mut lines: Vec<String> = Vec::new();
    let mut i: usize = 0;
    while i < headers.len()
        invariant
            i <= headers.len(),
            lines.len() == i,
            forall|j: int| 0 <= j < i ==> (#[trigger] lines[j])@ == header_line_spec(
                headers[j].0@,
                headers[j].1@,
            ),
        decreases headers.len() - i,
    {
        let line = header_line(headers[i].0.as_str(), headers[i].1.as_str());
        lines.push(line);
        i = i + 1;
    }
    lines
}

/// Works out every setting the engine is given for `request` when it is sent
/// by a client with the given defaults. The request's header values must be
/// such as can be sent (see [`RequestView::sendable`]).
pub fn easy_settings(request: &Request, defaults: &Options) -> (plan: Vec<Setting>)
    requires
        request@.sendable(),
    ensures
        plan_view(plan@) == settings_spec(request@, defaults@),
{
    let mut plan: Vec<Setting> = Vec::new();
    put(&mut plan, Setting::Verbose(request.options.verbose || defaults.verbose));
    put(&mut plan, Setting::Signal(false));

    put_options(&mut plan, &request.options, defaults);

    put(&mut plan, Setting::AcceptEncoding(String::from_str("")));
    put(&mut plan, Setting::CustomRequest(request.method.clone()));
    put(&mut plan, Setting::Url(request.uri.clone()));
    put(&mut plan, Setting::HttpHeaders(format_headers(&request.headers)));

    if !request.body.is_empty() {
        put(&mut plan, Setting::Upload(true));
        match request.body.len() {
            Some(n) => put(&mut plan, Setting::InFileSize(n)),
            None => {},
        }
    }
    plan
}

} // verus!
