//! Transfer options, as set on a single request or as a client's defaults.
//!
//! Every option is optional. When a transfer is prepared, an option set on
//! the request wins over the client's default for the same option; options
//! are resolved one by one and never influence each other.

use std::time::Duration;
use vstd::prelude::*;

verus! {

/// What the engine does when a server answers with a redirect.
#[derive(Clone, Copy, Debug, PartialEq, Eq)]
pub enum RedirectPolicy {
    /// Redirects are handed to the caller as ordinary responses.
    Never,
    /// Redirects are followed without a limit.
    Follow,
    /// Redirects are followed, up to the given number of hops.
    Limit(u32),
}

/// The HTTP version a caller would like a transfer to use.
#[derive(Clone, Copy, Debug, PartialEq, Eq)]
pub enum HttpVersion {
    Http09,
    Http10,
    Http11,
    Http2,
}

/// A private key file that belongs to a client certificate.
#[derive(Clone, Debug, PartialEq, Eq)]
pub enum PrivateKey {
    PEM { path: String, password: Option<String> },
    DER { path: String, password: Option<String> },
}

/// A client certificate file for TLS client authentication.
#[derive(Clone, Debug, PartialEq, Eq)]
pub enum ClientCertificate {
    PEM { path: String, private_key: Option<PrivateKey> },
    DER { path: String, private_key: Option<PrivateKey> },
    P12 { path: String, password: Option<String> },
}

/// The options of one request, or the defaults of one client.
#[derive(Clone, Debug, PartialEq, Eq)]
pub struct Options {
    /// The longest time a whole transfer may take.
    pub timeout: Option<Duration>,
    /// The longest time connecting may take.
    pub connect_timeout: Option<Duration>,
    /// TCP keepalive, with the time between probes.
    pub tcp_keepalive: Option<Duration>,
    pub tcp_nodelay: bool,
    /// Whether the `Referer` header is to follow redirects. The wish is
    /// kept with the options; no engine setting is made for it.
    pub auto_referer: bool,
    pub redirect_policy: Option<RedirectPolicy>,
    pub preferred_http_version: Option<HttpVersion>,
    /// The proxy, as a URI whose scheme names the kind of proxy.
    pub proxy: Option<String>,
    /// Bytes per second.
    pub max_upload_speed: Option<u64>,
    /// Bytes per second.
    pub max_download_speed: Option<u64>,
    /// Each server as an address with its port.
    pub dns_servers: Option<Vec<String>>,
    /// The ciphers by the names the engine knows.
    pub ssl_ciphers: Option<Vec<String>>,
    pub ssl_client_certificate: Option<ClientCertificate>,
    /// Whether the engine is to report what it does on the error stream.
    pub verbose: bool,
}

/// Mathematical value of a [`PrivateKey`].
pub enum PrivateKeyView {
    PEM { path: Seq<char>, password: Option<Seq<char>> },
    DER { path: Seq<char>, password: Option<Seq<char>> },
}

/// Mathematical value of a [`ClientCertificate`].
pub enum ClientCertificateView {
    PEM { path: Seq<char>, private_key: Option<PrivateKeyView> },
    DER { path: Seq<char>, private_key: Option<PrivateKeyView> },
    P12 { path: Seq<char>, password: Option<Seq<char>> },
}

/// Mathematical value of an [`Options`] record.
#[verifier::ext_equal]
pub struct OptionsView {
    pub timeout: Option<Duration>,
    pub connect_timeout: Option<Duration>,
    pub tcp_keepalive: Option<Duration>,
    pub tcp_nodelay: bool,
    pub auto_referer: bool,
    pub redirect_policy: Option<RedirectPolicy>,
    pub preferred_http_version: Option<HttpVersion>,
    pub proxy: Option<Seq<char>>,
    pub max_upload_speed: Option<u64>,
    pub max_download_speed: Option<u64>,
    pub dns_servers: Option<Seq<Seq<char>>>,
    pub ssl_ciphers: Option<Seq<Seq<char>>>,
    pub ssl_client_certificate: Option<ClientCertificateView>,
    pub verbose: bool,
}

impl View for PrivateKey {
    type V = PrivateKeyView;

    open spec fn view(&self) -> PrivateKeyView {
        match *self {
            PrivateKey::PEM { path, password } => PrivateKeyView::PEM {
                path: path@,
                password: password.deep_view(),
            },
            PrivateKey::DER { path, password } => PrivateKeyView::DER {
                path: path@,
                password: password.deep_view(),
            },
        }
    }
}

/// The value of an optional private key.
pub open spec fn key_view(key: Option<PrivateKey>) -> Option<PrivateKeyView> {
    match key {
        Some(k) => Some(k@),
        None => None,
    }
}

impl View for ClientCertificate {
    type V = ClientCertificateView;

    open spec fn view(&self) -> ClientCertificateView {
        match *self {
            ClientCertificate::PEM { path, private_key } => ClientCertificateView::PEM {
                path: path@,
                private_key: key_view(private_key),
            },
            ClientCertificate::DER { path, private_key } => ClientCertificateView::DER {
                path: path@,
                private_key: key_view(private_key),
            },
            ClientCertificate::P12 { path, password } => ClientCertificateView::P12 {
                path: path@,
                password: password.deep_view(),
            },
        }
    }
}

/// The value of an optional client certificate.
pub open spec fn certificate_view(cert: Option<ClientCertificate>) -> Option<
    ClientCertificateView,
> {
    match cert {
        Some(c) => Some(c@),
        None => None,
    }
}

impl View for Options {
    type V = OptionsView;

    open spec fn view(&self) -> OptionsView {
        OptionsView {
            timeout: self.timeout,
            connect_timeout: self.connect_timeout,
            tcp_keepalive: self.tcp_keepalive,
            tcp_nodelay: self.tcp_nodelay,
            auto_referer: self.auto_referer,
            redirect_policy: self.redirect_policy,
            preferred_http_version: self.preferred_http_version,
            proxy: self.proxy.deep_view(),
            max_upload_speed: self.max_upload_speed,
            max_download_speed: self.max_download_speed,
            dns_servers: self.dns_servers.deep_view(),
            ssl_ciphers: self.ssl_ciphers.deep_view(),
            ssl_client_certificate: certificate_view(self.ssl_client_certificate),
            verbose: self.verbose,
        }
    }
}

/// The first of two optional values that is set.
pub open spec fn first_set<T>(first: Option<T>, fallback: Option<T>) -> Option<T> {
    if first is Some {
        first
    } else {
        fallback
    }
}

impl OptionsView {
    /// The record in which no option is set.
    pub open spec fn unset() -> OptionsView {
        OptionsView {
            timeout: None,
            connect_timeout: None,
            tcp_keepalive: None,
            tcp_nodelay: false,
            auto_referer: false,
            redirect_policy: None,
            preferred_http_version: None,
            proxy: None,
            max_upload_speed: None,
            max_download_speed: None,
            dns_servers: None,
            ssl_ciphers: None,
            ssl_client_certificate: None,
            verbose: false,
        }
    }

    /// The options that take effect when `self` belongs to a request and
    /// `defaults` to the client: option by option, the request's value if it
    /// is set, else the default. A flag is on when either side switches it on.
    pub open spec fn or(self, defaults: OptionsView) -> OptionsView {
        OptionsView {
            timeout: first_set(self.timeout, defaults.timeout),
            connect_timeout: first_set(self.connect_timeout, defaults.connect_timeout),
            tcp_keepalive: first_set(self.tcp_keepalive, defaults.tcp_keepalive),
            tcp_nodelay: self.tcp_nodelay || defaults.tcp_nodelay,
            auto_referer: self.auto_referer || defaults.auto_referer,
            redirect_policy: first_set(self.redirect_policy, defaults.redirect_policy),
            preferred_http_version: first_set(
                self.preferred_http_version,
                defaults.preferred_http_version,
            ),
            proxy: first_set(self.proxy, defaults.proxy),
            max_upload_speed: first_set(self.max_upload_speed, defaults.max_upload_speed),
            max_download_speed: first_set(self.max_download_speed, defaults.max_download_speed),
            dns_servers: first_set(self.dns_servers, defaults.dns_servers),
            ssl_ciphers: first_set(self.ssl_ciphers, defaults.ssl_ciphers),
            ssl_client_certificate: first_set(
                self.ssl_client_certificate,
                defaults.ssl_client_certificate,
            ),
            verbose: self.verbose || defaults.verbose,
        }
    }
}

impl Options {
    /// A record in which no option is set.
    pub fn new() -> (options: Options)
        ensures
            options@ == OptionsView::unset(),
    {
        Options {
            timeout: None,
            connect_timeout: None,
            tcp_keepalive: None,
            tcp_nodelay: false,
            auto_referer: false,
            redirect_policy: None,
            preferred_http_version: None,
            proxy: None,
            max_upload_speed: None,
            max_download_speed: None,
            dns_servers: None,
            ssl_ciphers: None,
            ssl_client_certificate: None,
            verbose: false,
        }
    }
}

/// Picks the request's value of one option if it is set, else the default.
pub fn first_of<'a, T>(first: &'a Option<T>, fallback: &'a Option<T>) -> (chosen: &'a Option<T>)
    ensures
        *chosen == first_set(*first, *fallback),
{
    match first {
        Some(_) => first,
        None => fallback,
    }
}

/// Setting no option on a request leaves the client's defaults in force,
/// and a client without defaults leaves the request's options in force.
pub proof fn law_unset_changes_nothing(o: OptionsView)
    ensures
        OptionsView::unset().or(o) == o,
        o.or(OptionsView::unset()) == o,
{
}

/// Resolution is first-match-wins: whatever the request sets is what takes
/// effect, whatever the defaults say.
pub proof fn law_request_wins(request: OptionsView, defaults: OptionsView)
    ensures
        request.timeout is Some ==> request.or(defaults).timeout == request.timeout,
        request.connect_timeout is Some ==> request.or(defaults).connect_timeout
            == request.connect_timeout,
        request.tcp_keepalive is Some ==> request.or(defaults).tcp_keepalive
            == request.tcp_keepalive,
        request.redirect_policy is Some ==> request.or(defaults).redirect_policy
            == request.redirect_policy,
        request.preferred_http_version is Some ==> request.or(defaults).preferred_http_version
            == request.preferred_http_version,
        request.proxy is Some ==> request.or(defaults).proxy == request.proxy,
        request.max_upload_speed is Some ==> request.or(defaults).max_upload_speed
            == request.max_upload_speed,
        request.max_download_speed is Some ==> request.or(defaults).max_download_speed
            == request.max_download_speed,
        request.dns_servers is Some ==> request.or(defaults).dns_servers == request.dns_servers,
        request.ssl_ciphers is Some ==> request.or(defaults).ssl_ciphers == request.ssl_ciphers,
        request.ssl_client_certificate is Some ==> request.or(defaults).ssl_client_certificate
            == request.ssl_client_certificate,
{
}

} // verus!
