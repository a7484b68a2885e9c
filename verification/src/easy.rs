//! Engine handles: making one, and giving it the settings of a transfer.
//!
//! The engine is libcurl, reached through the `curl` crate. Whether the
//! engine takes a setting is its own affair: every call into it may succeed
//! or fail. What is recorded of a handle is which settings it has taken
//! ([`taken`]), and the functions below say what the client does when a
//! setting is refused.

use crate::error::ConfigurationError;
use crate::error::ClientError;
use crate::settings::EngineHttpVersion;
use crate::settings::plan_view;
use crate::settings::Setting;
use crate::settings::SettingView;
use std::time::Duration;
use vstd::prelude::*;

verus! {

/// The settings an engine handle has taken so far, in the order in which
/// it took them. A handle takes a setting when the call that makes it
/// succeeds; a call that fails leaves the handle with what it had.
pub uninterp spec fn taken(easy: curl::easy::Easy) -> Seq<SettingView>;

/// The lines an engine list holds, in the order in which they were
/// appended.
pub uninterp spec fn list_lines(list: curl::easy::List) -> Seq<Seq<char>>;

/// Calls `curl::easy::Easy::new`, which makes a fresh handle: one that has
/// taken no setting.
#[verifier::external_body]
pub(crate) fn easy_new() -> (easy: curl::easy::Easy)
    ensures
        taken(easy) == Seq::<SettingView>::empty(),
{
    curl::easy::Easy::new()
}

/// Calls `curl::Version::get` and reads `Version::version` of what it gave:
/// the version text of the engine this process runs with. It differs from
/// machine to machine, so nothing is claimed of it.
#[verifier::external_body]
pub(crate) fn engine_version() -> (version: String) {
    curl::Version::get().version().to_string()
}

/// Calls `curl::Error::code`, the engine's numeric code of an error.
/// Nothing is claimed of the number.
#[verifier::external_body]
fn error_code(error: &curl::Error) -> (code: u32) {
    error.code() as u32
}

/// Calls `curl::easy::Easy::verbose`.
/// Whether the engine takes the setting is its own affair; if it does, the
/// setting is the last the handle has taken, and if not, the handle is as
/// it was.
#[verifier::external_body]
fn easy_verbose(easy: &mut curl::easy::Easy, on: bool) -> (r: Result<(), curl::Error>)
    ensures
        r is Ok ==> taken(*final(easy)) == taken(*old(easy)).push(SettingView::Verbose(on)),
        r is Err ==> taken(*final(easy)) == taken(*old(easy)),
{
    easy.verbose(on)
}

/// Calls `curl::easy::Easy::signal`.
/// Whether the engine takes the setting is its own affair; if it does, the
/// setting is the last the handle has taken, and if not, the handle is as
/// it was.
#[verifier::external_body]
fn easy_signal(easy: &mut curl::easy::Easy, on: bool) -> (r: Result<(), curl::Error>)
    ensures
        r is Ok ==> taken(*final(easy)) == taken(*old(easy)).push(SettingView::Signal(on)),
        r is Err ==> taken(*final(easy)) == taken(*old(easy)),
{
    easy.signal(on)
}

/// Calls `curl::easy::Easy::timeout`.
/// Whether the engine takes the setting is its own affair; if it does, the
/// setting is the last the handle has taken, and if not, the handle is as
/// it was.
#[verifier::external_body]
fn easy_timeout(easy: &mut curl::easy::Easy, timeout: Duration) -> (r: Result<(), curl::Error>)
    ensures
        r is Ok ==> taken(*final(easy)) == taken(*old(easy)).push(SettingView::Timeout(timeout)),
        r is Err ==> taken(*final(easy)) == taken(*old(easy)),
{
    easy.timeout(timeout)
}

/// Calls `curl::easy::Easy::connect_timeout`.
/// Whether the engine takes the setting is its own affair; if it does, the
/// setting is the last the handle has taken, and if not, the handle is as
/// it was.
#[verifier::external_body]
fn easy_connect_timeout(easy: &mut curl::easy::Easy, timeout: Duration) -> (r: Result<
    (),
    curl::Error,
>)
    ensures
        r is Ok ==> taken(*final(easy)) == taken(*old(easy)).push(SettingView::ConnectTimeout(timeout)),
        r is Err ==> taken(*final(easy)) == taken(*old(easy)),
{
    easy.connect_timeout(timeout)
}

/// Calls `curl::easy::Easy::tcp_keepalive`.
/// Whether the engine takes the setting is its own affair; if it does, the
/// setting is the last the handle has taken, and if not, the handle is as
/// it was.
#[verifier::external_body]
fn easy_tcp_keepalive(easy: &mut curl::easy::Easy, on: bool) -> (r: Result<(), curl::Error>)
    ensures
        r is Ok ==> taken(*final(easy)) == taken(*old(easy)).push(SettingView::TcpKeepAlive(on)),
        r is Err ==> taken(*final(easy)) == taken(*old(easy)),
{
    easy.tcp_keepalive(on)
}

/// Calls `curl::easy::Easy::tcp_keepintvl`.
/// Whether the engine takes the setting is its own affair; if it does, the
/// setting is the last the handle has taken, and if not, the handle is as
/// it was.
#[verifier::external_body]
fn easy_tcp_keepintvl(easy: &mut curl::easy::Easy, interval: Duration) -> (r: Result<
    (),
    curl::Error,
>)
    ensures
        r is Ok ==> taken(*final(easy)) == taken(*old(easy)).push(SettingView::TcpKeepInterval(interval)),
        r is Err ==> taken(*final(easy)) == taken(*old(easy)),
{
    easy.tcp_keepintvl(interval)
}

/// Calls `curl::easy::Easy::tcp_nodelay`.
/// Whether the engine takes the setting is its own affair; if it does, the
/// setting is the last the handle has taken, and if not, the handle is as
/// it was.
#[verifier::external_body]
fn easy_tcp_nodelay(easy: &mut curl::easy::Easy, on: bool) -> (r: Result<(), curl::Error>)
    ensures
        r is Ok ==> taken(*final(easy)) == taken(*old(easy)).push(SettingView::TcpNoDelay(on)),
        r is Err ==> taken(*final(easy)) == taken(*old(easy)),
{
    easy.tcp_nodelay(on)
}

/// Calls `curl::easy::Easy::follow_location`.
/// Whether the engine takes the setting is its own affair; if it does, the
/// setting is the last the handle has taken, and if not, the handle is as
/// it was.
#[verifier::external_body]
fn easy_follow_location(easy: &mut curl::easy::Easy, on: bool) -> (r: Result<(), curl::Error>)
    ensures
        r is Ok ==> taken(*final(easy)) == taken(*old(easy)).push(SettingView::FollowLocation(on)),
        r is Err ==> taken(*final(easy)) == taken(*old(easy)),
{
    easy.follow_location(on)
}

/// Calls `curl::easy::Easy::max_redirections`.
/// Whether the engine takes the setting is its own affair; if it does, the
/// setting is the last the handle has taken, and if not, the handle is as
/// it was.
#[verifier::external_body]
fn easy_max_redirections(easy: &mut curl::easy::Easy, max: u32) -> (r: Result<(), curl::Error>)
    ensures
        r is Ok ==> taken(*final(easy)) == taken(*old(easy)).push(SettingView::MaxRedirections(max)),
        r is Err ==> taken(*final(easy)) == taken(*old(easy)),
{
    easy.max_redirections(max)
}

/// Calls `curl::easy::Easy::max_send_speed`.
/// Whether the engine takes the setting is its own affair; if it does, the
/// setting is the last the handle has taken, and if not, the handle is as
/// it was.
#[verifier::external_body]
fn easy_max_send_speed(easy: &mut curl::easy::Easy, speed: u64) -> (r: Result<(), curl::Error>)
    ensures
        r is Ok ==> taken(*final(easy)) == taken(*old(easy)).push(SettingView::MaxSendSpeed(speed)),
        r is Err ==> taken(*final(easy)) == taken(*old(easy)),
{
    easy.max_send_speed(speed)
}

/// Calls `curl::easy::Easy::max_recv_speed`.
/// Whether the engine takes the setting is its own affair; if it does, the
/// setting is the last the handle has taken, and if not, the handle is as
/// it was.
#[verifier::external_body]
fn easy_max_recv_speed(easy: &mut curl::easy::Easy, speed: u64) -> (r: Result<(), curl::Error>)
    ensures
        r is Ok ==> taken(*final(easy)) == taken(*old(easy)).push(SettingView::MaxRecvSpeed(speed)),
        r is Err ==> taken(*final(easy)) == taken(*old(easy)),
{
    easy.max_recv_speed(speed)
}

/// Calls `curl::easy::Easy::http_version` with the engine's own name for
/// the version.
/// Whether the engine takes the setting is its own affair; if it does, the
/// setting is the last the handle has taken, and if not, the handle is as
/// it was.
#[verifier::external_body]
fn easy_http_version(easy: &mut curl::easy::Easy, version: EngineHttpVersion) -> (r: Result<
    (),
    curl::Error,
>)
    ensures
        r is Ok ==> taken(*final(easy)) == taken(*old(easy)).push(SettingView::HttpVersion(version)),
        r is Err ==> taken(*final(easy)) == taken(*old(easy)),
{
    easy.http_version(
        match version {
            EngineHttpVersion::Any => curl::easy::HttpVersion::Any,
            EngineHttpVersion::V10 => curl::easy::HttpVersion::V10,
            EngineHttpVersion::V11 => curl::easy::HttpVersion::V11,
            EngineHttpVersion::V2 => curl::easy::HttpVersion::V2,
        },
    )
}

/// Calls `curl::easy::Easy::proxy`.
/// Whether the engine takes the setting is its own affair; if it does, the
/// setting is the last the handle has taken, and if not, the handle is as
/// it was.
#[verifier::external_body]
fn easy_proxy(easy: &mut curl::easy::Easy, url: &str) -> (r: Result<(), curl::Error>)
    ensures
        r is Ok ==> taken(*final(easy)) == taken(*old(easy)).push(SettingView::Proxy(url@)),
        r is Err ==> taken(*final(easy)) == taken(*old(easy)),
{
    easy.proxy(url)
}

/// Calls `curl::easy::Easy::dns_servers`.
/// Whether the engine takes the setting is its own affair; if it does, the
/// setting is the last the handle has taken, and if not, the handle is as
/// it was.
#[verifier::external_body]
fn easy_dns_servers(easy: &mut curl::easy::Easy, servers: &str) -> (r: Result<(), curl::Error>)
    ensures
        r is Ok ==> taken(*final(easy)) == taken(*old(easy)).push(SettingView::DnsServers(servers@)),
        r is Err ==> taken(*final(easy)) == taken(*old(easy)),
{
    easy.dns_servers(servers)
}

/// Calls `curl::easy::Easy::ssl_cipher_list`.
/// Whether the engine takes the setting is its own affair; if it does, the
/// setting is the last the handle has taken, and if not, the handle is as
/// it was.
#[verifier::external_body]
fn easy_ssl_cipher_list(easy: &mut curl::easy::Easy, ciphers: &str) -> (r: Result<
    (),
    curl::Error,
>)
    ensures
        r is Ok ==> taken(*final(easy)) == taken(*old(easy)).push(SettingView::SslCipherList(ciphers@)),
        r is Err ==> taken(*final(easy)) == taken(*old(easy)),
{
    easy.ssl_cipher_list(ciphers)
}

/// Calls `curl::easy::Easy::ssl_cert` with the path of the certificate
/// file.
/// Whether the engine takes the setting is its own affair; if it does, the
/// setting is the last the handle has taken, and if not, the handle is as
/// it was.
#[verifier::external_body]
fn easy_ssl_cert(easy: &mut curl::easy::Easy, path: &str) -> (r: Result<(), curl::Error>)
    ensures
        r is Ok ==> taken(*final(easy)) == taken(*old(easy)).push(SettingView::SslCert(path@)),
        r is Err ==> taken(*final(easy)) == taken(*old(easy)),
{
    easy.ssl_cert(path)
}

/// Calls `curl::easy::Easy::ssl_cert_type`.
/// Whether the engine takes the setting is its own affair; if it does, the
/// setting is the last the handle has taken, and if not, the handle is as
/// it was.
#[verifier::external_body]
fn easy_ssl_cert_type(easy: &mut curl::easy::Easy, kind: &str) -> (r: Result<(), curl::Error>)
    ensures
        r is Ok ==> taken(*final(easy)) == taken(*old(easy)).push(SettingView::SslCertType(kind@)),
        r is Err ==> taken(*final(easy)) == taken(*old(easy)),
{
    easy.ssl_cert_type(kind)
}

/// Calls `curl::easy::Easy::ssl_key` with the path of the key file.
/// Whether the engine takes the setting is its own affair; if it does, the
/// setting is the last the handle has taken, and if not, the handle is as
/// it was.
#[verifier::external_body]
fn easy_ssl_key(easy: &mut curl::easy::Easy, path: &str) -> (r: Result<(), curl::Error>)
    ensures
        r is Ok ==> taken(*final(easy)) == taken(*old(easy)).push(SettingView::SslKey(path@)),
        r is Err ==> taken(*final(easy)) == taken(*old(easy)),
{
    easy.ssl_key(path)
}

/// Calls `curl::easy::Easy::ssl_key_type`.
/// Whether the engine takes the setting is its own affair; if it does, the
/// setting is the last the handle has taken, and if not, the handle is as
/// it was.
#[verifier::external_body]
fn easy_ssl_key_type(easy: &mut curl::easy::Easy, kind: &str) -> (r: Result<(), curl::Error>)
    ensures
        r is Ok ==> taken(*final(easy)) == taken(*old(easy)).push(SettingView::SslKeyType(kind@)),
        r is Err ==> taken(*final(easy)) == taken(*old(easy)),
{
    easy.ssl_key_type(kind)
}

/// Calls `curl::easy::Easy::key_password`.
/// Whether the engine takes the setting is its own affair; if it does, the
/// setting is the last the handle has taken, and if not, the handle is as
/// it was.
#[verifier::external_body]
fn easy_key_password(easy: &mut curl::easy::Easy, password: &str) -> (r: Result<
    (),
    curl::Error,
>)
    ensures
        r is Ok ==> taken(*final(easy)) == taken(*old(easy)).push(SettingView::KeyPassword(password@)),
        r is Err ==> taken(*final(easy)) == taken(*old(easy)),
{
    easy.key_password(password)
}

/// Calls `curl::easy::Easy::accept_encoding`.
/// Whether the engine takes the setting is its own affair; if it does, the
/// setting is the last the handle has taken, and if not, the handle is as
/// it was.
#[verifier::external_body]
fn easy_accept_encoding(easy: &mut curl::easy::Easy, encoding: &str) -> (r: Result<
    (),
    curl::Error,
>)
    ensures
        r is Ok ==> taken(*final(easy)) == taken(*old(easy)).push(SettingView::AcceptEncoding(encoding@)),
        r is Err ==> taken(*final(easy)) == taken(*old(easy)),
{
    easy.accept_encoding(encoding)
}

/// Calls `curl::easy::Easy::custom_request`.
/// Whether the engine takes the setting is its own affair; if it does, the
/// setting is the last the handle has taken, and if not, the handle is as
/// it was.
#[verifier::external_body]
fn easy_custom_request(easy: &mut curl::easy::Easy, method: &str) -> (r: Result<
    (),
    curl::Error,
>)
    ensures
        r is Ok ==> taken(*final(easy)) == taken(*old(easy)).push(SettingView::CustomRequest(method@)),
        r is Err ==> taken(*final(easy)) == taken(*old(easy)),
{
    easy.custom_request(method)
}

/// Calls `curl::easy::Easy::url`.
/// Whether the engine takes the setting is its own affair; if it does, the
/// setting is the last the handle has taken, and if not, the handle is as
/// it was.
#[verifier::external_body]
fn easy_url(easy: &mut curl::easy::Easy, url: &str) -> (r: Result<(), curl::Error>)
    ensures
        r is Ok ==> taken(*final(easy)) == taken(*old(easy)).push(SettingView::Url(url@)),
        r is Err ==> taken(*final(easy)) == taken(*old(easy)),
{
    easy.url(url)
}

/// Calls `curl::easy::List::new`, which makes an empty list.
#[verifier::external_body]
fn list_new() -> (list: curl::easy::List)
    ensures
        list_lines(list) == Seq::<Seq<char>>::empty(),
{
    curl::easy::List::new()
}

/// Calls `curl::easy::List::append`. The list may refuse the line, and
/// then holds what it held; else the line is its new last line.
#[verifier::external_body]
fn list_append(list: &mut curl::easy::List, line: &str) -> (r: Result<(), curl::Error>)
    ensures
        r is Ok ==> list_lines(*final(list)) == list_lines(*old(list)).push(line@),
        r is Err ==> list_lines(*final(list)) == list_lines(*old(list)),
{
    list.append(line)
}

/// Calls `curl::easy::Easy::http_headers`, which hands the list over to the
/// handle.
/// Whether the engine takes the setting is its own affair; if it does, the
/// setting is the last the handle has taken, and if not, the handle is as
/// it was.
#[verifier::external_body]
fn easy_http_headers(easy: &mut curl::easy::Easy, list: curl::easy::List) -> (r: Result<
    (),
    curl::Error,
>)
    ensures
        r is Ok ==> taken(*final(easy)) == taken(*old(easy)).push(
            SettingView::HttpHeaders(list_lines(list)),
        ),
        r is Err ==> taken(*final(easy)) == taken(*old(easy)),
{
    easy.http_headers(list)
}

/// Calls `curl::easy::Easy::upload`.
/// Whether the engine takes the setting is its own affair; if it does, the
/// setting is the last the handle has taken, and if not, the handle is as
/// it was.
#[verifier::external_body]
fn easy_upload(easy: &mut curl::easy::Easy, on: bool) -> (r: Result<(), curl::Error>)
    ensures
        r is Ok ==> taken(*final(easy)) == taken(*old(easy)).push(SettingView::Upload(on)),
        r is Err ==> taken(*final(easy)) == taken(*old(easy)),
{
    easy.upload(on)
}

/// Calls `curl::easy::Easy::in_filesize`.
/// Whether the engine takes the setting is its own affair; if it does, the
/// setting is the last the handle has taken, and if not, the handle is as
/// it was.
#[verifier::external_body]
fn easy_in_filesize(easy: &mut curl::easy::Easy, size: u64) -> (r: Result<(), curl::Error>)
    ensures
        r is Ok ==> taken(*final(easy)) == taken(*old(easy)).push(SettingView::InFileSize(size)),
        r is Err ==> taken(*final(easy)) == taken(*old(easy)),
{
    easy.in_filesize(size)
}

/// Hands the header lines to the handle: each line is appended to a fresh
/// engine list, which the handle then takes. The first refusal ends it, and
/// then the handle is as it was.
fn set_headers(easy: &mut curl::easy::Easy, lines: &Vec<String>) -> (r: Result<(), curl::Error>)
    ensures
        r is Ok ==> taken(*final(easy)) == taken(*old(easy)).push(
            SettingView::HttpHeaders(lines.deep_view()),
        ),
        r is Err ==> taken(*final(easy)) == taken(*old(easy)),
{
    let mut list = list_new();
    let mut i: usize = 0;
    while i < lines.len()
        invariant
            i <= lines.len(),
            list_lines(list) == lines.deep_view().take(i as int),
        decreases lines.len() - i,
    {
        match list_append(&mut list, lines[i].as_str()) {
            Ok(()) => {},
            Err(e) => {
                return Err(e);
            },
        }
        proof {
            let all = lines.deep_view();
            assert(all.take(i + 1) =~= all.take(i as int).push(lines[i as int]@));
        }
        i = i + 1;
    }
    proof {
        assert(lines.deep_view().take(lines.len() as int) =~= lines.deep_view());
    }
    easy_http_headers(easy, list)
}

/// Makes one setting on the handle. If the engine takes it, it is the last
/// setting the handle has taken; if not, the handle is as it was.
fn apply(easy: &mut curl::easy::Easy, setting: &Setting) -> (r: Result<(), curl::Error>)
    ensures
        r is Ok ==> taken(*final(easy)) == taken(*old(easy)).push(setting@),
        r is Err ==> taken(*final(easy)) == taken(*old(easy)),
{
    match setting {
        Setting::Verbose(on) => easy_verbose(easy, *on),
        Setting::Signal(on) => easy_signal(easy, *on),
        Setting::Timeout(d) => easy_timeout(easy, *d),
        Setting::ConnectTimeout(d) => easy_connect_timeout(easy, *d),
        Setting::TcpKeepAlive(on) => easy_tcp_keepalive(easy, *on),
        Setting::TcpKeepInterval(d) => easy_tcp_keepintvl(easy, *d),
        Setting::TcpNoDelay(on) => easy_tcp_nodelay(easy, *on),
        Setting::FollowLocation(on) => easy_follow_location(easy, *on),
        Setting::MaxRedirections(max) => easy_max_redirections(easy, *max),
        Setting::MaxSendSpeed(speed) => easy_max_send_speed(easy, *speed),
        Setting::MaxRecvSpeed(speed) => easy_max_recv_speed(easy, *speed),
        Setting::HttpVersion(version) => easy_http_version(easy, *version),
        Setting::Proxy(url) => easy_proxy(easy, url.as_str()),
        Setting::DnsServers(servers) => easy_dns_servers(easy, servers.as_str()),
        Setting::SslCipherList(ciphers) => easy_ssl_cipher_list(easy, ciphers.as_str()),
        Setting::SslCert(path) => easy_ssl_cert(easy, path.as_str()),
        Setting::SslCertType(kind) => easy_ssl_cert_type(easy, kind.as_str()),
        Setting::SslKey(path) => easy_ssl_key(easy, path.as_str()),
        Setting::SslKeyType(kind) => easy_ssl_key_type(easy, kind.as_str()),
        Setting::KeyPassword(password) => easy_key_password(easy, password.as_str()),
        Setting::AcceptEncoding(encoding) => easy_accept_encoding(easy, encoding.as_str()),
        Setting::CustomRequest(method) => easy_custom_request(easy, method.as_str()),
        Setting::Url(url) => easy_url(easy, url.as_str()),
        Setting::HttpHeaders(lines) => set_headers(easy, lines),
        Setting::Upload(on) => easy_upload(easy, *on),
        Setting::InFileSize(size) => easy_in_filesize(easy, *size),
    }
}

/// What the engine's answer to one setting means for the transfer: `None`
/// to go on, or the error that ends the preparation.
pub open spec fn verdict_spec(optional: bool, refusal: Option<u32>) -> Option<ClientError> {
    match refusal {
        Some(code) if !optional => Some(
            ClientError::Configuration(ConfigurationError::Rejected { code }),
        ),
        _ => None,
    }
}

/// Decides what the engine's answer to one setting means. `refusal` is the
/// engine's error code if it refused the setting. A refusal ends the
/// preparation, unless the setting is one the transfer can do without.
pub fn verdict(setting: &Setting, refusal: Option<u32>) -> (error: Option<ClientError>)
    ensures
        error == verdict_spec(setting@.is_optional(), refusal),
{
    match refusal {
        Some(code) => {
            if setting.is_optional() {
                None
            } else {
                Some(ClientError::Configuration(ConfigurationError::Rejected { code }))
            }
        },
        None => None,
    }
}

/// Those of the settings that a transfer cannot do without, in their
/// order.
pub open spec fn required(settings: Seq<SettingView>) -> Seq<SettingView>
    decreases settings.len(),
{
    if settings.len() == 0 {
        Seq::empty()
    } else if settings.last().is_optional() {
        required(settings.drop_last())
    } else {
        required(settings.drop_last()).push(settings.last())
    }
}

/// The required settings of a list with one more setting at its end.
pub proof fn lemma_required_push(settings: Seq<SettingView>, setting: SettingView)
    ensures
        required(settings.push(setting)) == if setting.is_optional() {
            required(settings)
        } else {
            required(settings).push(setting)
        },
{
    assert(settings.push(setting).drop_last() =~= settings);
}

/// The required settings of two lists, one after the other.
pub proof fn lemma_required_append(first: Seq<SettingView>, second: Seq<SettingView>)
    ensures
        required(first + second) == required(first) + required(second),
    decreases second.len(),
{
    if second.len() == 0 {
        assert(first + second =~= first);
    } else {
        lemma_required_append(first, second.drop_last());
        assert(first + second =~= (first + second.drop_last()).push(second.last()));
        lemma_required_push(first + second.drop_last(), second.last());
    }
}

/// Whether `passed` names settings of `plan` that the transfer can do
/// without, each once and in their order.
pub open spec fn passes_over(plan: Seq<SettingView>, passed: Seq<usize>) -> bool {
    &&& forall|j: int|
        0 <= j < passed.len() ==> (#[trigger] passed[j]) < plan.len() && plan[passed[j] as int].is_optional()
    &&& forall|j: int, k: int| 0 <= j < k < passed.len() ==> passed[j] < passed[k]
}

/// Gives the handle every setting of `plan`, in order, and stops at the
/// first refusal that matters (see [`verdict`]).
///
/// The engine alone decides which settings it takes, so the outcome is not
/// determined here; a plan made only of settings the transfer can do
/// without never fails. On success the handle has taken, after what it had
/// taken before, every required setting of the plan, in order; and the
/// result names the places in the plan of the settings that the engine
/// refused and that were passed over. On failure the error is a
/// configuration error with the engine's code, the refused setting is a
/// required one, and the handle has taken the required settings in front of
/// it.
pub fn configure(easy: &mut curl::easy::Easy, plan: &Vec<Setting>) -> (r: Result<
    Vec<usize>,
    ClientError,
>)
    ensures
        (forall|i: int| 0 <= i < plan.len() ==> (#[trigger] plan[i])@.is_optional()) ==> r is Ok,
        r matches Ok(passed) ==> {
            &&& required(taken(*final(easy))) == required(taken(*old(easy))) + required(
                plan_view(plan@),
            )
            &&& passes_over(plan_view(plan@), passed@)
        },
        r matches Err(e) ==> {
            &&& e matches ClientError::Configuration(ConfigurationError::Rejected { .. })
            &&& exists|k: int|
                0 <= k < plan.len() && !(#[trigger] plan[k])@.is_optional() && required(
                    taken(*final(easy)),
                ) == required(taken(*old(easy))) + required(plan_view(plan@.take(k)))
        },
{
    let mut passed: Vec<usize> = Vec::new();
    let mut i: usize = 0;
    proof {
        assert(plan_view(plan@.take(0)) =~= Seq::<SettingView>::empty());
        assert(required(taken(*easy)) + Seq::<SettingView>::empty() =~= required(taken(*easy)));
    }
    while i < plan.len()
        invariant
            i <= plan.len(),
            required(taken(*easy)) == required(taken(*old(easy))) + required(
                plan_view(plan@.take(i as int)),
            ),
            passes_over(plan_view(plan@), passed@),
            forall|j: int| 0 <= j < passed.len() ==> passed[j] < i,
        decreases plan.len() - i,
    {
        let ghost before = taken(*easy);
        let ghost done = plan_view(plan@.take(i as int));
        let refusal = match apply(easy, &plan[i]) {
            Ok(()) => None,
            Err(e) => Some(error_code(&e)),
        };
        match verdict(&plan[i], refusal) {
            Some(error) => {
                return Err(error);
            },
            None => {},
        }
        if refusal.is_some() {
            passed.push(i);
        }
        proof {
            assert(plan_view(plan@.take(i + 1)) =~= done.push(plan[i as int]@));
            lemma_required_push(done, plan[i as int]@);
            lemma_required_push(before, plan[i as int]@);
            assert((required(taken(*old(easy))) + required(done)).push(plan[i as int]@)
                =~= required(taken(*old(easy))) + required(done).push(plan[i as int]@));
        }
        i = i + 1;
    }
    proof {
        assert(plan@.take(plan.len() as int) =~= plan@);
    }
    Ok(passed)
}

} // verus!
