//! Requests and their bodies.

use crate::config::Options;
use crate::config::OptionsView;
use crate::error::ConfigurationError;
use crate::error::ClientError;
use crate::text::names_match;
use crate::text::same_name;
use crate::text::visible_text;
use vstd::prelude::*;
use vstd::string::StringExecFns;

verus! {

/// The body of a request: bytes that a producer hands over, all at once or
/// piece by piece while the transfer runs.
#[derive(Debug)]
pub struct Body {
    ready: Vec<u8>,
    ended: bool,
    length: Option<u64>,
}

/// Mathematical value of a [`Body`].
#[verifier::ext_equal]
pub struct BodyView {
    /// The bytes that were supplied and not yet read, oldest first.
    pub ready: Seq<u8>,
    /// Whether the producer has said that no more bytes will come.
    pub ended: bool,
    /// The size of the whole body, where it is known up front.
    pub length: Option<u64>,
}

/// What reading from a [`Body`] gave.
#[derive(Debug, PartialEq, Eq)]
pub enum BodyRead {
    /// The next bytes of the body; never empty.
    Data(Vec<u8>),
    /// Nothing can be handed over now, but the body has not ended.
    Wait,
    /// The body has ended and every byte of it was read.
    End,
}

impl BodyView {
    /// The body that has no bytes.
    pub open spec fn empty() -> BodyView {
        BodyView { ready: Seq::empty(), ended: true, length: Some(0u64) }
    }

    /// How many bytes a read of at most `max` bytes takes.
    pub open spec fn take(self, max: nat) -> nat {
        if max <= self.ready.len() {
            max
        } else {
            self.ready.len()
        }
    }

    /// The body after a read of at most `max` bytes.
    pub open spec fn after_read(self, max: nat) -> BodyView {
        BodyView { ready: self.ready.skip(self.take(max) as int), ..self }
    }

    /// The body after the producer supplied `bytes`. A body that has ended
    /// takes no more bytes.
    pub open spec fn after_supply(self, bytes: Seq<u8>) -> BodyView {
        if self.ended {
            self
        } else {
            BodyView { ready: self.ready + bytes, ..self }
        }
    }
}

impl View for Body {
    type V = BodyView;

    closed spec fn view(&self) -> BodyView {
        BodyView { ready: self.ready@, ended: self.ended, length: self.length }
    }
}

impl Body {
    /// A body without bytes.
    pub fn empty() -> (body: Body)
        ensures
            body@ == BodyView::empty(),
    {
        Body { ready: Vec::new(), ended: true, length: Some(0) }
    }

    /// A body that consists of `bytes`.
    pub fn from_bytes(bytes: Vec<u8>) -> (body: Body)
        ensures
            body@ == (BodyView { ready: bytes@, ended: true, length: Some(bytes.len() as u64) }),
    {
        let length = bytes.len() as u64;
        Body { ready: bytes, ended: true, length: Some(length) }
    }

    /// A body whose bytes will be supplied while the transfer runs. `length`
    /// is the size of the whole body, if the producer knows it.
    pub fn streaming(length: Option<u64>) -> (body: Body)
        ensures
            body@ == (BodyView { ready: Seq::empty(), ended: false, length }),
    {
        Body { ready: Vec::new(), ended: false, length }
    }

    /// Whether the body is known to have no bytes.
    pub fn is_empty(&self) -> (empty: bool)
        ensures
            empty == (self@.length == Some(0u64)),
    {
        match self.length {
            Some(n) => n == 0,
            None => false,
        }
    }

    /// The size of the whole body, where it is known up front.
    pub fn len(&self) -> (length: Option<u64>)
        ensures
            length == self@.length,
    {
        self.length
    }

    /// Hands more bytes to the body. Has no effect once the body has ended.
    pub fn supply(&mut self, bytes: &[u8])
        ensures
            final(self)@ == old(self)@.after_supply(bytes@),
    {
        if !self.ended {
            let mut i: usize = 0;
            while i < bytes.len()
                invariant
                    i <= bytes.len(),
                    self.ended == old(self).ended,
                    self.length == old(self).length,
                    self.ready@ == old(self).ready@ + bytes@.take(i as int),
                decreases bytes.len() - i,
            {
                self.ready.push(bytes[i]);
                i = i + 1;
            }
        }
    }

    /// Says that no more bytes will be supplied.
    pub fn finish(&mut self)
        ensures
            final(self)@ == (BodyView { ended: true, ..old(self)@ }),
    {
        self.ended = true;
    }

    /// Reads at most `max` bytes from the front of the body.
    ///
    /// Gives `Data` with the oldest bytes when any can be handed over, `End`
    /// when the body has ended and nothing is left, and `Wait` otherwise;
    /// only `Data` changes the body.
    pub fn read(&mut self, max: usize) -> (out: BodyRead)
        ensures
            old(self)@.take(max as nat) > 0 ==> (out matches BodyRead::Data(bytes) && bytes@
                == old(self)@.ready.take(old(self)@.take(max as nat) as int) && final(self)@
                == old(self)@.after_read(max as nat)),
            old(self)@.take(max as nat) == 0 ==> final(self)@ == old(self)@,
            old(self)@.take(max as nat) == 0 ==> out == (if old(self)@.ready.len() == 0
                && old(self)@.ended {
                BodyRead::End
            } else {
                BodyRead::Wait
            }),
    {
        let available = self.ready.len();
        let n = if max <= available { max } else { available };
        if n == 0 {
            if available == 0 && self.ended {
                BodyRead::End
            } else {
                BodyRead::Wait
            }
        } else {
            let mut taken = self.ready.split_off(n);
            std::mem::swap(&mut taken, &mut self.ready);
            BodyRead::Data(taken)
        }
    }
}

/// A request: what to ask of which resource, with which headers, body and
/// options.
#[derive(Debug)]
pub struct Request {
    pub method: String,
    pub uri: String,
    /// The headers in the order in which they are sent, as name and value.
    pub headers: Vec<(String, String)>,
    pub body: Body,
    /// The options set on this request; they win over the client's defaults.
    pub options: Options,
}

/// Mathematical value of a [`Request`].
#[verifier::ext_equal]
pub struct RequestView {
    pub method: Seq<char>,
    pub uri: Seq<char>,
    pub headers: Seq<(Seq<char>, Seq<char>)>,
    pub body: BodyView,
    pub options: OptionsView,
}

impl RequestView {
    /// A request without headers or options.
    pub open spec fn plain(method: Seq<char>, uri: Seq<char>, body: BodyView) -> RequestView {
        RequestView { method, uri, headers: Seq::empty(), body, options: OptionsView::unset() }
    }

    /// Whether the request has a header of the given name, whatever the
    /// case of its letters.
    pub open spec fn has_header(self, name: Seq<char>) -> bool {
        exists|i: int| 0 <= i < self.headers.len() && same_name((#[trigger] self.headers[i]).0, name)
    }

    /// Whether the request can be sent: every header value is of tabs and
    /// of ASCII from the space to the tilde. The engine is given headers
    /// as lines of text, and no other value can be written into one.
    pub open spec fn sendable(self) -> bool {
        forall|i: int| 0 <= i < self.headers.len() ==> visible_text((#[trigger] self.headers[i]).1)
    }

    /// The request with one more header at the end.
    pub open spec fn with_header(self, name: Seq<char>, value: Seq<char>) -> RequestView {
        RequestView { headers: self.headers.push((name, value)), ..self }
    }

    /// The request with the header added unless it already has one of that
    /// name.
    pub open spec fn with_default_header(self, name: Seq<char>, value: Seq<char>) -> RequestView {
        if self.has_header(name) {
            self
        } else {
            self.with_header(name, value)
        }
    }
}

impl View for Request {
    type V = RequestView;

    open spec fn view(&self) -> RequestView {
        RequestView {
            method: self.method@,
            uri: self.uri@,
            headers: self.headers.deep_view(),
            body: self.body@,
            options: self.options@,
        }
    }
}

/// Whether the `http` crate's URI parser accepts the text.
pub uninterp spec fn uri_accepted(uri: Seq<char>) -> bool;

/// The text that the `http` crate prints for the URI it parsed from the
/// text. It says the same as the text it was parsed from, in the crate's
/// own spelling.
pub uninterp spec fn uri_printed(uri: Seq<char>) -> Seq<char>;

/// Parses `uri` with `http::Uri`'s `FromStr` implementation and, if that
/// accepts it, prints the URI again with its `Display` implementation.
/// Both are functions of the text alone; the contract gives them the names
/// [`uri_accepted`] and [`uri_printed`] and claims nothing else of them.
#[verifier::external_body]
fn parse_uri(uri: &str) -> (printed: Option<String>)
    ensures
        printed is Some == uri_accepted(uri@),
        printed matches Some(text) ==> text@ == uri_printed(uri@),
{
    match uri.parse::<http::Uri>() {
        Ok(parsed) => Some(parsed.to_string()),
        Err(_) => None,
    }
}

impl Request {
    /// The request for `method` on the URI that was parsed and printed as
    /// `printed`: no headers, no options of its own. If the URI did not
    /// parse, the body is given up and the request is refused as badly
    /// configured.
    pub fn checked(method: &str, printed: Option<String>, body: Body) -> (out: Result<
        Request,
        ClientError,
    >)
        ensures
            match printed {
                Some(uri) => out matches Ok(request) && request@ == RequestView::plain(
                    method@,
                    uri@,
                    body@,
                ),
                None => out == Err::<Request, ClientError>(
                    ClientError::Configuration(ConfigurationError::InvalidUri),
                ),
            },
    {
        match printed {
            Some(uri) => {
                let request = Request {
                    method: String::from_str(method),
                    uri,
                    headers: Vec::new(),
                    body,
                    options: Options::new(),
                };
                proof {
                    assert(request.headers.deep_view() =~= Seq::empty());
                }
                Ok(request)
            },
            None => Err(ClientError::Configuration(ConfigurationError::InvalidUri)),
        }
    }

    /// A request for `method` on `uri`, without headers or options. Fails
    /// with `InvalidUri` exactly when the URI does not parse; else the
    /// request holds the URI as the parser prints it.
    pub fn new(method: &str, uri: &str, body: Body) -> (out: Result<Request, ClientError>)
        ensures
            uri_accepted(uri@) ==> (out matches Ok(request) && request@ == RequestView::plain(
                method@,
                uri_printed(uri@),
                body@,
            )),
            !uri_accepted(uri@) ==> out == Err::<Request, ClientError>(
                ClientError::Configuration(ConfigurationError::InvalidUri),
            ),
    {
        let printed = parse_uri(uri);
        Request::checked(method, printed, body)
    }

    /// Whether the request has a header of the given name, whatever the
    /// case of its letters.
    pub fn has_header(&self, name: &str) -> (found: bool)
        ensures
            found == self@.has_header(name@),
    {
        let mut i: usize = 0;
        while i < self.headers.len()
            invariant
                i <= self.headers.len(),
                forall|j: int| 0 <= j < i ==> !same_name((#[trigger] self@.headers[j]).0, name@),
            decreases self.headers.len() - i,
        {
            if names_match(self.headers[i].0.as_str(), name) {
                proof {
                    assert(same_name(self@.headers[i as int].0, name@));
                }
                return true;
            }
            i = i + 1;
        }
        false
    }

    /// Adds a header at the end.
    pub fn add_header(&mut self, name: &str, value: &str)
        ensures
            final(self)@ == old(self)@.with_header(name@, value@),
    {
        self.headers.push((String::from_str(name), String::from_str(value)));
    }

    /// Adds a header unless the request already has one of that name.
    pub fn default_header(&mut self, name: &str, value: &str)
        ensures
            final(self)@ == old(self)@.with_default_header(name@, value@),
    {
        if !self.has_header(name) {
            self.add_header(name, value);
        }
    }
}

} // verus!
