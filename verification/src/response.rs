//! Responses, and the lines of a response's head as the engine hands them
//! over.
//!
//! The engine passes the head one line at a time: the status line, then one
//! line per header, then an empty line. A line usually ends in CR LF.

use crate::text::names_match_bytes;
use crate::text::same_name_bytes;
use vstd::prelude::*;

verus! {

/// Status and headers of a response.
#[derive(Debug, PartialEq, Eq)]
pub struct Response {
    pub status: u16,
    /// The headers in the order in which they arrived, as name and value.
    pub headers: Vec<(Vec<u8>, Vec<u8>)>,
}

/// Mathematical value of a [`Response`].
#[verifier::ext_equal]
pub struct ResponseView {
    pub status: u16,
    pub headers: Seq<(Seq<u8>, Seq<u8>)>,
}

/// The values of a list of headers.
pub open spec fn fields_view(headers: Seq<(Vec<u8>, Vec<u8>)>) -> Seq<(Seq<u8>, Seq<u8>)> {
    headers.map_values(|h: (Vec<u8>, Vec<u8>)| (h.0@, h.1@))
}

impl View for Response {
    type V = ResponseView;

    open spec fn view(&self) -> ResponseView {
        ResponseView { status: self.status, headers: fields_view(self.headers@) }
    }
}

impl ResponseView {
    /// The position of the first header of the given name, whatever the
    /// case of its letters, counted from `from`; the number of headers if
    /// there is none.
    pub open spec fn position(self, name: Seq<u8>, from: int) -> int
        decreases self.headers.len() - from,
    {
        if from < 0 || from >= self.headers.len() {
            self.headers.len() as int
        } else if same_name_bytes(self.headers[from].0, name) {
            from
        } else {
            self.position(name, from + 1)
        }
    }

    /// The value of the first header of the given name.
    pub open spec fn header(self, name: Seq<u8>) -> Option<Seq<u8>> {
        let at = self.position(name, 0);
        if at < self.headers.len() {
            Some(self.headers[at].1)
        } else {
            None
        }
    }
}

impl Response {
    /// The value of the first header of the given name, whatever the case
    /// of its letters.
    pub fn header(&self, name: &[u8]) -> (value: Option<&Vec<u8>>)
        ensures
            match value {
                Some(v) => self@.header(name@) == Some(v@),
                None => self@.header(name@) is None,
            },
    {
        let mut i: usize = 0;
        while i < self.headers.len()
            invariant
                i <= self.headers.len(),
                self@.position(name@, 0) == self@.position(name@, i as int),
            decreases self.headers.len() - i,
        {
            if names_match_bytes(self.headers[i].0.as_slice(), name) {
                return Some(&self.headers[i].1);
            }
            i = i + 1;
        }
        None
    }
}

/// What one line of a response's head says.
#[derive(Debug, PartialEq, Eq)]
pub enum HeaderLine {
    /// A status line, with its status code.
    Status(u16),
    /// A header: its name, and its value without the blanks around it.
    Field(Vec<u8>, Vec<u8>),
    /// The empty line that ends the head.
    Blank,
    /// Anything else.
    Malformed,
}

/// Mathematical value of a [`HeaderLine`].
pub enum HeaderLineView {
    Status(u16),
    Field(Seq<u8>, Seq<u8>),
    Blank,
    Malformed,
}

impl View for HeaderLine {
    type V = HeaderLineView;

    open spec fn view(&self) -> HeaderLineView {
        match *self {
            HeaderLine::Status(code) => HeaderLineView::Status(code),
            HeaderLine::Field(name, value) => HeaderLineView::Field(name@, value@),
            HeaderLine::Blank => HeaderLineView::Blank,
            HeaderLine::Malformed => HeaderLineView::Malformed,
        }
    }
}

pub const CR: u8 = 0x0d;

pub const LF: u8 = 0x0a;

pub const SPACE: u8 = 0x20;

pub const TAB: u8 = 0x09;

pub const COLON: u8 = 0x3a;

/// The line without its ending: a final CR LF, or a final LF alone, is
/// taken off.
pub open spec fn strip_eol(line: Seq<u8>) -> Seq<u8> {
    if line.len() >= 2 && line[line.len() - 2] == CR && line[line.len() - 1] == LF {
        line.take(line.len() - 2)
    } else if line.len() >= 1 && line[line.len() - 1] == LF {
        line.take(line.len() - 1)
    } else {
        line
    }
}

/// The position of the first `byte` in `s` at or after `from`; the length
/// of `s` if there is none.
pub open spec fn index_of(s: Seq<u8>, byte: u8, from: int) -> int
    decreases s.len() - from,
{
    if from < 0 || from >= s.len() {
        s.len() as int
    } else if s[from] == byte {
        from
    } else {
        index_of(s, byte, from + 1)
    }
}

/// A space or a tab.
pub open spec fn is_blank(b: u8) -> bool {
    b == SPACE || b == TAB
}

/// An ASCII digit.
pub open spec fn is_digit(b: u8) -> bool {
    0x30 <= b <= 0x39
}

/// Where the text of `s` begins once the blanks in front are skipped,
/// searching from `from`; the length of `s` if only blanks follow.
pub open spec fn text_start(s: Seq<u8>, from: int) -> int
    decreases s.len() - from,
{
    if from < 0 || from >= s.len() {
        s.len() as int
    } else if !is_blank(s[from]) {
        from
    } else {
        text_start(s, from + 1)
    }
}

/// Where the text of `s` ends once the blanks behind are dropped, when it
/// is known to end at or before `to` and to begin at or after `floor`.
pub open spec fn text_end(s: Seq<u8>, floor: int, to: int) -> int
    decreases to - floor,
{
    if to <= floor || to > s.len() {
        floor
    } else if !is_blank(s[to - 1]) {
        to
    } else {
        text_end(s, floor, to - 1)
    }
}

/// `s` without the blanks in front of it and behind it.
pub open spec fn trim(s: Seq<u8>) -> Seq<u8> {
    let start = text_start(s, 0);
    s.subrange(start, text_end(s, start, s.len() as int))
}

/// Whether the line, taken without its ending, opens as a status line
/// does: with `HTTP/`.
pub open spec fn opens_status(l: Seq<u8>) -> bool {
    l.len() >= 5 && l[0] == 0x48 && l[1] == 0x54 && l[2] == 0x54 && l[3] == 0x50 && l[4] == 0x2f
}

/// The status code of a status line: after the first space stand exactly
/// three digits, and after them the line ends or a space follows.
pub open spec fn status_code(l: Seq<u8>) -> Option<u16> {
    let sp = index_of(l, SPACE, 0);
    if sp + 4 <= l.len() && is_digit(l[sp + 1]) && is_digit(l[sp + 2]) && is_digit(l[sp + 3]) && (sp
        + 4 == l.len() || l[sp + 4] == SPACE) {
        Some(((l[sp + 1] - 0x30) * 100 + (l[sp + 2] - 0x30) * 10 + (l[sp + 3] - 0x30)) as u16)
    } else {
        None
    }
}

/// What a line of the head says.
///
/// Without its ending, a line is: empty, the end of the head; or it opens
/// with `HTTP/`, a status line if its code can be read; or it has a colon
/// that is not its first byte, a header whose name is what stands before
/// the first colon and whose value is the trimmed rest. Everything else is
/// malformed.
pub open spec fn classify_spec(line: Seq<u8>) -> HeaderLineView {
    let l = strip_eol(line);
    if l.len() == 0 {
        HeaderLineView::Blank
    } else if opens_status(l) {
        match status_code(l) {
            Some(code) => HeaderLineView::Status(code),
            None => HeaderLineView::Malformed,
        }
    } else {
        let colon = index_of(l, COLON, 0);
        if 0 < colon < l.len() {
            HeaderLineView::Field(l.take(colon), trim(l.skip(colon + 1)))
        } else {
            HeaderLineView::Malformed
        }
    }
}

/// The length of the line without its ending.
fn stripped_len(line: &[u8]) -> (n: usize)
    ensures
        n <= line.len(),
        strip_eol(line@) == line@.take(n as int),
{
    let len = line.len();
    if len >= 2 && line[len - 2] == CR && line[len - 1] == LF {
        len - 2
    } else if len >= 1 && line[len - 1] == LF {
        len - 1
    } else {
        len
    }
}

/// Finds the first `byte` among the first `n` bytes of `line`.
fn find(line: &[u8], n: usize, byte: u8) -> (at: usize)
    requires
        n <= line.len(),
    ensures
        at == index_of(line@.take(n as int), byte, 0),
        at <= n,
{
    let ghost l = line@.take(n as int);
    let mut i: usize = 0;
    while i < n
        invariant
            i <= n <= line.len(),
            l == line@.take(n as int),
            index_of(l, byte, 0) == index_of(l, byte, i as int),
        decreases n - i,
    {
        if line[i] == byte {
            return i;
        }
        i = i + 1;
    }
    n
}

fn blank(b: u8) -> (r: bool)
    ensures
        r == is_blank(b),
{
    b == SPACE || b == TAB
}

fn digit(b: u8) -> (r: bool)
    ensures
        r == is_digit(b),
{
    0x30 <= b && b <= 0x39
}

/// Copies the bytes of `line` from `from` up to `to`.
fn copy_range(line: &[u8], from: usize, to: usize) -> (out: Vec<u8>)
    requires
        from <= to <= line.len(),
    ensures
        out@ == line@.subrange(from as int, to as int),
{
    let mut out: Vec<u8> = Vec::new();
    let mut i: usize = from;
    while i < to
        invariant
            from <= i <= to <= line.len(),
            out@ == line@.subrange(from as int, i as int),
        decreases to - i,
    {
        out.push(line[i]);
        proof {
            assert(line@.subrange(from as int, i + 1) =~= line@.subrange(from as int, i as int).push(
                line@[i as int],
            ));
        }
        i = i + 1;
    }
    out
}

/// The trimmed bytes of `line` between `from` and `n`.
fn trimmed(line: &[u8], from: usize, n: usize) -> (out: Vec<u8>)
    requires
        from <= n <= line.len(),
    ensures
        out@ == trim(line@.subrange(from as int, n as int)),
{
    let ghost s = line@.subrange(from as int, n as int);
    let mut start: usize = from;
    while start < n && blank(line[start])
        invariant
            from <= start <= n <= line.len(),
            s == line@.subrange(from as int, n as int),
            text_start(s, 0) == text_start(s, start - from),
        decreases n - start,
    {
        start = start + 1;
    }
    let mut end: usize = n;
    while end > start && blank(line[end - 1])
        invariant
            from <= start <= end <= n <= line.len(),
            s == line@.subrange(from as int, n as int),
            text_start(s, 0) == start - from,
            text_end(s, start - from, s.len() as int) == text_end(s, start - from, end - from),
        decreases end - start,
    {
        end = end - 1;
    }
    let out = copy_range(line, start, end);
    out
}

/// Reads the status code of a status line of `n` bytes.
fn read_status(line: &[u8], n: usize) -> (code: Option<u16>)
    requires
        n <= line.len(),
    ensures
        code == status_code(line@.take(n as int)),
{
    let sp = find(line, n, SPACE);
    if sp <= n && n - sp >= 4 {
        let a = line[sp + 1];
        let b = line[sp + 2];
        let c = line[sp + 3];
        if digit(a) && digit(b) && digit(c) && (sp + 4 == n || line[sp + 4] == SPACE) {
            let hundreds: u16 = (a - 0x30) as u16;
            let tens: u16 = (b - 0x30) as u16;
            let units: u16 = (c - 0x30) as u16;
            return Some(hundreds * 100 + tens * 10 + units);
        }
    }
    None
}

/// Says what a line of the head is (see [`classify_spec`]).
pub fn classify(line: &[u8]) -> (out: HeaderLine)
    ensures
        out@ == classify_spec(line@),
{
    let n = stripped_len(line);
    let ghost l = line@.take(n as int);
    if n == 0 {
        return HeaderLine::Blank;
    }
    if n >= 5 && line[0] == 0x48 && line[1] == 0x54 && line[2] == 0x54 && line[3] == 0x50 && line[4]
        == 0x2f {
        return match read_status(line, n) {
            Some(code) => HeaderLine::Status(code),
            None => HeaderLine::Malformed,
        };
    }
    let colon = find(line, n, COLON);
    if 0 < colon && colon < n {
        let name = copy_range(line, 0, colon);
        let value = trimmed(line, colon + 1, n);
        proof {
            assert(line@.subrange(0, colon as int) =~= l.take(colon as int));
            assert(line@.subrange(colon + 1, n as int) =~= l.skip(colon + 1));
        }
        HeaderLine::Field(name, value)
    } else {
        HeaderLine::Malformed
    }
}

} // verus!
