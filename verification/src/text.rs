//! Text that is put together for the engine: joined lists, header lines and
//! the client's product token.

use vstd::prelude::*;
use vstd::string::StringExecFns;
use vstd::string::StringSliceAdditionalSpecFns;

verus! {

/// `parts`, written one after the other with `sep` between neighbours.
pub open spec fn join_spec(parts: Seq<Seq<char>>, sep: Seq<char>) -> Seq<char>
    decreases parts.len(),
{
    if parts.len() == 0 {
        Seq::<char>::empty()
    } else if parts.len() == 1 {
        parts[0]
    } else {
        join_spec(parts.drop_last(), sep) + sep + parts.last()
    }
}

/// Joins `parts` with `sep` between neighbours.
pub fn join(parts: &Vec<String>, sep: &str) -> (out: String)
    ensures
        out@ == join_spec(parts.deep_view(), sep@),
{
    let mut out = String::new();
    let mut i: usize = 0;
    while i < parts.len()
        invariant
            i <= parts.len(),
            out@ == join_spec(parts.deep_view().take(i as int), sep@),
        decreases parts.len() - i,
    {
        proof {
            let all = parts.deep_view();
            assert(all.take(i + 1).drop_last() =~= all.take(i as int));
        }
        if i > 0 {
            out.append(sep);
        }
        out.append(parts[i].as_str());
        i = i + 1;
    }
    proof {
        assert(parts.deep_view().take(parts.len() as int) =~= parts.deep_view());
    }
    out
}

/// A header as the engine takes it: the name, a colon, a space, the value.
pub open spec fn header_line_spec(name: Seq<char>, value: Seq<char>) -> Seq<char> {
    name + ": "@ + value
}

/// Writes a header the way the engine takes it.
pub fn header_line(name: &str, value: &str) -> (line: String)
    ensures
        line@ == header_line_spec(name@, value@),
{
    let mut line = String::from_str(name);
    line.append(": ");
    line.append(value);
    line
}

/// The product token a client sends when a request names none: the
/// engine's name and version, then this library's.
pub open spec fn user_agent_spec(engine_version: Seq<char>, library_version: Seq<char>) -> Seq<char> {
    "curl/"@ + engine_version + " chttp/"@ + library_version
}

/// Builds the default product token from the two version texts.
pub fn user_agent(engine_version: &str, library_version: &str) -> (agent: String)
    ensures
        agent@ == user_agent_spec(engine_version@, library_version@),
{
    let mut agent = String::from_str("curl/");
    agent.append(engine_version);
    agent.append(" chttp/");
    agent.append(library_version);
    agent
}

/// Whether a character can stand in a header value: a tab, or ASCII from
/// the space to the tilde.
pub open spec fn is_visible(c: char) -> bool {
    c == '\t' || (' ' <= c && c <= '~')
}

/// Whether a text can stand as a header value: every character of it can.
pub open spec fn visible_text(text: Seq<char>) -> bool {
    forall|i: int| 0 <= i < text.len() ==> is_visible(#[trigger] text[i])
}

/// A text put together from texts that can stand as header values can
/// stand as one.
pub proof fn lemma_visible_concat(first: Seq<char>, second: Seq<char>)
    requires
        visible_text(first),
        visible_text(second),
    ensures
        visible_text(first + second),
{
}

/// Says whether a text can stand as a header value.
pub fn visible(text: &str) -> (yes: bool)
    ensures
        yes == visible_text(text@),
{
    if !text.is_ascii() {
        proof {
            // A text of which every character can stand is ASCII.
            if visible_text(text@) {
                assert forall|i: int| 0 <= i < text@.len() implies '\0' <= #[trigger] text@[i]
                    <= '\u{7f}' by {
                    assert(is_visible(text@[i]));
                }
            }
        }
        return false;
    }
    proof {
        // An ASCII text has one byte for each character.
        vstd::string::is_ascii_spec_bytes(text);
    }
    let bytes = text.as_bytes();
    let mut i: usize = 0;
    while i < bytes.len()
        invariant
            i <= bytes.len(),
            bytes@.len() == text@.len(),
            forall|j: int| 0 <= j < bytes@.len() ==> bytes@[j] == (#[trigger] text@[j]) as u8,
            forall|j: int| 0 <= j < text@.len() ==> '\0' <= (#[trigger] text@[j]) <= '\u{7f}',
            forall|j: int| 0 <= j < i ==> is_visible(#[trigger] text@[j]),
        decreases bytes.len() - i,
    {
        let b = bytes[i];
        assert(b as int == text@[i as int] as int);
        if !(b == 0x09 || (0x20 <= b && b <= 0x7e)) {
            assert(!is_visible(text@[i as int]));
            return false;
        }
        i = i + 1;
    }
    true
}

/// An ASCII capital letter as its small letter; any other byte unchanged.
pub open spec fn fold_byte(b: u8) -> u8 {
    if 0x41 <= b <= 0x5a {
        (b + 0x20) as u8
    } else {
        b
    }
}

/// Whether two byte strings are the same header name: equal up to the case
/// of ASCII letters.
pub open spec fn same_name_bytes(a: Seq<u8>, b: Seq<u8>) -> bool {
    &&& a.len() == b.len()
    &&& forall|i: int| 0 <= i < a.len() ==> fold_byte(#[trigger] a[i]) == fold_byte(b[i])
}

/// Whether two texts are the same header name.
pub open spec fn same_name(a: Seq<char>, b: Seq<char>) -> bool {
    same_name_bytes(vstd::utf8::encode_utf8(a), vstd::utf8::encode_utf8(b))
}

/// Folds one byte (see [`fold_byte`]).
pub fn fold(b: u8) -> (f: u8)
    ensures
        f == fold_byte(b),
{
    if 0x41 <= b && b <= 0x5a {
        b + 0x20
    } else {
        b
    }
}

/// Compares two byte strings as header names.
pub fn names_match_bytes(a: &[u8], b: &[u8]) -> (same: bool)
    ensures
        same == same_name_bytes(a@, b@),
{
    if a.len() != b.len() {
        return false;
    }
    let mut i: usize = 0;
    while i < a.len()
        invariant
            i <= a.len(),
            a.len() == b.len(),
            forall|j: int| 0 <= j < i ==> fold_byte(#[trigger] a@[j]) == fold_byte(b@[j]),
        decreases a.len() - i,
    {
        if fold(a[i]) != fold(b[i]) {
            return false;
        }
        i = i + 1;
    }
    true
}

/// Compares two texts as header names.
pub fn names_match(a: &str, b: &str) -> (same: bool)
    ensures
        same == same_name(a@, b@),
{
    names_match_bytes(a.as_bytes(), b.as_bytes())
}

} // verus!
