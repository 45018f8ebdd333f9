//! Parsing of `host[:port]` addresses.

use vstd::prelude::*;
use crate::decimal::{
    decimal_text, is_digit, lemma_u16_text_round_trip, u16_in, u16_of_text, unsigned_part,
};
use crate::status::StatusError;
use crate::text::chars_of;

verus! {

/// The port a server listens on when the address names none.
pub const DEFAULT_PORT: u16 = 25565;

/// Where a probe connects to: a host, never empty, and a port.
#[derive(Debug, PartialEq, Eq)]
pub struct ProbeTarget {
    host: String,
    port: u16,
}

/// The mathematical content of a [`ProbeTarget`].
pub struct ProbeTargetView {
    pub host: Seq<char>,
    pub port: int,
}

impl View for ProbeTarget {
    type V = ProbeTargetView;

    closed spec fn view(&self) -> ProbeTargetView {
        ProbeTargetView { host: self.host@, port: self.port as int }
    }
}

impl Clone for ProbeTarget {
    fn clone(&self) -> (copy: Self)
        ensures
            copy@ == self@,
    {
        proof {
            use_type_invariant(self);
        }
        ProbeTarget { host: self.host.clone(), port: self.port }
    }
}

impl ProbeTarget {
    #[verifier::type_invariant]
    spec fn well_formed(&self) -> bool {
        self.host@.len() > 0
    }

    /// The host to connect to.
    pub fn host(&self) -> (host: &str)
        ensures
            host@ == self@.host,
            host@.len() > 0,
    {
        proof {
            use_type_invariant(self);
        }
        self.host.as_str()
    }

    /// The port to connect to.
    pub fn port(&self) -> (port: u16)
        ensures
            port == self@.port,
    {
        self.port
    }
}

/// The index of the first `:` of `s` at or after `from`, or the length of
/// `s` if there is none.
pub open spec fn segment_end(s: Seq<char>, from: int) -> int
    decreases s.len() - from,
{
    if from >= s.len() {
        s.len() as int
    } else if s[from] == ':' {
        from
    } else {
        segment_end(s, from + 1)
    }
}

/// The host part of an address: everything before its first `:`.
pub open spec fn host_of(s: Seq<char>) -> Seq<char> {
    s.subrange(0, segment_end(s, 0))
}

/// The port part of an address: what stands between its first `:` and its
/// second (or its end). `None` if the address has no `:`.
pub open spec fn port_text_of(s: Seq<char>) -> Option<Seq<char>> {
    let colon = segment_end(s, 0);
    if colon >= s.len() {
        None
    } else {
        Some(s.subrange(colon + 1, segment_end(s, colon + 1)))
    }
}

/// The port of an address: the number its port part denotes, and
/// [`DEFAULT_PORT`] where the part is missing or denotes none.
pub open spec fn port_of(s: Seq<char>) -> u16 {
    match port_text_of(s) {
        Some(text) => match u16_of_text(text) {
            Some(port) => port,
            None => DEFAULT_PORT,
        },
        None => DEFAULT_PORT,
    }
}

/// The target an address names, if it names a host at all.
pub open spec fn target_of(s: Seq<char>) -> Option<ProbeTargetView> {
    if host_of(s).len() == 0 {
        None
    } else {
        Some(ProbeTargetView { host: host_of(s), port: port_of(s) as int })
    }
}

/// `segment_end` stops at a `:` or at the end, and passes over no `:`.
pub proof fn lemma_segment_end(s: Seq<char>, from: int)
    requires
        0 <= from <= s.len(),
    ensures
        from <= segment_end(s, from) <= s.len(),
        segment_end(s, from) < s.len() ==> s[segment_end(s, from)] == ':',
        forall|i: int| from <= i < segment_end(s, from) ==> s[i] != ':',
    decreases s.len() - from,
{
    if from < s.len() && s[from] != ':' {
        lemma_segment_end(s, from + 1);
    }
}

/// An index that is a `:` or the end, with no `:` between `from` and it, is
/// the segment's end.
pub proof fn lemma_segment_end_unique(s: Seq<char>, from: int, end: int)
    requires
        0 <= from <= end <= s.len(),
        end < s.len() ==> s[end] == ':',
        forall|i: int| from <= i < end ==> s[i] != ':',
    ensures
        segment_end(s, from) == end,
    decreases end - from,
{
    if from < end {
        lemma_segment_end_unique(s, from + 1, end);
    }
}

/// An address without a colon has the default port.
pub proof fn lemma_no_colon_default_port(s: Seq<char>)
    requires
        !s.contains(':'),
    ensures
        port_of(s) == DEFAULT_PORT,
        host_of(s) == s,
{
    lemma_segment_end(s, 0);
    assert(host_of(s) =~= s);
}

/// In `host:text`, where neither part holds a colon, the host is `host` and
/// the port is the number that `text` denotes, or the default port if it
/// denotes none: the address is not refused for its port.
pub proof fn lemma_host_and_port(host: Seq<char>, text: Seq<char>)
    requires
        !host.contains(':'),
        !text.contains(':'),
    ensures
        host_of(host + seq![':'] + text) == host,
        port_text_of(host + seq![':'] + text) == Some(text),
        port_of(host + seq![':'] + text) == match u16_of_text(text) {
            Some(port) => port,
            None => DEFAULT_PORT,
        },
        host.len() > 0 ==> target_of(host + seq![':'] + text) is Some,
{
    let s = host + seq![':'] + text;
    let colon = host.len() as int;
    assert forall|i: int| 0 <= i < colon implies s[i] != ':' by {
        assert(s[i] == host[i]);
    }
    assert(s[colon] == ':');
    lemma_segment_end_unique(s, 0, colon);
    assert forall|i: int| colon + 1 <= i < s.len() implies s[i] != ':' by {
        assert(s[i] == text[i - colon - 1]);
    }
    lemma_segment_end_unique(s, colon + 1, s.len() as int);
    assert(s.subrange(0, colon) =~= host);
    assert(s.subrange(colon + 1, s.len() as int) =~= text);
}

/// In `host:N`, where `N` is the text of a 16-bit number, the port is that
/// number.
pub proof fn lemma_valid_port_is_taken(host: Seq<char>, text: Seq<char>)
    requires
        !host.contains(':'),
        u16_of_text(text) is Some,
    ensures
        port_of(host + seq![':'] + text) == u16_of_text(text).unwrap(),
{
    assert(!text.contains(':')) by {
        if text.contains(':') {
            let i = choose|i: int| 0 <= i < text.len() && text[i] == ':';
            let digits = unsigned_part(text);
            if text[0] == '+' {
                assert(i > 0);
                assert(is_digit(digits[i - 1]));
            } else {
                assert(is_digit(digits[i]));
            }
        }
    }
    lemma_host_and_port(host, text);
}

/// In `host:N`, where `N` is the decimal notation of a 16-bit number, the
/// port is that number.
pub proof fn lemma_port_is_number(host: Seq<char>, n: u16)
    requires
        !host.contains(':'),
    ensures
        port_of(host + seq![':'] + decimal_text(n as nat)) == n,
{
    lemma_u16_text_round_trip(n);
    lemma_valid_port_is_taken(host, decimal_text(n as nat));
}

/// An address names no host exactly if it is empty or begins with a colon.
pub proof fn lemma_empty_host(s: Seq<char>)
    ensures
        target_of(s) is None <==> (s.len() == 0 || s[0] == ':'),
{
    lemma_segment_end(s, 0);
}

/// Finds the end of the segment that begins at `from`.
fn find_segment_end(chars: &Vec<char>, from: usize) -> (end: usize)
    requires
        from <= chars.len(),
    ensures
        end == segment_end(chars@, from as int),
        from <= end <= chars.len(),
{
    let mut i: usize = from;
    while i < chars.len() && chars[i] != ':'
        invariant
            from <= i <= chars.len(),
            forall|j: int| from <= j < i ==> chars@[j] != ':',
        decreases chars.len() - i,
    {
        i = i + 1;
    }
    proof {
        lemma_segment_end_unique(chars@, from as int, i as int);
    }
    i
}

/// Splits `host[:port]` into a target.
///
/// The host is what stands before the first colon; an address without a
/// host is refused as [`StatusError::InvalidInput`]. The port is read from
/// what stands between the first colon and the second; where that is
/// missing or is no 16-bit number, the port is [`DEFAULT_PORT`].
pub fn parse_address(address: &str) -> (r: Result<ProbeTarget, StatusError>)
    ensures
        match r {
            Ok(target) => target_of(address@) == Some(target@),
            Err(e) => e == StatusError::InvalidInput && target_of(address@) is None,
        },
{
    let chars = chars_of(address);
    let colon = find_segment_end(&chars, 0);
    if colon == 0 {
        return Err(StatusError::InvalidInput);
    }
    let port = if colon < chars.len() {
        let end = find_segment_end(&chars, colon + 1);
        match u16_in(&chars, colon + 1, end) {
            Some(port) => port,
            None => DEFAULT_PORT,
        }
    } else {
        DEFAULT_PORT
    };
    let host = address.substring_char(0, colon).to_owned();
    Ok(ProbeTarget { host, port })
}

} // verus!
