//! A writer of JSON text: strings, numbers, arrays, and objects whose
//! members are written in the order given.

use vstd::prelude::*;
use vstd::string::*;
use crate::decimal::{decimal_text, digit_char};

verus! {

/// The JSON text of a string value as `serde_json` writes it: the string
/// between double quotes, with the escapes of its compact formatter.
pub uninterp spec fn json_string_text(s: Seq<char>) -> Seq<char>;

/// `serde_json::Error`, which is carried and never looked into.
#[verifier::external_type_specification]
#[verifier::external_body]
pub struct ExJsonError(serde_json::Error);

/// `serde_json::to_string`, called on a string slice.
///
/// Trusted: the call succeeds, and its text depends on the characters of
/// the slice alone. It succeeds because the text is written into a buffer
/// in memory, where a write does not fail, and a string slice is
/// serialised by one call of the serialiser's string writer.
#[verifier::external_body]
fn encode_string(s: &str) -> (r: Result<String, serde_json::Error>)
    ensures
        r is Ok,
        r matches Ok(text) ==> text@ == json_string_text(s@),
{
    serde_json::to_string(s)
}

/// One member of an object: a key, and the JSON text of its value.
#[derive(Debug, Clone, PartialEq, Eq)]
pub struct Member {
    /// The key as it is written between its quotes: it is not escaped.
    pub key: &'static str,
    /// The value, already written as JSON text.
    pub value: String,
}

/// The mathematical content of a [`Member`].
pub struct MemberView {
    pub key: Seq<char>,
    pub value: Seq<char>,
}

impl View for Member {
    type V = MemberView;

    open spec fn view(&self) -> MemberView {
        MemberView { key: self.key@, value: self.value@ }
    }
}

/// The contents of a list of texts.
pub open spec fn texts_of(parts: Seq<String>) -> Seq<Seq<char>> {
    parts.map_values(|part: String| part@)
}

/// The contents of a list of members.
pub open spec fn member_views(members: Seq<Member>) -> Seq<MemberView> {
    members.map_values(|member: Member| member@)
}

/// The keys of a list of members, in order.
pub open spec fn keys_of(members: Seq<MemberView>) -> Seq<Seq<char>> {
    members.map_values(|member: MemberView| member.key)
}

/// The parts one after the other, with a comma between neighbours.
pub open spec fn joined(parts: Seq<Seq<char>>) -> Seq<char>
    decreases parts.len(),
{
    if parts.len() == 0 {
        Seq::empty()
    } else if parts.len() == 1 {
        parts[0]
    } else {
        joined(parts.drop_last()) + seq![','] + parts.last()
    }
}

/// The JSON text of an array whose items have the given texts.
pub open spec fn array_text(items: Seq<Seq<char>>) -> Seq<char> {
    seq!['['] + joined(items) + seq![']']
}

/// The text of one member: the quoted key, a colon, the value.
pub open spec fn member_text(member: MemberView) -> Seq<char> {
    seq!['"'] + member.key + seq!['"', ':'] + member.value
}

/// The JSON text of an object with the given members, in their order.
pub open spec fn object_text(members: Seq<MemberView>) -> Seq<char> {
    seq!['{'] + joined(members.map_values(|member: MemberView| member_text(member))) + seq!['}']
}

/// Writes a string value.
pub fn write_string(s: &str) -> (text: String)
    ensures
        text@ == json_string_text(s@),
{
    encode_string(s).unwrap()
}

/// The text of one decimal digit.
fn digit_str(d: u32) -> (text: &'static str)
    requires
        d < 10,
    ensures
        text@ == seq![digit_char(d as nat)],
{
    proof {
        reveal_strlit("0");
        reveal_strlit("1");
        reveal_strlit("2");
        reveal_strlit("3");
        reveal_strlit("4");
        reveal_strlit("5");
        reveal_strlit("6");
        reveal_strlit("7");
        reveal_strlit("8");
        reveal_strlit("9");
    }
    let text = if d == 0 {
        "0"
    } else if d == 1 {
        "1"
    } else if d == 2 {
        "2"
    } else if d == 3 {
        "3"
    } else if d == 4 {
        "4"
    } else if d == 5 {
        "5"
    } else if d == 6 {
        "6"
    } else if d == 7 {
        "7"
    } else if d == 8 {
        "8"
    } else {
        "9"
    };
    assert(text@ =~= seq![digit_char(d as nat)]);
    text
}

/// Writes a number in decimal notation.
pub fn write_number(n: u32) -> (text: String)
    ensures
        text@ == decimal_text(n as nat),
    decreases n,
{
    let mut text = if n < 10 {
        String::new()
    } else {
        write_number(n / 10)
    };
    text.append(digit_str(n % 10));
    assert(text@ =~= decimal_text(n as nat));
    text
}

/// Writes the parts one after the other, with a comma between neighbours.
pub fn write_joined(parts: &Vec<String>) -> (text: String)
    ensures
        text@ == joined(texts_of(parts@)),
{
    let ghost all = texts_of(parts@);
    let mut text = String::new();
    let mut i: usize = 0;
    while i < parts.len()
        invariant
            i <= parts.len(),
            all == texts_of(parts@),
            text@ == joined(all.subrange(0, i as int)),
        decreases parts.len() - i,
    {
        let ghost before = all.subrange(0, i as int);
        let ghost after = all.subrange(0, i + 1);
        assert(after.drop_last() =~= before);
        assert(after.last() == parts@[i as int]@);
        if i > 0 {
            proof {
                reveal_strlit(",");
            }
            text.append(",");
            assert(","@ =~= seq![',']);
        }
        text.append(parts[i].as_str());
        assert(text@ =~= joined(after));
        i = i + 1;
    }
    assert(all.subrange(0, i as int) =~= all);
    text
}

/// Writes an array whose items are already written.
pub fn write_array(items: &Vec<String>) -> (text: String)
    ensures
        text@ == array_text(texts_of(items@)),
{
    proof {
        reveal_strlit("[");
        reveal_strlit("]");
    }
    let mut text = String::from_str("[");
    let inner = write_joined(items);
    text.append(inner.as_str());
    text.append("]");
    assert(text@ =~= array_text(texts_of(items@)));
    text
}

/// Writes one member.
fn write_member(member: &Member) -> (text: String)
    ensures
        text@ == member_text(member@),
{
    proof {
        reveal_strlit("\"");
        reveal_strlit("\":");
    }
    let mut text = String::from_str("\"");
    text.append(member.key);
    text.append("\":");
    text.append(member.value.as_str());
    assert(text@ =~= member_text(member@));
    text
}

/// Writes an object whose members' values are already written.
pub fn write_object(members: &Vec<Member>) -> (text: String)
    ensures
        text@ == object_text(member_views(members@)),
{
    let mut parts: Vec<String> = Vec::new();
    let mut i: usize = 0;
    while i < members.len()
        invariant
            i <= members.len(),
            parts@.len() == i,
            forall|j: int| 0 <= j < i ==> (#[trigger] parts@[j])@ == member_text(members@[j]@),
        decreases members.len() - i,
    {
        let part = write_member(&members[i]);
        parts.push(part);
        i = i + 1;
    }
    assert(texts_of(parts@) =~= member_views(members@).map_values(
        |member: MemberView| member_text(member),
    ));
    proof {
        reveal_strlit("{");
        reveal_strlit("}");
    }
    let mut text = String::from_str("{");
    let inner = write_joined(&parts);
    text.append(inner.as_str());
    text.append("}");
    assert(text@ =~= object_text(member_views(members@)));
    text
}

} // verus!
