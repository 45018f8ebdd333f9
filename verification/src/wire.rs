//! The wire format of the structured answer: which keys an object holds, in
//! which order, and which of them are left out.
//!
//! A field that is absent is left out with its key; none is ever written as
//! `null`. A sample of players is left out when it is empty, too: it is
//! never written as an empty list. The message of the day is always written
//! as a bare string.

use vstd::prelude::*;
use crate::decimal::decimal_text;
use crate::json::{
    array_text, joined, json_string_text, keys_of, member_text, member_views, object_text,
    texts_of, write_array, write_number, write_object, write_string, Member, MemberView,
};
use crate::status::{
    player_views, Response, ResponseView, ServerPlayerDef, ServerPlayerView, ServerPlayersDef,
    ServerPlayersView, ServerVersionDef, ServerVersionView, StatusError, StatusResponseDef,
    StatusResponseView,
};

verus! {

/// The members of a version: `name`, `protocol`.
pub open spec fn version_members(version: ServerVersionView) -> Seq<MemberView> {
    seq![
        MemberView { key: "name"@, value: json_string_text(version.name) },
        MemberView { key: "protocol"@, value: decimal_text(version.protocol) },
    ]
}

/// The JSON text of a version.
pub open spec fn version_text(version: ServerVersionView) -> Seq<char> {
    object_text(version_members(version))
}

/// The members of a player: `name`, `id`.
pub open spec fn player_members(player: ServerPlayerView) -> Seq<MemberView> {
    seq![
        MemberView { key: "name"@, value: json_string_text(player.name) },
        MemberView { key: "id"@, value: json_string_text(player.id) },
    ]
}

/// The JSON text of a player.
pub open spec fn player_text(player: ServerPlayerView) -> Seq<char> {
    object_text(player_members(player))
}

/// The texts of a list of players, in order.
pub open spec fn player_texts(players: Seq<ServerPlayerView>) -> Seq<Seq<char>> {
    Seq::new(players.len(), |i: int| player_text(players[i]))
}

/// Whether a player summary has players to show: a sample that is present
/// and not empty.
pub open spec fn has_sample(players: ServerPlayersView) -> bool {
    players.sample matches Some(sample) && sample.len() > 0
}

/// The members of a player summary: `max`, `online`, and `sample` where
/// there are players to show.
pub open spec fn players_members(players: ServerPlayersView) -> Seq<MemberView> {
    let counts = seq![
        MemberView { key: "max"@, value: decimal_text(players.max) },
        MemberView { key: "online"@, value: decimal_text(players.online) },
    ];
    if has_sample(players) {
        counts.push(
            MemberView {
                key: "sample"@,
                value: array_text(player_texts(players.sample.unwrap())),
            },
        )
    } else {
        counts
    }
}

/// The JSON text of a player summary.
pub open spec fn players_text(players: ServerPlayersView) -> Seq<char> {
    object_text(players_members(players))
}

/// The members of a status record: `version`, `players`, `description`, and
/// `favicon` where an icon is present. The description is the message as a
/// string, whatever shape it came in.
pub open spec fn status_members(record: StatusResponseView) -> Seq<MemberView> {
    let fixed = seq![
        MemberView { key: "version"@, value: version_text(record.version) },
        MemberView { key: "players"@, value: players_text(record.players) },
        MemberView { key: "description"@, value: json_string_text(record.description.message()) },
    ];
    match record.favicon {
        Some(icon) => fixed.push(MemberView { key: "favicon"@, value: json_string_text(icon) }),
        None => fixed,
    }
}

/// The JSON text of a status record.
pub open spec fn status_text(record: StatusResponseView) -> Seq<char> {
    object_text(status_members(record))
}

/// An error as a JSON value: its tag between double quotes.
pub open spec fn error_text(error: StatusError) -> Seq<char> {
    seq!['"'] + error.tag_text() + seq!['"']
}

/// The members of an envelope: `err` where an error is present, then
/// `result` where a record is present.
pub open spec fn response_members(response: ResponseView) -> Seq<MemberView> {
    let err = match response.err {
        Some(error) => seq![MemberView { key: "err"@, value: error_text(error) }],
        None => Seq::empty(),
    };
    let result = match response.result {
        Some(record) => seq![MemberView { key: "result"@, value: status_text(record) }],
        None => Seq::empty(),
    };
    err + result
}

/// The JSON text of an envelope.
pub open spec fn response_text(response: ResponseView) -> Seq<char> {
    object_text(response_members(response))
}

impl ServerVersionDef {
    /// This version as JSON text.
    pub fn to_json(&self) -> (text: String)
        ensures
            text@ == version_text(self@),
    {
        let mut members: Vec<Member> = Vec::new();
        members.push(Member { key: "name", value: write_string(self.name.as_str()) });
        members.push(Member { key: "protocol", value: write_number(self.protocol) });
        assert(member_views(members@) =~= version_members(self@));
        write_object(&members)
    }
}

impl ServerPlayerDef {
    /// This player as JSON text.
    pub fn to_json(&self) -> (text: String)
        ensures
            text@ == player_text(self@),
    {
        let mut members: Vec<Member> = Vec::new();
        members.push(Member { key: "name", value: write_string(self.name.as_str()) });
        members.push(Member { key: "id", value: write_string(self.id.as_str()) });
        assert(member_views(members@) =~= player_members(self@));
        write_object(&members)
    }
}

impl ServerPlayersDef {
    /// This player summary as JSON text.
    pub fn to_json(&self) -> (text: String)
        ensures
            text@ == players_text(self@),
    {
        let mut members: Vec<Member> = Vec::new();
        members.push(Member { key: "max", value: write_number(self.max) });
        members.push(Member { key: "online", value: write_number(self.online) });
        match &self.sample {
            Some(sample) if sample.len() > 0 => {
                let mut items: Vec<String> = Vec::new();
                let mut i: usize = 0;
                while i < sample.len()
                    invariant
                        i <= sample.len(),
                        items@.len() == i,
                        forall|j: int|
                            0 <= j < i ==> (#[trigger] items@[j])@ == player_text(sample@[j]@),
                    decreases sample.len() - i,
                {
                    let item = sample[i].to_json();
                    items.push(item);
                    i = i + 1;
                }
                assert(texts_of(items@) =~= player_texts(player_views(sample@)));
                members.push(Member { key: "sample", value: write_array(&items) });
            },
            _ => {},
        }
        assert(member_views(members@) =~= players_members(self@));
        write_object(&members)
    }
}

impl StatusResponseDef {
    /// This status record as JSON text.
    pub fn to_json(&self) -> (text: String)
        ensures
            text@ == status_text(self@),
    {
        let mut members: Vec<Member> = Vec::new();
        members.push(Member { key: "version", value: self.version.to_json() });
        members.push(Member { key: "players", value: self.players.to_json() });
        members.push(
            Member { key: "description", value: write_string(self.description.message()) },
        );
        match &self.favicon {
            Some(icon) => {
                members.push(Member { key: "favicon", value: write_string(icon.as_str()) });
            },
            None => {},
        }
        assert(member_views(members@) =~= status_members(self@));
        write_object(&members)
    }
}

impl StatusError {
    /// This error as JSON text: its tag between double quotes.
    pub fn to_json(&self) -> (text: String)
        ensures
            text@ == error_text(*self),
    {
        proof {
            reveal_strlit("\"");
        }
        let mut text = String::from_str("\"");
        text.append(self.tag());
        text.append("\"");
        assert(text@ =~= error_text(*self));
        text
    }
}

impl Response {
    /// This envelope as JSON text.
    pub fn to_json(&self) -> (text: String)
        ensures
            text@ == response_text(self@),
    {
        let mut members: Vec<Member> = Vec::new();
        match &self.err {
            Some(error) => {
                members.push(Member { key: "err", value: error.to_json() });
            },
            None => {},
        }
        match &self.result {
            Some(record) => {
                members.push(Member { key: "result", value: record.to_json() });
            },
            None => {},
        }
        assert(member_views(members@) =~= response_members(self@));
        write_object(&members)
    }
}

/// Two status records that differ at most in the shape their message of the
/// day came in are written as the same text.
pub proof fn lemma_description_shape_is_not_written(a: StatusResponseView, b: StatusResponseView)
    requires
        a.version == b.version,
        a.players == b.players,
        a.favicon == b.favicon,
        a.description.message() == b.description.message(),
    ensures
        status_text(a) == status_text(b),
        response_text(ResponseView { err: None, result: Some(a) }) == response_text(
            ResponseView { err: None, result: Some(b) },
        ),
{
}

/// A player summary has the key `sample` exactly if it has players to show:
/// not if its sample is absent, and not if it is empty.
pub proof fn lemma_sample_key(players: ServerPlayersView)
    ensures
        keys_of(players_members(players)).contains("sample"@) <==> has_sample(players),
        players.sample is None ==> !keys_of(players_members(players)).contains("sample"@),
        keys_of(players_members(players)) =~= if has_sample(players) {
            seq!["max"@, "online"@, "sample"@]
        } else {
            seq!["max"@, "online"@]
        },
{
    reveal_strlit("max");
    reveal_strlit("online");
    reveal_strlit("sample");
    let keys = keys_of(players_members(players));
    assert("max"@.len() != "sample"@.len());
    assert("online"@[0] != "sample"@[0]);
    if has_sample(players) {
        assert(keys[2] == "sample"@);
    }
}

/// A player summary without players to show is written as its two counts
/// and nothing else.
pub proof fn lemma_players_without_sample(players: ServerPlayersView)
    requires
        !has_sample(players),
    ensures
        players_text(players) == seq!['{', '"', 'm', 'a', 'x', '"', ':'] + decimal_text(
            players.max,
        ) + seq![',', '"', 'o', 'n', 'l', 'i', 'n', 'e', '"', ':'] + decimal_text(players.online)
            + seq!['}'],
{
    reveal_strlit("max");
    reveal_strlit("online");
    let members = players_members(players);
    let texts = members.map_values(|member: MemberView| member_text(member));
    assert(texts.len() == 2);
    assert(texts.drop_last() =~= seq![texts[0]]);
    assert(joined(texts.drop_last()) == texts[0]);
    assert(joined(texts) == texts[0] + seq![','] + texts[1]);
    assert(players_text(players) =~= seq!['{', '"', 'm', 'a', 'x', '"', ':'] + decimal_text(
        players.max,
    ) + seq![',', '"', 'o', 'n', 'l', 'i', 'n', 'e', '"', ':'] + decimal_text(players.online)
        + seq!['}']);
}

/// A status record has the key `favicon` exactly if it has an icon.
pub proof fn lemma_favicon_key(record: StatusResponseView)
    ensures
        keys_of(status_members(record)).contains("favicon"@) <==> record.favicon is Some,
        keys_of(status_members(record)) =~= if record.favicon is Some {
            seq!["version"@, "players"@, "description"@, "favicon"@]
        } else {
            seq!["version"@, "players"@, "description"@]
        },
{
    reveal_strlit("version");
    reveal_strlit("players");
    reveal_strlit("description");
    reveal_strlit("favicon");
    let keys = keys_of(status_members(record));
    assert("version"@[0] != "favicon"@[0]);
    assert("players"@[0] != "favicon"@[0]);
    assert("description"@[0] != "favicon"@[0]);
    if record.favicon is Some {
        assert(keys[3] == "favicon"@);
    }
}

/// An envelope has the key `err` exactly if it holds an error, and the key
/// `result` exactly if it holds a record.
pub proof fn lemma_envelope_keys(response: ResponseView)
    ensures
        keys_of(response_members(response)).contains("err"@) <==> response.err is Some,
        keys_of(response_members(response)).contains("result"@) <==> response.result is Some,
        response.exclusive() ==> keys_of(response_members(response)).len() == 1,
{
    reveal_strlit("err");
    reveal_strlit("result");
    let keys = keys_of(response_members(response));
    assert("err"@.len() != "result"@.len());
    if response.err is Some {
        assert(keys[0] == "err"@);
    }
    if response.result is Some {
        assert(keys[keys.len() - 1] == "result"@);
    }
}

} // verus!
