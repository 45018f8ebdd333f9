//! The answers of the two endpoints, shaped from the outcome of a probe.
//!
//! The plain-text endpoint says whether the server is online, and no more:
//! every failure gives the same answer, with a status code that tells the
//! failure. The structured endpoint always answers with a success code, and
//! tells a failure by the `err` field of its envelope alone.

use vstd::prelude::*;
use vstd::utf8::encode_utf8;
use crate::json::{joined, member_text, MemberView};
use crate::probe::{ProbeOutcome, ProbeOutcomeView};
use crate::status::{Response, ResponseView, StatusError};
use crate::wire::{response_members, response_text, status_text};

verus! {

/// The status code of a successful answer.
pub const HTTP_OK: u16 = 200;

/// The status code that tells that the server could not be reached.
pub const HTTP_SERVICE_UNAVAILABLE: u16 = 503;

/// The answer of the plain-text endpoint.
#[derive(Debug, Clone, Copy, PartialEq, Eq)]
pub struct TextAnswer {
    pub code: u16,
    pub body: &'static str,
}

/// The answer of the structured endpoint.
#[derive(Debug, Clone, PartialEq, Eq)]
pub struct JsonAnswer {
    pub code: u16,
    pub body: Response,
}

/// The status code of the plain-text answer to an outcome.
pub open spec fn text_code(outcome: ProbeOutcomeView) -> u16 {
    if outcome is Success {
        HTTP_OK
    } else {
        HTTP_SERVICE_UNAVAILABLE
    }
}

/// The body of the plain-text answer to an outcome.
pub open spec fn text_body(outcome: ProbeOutcomeView) -> Seq<char> {
    if outcome is Success {
        "Online"@
    } else {
        "Offline"@
    }
}

/// The envelope of the structured answer to an outcome: the record of a
/// success, the error tag of a failure.
pub open spec fn envelope(outcome: ProbeOutcomeView) -> ResponseView {
    match outcome {
        ProbeOutcomeView::Success(record) => ResponseView { err: None, result: Some(record) },
        _ => ResponseView { err: outcome.error(), result: None },
    }
}

/// Whether `answer` is the plain-text answer to `outcome`.
pub open spec fn is_text_answer(outcome: ProbeOutcomeView, answer: TextAnswer) -> bool {
    answer.code == text_code(outcome) && answer.body@ == text_body(outcome)
}

/// Whether `answer` is the structured answer to `outcome`: always a success
/// code, and the envelope of the outcome.
pub open spec fn is_json_answer(outcome: ProbeOutcomeView, answer: JsonAnswer) -> bool {
    answer.code == HTTP_OK && answer.body@ == envelope(outcome)
}

/// Shapes the plain-text answer.
pub fn status(outcome: &ProbeOutcome) -> (answer: TextAnswer)
    ensures
        is_text_answer(outcome@, answer),
{
    match outcome {
        ProbeOutcome::Success(_) => TextAnswer { code: HTTP_OK, body: "Online" },
        _ => TextAnswer { code: HTTP_SERVICE_UNAVAILABLE, body: "Offline" },
    }
}

/// Shapes the structured answer.
pub fn status_json(outcome: ProbeOutcome) -> (answer: JsonAnswer)
    ensures
        is_json_answer(outcome@, answer),
        answer.body@.exclusive(),
{
    let body = match outcome {
        ProbeOutcome::Success(record) => Response { err: None, result: Some(record) },
        ProbeOutcome::ProtocolFailure => Response {
            err: Some(StatusError::ProtocolError),
            result: None,
        },
        ProbeOutcome::Timeout => Response { err: Some(StatusError::Timeout), result: None },
        ProbeOutcome::InvalidInput => Response {
            err: Some(StatusError::InvalidInput),
            result: None,
        },
    };
    JsonAnswer { code: HTTP_OK, body }
}

/// The envelope of every outcome holds exactly one of an error and a
/// record: a record exactly for a success.
pub proof fn lemma_envelope_is_exclusive(outcome: ProbeOutcomeView)
    ensures
        envelope(outcome).exclusive(),
        envelope(outcome).result is Some <==> outcome is Success,
        envelope(outcome).err == outcome.error(),
{
}

/// The plain-text answer does not tell one failure from another.
pub proof fn lemma_text_hides_the_failure(a: ProbeOutcomeView, b: ProbeOutcomeView)
    requires
        !(a is Success),
        !(b is Success),
    ensures
        text_code(a) == text_code(b),
        text_body(a) == text_body(b),
        text_code(a) == HTTP_SERVICE_UNAVAILABLE,
{
}

/// Shaping is a function of the outcome: two answers shaped from the same
/// outcome are the same, and the texts of their envelopes are the same
/// character for character, and so byte for byte.
pub proof fn lemma_same_outcome_same_answer(
    outcome: ProbeOutcomeView,
    first_text: TextAnswer,
    second_text: TextAnswer,
    first_json: JsonAnswer,
    second_json: JsonAnswer,
)
    requires
        is_text_answer(outcome, first_text),
        is_text_answer(outcome, second_text),
        is_json_answer(outcome, first_json),
        is_json_answer(outcome, second_json),
    ensures
        first_text.code == second_text.code,
        first_text.body@ == second_text.body@,
        first_json.code == second_json.code,
        first_json.body@ == second_json.body@,
        response_text(first_json.body@) == response_text(second_json.body@),
        encode_utf8(first_text.body@) == encode_utf8(second_text.body@),
        encode_utf8(response_text(first_json.body@)) == encode_utf8(
            response_text(second_json.body@),
        ),
{
}

/// The structured answer to a failure is the object whose one member is
/// `err`, with the tag of the failure as its value.
pub proof fn lemma_failure_body(outcome: ProbeOutcomeView)
    requires
        !(outcome is Success),
    ensures
        outcome.error() is Some,
        response_text(envelope(outcome)) == seq!['{', '"', 'e', 'r', 'r', '"', ':', '"']
            + outcome.error().unwrap().tag_text() + seq!['"', '}'],
{
    reveal_strlit("err");
    let members = response_members(envelope(outcome));
    let texts = members.map_values(|member: MemberView| member_text(member));
    assert(members.len() == 1);
    assert(joined(texts) == texts[0]);
    assert(response_text(envelope(outcome)) =~= seq!['{', '"', 'e', 'r', 'r', '"', ':', '"']
        + outcome.error().unwrap().tag_text() + seq!['"', '}']);
}

/// The structured answer to a success is the object whose one member is
/// `result`, with the status record as its value.
pub proof fn lemma_success_body(outcome: ProbeOutcomeView)
    requires
        outcome is Success,
    ensures
        response_text(envelope(outcome)) == seq!['{', '"', 'r', 'e', 's', 'u', 'l', 't', '"', ':']
            + status_text(outcome->Success_0) + seq!['}'],
{
    reveal_strlit("result");
    let members = response_members(envelope(outcome));
    let texts = members.map_values(|member: MemberView| member_text(member));
    assert(members.len() == 1);
    assert(joined(texts) == texts[0]);
    assert(response_text(envelope(outcome)) =~= seq![
        '{',
        '"',
        'r',
        'e',
        's',
        'u',
        'l',
        't',
        '"',
        ':',
    ] + status_text(outcome->Success_0) + seq!['}']);
}

} // verus!
