//! Confirming a callback with the provider.
//!
//! The exchange itself belongs to the caller. This module decides what is sent
//! and what the answer is worth: `prepare` turns the callback's query string
//! into the form body to submit, and `conclude` turns the provider's answer
//! into an identity or a refusal.

use crate::assertion::{
    check_authentication_of, fields_of, is_required, lemma_mode_is_rewritten, pairs_of, required,
    values_of, with_mode, CallbackAssertion, Fields, CHECK_AUTHENTICATION, KEY_MODE,
};
use crate::error::VerifyError;
use crate::form::{decode_pairs, encode_pairs, form_decoding, form_encoding, Pairs};
use crate::identity::{claimed_steam_id, steam_id};
use crate::text::chars_of;
use vstd::prelude::*;

verus! {

/// The line by which the provider confirms an assertion.
pub const IS_VALID_LINE: &'static str = "is_valid:true";

/// Whether `text[from..to]` is one of the lines of `text`: it starts at the
/// beginning or after a line feed, ends at the end or before a line feed, and
/// holds no line feed.
pub open spec fn is_line(text: Seq<char>, from: int, to: int) -> bool {
    &&& 0 <= from <= to <= text.len()
    &&& (from == 0 || text[from - 1] == '\n')
    &&& (to == text.len() || text[to] == '\n')
    &&& forall|k: int| from <= k < to ==> text[k] != '\n'
}

/// Whether some line of `text` is exactly `line`.
pub open spec fn has_line(text: Seq<char>, line: Seq<char>) -> bool {
    exists|from: int, to: int| #[trigger] is_line(text, from, to) && text.subrange(from, to) == line
}

/// Whether `text[from..to]` holds the characters of `line`.
fn matches_at(text: &Vec<char>, from: usize, to: usize, line: &Vec<char>) -> (same: bool)
    requires
        from <= to <= text.len(),
    ensures
        same == (text@.subrange(from as int, to as int) == line@),
{
    if to - from != line.len() {
        return false;
    }
    let mut k: usize = 0;
    while k < line.len()
        invariant
            from <= to <= text.len(),
            to - from == line.len(),
            0 <= k <= line.len(),
            forall|j: int| 0 <= j < k ==> text@[from + j] == line@[j],
        decreases line.len() - k,
    {
        if text[from + k] != line[k] {
            assert(text@.subrange(from as int, to as int)[k as int] != line@[k as int]);
            return false;
        }
        k += 1;
    }
    assert(text@.subrange(from as int, to as int) =~= line@);
    true
}

/// Whether some line of `text` is exactly `line`. Lines are what stands
/// between line feeds; nothing is trimmed and case matters.
pub fn contains_line(text: &str, line: &str) -> (found: bool)
    ensures
        found == has_line(text@, line@),
{
    let chars = chars_of(text);
    let wanted = chars_of(line);
    let mut start: usize = 0;
    let mut i: usize = 0;
    while i < chars.len()
        invariant
            chars@ == text@,
            wanted@ == line@,
            0 <= start <= i <= chars.len(),
            start == 0 || chars@[start - 1] == '\n',
            forall|k: int| start <= k < i ==> chars@[k] != '\n',
            forall|from: int, to: int|
                0 <= from < start && #[trigger] is_line(chars@, from, to) ==> chars@.subrange(
                    from,
                    to,
                ) != wanted@,
        decreases chars.len() - i,
    {
        if chars[i] == '\n' {
            if matches_at(&chars, start, i, &wanted) {
                assert(is_line(chars@, start as int, i as int));
                return true;
            }
            assert forall|from: int, to: int|
                0 <= from < i + 1 && #[trigger] is_line(chars@, from, to) implies chars@.subrange(
                from,
                to,
            ) != wanted@ by {
                if from >= start {
                    if from > start {
                        assert(chars@[from - 1] != '\n');
                    }
                    if to < i {
                        assert(chars@[to] != '\n');
                    }
                    if to > i {
                        assert(chars@[i as int] == '\n');
                    }
                    assert(from == start && to == i);
                }
            }
            start = i + 1;
        }
        i += 1;
    }
    if matches_at(&chars, start, i, &wanted) {
        assert(is_line(chars@, start as int, i as int));
        return true;
    }
    assert forall|from: int, to: int| #[trigger] is_line(chars@, from, to) implies chars@.subrange(
        from,
        to,
    ) != wanted@ by {
        if from >= start {
            if from > start {
                assert(chars@[from - 1] != '\n');
            }
            if to < i {
                assert(chars@[to] != '\n');
            }
            assert(from == start && to == i);
        }
    }
    false
}

/// Whether the provider's answer confirms the assertion: some line of it is
/// exactly `is_valid:true`.
pub open spec fn confirms(response: Seq<char>) -> bool {
    has_line(response, IS_VALID_LINE@)
}

/// What is to be sent to the provider, and what is kept for the answer.
#[derive(Clone, Debug, PartialEq, Eq)]
pub struct Submission {
    /// The form body to post.
    pub body: String,
    /// The identity that the callback claimed, as it was received.
    pub claimed_id: String,
}

/// The form body and the claimed identity that a callback's query string
/// leads to: its pairs decoded, its fields read, the mode set to
/// `check_authentication`, and the fields encoded again. `None` where one of
/// these steps fails.
pub open spec fn submission_of(query: Seq<char>) -> Option<(Seq<char>, Seq<char>)> {
    match form_decoding(query) {
        Some(pairs) => match fields_of(pairs) {
            Some(fields) => match form_encoding(pairs_of(check_authentication_of(fields))) {
                Some(body) => Some((body, fields.claimed_id)),
                None => None,
            },
            None => None,
        },
        None => None,
    }
}

/// What the provider's answer is worth. `reply` is `None` where the exchange
/// failed; `claimed_id` is the identity that the callback claimed.
pub open spec fn verdict(claimed_id: Seq<char>, reply: Option<Seq<char>>) -> Result<
    u64,
    VerifyError,
> {
    match reply {
        None => Err(VerifyError::BadRequestOrResponse),
        Some(response) => if !confirms(response) {
            Err(VerifyError::Denied)
        } else {
            match claimed_steam_id(claimed_id) {
                Some(id) => Ok(id),
                None => Err(VerifyError::BadRequestOrResponse),
            }
        },
    }
}

/// What a callback comes to, given the provider's answer to its submission.
/// A callback that cannot be submitted is a bad query whatever the answer.
pub open spec fn verification(query: Seq<char>, reply: Option<Seq<char>>) -> Result<
    u64,
    VerifyError,
> {
    match submission_of(query) {
        Some((_, claimed_id)) => verdict(claimed_id, reply),
        None => Err(VerifyError::BadQuery),
    }
}

/// Builds the submission for the fields of a callback.
///
/// The body holds every field as it was received, but for the mode, which is
/// `check_authentication`.
pub fn submission(assertion: CallbackAssertion) -> (out: Result<Submission, VerifyError>)
    ensures
        match out {
            Ok(ready) => form_encoding(pairs_of(check_authentication_of(assertion@))) == Some(
                ready.body@,
            ) && ready.claimed_id@ == assertion@.claimed_id,
            Err(error) => error == VerifyError::BadQuery && form_encoding(
                pairs_of(check_authentication_of(assertion@)),
            ) is None,
        },
{
    let claimed_id = assertion.claimed_id.clone();
    let pairs = assertion.into_check_authentication().to_pairs();
    match encode_pairs(&pairs) {
        Ok(body) => Ok(Submission { body, claimed_id }),
        Err(_) => Err(VerifyError::BadQuery),
    }
}

/// Turns the query string of a callback into what is to be posted to the
/// provider.
///
/// Fails with `BadQuery`, and with nothing else, where the query string does
/// not decode, lacks a required field, repeats a field, or cannot be encoded
/// again.
pub fn prepare(query_string: &str) -> (out: Result<Submission, VerifyError>)
    ensures
        match out {
            Ok(ready) => submission_of(query_string@) == Some((ready.body@, ready.claimed_id@)),
            Err(error) => error == VerifyError::BadQuery && submission_of(query_string@) is None,
        },
{
    let pairs = match decode_pairs(query_string) {
        Ok(pairs) => pairs,
        Err(_) => return Err(VerifyError::BadQuery),
    };
    let assertion = match CallbackAssertion::from_pairs(&pairs) {
        Ok(assertion) => assertion,
        Err(error) => return Err(error),
    };
    submission(assertion)
}

/// Whether the provider's answer confirms the assertion.
pub fn is_confirmed(response: &str) -> (confirmed: bool)
    ensures
        confirmed == confirms(response@),
{
    contains_line(response, IS_VALID_LINE)
}

/// Decides on the provider's answer.
///
/// `reply` is the text of the answer, or `None` where the exchange failed. An
/// answer that does not confirm is a denial. The identity is read from
/// `claimed_id`, never from the answer, and only once the answer confirms.
pub fn conclude(claimed_id: &str, reply: Option<&str>) -> (out: Result<u64, VerifyError>)
    ensures
        out == verdict(claimed_id@, reply.deep_view()),
{
    let response = match reply {
        Some(response) => response,
        None => return Err(VerifyError::BadRequestOrResponse),
    };
    if !is_confirmed(response) {
        return Err(VerifyError::Denied);
    }
    match steam_id(claimed_id) {
        Some(id) => Ok(id),
        None => Err(VerifyError::BadRequestOrResponse),
    }
}

/// Verifies a callback against the answer that the provider gave to its
/// submission.
///
/// This is the whole decision in one call, for an exchange that is already
/// over. A caller that talks to the provider calls `prepare`, posts the body,
/// and calls `conclude`.
pub fn verify(query_string: &str, reply: Option<&str>) -> (out: Result<u64, VerifyError>)
    ensures
        out == verification(query_string@, reply.deep_view()),
{
    match prepare(query_string) {
        Ok(ready) => conclude(ready.claimed_id.as_str(), reply),
        Err(error) => Err(error),
    }
}

/// A callback that lacks a required field is a bad query, and nothing is
/// submitted for it: the verdict is the same whatever the provider would
/// have said.
pub proof fn lemma_missing_field_is_bad_query(
    query: Seq<char>,
    pairs: Pairs,
    name: Seq<char>,
    reply: Option<Seq<char>>,
)
    requires
        form_decoding(query) == Some(pairs),
        is_required(name),
        values_of(pairs, name).len() == 0,
    ensures
        submission_of(query) is None,
        verification(query, reply) == Err::<u64, VerifyError>(VerifyError::BadQuery),
{
}

/// What is submitted carries the mode `check_authentication` and does not
/// depend on the mode that the callback came with: two callbacks that differ
/// in their mode alone lead to the same submission.
pub proof fn lemma_submitted_mode_is_fixed(
    query: Seq<char>,
    fields: Fields,
    other_query: Seq<char>,
    other_mode: Seq<char>,
)
    requires
        form_decoding(query) matches Some(pairs) && fields_of(pairs) == Some(fields),
        form_decoding(other_query) matches Some(pairs) && fields_of(pairs) == Some(
            with_mode(fields, other_mode),
        ),
    ensures
        required(pairs_of(check_authentication_of(fields)), KEY_MODE@) == Some(
            CHECK_AUTHENTICATION@,
        ),
        submission_of(query) matches Some((body, _)) ==> form_encoding(
            pairs_of(check_authentication_of(fields)),
        ) == Some(body),
        submission_of(other_query) == submission_of(query),
{
    lemma_mode_is_rewritten(fields, other_mode);
}

/// An identity comes out only where the provider's answer arrived and
/// confirms the assertion.
pub proof fn lemma_identity_needs_confirmation(query: Seq<char>, reply: Option<Seq<char>>)
    requires
        verification(query, reply) is Ok,
    ensures
        submission_of(query) is Some,
        reply matches Some(response) && confirms(response),
        submission_of(query) matches Some((_, claimed_id)) && claimed_steam_id(claimed_id) == Some(
            verification(query, reply)->Ok_0,
        ),
{
}

/// An answer without the confirming line is a denial, whatever the callback
/// claimed; so the same callback may be accepted once and denied later.
pub proof fn lemma_unconfirmed_is_denied(query: Seq<char>, response: Seq<char>)
    requires
        submission_of(query) is Some,
        !confirms(response),
    ensures
        verification(query, Some(response)) == Err::<u64, VerifyError>(VerifyError::Denied),
{
}

} // verus!
