//! The provider's callback, field by field.
//!
//! A callback is a list of name and value pairs. Eleven names matter; nine of
//! them must occur exactly once, two may be absent, none may occur twice, and
//! every other name is passed over. The same table, read the other way, gives
//! the pairs that are sent back to the provider for confirmation.

use crate::error::VerifyError;
use crate::form::Pairs;
use crate::text::same_text;
use vstd::prelude::*;

verus! {

// The names of the callback's fields, in the order of the field table.

pub const KEY_NS: &'static str = "openid.ns";

pub const KEY_MODE: &'static str = "openid.mode";

pub const KEY_OP_ENDPOINT: &'static str = "openid.op_endpoint";

pub const KEY_CLAIMED_ID: &'static str = "openid.claimed_id";

pub const KEY_IDENTITY: &'static str = "openid.identity";

pub const KEY_RETURN_TO: &'static str = "openid.return_to";

pub const KEY_RESPONSE_NONCE: &'static str = "openid.response_nonce";

pub const KEY_INVALIDATE_HANDLE: &'static str = "openid.invalidate_handle";

pub const KEY_ASSOC_HANDLE: &'static str = "openid.assoc_handle";

pub const KEY_SIGNED: &'static str = "openid.signed";

pub const KEY_SIG: &'static str = "openid.sig";

/// The mode under which an assertion is handed back to the provider.
pub const CHECK_AUTHENTICATION: &'static str = "check_authentication";

/// The fields of a callback, as received.
#[derive(Clone, Debug, PartialEq, Eq)]
pub struct CallbackAssertion {
    pub ns: String,
    pub mode: String,
    pub op_endpoint: String,
    pub claimed_id: String,
    pub identity: Option<String>,
    pub return_to: String,
    pub response_nonce: String,
    pub invalidate_handle: Option<String>,
    pub assoc_handle: String,
    pub signed: String,
    pub sig: String,
}

/// A callback's fields as plain text.
pub ghost struct Fields {
    pub ns: Seq<char>,
    pub mode: Seq<char>,
    pub op_endpoint: Seq<char>,
    pub claimed_id: Seq<char>,
    pub identity: Option<Seq<char>>,
    pub return_to: Seq<char>,
    pub response_nonce: Seq<char>,
    pub invalidate_handle: Option<Seq<char>>,
    pub assoc_handle: Seq<char>,
    pub signed: Seq<char>,
    pub sig: Seq<char>,
}

impl View for CallbackAssertion {
    type V = Fields;

    open spec fn view(&self) -> Fields {
        Fields {
            ns: self.ns@,
            mode: self.mode@,
            op_endpoint: self.op_endpoint@,
            claimed_id: self.claimed_id@,
            identity: self.identity.deep_view(),
            return_to: self.return_to@,
            response_nonce: self.response_nonce@,
            invalidate_handle: self.invalidate_handle.deep_view(),
            assoc_handle: self.assoc_handle@,
            signed: self.signed@,
            sig: self.sig@,
        }
    }
}

/// The values that `pairs` give under `name`, in the order in which they occur.
pub open spec fn values_of(pairs: Pairs, name: Seq<char>) -> Seq<Seq<char>>
    decreases pairs.len(),
{
    if pairs.len() == 0 {
        Seq::empty()
    } else if pairs.last().0 == name {
        values_of(pairs.drop_last(), name).push(pairs.last().1)
    } else {
        values_of(pairs.drop_last(), name)
    }
}

/// The value of a field that must occur exactly once.
pub open spec fn required(pairs: Pairs, name: Seq<char>) -> Option<Seq<char>> {
    let found = values_of(pairs, name);
    if found.len() == 1 {
        Some(found[0])
    } else {
        None
    }
}

/// The value of a field that may be absent but must not occur twice.
pub open spec fn optional(pairs: Pairs, name: Seq<char>) -> Option<Option<Seq<char>>> {
    let found = values_of(pairs, name);
    if found.len() == 0 {
        Some(None)
    } else if found.len() == 1 {
        Some(Some(found[0]))
    } else {
        None
    }
}

/// Whether `pairs` hold every required field once and no optional field twice.
pub open spec fn well_formed(pairs: Pairs) -> bool {
    &&& required(pairs, KEY_NS@) is Some
    &&& required(pairs, KEY_MODE@) is Some
    &&& required(pairs, KEY_OP_ENDPOINT@) is Some
    &&& required(pairs, KEY_CLAIMED_ID@) is Some
    &&& optional(pairs, KEY_IDENTITY@) is Some
    &&& required(pairs, KEY_RETURN_TO@) is Some
    &&& required(pairs, KEY_RESPONSE_NONCE@) is Some
    &&& optional(pairs, KEY_INVALIDATE_HANDLE@) is Some
    &&& required(pairs, KEY_ASSOC_HANDLE@) is Some
    &&& required(pairs, KEY_SIGNED@) is Some
    &&& required(pairs, KEY_SIG@) is Some
}

/// The fields that `pairs` spell out, where they are well formed.
pub open spec fn fields_of(pairs: Pairs) -> Option<Fields> {
    if well_formed(pairs) {
        Some(
            Fields {
                ns: required(pairs, KEY_NS@)->0,
                mode: required(pairs, KEY_MODE@)->0,
                op_endpoint: required(pairs, KEY_OP_ENDPOINT@)->0,
                claimed_id: required(pairs, KEY_CLAIMED_ID@)->0,
                identity: optional(pairs, KEY_IDENTITY@)->0,
                return_to: required(pairs, KEY_RETURN_TO@)->0,
                response_nonce: required(pairs, KEY_RESPONSE_NONCE@)->0,
                invalidate_handle: optional(pairs, KEY_INVALIDATE_HANDLE@)->0,
                assoc_handle: required(pairs, KEY_ASSOC_HANDLE@)->0,
                signed: required(pairs, KEY_SIGNED@)->0,
                sig: required(pairs, KEY_SIG@)->0,
            },
        )
    } else {
        None
    }
}

/// What a scan for one name came to.
enum Found {
    Never,
    Once(String),
    Repeatedly,
}

/// Scans `pairs` for `name`.
fn find(pairs: &Vec<(String, String)>, name: &str) -> (found: Found)
    ensures
        match found {
            Found::Never => values_of(pairs.deep_view(), name@).len() == 0,
            Found::Once(value) => values_of(pairs.deep_view(), name@) == seq![value@],
            Found::Repeatedly => values_of(pairs.deep_view(), name@).len() >= 2,
        },
{
    let ghost all = pairs.deep_view();
    let mut found = Found::Never;
    let mut i: usize = 0;
    while i < pairs.len()
        invariant
            0 <= i <= pairs.len(),
            all == pairs.deep_view(),
            match found {
                Found::Never => values_of(all.take(i as int), name@).len() == 0,
                Found::Once(value) => values_of(all.take(i as int), name@) == seq![value@],
                Found::Repeatedly => values_of(all.take(i as int), name@).len() >= 2,
            },
        decreases pairs.len() - i,
    {
        proof {
            assert(all.take(i + 1).drop_last() == all.take(i as int));
            assert(all.take(i + 1).last() == all[i as int]);
            assert(all[i as int] == (pairs@[i as int].0@, pairs@[i as int].1@));
        }
        if same_text(pairs[i].0.as_str(), name) {
            found = match found {
                Found::Never => Found::Once(pairs[i].1.clone()),
                _ => Found::Repeatedly,
            };
        }
        i += 1;
    }
    proof {
        assert(all.take(i as int) == all);
    }
    found
}

/// Reads a field that must occur exactly once.
fn find_required(pairs: &Vec<(String, String)>, name: &str) -> (value: Option<String>)
    ensures
        value.deep_view() == required(pairs.deep_view(), name@),
{
    match find(pairs, name) {
        Found::Once(value) => Some(value),
        _ => None,
    }
}

/// Reads a field that may be absent.
fn find_optional(pairs: &Vec<(String, String)>, name: &str) -> (value: Option<Option<String>>)
    ensures
        value.deep_view() == optional(pairs.deep_view(), name@),
{
    match find(pairs, name) {
        Found::Never => Some(None),
        Found::Once(value) => Some(Some(value)),
        Found::Repeatedly => None,
    }
}

/// `fields` under another mode.
pub open spec fn with_mode(fields: Fields, mode: Seq<char>) -> Fields {
    Fields { mode, ..fields }
}

/// `fields` with the mode replaced by `check_authentication`.
pub open spec fn check_authentication_of(fields: Fields) -> Fields {
    with_mode(fields, CHECK_AUTHENTICATION@)
}

/// `pairs` followed by `name` and `value`, where there is a value.
pub open spec fn with_optional(pairs: Pairs, name: Seq<char>, value: Option<Seq<char>>) -> Pairs {
    match value {
        Some(text) => pairs.push((name, text)),
        None => pairs,
    }
}

/// The pairs that stand for `fields` on the wire: one pair for each field that
/// is there, in the order of the field table.
pub open spec fn pairs_of(fields: Fields) -> Pairs {
    let head = Seq::<(Seq<char>, Seq<char>)>::empty().push((KEY_NS@, fields.ns)).push(
        (KEY_MODE@, fields.mode),
    ).push((KEY_OP_ENDPOINT@, fields.op_endpoint)).push((KEY_CLAIMED_ID@, fields.claimed_id));
    let middle = with_optional(head, KEY_IDENTITY@, fields.identity).push(
        (KEY_RETURN_TO@, fields.return_to),
    ).push((KEY_RESPONSE_NONCE@, fields.response_nonce));
    with_optional(middle, KEY_INVALIDATE_HANDLE@, fields.invalidate_handle).push(
        (KEY_ASSOC_HANDLE@, fields.assoc_handle),
    ).push((KEY_SIGNED@, fields.signed)).push((KEY_SIG@, fields.sig))
}

/// Appends one pair.
fn push_pair(pairs: &mut Vec<(String, String)>, name: &str, value: &String)
    ensures
        final(pairs).deep_view() == old(pairs).deep_view().push((name@, value@)),
{
    pairs.push((name.to_owned(), value.clone()));
    assert(pairs.deep_view() =~= old(pairs).deep_view().push((name@, value@)));
}

/// Appends one pair where there is a value.
fn push_optional(pairs: &mut Vec<(String, String)>, name: &str, value: &Option<String>)
    ensures
        final(pairs).deep_view() == with_optional(
            old(pairs).deep_view(),
            name@,
            value.deep_view(),
        ),
{
    match value {
        Some(text) => push_pair(pairs, name, text),
        None => {},
    }
}

impl CallbackAssertion {
    /// Reads the callback's fields out of its decoded pairs.
    ///
    /// Succeeds exactly where every required field occurs once and neither
    /// optional field occurs twice; names outside the table are passed over.
    pub fn from_pairs(pairs: &Vec<(String, String)>) -> (out: Result<
        CallbackAssertion,
        VerifyError,
    >)
        ensures
            match out {
                Ok(assertion) => fields_of(pairs.deep_view()) == Some(assertion@),
                Err(error) => error == VerifyError::BadQuery && fields_of(pairs.deep_view())
                    is None,
            },
    {
        let ns = find_required(pairs, KEY_NS);
        let mode = find_required(pairs, KEY_MODE);
        let op_endpoint = find_required(pairs, KEY_OP_ENDPOINT);
        let claimed_id = find_required(pairs, KEY_CLAIMED_ID);
        let identity = find_optional(pairs, KEY_IDENTITY);
        let return_to = find_required(pairs, KEY_RETURN_TO);
        let response_nonce = find_required(pairs, KEY_RESPONSE_NONCE);
        let invalidate_handle = find_optional(pairs, KEY_INVALIDATE_HANDLE);
        let assoc_handle = find_required(pairs, KEY_ASSOC_HANDLE);
        let signed = find_required(pairs, KEY_SIGNED);
        let sig = find_required(pairs, KEY_SIG);
        match (
            ns,
            mode,
            op_endpoint,
            claimed_id,
            identity,
            return_to,
            response_nonce,
            invalidate_handle,
            assoc_handle,
            signed,
            sig,
        ) {
            (
                Some(ns),
                Some(mode),
                Some(op_endpoint),
                Some(claimed_id),
                Some(identity),
                Some(return_to),
                Some(response_nonce),
                Some(invalidate_handle),
                Some(assoc_handle),
                Some(signed),
                Some(sig),
            ) => Ok(
                CallbackAssertion {
                    ns,
                    mode,
                    op_endpoint,
                    claimed_id,
                    identity,
                    return_to,
                    response_nonce,
                    invalidate_handle,
                    assoc_handle,
                    signed,
                    sig,
                },
            ),
            _ => Err(VerifyError::BadQuery),
        }
    }

    /// The same assertion under the mode `check_authentication`: what the
    /// provider is asked to confirm. No other field changes.
    pub fn into_check_authentication(self) -> (out: CallbackAssertion)
        ensures
            out@ == check_authentication_of(self@),
    {
        CallbackAssertion { mode: CHECK_AUTHENTICATION.to_owned(), ..self }
    }

    /// The assertion as pairs, ready to be encoded.
    pub fn to_pairs(&self) -> (pairs: Vec<(String, String)>)
        ensures
            pairs.deep_view() == pairs_of(self@),
    {
        let mut pairs: Vec<(String, String)> = Vec::new();
        assert(pairs.deep_view() =~= Seq::<(Seq<char>, Seq<char>)>::empty());
        push_pair(&mut pairs, KEY_NS, &self.ns);
        push_pair(&mut pairs, KEY_MODE, &self.mode);
        push_pair(&mut pairs, KEY_OP_ENDPOINT, &self.op_endpoint);
        push_pair(&mut pairs, KEY_CLAIMED_ID, &self.claimed_id);
        push_optional(&mut pairs, KEY_IDENTITY, &self.identity);
        push_pair(&mut pairs, KEY_RETURN_TO, &self.return_to);
        push_pair(&mut pairs, KEY_RESPONSE_NONCE, &self.response_nonce);
        push_optional(&mut pairs, KEY_INVALIDATE_HANDLE, &self.invalidate_handle);
        push_pair(&mut pairs, KEY_ASSOC_HANDLE, &self.assoc_handle);
        push_pair(&mut pairs, KEY_SIGNED, &self.signed);
        push_pair(&mut pairs, KEY_SIG, &self.sig);
        pairs
    }
}

/// Whether `name` is one of the nine fields that a callback must hold.
pub open spec fn is_required(name: Seq<char>) -> bool {
    ||| name == KEY_NS@
    ||| name == KEY_MODE@
    ||| name == KEY_OP_ENDPOINT@
    ||| name == KEY_CLAIMED_ID@
    ||| name == KEY_RETURN_TO@
    ||| name == KEY_RESPONSE_NONCE@
    ||| name == KEY_ASSOC_HANDLE@
    ||| name == KEY_SIGNED@
    ||| name == KEY_SIG@
}

/// Whether `name` is one of the two fields that a callback may hold.
pub open spec fn is_optional(name: Seq<char>) -> bool {
    name == KEY_IDENTITY@ || name == KEY_INVALIDATE_HANDLE@
}

/// The eleven field names differ in length, and so from each other.
pub proof fn lemma_key_lengths()
    ensures
        KEY_NS@.len() == 9,
        KEY_MODE@.len() == 11,
        KEY_OP_ENDPOINT@.len() == 18,
        KEY_CLAIMED_ID@.len() == 17,
        KEY_IDENTITY@.len() == 15,
        KEY_RETURN_TO@.len() == 16,
        KEY_RESPONSE_NONCE@.len() == 21,
        KEY_INVALIDATE_HANDLE@.len() == 24,
        KEY_ASSOC_HANDLE@.len() == 19,
        KEY_SIGNED@.len() == 13,
        KEY_SIG@.len() == 10,
{
    reveal_strlit("openid.ns");
    reveal_strlit("openid.mode");
    reveal_strlit("openid.op_endpoint");
    reveal_strlit("openid.claimed_id");
    reveal_strlit("openid.identity");
    reveal_strlit("openid.return_to");
    reveal_strlit("openid.response_nonce");
    reveal_strlit("openid.invalidate_handle");
    reveal_strlit("openid.assoc_handle");
    reveal_strlit("openid.signed");
    reveal_strlit("openid.sig");
}

/// A callback that lacks a required field, or holds one twice, or holds an
/// optional field twice, has no fields to read.
pub proof fn lemma_miscounted_field_is_rejected(pairs: Pairs, name: Seq<char>)
    requires
        is_required(name) && values_of(pairs, name).len() != 1 || is_optional(name) && values_of(
            pairs,
            name,
        ).len() > 1,
    ensures
        fields_of(pairs) is None,
{
}

/// One more pair adds its value under its own name and nothing under any
/// other.
pub proof fn lemma_values_of_push(pairs: Pairs, name: Seq<char>, value: Seq<char>, key: Seq<char>)
    ensures
        values_of(pairs.push((name, value)), key) == if name == key {
            values_of(pairs, key).push(value)
        } else {
            values_of(pairs, key)
        },
{
    assert(pairs.push((name, value)).drop_last() == pairs);
}

/// What one entry of the field table gives under `key`.
pub open spec fn entry(name: Seq<char>, value: Option<Seq<char>>, key: Seq<char>) -> Seq<
    Seq<char>,
> {
    match value {
        Some(text) if name == key => seq![text],
        _ => Seq::empty(),
    }
}

proof fn lemma_values_of_with_optional(
    pairs: Pairs,
    name: Seq<char>,
    value: Option<Seq<char>>,
    key: Seq<char>,
)
    ensures
        values_of(with_optional(pairs, name, value), key) == values_of(pairs, key) + entry(
            name,
            value,
            key,
        ),
{
    match value {
        Some(text) => {
            lemma_values_of_push(pairs, name, text, key);
        },
        None => {},
    }
}

/// The pairs of an assertion give under each name what the field table says,
/// in the table's order.
pub proof fn lemma_values_of_pairs_of(fields: Fields, key: Seq<char>)
    ensures
        values_of(pairs_of(fields), key) == entry(KEY_NS@, Some(fields.ns), key) + entry(
            KEY_MODE@,
            Some(fields.mode),
            key,
        ) + entry(KEY_OP_ENDPOINT@, Some(fields.op_endpoint), key) + entry(
            KEY_CLAIMED_ID@,
            Some(fields.claimed_id),
            key,
        ) + entry(KEY_IDENTITY@, fields.identity, key) + entry(
            KEY_RETURN_TO@,
            Some(fields.return_to),
            key,
        ) + entry(KEY_RESPONSE_NONCE@, Some(fields.response_nonce), key) + entry(
            KEY_INVALIDATE_HANDLE@,
            fields.invalidate_handle,
            key,
        ) + entry(KEY_ASSOC_HANDLE@, Some(fields.assoc_handle), key) + entry(
            KEY_SIGNED@,
            Some(fields.signed),
            key,
        ) + entry(KEY_SIG@, Some(fields.sig), key),
{
    let upto0 = Seq::<(Seq<char>, Seq<char>)>::empty();
    let upto1 = with_optional(upto0, KEY_NS@, Some(fields.ns));
    let upto2 = with_optional(upto1, KEY_MODE@, Some(fields.mode));
    let upto3 = with_optional(upto2, KEY_OP_ENDPOINT@, Some(fields.op_endpoint));
    let upto4 = with_optional(upto3, KEY_CLAIMED_ID@, Some(fields.claimed_id));
    let upto5 = with_optional(upto4, KEY_IDENTITY@, fields.identity);
    let upto6 = with_optional(upto5, KEY_RETURN_TO@, Some(fields.return_to));
    let upto7 = with_optional(upto6, KEY_RESPONSE_NONCE@, Some(fields.response_nonce));
    let upto8 = with_optional(upto7, KEY_INVALIDATE_HANDLE@, fields.invalidate_handle);
    let upto9 = with_optional(upto8, KEY_ASSOC_HANDLE@, Some(fields.assoc_handle));
    let upto10 = with_optional(upto9, KEY_SIGNED@, Some(fields.signed));
    let upto11 = with_optional(upto10, KEY_SIG@, Some(fields.sig));
    assert(upto11 == pairs_of(fields));
    lemma_values_of_with_optional(upto0, KEY_NS@, Some(fields.ns), key);
    lemma_values_of_with_optional(upto1, KEY_MODE@, Some(fields.mode), key);
    lemma_values_of_with_optional(upto2, KEY_OP_ENDPOINT@, Some(fields.op_endpoint), key);
    lemma_values_of_with_optional(upto3, KEY_CLAIMED_ID@, Some(fields.claimed_id), key);
    lemma_values_of_with_optional(upto4, KEY_IDENTITY@, fields.identity, key);
    lemma_values_of_with_optional(upto5, KEY_RETURN_TO@, Some(fields.return_to), key);
    lemma_values_of_with_optional(upto6, KEY_RESPONSE_NONCE@, Some(fields.response_nonce), key);
    lemma_values_of_with_optional(upto7, KEY_INVALIDATE_HANDLE@, fields.invalidate_handle, key);
    lemma_values_of_with_optional(upto8, KEY_ASSOC_HANDLE@, Some(fields.assoc_handle), key);
    lemma_values_of_with_optional(upto9, KEY_SIGNED@, Some(fields.signed), key);
    lemma_values_of_with_optional(upto10, KEY_SIG@, Some(fields.sig), key);
    assert(values_of(upto0, key) =~= Seq::<Seq<char>>::empty());
    assert(values_of(upto1, key) =~= entry(KEY_NS@, Some(fields.ns), key));
}

/// Reading back the pairs of an assertion gives the assertion: every field
/// goes out once, under its own name, with the value it came in with.
pub proof fn lemma_fields_survive_the_wire(fields: Fields)
    ensures
        fields_of(pairs_of(fields)) == Some(fields),
{
    lemma_key_lengths();
    let pairs = pairs_of(fields);
    lemma_values_of_pairs_of(fields, KEY_NS@);
    lemma_values_of_pairs_of(fields, KEY_MODE@);
    lemma_values_of_pairs_of(fields, KEY_OP_ENDPOINT@);
    lemma_values_of_pairs_of(fields, KEY_CLAIMED_ID@);
    lemma_values_of_pairs_of(fields, KEY_IDENTITY@);
    lemma_values_of_pairs_of(fields, KEY_RETURN_TO@);
    lemma_values_of_pairs_of(fields, KEY_RESPONSE_NONCE@);
    lemma_values_of_pairs_of(fields, KEY_INVALIDATE_HANDLE@);
    lemma_values_of_pairs_of(fields, KEY_ASSOC_HANDLE@);
    lemma_values_of_pairs_of(fields, KEY_SIGNED@);
    lemma_values_of_pairs_of(fields, KEY_SIG@);
    assert(values_of(pairs, KEY_NS@) =~= seq![fields.ns]);
    assert(values_of(pairs, KEY_MODE@) =~= seq![fields.mode]);
    assert(values_of(pairs, KEY_OP_ENDPOINT@) =~= seq![fields.op_endpoint]);
    assert(values_of(pairs, KEY_CLAIMED_ID@) =~= seq![fields.claimed_id]);
    assert(values_of(pairs, KEY_IDENTITY@) =~= entry(KEY_IDENTITY@, fields.identity, KEY_IDENTITY@));
    assert(values_of(pairs, KEY_RETURN_TO@) =~= seq![fields.return_to]);
    assert(values_of(pairs, KEY_RESPONSE_NONCE@) =~= seq![fields.response_nonce]);
    assert(values_of(pairs, KEY_INVALIDATE_HANDLE@) =~= entry(
        KEY_INVALIDATE_HANDLE@,
        fields.invalidate_handle,
        KEY_INVALIDATE_HANDLE@,
    ));
    assert(values_of(pairs, KEY_ASSOC_HANDLE@) =~= seq![fields.assoc_handle]);
    assert(values_of(pairs, KEY_SIGNED@) =~= seq![fields.signed]);
    assert(values_of(pairs, KEY_SIG@) =~= seq![fields.sig]);
}

/// The mode that goes to the provider is `check_authentication`, whatever
/// mode the callback came with, and the mode is all that the rewriting
/// touches.
pub proof fn lemma_mode_is_rewritten(fields: Fields, mode: Seq<char>)
    ensures
        required(pairs_of(check_authentication_of(fields)), KEY_MODE@) == Some(
            CHECK_AUTHENTICATION@,
        ),
        check_authentication_of(with_mode(fields, mode)) == check_authentication_of(fields),
        with_mode(check_authentication_of(fields), fields.mode) == fields,
{
    lemma_fields_survive_the_wire(check_authentication_of(fields));
}

} // verus!
