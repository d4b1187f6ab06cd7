//! The URL that sends a user to the provider's login page.

use crate::assertion::{
    entry, lemma_key_lengths, lemma_values_of_push, values_of, KEY_CLAIMED_ID, KEY_IDENTITY, KEY_MODE,
    KEY_NS, KEY_RETURN_TO,
};
use crate::form::{encode_pairs, form_encoding, Pairs};
use vstd::pervasive::unreached;
use vstd::prelude::*;

verus! {

/// The provider's OpenID endpoint: where users log in, and where assertions
/// are sent for confirmation.
pub const LOGIN_URL: &'static str = "https://steamcommunity.com/openid/login";

/// The OpenID 2.0 namespace.
pub const OPENID_NS: &'static str = "http://specs.openid.net/auth/2.0";

/// Asks the provider to let the user pick the identity.
pub const IDENTIFIER_SELECT: &'static str = "http://specs.openid.net/auth/2.0/identifier_select";

/// The mode of a login request.
pub const CHECKID_SETUP: &'static str = "checkid_setup";

pub const KEY_REALM: &'static str = "openid.realm";

/// `url`'s parse error, carried through unread.
#[verifier::external_type_specification]
#[verifier::external_body]
pub struct ExParseError(url::ParseError);

/// The text of the URL that `url::Url::parse` makes of `base` once
/// `Url::set_query` has given it the query `query`, or `None` where `base`
/// does not parse.
pub uninterp spec fn url_with_query(base: Seq<char>, query: Seq<char>) -> Option<Seq<char>>;

/// Parses `base` with `url::Url::parse`, replaces its query with
/// `Url::set_query` and writes the URL out again.
///
/// Trusted: the result depends on `base` and `query` alone, which is all that
/// equating it with `url_with_query` claims.
#[verifier::external_body]
pub(crate) fn set_query(base: &str, query: &str) -> (out: Result<String, url::ParseError>)
    ensures
        match out {
            Ok(text) => url_with_query(base@, query@) == Some(text@),
            Err(_) => url_with_query(base@, query@) is None,
        },
{
    let mut url = url::Url::parse(base)?;
    url.set_query(Some(query));
    Ok(url.to_string())
}

/// The parameters of a login request, in the order in which they are written.
pub open spec fn redirect_pairs(realm: Seq<char>, return_to: Seq<char>) -> Pairs {
    seq![
        (KEY_NS@, OPENID_NS@),
        (KEY_IDENTITY@, IDENTIFIER_SELECT@),
        (KEY_CLAIMED_ID@, IDENTIFIER_SELECT@),
        (KEY_MODE@, CHECKID_SETUP@),
        (KEY_RETURN_TO@, return_to),
        (KEY_REALM@, realm),
    ]
}

/// The login URL for `realm` and `return_to`: the endpoint with the encoded
/// parameters as its query. `None` where the encoder or the URL parser gives
/// up.
pub open spec fn redirect_url(realm: Seq<char>, return_to: Seq<char>) -> Option<Seq<char>> {
    match form_encoding(redirect_pairs(realm, return_to)) {
        Some(query) => url_with_query(LOGIN_URL@, query),
        None => None,
    }
}

/// The parameters of a login request for `realm` and `return_to`.
pub fn redirect_form(realm: &str, return_to: &str) -> (form: Vec<(String, String)>)
    ensures
        form.deep_view() == redirect_pairs(realm@, return_to@),
{
    let mut form: Vec<(String, String)> = Vec::new();
    form.push((KEY_NS.to_owned(), OPENID_NS.to_owned()));
    form.push((KEY_IDENTITY.to_owned(), IDENTIFIER_SELECT.to_owned()));
    form.push((KEY_CLAIMED_ID.to_owned(), IDENTIFIER_SELECT.to_owned()));
    form.push((KEY_MODE.to_owned(), CHECKID_SETUP.to_owned()));
    form.push((KEY_RETURN_TO.to_owned(), return_to.to_owned()));
    form.push((KEY_REALM.to_owned(), realm.to_owned()));
    assert(form.deep_view() =~= redirect_pairs(realm@, return_to@));
    form
}

/// Whether a login URL can be had for `realm` and `return_to`.
fn can_redirect(realm: &str, return_to: &str) -> (can: bool)
    ensures
        can == redirect_url(realm@, return_to@) is Some,
{
    let form = redirect_form(realm, return_to);
    match encode_pairs(&form) {
        Ok(query) => set_query(LOGIN_URL, query.as_str()).is_ok(),
        Err(_) => false,
    }
}

/// The URL to which the user is sent to log in.
///
/// Neither input is examined: what is handed in is encoded as it stands. The
/// call asks that the encoder and the URL parser yield a URL for the inputs;
/// `try_redirect` asks nothing and says whether they did.
pub fn redirect(realm: &str, return_to: &str) -> (url: String)
    requires
        redirect_url(realm@, return_to@) is Some,
    ensures
        redirect_url(realm@, return_to@) == Some(url@),
{
    let form = redirect_form(realm, return_to);
    match encode_pairs(&form) {
        Ok(query) => match set_query(LOGIN_URL, query.as_str()) {
            Ok(url) => url,
            Err(_) => unreached(),
        },
        Err(_) => unreached(),
    }
}

/// The URL to which the user is sent to log in, or `None` where the encoder
/// or the URL parser gives up.
pub fn try_redirect(realm: &str, return_to: &str) -> (url: Option<String>)
    ensures
        url.deep_view() == redirect_url(realm@, return_to@),
{
    if can_redirect(realm, return_to) {
        Some(redirect(realm, return_to))
    } else {
        None
    }
}

/// A login request holds six parameters, each once: the namespace, the two
/// identifiers left to the provider, the mode, and the caller's `return_to`
/// and `realm` as they were given.
pub proof fn lemma_redirect_parameters(realm: Seq<char>, return_to: Seq<char>)
    ensures
        redirect_pairs(realm, return_to).len() == 6,
        values_of(redirect_pairs(realm, return_to), KEY_NS@) == seq![OPENID_NS@],
        values_of(redirect_pairs(realm, return_to), KEY_IDENTITY@) == seq![IDENTIFIER_SELECT@],
        values_of(redirect_pairs(realm, return_to), KEY_CLAIMED_ID@) == seq![IDENTIFIER_SELECT@],
        values_of(redirect_pairs(realm, return_to), KEY_MODE@) == seq![CHECKID_SETUP@],
        values_of(redirect_pairs(realm, return_to), KEY_RETURN_TO@) == seq![return_to],
        values_of(redirect_pairs(realm, return_to), KEY_REALM@) == seq![realm],
{
    lemma_key_lengths();
    reveal_strlit("openid.realm");
    lemma_values_of_redirect_pairs(realm, return_to, KEY_NS@);
    lemma_values_of_redirect_pairs(realm, return_to, KEY_IDENTITY@);
    lemma_values_of_redirect_pairs(realm, return_to, KEY_CLAIMED_ID@);
    lemma_values_of_redirect_pairs(realm, return_to, KEY_MODE@);
    lemma_values_of_redirect_pairs(realm, return_to, KEY_RETURN_TO@);
    lemma_values_of_redirect_pairs(realm, return_to, KEY_REALM@);
}

/// What the parameters of a login request give under `key`.
proof fn lemma_values_of_redirect_pairs(realm: Seq<char>, return_to: Seq<char>, key: Seq<char>)
    ensures
        values_of(redirect_pairs(realm, return_to), key) =~= entry(
            KEY_NS@,
            Some(OPENID_NS@),
            key,
        ) + entry(KEY_IDENTITY@, Some(IDENTIFIER_SELECT@), key) + entry(
            KEY_CLAIMED_ID@,
            Some(IDENTIFIER_SELECT@),
            key,
        ) + entry(KEY_MODE@, Some(CHECKID_SETUP@), key) + entry(
            KEY_RETURN_TO@,
            Some(return_to),
            key,
        ) + entry(KEY_REALM@, Some(realm), key),
{
    let upto0 = Seq::<(Seq<char>, Seq<char>)>::empty();
    let upto1 = upto0.push((KEY_NS@, OPENID_NS@));
    let upto2 = upto1.push((KEY_IDENTITY@, IDENTIFIER_SELECT@));
    let upto3 = upto2.push((KEY_CLAIMED_ID@, IDENTIFIER_SELECT@));
    let upto4 = upto3.push((KEY_MODE@, CHECKID_SETUP@));
    let upto5 = upto4.push((KEY_RETURN_TO@, return_to));
    let upto6 = upto5.push((KEY_REALM@, realm));
    assert(upto6 =~= redirect_pairs(realm, return_to));
    lemma_values_of_push(upto0, KEY_NS@, OPENID_NS@, key);
    lemma_values_of_push(upto1, KEY_IDENTITY@, IDENTIFIER_SELECT@, key);
    lemma_values_of_push(upto2, KEY_CLAIMED_ID@, IDENTIFIER_SELECT@, key);
    lemma_values_of_push(upto3, KEY_MODE@, CHECKID_SETUP@, key);
    lemma_values_of_push(upto4, KEY_RETURN_TO@, return_to, key);
    lemma_values_of_push(upto5, KEY_REALM@, realm, key);
}

} // verus!
