use steam_openid::{redirect, redirect_form, try_redirect, LOGIN_URL};

fn query_pairs(url: &str) -> Vec<(String, String)> {
    let parsed = url::Url::parse(url).unwrap();
    serde_urlencoded::from_str::<Vec<(String, String)>>(parsed.query().unwrap()).unwrap()
}

fn pair(name: &str, value: &str) -> (String, String) {
    (name.to_owned(), value.to_owned())
}

#[test]
fn redirect_writes_the_expected_url() {
    let url = redirect("https://example.com", "https://example.com/callback");
    assert_eq!(
        url,
        "https://steamcommunity.com/openid/login\
         ?openid.ns=http%3A%2F%2Fspecs.openid.net%2Fauth%2F2.0\
         &openid.identity=http%3A%2F%2Fspecs.openid.net%2Fauth%2F2.0%2Fidentifier_select\
         &openid.claimed_id=http%3A%2F%2Fspecs.openid.net%2Fauth%2F2.0%2Fidentifier_select\
         &openid.mode=checkid_setup\
         &openid.return_to=https%3A%2F%2Fexample.com%2Fcallback\
         &openid.realm=https%3A%2F%2Fexample.com"
    );
}

#[test]
fn redirect_starts_at_the_login_endpoint() {
    let url = redirect("a", "b");
    assert_eq!(LOGIN_URL, "https://steamcommunity.com/openid/login");
    assert!(url.starts_with("https://steamcommunity.com/openid/login?"));
}

#[test]
fn redirect_query_decodes_to_the_six_parameters() {
    let realm = "https://example.com";
    let return_to = "https://example.com/auth/callback?session=abc-123_x.y~z";
    let pairs = query_pairs(&redirect(realm, return_to));
    assert_eq!(
        pairs,
        vec![
            pair("openid.ns", "http://specs.openid.net/auth/2.0"),
            pair("openid.identity", "http://specs.openid.net/auth/2.0/identifier_select"),
            pair("openid.claimed_id", "http://specs.openid.net/auth/2.0/identifier_select"),
            pair("openid.mode", "checkid_setup"),
            pair("openid.return_to", return_to),
            pair("openid.realm", realm),
        ]
    );
}

#[test]
fn redirect_is_deterministic() {
    let first = redirect("https://example.com", "https://example.com/callback");
    let second = redirect("https://example.com", "https://example.com/callback");
    assert_eq!(first, second);
}

#[test]
fn redirect_keeps_realm_and_return_to_apart() {
    let pairs = query_pairs(&redirect("realm-value", "return-value"));
    assert_eq!(pairs[4], pair("openid.return_to", "return-value"));
    assert_eq!(pairs[5], pair("openid.realm", "realm-value"));
}

#[test]
fn redirect_accepts_any_text() {
    let realm = "not a url & more=1";
    let return_to = "caf\u{e9} #frag 100%";
    let url = redirect(realm, return_to);
    assert_eq!(
        url,
        "https://steamcommunity.com/openid/login\
         ?openid.ns=http%3A%2F%2Fspecs.openid.net%2Fauth%2F2.0\
         &openid.identity=http%3A%2F%2Fspecs.openid.net%2Fauth%2F2.0%2Fidentifier_select\
         &openid.claimed_id=http%3A%2F%2Fspecs.openid.net%2Fauth%2F2.0%2Fidentifier_select\
         &openid.mode=checkid_setup\
         &openid.return_to=caf%C3%A9+%23frag+100%25\
         &openid.realm=not+a+url+%26+more%3D1"
    );
    let pairs = query_pairs(&url);
    assert_eq!(pairs[4], pair("openid.return_to", return_to));
    assert_eq!(pairs[5], pair("openid.realm", realm));
}

#[test]
fn redirect_accepts_empty_inputs() {
    let url = redirect("", "");
    assert!(url.ends_with("&openid.return_to=&openid.realm="));
    let pairs = query_pairs(&url);
    assert_eq!(pairs.len(), 6);
    assert_eq!(pairs[4], pair("openid.return_to", ""));
    assert_eq!(pairs[5], pair("openid.realm", ""));
}

#[test]
fn try_redirect_agrees_with_redirect() {
    let realm = "https://example.com";
    let return_to = "https://example.com/callback";
    assert_eq!(try_redirect(realm, return_to), Some(redirect(realm, return_to)));
    assert!(try_redirect("", "\n\t ").is_some());
}

#[test]
fn redirect_form_lists_the_parameters_in_order() {
    assert_eq!(
        redirect_form("the realm", "the return"),
        vec![
            pair("openid.ns", "http://specs.openid.net/auth/2.0"),
            pair("openid.identity", "http://specs.openid.net/auth/2.0/identifier_select"),
            pair("openid.claimed_id", "http://specs.openid.net/auth/2.0/identifier_select"),
            pair("openid.mode", "checkid_setup"),
            pair("openid.return_to", "the return"),
            pair("openid.realm", "the realm"),
        ]
    );
}
