use steam_openid::{
    conclude, contains_line, is_confirmed, prepare, submission, verify, CallbackAssertion,
    VerifyError,
};

const CLAIMED: &str = "https://steamcommunity.com/openid/id/76561197960287930";
const CONFIRMED: &str = "ns:http://specs.openid.net/auth/2.0\nis_valid:true\n";
const REFUSED: &str = "ns:http://specs.openid.net/auth/2.0\nis_valid:false";

fn callback(mode: &str, claimed_id: &str) -> String {
    let pairs = vec![
        ("openid.ns", "http://specs.openid.net/auth/2.0"),
        ("openid.mode", mode),
        ("openid.op_endpoint", "https://steamcommunity.com/openid/login"),
        ("openid.claimed_id", claimed_id),
        ("openid.identity", claimed_id),
        ("openid.return_to", "https://example.com/callback"),
        ("openid.response_nonce", "2024-05-01T10:20:30Zabc+def/ghi="),
        ("openid.assoc_handle", "1234567890"),
        ("openid.signed", "signed,op_endpoint,claimed_id,identity,return_to,response_nonce,assoc_handle"),
        ("openid.sig", "W0u5qRpGq4DpsObiLrN2qOqRQ7c="),
    ];
    serde_urlencoded::to_string(&pairs).unwrap()
}

fn without(query: &str, name: &str) -> String {
    let pairs = serde_urlencoded::from_str::<Vec<(String, String)>>(query).unwrap();
    let kept: Vec<(String, String)> = pairs.into_iter().filter(|(key, _)| key != name).collect();
    serde_urlencoded::to_string(&kept).unwrap()
}

fn decoded(body: &str) -> Vec<(String, String)> {
    serde_urlencoded::from_str::<Vec<(String, String)>>(body).unwrap()
}

fn pair(name: &str, value: &str) -> (String, String) {
    (name.to_owned(), value.to_owned())
}

#[test]
fn verify_accepts_a_confirmed_identity() {
    let query = callback("id_res", CLAIMED);
    assert_eq!(verify(&query, Some("is_valid:true")), Ok(76561197960287930));
    assert_eq!(verify(&query, Some(CONFIRMED)), Ok(76561197960287930));
}

#[test]
fn verify_denies_what_the_provider_refuses() {
    let query = callback("id_res", CLAIMED);
    assert_eq!(verify(&query, Some(REFUSED)), Err(VerifyError::Denied));
    assert_eq!(verify(&query, Some("")), Err(VerifyError::Denied));
}

#[test]
fn verify_reports_a_failed_exchange() {
    let query = callback("id_res", CLAIMED);
    assert_eq!(verify(&query, None), Err(VerifyError::BadRequestOrResponse));
}

#[test]
fn verify_rejects_a_query_without_signature() {
    let query = without(&callback("id_res", CLAIMED), "openid.sig");
    assert_eq!(verify(&query, Some(CONFIRMED)), Err(VerifyError::BadQuery));
    assert_eq!(verify(&query, Some(REFUSED)), Err(VerifyError::BadQuery));
    assert_eq!(verify(&query, None), Err(VerifyError::BadQuery));
    assert!(prepare(&query).is_err());
}

#[test]
fn verify_rejects_each_missing_required_field() {
    let full = callback("id_res", CLAIMED);
    for name in [
        "openid.ns",
        "openid.mode",
        "openid.op_endpoint",
        "openid.claimed_id",
        "openid.return_to",
        "openid.response_nonce",
        "openid.assoc_handle",
        "openid.signed",
        "openid.sig",
    ] {
        let query = without(&full, name);
        assert_eq!(verify(&query, Some(CONFIRMED)), Err(VerifyError::BadQuery), "{}", name);
    }
}

#[test]
fn verify_does_without_the_optional_fields() {
    let query = without(&callback("id_res", CLAIMED), "openid.identity");
    assert_eq!(verify(&query, Some(CONFIRMED)), Ok(76561197960287930));
    let with_handle = format!("{}&openid.invalidate_handle=old", query);
    assert_eq!(verify(&with_handle, Some(CONFIRMED)), Ok(76561197960287930));
}

#[test]
fn verify_rejects_an_empty_query() {
    assert_eq!(verify("", Some(CONFIRMED)), Err(VerifyError::BadQuery));
    assert_eq!(verify("&&&", Some(CONFIRMED)), Err(VerifyError::BadQuery));
    assert_eq!(verify("openid.sig", None), Err(VerifyError::BadQuery));
}

#[test]
fn verify_rejects_a_repeated_field() {
    let query = format!("{}&openid.sig=again", callback("id_res", CLAIMED));
    assert_eq!(verify(&query, Some(CONFIRMED)), Err(VerifyError::BadQuery));
    let query = format!("{}&openid.identity=again", callback("id_res", CLAIMED));
    assert_eq!(verify(&query, Some(CONFIRMED)), Err(VerifyError::BadQuery));
}

#[test]
fn verify_passes_over_unknown_fields() {
    let query = format!("utm=1&{}&openid.extra=x&utm=2", callback("id_res", CLAIMED));
    assert_eq!(verify(&query, Some(CONFIRMED)), Ok(76561197960287930));
}

#[test]
fn verify_rejects_a_confirmed_identity_of_another_shape() {
    let query = callback("id_res", "https://steamcommunity.com/openid/id/notanumber");
    assert_eq!(verify(&query, Some(CONFIRMED)), Err(VerifyError::BadRequestOrResponse));
    let query = callback("id_res", "https://steamcommunity.com/openid/id/7656119796028793");
    assert_eq!(verify(&query, Some(CONFIRMED)), Err(VerifyError::BadRequestOrResponse));
    let query = callback("id_res", "");
    assert_eq!(verify(&query, Some(CONFIRMED)), Err(VerifyError::BadRequestOrResponse));
}

#[test]
fn verify_denies_before_it_looks_at_the_identity() {
    let query = callback("id_res", "https://steamcommunity.com/openid/id/notanumber");
    assert_eq!(verify(&query, Some(REFUSED)), Err(VerifyError::Denied));
}

#[test]
fn verify_follows_the_answer_of_each_call() {
    let query = callback("id_res", CLAIMED);
    assert_eq!(verify(&query, Some(CONFIRMED)), Ok(76561197960287930));
    assert_eq!(verify(&query, Some(REFUSED)), Err(VerifyError::Denied));
    assert_eq!(verify(&query, Some(CONFIRMED)), Ok(76561197960287930));
}

#[test]
fn prepare_submits_check_authentication() {
    for mode in ["id_res", "cancel", "check_authentication", "", "checkid_setup"] {
        let ready = prepare(&callback(mode, CLAIMED)).unwrap();
        let sent = decoded(&ready.body);
        assert_eq!(sent[1], pair("openid.mode", "check_authentication"), "{:?}", mode);
        let modes = sent.iter().filter(|(key, _)| key == "openid.mode").count();
        assert_eq!(modes, 1);
        assert!(ready.body.contains("&openid.mode=check_authentication&"));
    }
}

#[test]
fn prepare_submits_the_same_body_whatever_the_mode() {
    let first = prepare(&callback("id_res", CLAIMED)).unwrap();
    let second = prepare(&callback("setup_needed", CLAIMED)).unwrap();
    assert_eq!(first.body, second.body);
}

#[test]
fn prepare_keeps_every_other_field() {
    let query = callback("id_res", CLAIMED);
    let ready = prepare(&query).unwrap();
    let received = decoded(&query);
    let sent = decoded(&ready.body);
    assert_eq!(sent.len(), received.len());
    for (got, had) in sent.iter().zip(received.iter()) {
        assert_eq!(got.0, had.0);
        if got.0 != "openid.mode" {
            assert_eq!(got.1, had.1);
        }
    }
    assert_eq!(ready.claimed_id, CLAIMED);
}

#[test]
fn prepare_writes_the_fields_in_table_order() {
    let query = "openid.sig=s%3D&openid.signed=a%2Cb&openid.assoc_handle=h&openid.response_nonce=n\
                 &openid.return_to=r&openid.claimed_id=c+d&openid.op_endpoint=e&openid.mode=id_res\
                 &openid.ns=x&other=1&openid.invalidate_handle=i";
    let ready = prepare(query).unwrap();
    assert_eq!(
        ready.body,
        "openid.ns=x&openid.mode=check_authentication&openid.op_endpoint=e&openid.claimed_id=c+d\
         &openid.return_to=r&openid.response_nonce=n&openid.invalidate_handle=i\
         &openid.assoc_handle=h&openid.signed=a%2Cb&openid.sig=s%3D"
    );
    assert_eq!(ready.claimed_id, "c d");
}

#[test]
fn prepare_decodes_what_it_is_given() {
    let query = callback("id_res", "caf\u{e9} & co");
    let ready = prepare(&query).unwrap();
    assert_eq!(ready.claimed_id, "caf\u{e9} & co");
    assert!(ready.body.contains("openid.claimed_id=caf%C3%A9+%26+co&"));
}

#[test]
fn submission_encodes_the_assertion() {
    let assertion = CallbackAssertion {
        ns: "n".to_owned(),
        mode: "id_res".to_owned(),
        op_endpoint: "o".to_owned(),
        claimed_id: "c/1".to_owned(),
        identity: Some("i".to_owned()),
        return_to: "r".to_owned(),
        response_nonce: "z".to_owned(),
        invalidate_handle: None,
        assoc_handle: "a".to_owned(),
        signed: "s".to_owned(),
        sig: "g".to_owned(),
    };
    let ready = submission(assertion).unwrap();
    assert_eq!(
        ready.body,
        "openid.ns=n&openid.mode=check_authentication&openid.op_endpoint=o\
         &openid.claimed_id=c%2F1&openid.identity=i&openid.return_to=r&openid.response_nonce=z\
         &openid.assoc_handle=a&openid.signed=s&openid.sig=g"
    );
    assert_eq!(ready.claimed_id, "c/1");
}

#[test]
fn conclude_decides_on_the_answer() {
    assert_eq!(conclude(CLAIMED, Some(CONFIRMED)), Ok(76561197960287930));
    assert_eq!(conclude(CLAIMED, Some(REFUSED)), Err(VerifyError::Denied));
    assert_eq!(conclude(CLAIMED, None), Err(VerifyError::BadRequestOrResponse));
    assert_eq!(conclude("nobody", Some(CONFIRMED)), Err(VerifyError::BadRequestOrResponse));
    assert_eq!(conclude("nobody", Some(REFUSED)), Err(VerifyError::Denied));
    assert_eq!(conclude("nobody", None), Err(VerifyError::BadRequestOrResponse));
}

#[test]
fn is_confirmed_wants_the_exact_line() {
    assert!(is_confirmed("is_valid:true"));
    assert!(is_confirmed("is_valid:true\n"));
    assert!(is_confirmed("\nis_valid:true"));
    assert!(is_confirmed("ns:x\nis_valid:true\nmore"));
    assert!(is_confirmed("is_valid:false\nis_valid:true"));
    assert!(!is_confirmed(""));
    assert!(!is_confirmed("\n"));
    assert!(!is_confirmed("is_valid:false"));
    assert!(!is_confirmed("is_valid:true "));
    assert!(!is_confirmed(" is_valid:true"));
    assert!(!is_confirmed("is_valid:true\r\n"));
    assert!(!is_confirmed("Is_valid:true"));
    assert!(!is_confirmed("is_valid:TRUE"));
    assert!(!is_confirmed("is_valid:true;"));
    assert!(!is_confirmed("xis_valid:true"));
    assert!(!is_confirmed("is_valid:\ntrue"));
    assert!(!is_confirmed("is_valid:tru"));
}

#[test]
fn is_confirmed_agrees_with_split() {
    for text in ["", "\n", "a", "is_valid:true", "is_valid:true\n\n", "\n\nis_valid:true",
        "a\nis_valid:true\rb\n", "is_valid:true\nis_valid:true", "\u{e9}\nis_valid:true",
        "is_valid:true\u{e9}"]
    {
        let expected = text.split('\n').any(|line| line == "is_valid:true");
        assert_eq!(is_confirmed(text), expected, "{:?}", text);
    }
}

#[test]
fn contains_line_finds_whole_lines_only() {
    assert!(contains_line("a\nb\nc", "b"));
    assert!(contains_line("a\nb\nc", "a"));
    assert!(contains_line("a\nb\nc", "c"));
    assert!(!contains_line("a\nb\nc", "a\nb"));
    assert!(!contains_line("abc", "b"));
    assert!(!contains_line("abc", ""));
    assert!(contains_line("", ""));
    assert!(contains_line("a\n", ""));
    assert!(contains_line("\na", ""));
    assert!(contains_line("a\n\nb", ""));
    assert!(!contains_line("a\nb", ""));
}
