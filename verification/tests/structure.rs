//! The parts of a validation that need no key: the shape of a token, its
//! header, the lookup in a key set, and the rules on claims.

use base64::Engine;
use validator::claims::{check_claims, claims_from, find_member, Claims, Member, MemberValue};
use validator::error::{FetchFailure, ValidationError};
use validator::keys::{
    find_key, import_key, key_material, receive, resolve_key, wrap_certificate, Fetched,
    KeyMaterial, JWK, JWKS,
};
use validator::pipeline::{begin, conclude, Config, Outcome, Step};
use validator::token::{decode_token_header, key_id, split_token, Algorithm, RsaScheme};
use validator::validate::decode_payload;

fn encoded(json: &str) -> String {
    base64::engine::general_purpose::URL_SAFE_NO_PAD.encode(json)
}

fn token_with_header(header: &str) -> String {
    format!("{}.{}.{}", encoded(header), encoded("{}"), "c2ln")
}

fn entry(kid: &str, x5c: Option<Vec<&str>>, n: Option<&str>, e: Option<&str>) -> JWK {
    JWK {
        kty: "RSA".to_string(),
        use_field: Some("sig".to_string()),
        kid: kid.to_string(),
        x5t: Some("thumbprint".to_string()),
        n: n.map(str::to_string),
        e: e.map(str::to_string),
        x5c: x5c.map(|chain| chain.into_iter().map(str::to_string).collect()),
    }
}

fn answer(set: JWKS) -> Fetched {
    Fetched::Answer { status: 200, document: Some(set) }
}

fn claims(exp: u64, aud: &str) -> Claims {
    Claims { sub: "user-1".to_string(), exp, aud: aud.to_string() }
}

#[test]
fn three_segments_are_split_at_the_delimiters() {
    let parts = split_token("head.body.sign").unwrap();
    assert_eq!(parts.header, "head");
    assert_eq!(parts.payload, "body");
    assert_eq!(parts.signature, "sign");
    assert_eq!(parts.message, "head.body");
}

#[test]
fn empty_segments_are_segments() {
    let parts = split_token("..").unwrap();
    assert_eq!(parts.header, "");
    assert_eq!(parts.payload, "");
    assert_eq!(parts.signature, "");
    assert_eq!(parts.message, ".");
    let parts = split_token("a..c").unwrap();
    assert_eq!(parts.header, "a");
    assert_eq!(parts.payload, "");
    assert_eq!(parts.signature, "c");
    assert_eq!(parts.message, "a.");
}

#[test]
fn segments_are_counted_in_characters() {
    let parts = split_token("h\u{e9}\u{1f511}.p\u{e4}y.s\u{ef}g").unwrap();
    assert_eq!(parts.header, "h\u{e9}\u{1f511}");
    assert_eq!(parts.payload, "p\u{e4}y");
    assert_eq!(parts.signature, "s\u{ef}g");
    assert_eq!(parts.message, "h\u{e9}\u{1f511}.p\u{e4}y");
}

#[test]
fn other_segment_counts_are_refused() {
    assert!(split_token("").is_none());
    assert!(split_token("abc").is_none());
    assert!(split_token("a.b").is_none());
    assert!(split_token(".").is_none());
    assert!(split_token("a.b.c.d").is_none());
    assert!(split_token("...").is_none());
    assert!(split_token("a.b.c.").is_none());
}

#[test]
fn header_gives_algorithm_and_key_identifier() {
    let token = token_with_header(r#"{"alg":"RS256","typ":"JWT","kid":"key-1"}"#);
    let header = decode_token_header(&token).unwrap();
    assert_eq!(header.alg, Algorithm::RS256);
    assert_eq!(header.kid, Some("key-1".to_string()));
    assert_eq!(key_id(&token), Ok("key-1".to_string()));
}

#[test]
fn header_is_read_from_the_first_segment_alone() {
    let header = encoded(r#"{"alg":"PS384","kid":"k"}"#);
    let one = format!("{}.{}.{}", header, "!!", "??");
    let other = format!("{}.{}.{}", header, "", "");
    assert_eq!(decode_token_header(&one).unwrap().alg, Algorithm::PS384);
    assert_eq!(key_id(&one), key_id(&other));
}

#[test]
fn every_algorithm_is_told_apart() {
    let cases = [
        ("HS256", Algorithm::HS256),
        ("HS384", Algorithm::HS384),
        ("HS512", Algorithm::HS512),
        ("ES256", Algorithm::ES256),
        ("ES384", Algorithm::ES384),
        ("RS256", Algorithm::RS256),
        ("RS384", Algorithm::RS384),
        ("RS512", Algorithm::RS512),
        ("PS256", Algorithm::PS256),
        ("PS384", Algorithm::PS384),
        ("PS512", Algorithm::PS512),
        ("EdDSA", Algorithm::EdDSA),
    ];
    for (name, expected) in cases {
        let token = token_with_header(&format!(r#"{{"alg":"{}","kid":"k"}}"#, name));
        assert_eq!(decode_token_header(&token).unwrap().alg, expected);
    }
}

#[test]
fn rsa_schemes_are_the_rsa_algorithms() {
    assert_eq!(Algorithm::RS256.rsa_scheme(), Some(RsaScheme::RS256));
    assert_eq!(Algorithm::RS384.rsa_scheme(), Some(RsaScheme::RS384));
    assert_eq!(Algorithm::RS512.rsa_scheme(), Some(RsaScheme::RS512));
    assert_eq!(Algorithm::PS256.rsa_scheme(), Some(RsaScheme::PS256));
    assert_eq!(Algorithm::PS384.rsa_scheme(), Some(RsaScheme::PS384));
    assert_eq!(Algorithm::PS512.rsa_scheme(), Some(RsaScheme::PS512));
    assert_eq!(Algorithm::HS256.rsa_scheme(), None);
    assert_eq!(Algorithm::HS384.rsa_scheme(), None);
    assert_eq!(Algorithm::HS512.rsa_scheme(), None);
    assert_eq!(Algorithm::ES256.rsa_scheme(), None);
    assert_eq!(Algorithm::ES384.rsa_scheme(), None);
    assert_eq!(Algorithm::EdDSA.rsa_scheme(), None);
}

#[test]
fn header_without_key_identifier_is_missing_key_id() {
    let token = token_with_header(r#"{"alg":"RS256","typ":"JWT"}"#);
    assert_eq!(decode_token_header(&token).err(), Some(ValidationError::MissingKeyId));
    assert_eq!(key_id(&token), Err(ValidationError::MissingKeyId));
    let token = "eyJhbGciOiJSUzI1NiIsInR5cCI6IkpXVCJ9.e30.c2ln";
    assert_eq!(decode_token_header(token).err(), Some(ValidationError::MissingKeyId));
    assert_eq!(key_id(token), Err(ValidationError::MissingKeyId));
}

#[test]
fn header_with_key_identifier_is_given_whole() {
    let token = token_with_header(r#"{"alg":"PS512","kid":""}"#);
    let header = decode_token_header(&token).unwrap();
    assert_eq!(header.alg, Algorithm::PS512);
    assert_eq!(header.kid, Some(String::new()));
    assert_eq!(key_id(&token), Ok(String::new()));
}

#[test]
fn malformed_tokens_are_malformed() {
    let good = encoded(r#"{"alg":"RS256","kid":"k"}"#);
    let not_json = encoded("not json");
    let no_alg = encoded(r#"{"kid":"k"}"#);
    let cases = [
        String::new(),
        "abc".to_string(),
        format!("{}.e30", good),
        format!("{}.e30.c2ln.more", good),
        "%%%.e30.c2ln".to_string(),
        format!("{}.e30.c2ln", not_json),
        format!("{}.e30.c2ln", no_alg),
        format!("{}=.e30.c2ln", good),
    ];
    for token in cases {
        assert_eq!(
            decode_token_header(&token).err(),
            Some(ValidationError::MalformedToken),
            "{:?}",
            token
        );
        assert_eq!(key_id(&token), Err(ValidationError::MalformedToken));
    }
}

#[test]
fn unsigned_tokens_have_no_header() {
    let token = token_with_header(r#"{"alg":"none","kid":"k"}"#);
    assert_eq!(decode_token_header(&token).err(), Some(ValidationError::MalformedToken));
}

#[test]
fn lookup_finds_the_entry_of_that_name() {
    let set = JWKS {
        keys: vec![
            entry("one", None, None, None),
            entry("two", None, None, None),
            entry("three", None, None, None),
        ],
    };
    assert_eq!(find_key(&set, "one"), Some(0));
    assert_eq!(find_key(&set, "two"), Some(1));
    assert_eq!(find_key(&set, "three"), Some(2));
}

#[test]
fn lookup_compares_names_exactly() {
    let set = JWKS { keys: vec![entry("key", None, None, None)] };
    assert_eq!(find_key(&set, "Key"), None);
    assert_eq!(find_key(&set, "key "), None);
    assert_eq!(find_key(&set, "ke"), None);
    assert_eq!(find_key(&set, ""), None);
    assert_eq!(find_key(&JWKS { keys: vec![] }, "key"), None);
}

#[test]
fn first_of_two_entries_of_one_name_wins() {
    let set = JWKS {
        keys: vec![
            entry("other", None, None, None),
            entry("twice", None, Some("Zmlyc3Q"), Some("AQAB")),
            entry("twice", None, Some("c2Vjb25k"), Some("AQAB")),
        ],
    };
    assert_eq!(find_key(&set, "twice"), Some(1));
    let key = resolve_key(answer(set), "twice").unwrap();
    assert_eq!(
        key.material(),
        &KeyMaterial::Components { n: "Zmlyc3Q".to_string(), e: "AQAB".to_string() }
    );
}

#[test]
fn certificate_is_wrapped_in_pem_delimiters() {
    assert_eq!(
        wrap_certificate("TUlJ"),
        "-----BEGIN CERTIFICATE-----\nTUlJ\n-----END CERTIFICATE-----\n"
    );
    assert_eq!(
        wrap_certificate(""),
        "-----BEGIN CERTIFICATE-----\n\n-----END CERTIFICATE-----\n"
    );
}

#[test]
fn first_certificate_of_the_chain_is_preferred() {
    let both = entry("k", Some(vec!["Zmlyc3Q", "c2Vjb25k"]), Some("bW9k"), Some("AQAB"));
    assert_eq!(
        key_material(&both),
        Ok(KeyMaterial::Certificate {
            pem: "-----BEGIN CERTIFICATE-----\nZmlyc3Q\n-----END CERTIFICATE-----\n".to_string()
        })
    );
}

#[test]
fn modulus_and_exponent_serve_without_a_chain() {
    let raw = entry("k", None, Some("bW9k"), Some("AQAB"));
    assert_eq!(
        key_material(&raw),
        Ok(KeyMaterial::Components { n: "bW9k".to_string(), e: "AQAB".to_string() })
    );
}

#[test]
fn empty_chain_is_missing_material() {
    let empty = entry("k", Some(vec![]), None, None);
    assert_eq!(key_material(&empty), Err(ValidationError::KeyMaterialMissing));
    let empty_with_components = entry("k", Some(vec![]), Some("bW9k"), Some("AQAB"));
    assert_eq!(key_material(&empty_with_components), Err(ValidationError::KeyMaterialMissing));
}

#[test]
fn entry_without_any_form_is_missing_material() {
    assert_eq!(
        key_material(&entry("k", None, None, None)),
        Err(ValidationError::KeyMaterialMissing)
    );
    assert_eq!(
        key_material(&entry("k", None, Some("bW9k"), None)),
        Err(ValidationError::KeyMaterialMissing)
    );
    assert_eq!(
        key_material(&entry("k", None, None, Some("AQAB"))),
        Err(ValidationError::KeyMaterialMissing)
    );
}

#[test]
fn material_that_is_no_key_is_invalid() {
    let not_pem = KeyMaterial::Certificate { pem: "no certificate".to_string() };
    assert_eq!(import_key(not_pem).err(), Some(ValidationError::KeyMaterialInvalid));
    let not_der = KeyMaterial::Certificate { pem: wrap_certificate("TUlJ") };
    assert_eq!(import_key(not_der).err(), Some(ValidationError::KeyMaterialInvalid));
    let not_base64 = KeyMaterial::Certificate { pem: wrap_certificate("%%%") };
    assert_eq!(import_key(not_base64).err(), Some(ValidationError::KeyMaterialInvalid));
    let bad_modulus = KeyMaterial::Components { n: "%%%".to_string(), e: "AQAB".to_string() };
    assert_eq!(import_key(bad_modulus).err(), Some(ValidationError::KeyMaterialInvalid));
    let bad_exponent = KeyMaterial::Components { n: "bW9k".to_string(), e: "=".to_string() };
    assert_eq!(import_key(bad_exponent).err(), Some(ValidationError::KeyMaterialInvalid));
}

#[test]
fn only_an_answer_of_status_200_with_a_document_gives_a_key_set() {
    let set = JWKS { keys: vec![entry("key-1", None, None, None)] };
    let received = receive(Fetched::Answer { status: 200, document: Some(set) }).unwrap();
    assert_eq!(received.keys.len(), 1);
    assert_eq!(received.keys[0].kid, "key-1");
    assert_eq!(receive(Fetched::Nothing).err(), Some(FetchFailure::Transport));
    assert_eq!(
        receive(Fetched::Answer { status: 200, document: None }).err(),
        Some(FetchFailure::Malformed)
    );
    for status in [0, 199, 201, 204, 302, 404, 503, u16::MAX] {
        let set = JWKS { keys: vec![entry("key-1", None, None, None)] };
        assert_eq!(
            receive(Fetched::Answer { status, document: Some(set) }).err(),
            Some(FetchFailure::Status(status))
        );
        assert_eq!(
            receive(Fetched::Answer { status, document: None }).err(),
            Some(FetchFailure::Status(status))
        );
    }
}

#[test]
fn resolving_reports_each_failure() {
    assert_eq!(
        resolve_key(Fetched::Nothing, "k").err(),
        Some(ValidationError::KeySetUnavailable(FetchFailure::Transport))
    );
    assert_eq!(
        resolve_key(Fetched::Answer { status: 503, document: None }, "k").err(),
        Some(ValidationError::KeySetUnavailable(FetchFailure::Status(503)))
    );
    assert_eq!(
        resolve_key(Fetched::Answer { status: 200, document: None }, "k").err(),
        Some(ValidationError::KeySetUnavailable(FetchFailure::Malformed))
    );
    let set = JWKS {
        keys: vec![
            entry("empty", Some(vec![]), None, None),
            entry("garbage", Some(vec!["%%%"]), None, None),
        ],
    };
    assert_eq!(
        resolve_key(answer(set.clone()), "absent").err(),
        Some(ValidationError::KeyNotFound("absent".to_string()))
    );
    assert_eq!(
        resolve_key(answer(set.clone()), "empty").err(),
        Some(ValidationError::KeyMaterialMissing)
    );
    assert_eq!(
        resolve_key(answer(set.clone()), "garbage").err(),
        Some(ValidationError::KeyMaterialInvalid)
    );
    assert_eq!(
        resolve_key(Fetched::Answer { status: 500, document: Some(set) }, "empty").err(),
        Some(ValidationError::KeySetUnavailable(FetchFailure::Status(500)))
    );
}

#[test]
fn token_is_good_until_the_second_of_its_expiry() {
    let now = 1_800_000_000;
    assert_eq!(check_claims(&claims(now - 1, "api"), "api", now, 0), Err(ValidationError::TokenExpired));
    assert_eq!(check_claims(&claims(now, "api"), "api", now, 0), Err(ValidationError::TokenExpired));
    assert_eq!(check_claims(&claims(now + 1, "api"), "api", now, 0), Ok(()));
    assert_eq!(check_claims(&claims(0, "api"), "api", 0, 0), Err(ValidationError::TokenExpired));
    assert_eq!(check_claims(&claims(1, "api"), "api", 0, 0), Ok(()));
}

#[test]
fn leeway_extends_the_life_of_a_token() {
    let now = 1_800_000_000;
    assert_eq!(check_claims(&claims(now - 30, "api"), "api", now, 31), Ok(()));
    assert_eq!(check_claims(&claims(now - 30, "api"), "api", now, 30), Err(ValidationError::TokenExpired));
    assert_eq!(check_claims(&claims(now - 30, "api"), "api", now, 29), Err(ValidationError::TokenExpired));
    assert_eq!(check_claims(&claims(u64::MAX, "api"), "api", u64::MAX, 1), Ok(()));
    assert_eq!(check_claims(&claims(u64::MAX, "api"), "api", u64::MAX, 0), Err(ValidationError::TokenExpired));
    assert_eq!(check_claims(&claims(5, "api"), "api", u64::MAX, u64::MAX), Ok(()));
}

#[test]
fn audience_is_compared_exactly() {
    let now = 1_800_000_000;
    let good = claims(now + 60, "api://orders");
    assert_eq!(check_claims(&good, "api://orders", now, 0), Ok(()));
    for expected in ["API://orders", "api://orders ", " api://orders", "api://order", ""] {
        assert_eq!(
            check_claims(&good, expected, now, 0),
            Err(ValidationError::AudienceMismatch),
            "{:?}",
            expected
        );
    }
}

#[test]
fn expiry_is_judged_before_audience() {
    let now = 1_800_000_000;
    assert_eq!(
        check_claims(&claims(now - 1, "other"), "api", now, 0),
        Err(ValidationError::TokenExpired)
    );
}

#[test]
fn payload_gives_the_three_claims() {
    let payload = encoded(r#"{"sub":"user-1","exp":1800000060,"aud":"api","extra":[1,2]}"#);
    assert_eq!(
        decode_payload(&payload),
        Ok(Claims { sub: "user-1".to_string(), exp: 1_800_000_060, aud: "api".to_string() })
    );
}

#[test]
fn last_of_two_members_of_one_name_is_read() {
    let payload = encoded(r#"{"sub":"first","sub":"second","exp":7,"aud":"api"}"#);
    assert_eq!(
        decode_payload(&payload),
        Ok(Claims { sub: "second".to_string(), exp: 7, aud: "api".to_string() })
    );
}

#[test]
fn expiry_may_be_any_number_of_64_bits() {
    let payload = encoded(r#"{"sub":"u","exp":18446744073709551615,"aud":"api"}"#);
    assert_eq!(decode_payload(&payload).map(|claims| claims.exp), Ok(u64::MAX));
    let payload = encoded(r#"{"sub":"u","exp":18446744073709551616,"aud":"api"}"#);
    assert_eq!(decode_payload(&payload), Err(ValidationError::MalformedToken));
    let payload = encoded(r#"{"sub":"u","exp":0,"aud":"api"}"#);
    assert_eq!(decode_payload(&payload).map(|claims| claims.exp), Ok(0));
}

#[test]
fn member_is_found_by_its_name() {
    let members = vec![
        Member { name: "aud".to_string(), value: MemberValue::Text("api".to_string()) },
        Member { name: "exp".to_string(), value: MemberValue::Number(7) },
        Member { name: "nested".to_string(), value: MemberValue::Other },
        Member { name: "exp".to_string(), value: MemberValue::Number(8) },
    ];
    assert_eq!(find_member(&members, "aud"), Some(&MemberValue::Text("api".to_string())));
    assert_eq!(find_member(&members, "exp"), Some(&MemberValue::Number(7)));
    assert_eq!(find_member(&members, "nested"), Some(&MemberValue::Other));
    assert_eq!(find_member(&members, "sub"), None);
    assert_eq!(find_member(&members, "EXP"), None);
    assert_eq!(find_member(&Vec::new(), "exp"), None);
}

#[test]
fn claims_need_all_three_members_of_the_right_kind() {
    let text = |name: &str, value: &str| Member {
        name: name.to_string(),
        value: MemberValue::Text(value.to_string()),
    };
    let number = |name: &str, value: u64| Member {
        name: name.to_string(),
        value: MemberValue::Number(value),
    };
    let other = |name: &str| Member { name: name.to_string(), value: MemberValue::Other };
    assert_eq!(
        claims_from(&vec![number("exp", 9), text("aud", "api"), other("x"), text("sub", "u")]),
        Some(Claims { sub: "u".to_string(), exp: 9, aud: "api".to_string() })
    );
    assert_eq!(claims_from(&vec![]), None);
    assert_eq!(claims_from(&vec![number("exp", 9), text("aud", "api")]), None);
    assert_eq!(claims_from(&vec![text("sub", "u"), text("aud", "api")]), None);
    assert_eq!(claims_from(&vec![text("sub", "u"), number("exp", 9)]), None);
    assert_eq!(claims_from(&vec![number("sub", 1), number("exp", 9), text("aud", "api")]), None);
    assert_eq!(claims_from(&vec![text("sub", "u"), text("exp", "9"), text("aud", "api")]), None);
    assert_eq!(claims_from(&vec![text("sub", "u"), number("exp", 9), other("aud")]), None);
}

#[test]
fn payload_without_the_three_claims_is_malformed() {
    let cases = [
        "%%%".to_string(),
        encoded("not json"),
        encoded("[]"),
        encoded("7"),
        encoded(r#""sub""#),
        encoded("{}"),
        encoded(r#"{"exp":1,"aud":"api"}"#),
        encoded(r#"{"sub":"u","aud":"api"}"#),
        encoded(r#"{"sub":"u","exp":1}"#),
        encoded(r#"{"sub":7,"exp":1,"aud":"api"}"#),
        encoded(r#"{"sub":"u","exp":"1","aud":"api"}"#),
        encoded(r#"{"sub":"u","exp":-1,"aud":"api"}"#),
        encoded(r#"{"sub":"u","exp":1.5,"aud":"api"}"#),
        encoded(r#"{"sub":"u","exp":1,"aud":["api"]}"#),
    ];
    for payload in cases {
        assert_eq!(decode_payload(&payload), Err(ValidationError::MalformedToken), "{:?}", payload);
    }
}

#[test]
fn settings_start_without_leeway() {
    let config = Config::new("https://issuer.example/keys", "api");
    assert_eq!(config.jwks_url, "https://issuer.example/keys");
    assert_eq!(config.audience, "api");
    assert_eq!(config.leeway, 0);
}

#[test]
fn token_that_names_a_key_asks_for_the_key_set() {
    let config = Config::new("https://issuer.example/keys", "api");
    let token = token_with_header(r#"{"alg":"RS256","kid":"key-1"}"#);
    assert_eq!(
        begin(&config, &token),
        Step::Fetch { url: "https://issuer.example/keys".to_string(), kid: "key-1".to_string() }
    );
}

#[test]
fn token_without_key_identifier_ends_before_any_fetch() {
    let config = Config::new("https://issuer.example/keys", "api");
    let token = token_with_header(r#"{"alg":"RS256"}"#);
    assert_eq!(begin(&config, &token), Step::Done(Outcome::Invalid(ValidationError::MissingKeyId)));
    let set = JWKS { keys: vec![entry("key-1", None, None, None)] };
    for fetched in [Fetched::Answer { status: 200, document: Some(set) }, Fetched::Nothing] {
        assert_eq!(
            conclude(&config, &token, fetched, 1_800_000_000),
            Outcome::Invalid(ValidationError::MissingKeyId)
        );
    }
}

#[test]
fn malformed_token_ends_before_any_fetch() {
    let config = Config::new("https://issuer.example/keys", "api");
    assert_eq!(
        begin(&config, "not a token"),
        Step::Done(Outcome::Invalid(ValidationError::MalformedToken))
    );
    assert_eq!(
        conclude(&config, "not a token", Fetched::Nothing, 0),
        Outcome::Invalid(ValidationError::MalformedToken)
    );
}

#[test]
fn failed_fetch_ends_in_key_set_unavailable() {
    let config = Config::new("https://issuer.example/keys", "api");
    let token = token_with_header(r#"{"alg":"RS256","kid":"key-1"}"#);
    let set = JWKS { keys: vec![entry("key-1", None, Some("bW9k"), Some("AQAB"))] };
    let cases = [
        (Fetched::Nothing, FetchFailure::Transport),
        (Fetched::Answer { status: 404, document: None }, FetchFailure::Status(404)),
        (Fetched::Answer { status: 500, document: Some(set.clone()) }, FetchFailure::Status(500)),
        (Fetched::Answer { status: 204, document: None }, FetchFailure::Status(204)),
        (Fetched::Answer { status: 301, document: Some(set) }, FetchFailure::Status(301)),
        (Fetched::Answer { status: 200, document: None }, FetchFailure::Malformed),
    ];
    for (fetched, failure) in cases {
        assert_eq!(
            conclude(&config, &token, fetched, 1_800_000_000),
            Outcome::Invalid(ValidationError::KeySetUnavailable(failure))
        );
    }
}

#[test]
fn unknown_key_identifier_ends_in_key_not_found() {
    let config = Config::new("https://issuer.example/keys", "api");
    let token = token_with_header(r#"{"alg":"RS256","kid":"rotated-out"}"#);
    let set = JWKS { keys: vec![entry("key-1", None, Some("bW9k"), Some("AQAB"))] };
    assert_eq!(
        conclude(&config, &token, Fetched::Answer { status: 200, document: Some(set) }, 1_800_000_000),
        Outcome::Invalid(ValidationError::KeyNotFound("rotated-out".to_string()))
    );
}

#[test]
fn every_error_has_its_sentence() {
    let cases = [
        (ValidationError::MalformedToken, "the token is malformed"),
        (ValidationError::MissingKeyId, "the token names no key"),
        (
            ValidationError::KeySetUnavailable(FetchFailure::Transport),
            "the key set is unavailable: the endpoint could not be reached",
        ),
        (
            ValidationError::KeySetUnavailable(FetchFailure::Status(500)),
            "the key set is unavailable: the endpoint answered with an error status",
        ),
        (
            ValidationError::KeySetUnavailable(FetchFailure::Malformed),
            "the key set is unavailable: the answer is not a key-set document",
        ),
        (ValidationError::KeyNotFound("key-9".to_string()), "the key set holds no key named key-9"),
        (ValidationError::KeyMaterialMissing, "the key entry holds no key material"),
        (ValidationError::KeyMaterialInvalid, "the key material is not a key"),
        (ValidationError::AlgorithmMismatch, "the declared algorithm does not fit the key"),
        (ValidationError::SignatureInvalid, "the signature is invalid"),
        (ValidationError::TokenExpired, "the token has expired"),
        (ValidationError::AudienceMismatch, "the token is meant for another audience"),
    ];
    for (error, sentence) in cases {
        assert_eq!(error.reason(), sentence);
    }
    assert_eq!(FetchFailure::Status(404).reason(), "the endpoint answered with an error status");
}
