use rego::error::{Cause, Error, Kind};
use rego::jwt::{AccessToken, AccessTokenBody, JwtEncoder, WebToken};

#[derive(Debug, Clone, PartialEq)]
struct UserId {
    user_id: u64,
}

impl AccessTokenBody for UserId {
    fn type_tag() -> &'static str {
        "UserId"
    }

    fn to_json(&self) -> Result<String, String> {
        let mut map = serde_json::Map::new();
        map.insert("user_id".to_string(), serde_json::Value::from(self.user_id));
        serde_json::to_string(&serde_json::Value::Object(map)).map_err(|e| e.to_string())
    }

    fn from_json(text: &str) -> Result<Self, String> {
        let value: serde_json::Value = serde_json::from_str(text).map_err(|e| e.to_string())?;
        match value.get("user_id").and_then(|v| v.as_u64()) {
            Some(user_id) => Ok(UserId { user_id }),
            None => Err("missing field `user_id`".to_string()),
        }
    }
}

#[derive(Debug, Clone, PartialEq)]
struct Note {
    text: String,
}

impl AccessTokenBody for Note {
    fn type_tag() -> &'static str {
        "Note"
    }

    fn to_json(&self) -> Result<String, String> {
        serde_json::to_string(&self.text).map_err(|e| e.to_string())
    }

    fn from_json(text: &str) -> Result<Self, String> {
        serde_json::from_str::<String>(text).map(|text| Note { text }).map_err(|e| e.to_string())
    }
}

/// A payload that cannot be written.
struct Unwritable;

impl AccessTokenBody for Unwritable {
    fn type_tag() -> &'static str {
        "Unwritable"
    }

    fn to_json(&self) -> Result<String, String> {
        Err("cannot be written".to_string())
    }

    fn from_json(_text: &str) -> Result<Self, String> {
        Err("cannot be read".to_string())
    }
}

/// A payload with the same JSON shape as `UserId` under another tag.
#[derive(Debug, PartialEq)]
struct AdminId {
    user_id: u64,
}

impl AccessTokenBody for AdminId {
    fn type_tag() -> &'static str {
        "AdminId"
    }

    fn to_json(&self) -> Result<String, String> {
        UserId { user_id: self.user_id }.to_json()
    }

    fn from_json(text: &str) -> Result<Self, String> {
        UserId::from_json(text).map(|u| AdminId { user_id: u.user_id })
    }
}

const NOW: i64 = 1_700_000_000;

fn envelope(user_id: u64, now: i64, valid_secs: i64) -> WebToken {
    WebToken::issue(UserId { user_id }.to_json(), UserId::type_tag(), now, valid_secs).unwrap()
}

fn swap_char(text: &str, at: usize) -> String {
    let mut bytes = text.as_bytes().to_vec();
    bytes[at] = if bytes[at] == b'A' { b'B' } else { b'A' };
    String::from_utf8(bytes).unwrap()
}

#[test]
fn issue_then_decode_scenario() {
    let encoder = JwtEncoder::from_secret(b"secret");
    let token = envelope(42, NOW, 3600);
    assert_eq!(token.body, "{\"user_id\":42}");
    assert_eq!(token.body_type, "UserId");
    assert_eq!(token.exp, 1_700_003_600);

    let signed = encoder.encode(&token).unwrap();

    // decoded immediately, as the expected type
    let decoded = encoder.decode_at(&signed, NOW as u64).unwrap();
    assert_eq!(decoded, token);
    assert_eq!(decoded.get_body::<UserId>(), Ok(UserId { user_id: 42 }));

    // the same string, asking for another payload type
    assert_eq!(decoded.get_body::<Note>(), Err(Error::AuthFailed));
    assert_eq!(decoded.get_body::<AdminId>(), Err(Error::AuthFailed));

    // the clock advanced by 3601 s
    assert_eq!(encoder.decode_at(&signed, (NOW + 3601) as u64), Err(Error::AuthFailed));
}

#[test]
fn token_is_good_up_to_its_last_second() {
    let encoder = JwtEncoder::from_secret(b"secret");
    let signed = encoder.encode(&envelope(42, NOW, 3600)).unwrap();
    assert!(encoder.decode_at(&signed, 0).is_ok());
    assert!(encoder.decode_at(&signed, (NOW + 3599) as u64).is_ok());
    assert!(encoder.decode_at(&signed, (NOW + 3600) as u64).is_ok());
    assert_eq!(encoder.decode_at(&signed, (NOW + 3601) as u64), Err(Error::AuthFailed));
    assert_eq!(encoder.decode_at(&signed, u64::MAX), Err(Error::AuthFailed));
}

#[test]
fn round_trip_on_the_system_clock() {
    let encoder = JwtEncoder::from_secret(b"a longer secret, with \x00 bytes \xff in it");
    for user_id in [0, 1, 42, u64::MAX] {
        let body = UserId { user_id };
        let token = WebToken::new(&body, 3600).unwrap();
        assert_eq!(token.body_type, "UserId");
        let signed = encoder.encode(&token).unwrap();
        let decoded = encoder.decode(&signed).unwrap();
        assert_eq!(decoded, token);
        assert_eq!(decoded.get_body::<UserId>(), Ok(body));
    }
}

#[test]
fn round_trip_of_text_payloads() {
    let encoder = JwtEncoder::from_secret(b"secret");
    for text in ["", "plain", "with \"quotes\" and \\ backslash", "line\nbreak\ttab", "\u{e9}\u{1f600}", "{\"user_id\":42}"] {
        let body = Note { text: text.to_string() };
        let token = WebToken::new(&body, 60).unwrap();
        let signed = encoder.encode(&token).unwrap();
        let decoded = encoder.decode(&signed).unwrap();
        assert_eq!(decoded.get_body::<Note>(), Ok(body));
        assert_eq!(decoded.get_body::<UserId>(), Err(Error::AuthFailed));
    }
}

#[test]
fn new_sets_expiry_from_the_clock() {
    let before = chrono::Utc::now().timestamp();
    let token = WebToken::new(&UserId { user_id: 1 }, 3600).unwrap();
    let after = chrono::Utc::now().timestamp();
    assert!(token.exp >= (before + 3600) as u64);
    assert!(token.exp <= (after + 3600) as u64);
}

#[test]
fn zero_lifetime_expires_once_time_moves_on() {
    let encoder = JwtEncoder::from_secret(b"secret");
    let token = envelope(42, NOW, 0);
    assert_eq!(token.exp, NOW as u64);
    let signed = encoder.encode(&token).unwrap();
    assert!(encoder.decode_at(&signed, NOW as u64).is_ok());
    assert_eq!(encoder.decode_at(&signed, NOW as u64 + 1), Err(Error::AuthFailed));
}

#[test]
fn lifetime_in_the_past_is_expired_at_once() {
    let encoder = JwtEncoder::from_secret(b"secret");
    let token = envelope(42, NOW, -1);
    assert_eq!(token.exp, NOW as u64 - 1);
    let signed = encoder.encode(&token).unwrap();
    assert_eq!(encoder.decode_at(&signed, NOW as u64), Err(Error::AuthFailed));

    let stale = WebToken::new(&UserId { user_id: 42 }, -10).unwrap();
    let signed = encoder.encode(&stale).unwrap();
    assert_eq!(encoder.decode(&signed), Err(Error::AuthFailed));
}

#[test]
fn expiry_never_leaves_the_range_of_seconds_since_1970() {
    assert_eq!(envelope(1, 10, -20).exp, 0);
    assert_eq!(envelope(1, -100, 50).exp, 0);
    assert_eq!(envelope(1, -100, 150).exp, 50);
    assert_eq!(envelope(1, i64::MIN, i64::MIN).exp, 0);
    assert_eq!(envelope(1, i64::MAX, i64::MAX).exp, 18_446_744_073_709_551_614);
    assert_eq!(envelope(1, 0, 0).exp, 0);
}

#[test]
fn every_changed_character_is_refused() {
    let encoder = JwtEncoder::from_secret(b"secret");
    let signed = encoder.encode(&envelope(42, NOW, 3600)).unwrap();
    assert!(encoder.decode_at(&signed, NOW as u64).is_ok());
    for at in 0..signed.len() {
        let tampered = swap_char(&signed, at);
        assert_ne!(tampered, signed);
        assert_eq!(encoder.decode_at(&tampered, NOW as u64), Err(Error::AuthFailed), "at {}", at);
    }
}

#[test]
fn every_flipped_bit_of_a_character_is_refused() {
    let encoder = JwtEncoder::from_secret(b"secret");
    let signed = encoder.encode(&envelope(42, NOW, 3600)).unwrap();
    for at in 0..signed.len() {
        for bit in 0..7 {
            let mut bytes = signed.as_bytes().to_vec();
            bytes[at] ^= 1 << bit;
            if let Ok(tampered) = String::from_utf8(bytes) {
                assert_eq!(
                    encoder.decode_at(&tampered, NOW as u64),
                    Err(Error::AuthFailed),
                    "at {} bit {}",
                    at,
                    bit
                );
            }
        }
    }
}

#[test]
fn truncated_and_extended_tokens_are_refused() {
    let encoder = JwtEncoder::from_secret(b"secret");
    let signed = encoder.encode(&envelope(42, NOW, 3600)).unwrap();
    for len in 0..signed.len() {
        assert_eq!(encoder.decode_at(&signed[..len], NOW as u64), Err(Error::AuthFailed));
    }
    for extra in ["A", ".", ".A", " ", "="] {
        let longer = format!("{}{}", signed, extra);
        assert_eq!(encoder.decode_at(&longer, NOW as u64), Err(Error::AuthFailed));
    }
}

#[test]
fn token_of_another_secret_is_refused() {
    let ours = JwtEncoder::from_secret(b"secret");
    let theirs = JwtEncoder::from_secret(b"secreu");
    let signed = theirs.encode(&envelope(42, NOW, 3600)).unwrap();
    assert!(theirs.decode_at(&signed, NOW as u64).is_ok());
    assert_eq!(ours.decode_at(&signed, NOW as u64), Err(Error::AuthFailed));
    assert_eq!(ours.decode(&signed), Err(Error::AuthFailed));
}

#[test]
fn text_that_is_no_token_is_refused() {
    let encoder = JwtEncoder::from_secret(b"secret");
    for text in ["", ".", "..", "...", "a", "a.b", "a.b.c", "a.b.c.d", "Bearer x", "\u{e9}.\u{e9}.\u{e9}"] {
        assert_eq!(encoder.decode_at(text, 0), Err(Error::AuthFailed), "{:?}", text);
        assert_eq!(encoder.decode(text), Err(Error::AuthFailed), "{:?}", text);
    }
}

#[test]
fn signed_token_has_three_parts_and_a_fixed_header() {
    let encoder = JwtEncoder::from_secret(b"secret");
    let token = envelope(42, NOW, 3600);
    let signed = encoder.encode(&token).unwrap();
    let parts: Vec<&str> = signed.split('.').collect();
    assert_eq!(parts.len(), 3);
    // {"typ":"JWT","alg":"HS256"}
    assert_eq!(parts[0], "eyJ0eXAiOiJKV1QiLCJhbGciOiJIUzI1NiJ9");
    assert_ne!(signed, token.claims());
    // signing is a function of envelope and secret
    assert_eq!(encoder.encode(&token).unwrap(), signed);
    assert_ne!(JwtEncoder::from_secret(b"other").encode(&token).unwrap(), signed);
}

#[test]
fn known_token_decodes() {
    // HS256 over header and claims below with the secret "secret"
    let claims = "{\"body\":{\"user_id\":42},\"body_type\":\"UserId\",\"exp\":1700003600}";
    let key = jsonwebtoken::EncodingKey::from_secret(b"secret");
    let mut map = serde_json::Map::new();
    let mut body = serde_json::Map::new();
    body.insert("user_id".to_string(), serde_json::Value::from(42u64));
    map.insert("body".to_string(), serde_json::Value::Object(body));
    map.insert("body_type".to_string(), serde_json::Value::from("UserId"));
    map.insert("exp".to_string(), serde_json::Value::from(1_700_003_600u64));
    let reference =
        jsonwebtoken::encode(&jsonwebtoken::Header::default(), &serde_json::Value::Object(map), &key)
            .unwrap();

    let encoder = JwtEncoder::from_secret(b"secret");
    let token = envelope(42, NOW, 3600);
    assert_eq!(token.claims(), claims);
    assert_eq!(encoder.encode(&token).unwrap(), reference);
    assert_eq!(encoder.decode_at(&reference, NOW as u64), Ok(token));
}

#[test]
fn token_with_members_in_another_order_and_more_of_them_decodes() {
    let key = jsonwebtoken::EncodingKey::from_secret(b"secret");
    let claims = serde_json::value::RawValue::from_string(
        " { \"iss\" : \"x\", \"exp\" : 1700003600, \"body_type\" : \"Us\\u0065rId\", \"body\" : { \"user_id\" : 42 } } "
            .to_string(),
    )
    .unwrap();
    let signed = jsonwebtoken::encode(&jsonwebtoken::Header::default(), &claims, &key).unwrap();
    let encoder = JwtEncoder::from_secret(b"secret");
    let decoded = encoder.decode_at(&signed, NOW as u64).unwrap();
    assert_eq!(decoded.body, "{ \"user_id\" : 42 }");
    assert_eq!(decoded.body_type, "UserId");
    assert_eq!(decoded.exp, 1_700_003_600);
    assert_eq!(decoded.get_body::<UserId>(), Ok(UserId { user_id: 42 }));
}

#[test]
fn signed_claims_that_are_no_envelope_are_refused() {
    let key = jsonwebtoken::EncodingKey::from_secret(b"secret");
    let encoder = JwtEncoder::from_secret(b"secret");
    for claims in [
        "{}",
        "{\"body\":1,\"body_type\":\"UserId\"}",
        "{\"body\":1,\"exp\":1700003600}",
        "{\"body_type\":\"UserId\",\"exp\":1700003600}",
        "{\"body\":1,\"body_type\":7,\"exp\":1700003600}",
        "{\"body\":1,\"body_type\":null,\"exp\":1700003600}",
        "{\"body\":1,\"body_type\":\"UserId\",\"exp\":\"1700003600\"}",
        "{\"body\":1,\"body_type\":\"UserId\",\"exp\":-1}",
        "{\"body\":1,\"body_type\":\"UserId\",\"exp\":1.5}",
        "{\"body\":1,\"body_type\":\"UserId\",\"exp\":18446744073709551616}",
        "[1,2,3]",
        "\"text\"",
        "42",
    ] {
        let raw = serde_json::value::RawValue::from_string(claims.to_string()).unwrap();
        let signed = jsonwebtoken::encode(&jsonwebtoken::Header::default(), &raw, &key).unwrap();
        assert_eq!(encoder.decode_at(&signed, 0), Err(Error::AuthFailed), "{}", claims);
    }
}

#[test]
fn token_under_another_algorithm_is_refused() {
    let key = jsonwebtoken::EncodingKey::from_secret(b"secret");
    let raw = serde_json::value::RawValue::from_string(envelope(42, NOW, 3600).claims())
        .unwrap();
    let header = jsonwebtoken::Header::new(jsonwebtoken::Algorithm::HS384);
    let signed = jsonwebtoken::encode(&header, &raw, &key).unwrap();
    let encoder = JwtEncoder::from_secret(b"secret");
    assert_eq!(encoder.decode_at(&signed, NOW as u64), Err(Error::AuthFailed));
}

#[test]
fn clones_share_the_secret() {
    let encoder = JwtEncoder::from_secret(b"secret");
    let copy = encoder.clone();
    let signed = encoder.encode(&envelope(42, NOW, 3600)).unwrap();
    assert_eq!(copy.encode(&envelope(42, NOW, 3600)).unwrap(), signed);
    assert!(copy.decode_at(&signed, NOW as u64).is_ok());
    drop(encoder);
    assert!(copy.decode_at(&signed, NOW as u64).is_ok());
}

#[test]
fn empty_secret_signs_and_checks() {
    let encoder = JwtEncoder::from_secret(b"");
    let token = envelope(42, NOW, 3600);
    let signed = encoder.encode(&token).unwrap();
    assert_eq!(encoder.decode_at(&signed, NOW as u64), Ok(token));
}

#[test]
fn claims_are_written_member_by_member() {
    let token = WebToken { body: "[1,2]".to_string(), body_type: "a \"b\" \\ c\n".to_string(), exp: 0 };
    assert_eq!(
        token.claims(),
        "{\"body\":[1,2],\"body_type\":\"a \\\"b\\\" \\\\ c\\n\",\"exp\":0}"
    );
    let back = WebToken::from_claims(&token.claims()).unwrap();
    assert_eq!(back, token);

    let token = WebToken { body: "null".to_string(), body_type: String::new(), exp: u64::MAX };
    assert_eq!(
        token.claims(),
        "{\"body\":null,\"body_type\":\"\",\"exp\":18446744073709551615}"
    );
    assert_eq!(WebToken::from_claims(&token.claims()), Some(token));
}

#[test]
fn envelope_that_is_no_json_is_not_signed() {
    let encoder = JwtEncoder::from_secret(b"secret");
    // no JSON at all, more than one value, white space around the value, and
    // a text that would put a member of its own into the claims
    for body in ["", "not json", "{", "1 2", "{\"a\":1}}", " 1", "1 ", "\n{}", "1,\"x\":2", "1,\"exp\":9"] {
        let token = WebToken { body: body.to_string(), body_type: "UserId".to_string(), exp: 1 };
        assert!(!token.holds_json(), "{:?}", body);
        let failed = encoder.encode(&token).unwrap_err();
        assert_eq!(failed, Error::Internal(Cause::Encoding(body.to_string())), "{:?}", body);
        assert_eq!(failed.kind(), Kind::Internal);
    }
}

#[test]
fn envelope_that_holds_json_is_signed() {
    let encoder = JwtEncoder::from_secret(b"secret");
    for body in ["1", "null", "\"text\"", "[1, 2]", "{\"a\": {\"b\": []}}", "-1.5e3", "true"] {
        let token = WebToken { body: body.to_string(), body_type: "UserId".to_string(), exp: 1 };
        assert!(token.holds_json(), "{:?}", body);
        let signed = encoder.encode(&token).unwrap();
        assert_eq!(encoder.decode_at(&signed, 1), Ok(token), "{:?}", body);
    }
}

#[test]
fn issued_and_decoded_envelopes_hold_json() {
    let encoder = JwtEncoder::from_secret(b"secret");
    let issued = WebToken::issue(Ok(" \n[1, {\"a\": null}]\t".to_string()), "UserId", NOW, 3600).unwrap();
    assert_eq!(issued.body, "[1, {\"a\": null}]");
    assert!(issued.holds_json());
    let decoded = encoder.decode_at(&encoder.encode(&issued).unwrap(), NOW as u64).unwrap();
    assert!(decoded.holds_json());
    assert!(WebToken::new(&UserId { user_id: 42 }, 60).unwrap().holds_json());
}

#[test]
fn clone_signs_and_checks_as_its_encoder_does() {
    let encoder = JwtEncoder::from_secret(b"secret");
    let second = JwtEncoder::from_secret(b"secret");
    let copy = encoder.clone();
    let token = envelope(42, NOW, 3600);
    let signed = encoder.encode(&token).unwrap();
    assert_eq!(second.encode(&token).unwrap(), signed);
    assert_eq!(copy.encode(&token).unwrap(), signed);
    assert_eq!(second.decode_at(&signed, NOW as u64), Ok(token.clone()));
    assert_eq!(copy.decode_at(&signed, NOW as u64), Ok(token.clone()));
    assert_eq!(copy.clone().decode_at(&signed, NOW as u64), Ok(token));
}

#[test]
fn claims_are_read_from_any_json_object() {
    assert_eq!(
        WebToken::from_claims("{\"exp\":7,\"body\":{\"a\":[1, 2]},\"body_type\":\"T\",\"x\":null}"),
        Some(WebToken { body: "{\"a\":[1, 2]}".to_string(), body_type: "T".to_string(), exp: 7 })
    );
    assert_eq!(
        WebToken::from_claims("{\"body\":\"text\",\"body_type\":\"\\u0041\\n\",\"exp\":0}"),
        Some(WebToken { body: "\"text\"".to_string(), body_type: "A\n".to_string(), exp: 0 })
    );
    for text in ["", "{", "[]", "null", "{\"body\":1}", "{\"body\":1,\"body_type\":\"T\",\"exp\":true}"] {
        assert_eq!(WebToken::from_claims(text), None, "{}", text);
    }
}

#[test]
fn envelope_is_read_from_members() {
    let member = |name: &str, value: &str| (name.to_string(), value.to_string());
    let members = vec![member("body", "7"), member("body_type", "\"T\""), member("exp", "9")];
    assert_eq!(
        WebToken::from_members(&members),
        Some(WebToken { body: "7".to_string(), body_type: "T".to_string(), exp: 9 })
    );
    // the first member of a name counts
    let members = vec![
        member("exp", "1"),
        member("body", "7"),
        member("exp", "2"),
        member("body_type", "\"T\""),
        member("body", "8"),
    ];
    assert_eq!(
        WebToken::from_members(&members),
        Some(WebToken { body: "7".to_string(), body_type: "T".to_string(), exp: 1 })
    );
    assert_eq!(WebToken::from_members(&vec![]), None);
    assert_eq!(WebToken::from_members(&vec![member("body", "7"), member("exp", "9")]), None);
    assert_eq!(
        WebToken::from_members(&vec![member("body", "7"), member("body_type", "T"), member("exp", "9")]),
        None
    );
    assert_eq!(
        WebToken::from_members(&vec![member("Body", "7"), member("body_type", "\"T\""), member("exp", "9")]),
        None
    );
}

#[test]
fn issue_checks_the_payload_text() {
    let ok = WebToken::issue(Ok(" \n{\"user_id\": 42}\t ".to_string()), "UserId", 5, 10).unwrap();
    assert_eq!(ok, WebToken { body: "{\"user_id\": 42}".to_string(), body_type: "UserId".to_string(), exp: 15 });

    let unwritten = WebToken::issue(Err("cannot be written".to_string()), "UserId", 5, 10);
    assert_eq!(unwritten, Err(Error::Internal(Cause::Encoding("cannot be written".to_string()))));

    for text in ["", "   ", "{", "user_id", "1 2", "{\"a\":1} x"] {
        let failed = WebToken::issue(Ok(text.to_string()), "UserId", 5, 10);
        assert!(matches!(failed, Err(Error::Internal(Cause::Encoding(_)))), "{:?}", text);
    }
}

#[test]
fn payload_that_cannot_be_written_is_an_internal_failure() {
    let failed = WebToken::new(&Unwritable, 3600);
    assert_eq!(failed, Err(Error::Internal(Cause::Encoding("cannot be written".to_string()))));
}

#[test]
fn payload_that_does_not_read_is_an_authentication_failure() {
    let token = WebToken { body: "{\"user\":42}".to_string(), body_type: "UserId".to_string(), exp: 0 };
    assert_eq!(token.get_body::<UserId>(), Err(Error::AuthFailed));
    let token = WebToken { body: "{\"user_id\":42}".to_string(), body_type: "Unwritable".to_string(), exp: 0 };
    assert!(matches!(token.get_body::<Unwritable>(), Err(Error::AuthFailed)));
}

#[test]
fn body_is_handed_out_for_its_own_tag_only() {
    let token = envelope(42, NOW, 3600);
    assert_eq!(token.body_as("UserId"), Ok("{\"user_id\":42}"));
    for tag in ["", "userid", "UserId ", " UserId", "UserI", "UserIdx", "Note", "AdminId"] {
        assert_eq!(token.body_as(tag), Err(Error::AuthFailed), "{:?}", tag);
    }
    assert_eq!(token.get_body::<UserId>(), Ok(UserId { user_id: 42 }));
    assert_eq!(token.get_body::<AdminId>(), Err(Error::AuthFailed));
}

#[test]
fn accept_compares_expiry_and_time() {
    let token = envelope(42, 100, 50);
    assert!(!token.expired(0));
    assert!(!token.expired(150));
    assert!(token.expired(151));
    assert_eq!(token.clone().accept(150), Ok(token.clone()));
    assert_eq!(token.clone().accept(151), Err(Error::AuthFailed));
    assert_eq!(token.accept(u64::MAX), Err(Error::AuthFailed));
}

#[test]
fn verified_claims_become_envelope_or_failure() {
    let claims = "{\"body\":1,\"body_type\":\"T\",\"exp\":10}".to_string();
    let token = WebToken { body: "1".to_string(), body_type: "T".to_string(), exp: 10 };
    assert_eq!(WebToken::from_verified(Some(claims.clone()), 10), Ok(token));
    assert_eq!(WebToken::from_verified(Some(claims), 11), Err(Error::AuthFailed));
    assert_eq!(WebToken::from_verified(Some("{}".to_string()), 0), Err(Error::AuthFailed));
    assert_eq!(WebToken::from_verified(None, 0), Err(Error::AuthFailed));
}

#[test]
fn materialize_keeps_values_and_drops_reasons() {
    assert_eq!(WebToken::materialize(Ok(7u8)), Ok(7u8));
    assert_eq!(WebToken::materialize::<u8>(Err("why".to_string())), Err(Error::AuthFailed));
}

#[test]
fn signing_result_becomes_token_or_internal_failure() {
    assert_eq!(JwtEncoder::signed(Ok("a.b.c".to_string())), Ok("a.b.c".to_string()));
    assert_eq!(
        JwtEncoder::signed(Err("refused".to_string())),
        Err(Error::Internal(Cause::Signing("refused".to_string())))
    );
}

#[test]
fn access_token_is_the_envelope() {
    let token: AccessToken = envelope(42, NOW, 3600);
    assert_eq!(token.get_body::<UserId>(), Ok(UserId { user_id: 42 }));
}

#[test]
fn payload_beyond_the_reader_limits_does_not_come_back() {
    let encoder = JwtEncoder::from_secret(b"secret");
    // nested deeper than the JSON reader follows
    let deep = format!("{}{}", "[".repeat(200), "]".repeat(200));
    let token = WebToken::issue(Ok(deep), "UserId", NOW, 3600).unwrap();
    let signed = encoder.encode(&token).unwrap();
    assert_eq!(encoder.decode_at(&signed, NOW as u64), Err(Error::AuthFailed));
    // within the limit
    let shallow = format!("{}{}", "[".repeat(100), "]".repeat(100));
    let token = WebToken::issue(Ok(shallow), "UserId", NOW, 3600).unwrap();
    let signed = encoder.encode(&token).unwrap();
    assert_eq!(encoder.decode_at(&signed, NOW as u64), Ok(token));
    // a number that no float holds
    let token = WebToken::issue(Ok("1e999".to_string()), "UserId", NOW, 3600).unwrap();
    let signed = encoder.encode(&token).unwrap();
    assert_eq!(encoder.decode_at(&signed, NOW as u64), Err(Error::AuthFailed));
}
