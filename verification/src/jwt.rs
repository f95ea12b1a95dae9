//! The signed, time-bounded envelope that carries a typed payload.
//!
//! A payload travels as JSON text beside a tag that names its type and the
//! time at which the envelope expires. The three together are the claims of a
//! signed token. A token is taken back only if its signature is good, it has
//! not expired, and the caller asks for the type that the tag names; whatever
//! else happens is reported as one and the same authentication failure.

use crate::error::{outcome, Cause, CauseView, Error, ErrorView};
use crate::json::{
    decimal, decimal_text, json_object_members, json_raw_value, json_string_literal,
    json_string_value, json_u64_value, lookup, member, object_members, quote, raw_value,
    string_value, u64_value, Members,
};
use std::sync::Arc;
use vstd::prelude::*;
use vstd::slice::slice_to_vec;

verus! {

/// A payload that can travel in a token. Each payload type has a tag that
/// stays the same from build to build, and a JSON form.
pub trait AccessTokenBody: Sized {
    /// The tag of this payload type. Two payload types have different tags.
    fn type_tag() -> &'static str;

    /// Writes the value as JSON, or says why it cannot be written.
    fn to_json(&self) -> Result<String, String>;

    /// Reads a value from JSON, or says why the text holds none.
    fn from_json(text: &str) -> Result<Self, String>;
}

/// The compact token that `jsonwebtoken::encode` writes for the default
/// header, the claims `claims` and the secret `secret`; `None` where it
/// refuses.
pub uninterp spec fn jwt_signed(claims: Seq<char>, secret: Seq<u8>) -> Option<Seq<char>>;

/// The claims of `token` as `jsonwebtoken::decode` hands them out once it has
/// checked the signature against `secret`; `None` where it refuses the token.
pub uninterp spec fn jwt_verified_claims(token: Seq<char>, secret: Seq<u8>) -> Option<Seq<char>>;

/// Calls `jsonwebtoken::encode` with `Header::default()`, which names HS256,
/// and a key made by `EncodingKey::from_secret`. The claims go in as a raw
/// JSON value, so a text that is no JSON value is refused. Trusted: the token
/// is the one that `jwt_signed` names; the error holds the signer's message.
#[verifier::external_body]
fn sign(claims: &str, secret: &[u8]) -> (r: Result<String, String>)
    ensures
        r matches Ok(token) ==> jwt_signed(claims@, secret@) == Some(token@),
        r is Err ==> jwt_signed(claims@, secret@) is None,
{
    let raw = match serde_json::value::RawValue::from_string(claims.to_owned()) {
        Ok(raw) => raw,
        Err(e) => return Err(e.to_string()),
    };
    let key = jsonwebtoken::EncodingKey::from_secret(secret);
    match jsonwebtoken::encode(&jsonwebtoken::Header::default(), &raw, &key) {
        Ok(token) => Ok(token),
        Err(e) => Err(e.to_string()),
    }
}

/// Calls `jsonwebtoken::decode` with a key made by `DecodingKey::from_secret`
/// and with `Validation::default()` whose check of `exp` is switched off: the
/// call checks the shape of the token, that its header names HS256, and the
/// signature, and the caller compares `exp` with a time of its own. The claims
/// come out as the raw JSON text that was signed. Trusted: they are those that
/// `jwt_verified_claims` names. The call reads the system clock and panics
/// where that stands before 1970.
#[verifier::external_body]
fn verify(token: &str, secret: &[u8]) -> (r: Option<String>)
    ensures
        r.deep_view() == jwt_verified_claims(token@, secret@),
{
    let mut validation = jsonwebtoken::Validation::default();
    validation.validate_exp = false;
    let key = jsonwebtoken::DecodingKey::from_secret(secret);
    match jsonwebtoken::decode::<Box<serde_json::value::RawValue>>(token, &key, &validation) {
        Ok(data) => Some(String::from(Box::<str>::from(data.claims))),
        Err(_) => None,
    }
}

/// Calls `std::time::SystemTime::now` and chrono's conversion of the reading
/// into a `DateTime<Utc>`, and takes the `timestamp` of that: the seconds
/// since 1970 on the system clock, below zero where the clock stands before
/// 1970. Nothing is promised of the result. The conversion panics only for a
/// reading beyond the years that chrono can hold.
#[verifier::external_body]
fn unix_now() -> i64 {
    chrono::DateTime::<chrono::Utc>::from(std::time::SystemTime::now()).timestamp()
}

/// The time `valid_secs` seconds after `now`, in seconds since 1970. A time
/// before 1970 counts as 1970.
pub open spec fn expiry(now: i64, valid_secs: i64) -> u64 {
    if now + valid_secs < 0 {
        0
    } else {
        (now + valid_secs) as u64
    }
}

/// A clock reading in seconds since 1970. A reading before 1970 counts as 1970.
pub open spec fn clock(now: i64) -> u64 {
    expiry(now, 0)
}

/// The envelope: a payload as JSON text, the tag of the payload's type, and
/// the time at which the envelope expires, in seconds since 1970.
#[derive(Clone, Debug, PartialEq, Eq)]
pub struct WebToken {
    pub body: String,
    pub body_type: String,
    pub exp: u64,
}

/// The envelope under its other name.
pub type AccessToken = WebToken;

/// The mathematical value of a [`WebToken`].
pub struct WebTokenView {
    pub body: Seq<char>,
    pub body_type: Seq<char>,
    pub exp: u64,
}

impl View for WebToken {
    type V = WebTokenView;

    open spec fn view(&self) -> WebTokenView {
        WebTokenView { body: self.body@, body_type: self.body_type@, exp: self.exp }
    }
}

impl DeepView for WebToken {
    type V = WebTokenView;

    open spec fn deep_view(&self) -> WebTokenView {
        self@
    }
}

impl WebTokenView {
    /// The claims of a token that carries this envelope: a JSON object with
    /// the payload as it stands, the tag as a JSON string and the expiry as a
    /// number.
    pub open spec fn claims(self) -> Seq<char> {
        "{\"body\":"@ + self.body + ",\"body_type\":"@ + json_string_literal(self.body_type)
            + ",\"exp\":"@ + decimal(self.exp as nat) + "}"@
    }

    /// The envelope that the members of a JSON object stand for: `body` as it
    /// stands, `body_type` read as a string, `exp` read as a number. Other
    /// members do not count; where one of the three is missing or does not
    /// read, there is no envelope.
    pub open spec fn from_members(members: Members) -> Option<WebTokenView> {
        match (member(members, "body"@), member(members, "body_type"@), member(members, "exp"@)) {
            (Some(body), Some(tag), Some(exp)) => match (
                json_string_value(tag),
                json_u64_value(exp),
            ) {
                (Some(body_type), Some(exp)) => Some(WebTokenView { body, body_type, exp }),
                _ => None,
            },
            _ => None,
        }
    }

    /// The envelope that a claims text stands for.
    pub open spec fn from_claims(claims: Seq<char>) -> Option<WebTokenView> {
        match json_object_members(claims) {
            Some(members) => Self::from_members(members),
            None => None,
        }
    }

    /// Whether the payload is one JSON value with no white space around it:
    /// a text that is its own raw value. An envelope that `issue` or `new`
    /// made holds such a payload. The fields are open, so one that was put
    /// together by hand may not; `encode` signs no such envelope, since its
    /// claims would not say what the envelope says.
    pub open spec fn holds_json(self) -> bool {
        json_raw_value(self.body) == Some(self.body)
    }

    /// Whether the envelope has expired at `now`: it is good up to and
    /// including the second `exp`.
    pub open spec fn expired(self, now: u64) -> bool {
        self.exp < now
    }

    /// The envelope at `now`: itself while it is good, an authentication
    /// failure once it has expired.
    pub open spec fn accept(self, now: u64) -> Result<WebTokenView, ErrorView> {
        if self.expired(now) {
            Err(ErrorView::AuthFailed)
        } else {
            Ok(self)
        }
    }

    /// The payload for a caller that expects the type tagged `expected`: the
    /// payload where the envelope's tag is that tag, an authentication
    /// failure where it is any other.
    pub open spec fn body_as(self, expected: Seq<char>) -> Result<Seq<char>, ErrorView> {
        if self.body_type == expected {
            Ok(self.body)
        } else {
            Err(ErrorView::AuthFailed)
        }
    }

    /// Whether `r` is what asking this envelope for a `B` comes to. Where the
    /// envelope's tag is the tag of `B`, the payload text is read as a `B`,
    /// and `r` is the value that was read, or an authentication failure where
    /// it did not read. Where the tag is any other, `r` is a failure and the
    /// text is not read.
    pub open spec fn read_as<B: AccessTokenBody>(self, r: Result<B, Error>) -> bool {
        exists|tag: &'static str|
            call_ensures(B::type_tag, (), tag) && if tag@ == self.body_type {
                exists|text: &str, parsed: Result<B, String>|
                    text@ == self.body && call_ensures(B::from_json, (text,), parsed) && r
                        == WebToken::materialized(parsed)
            } else {
                r is Err
            }
    }

    /// What a token's verified claims, or their absence, come to at `now`:
    /// the envelope they stand for if it is still good, and an authentication
    /// failure in every other case.
    pub open spec fn from_verified(claims: Option<Seq<char>>, now: u64) -> Result<
        WebTokenView,
        ErrorView,
    > {
        match claims {
            Some(text) => match Self::from_claims(text) {
                Some(token) => token.accept(now),
                None => Err(ErrorView::AuthFailed),
            },
            None => Err(ErrorView::AuthFailed),
        }
    }
}

/// Seconds since 1970 for a signed count of seconds, and 0 for a count below
/// zero.
fn unsigned_secs(now: i64, valid_secs: i64) -> (t: u64)
    ensures
        t == expiry(now, valid_secs),
{
    let sum: i128 = now as i128 + valid_secs as i128;
    if sum < 0 {
        0
    } else {
        sum as u64
    }
}

impl WebToken {
    /// Whether `r` is what issuing an envelope comes to, for a payload that
    /// was written as `written`, under the tag `body_type`, at `now` and for
    /// `valid_secs` seconds: the envelope where the payload was written and is
    /// one JSON value, and an internal failure in the two other cases, with
    /// the reason where the payload was not written.
    pub open spec fn issued(
        r: Result<WebToken, Error>,
        written: Result<String, String>,
        body_type: Seq<char>,
        now: i64,
        valid_secs: i64,
    ) -> bool {
        match written {
            Ok(text) => match json_raw_value(text@) {
                Some(raw) => outcome(r) == Ok::<WebTokenView, ErrorView>(
                    WebTokenView { body: raw, body_type, exp: expiry(now, valid_secs) },
                ),
                None => r matches Err(e) && e@ matches ErrorView::Internal(CauseView::Encoding(_)),
            },
            Err(why) => outcome(r) == Err::<WebTokenView, ErrorView>(
                ErrorView::Internal(CauseView::Encoding(why@)),
            ),
        }
    }

    /// Makes the envelope for a payload that has been written as JSON, or for
    /// the failure to write it. The payload text is checked to be one JSON
    /// value and kept without the white space around it. The envelope expires
    /// `valid_secs` seconds after `now`.
    pub fn issue(
        written: Result<String, String>,
        body_type: &str,
        now: i64,
        valid_secs: i64,
    ) -> (r: Result<WebToken, Error>)
        ensures
            Self::issued(r, written, body_type@, now, valid_secs),
            r matches Ok(token) ==> token@.holds_json(),
    {
        match written {
            Ok(text) => match raw_value(text) {
                Ok(raw) => Ok(
                    WebToken {
                        body: raw,
                        body_type: body_type.to_owned(),
                        exp: unsigned_secs(now, valid_secs),
                    },
                ),
                Err(why) => Err(Error::internal(Cause::Encoding(why))),
            },
            Err(why) => Err(Error::internal(Cause::Encoding(why))),
        }
    }

    /// Makes the envelope for `body`, to expire `valid_secs` seconds from now
    /// on the system clock. Fails, as an internal failure, only where the
    /// payload cannot be written as JSON: where `to_json` fails, and where
    /// what it wrote is no JSON value.
    pub fn new<B: AccessTokenBody>(body: &B, valid_secs: i64) -> (r: Result<WebToken, Error>)
        ensures
            exists|tag: &'static str, written: Result<String, String>, now: i64|
                call_ensures(B::type_tag, (), tag) && call_ensures(B::to_json, (body,), written)
                    && #[trigger] Self::issued(r, written, tag@, now, valid_secs),
            r matches Ok(token) ==> token@.holds_json(),
    {
        let now = unix_now();
        let tag = B::type_tag();
        let written = body.to_json();
        let ghost seen = written;
        let r = Self::issue(written, tag, now, valid_secs);
        assert(Self::issued(r, seen, tag@, now, valid_secs));
        r
    }

    /// The claims of a token that carries this envelope.
    pub fn claims(&self) -> (text: String)
        ensures
            text@ == self@.claims(),
    {
        let mut text = "{\"body\":".to_owned();
        text.append(self.body.as_str());
        text.append(",\"body_type\":");
        text.append(quote(self.body_type.as_str()).as_str());
        text.append(",\"exp\":");
        text.append(decimal_text(self.exp).as_str());
        text.append("}");
        text
    }

    /// Reads an envelope from the members of a JSON object.
    pub fn from_members(members: &Vec<(String, String)>) -> (r: Option<WebToken>)
        ensures
            r.deep_view() == WebTokenView::from_members(members.deep_view()),
    {
        let body = lookup(members, "body");
        let tag = lookup(members, "body_type");
        let exp = lookup(members, "exp");
        match (body, tag, exp) {
            (Some(body), Some(tag), Some(exp)) => {
                match (string_value(tag.as_str()), u64_value(exp.as_str())) {
                    (Some(body_type), Some(exp)) => Some(WebToken { body, body_type, exp }),
                    _ => None,
                }
            },
            _ => None,
        }
    }

    /// Reads an envelope from a claims text.
    pub fn from_claims(claims: &str) -> (r: Option<WebToken>)
        ensures
            r.deep_view() == WebTokenView::from_claims(claims@),
    {
        match object_members(claims) {
            Some(members) => Self::from_members(&members),
            None => None,
        }
    }

    /// Whether the payload is one JSON value with no white space around it.
    pub fn holds_json(&self) -> (b: bool)
        ensures
            b == self@.holds_json(),
    {
        match raw_value(self.body.clone()) {
            Ok(raw) => raw == self.body,
            Err(_) => false,
        }
    }

    /// Whether the envelope has expired at `now`.
    pub fn expired(&self, now: u64) -> (b: bool)
        ensures
            b == self@.expired(now),
    {
        self.exp < now
    }

    /// Lets the envelope pass while it is good at `now`.
    pub fn accept(self, now: u64) -> (r: Result<WebToken, Error>)
        ensures
            outcome(r) == self@.accept(now),
    {
        if self.expired(now) {
            Err(Error::auth_failed())
        } else {
            Ok(self)
        }
    }

    /// Turns a token's verified claims, or their absence, into the envelope
    /// or an authentication failure.
    pub fn from_verified(claims: Option<String>, now: u64) -> (r: Result<WebToken, Error>)
        ensures
            outcome(r) == WebTokenView::from_verified(claims.deep_view(), now),
    {
        match claims {
            Some(text) => match Self::from_claims(text.as_str()) {
                Some(token) => token.accept(now),
                None => Err(Error::auth_failed()),
            },
            None => Err(Error::auth_failed()),
        }
    }

    /// The payload text for a caller that expects the type tagged `expected`.
    pub fn body_as(&self, expected: &str) -> (r: Result<&str, Error>)
        ensures
            match self@.body_as(expected@) {
                Ok(body) => r matches Ok(text) && text@ == body,
                Err(e) => r matches Err(e2) && e2@ == e,
            },
    {
        let wanted = expected.to_owned();
        if self.body_type == wanted {
            Ok(self.body.as_str())
        } else {
            Err(Error::auth_failed())
        }
    }

    /// What reading the payload comes to: the payload where it was read,
    /// and an authentication failure, without the reason, where it was not.
    pub open spec fn materialized<B>(parsed: Result<B, String>) -> Result<B, Error> {
        match parsed {
            Ok(body) => Ok(body),
            Err(_) => Err(Error::AuthFailed),
        }
    }

    /// Turns what reading the payload gave into the payload or an
    /// authentication failure.
    pub fn materialize<B>(parsed: Result<B, String>) -> (r: Result<B, Error>)
        ensures
            r == Self::materialized(parsed),
    {
        match parsed {
            Ok(body) => Ok(body),
            Err(_) => Err(Error::auth_failed()),
        }
    }

    /// The payload as a `B`. Fails, as an authentication failure, where the
    /// envelope's tag is not the tag of `B`, and where the payload text does
    /// not read as a `B`. The text is read only where the tags agree.
    pub fn get_body<B: AccessTokenBody>(&self) -> (r: Result<B, Error>)
        ensures
            r matches Err(e) ==> e == Error::AuthFailed,
            self@.read_as::<B>(r),
    {
        let tag = B::type_tag();
        match self.body_as(tag) {
            Ok(text) => {
                let parsed = B::from_json(text);
                let ghost seen = parsed;
                let r = Self::materialize(parsed);
                assert(text@ == self@.body && call_ensures(B::from_json, (text,), seen) && r
                    == Self::materialized(seen));
                r
            },
            Err(e) => Err(e),
        }
    }
}

/// The key material of an encoder. It is set once and only read afterwards.
struct Inner {
    secret: Vec<u8>,
}

impl Inner {
    fn from_secret(secret: &[u8]) -> (inner: Inner)
        ensures
            inner.secret@ == secret@,
    {
        Inner { secret: slice_to_vec(secret) }
    }

    fn encode(&self, token: &WebToken) -> (r: Result<String, Error>)
        ensures
            encoded(r, token@, self.secret@),
    {
        if token.holds_json() {
            JwtEncoder::signed(sign(token.claims().as_str(), self.secret.as_slice()))
        } else {
            Err(Error::internal(Cause::Encoding(token.body.clone())))
        }
    }

    fn decode_at(&self, token: &str, now: u64) -> (r: Result<WebToken, Error>)
        ensures
            outcome(r) == WebTokenView::from_verified(
                jwt_verified_claims(token@, self.secret@),
                now,
            ),
    {
        WebToken::from_verified(verify(token, self.secret.as_slice()), now)
    }
}

/// Whether `r` is what encoding the envelope `token` under `secret` comes to.
/// Where the payload is one JSON value, it is the signed token, or an
/// internal failure of the signer where the signer refuses the claims. Where
/// the payload is anything else, it is an internal failure that holds the
/// payload text, and nothing is signed.
pub open spec fn encoded(r: Result<String, Error>, token: WebTokenView, secret: Seq<u8>) -> bool {
    if token.holds_json() {
        match jwt_signed(token.claims(), secret) {
            Some(signed) => outcome(r) == Ok::<Seq<char>, ErrorView>(signed),
            None => r matches Err(e) && e@ matches ErrorView::Internal(CauseView::Signing(_)),
        }
    } else {
        outcome(r) == Err::<Seq<char>, ErrorView>(
            ErrorView::Internal(CauseView::Encoding(token.body)),
        )
    }
}

/// Calls `Arc::clone`, which makes another pointer to the same allocation.
/// Trusted: the new pointer points to the value that the old one points to.
#[verifier::external_body]
fn share(inner: &Arc<Inner>) -> (shared: Arc<Inner>)
    ensures
        shared == *inner,
{
    Arc::clone(inner)
}

/// Signs envelopes and takes signed tokens back, under one secret that is
/// fixed when the encoder is made. Clones share the secret.
pub struct JwtEncoder {
    inner: Arc<Inner>,
}

impl Clone for JwtEncoder {
    /// Another handle on the same key: the clone signs and checks as this
    /// encoder does.
    fn clone(&self) -> (encoder: JwtEncoder)
        ensures
            encoder@ == self@,
    {
        JwtEncoder { inner: share(&self.inner) }
    }
}

impl View for JwtEncoder {
    type V = Seq<u8>;

    /// The secret.
    closed spec fn view(&self) -> Seq<u8> {
        self.inner.secret@
    }
}

impl JwtEncoder {
    /// An encoder that signs and checks with `secret`.
    pub fn from_secret(secret: &[u8]) -> (encoder: JwtEncoder)
        ensures
            encoder@ == secret@,
    {
        JwtEncoder { inner: Arc::new(Inner::from_secret(secret)) }
    }

    /// Turns what the signer gave into the token, or into an internal failure
    /// that keeps the signer's message.
    pub fn signed(signing: Result<String, String>) -> (r: Result<String, Error>)
        ensures
            outcome(r) == match signing {
                Ok(token) => Ok::<Seq<char>, ErrorView>(token@),
                Err(why) => Err::<Seq<char>, ErrorView>(
                    ErrorView::Internal(CauseView::Signing(why@)),
                ),
            },
    {
        match signing {
            Ok(token) => Ok(token),
            Err(why) => Err(Error::internal(Cause::Signing(why))),
        }
    }

    /// Writes the envelope as claims and signs them. Fails, as an internal
    /// failure, where the payload text is not one JSON value, and where the
    /// signer refuses the claims.
    pub fn encode(&self, token: &WebToken) -> (r: Result<String, Error>)
        ensures
            encoded(r, token@, self@),
    {
        self.inner.encode(token)
    }

    /// What `decode_at` returns: the envelope that the token's claims stand
    /// for, where the signature is good under this encoder's secret and the
    /// envelope has not expired at `now`; an authentication failure in every
    /// other case.
    pub open spec fn decode_spec(&self, token: Seq<char>, now: u64) -> Result<
        WebTokenView,
        ErrorView,
    > {
        WebTokenView::from_verified(jwt_verified_claims(token, self@), now)
    }

    /// Checks the signature of `token`, reads its envelope and checks that it
    /// has not expired at `now`, in this order.
    pub fn decode_at(&self, token: &str, now: u64) -> (r: Result<WebToken, Error>)
        ensures
            outcome(r) == self.decode_spec(token@, now),
    {
        self.inner.decode_at(token, now)
    }

    /// Checks `token` as `decode_at` does, at the time on the system clock.
    pub fn decode(&self, token: &str) -> (r: Result<WebToken, Error>)
        ensures
            exists|now: i64| outcome(r) == #[trigger] self.decode_spec(token@, clock(now)),
    {
        let now = unix_now();
        let r = self.decode_at(token, unsigned_secs(now, 0));
        assert(outcome(r) == self.decode_spec(token@, clock(now)));
        r
    }
}

/// An envelope is good at the moment it is issued, whenever it is issued for
/// a time that is not in the past, and hands its payload to a caller that
/// expects the type it was issued for.
pub proof fn lemma_fresh_token_is_accepted(token: WebTokenView, now: i64, valid_secs: i64)
    requires
        valid_secs >= 0,
        token.exp == expiry(now, valid_secs),
    ensures
        token.accept(clock(now)) == Ok::<WebTokenView, ErrorView>(token),
        token.body_as(token.body_type) == Ok::<Seq<char>, ErrorView>(token.body),
{
}

/// Whether a token for the envelope `token` comes back from signing and
/// checking under `secret` as it went in: the claims are signed, the signed
/// token is taken back with the same claims, and the claims read as the same
/// envelope. This is a property of the signer and of the JSON
/// reader, and nothing here proves it. It fails for a payload that nests
/// deeper than the reader follows: the signer signs it, and the verifier,
/// which reads the claims once more, refuses it.
pub open spec fn carried_faithfully(token: WebTokenView, secret: Seq<u8>) -> bool {
    &&& jwt_signed(token.claims(), secret) matches Some(signed)
    &&& jwt_verified_claims(signed, secret) == Some(token.claims())
    &&& WebTokenView::from_claims(token.claims()) == Some(token)
}

/// Where signing and checking carry an envelope faithfully, encoding an
/// envelope that `issue` made succeeds, and the token, decoded at the moment
/// the envelope was issued, for a time that is not in the past, gives back
/// the envelope that was encoded, and with it the payload for a caller that
/// expects the type it was issued for.
pub proof fn lemma_round_trip_where_carried_faithfully(
    encoder: JwtEncoder,
    token: WebTokenView,
    now: i64,
    valid_secs: i64,
)
    requires
        valid_secs >= 0,
        token.exp == expiry(now, valid_secs),
        token.holds_json(),
        carried_faithfully(token, encoder@),
    ensures
        forall|r: Result<String, Error>| #[trigger]
            encoded(r, token, encoder@) ==> (r matches Ok(signed) && encoder.decode_spec(
                signed@,
                clock(now),
            ) == Ok::<WebTokenView, ErrorView>(token)),
        token.body_as(token.body_type) == Ok::<Seq<char>, ErrorView>(token.body),
{
}

/// Where signing and checking carry an envelope faithfully, encoding an
/// envelope that `issue` made at `issued` for `valid_secs` seconds succeeds,
/// and the token is refused at every later time that lies past its expiry,
/// whatever `valid_secs` is, and is taken back at every time up to its expiry.
pub proof fn lemma_expiry_where_carried_faithfully(
    encoder: JwtEncoder,
    token: WebTokenView,
    issued: i64,
    valid_secs: i64,
    at: u64,
)
    requires
        token.exp == expiry(issued, valid_secs),
        token.holds_json(),
        carried_faithfully(token, encoder@),
    ensures
        forall|r: Result<String, Error>| #[trigger]
            encoded(r, token, encoder@) ==> (r matches Ok(signed) && encoder.decode_spec(
                signed@,
                at,
            ) == if at > issued + valid_secs && at > 0 {
                Err::<WebTokenView, ErrorView>(ErrorView::AuthFailed)
            } else {
                Ok::<WebTokenView, ErrorView>(token)
            }),
{
}

/// A caller that expects any other type than the one an envelope was issued
/// for gets an authentication failure, and never a payload.
pub proof fn lemma_other_type_is_refused(token: WebTokenView, expected: Seq<char>)
    requires
        expected != token.body_type,
    ensures
        token.body_as(expected) == Err::<Seq<char>, ErrorView>(ErrorView::AuthFailed),
{
}

/// An envelope issued at `issued` for `valid_secs` seconds is refused at every
/// later time that lies past its expiry, whatever `valid_secs` is.
pub proof fn lemma_expired_token_is_refused(
    token: WebTokenView,
    issued: i64,
    valid_secs: i64,
    later: u64,
)
    requires
        token.exp == expiry(issued, valid_secs),
        later > issued + valid_secs,
        later > 0,
    ensures
        token.accept(later) == Err::<WebTokenView, ErrorView>(ErrorView::AuthFailed),
{
}

/// Decoding fails in one way only. A token whose envelope has expired at
/// `now` is refused, and so is a token that the verifier refuses.
pub proof fn lemma_decode_fails_uniformly(encoder: JwtEncoder, token: Seq<char>, now: u64)
    ensures
        encoder.decode_spec(token, now) is Err ==> encoder.decode_spec(token, now) == Err::<
            WebTokenView,
            ErrorView,
        >(ErrorView::AuthFailed),
        jwt_verified_claims(token, encoder@) is None ==> encoder.decode_spec(token, now) is Err,
        jwt_verified_claims(token, encoder@) matches Some(claims) && WebTokenView::from_claims(
            claims,
        ) matches Some(envelope) && envelope.exp < now ==> encoder.decode_spec(token, now) is Err,
        encoder.decode_spec(token, now) matches Ok(envelope) ==> envelope.exp >= now && (
        jwt_verified_claims(token, encoder@) matches Some(claims) && WebTokenView::from_claims(
            claims,
        ) == Some(envelope)),
{
}

} // verus!
