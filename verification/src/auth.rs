//! The guard in front of protected operations: it takes the value of an
//! authorization header, reads the bearer credential out of it, has the token
//! checked, and tells the caller nothing of why a request was turned away.

use crate::error::{outcome, Error, ErrorView};
use crate::jwt::{clock, AccessTokenBody, JwtEncoder, WebToken, WebTokenView};
use std::str::FromStr;
use vstd::prelude::*;

verus! {

/// The scheme prefix of a bearer credential: the word and one space.
pub open spec fn bearer_prefix() -> Seq<char> {
    "Bearer "@
}

/// A bearer credential: what follows the scheme prefix in a header value.
pub struct BearerToken(String);

impl View for BearerToken {
    type V = Seq<char>;

    closed spec fn view(&self) -> Seq<char> {
        self.0@
    }
}

impl BearerToken {
    /// The credential in a header value: what follows the prefix, where the
    /// value begins with the prefix letter for letter, and none where the
    /// value is shorter than the prefix or begins otherwise.
    pub open spec fn parse_spec(value: Seq<char>) -> Option<Seq<char>> {
        if bearer_prefix().is_prefix_of(value) {
            Some(value.skip(bearer_prefix().len() as int))
        } else {
            None
        }
    }

    /// Reads the credential out of a header value.
    pub fn parse(value: &str) -> (r: Result<BearerToken, Error>)
        ensures
            outcome(r) == match Self::parse_spec(value@) {
                Some(token) => Ok::<Seq<char>, ErrorView>(token),
                None => Err::<Seq<char>, ErrorView>(ErrorView::AuthFailed),
            },
    {
        let prefix = "Bearer ";
        let n = prefix.unicode_len();
        let len = value.unicode_len();
        if len < n {
            return Err(Error::auth_failed());
        }
        let mut i: usize = 0;
        while i < n
            invariant
                i <= n,
                n == prefix@.len(),
                n <= len,
                len == value@.len(),
                prefix@ == bearer_prefix(),
                forall|j: int| 0 <= j < i ==> value@[j] == prefix@[j],
            decreases n - i,
        {
            if value.get_char(i) != prefix.get_char(i) {
                assert(value@.subrange(0, n as int)[i as int] != prefix@[i as int]);
                return Err(Error::auth_failed());
            }
            i += 1;
        }
        assert(value@.subrange(0, n as int) == prefix@);
        let token = value.substring_char(n, len);
        assert(token@ == value@.skip(n as int));
        Ok(BearerToken(token.to_owned()))
    }

    /// The credential as text.
    pub fn as_str(&self) -> (s: &str)
        ensures
            s@ == self@,
    {
        self.0.as_str()
    }
}

impl FromStr for BearerToken {
    type Err = Error;

    /// Reads the credential out of a header value, as `parse` does: what
    /// follows the prefix where the value begins with it, and an
    /// authentication failure for every other value.
    fn from_str(s: &str) -> (r: Result<BearerToken, Error>)
        ensures
            outcome(r) == match BearerToken::parse_spec(s@) {
                Some(token) => Ok::<Seq<char>, ErrorView>(token),
                None => Err::<Seq<char>, ErrorView>(ErrorView::AuthFailed),
            },
    {
        BearerToken::parse(s)
    }
}

/// Reports every failure as an authentication failure, so that a caller
/// downstream never learns why a request was turned away.
pub fn collapse<T>(r: Result<T, Error>) -> (c: Result<T, Error>)
    ensures
        c == match r {
            Ok(value) => Ok::<T, Error>(value),
            Err(_) => Err::<T, Error>(Error::AuthFailed),
        },
{
    match r {
        Ok(value) => Ok(value),
        Err(_) => Err(Error::auth_failed()),
    }
}

/// What the guard makes of a header value at `now`: the envelope of the token
/// that follows the bearer prefix, where that token is good; an
/// authentication failure in every other case.
pub open spec fn auth_spec(jwt_encoder: JwtEncoder, authorization: Seq<char>, now: u64) -> Result<
    WebTokenView,
    ErrorView,
> {
    match BearerToken::parse_spec(authorization) {
        Some(token) => jwt_encoder.decode_spec(token, now),
        None => Err(ErrorView::AuthFailed),
    }
}

/// Takes the value of an authorization header and hands out the envelope of
/// the token in it, checked at `now`.
pub fn auth_at(jwt_encoder: &JwtEncoder, authorization: &str, now: u64) -> (r: Result<
    WebToken,
    Error,
>)
    ensures
        outcome(r) == auth_spec(*jwt_encoder, authorization@, now),
{
    proof {
        crate::jwt::lemma_decode_fails_uniformly(
            *jwt_encoder,
            BearerToken::parse_spec(authorization@).unwrap(),
            now,
        );
    }
    match BearerToken::parse(authorization) {
        Ok(bearer) => collapse(jwt_encoder.decode_at(bearer.as_str(), now)),
        Err(_) => Err(Error::auth_failed()),
    }
}

/// Takes the value of an authorization header and hands out the envelope of
/// the token in it, checked at the time on the system clock.
pub fn auth(jwt_encoder: &JwtEncoder, authorization: &str) -> (r: Result<WebToken, Error>)
    ensures
        exists|now: i64| outcome(r) == #[trigger] auth_spec(*jwt_encoder, authorization@, clock(now)),
{
    match BearerToken::parse(authorization) {
        Ok(bearer) => {
            let decoded = jwt_encoder.decode(bearer.as_str());
            let ghost seen = outcome(decoded);
            let r = collapse(decoded);
            proof {
                let now = choose|now: i64|
                    seen == #[trigger] jwt_encoder.decode_spec(bearer@, clock(now));
                crate::jwt::lemma_decode_fails_uniformly(*jwt_encoder, bearer@, clock(now));
                assert(outcome(r) == auth_spec(*jwt_encoder, authorization@, clock(now)));
            }
            r
        },
        Err(_) => {
            let r = Err(Error::auth_failed());
            assert(outcome(r) == auth_spec(*jwt_encoder, authorization@, clock(0)));
            r
        },
    }
}

/// Takes the value of an authorization header and hands out the payload of
/// the token in it as a `B`. Where the header holds a token that is good on
/// the system clock, the result is what asking that token's envelope for a
/// `B` comes to. For every other header it is a failure. Every failure is an
/// authentication failure.
pub fn auth_as<B: AccessTokenBody>(jwt_encoder: &JwtEncoder, authorization: &str) -> (r: Result<
    B,
    Error,
>)
    ensures
        r matches Err(e) ==> e == Error::AuthFailed,
        exists|now: i64|
            match #[trigger] auth_spec(*jwt_encoder, authorization@, clock(now)) {
                Ok(envelope) => envelope.read_as::<B>(r),
                Err(_) => r is Err,
            },
{
    match auth(jwt_encoder, authorization) {
        Ok(token) => {
            let got = token.get_body::<B>();
            let ghost seen = got;
            let r = collapse(got);
            assert(r == seen);
            r
        },
        Err(_) => Err(Error::auth_failed()),
    }
}

/// The guard fails in one way only.
pub proof fn lemma_auth_fails_uniformly(jwt_encoder: JwtEncoder, authorization: Seq<char>, now: u64)
    ensures
        auth_spec(jwt_encoder, authorization, now) is Err ==> auth_spec(
            jwt_encoder,
            authorization,
            now,
        ) == Err::<WebTokenView, ErrorView>(ErrorView::AuthFailed),
{
    if BearerToken::parse_spec(authorization) is Some {
        crate::jwt::lemma_decode_fails_uniformly(
            jwt_encoder,
            BearerToken::parse_spec(authorization).unwrap(),
            now,
        );
    }
}

} // verus!
