//! One-way hashing of a secret and verification of an attempt against the
//! stored record.

use crate::error::{Cause, CauseView, Error, ErrorView};
use vstd::prelude::*;

verus! {

/// How many rounds of the hash function `derive` applies.
pub const N_ITER: u32 = 1_000;

/// What `pbkdf2::pbkdf2_check` says of a password and a stored record:
/// `Some(true)` where the password hashes to the record, `Some(false)` where
/// it hashes to something else, `None` where the record is not in the format
/// that `pbkdf2::pbkdf2_simple` writes.
pub uninterp spec fn pbkdf2_check_result(password: Seq<char>, hashed: Seq<char>) -> Option<bool>;

/// Calls `pbkdf2::pbkdf2_simple`, which draws a fresh 16-byte salt from the
/// operating system and hashes `secret` with it. Trusted: a record that comes
/// back is one that `pbkdf2::pbkdf2_check` accepts for the same secret, as the
/// function's documentation says. The error holds the text of the random
/// source's failure.
#[verifier::external_body]
fn hash_secret(secret: &str, rounds: u32) -> (r: Result<String, String>)
    ensures
        r matches Ok(record) ==> pbkdf2_check_result(secret@, record@) == Some(true),
{
    match pbkdf2::pbkdf2_simple(secret, rounds) {
        Ok(record) => Ok(record),
        Err(e) => Err(e.to_string()),
    }
}

/// Calls `pbkdf2::pbkdf2_check`, which reads rounds and salt out of `record`,
/// hashes `attempt` with them and compares in constant time. Trusted: the
/// outcome is the one that `pbkdf2_check_result` names.
#[verifier::external_body]
fn check_secret(attempt: &str, record: &str) -> (r: Option<bool>)
    ensures
        r == pbkdf2_check_result(attempt@, record@),
{
    match pbkdf2::pbkdf2_check(attempt, record) {
        Ok(()) => Some(true),
        Err(pbkdf2::CheckError::HashMismatch) => Some(false),
        Err(pbkdf2::CheckError::InvalidFormat) => None,
    }
}

/// A stored credential: the salted, iterated hash of a secret, as a string
/// that carries its own rounds and salt.
#[derive(Clone)]
pub struct Cred {
    cred: String,
}

impl View for Cred {
    type V = Seq<char>;

    closed spec fn view(&self) -> Seq<char> {
        self.cred@
    }
}

impl Cred {
    /// Whether this record is one that hashing `secret` can have produced.
    pub open spec fn derived_from(&self, secret: Seq<char>) -> bool {
        pbkdf2_check_result(secret, self@) == Some(true)
    }

    /// What a comparison outcome means: a match is success, and a mismatch
    /// and a malformed record are two different internal failures.
    pub open spec fn verdict_spec(outcome: Option<bool>) -> Result<(), Error> {
        match outcome {
            Some(true) => Ok(()),
            Some(false) => Err(Error::Internal(Cause::HashMismatch)),
            None => Err(Error::Internal(Cause::MalformedRecord)),
        }
    }

    /// What `verify` returns for `attempt`.
    pub open spec fn verify_spec(&self, attempt: Seq<char>) -> Result<(), Error> {
        Self::verdict_spec(pbkdf2_check_result(attempt, self@))
    }

    /// Turns the hasher's result into a credential, or into an internal
    /// failure that keeps the hasher's message.
    pub fn from_hashing(hashed: Result<String, String>) -> (r: Result<Cred, Error>)
        ensures
            match hashed {
                Ok(record) => r matches Ok(cred) && cred@ == record@,
                Err(text) => r matches Err(e) && e@ == ErrorView::Internal(
                    CauseView::Hashing(text@),
                ),
            },
    {
        match hashed {
            Ok(record) => Ok(Cred { cred: record }),
            Err(text) => Err(Error::internal(Cause::Hashing(text))),
        }
    }

    /// Hashes `secret` under a salt that is drawn afresh at every call, so that
    /// two records of one secret differ but for chance. Fails only where the
    /// hasher's random source fails.
    pub fn derive(secret: &str) -> (r: Result<Cred, Error>)
        ensures
            r matches Ok(cred) ==> cred.derived_from(secret@),
            r matches Err(e) ==> e@ matches ErrorView::Internal(CauseView::Hashing(_)),
    {
        Self::from_hashing(hash_secret(secret, N_ITER))
    }

    /// Turns a comparison outcome into the result of `verify`.
    pub fn verdict(outcome: Option<bool>) -> (r: Result<(), Error>)
        ensures
            r == Self::verdict_spec(outcome),
    {
        match outcome {
            Some(true) => Ok(()),
            Some(false) => Err(Error::internal(Cause::HashMismatch)),
            None => Err(Error::internal(Cause::MalformedRecord)),
        }
    }

    /// Checks `attempt` against this record. Succeeds where the attempt hashes
    /// to the record under the record's own salt and rounds. A caller at the
    /// outer boundary reports both failures as one.
    pub fn verify(&self, attempt: &str) -> (r: Result<(), Error>)
        ensures
            r == self.verify_spec(attempt@),
    {
        Self::verdict(check_secret(attempt, self.cred.as_str()))
    }

    /// The credential whose record is `record`.
    pub closed spec fn of_record(record: String) -> Cred {
        Cred { cred: record }
    }

    /// The record as text, for storage.
    pub fn as_str(&self) -> (s: &str)
        ensures
            s@ == self@,
    {
        self.cred.as_str()
    }
}

impl From<String> for Cred {
    /// Takes a stored record as a credential.
    fn from(s: String) -> (cred: Cred)
        ensures
            cred@ == s@,
    {
        Cred { cred: s }
    }
}

impl vstd::std_specs::convert::FromSpecImpl<String> for Cred {
    open spec fn obeys_from_spec() -> bool {
        true
    }

    open spec fn from_spec(s: String) -> Cred {
        Cred::of_record(s)
    }
}

/// A record that `derive` returned for a secret verifies against that secret.
pub proof fn lemma_derived_record_verifies(cred: Cred, secret: Seq<char>)
    requires
        cred.derived_from(secret),
    ensures
        cred.verify_spec(secret) == Ok::<(), Error>(()),
{
}

} // verus!
