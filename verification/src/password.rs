//! Password digests, made and checked by bcrypt.

use vstd::prelude::*;

verus! {

/// What `bcrypt::verify` answers for a password and a stored digest: whether
/// the digest was made from the password, or the text of its error where the
/// digest cannot be read.
pub uninterp spec fn bcrypt_verdict(password: Seq<char>, digest: Seq<char>) -> Result<
    bool,
    Seq<char>,
>;

/// Whether `bcrypt::verify` accepts `password` against `digest`.
pub open spec fn digest_accepts(digest: Seq<char>, password: Seq<char>) -> bool {
    bcrypt_verdict(password, digest) == Ok::<bool, Seq<char>>(true)
}

/// The view of the outcome of a password check.
pub open spec fn verdict_view(outcome: Result<bool, String>) -> Result<bool, Seq<char>> {
    match outcome {
        Ok(matches) => Ok(matches),
        Err(detail) => Err(detail@),
    }
}

/// Checks a password against a stored digest with `bcrypt::verify`.  The
/// answer depends on the two texts alone, so the contract gives it a name
/// and no more; an error comes back as the text it displays.
#[verifier::external_body]
pub(crate) fn verify_password(password: &str, digest: &str) -> (outcome: Result<bool, String>)
    ensures
        verdict_view(outcome) == bcrypt_verdict(password@, digest@),
{
    bcrypt::verify(password, digest).map_err(|error| error.to_string())
}

/// Makes a digest of a password with `bcrypt::hash`, at the default cost and
/// under a salt that the operating system draws.  The digest differs from
/// call to call; what holds of every digest made is that `bcrypt::verify`
/// accepts the password against it, since it reads cost and salt back from
/// the digest and repeats the computation.  An error comes back as the text
/// it displays.
#[verifier::external_body]
pub(crate) fn hash_password(password: &str) -> (outcome: Result<String, String>)
    ensures
        outcome matches Ok(digest) ==> digest_accepts(digest@, password@),
{
    bcrypt::hash(password, bcrypt::DEFAULT_COST).map_err(|error| error.to_string())
}

} // verus!
