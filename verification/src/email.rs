//! Email-address syntax checking, delegated to the `email_address` crate.

use vstd::prelude::*;

verus! {

/// Whether a string is a syntactically valid email address, exactly as the
/// `email_address` crate's parser decides it. The full grammar is RFC
/// 5321/5322; only the verdict matters here, so it carries a name instead
/// of a transcription.
pub uninterp spec fn email_ok(s: Seq<char>) -> bool;

/// Relies on `email_address::EmailAddress::is_valid`: parses `s` as an
/// email address and reports success; the verdict depends on the
/// characters alone.
#[verifier::external_body]
pub(crate) fn is_valid_email(s: &str) -> (r: bool)
    ensures
        r == email_ok(s@),
{
    email_address::EmailAddress::is_valid(s)
}

} // verus!
