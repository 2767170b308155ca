//! Semantic versions, kept as their text form.
//!
//! Package versions travel through the protocol as strings. The registry
//! stores each version in its canonical text (the form the semver grammar
//! prints back), and the query protocol compares versions by semver
//! precedence. Parsing and ordering are the semver crate's; this module
//! names their results and exposes verified entry points over them.

use vstd::prelude::*;

verus! {

/// The canonical text of the semantic version that a string denotes:
/// `None` when the string is not a valid semver version, otherwise the
/// text that printing the parsed version yields.
pub uninterp spec fn semver_canon(s: Seq<char>) -> Option<Seq<char>>;

/// Strict semver precedence between two version strings; meaningful only
/// when both strings are valid versions.
pub uninterp spec fn semver_lt(a: Seq<char>, b: Seq<char>) -> bool;

/// A string denotes a semantic version.
pub open spec fn semver_valid(s: Seq<char>) -> bool {
    semver_canon(s) is Some
}

/// The server's version is strictly newer than the client's. Total: false
/// whenever either string is not a valid version.
pub open spec fn version_newer(current: Seq<char>, server: Seq<char>) -> bool {
    semver_valid(current) && semver_valid(server) && semver_lt(current, server)
}

/// Relies on `semver::Version::parse` and `Version`'s `Display`: parsing
/// either succeeds or fails on the text alone, and printing the parsed
/// version yields the canonical text, which parses back to the same
/// version (so canonicalising is idempotent).
#[verifier::external_body]
fn canon_version(s: &str) -> (r: Option<String>)
    ensures
        (match r {
            Some(c) => semver_canon(s@) == Some(c@) && semver_canon(c@) == Some(c@),
            None => semver_canon(s@) is None,
        }),
{
    match semver::Version::parse(s) {
        Ok(v) => Some(v.to_string()),
        Err(_) => None,
    }
}

/// Relies on `semver::Version::parse` and `Version`'s `Ord`: precedence is
/// a strict total order on parsed versions, decided by the two texts
/// alone, and equal texts parse to equal versions.
#[verifier::external_body]
fn version_lt(a: &str, b: &str) -> (r: bool)
    ensures
        semver_valid(a@) && semver_valid(b@) ==> r == semver_lt(a@, b@),
        !(semver_valid(a@) && semver_valid(b@)) ==> r == false,
        a@ == b@ ==> r == false,
{
    match (semver::Version::parse(a), semver::Version::parse(b)) {
        (Ok(x), Ok(y)) => x < y,
        _ => false,
    }
}

/// Decode a version field read from a manifest or from the wire: the
/// canonical text of the version it denotes, or `None` when the text is
/// not a valid semver version.
///
/// Writing a version out stores its canonical text, so the second clause
/// is the round trip: a decoded version, written and read back, is
/// reproduced identically, pre-release and build metadata included.
pub fn decode_version(s: &str) -> (r: Option<String>)
    ensures
        r is Some <==> semver_valid(s@),
        (match r {
            Some(c) => semver_canon(s@) == Some(c@) && semver_canon(c@) == Some(c@),
            None => true,
        }),
{
    canon_version(s)
}

/// Whether the server should treat `server` as an update over `current`:
/// strictly newer by semver precedence, false when either text is invalid.
pub fn newer_version(current: &str, server: &str) -> (r: bool)
    ensures
        r == version_newer(current@, server@),
        current@ == server@ ==> r == false,
{
    version_lt(current, server)
}

} // verus!
