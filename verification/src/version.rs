//! Semantic version triples: the decimal notation they are written in,
//! parsing of raw version text, and the supported range.

use vstd::prelude::*;

verus! {

/// A parsed interpreter version: a plain semantic triple.
#[derive(Clone, Copy, Debug, PartialEq, Eq, Structural)]
pub struct PyVersion {
    pub major: u64,
    pub minor: u64,
    pub patch: u64,
}

/// The decimal digit character for `n` (meaningful for `n < 10`).
pub open spec fn dec_digit(n: nat) -> char
    recommends
        n < 10,
{
    if n == 0 {
        '0'
    } else if n == 1 {
        '1'
    } else if n == 2 {
        '2'
    } else if n == 3 {
        '3'
    } else if n == 4 {
        '4'
    } else if n == 5 {
        '5'
    } else if n == 6 {
        '6'
    } else if n == 7 {
        '7'
    } else if n == 8 {
        '8'
    } else {
        '9'
    }
}

/// The decimal rendering of `n`, without redundant leading zeros.
pub open spec fn dec_str(n: nat) -> Seq<char>
    decreases n,
{
    if n < 10 {
        seq![dec_digit(n)]
    } else {
        dec_str(n / 10) + seq![dec_digit(n % 10)]
    }
}

/// The text `MAJOR.MINOR.PATCH` with each component in plain decimal
/// notation: the canonical way a bare semantic version triple is written.
pub open spec fn version_text(major: u64, minor: u64, patch: u64) -> Seq<char> {
    dec_str(major as nat) + seq!['.'] + dec_str(minor as nat) + seq!['.'] + dec_str(
        patch as nat,
    )
}

/// The version triple that semantic-version parsing extracts from `s`, or
/// `None` where `s` is not a well-formed semantic version.
pub uninterp spec fn semver_triple(s: Seq<char>) -> Option<(u64, u64, u64)>;

/// Relies on `semver::Version::parse`: the result depends on the characters
/// of the input alone, and a bare `MAJOR.MINOR.PATCH` triple written in
/// plain decimal notation parses to exactly those three numbers.
#[verifier::external_body]
fn semver_parse(s: &str) -> (r: Option<(u64, u64, u64)>)
    ensures
        r == semver_triple(s@),
        forall|major: u64, minor: u64, patch: u64|
            s@ == #[trigger] version_text(major, minor, patch) ==> r == Some(
                (major, minor, patch),
            ),
{
    match semver::Version::parse(s) {
        Ok(v) => Some((v.major, v.minor, v.patch)),
        Err(_) => None,
    }
}

/// The version triple that parsing extracts from raw version text `s`, as a
/// [`PyVersion`], or `None` where `s` is not a well-formed semantic version.
pub open spec fn spec_parse_version(s: Seq<char>) -> Option<PyVersion> {
    match semver_triple(s) {
        Some((major, minor, patch)) => Some(PyVersion { major, minor, patch }),
        None => None,
    }
}

/// Parses raw version text into a version triple.
///
/// Any raw text that reads as a bare `MAJOR.MINOR.PATCH` decimal triple is
/// accepted, and the three components equal the literal text.
pub fn parse_version(s: &str) -> (r: Option<PyVersion>)
    ensures
        r == spec_parse_version(s@),
        forall|major: u64, minor: u64, patch: u64|
            s@ == #[trigger] version_text(major, minor, patch) ==> r == Some(
                PyVersion { major, minor, patch },
            ),
{
    match semver_parse(s) {
        Some((major, minor, patch)) => Some(PyVersion { major, minor, patch }),
        None => None,
    }
}

/// The acceptance predicate: the inclusive range 3.9 to 3.11, patch ignored.
pub open spec fn version_supported(v: PyVersion) -> bool {
    v.major == 3 && 9 <= v.minor && v.minor <= 11
}

/// Tests a version against the supported range: major 3, minor 9 through 11
/// inclusive, regardless of patch.
pub fn is_supported(v: &PyVersion) -> (r: bool)
    ensures
        r == version_supported(*v),
{
    v.major == 3 && 9 <= v.minor && v.minor <= 11
}

} // verus!
