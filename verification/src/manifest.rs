//! Derivation of the requirement-manifest name from a validated version:
//! the major component in plain decimal, then the minor component zero-padded
//! to at least two digits, between a fixed prefix and suffix.

use vstd::prelude::*;
use vstd::string::StringExecFns;
use crate::version::{dec_digit, dec_str, version_supported, PyVersion};

verus! {

/// The minor component zero-padded to at least two digits.
pub open spec fn padded_minor(minor: u64) -> Seq<char> {
    if minor < 10 {
        seq!['0'] + dec_str(minor as nat)
    } else {
        dec_str(minor as nat)
    }
}

/// The manifest name derived from a version: `requirement-`, the major
/// component, the padded minor component, `.txt`.  The patch component
/// plays no part.
pub open spec fn manifest_text(v: PyVersion) -> Seq<char> {
    "requirement-"@ + dec_str(v.major as nat) + padded_minor(v.minor) + ".txt"@
}

/// The one-character string holding the decimal digit for `d`.
fn digit_str(d: u64) -> (s: &'static str)
    requires
        d < 10,
    ensures
        s@ == seq![dec_digit(d as nat)],
{
    proof {
        reveal_strlit("0");
        reveal_strlit("1");
        reveal_strlit("2");
        reveal_strlit("3");
        reveal_strlit("4");
        reveal_strlit("5");
        reveal_strlit("6");
        reveal_strlit("7");
        reveal_strlit("8");
        reveal_strlit("9");
    }
    match d {
        0 => "0",
        1 => "1",
        2 => "2",
        3 => "3",
        4 => "4",
        5 => "5",
        6 => "6",
        7 => "7",
        8 => "8",
        _ => "9",
    }
}

/// Appends the plain decimal rendering of `n` to `out`.
fn append_decimal(out: &mut String, n: u64)
    ensures
        final(out)@ == old(out)@ + dec_str(n as nat),
    decreases n,
{
    if n < 10 {
        out.append(digit_str(n));
    } else {
        append_decimal(out, n / 10);
        out.append(digit_str(n % 10));
        proof {
            assert(old(out)@ + dec_str(n as nat) =~= old(out)@ + dec_str(n as nat / 10) + seq![
                dec_digit(n as nat % 10),
            ]);
        }
    }
}

/// Derives the manifest name for a version: `requirement-` followed by the
/// major component, the minor component zero-padded to two digits, and
/// `.txt`.  The derivation reads only the major and minor components.
pub fn manifest_name(v: &PyVersion) -> (s: String)
    ensures
        s@ == manifest_text(*v),
{
    let mut s = String::new();
    s.append("requirement-");
    append_decimal(&mut s, v.major);
    if v.minor < 10 {
        s.append("0");
        proof {
            reveal_strlit("0");
        }
    }
    append_decimal(&mut s, v.minor);
    s.append(".txt");
    proof {
        assert(s@ =~= manifest_text(*v));
    }
    s
}

/// Law: manifest-name derivation is injective on the supported range.  Two
/// supported versions with the same manifest name share their major and
/// minor components.
pub proof fn lemma_manifest_name_injective(v1: PyVersion, v2: PyVersion)
    requires
        version_supported(v1),
        version_supported(v2),
        manifest_text(v1) == manifest_text(v2),
    ensures
        v1.major == v2.major,
        v1.minor == v2.minor,
{
    reveal_strlit("requirement-");
    reveal_strlit(".txt");
    assert(dec_str(1) =~= seq!['1']);
    assert(dec_str(9) =~= seq!['9']);
    assert(dec_str(10) =~= seq!['1', '0']);
    assert(dec_str(11) =~= seq!['1', '1']);
    assert(manifest_text(v1)[13] == padded_minor(v1.minor)[0]);
    assert(manifest_text(v1)[14] == padded_minor(v1.minor)[1]);
    assert(manifest_text(v2)[13] == padded_minor(v2.minor)[0]);
    assert(manifest_text(v2)[14] == padded_minor(v2.minor)[1]);
}

} // verus!
