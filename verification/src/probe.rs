//! Reduction of captured probe output to the raw version text: the last
//! whitespace-delimited token of the output.

use vstd::prelude::*;
use vstd::string::{StrSliceExecFns, StringExecFns};

verus! {

/// Whether `c` separates tokens: an ASCII whitespace character.
pub open spec fn is_space_char(c: char) -> bool {
    c == ' ' || c == '\t' || c == '\n' || c == '\r' || c == '\x0c'
}

/// The maximal suffix of `s` free of whitespace.
pub open spec fn nonspace_suffix(s: Seq<char>) -> Seq<char>
    decreases s.len(),
{
    if s.len() == 0 || is_space_char(s.last()) {
        Seq::empty()
    } else {
        nonspace_suffix(s.drop_last()) + seq![s.last()]
    }
}

/// The last whitespace-delimited token of `s`, or `None` where `s` holds
/// nothing but whitespace.
pub open spec fn last_token(s: Seq<char>) -> Option<Seq<char>>
    decreases s.len(),
{
    if s.len() == 0 {
        None
    } else if is_space_char(s.last()) {
        last_token(s.drop_last())
    } else {
        Some(nonspace_suffix(s))
    }
}

/// Tests a character for ASCII whitespace.
fn is_space(c: char) -> (r: bool)
    ensures
        r == is_space_char(c),
{
    c == ' ' || c == '\t' || c == '\n' || c == '\r' || c == '\x0c'
}

/// Extracts the raw version text from captured probe output: its last
/// whitespace-delimited token.  Output holding nothing but whitespace has
/// no token and yields `None`.
pub fn extract_raw_version(output: &str) -> (r: Option<String>)
    ensures
        r is Some <==> last_token(output@) is Some,
        r matches Some(t) ==> last_token(output@) == Some(t@),
{
    let n = output.unicode_len();
    let ghost s = output@;
    proof {
        assert(s.take(n as int) =~= s);
    }
    let mut end: usize = n;
    while end > 0 && is_space(output.get_char(end - 1))
        invariant
            end <= n,
            n == s.len(),
            s == output@,
            last_token(s) == last_token(s.take(end as int)),
        decreases end,
    {
        proof {
            assert(s.take(end as int).last() == s[end - 1]);
            assert(s.take(end as int).drop_last() =~= s.take(end - 1));
        }
        end = end - 1;
    }
    if end == 0 {
        return None;
    }
    proof {
        assert(s.take(end as int).last() == s[end - 1]);
        assert(last_token(s) == Some(nonspace_suffix(s.take(end as int))));
    }
    let mut start: usize = end;
    while start > 0 && !is_space(output.get_char(start - 1))
        invariant
            start <= end <= n,
            n == s.len(),
            s == output@,
            nonspace_suffix(s.take(end as int)) =~= nonspace_suffix(s.take(start as int))
                + s.subrange(start as int, end as int),
        decreases start,
    {
        proof {
            assert(s.take(start as int).last() == s[start - 1]);
            assert(s.take(start as int).drop_last() =~= s.take(start - 1));
            assert(nonspace_suffix(s.take(start as int)) =~= nonspace_suffix(s.take(start - 1))
                + seq![s[start - 1]]);
            assert(nonspace_suffix(s.take(start - 1)) + seq![s[start - 1]] + s.subrange(
                start as int,
                end as int,
            ) =~= nonspace_suffix(s.take(start - 1)) + s.subrange(start - 1, end as int));
        }
        start = start - 1;
    }
    proof {
        if start > 0 {
            assert(s.take(start as int).last() == s[start - 1]);
        } else {
            assert(s.take(0).len() == 0);
        }
        assert(nonspace_suffix(s.take(start as int)) =~= Seq::<char>::empty());
        assert(nonspace_suffix(s.take(end as int)) =~= s.subrange(start as int, end as int));
    }
    let token = output.substring_char(start, end);
    Some(String::from_str(token))
}

} // verus!
