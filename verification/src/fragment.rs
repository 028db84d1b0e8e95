//! Parsing of the token fragment of a completed login redirect: the
//! `key=value` pairs of a URL fragment, and the three fields that make a
//! token set. Keys and values are taken verbatim between the separators;
//! a key that is missing or occurs more than once yields nothing.

use vstd::prelude::*;
use vstd::string::StrSliceExecFns;
use vstd::string::StringExecFns;

use crate::models::Tokens;

verus! {

/// The positions of a separator character in a string, in order.
pub open spec fn sep_indices(s: Seq<char>, sep: char) -> Seq<int>
    decreases s.len(),
{
    if s.len() == 0 {
        Seq::empty()
    } else {
        let r = sep_indices(s.drop_last(), sep);
        if s.last() == sep {
            r.push(s.len() - 1)
        } else {
            r
        }
    }
}

/// How many separated segments a string has: one more than the number of
/// separators.
pub open spec fn n_segments(s: Seq<char>, sep: char) -> int {
    sep_indices(s, sep).len() as int + 1
}

/// Where segment `k` starts.
pub open spec fn seg_start(s: Seq<char>, sep: char, k: int) -> int {
    if k == 0 {
        0
    } else {
        sep_indices(s, sep)[k - 1] + 1
    }
}

/// Where segment `k` ends (exclusive).
pub open spec fn seg_end(s: Seq<char>, sep: char, k: int) -> int {
    if k < sep_indices(s, sep).len() {
        sep_indices(s, sep)[k]
    } else {
        s.len() as int
    }
}

/// Segment `k` of a separated string.
pub open spec fn spec_segment(s: Seq<char>, sep: char, k: int) -> Seq<char> {
    s.subrange(seg_start(s, sep, k), seg_end(s, sep, k))
}

/// The key of a `key=value` pair: what stands before the first `=`, or
/// the whole segment when there is none.
pub open spec fn spec_pair_key(seg: Seq<char>) -> Seq<char> {
    let e = sep_indices(seg, '=');
    if e.len() == 0 {
        seg
    } else {
        seg.take(e[0])
    }
}

/// The value of a `key=value` pair: what stands after the first `=`,
/// taken verbatim, or empty when there is no `=`.
pub open spec fn spec_pair_value(seg: Seq<char>) -> Seq<char> {
    let e = sep_indices(seg, '=');
    if e.len() == 0 {
        Seq::empty()
    } else {
        seg.skip(e[0] + 1)
    }
}

/// The indices below `upto` of the fragment pairs that carry this key.
pub open spec fn spec_key_matches(s: Seq<char>, key: Seq<char>, upto: int) -> Seq<int>
    decreases upto,
{
    if upto <= 0 {
        Seq::empty()
    } else {
        let r = spec_key_matches(s, key, upto - 1);
        if spec_pair_key(spec_segment(s, '&', upto - 1)) == key {
            r.push(upto - 1)
        } else {
            r
        }
    }
}

/// The value under a key in a fragment: defined when exactly one pair
/// carries the key, nothing when the key is missing or repeated.
pub open spec fn spec_fragment_value(s: Seq<char>, key: Seq<char>) -> Option<Seq<char>> {
    let m = spec_key_matches(s, key, n_segments(s, '&'));
    if m.len() == 1 {
        Some(spec_pair_value(spec_segment(s, '&', m[0])))
    } else {
        None
    }
}

/// Splits one `key=value` segment at its first `=`.
fn split_pair(seg: &str) -> (r: (String, String))
    ensures
        r.0@ == spec_pair_key(seg@),
        r.1@ == spec_pair_value(seg@),
{
    let len = seg.unicode_len();
    let mut found: Option<usize> = None;
    let mut i: usize = 0;
    while i < len
        invariant
            len == seg@.len(),
            i <= len,
            match found {
                Some(p) => p < i && sep_indices(seg@.take(i as int), '=').len() >= 1
                    && sep_indices(seg@.take(i as int), '=')[0] == p,
                None => sep_indices(seg@.take(i as int), '=').len() == 0,
            },
        decreases len - i,
    {
        proof {
            assert(seg@.take(i + 1).drop_last() =~= seg@.take(i as int));
            assert(seg@.take(i + 1).last() == seg@[i as int]);
        }
        let c = seg.get_char(i);
        if c == '=' && found.is_none() {
            found = Some(i);
        }
        i = i + 1;
    }
    proof {
        assert(seg@.take(len as int) =~= seg@);
    }
    match found {
        Some(p) => {
            let key = seg.substring_char(0, p).to_owned();
            let value = seg.substring_char(p + 1, len).to_owned();
            proof {
                assert(key@ =~= spec_pair_key(seg@));
                assert(value@ =~= spec_pair_value(seg@));
            }
            (key, value)
        },
        None => {
            let key = seg.to_owned();
            let value = String::new();
            proof {
                assert(value@ =~= spec_pair_value(seg@));
            }
            (key, value)
        },
    }
}

/// Looks up the value under a key in a `&`-separated fragment: the value
/// of the one pair carrying the key, nothing when the key is missing or
/// repeated.
pub fn fragment_value(s: &str, key: &str) -> (r: Option<String>)
    ensures
        match r {
            Some(v) => spec_fragment_value(s@, key@) matches Some(sv) && v@ == sv,
            None => spec_fragment_value(s@, key@) is None,
        },
{
    let len = s.unicode_len();
    let key_owned = key.to_owned();
    // The separator positions, verified against `sep_indices`.
    let mut amps: Vec<usize> = Vec::new();
    let mut i: usize = 0;
    while i < len
        invariant
            len == s@.len(),
            i <= len,
            amps@.len() == sep_indices(s@.take(i as int), '&').len(),
            forall|k: int| 0 <= k < amps@.len() ==> amps@[k] as int == sep_indices(
                s@.take(i as int),
                '&',
            )[k],
            forall|k: int| 0 <= k < amps@.len() ==> amps@[k] < i,
            forall|k1: int, k2: int| 0 <= k1 < k2 < amps@.len() ==> amps@[k1] < amps@[k2],
        decreases len - i,
    {
        proof {
            assert(s@.take(i + 1).drop_last() =~= s@.take(i as int));
            assert(s@.take(i + 1).last() == s@[i as int]);
        }
        let c = s.get_char(i);
        if c == '&' {
            amps.push(i);
        }
        i = i + 1;
    }
    proof {
        assert(s@.take(len as int) =~= s@);
    }
    let ghost d = sep_indices(s@, '&');
    let mut found: Option<String> = None;
    let mut count: usize = 0;
    let mut k: usize = 0;
    while k < amps.len()
        invariant
            len == s@.len(),
            amps@.len() == d.len(),
            d == sep_indices(s@, '&'),
            forall|m: int| 0 <= m < amps@.len() ==> amps@[m] as int == d[m],
            forall|m: int| 0 <= m < amps@.len() ==> amps@[m] < len,
            forall|m1: int, m2: int| 0 <= m1 < m2 < amps@.len() ==> amps@[m1] < amps@[m2],
            k <= amps@.len(),
            count <= k,
            count == spec_key_matches(s@, key_owned@, k as int).len(),
            key_owned@ == key@,
            match found {
                Some(v) => count >= 1 && v@ == spec_pair_value(
                    spec_segment(s@, '&', spec_key_matches(s@, key_owned@, k as int)[0]),
                ),
                None => count == 0,
            },
        decreases amps@.len() - k,
    {
        let start: usize = if k == 0 {
            0
        } else {
            amps[k - 1] + 1
        };
        let end: usize = amps[k];
        let seg = s.substring_char(start, end);
        proof {
            assert(seg@ =~= spec_segment(s@, '&', k as int));
        }
        let (pk, pv) = split_pair(seg);
        if pk == key_owned {
            if count == 0 {
                found = Some(pv);
            }
            count = count + 1;
        }
        k = k + 1;
    }
    // The final segment, after the last separator.
    let start: usize = if amps.len() == 0 {
        0
    } else {
        amps[amps.len() - 1] + 1
    };
    let seg = s.substring_char(start, len);
    proof {
        assert(seg@ =~= spec_segment(s@, '&', amps@.len() as int));
    }
    let (pk, pv) = split_pair(seg);
    if pk == key_owned {
        if count == 0 {
            found = Some(pv);
        }
        if count < usize::MAX {
            count = count + 1;
        }
    }
    proof {
        assert(n_segments(s@, '&') == d.len() + 1);
    }
    if count == 1 {
        found
    } else {
        None
    }
}

/// Whether a string is one or more decimal digits.
pub open spec fn spec_is_digits(v: Seq<char>) -> bool {
    v.len() > 0 && forall|i: int| 0 <= i < v.len() ==> '0' <= #[trigger] v[i] <= '9'
}

/// The number a digit string denotes.
pub open spec fn spec_digits_val(v: Seq<char>) -> int
    decreases v.len(),
{
    if v.len() == 0 {
        0
    } else {
        spec_digits_val(v.drop_last()) * 10 + (v.last() as int - '0' as int)
    }
}

/// The number an unsigned decimal string denotes: digits only, within
/// range; anything else is nothing.
pub open spec fn spec_parse_u64(v: Seq<char>) -> Option<u64> {
    if spec_is_digits(v) && spec_digits_val(v) <= u64::MAX {
        Some(spec_digits_val(v) as u64)
    } else {
        None
    }
}

/// Parses an unsigned decimal string.
pub fn parse_u64_decimal(v: &str) -> (r: Option<u64>)
    ensures
        r == spec_parse_u64(v@),
{
    let len = v.unicode_len();
    if len == 0 {
        return None;
    }
    let mut acc: Option<u64> = Some(0);
    let mut i: usize = 0;
    while i < len
        invariant
            len == v@.len(),
            i <= len,
            forall|j: int| 0 <= j < i ==> '0' <= #[trigger] v@[j] <= '9',
            match acc {
                Some(a) => a as int == spec_digits_val(v@.take(i as int)),
                None => spec_digits_val(v@.take(i as int)) > u64::MAX,
            },
        decreases len - i,
    {
        proof {
            assert(v@.take(i + 1).drop_last() =~= v@.take(i as int));
            assert(v@.take(i + 1).last() == v@[i as int]);
        }
        let c = v.get_char(i);
        if !('0' <= c && c <= '9') {
            return None;
        }
        let d: u64 = (c as u32 as u64) - 48;
        acc = match acc {
            Some(a) => match a.checked_mul(10) {
                Some(m) => m.checked_add(d),
                None => None,
            },
            None => None,
        };
        proof {
            let prev = spec_digits_val(v@.take(i as int));
            let next = spec_digits_val(v@.take(i + 1));
            assert(next == prev * 10 + d);
        }
        i = i + 1;
    }
    proof {
        assert(v@.take(len as int) =~= v@);
    }
    acc
}

/// Reads the token set out of a completed login redirect's fragment: the
/// access token, the identity token and the expiry lifetime in seconds,
/// each present exactly once, the lifetime a decimal number. Values are
/// taken exactly as they stand in the fragment: percent-escapes are not
/// decoded, as the contract's `spec_pair_value` states.
pub fn parse_token_fragment(s: &str) -> (r: Option<Tokens>)
    ensures
        match r {
            Some(t) => {
                &&& spec_fragment_value(s@, "access_token"@) matches Some(at) && t.access_token@
                    == at
                &&& spec_fragment_value(s@, "id_token"@) matches Some(it) && t.id_token@ == it
                &&& spec_fragment_value(s@, "expires_in"@) matches Some(ei) && spec_parse_u64(ei)
                    == Some(t.expires_in)
            },
            None => {
                ||| spec_fragment_value(s@, "access_token"@) is None
                ||| spec_fragment_value(s@, "id_token"@) is None
                ||| spec_fragment_value(s@, "expires_in"@) is None
                ||| (spec_fragment_value(s@, "expires_in"@) matches Some(ei) && spec_parse_u64(ei)
                    is None)
            },
        },
{
    let access_token = match fragment_value(s, "access_token") {
        Some(v) => v,
        None => {
            return None;
        },
    };
    let id_token = match fragment_value(s, "id_token") {
        Some(v) => v,
        None => {
            return None;
        },
    };
    let expires_raw = match fragment_value(s, "expires_in") {
        Some(v) => v,
        None => {
            return None;
        },
    };
    let expires_in = match parse_u64_decimal(expires_raw.as_str()) {
        Some(v) => v,
        None => {
            return None;
        },
    };
    Some(Tokens { access_token, id_token, expires_in })
}

} // verus!
