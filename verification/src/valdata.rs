//! The client-version string sent with storefront fetches, computed from
//! the version record of the third-party version service.

use vstd::prelude::*;
use vstd::string::StrSliceExecFns;
use vstd::string::StringExecFns;

verus! {

/// The positions of the dots in a version string, in order.
pub open spec fn dot_indices(s: Seq<char>) -> Seq<int>
    decreases s.len(),
{
    if s.len() == 0 {
        Seq::empty()
    } else {
        let r = dot_indices(s.drop_last());
        if s.last() == '.' {
            r.push(s.len() - 1)
        } else {
            r
        }
    }
}

/// The fourth dot-separated component of a version string: what stands
/// between the third dot and the fourth (or the end). `None` when the
/// string has fewer than four components.
pub open spec fn spec_fourth_component(s: Seq<char>) -> Option<Seq<char>> {
    let d = dot_indices(s);
    if d.len() < 3 {
        None
    } else {
        let start = d[2] + 1;
        let end = if d.len() >= 4 {
            d[3]
        } else {
            s.len() as int
        };
        Some(s.subrange(start, end))
    }
}

/// Extracts the fourth dot-separated component of a version string.
fn fourth_component(s: &str) -> (r: Option<String>)
    ensures
        match r {
            Some(t) => spec_fourth_component(s@) matches Some(v) && t@ == v,
            None => spec_fourth_component(s@) is None,
        },
{
    let len = s.unicode_len();
    let mut count: usize = 0;
    let mut start: usize = 0;
    let mut end: usize = len;
    let mut i: usize = 0;
    while i < len
        invariant
            len == s@.len(),
            i <= len,
            count <= i,
            count == dot_indices(s@.take(i as int)).len(),
            forall|k: int| 0 <= k < count ==> 0 <= #[trigger] dot_indices(s@.take(i as int))[k]
                < i,
            forall|k1: int, k2: int| 0 <= k1 < k2 < count ==> dot_indices(s@.take(i as int))[k1]
                < dot_indices(s@.take(i as int))[k2],
            count >= 3 ==> start == dot_indices(s@.take(i as int))[2] + 1,
            count >= 4 ==> end == dot_indices(s@.take(i as int))[3],
            count < 4 ==> end == len,
        decreases len - i,
    {
        proof {
            assert(s@.take(i + 1).drop_last() =~= s@.take(i as int));
            assert(s@.take(i + 1).last() == s@[i as int]);
        }
        let c = s.get_char(i);
        if c == '.' {
            count = count + 1;
            if count == 3 {
                start = i + 1;
            } else if count == 4 {
                end = i;
            }
        }
        i = i + 1;
    }
    proof {
        assert(s@.take(len as int) =~= s@);
    }
    if count < 3 {
        None
    } else {
        Some(s.substring_char(start, end).to_owned())
    }
}

/// The client-version string for a version record: branch, the literal
/// `-shipping-`, the build number, and the fourth dot-component of the
/// full version; `None` when the full version has fewer than four
/// components.
pub open spec fn spec_client_version(v: crate::models::ValorantVersionResponse) -> Option<
    Seq<char>,
> {
    match spec_fourth_component(v.version@) {
        Some(t) => Some(v.branch@ + "-shipping-"@ + v.build_version@ + "-"@ + t),
        None => None,
    }
}

/// Formats the client-version string sent with storefront fetches from a
/// version record.
pub fn get_client_version(version: &crate::models::ValorantVersionResponse) -> (r: Option<String>)
    ensures
        match r {
            Some(s) => spec_client_version(*version) matches Some(v) && s@ == v,
            None => spec_client_version(*version) is None,
        },
{
    match fourth_component(version.version.as_str()) {
        Some(t) => {
            let mut s = version.branch.clone();
            s.append("-shipping-");
            s.append(version.build_version.as_str());
            s.append("-");
            s.append(t.as_str());
            Some(s)
        },
        None => None,
    }
}

} // verus!
