//! The poll scheduler's decisions: which accounts are visited, which
//! sections are due, and how due-timestamps advance from the provider's
//! remaining-duration fields.

use vstd::prelude::*;

verus! {

/// Addition on unix seconds, clamped to the representable range.
pub open spec fn spec_sat_add(a: int, b: int) -> int {
    if a + b > i64::MAX {
        i64::MAX as int
    } else if a + b < i64::MIN {
        i64::MIN as int
    } else {
        a + b
    }
}

/// Clamped addition on unix seconds.
pub fn sat_add_i64(a: i64, b: i64) -> (r: i64)
    ensures
        r as int == spec_sat_add(a as int, b as int),
{
    if b >= 0 {
        if a <= i64::MAX - b {
            a + b
        } else {
            i64::MAX
        }
    } else {
        if a >= i64::MIN - b {
            a + b
        } else {
            i64::MIN
        }
    }
}

/// Whether an account is visited at all this run: the regular section has
/// come due, or one of the force flags is set. A skipped account gets no
/// fetch, no notification and no timestamp change.
pub open spec fn spec_account_visited(
    next_store: int,
    now: int,
    force: bool,
    force_nightmarket: bool,
) -> bool {
    !(next_store > now && !force && !force_nightmarket)
}

/// Whether the regular section is processed: due, or forced.
pub open spec fn spec_regular_due(next_store: int, now: int, force: bool) -> bool {
    next_store <= now || force
}

/// Whether the bonus section is processed, given that the response holds
/// one: due, or forced.
pub open spec fn spec_bonus_due(next_nightmarket: int, now: int, force_nightmarket: bool) -> bool {
    next_nightmarket <= now || force_nightmarket
}

/// Decides whether an account is visited this run.
pub fn account_visited(next_store: i64, now: i64, force: bool, force_nightmarket: bool) -> (r:
    bool)
    ensures
        r == spec_account_visited(next_store as int, now as int, force, force_nightmarket),
{
    !(next_store > now && !force && !force_nightmarket)
}

/// Decides whether the regular section is processed.
pub fn regular_due(next_store: i64, now: i64, force: bool) -> (r: bool)
    ensures
        r == spec_regular_due(next_store as int, now as int, force),
{
    next_store <= now || force
}

/// Decides whether the bonus section is processed, given that the
/// response holds one.
pub fn bonus_due(next_nightmarket: i64, now: i64, force_nightmarket: bool) -> (r: bool)
    ensures
        r == spec_bonus_due(next_nightmarket as int, now as int, force_nightmarket),
{
    next_nightmarket <= now || force_nightmarket
}

/// After a section is processed at `now` with a positive remaining
/// duration, a second run at the same instant without force flags does
/// not visit the account at all: re-running immediately sends nothing
/// again.
pub proof fn lemma_recheck_is_idle(now: int, remaining: int)
    requires
        i64::MIN <= now < i64::MAX,
        0 < remaining <= i64::MAX,
    ensures
        !spec_account_visited(spec_sat_add(now, remaining), now, false, false),
        !spec_regular_due(spec_sat_add(now, remaining), now, false),
        !spec_bonus_due(spec_sat_add(now, remaining), now, false),
{
}

} // verus!
