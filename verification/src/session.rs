//! The session classifier: whether an account's stored credential is still
//! usable, and how fresh tokens and a resolved identity become session and
//! account rows.

use vstd::prelude::*;

use crate::account::{AddUser, AddUserSession, User};
use crate::models::{RegionResponse, Tokens, UserInfoResponse};
use crate::schedule::{sat_add_i64, spec_sat_add};

verus! {

/// The state of an account's stored credential at one instant.
#[derive(Debug, Clone, Copy, PartialEq, Eq, Structural)]
pub enum SessionHealth {
    /// A session exists and has not expired.
    Valid,
    /// A session exists but has expired; silent reauthentication may
    /// still succeed from its stored credential.
    Expired,
    /// No session exists; only interactive login can help.
    Missing,
}

/// The classifier's answer for one account at one instant.
pub open spec fn spec_session_health(user: User, now: int) -> SessionHealth {
    match user.session {
        Some(s) => if s.expires_at >= now {
            SessionHealth::Valid
        } else {
            SessionHealth::Expired
        },
        None => SessionHealth::Missing,
    }
}

/// Classifies an account's stored credential: valid while its expiry has
/// not passed, expired after, missing when there is none.
pub fn classify_session(user: &User, now: i64) -> (r: SessionHealth)
    ensures
        r == spec_session_health(*user, now as int),
{
    match &user.session {
        Some(s) => if s.expires_at >= now {
            SessionHealth::Valid
        } else {
            SessionHealth::Expired
        },
        None => SessionHealth::Missing,
    }
}

/// The expiry instant of freshly issued tokens: `now` plus their
/// lifetime, clamped to the representable range.
pub open spec fn spec_token_expiry(now: int, expires_in: nat) -> int {
    if expires_in > i64::MAX {
        i64::MAX as int
    } else {
        spec_sat_add(now, expires_in as int)
    }
}

/// The session row that freshly issued tokens and their cookie
/// credential become for one account.
pub open spec fn spec_session_row(user_id: i64, tokens: Tokens, cookies: String, now: int) -> AddUserSession {
    AddUserSession {
        user_id,
        access_token: tokens.access_token,
        id_token: tokens.id_token,
        expires_at: spec_token_expiry(now, tokens.expires_in as nat) as i64,
        authorized_cookies: cookies,
    }
}

/// Builds the session row for freshly issued tokens.
pub fn build_session(user_id: i64, tokens: &Tokens, cookies: &String, now: i64) -> (r:
    AddUserSession)
    ensures
        r == spec_session_row(user_id, *tokens, *cookies, now as int),
{
    let lifetime: i64 = if tokens.expires_in > i64::MAX as u64 {
        i64::MAX
    } else {
        tokens.expires_in as i64
    };
    let expires_at = if tokens.expires_in > i64::MAX as u64 {
        i64::MAX
    } else {
        sat_add_i64(now, lifetime)
    };
    AddUserSession {
        user_id,
        access_token: tokens.access_token.clone(),
        id_token: tokens.id_token.clone(),
        expires_at,
        authorized_cookies: cookies.clone(),
    }
}

/// The account row a resolved identity becomes: keyed by the stable
/// identifier, carrying the display identity, the live region and the
/// entitlement token, with both sections immediately due.
pub open spec fn spec_account_row(
    raw_user_info: String,
    user_info: UserInfoResponse,
    region: RegionResponse,
    entitlements_token: String,
    now: int,
) -> AddUser {
    AddUser {
        puuid: user_info.sub,
        game_name: user_info.acct.game_name,
        tag_line: user_info.acct.tag_line,
        region: region.affinities.live,
        user_info: raw_user_info,
        entitlements_token,
        next_store: now as i64,
        next_nightmarket: now as i64,
    }
}

/// Builds the account row for a freshly resolved identity.
pub fn build_account_row(
    raw_user_info: &String,
    user_info: &UserInfoResponse,
    region: &RegionResponse,
    entitlements_token: &String,
    now: i64,
) -> (r: AddUser)
    ensures
        r == spec_account_row(
            *raw_user_info,
            *user_info,
            *region,
            *entitlements_token,
            now as int,
        ),
{
    AddUser {
        puuid: user_info.sub.clone(),
        game_name: user_info.acct.game_name.clone(),
        tag_line: user_info.acct.tag_line.clone(),
        region: region.affinities.live.clone(),
        user_info: raw_user_info.clone(),
        entitlements_token: entitlements_token.clone(),
        next_store: now,
        next_nightmarket: now,
    }
}

} // verus!
