//! Persisted account and session rows. Scheduling and expiry instants are
//! unix seconds.

use vstd::prelude::*;

verus! {

/// A new or re-authenticated account to upsert, keyed by `puuid`.
#[derive(Debug)]
pub struct AddUser {
    pub puuid: String,
    pub game_name: String,
    pub tag_line: String,
    pub region: String,
    pub user_info: String,
    pub entitlements_token: String,
    pub next_store: i64,
    pub next_nightmarket: i64,
}

/// A session to write for an account; replaces any session that account
/// already has.
#[derive(Debug)]
pub struct AddUserSession {
    pub user_id: i64,
    pub access_token: String,
    pub id_token: String,
    pub expires_at: i64,
    pub authorized_cookies: String,
}

/// A stored account row, together with its session when one exists.
#[derive(Debug)]
#[verifier::ext_equal]
pub struct User {
    pub id: i64,
    pub puuid: String,
    pub game_name: String,
    pub tag_line: String,
    pub region: String,
    pub user_info: String,
    pub entitlements_token: String,
    pub next_store: i64,
    pub next_nightmarket: i64,
    pub session: Option<UserSession>,
}

/// A stored session row; at most one exists per account.
#[derive(Debug)]
#[verifier::ext_equal]
pub struct UserSession {
    pub id: i64,
    pub user_id: i64,
    pub access_token: String,
    pub id_token: String,
    pub expires_at: i64,
    pub authorized_cookies: String,
}

impl Clone for UserSession {
    fn clone(&self) -> (res: Self)
        ensures
            res == *self,
    {
        let res = UserSession {
            id: self.id,
            user_id: self.user_id,
            access_token: self.access_token.clone(),
            id_token: self.id_token.clone(),
            expires_at: self.expires_at,
            authorized_cookies: self.authorized_cookies.clone(),
        };
        proof {
            assert(res == *self);
        }
        res
    }
}

impl Clone for User {
    fn clone(&self) -> (res: Self)
        ensures
            res == *self,
    {
        let session = match &self.session {
            Some(s) => Some(s.clone()),
            None => None,
        };
        let res = User {
            id: self.id,
            puuid: self.puuid.clone(),
            game_name: self.game_name.clone(),
            tag_line: self.tag_line.clone(),
            region: self.region.clone(),
            user_info: self.user_info.clone(),
            entitlements_token: self.entitlements_token.clone(),
            next_store: self.next_store,
            next_nightmarket: self.next_nightmarket,
            session,
        };
        proof {
            assert(res == *self);
        }
        res
    }
}

} // verus!
