//! The polling engine: refreshes or re-acquires sessions, decides per
//! account which storefront sections are due, fetches once per visited
//! account, resolves offers against the catalog, and fans notifications
//! out to every webhook target. All decisions are verified; the outside
//! work runs behind the provider traits.

use vstd::prelude::*;

use crate::account::User;
use crate::catalog::{build_skin_catalog, SkinCatalog};
use crate::clock::Clock;
use crate::datastore::{
    has_puuid, has_user_id, lemma_ids_preserved, lemma_user_id_index_unique, spec_new_user,
    spec_upserted_user, spec_with_session, user_id_index, user_index, Datastore, StoreError,
};
use crate::message::{generate_store_messages, lemma_message_matches_eqv, message_matches};
use crate::models::{
    RegionResponse, SkinData, SkinDetails, StoreFrontResponse, Tokens, UserInfoResponse,
    WebhookMessage,
};
use crate::offers::{resolve_bonus_offers, resolve_regular_offers, spec_resolve_bonus, spec_resolve_regular};
use crate::providers::{
    AuthProvider, CatalogProvider, FetchError, IdentityProvider, LoginProvider, Notifier,
    StoreProvider, RIOT_AUTH_PAGE,
};
use crate::schedule::{
    account_visited, bonus_due, regular_due, sat_add_i64, spec_account_visited, spec_bonus_due,
    spec_regular_due, spec_sat_add,
};
use crate::session::{
    build_account_row, build_session, classify_session, spec_account_row, spec_session_health,
    spec_session_row, SessionHealth,
};
use crate::valdata::get_client_version;

verus! {

/// What processing one storefront section produced: the instant it was
/// decided at, the updated due-timestamp, the offer identifiers dropped
/// for want of a catalog entry, the message built, and the per-target
/// delivery outcomes.
#[derive(Debug)]
pub struct SectionReport {
    pub now: i64,
    pub next_at: i64,
    pub missing: Vec<String>,
    pub message: WebhookMessage,
    pub deliveries: Vec<bool>,
}

/// The outcome of applying one fetched storefront response: the instants
/// the two section gates were decided at, and one report per processed
/// section.
#[derive(Debug)]
pub struct PollOutcome {
    pub now_bonus: i64,
    pub now_regular: i64,
    pub bonus: Option<SectionReport>,
    pub regular: Option<SectionReport>,
}

/// The outcome of one account in a `check` run.
#[derive(Debug)]
pub enum AccountReport {
    /// The account has no session; it was skipped with a report.
    NotLoggedIn,
    /// Neither section was due and nothing was forced: no fetch, no
    /// write, no notification.
    Skipped { now: i64 },
    /// The storefront fetch failed; the account was skipped for this run
    /// and the run went on.
    FetchFailed { now: i64, error: FetchError },
    /// The storefront was fetched once and its sections processed.
    Polled { gate_now: i64, response: StoreFrontResponse, outcome: PollOutcome },
}

/// The outcome of one account in the session refresh pass. Each
/// classification outcome records the instant it was decided at.
#[derive(Debug)]
pub enum RefreshOutcome {
    /// The stored session was still valid at `now`.
    StillValid { user_id: i64, now: i64 },
    /// The session had expired at `now`; silent reauthentication
    /// succeeded and the new session, issued at `refreshed_at`, was
    /// stored.
    Refreshed { user_id: i64, now: i64, refreshed_at: i64 },
    /// Silent reauthentication succeeded but the session write failed.
    RefreshWriteFailed { user_id: i64, now: i64 },
    /// Interactive login completed; the identity that actually logged in
    /// was stored, whether or not it was the expected one.
    Relogged { expected_id: i64, actual_id: i64 },
    /// Interactive login failed or was cancelled; the account was
    /// skipped.
    LoginFailed { user_id: i64 },
}

impl RefreshOutcome {
    /// Whether the operator logged into a different account than the one
    /// that needed the login. A warning, never fatal.
    pub open spec fn spec_is_mismatch(self) -> bool {
        match self {
            RefreshOutcome::Relogged { expected_id, actual_id } => expected_id != actual_id,
            _ => false,
        }
    }

    /// Whether this outcome is the wrong-account warning case.
    pub fn is_mismatch(&self) -> (r: bool)
        ensures
            r == self.spec_is_mismatch(),
    {
        match self {
            RefreshOutcome::Relogged { expected_id, actual_id } => expected_id != actual_id,
            _ => false,
        }
    }
}

/// Why adding an account failed. All are per-account recoverable.
#[derive(Debug)]
pub enum AddAccountError {
    /// The operator cancelled the interactive login.
    LoginCancelled,
    /// Resolving the profile failed.
    Identity(FetchError),
    /// Resolving the region failed.
    Region(FetchError),
    /// Fetching the entitlement token failed.
    Entitlement(FetchError),
    /// The store refused the write.
    Store(StoreError),
}

/// Why a whole `check` run aborted: without the catalog or the client
/// version nothing can be resolved for anyone.
#[derive(Debug)]
pub enum CheckError {
    /// The catalog fetch failed.
    Catalog(FetchError),
    /// The version fetch failed.
    Version(FetchError),
    /// The version record had no usable client version.
    BadVersion,
}

/// Everything one `check` run did.
#[derive(Debug)]
pub struct CheckReport {
    pub refresh: Vec<RefreshOutcome>,
    pub accounts: Vec<AccountReport>,
}

/// Sends one message to every registered target, one attempt per target
/// in order, regardless of earlier failures. The outcome list has exactly
/// one entry per target: a failed delivery never prevents the attempts
/// after it.
pub fn send_webhooks<N: Notifier>(
    notifier: &mut N,
    webhooks: &Vec<String>,
    message: &WebhookMessage,
) -> (r: Vec<bool>)
    ensures
        r@.len() == webhooks@.len(),
{
    let mut outcomes: Vec<bool> = Vec::new();
    let mut i: usize = 0;
    while i < webhooks.len()
        invariant
            i <= webhooks@.len(),
            outcomes@.len() == i,
        decreases webhooks@.len() - i,
    {
        let ok = notifier.send_webhook(webhooks[i].as_str(), message);
        outcomes.push(ok);
        i = i + 1;
    }
    outcomes
}

/// Whether the bonus section of this response is processed: the response
/// holds one, and it is due or forced at the recorded instant.
pub open spec fn spec_bonus_processed(
    user: User,
    store: StoreFrontResponse,
    force_nightmarket: bool,
    now: int,
) -> bool {
    store.bonus_store is Some && spec_bonus_due(user.next_nightmarket as int, now, force_nightmarket)
}

/// Whether the regular section is processed: due or forced at the
/// recorded instant.
pub open spec fn spec_regular_processed(user: User, force: bool, now: int) -> bool {
    spec_regular_due(user.next_store as int, now, force)
}

/// What one section report holds when its section was processed.
pub open spec fn section_report_matches(
    sr: SectionReport,
    user: User,
    resolved: (Seq<SkinData>, Seq<String>),
    now: int,
    remaining: int,
    n_targets: int,
) -> bool {
    &&& sr.now == now
    &&& sr.next_at as int == spec_sat_add(now, remaining)
    &&& sr.missing@ == resolved.1
    &&& message_matches(sr.message, user, resolved.0)
    &&& sr.deliveries@.len() == n_targets
}

/// The full effect of applying one fetched storefront response for one
/// account: which sections were processed, what each produced, and
/// exactly how the account's row changed — the due-timestamp of a
/// processed section becomes its gate instant plus the response's
/// remaining duration, and an unprocessed section's timestamp keeps the
/// row's stored value.
pub open spec fn spec_poll_post(
    old_users: Seq<User>,
    new_users: Seq<User>,
    user: User,
    store: StoreFrontResponse,
    cat: Map<Seq<char>, SkinDetails>,
    force: bool,
    force_nightmarket: bool,
    outcome: PollOutcome,
    n_targets: int,
) -> bool {
    let j = user_id_index(old_users, user.id);
    let bonus_p = spec_bonus_processed(user, store, force_nightmarket, outcome.now_bonus as int);
    let reg_p = spec_regular_processed(user, force, outcome.now_regular as int);
    let nb = if bonus_p {
        spec_sat_add(
            outcome.now_bonus as int,
            store.bonus_store.unwrap().bonus_store_remaining_duration_in_seconds as int,
        )
    } else {
        old_users[j].next_nightmarket as int
    };
    let ns = if reg_p {
        spec_sat_add(
            outcome.now_regular as int,
            store.skins_panel_layout.single_item_offers_remaining_duration_in_seconds as int,
        )
    } else {
        old_users[j].next_store as int
    };
    &&& new_users == old_users.update(
        j,
        User { next_store: ns as i64, next_nightmarket: nb as i64, ..old_users[j] },
    )
    &&& (outcome.bonus is Some <==> bonus_p)
    &&& (outcome.regular is Some <==> reg_p)
    &&& match outcome.bonus {
        Some(sr) => section_report_matches(
            sr,
            user,
            spec_resolve_bonus(cat, store.bonus_store.unwrap().bonus_store_offers@),
            outcome.now_bonus as int,
            store.bonus_store.unwrap().bonus_store_remaining_duration_in_seconds as int,
            n_targets,
        ),
        None => true,
    }
    &&& match outcome.regular {
        Some(sr) => section_report_matches(
            sr,
            user,
            spec_resolve_regular(cat, store.skins_panel_layout.single_item_store_offers@),
            outcome.now_regular as int,
            store.skins_panel_layout.single_item_offers_remaining_duration_in_seconds as int,
            n_targets,
        ),
        None => true,
    }
}

/// Applies one fetched storefront response for one account: processes the
/// bonus section first, then the regular section, each only when due or
/// forced; a processed section advances its due-timestamp and sends one
/// message to every target. The response never mutates anything beyond
/// the one account row, and an absent bonus section never touches the
/// bonus timestamp.
pub fn apply_storefront<N: Notifier, C: Clock>(
    db: &mut Datastore,
    notifier: &mut N,
    clock: &mut C,
    webhooks: &Vec<String>,
    catalog: &SkinCatalog,
    user: &User,
    store: &StoreFrontResponse,
    force: &bool,
    force_nightmarket: &bool,
) -> (r: PollOutcome)
    requires
        old(db).wf(),
        catalog.wf(),
        has_user_id(old(db).users_view(), user.id),
    ensures
        final(db).wf(),
        final(db).webhooks_view() == old(db).webhooks_view(),
        spec_poll_post(
            old(db).users_view(),
            final(db).users_view(),
            *user,
            *store,
            catalog@,
            *force,
            *force_nightmarket,
            r,
            webhooks@.len() as int,
        ),
{
    let ghost users0 = db.users_view();
    let ghost j = user_id_index(users0, user.id);
    proof {
        db.lemma_wf_rows_unique();
        assert(0 <= j < users0.len() && users0[j].id == user.id);
    }
    let mut now_bonus: i64 = 0;
    let mut bonus_report: Option<SectionReport> = None;
    match &store.bonus_store {
        Some(bonus) => {
            now_bonus = clock.now_seconds();
            if bonus_due(user.next_nightmarket, now_bonus, *force_nightmarket) {
                let next_at = sat_add_i64(
                    now_bonus,
                    bonus.bonus_store_remaining_duration_in_seconds,
                );
                db.set_user_next_nightmarket(&user.id, &next_at);
                let (skins, missing) = resolve_bonus_offers(&bonus.bonus_store_offers, catalog);
                let ghost skins_view = skins@;
                let message = generate_store_messages(user, skins);
                proof {
                    lemma_message_matches_eqv(
                        message,
                        *user,
                        skins_view,
                        spec_resolve_bonus(catalog@, bonus.bonus_store_offers@).0,
                    );
                }
                let deliveries = send_webhooks(notifier, webhooks, &message);
                bonus_report = Some(
                    SectionReport { now: now_bonus, next_at, missing, message, deliveries },
                );
            }
        },
        None => {},
    }
    let ghost users1 = db.users_view();
    proof {
        db.lemma_wf_rows_unique();
        if bonus_report is Some {
            assert(users1 == users0.update(j, User { next_nightmarket: users1[j].next_nightmarket, ..users0[j] }));
        } else {
            assert(users1 == users0);
        }
        assert(users1[j].id == user.id);
        lemma_user_id_index_unique(users1, j);
    }
    let now_regular = clock.now_seconds();
    let mut regular_report: Option<SectionReport> = None;
    if regular_due(user.next_store, now_regular, *force) {
        let next_at = sat_add_i64(
            now_regular,
            store.skins_panel_layout.single_item_offers_remaining_duration_in_seconds,
        );
        db.set_user_next_store(&user.id, &next_at);
        let (skins, missing) = resolve_regular_offers(
            &store.skins_panel_layout.single_item_store_offers,
            catalog,
        );
        let ghost skins_view = skins@;
        let message = generate_store_messages(user, skins);
        proof {
            lemma_message_matches_eqv(
                message,
                *user,
                skins_view,
                spec_resolve_regular(catalog@, store.skins_panel_layout.single_item_store_offers@).0,
            );
        }
        let deliveries = send_webhooks(notifier, webhooks, &message);
        regular_report = Some(
            SectionReport { now: now_regular, next_at, missing, message, deliveries },
        );
    }
    let r = PollOutcome { now_bonus, now_regular, bonus: bonus_report, regular: regular_report };
    proof {
        let users2 = db.users_view();
        let bonus_p = spec_bonus_processed(*user, *store, *force_nightmarket, r.now_bonus as int);
        let reg_p = spec_regular_processed(*user, *force, r.now_regular as int);
        let nb = if bonus_p {
            spec_sat_add(
                r.now_bonus as int,
                store.bonus_store.unwrap().bonus_store_remaining_duration_in_seconds as int,
            )
        } else {
            users0[j].next_nightmarket as int
        };
        let ns = if reg_p {
            spec_sat_add(
                r.now_regular as int,
                store.skins_panel_layout.single_item_offers_remaining_duration_in_seconds as int,
            )
        } else {
            users0[j].next_store as int
        };
        let target = User { next_store: ns as i64, next_nightmarket: nb as i64, ..users0[j] };
        assert(users2 =~= users0.update(j, target));
    }
    r
}

/// What checking one account at one table state says, for each report: a
/// missing session or an undue, unforced account touches nothing; a
/// failed fetch touches nothing; a poll satisfies the full
/// `spec_poll_post` for the recorded response and instants.
pub open spec fn spec_account_checked(
    s: Seq<User>,
    t: Seq<User>,
    user: User,
    r: AccountReport,
    cat: Map<Seq<char>, SkinDetails>,
    force: bool,
    force_nightmarket: bool,
    n_targets: int,
) -> bool {
    match r {
        AccountReport::NotLoggedIn => user.session is None && t == s,
        AccountReport::Skipped { now } => user.session is Some && !spec_account_visited(
            user.next_store as int,
            now as int,
            force,
            force_nightmarket,
        ) && t == s,
        AccountReport::FetchFailed { now, error } => user.session is Some && spec_account_visited(
            user.next_store as int,
            now as int,
            force,
            force_nightmarket,
        ) && t == s,
        AccountReport::Polled { gate_now, response, outcome } => user.session is Some
            && spec_account_visited(
            user.next_store as int,
            gate_now as int,
            force,
            force_nightmarket,
        ) && spec_poll_post(s, t, user, response, cat, force, force_nightmarket, outcome, n_targets),
    }
}

/// One account of a `check` run: skip it when not logged in or when
/// nothing is due and nothing forced, otherwise fetch the storefront once
/// and apply it. A fetch failure skips the account without touching
/// anything, and never concerns the rest of the run. A skipped account's
/// timestamps stay exactly as they were.
pub fn check_account<S: StoreProvider, N: Notifier, C: Clock>(
    db: &mut Datastore,
    store_provider: &mut S,
    notifier: &mut N,
    clock: &mut C,
    webhooks: &Vec<String>,
    catalog: &SkinCatalog,
    client_ver: &String,
    user: &User,
    force: &bool,
    force_nightmarket: &bool,
) -> (r: AccountReport)
    requires
        old(db).wf(),
        catalog.wf(),
        has_user_id(old(db).users_view(), user.id),
    ensures
        final(db).wf(),
        final(db).webhooks_view() == old(db).webhooks_view(),
        spec_account_checked(
            old(db).users_view(),
            final(db).users_view(),
            *user,
            r,
            catalog@,
            *force,
            *force_nightmarket,
            webhooks@.len() as int,
        ),
{
    let session = match &user.session {
        Some(s) => s,
        None => {
            return AccountReport::NotLoggedIn;
        },
    };
    let now = clock.now_seconds();
    if !account_visited(user.next_store, now, *force, *force_nightmarket) {
        return AccountReport::Skipped { now };
    }
    match store_provider.store_fetch_storefront(
        client_ver,
        &user.entitlements_token,
        &session.access_token,
        &user.region,
        &user.puuid,
    ) {
        Err(error) => AccountReport::FetchFailed { now, error },
        Ok(response) => {
            let outcome = apply_storefront(
                db,
                notifier,
                clock,
                webhooks,
                catalog,
                user,
                &response,
                force,
                force_nightmarket,
            );
            AccountReport::Polled { gate_now: now, response, outcome }
        },
    }
}

/// Persists a freshly resolved identity: the account row is upserted by
/// its stable identifier — re-authenticating an identity that already has
/// a row updates that row, same row id, row count unchanged — and the new
/// session is written for it, replacing any session the row had.
pub fn register_identity(
    db: &mut Datastore,
    raw_user_info: &String,
    user_info: &UserInfoResponse,
    region: &RegionResponse,
    entitlements_token: &String,
    tokens: &Tokens,
    cookies: &String,
    now: i64,
) -> (r: Result<i64, StoreError>)
    requires
        old(db).wf(),
    ensures
        final(db).wf(),
        final(db).webhooks_view() == old(db).webhooks_view(),
        match r {
            Ok(id) => {
                let row = spec_account_row(
                    *raw_user_info,
                    *user_info,
                    *region,
                    *entitlements_token,
                    now as int,
                );
                let sess = spec_session_row(id, *tokens, *cookies, now as int);
                if has_puuid(old(db).users_view(), user_info.sub@) {
                    let j = user_index(old(db).users_view(), user_info.sub@);
                    &&& id == old(db).users_view()[j].id
                    &&& final(db).users_view() == old(db).users_view().update(
                        j,
                        spec_with_session(
                            spec_upserted_user(old(db).users_view()[j], row),
                            sess,
                            old(db).session_counter(),
                        ),
                    )
                } else {
                    &&& !has_user_id(old(db).users_view(), id)
                    &&& final(db).users_view() == old(db).users_view().push(
                        spec_with_session(
                            spec_new_user(id, row),
                            sess,
                            old(db).session_counter(),
                        ),
                    )
                }
            },
            Err(e) => {
                let row = spec_account_row(
                    *raw_user_info,
                    *user_info,
                    *region,
                    *entitlements_token,
                    now as int,
                );
                ||| final(db).users_view() == old(db).users_view()
                ||| (if has_puuid(old(db).users_view(), user_info.sub@) {
                    final(db).users_view() == old(db).users_view().update(
                        user_index(old(db).users_view(), user_info.sub@),
                        spec_upserted_user(
                            old(db).users_view()[user_index(
                                old(db).users_view(),
                                user_info.sub@,
                            )],
                            row,
                        ),
                    )
                } else {
                    exists|id: i64|
                        final(db).users_view() == old(db).users_view().push(
                            spec_new_user(id, row),
                        )
                })
            },
        },
{
    let ghost users0 = db.users_view();
    let row = build_account_row(raw_user_info, user_info, region, entitlements_token, now);
    let id = match db.add_user(&row) {
        Ok(id) => id,
        Err(e) => {
            return Err(e);
        },
    };
    let ghost users1 = db.users_view();
    proof {
        db.lemma_wf_rows_unique();
        if has_puuid(users0, user_info.sub@) {
            let j = user_index(users0, user_info.sub@);
            assert(users1[j].id == id);
            lemma_user_id_index_unique(users1, j);
        } else {
            assert(users1[users0.len() as int].id == id);
            lemma_user_id_index_unique(users1, users0.len() as int);
        }
    }
    let sess = build_session(id, tokens, cookies, now);
    match db.set_session(&sess) {
        Ok(()) => {
            proof {
                let users2 = db.users_view();
                if has_puuid(users0, user_info.sub@) {
                    let j = user_index(users0, user_info.sub@);
                    assert(users2 =~= users0.update(
                        j,
                        spec_with_session(
                            spec_upserted_user(users0[j], row),
                            sess,
                            old(db).session_counter(),
                        ),
                    ));
                } else {
                    assert(users2 =~= users0.push(
                        spec_with_session(
                            spec_new_user(id, row),
                            sess,
                            old(db).session_counter(),
                        ),
                    ));
                }
            }
            Ok(id)
        },
        Err(e) => Err(e),
    }
}

/// One resolved identity persisted at one instant with the given
/// witnesses: exactly the write `register_identity` promises — the
/// account row upserted by the identity's stable id, the new session
/// attached to it.
pub open spec fn spec_registered_with(
    s: Seq<User>,
    t: Seq<User>,
    id: i64,
    raw_user_info: String,
    user_info: UserInfoResponse,
    region: RegionResponse,
    entitlements_token: String,
    tokens: Tokens,
    cookies: String,
    now: i64,
    fresh_id: i64,
) -> bool {
    let row = spec_account_row(raw_user_info, user_info, region, entitlements_token, now as int);
    let sess = spec_session_row(id, tokens, cookies, now as int);
    if has_puuid(s, user_info.sub@) {
        let j = user_index(s, user_info.sub@);
        &&& id == s[j].id
        &&& t == s.update(j, spec_with_session(spec_upserted_user(s[j], row), sess, fresh_id))
    } else {
        &&& !has_user_id(s, id)
        &&& t == s.push(spec_with_session(spec_new_user(id, row), sess, fresh_id))
    }
}

/// Some resolved identity was persisted under this row id: the shape a
/// completed interactive login leaves behind, whatever identity, tokens
/// and instant the providers produced.
pub open spec fn spec_registered(s: Seq<User>, t: Seq<User>, id: i64) -> bool {
    exists|
        raw_user_info: String,
        user_info: UserInfoResponse,
        region: RegionResponse,
        entitlements_token: String,
        tokens: Tokens,
        cookies: String,
        now: i64,
        fresh_id: i64,
    |
        spec_registered_with(
            s,
            t,
            id,
            raw_user_info,
            user_info,
            region,
            entitlements_token,
            tokens,
            cookies,
            now,
            fresh_id,
        )
}

/// The account upsert went through but the session write was refused:
/// the partial state only a store error can leave behind, with the given
/// witnesses.
pub open spec fn spec_partial_register_with(
    s: Seq<User>,
    t: Seq<User>,
    raw_user_info: String,
    user_info: UserInfoResponse,
    region: RegionResponse,
    entitlements_token: String,
    now: i64,
    id: i64,
) -> bool {
    let row = spec_account_row(raw_user_info, user_info, region, entitlements_token, now as int);
    if has_puuid(s, user_info.sub@) {
        t == s.update(
            user_index(s, user_info.sub@),
            spec_upserted_user(s[user_index(s, user_info.sub@)], row),
        )
    } else {
        t == s.push(spec_new_user(id, row))
    }
}

/// Some account row was upserted without its session write.
pub open spec fn spec_partial_register(s: Seq<User>, t: Seq<User>) -> bool {
    exists|
        raw_user_info: String,
        user_info: UserInfoResponse,
        region: RegionResponse,
        entitlements_token: String,
        now: i64,
        id: i64,
    |
        spec_partial_register_with(
            s,
            t,
            raw_user_info,
            user_info,
            region,
            entitlements_token,
            now,
            id,
        )
}

/// Runs an interactive login, resolves the identity that actually logged
/// in, and persists it: account upserted by stable id, session written.
/// Every failure is per-account recoverable; only a store error can leave
/// the account row written without its new session.
pub fn add_account<L: LoginProvider, I: IdentityProvider, C: Clock>(
    db: &mut Datastore,
    login: &mut L,
    identity: &mut I,
    clock: &mut C,
) -> (r: Result<i64, AddAccountError>)
    requires
        old(db).wf(),
    ensures
        final(db).wf(),
        final(db).webhooks_view() == old(db).webhooks_view(),
        match r {
            Ok(id) => {
                &&& spec_registered(old(db).users_view(), final(db).users_view(), id)
                &&& has_user_id(final(db).users_view(), id)
                &&& final(db).users_view()[user_id_index(final(db).users_view(), id)].session
                    is Some
            },
            Err(e) => if e is Store {
                final(db).users_view() == old(db).users_view() || spec_partial_register(
                    old(db).users_view(),
                    final(db).users_view(),
                )
            } else {
                final(db).users_view() == old(db).users_view()
            },
        },
{
    let (tokens, cookies) = match login.login_popup(RIOT_AUTH_PAGE) {
        Some(p) => p,
        None => {
            return Err(AddAccountError::LoginCancelled);
        },
    };
    let (raw_user_info, user_info) = match identity.get_user_info(&tokens.access_token) {
        Ok(p) => p,
        Err(e) => {
            return Err(AddAccountError::Identity(e));
        },
    };
    let region = match identity.get_region(&tokens.access_token, &tokens.id_token) {
        Ok(p) => p,
        Err(e) => {
            return Err(AddAccountError::Region(e));
        },
    };
    let entitlements_token = match identity.get_entitlements_token(&tokens.access_token) {
        Ok(p) => p,
        Err(e) => {
            return Err(AddAccountError::Entitlement(e));
        },
    };
    let now = clock.now_seconds();
    match register_identity(
        db,
        &raw_user_info,
        &user_info,
        &region,
        &entitlements_token,
        &tokens,
        &cookies,
        now,
    ) {
        Ok(id) => {
            proof {
                let s0 = old(db).users_view();
                let t = db.users_view();
                assert(spec_registered_with(
                    s0,
                    t,
                    id,
                    raw_user_info,
                    user_info,
                    region,
                    entitlements_token,
                    tokens,
                    cookies,
                    now,
                    old(db).session_counter(),
                ));
                db.lemma_wf_rows_unique();
                if has_puuid(s0, user_info.sub@) {
                    let j = user_index(s0, user_info.sub@);
                    assert(t[j].id == id);
                    lemma_user_id_index_unique(t, j);
                } else {
                    assert(t[s0.len() as int].id == id);
                    lemma_user_id_index_unique(t, s0.len() as int);
                }
            }
            Ok(id)
        },
        Err(e) => {
            proof {
                let s0 = old(db).users_view();
                let t = db.users_view();
                if t != s0 {
                    assert(spec_partial_register_with(
                        s0,
                        t,
                        raw_user_info,
                        user_info,
                        region,
                        entitlements_token,
                        now,
                        if has_puuid(s0, user_info.sub@) {
                            0
                        } else {
                            choose|fresh: i64|
                                t == s0.push(
                                    spec_new_user(
                                        fresh,
                                        spec_account_row(
                                            raw_user_info,
                                            user_info,
                                            region,
                                            entitlements_token,
                                            now as int,
                                        ),
                                    ),
                                )
                        },
                    ));
                }
            }
            Err(AddAccountError::Store(e))
        },
    }
}

/// What one outcome of the classification pass says of the tables
/// around its step: a still-valid session leaves the table untouched; an
/// expired one that silently reauthenticated had exactly one session row
/// written, of the stated shape, at the recorded instant; a refused
/// session write changed nothing.
pub open spec fn spec_classify_step(s: Seq<User>, t: Seq<User>, u: User, o: RefreshOutcome) -> bool {
    match o {
        RefreshOutcome::StillValid { user_id, now } => {
            &&& user_id == u.id
            &&& spec_session_health(u, now as int) is Valid
            &&& t == s
        },
        RefreshOutcome::Refreshed { user_id, now, refreshed_at } => {
            &&& user_id == u.id
            &&& spec_session_health(u, now as int) is Expired
            &&& has_user_id(s, u.id)
            &&& exists|tokens: Tokens, cookies: String, fresh_id: i64|
                t == s.update(
                    user_id_index(s, u.id),
                    #[trigger] spec_with_session(
                        s[user_id_index(s, u.id)],
                        spec_session_row(u.id, tokens, cookies, refreshed_at as int),
                        fresh_id,
                    ),
                )
        },
        RefreshOutcome::RefreshWriteFailed { user_id, now } => {
            &&& user_id == u.id
            &&& spec_session_health(u, now as int) is Expired
            &&& t == s
        },
        _ => false,
    }
}

/// The classification pass over a snapshot of the account table, with
/// its chain of table states: each account in order either yields one
/// outcome — one more table state, related to the previous one by the
/// outcome's step — or is deferred to the interactive pass, touching
/// nothing.
pub open spec fn spec_classify_chain(
    users: Seq<User>,
    tables: Seq<Seq<User>>,
    outcomes: Seq<RefreshOutcome>,
    pending: Seq<User>,
) -> bool
    decreases users.len(),
{
    if users.len() == 0 {
        tables.len() == 1 && outcomes.len() == 0 && pending.len() == 0
    } else {
        ||| (pending.len() > 0 && pending.last() == users.last() && spec_classify_chain(
            users.drop_last(),
            tables,
            outcomes,
            pending.drop_last(),
        ))
        ||| (outcomes.len() > 0 && tables.len() >= 2 && spec_classify_chain(
            users.drop_last(),
            tables.drop_last(),
            outcomes.drop_last(),
            pending,
        ) && spec_classify_step(
            tables[tables.len() - 2],
            tables.last(),
            users.last(),
            outcomes.last(),
        ))
    }
}

/// What one outcome of the interactive pass says: a completed login
/// persisted some resolved identity under the reported row id; a failed
/// one left at most the partial write a store error permits.
pub open spec fn spec_relogin_step(s: Seq<User>, t: Seq<User>, u: User, o: RefreshOutcome) -> bool {
    match o {
        RefreshOutcome::Relogged { expected_id, actual_id } => {
            &&& expected_id == u.id
            &&& spec_registered(s, t, actual_id)
        },
        RefreshOutcome::LoginFailed { user_id } => {
            &&& user_id == u.id
            &&& (t == s || spec_partial_register(s, t))
        },
        _ => false,
    }
}

/// The interactive pass over the deferred accounts, with its chain of
/// table states: one outcome and one more state per account, in order.
pub open spec fn spec_relogin_chain(
    pending: Seq<User>,
    tables: Seq<Seq<User>>,
    outcomes: Seq<RefreshOutcome>,
) -> bool
    decreases pending.len(),
{
    if pending.len() == 0 {
        tables.len() == 1 && outcomes.len() == 0
    } else {
        &&& outcomes.len() == pending.len()
        &&& tables.len() >= 2
        &&& spec_relogin_chain(pending.drop_last(), tables.drop_last(), outcomes.drop_last())
        &&& spec_relogin_step(
            tables[tables.len() - 2],
            tables.last(),
            pending.last(),
            outcomes.last(),
        )
    }
}

/// What one refresh pass did: for some split of the outcome vector, some
/// deferred set and some chains of intermediate table states, the
/// classification outcomes come first, chaining the table from its
/// initial state to an intermediate one, and the interactive outcomes
/// follow, chaining it to the final state.
pub open spec fn spec_refresh_post(
    s0: Seq<User>,
    s1: Seq<User>,
    outcomes: Seq<RefreshOutcome>,
) -> bool {
    exists|
        classify_tables: Seq<Seq<User>>,
        relogin_tables: Seq<Seq<User>>,
        pending: Seq<User>,
        n_classified: int,
    |
        {
            &&& 0 <= n_classified <= outcomes.len()
            &&& classify_tables.len() >= 1
            &&& classify_tables[0] == s0
            &&& #[trigger] spec_classify_chain(
                s0,
                classify_tables,
                outcomes.take(n_classified),
                pending,
            )
            &&& relogin_tables.len() >= 1
            &&& relogin_tables[0] == classify_tables.last()
            &&& relogin_tables.last() == s1
            &&& #[trigger] spec_relogin_chain(
                pending,
                relogin_tables,
                outcomes.skip(n_classified),
            )
        }
}

/// The session refresh pass: every account with a still-valid session is
/// left alone; an expired session is silently reauthenticated from its
/// stored credential and the new session persisted; accounts without a
/// session, and those whose silent reauthentication failed, are collected
/// and then re-logged interactively one by one. One outcome is reported
/// per account, and the outcome vector chains the table states as
/// `spec_refresh_post` states.
pub fn refresh_expired_accounts<A: AuthProvider, L: LoginProvider, I: IdentityProvider, C: Clock>(
    db: &mut Datastore,
    auth: &mut A,
    login: &mut L,
    identity: &mut I,
    clock: &mut C,
) -> (r: Vec<RefreshOutcome>)
    requires
        old(db).wf(),
    ensures
        final(db).wf(),
        final(db).webhooks_view() == old(db).webhooks_view(),
        r@.len() == old(db).users_view().len(),
        spec_refresh_post(old(db).users_view(), final(db).users_view(), r@),
{
    let users = db.get_users();
    let ghost s0 = old(db).users_view();
    let ghost mut classify_tables: Seq<Seq<User>> = Seq::empty().push(s0);
    let mut outcomes: Vec<RefreshOutcome> = Vec::new();
    let mut pending: Vec<User> = Vec::new();
    let mut i: usize = 0;
    while i < users.len()
        invariant
            i <= users@.len(),
            users@ == s0,
            s0 == old(db).users_view(),
            outcomes@.len() + pending@.len() == i,
            db.wf(),
            db.webhooks_view() == old(db).webhooks_view(),
            classify_tables.len() >= 1,
            classify_tables[0] == s0,
            classify_tables.last() == db.users_view(),
            spec_classify_chain(users@.take(i as int), classify_tables, outcomes@, pending@),
        decreases users@.len() - i,
    {
        let ghost prev = db.users_view();
        let ghost prev_tables = classify_tables;
        let ghost prev_outcomes = outcomes@;
        let ghost prev_pending = pending@;
        proof {
            assert(users@.take(i + 1).drop_last() =~= users@.take(i as int));
            assert(users@.take(i + 1).last() == users@[i as int]);
        }
        let user = &users[i];
        let now = clock.now_seconds();
        match classify_session(user, now) {
            SessionHealth::Valid => {
                outcomes.push(RefreshOutcome::StillValid { user_id: user.id, now });
                proof {
                    classify_tables = classify_tables.push(db.users_view());
                    assert(outcomes@.drop_last() =~= prev_outcomes);
                    assert(classify_tables.drop_last() =~= prev_tables);
                    assert(classify_tables[classify_tables.len() - 2] == prev);
                    assert(spec_classify_step(prev, db.users_view(), users@[i as int], outcomes@.last()));
                    assert(spec_classify_chain(
                        users@.take(i + 1),
                        classify_tables,
                        outcomes@,
                        pending@,
                    ));
                }
            },
            SessionHealth::Expired => {
                let cookies = match &user.session {
                    Some(sess) => sess.authorized_cookies.clone(),
                    None => String::new(),
                };
                match auth.silent_login(&cookies) {
                    Some((tokens, new_cookies)) => {
                        let refreshed_at = clock.now_seconds();
                        let ghost fresh_id = db.session_counter();
                        let sess = build_session(user.id, &tokens, &new_cookies, refreshed_at);
                        match db.set_session(&sess) {
                            Ok(()) => {
                                outcomes.push(
                                    RefreshOutcome::Refreshed {
                                        user_id: user.id,
                                        now,
                                        refreshed_at,
                                    },
                                );
                                proof {
                                    classify_tables = classify_tables.push(db.users_view());
                                    assert(outcomes@.drop_last() =~= prev_outcomes);
                                    assert(classify_tables.drop_last() =~= prev_tables);
                                    assert(classify_tables[classify_tables.len() - 2] == prev);
                                    let j = user_id_index(prev, user.id);
                                    assert(db.users_view() == prev.update(
                                        j,
                                        spec_with_session(
                                            prev[j],
                                            spec_session_row(
                                                user.id,
                                                tokens,
                                                new_cookies,
                                                refreshed_at as int,
                                            ),
                                            fresh_id,
                                        ),
                                    ));
                                    assert(spec_classify_step(
                                        prev,
                                        db.users_view(),
                                        users@[i as int],
                                        outcomes@.last(),
                                    ));
                                    assert(spec_classify_chain(
                                        users@.take(i + 1),
                                        classify_tables,
                                        outcomes@,
                                        pending@,
                                    ));
                                }
                            },
                            Err(_) => {
                                outcomes.push(
                                    RefreshOutcome::RefreshWriteFailed { user_id: user.id, now },
                                );
                                proof {
                                    classify_tables = classify_tables.push(db.users_view());
                                    assert(outcomes@.drop_last() =~= prev_outcomes);
                                    assert(classify_tables.drop_last() =~= prev_tables);
                                    assert(classify_tables[classify_tables.len() - 2] == prev);
                                    assert(spec_classify_step(
                                        prev,
                                        db.users_view(),
                                        users@[i as int],
                                        outcomes@.last(),
                                    ));
                                    assert(spec_classify_chain(
                                        users@.take(i + 1),
                                        classify_tables,
                                        outcomes@,
                                        pending@,
                                    ));
                                }
                            },
                        }
                    },
                    None => {
                        pending.push(user.clone());
                        proof {
                            assert(pending@.drop_last() =~= prev_pending);
                            assert(pending@.last() == users@[i as int]);
                            assert(spec_classify_chain(
                                users@.take(i + 1),
                                classify_tables,
                                outcomes@,
                                pending@,
                            ));
                        }
                    },
                }
            },
            SessionHealth::Missing => {
                pending.push(user.clone());
                proof {
                    assert(pending@.drop_last() =~= prev_pending);
                    assert(pending@.last() == users@[i as int]);
                    assert(spec_classify_chain(
                        users@.take(i + 1),
                        classify_tables,
                        outcomes@,
                        pending@,
                    ));
                }
            },
        }
        i = i + 1;
    }
    proof {
        assert(users@.take(users@.len() as int) =~= users@);
    }
    let ghost s_mid = db.users_view();
    let ghost n_resolved = outcomes@.len();
    let ghost phase1_outcomes = outcomes@;
    let ghost mut relogin_tables: Seq<Seq<User>> = Seq::empty().push(s_mid);
    let mut k: usize = 0;
    while k < pending.len()
        invariant
            k <= pending@.len(),
            outcomes@.len() == n_resolved + k,
            n_resolved + pending@.len() == users@.len(),
            users@ == s0,
            s0 == old(db).users_view(),
            phase1_outcomes.len() == n_resolved,
            outcomes@.take(n_resolved as int) == phase1_outcomes,
            classify_tables.len() >= 1,
            classify_tables[0] == s0,
            classify_tables.last() == s_mid,
            spec_classify_chain(users@, classify_tables, phase1_outcomes, pending@),
            relogin_tables.len() >= 1,
            relogin_tables[0] == s_mid,
            relogin_tables.last() == db.users_view(),
            spec_relogin_chain(
                pending@.take(k as int),
                relogin_tables,
                outcomes@.skip(n_resolved as int),
            ),
            db.wf(),
            db.webhooks_view() == old(db).webhooks_view(),
        decreases pending@.len() - k,
    {
        let ghost prev = db.users_view();
        let ghost prev_tables = relogin_tables;
        let ghost prev_outcomes = outcomes@;
        proof {
            assert(pending@.take(k + 1).drop_last() =~= pending@.take(k as int));
            assert(pending@.take(k + 1).last() == pending@[k as int]);
        }
        let expected_id = pending[k].id;
        match add_account(db, login, identity, clock) {
            Ok(actual_id) => {
                outcomes.push(RefreshOutcome::Relogged { expected_id, actual_id });
            },
            Err(_) => {
                outcomes.push(RefreshOutcome::LoginFailed { user_id: expected_id });
            },
        }
        proof {
            relogin_tables = relogin_tables.push(db.users_view());
            assert(outcomes@.take(n_resolved as int) =~= prev_outcomes.take(n_resolved as int));
            assert(outcomes@.skip(n_resolved as int) =~= prev_outcomes.skip(
                n_resolved as int,
            ).push(outcomes@.last()));
            assert(outcomes@.skip(n_resolved as int).drop_last() =~= prev_outcomes.skip(
                n_resolved as int,
            ));
            assert(outcomes@.skip(n_resolved as int).last() == outcomes@.last());
            assert(relogin_tables.drop_last() =~= prev_tables);
            assert(relogin_tables[relogin_tables.len() - 2] == prev);
            assert(spec_relogin_step(prev, db.users_view(), pending@[k as int], outcomes@.last()));
            assert(spec_relogin_chain(
                pending@.take(k + 1),
                relogin_tables,
                outcomes@.skip(n_resolved as int),
            ));
        }
        k = k + 1;
    }
    proof {
        assert(pending@.take(pending@.len() as int) =~= pending@);
        assert(outcomes@.take(n_resolved as int) == phase1_outcomes);
        assert(spec_classify_chain(s0, classify_tables, outcomes@.take(n_resolved as int), pending@));
        assert(spec_relogin_chain(pending@, relogin_tables, outcomes@.skip(n_resolved as int)));
        assert(spec_refresh_post(s0, db.users_view(), outcomes@));
    }
    outcomes
}

/// Registers a webhook target.
pub fn webhook(db: &mut Datastore, uri: &String)
    requires
        old(db).wf(),
    ensures
        final(db).wf(),
        final(db).users_view() == old(db).users_view(),
        final(db).webhooks_view().len() == old(db).webhooks_view().len() + 1,
        final(db).webhooks_view().last()@ == uri@,
        final(db).webhooks_view().drop_last() == old(db).webhooks_view(),
{
    db.add_webhook(uri.as_str());
}

/// Every account of a snapshot checked in order, with its chain of table
/// states: one report and one more state per row, each step the full
/// `check_account` contract for that row.
pub open spec fn spec_accounts_checked(
    users: Seq<User>,
    tables: Seq<Seq<User>>,
    reports: Seq<AccountReport>,
    cat: Map<Seq<char>, SkinDetails>,
    force: bool,
    force_nightmarket: bool,
    n_targets: int,
) -> bool
    decreases users.len(),
{
    if users.len() == 0 {
        tables.len() == 1 && reports.len() == 0
    } else {
        &&& reports.len() == users.len()
        &&& tables.len() >= 2
        &&& spec_accounts_checked(
            users.drop_last(),
            tables.drop_last(),
            reports.drop_last(),
            cat,
            force,
            force_nightmarket,
            n_targets,
        )
        &&& spec_account_checked(
            tables[tables.len() - 2],
            tables.last(),
            users.last(),
            reports.last(),
            cat,
            force,
            force_nightmarket,
            n_targets,
        )
    }
}

/// What one whole `check` run did, beyond its fatal errors: the refresh
/// outcomes chain the table from the initial state to some intermediate
/// one; that state is the account snapshot, and the account reports chain
/// it, under some catalog, to the final state.
pub open spec fn spec_check_post(
    s0: Seq<User>,
    s1: Seq<User>,
    rep: CheckReport,
    force: bool,
    force_nightmarket: bool,
    n_targets: int,
) -> bool {
    exists|mid: Seq<User>, tables: Seq<Seq<User>>, cat: Map<Seq<char>, SkinDetails>|
        {
            &&& spec_refresh_post(s0, mid, rep.refresh@)
            &&& tables.len() >= 1
            &&& tables[0] == mid
            &&& tables.last() == s1
            &&& #[trigger] spec_accounts_checked(
                mid,
                tables,
                rep.accounts@,
                cat,
                force,
                force_nightmarket,
                n_targets,
            )
        }
}

/// One poll cycle over every registered account: refresh or re-acquire
/// sessions, build the catalog cache and client version once, then visit
/// each account in turn. A failure at the catalog or version service
/// aborts the run (nothing could be resolved for anyone); every other
/// failure is contained to its account, offer or target.
pub fn check<
    CP: CatalogProvider,
    A: AuthProvider,
    L: LoginProvider,
    I: IdentityProvider,
    S: StoreProvider,
    N: Notifier,
    C: Clock,
>(
    db: &mut Datastore,
    catalog_provider: &mut CP,
    auth: &mut A,
    login: &mut L,
    identity: &mut I,
    store_provider: &mut S,
    notifier: &mut N,
    clock: &mut C,
    force: &bool,
    force_nightmarket: &bool,
) -> (r: Result<CheckReport, CheckError>)
    requires
        old(db).wf(),
    ensures
        final(db).wf(),
        final(db).webhooks_view() == old(db).webhooks_view(),
        r matches Ok(rep) ==> rep.refresh@.len() == old(db).users_view().len()
            && rep.accounts@.len() == final(db).users_view().len() && spec_check_post(
            old(db).users_view(),
            final(db).users_view(),
            rep,
            *force,
            *force_nightmarket,
            old(db).webhooks_view().len() as int,
        ),
{
    let refresh = refresh_expired_accounts(db, auth, login, identity, clock);
    let ghost mid = db.users_view();
    let raw_catalog = match catalog_provider.get_weapon_skins() {
        Ok(s) => s,
        Err(e) => {
            return Err(CheckError::Catalog(e));
        },
    };
    let catalog = build_skin_catalog(raw_catalog);
    let version = match catalog_provider.get_valorant_version() {
        Ok(v) => v,
        Err(e) => {
            return Err(CheckError::Version(e));
        },
    };
    let client_ver = match get_client_version(&version) {
        Some(c) => c,
        None => {
            return Err(CheckError::BadVersion);
        },
    };
    let users = db.get_users();
    let webhooks = db.get_webhooks();
    let ghost mut tables: Seq<Seq<User>> = Seq::empty().push(mid);
    let mut accounts: Vec<AccountReport> = Vec::new();
    let mut i: usize = 0;
    while i < users.len()
        invariant
            i <= users@.len(),
            accounts@.len() == i,
            db.wf(),
            catalog.wf(),
            db.webhooks_view() == old(db).webhooks_view(),
            webhooks@ == old(db).webhooks_view(),
            db.users_view().len() == users@.len(),
            users@ == mid,
            refresh@.len() == old(db).users_view().len(),
            spec_refresh_post(old(db).users_view(), mid, refresh@),
            tables.len() >= 1,
            tables[0] == mid,
            tables.last() == db.users_view(),
            spec_accounts_checked(
                users@.take(i as int),
                tables,
                accounts@,
                catalog@,
                *force,
                *force_nightmarket,
                webhooks@.len() as int,
            ),
            forall|k: int| 0 <= k < users@.len() ==> has_user_id(
                db.users_view(),
                #[trigger] users@[k].id,
            ),
        decreases users@.len() - i,
    {
        let ghost prev_users = db.users_view();
        let ghost prev_tables = tables;
        let ghost prev_accounts = accounts@;
        proof {
            assert(users@.take(i + 1).drop_last() =~= users@.take(i as int));
            assert(users@.take(i + 1).last() == users@[i as int]);
        }
        let report = check_account(
            db,
            store_provider,
            notifier,
            clock,
            &webhooks,
            &catalog,
            &client_ver,
            &users[i],
            force,
            force_nightmarket,
        );
        proof {
            match &report {
                AccountReport::Polled { gate_now, response, outcome } => {
                    let j = user_id_index(prev_users, users@[i as int].id);
                    lemma_ids_preserved(prev_users, db.users_view(), j, db.users_view()[j]);
                },
                _ => {},
            }
        }
        accounts.push(report);
        proof {
            tables = tables.push(db.users_view());
            assert(accounts@.drop_last() =~= prev_accounts);
            assert(tables.drop_last() =~= prev_tables);
            assert(tables[tables.len() - 2] == prev_users);
            assert(spec_account_checked(
                prev_users,
                db.users_view(),
                users@[i as int],
                accounts@.last(),
                catalog@,
                *force,
                *force_nightmarket,
                webhooks@.len() as int,
            ));
            assert(spec_accounts_checked(
                users@.take(i + 1),
                tables,
                accounts@,
                catalog@,
                *force,
                *force_nightmarket,
                webhooks@.len() as int,
            ));
        }
        i = i + 1;
    }
    proof {
        assert(users@.take(users@.len() as int) =~= users@);
        assert(spec_accounts_checked(
            mid,
            tables,
            accounts@,
            catalog@,
            *force,
            *force_nightmarket,
            old(db).webhooks_view().len() as int,
        ));
    }
    let r = CheckReport { refresh, accounts };
    proof {
        assert(spec_accounts_checked(
            mid,
            tables,
            r.accounts@,
            catalog@,
            *force,
            *force_nightmarket,
            old(db).webhooks_view().len() as int,
        ));
        assert(spec_refresh_post(old(db).users_view(), mid, r.refresh@));
        assert(spec_check_post(
            old(db).users_view(),
            db.users_view(),
            r,
            *force,
            *force_nightmarket,
            old(db).webhooks_view().len() as int,
        ));
    }
    Ok(r)
}

/// An account whose regular section is not yet due is not visited by a
/// run without force flags: no fetch happens and its timestamps stay.
pub proof fn lemma_future_store_account_skipped(next_store: int, now: int)
    requires
        now < next_store,
    ensures
        !spec_account_visited(next_store, now, false, false),
{
}

/// A response without a bonus section never produces a bonus
/// notification and never moves the bonus due-timestamp.
pub proof fn lemma_absent_bonus_preserves_nightmarket(
    old_users: Seq<User>,
    new_users: Seq<User>,
    user: User,
    store: StoreFrontResponse,
    cat: Map<Seq<char>, SkinDetails>,
    force: bool,
    force_nightmarket: bool,
    outcome: PollOutcome,
    n_targets: int,
)
    requires
        spec_poll_post(
            old_users,
            new_users,
            user,
            store,
            cat,
            force,
            force_nightmarket,
            outcome,
            n_targets,
        ),
        has_user_id(old_users, user.id),
        store.bonus_store is None,
    ensures
        outcome.bonus is None,
        new_users[user_id_index(old_users, user.id)].next_nightmarket
            == old_users[user_id_index(old_users, user.id)].next_nightmarket,
{
}

/// After a run processed the regular section at some instant with a
/// positive remaining duration, a second run at the same instant without
/// force flags does not visit the account at all: re-running `check`
/// immediately sends zero additional notifications.
pub proof fn lemma_rerun_sends_nothing(
    old_users: Seq<User>,
    new_users: Seq<User>,
    user: User,
    store: StoreFrontResponse,
    cat: Map<Seq<char>, SkinDetails>,
    force: bool,
    force_nightmarket: bool,
    outcome: PollOutcome,
    n_targets: int,
)
    requires
        spec_poll_post(
            old_users,
            new_users,
            user,
            store,
            cat,
            force,
            force_nightmarket,
            outcome,
            n_targets,
        ),
        has_user_id(old_users, user.id),
        spec_regular_processed(user, force, outcome.now_regular as int),
        store.skins_panel_layout.single_item_offers_remaining_duration_in_seconds > 0,
        outcome.now_regular < i64::MAX,
    ensures
        !spec_account_visited(
            new_users[user_id_index(old_users, user.id)].next_store as int,
            outcome.now_regular as int,
            false,
            false,
        ),
{
    crate::schedule::lemma_recheck_is_idle(
        outcome.now_regular as int,
        store.skins_panel_layout.single_item_offers_remaining_duration_in_seconds as int,
    );
}

} // verus!
