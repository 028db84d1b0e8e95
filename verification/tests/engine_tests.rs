use val_store::account::{AddUser, AddUserSession};
use val_store::catalog::{build_skin_catalog, SkinCatalog};
use val_store::clock::{Clock, SystemClock};
use val_store::datastore::Datastore;
use val_store::models::{
    AcctDataResponse, Affinities, BonusStore, BonusStoreOffer, Offer, PasswordDataResponse,
    PriceDetail, RegionResponse, SkinDetails, SkinLevel, SkinPanelLayout, StoreFrontResponse,
    Tokens, UserInfoResponse, ValorantVersionResponse, WebhookMessage,
};
use val_store::providers::{
    AuthProvider, CatalogProvider, FetchError, IdentityProvider, LoginProvider, Notifier,
    StoreProvider,
};
use val_store::val_store::{
    check, check_account, refresh_expired_accounts, send_webhooks, webhook, AccountReport,
    CheckError, RefreshOutcome,
};

struct FixedClock {
    now: i64,
}

impl Clock for FixedClock {
    fn now_seconds(&mut self) -> i64 {
        self.now
    }
}

struct FakeStore {
    fail_for: Vec<String>,
    regular_remaining: i64,
    offers: Vec<(String, u64)>,
    bonus: Option<(Vec<(String, u64, u64, i64)>, i64)>,
    calls: usize,
}

impl FakeStore {
    fn regular_only(offers: Vec<(String, u64)>, remaining: i64) -> FakeStore {
        FakeStore { fail_for: vec![], regular_remaining: remaining, offers, bonus: None, calls: 0 }
    }
}

impl StoreProvider for FakeStore {
    fn store_fetch_storefront(
        &mut self,
        _client_ver: &String,
        _ent: &String,
        _access_token: &String,
        _shard: &String,
        puuid: &String,
    ) -> Result<StoreFrontResponse, FetchError> {
        self.calls += 1;
        if self.fail_for.iter().any(|p| p == puuid) {
            return Err(FetchError::Network);
        }
        let bonus_store = self.bonus.as_ref().map(|(offers, remaining)| BonusStore {
            bonus_store_offers: offers
                .iter()
                .map(|(id, cost, discounted, pct)| BonusStoreOffer {
                    bonus_offer_id: format!("bonus-{id}"),
                    offer: Offer {
                        offer_id: id.clone(),
                        is_direct_purchase: true,
                        start_date: 0,
                        cost: PriceDetail { valorant_points: *cost },
                    },
                    discount_percent: *pct,
                    discount_costs: PriceDetail { valorant_points: *discounted },
                    is_seen: false,
                })
                .collect(),
            bonus_store_remaining_duration_in_seconds: *remaining,
            bonus_store_seconds_since_it_started: 0,
        });
        Ok(StoreFrontResponse {
            skins_panel_layout: SkinPanelLayout {
                single_item_offers: self.offers.iter().map(|(id, _)| id.clone()).collect(),
                single_item_store_offers: self
                    .offers
                    .iter()
                    .map(|(id, cost)| Offer {
                        offer_id: id.clone(),
                        is_direct_purchase: true,
                        start_date: 0,
                        cost: PriceDetail { valorant_points: *cost },
                    })
                    .collect(),
                single_item_offers_remaining_duration_in_seconds: self.regular_remaining,
            },
            bonus_store,
        })
    }
}

struct FakeNotifier {
    fail_urls: Vec<String>,
    sent: Vec<(String, String, Vec<String>)>,
}

impl FakeNotifier {
    fn new() -> FakeNotifier {
        FakeNotifier { fail_urls: vec![], sent: vec![] }
    }
}

impl Notifier for FakeNotifier {
    fn send_webhook(&mut self, url: &str, message: &WebhookMessage) -> bool {
        let titles = message
            .embeds
            .as_ref()
            .map(|es| es.iter().map(|e| e.title.clone().unwrap_or_default()).collect())
            .unwrap_or_default();
        self.sent.push((
            url.to_string(),
            message.username.clone().unwrap_or_default(),
            titles,
        ));
        !self.fail_urls.iter().any(|u| u == url)
    }
}

struct FakeCatalogService {
    entries: Vec<(String, String, String)>,
    fail: bool,
}

impl CatalogProvider for FakeCatalogService {
    fn get_weapon_skins(&mut self) -> Result<Vec<SkinDetails>, FetchError> {
        if self.fail {
            return Err(FetchError::Status(500));
        }
        Ok(self
            .entries
            .iter()
            .map(|(skin, level, name)| SkinDetails {
                uuid: skin.clone(),
                display_name: Some(name.clone()),
                display_icon: Some(format!("http://icon/{skin}")),
                levels: vec![SkinLevel {
                    uuid: level.clone(),
                    display_name: Some(name.clone()),
                    display_icon: None,
                    streamed_video: None,
                }],
            })
            .collect())
    }

    fn get_valorant_version(&mut self) -> Result<ValorantVersionResponse, FetchError> {
        Ok(ValorantVersionResponse {
            manifest_id: "m".to_string(),
            branch: "release-05.05".to_string(),
            version: "05.05.00.759728".to_string(),
            build_version: "7".to_string(),
            engine_version: "4.26.2.0".to_string(),
            riot_client_version: "r".to_string(),
            build_date: "d".to_string(),
        })
    }
}

struct FakeAuth {
    grant: bool,
}

impl AuthProvider for FakeAuth {
    fn silent_login(&mut self, _cookies: &String) -> Option<(Tokens, String)> {
        if self.grant {
            Some((
                Tokens {
                    access_token: "silent-access".to_string(),
                    id_token: "silent-id".to_string(),
                    expires_in: 3600,
                },
                "refreshed-cookies".to_string(),
            ))
        } else {
            None
        }
    }
}

struct FakeLogin {
    grant: bool,
}

impl LoginProvider for FakeLogin {
    fn login_popup(&mut self, _login_page: &str) -> Option<(Tokens, String)> {
        if self.grant {
            Some((
                Tokens {
                    access_token: "popup-access".to_string(),
                    id_token: "popup-id".to_string(),
                    expires_in: 3600,
                },
                "popup-cookies".to_string(),
            ))
        } else {
            None
        }
    }
}

struct FakeIdentity {
    sub: String,
    game_name: String,
    tag_line: String,
}

impl IdentityProvider for FakeIdentity {
    fn get_user_info(
        &mut self,
        _access_token: &String,
    ) -> Result<(String, UserInfoResponse), FetchError> {
        let info = UserInfoResponse {
            country: "de".to_string(),
            sub: self.sub.clone(),
            email_verified: true,
            player_plocale: None,
            pw: PasswordDataResponse { cng_at: 0, reset: false, must_reset: false },
            country_at: None,
            phone_number_verified: false,
            account_verified: true,
            player_locale: "en".to_string(),
            acct: AcctDataResponse {
                acct_type: 0,
                state: None,
                adm: false,
                game_name: self.game_name.clone(),
                tag_line: self.tag_line.clone(),
                created_at: 0,
            },
            age: None,
            jti: None,
        };
        Ok(("{\"raw\":true}".to_string(), info))
    }

    fn get_region(
        &mut self,
        _access_token: &String,
        _id_token: &String,
    ) -> Result<RegionResponse, FetchError> {
        Ok(RegionResponse {
            token: "region-token".to_string(),
            affinities: Affinities { pbe: "na".to_string(), live: "eu".to_string() },
        })
    }

    fn get_entitlements_token(&mut self, _access_token: &String) -> Result<String, FetchError> {
        Ok("fresh-ent".to_string())
    }
}

const NOW: i64 = 1_700_000_000;

fn seeded_db(puuid: &str, next_store: i64, next_nightmarket: i64, session_expires: Option<i64>) -> Datastore {
    let mut db = Datastore::new();
    let id = db
        .add_user(&AddUser {
            puuid: puuid.to_string(),
            game_name: "Game".to_string(),
            tag_line: "Tag".to_string(),
            region: "eu".to_string(),
            user_info: "{}".to_string(),
            entitlements_token: "ent".to_string(),
            next_store,
            next_nightmarket,
        })
        .unwrap();
    if let Some(expires_at) = session_expires {
        db.set_session(&AddUserSession {
            user_id: id,
            access_token: "access".to_string(),
            id_token: "id".to_string(),
            expires_at,
            authorized_cookies: "cookies".to_string(),
        })
        .unwrap();
    }
    db
}

fn prime_catalog() -> SkinCatalog {
    build_skin_catalog(vec![SkinDetails {
        uuid: "skin-prime".to_string(),
        display_name: Some("Prime Vandal".to_string()),
        display_icon: Some("http://icon/prime".to_string()),
        levels: vec![SkinLevel {
            uuid: "offer-prime".to_string(),
            display_name: Some("Prime Vandal".to_string()),
            display_icon: None,
            streamed_video: None,
        }],
    }])
}

#[test]
fn future_store_account_is_not_fetched() {
    let mut db = seeded_db("puuid-p", NOW + 1000, NOW + 1000, Some(NOW + 9000));
    let mut store = FakeStore::regular_only(vec![], 7200);
    let mut notifier = FakeNotifier::new();
    let mut clock = FixedClock { now: NOW };
    let catalog = prime_catalog();
    let user = db.get_users().remove(0);
    let report = check_account(
        &mut db,
        &mut store,
        &mut notifier,
        &mut clock,
        &vec!["https://hooks/a".to_string()],
        &catalog,
        &"v".to_string(),
        &user,
        &false,
        &false,
    );
    assert!(matches!(report, AccountReport::Skipped { .. }));
    assert_eq!(store.calls, 0);
    assert!(notifier.sent.is_empty());
    let after = db.get_users().remove(0);
    assert_eq!(after.next_store, NOW + 1000);
    assert_eq!(after.next_nightmarket, NOW + 1000);
}

#[test]
fn due_account_sends_one_message_and_advances_due_time() {
    // An account an hour past due; the provider reports two more hours.
    let mut db = seeded_db("puuid-p", NOW - 3600, NOW + 90_000, Some(NOW + 9000));
    let mut store = FakeStore::regular_only(vec![("offer-prime".to_string(), 3550)], 7200);
    let mut notifier = FakeNotifier::new();
    let mut clock = FixedClock { now: NOW };
    let catalog = prime_catalog();
    let user = db.get_users().remove(0);
    let report = check_account(
        &mut db,
        &mut store,
        &mut notifier,
        &mut clock,
        &vec!["https://hooks/a".to_string()],
        &catalog,
        &"v".to_string(),
        &user,
        &false,
        &false,
    );
    assert!(matches!(report, AccountReport::Polled { .. }));
    assert_eq!(store.calls, 1);
    assert_eq!(notifier.sent.len(), 1);
    let (url, username, titles) = &notifier.sent[0];
    assert_eq!(url.as_str(), "https://hooks/a");
    assert_eq!(username.as_str(), "Game#Tag");
    assert_eq!(titles.as_slice(), ["Prime Vandal".to_string()]);
    let after = db.get_users().remove(0);
    assert_eq!(after.next_store, NOW + 7200);
    assert_eq!(after.next_nightmarket, NOW + 90_000);
}

#[test]
fn absent_bonus_section_never_touches_nightmarket() {
    let mut db = seeded_db("puuid-p", NOW - 10, NOW - 99_999, Some(NOW + 9000));
    // The bonus timestamp is long past due, but the response has no bonus
    // section: only the regular message goes out.
    let mut store = FakeStore::regular_only(vec![("offer-prime".to_string(), 3550)], 7200);
    let mut notifier = FakeNotifier::new();
    let mut clock = FixedClock { now: NOW };
    let catalog = prime_catalog();
    let user = db.get_users().remove(0);
    let _ = check_account(
        &mut db,
        &mut store,
        &mut notifier,
        &mut clock,
        &vec!["https://hooks/a".to_string()],
        &catalog,
        &"v".to_string(),
        &user,
        &false,
        &false,
    );
    assert_eq!(notifier.sent.len(), 1);
    let after = db.get_users().remove(0);
    assert_eq!(after.next_nightmarket, NOW - 99_999);
}

#[test]
fn present_bonus_section_is_notified_and_scheduled() {
    let mut db = seeded_db("puuid-p", NOW - 10, NOW - 10, Some(NOW + 9000));
    let mut store = FakeStore {
        fail_for: vec![],
        regular_remaining: 7200,
        offers: vec![("offer-prime".to_string(), 3550)],
        bonus: Some((vec![("offer-prime".to_string(), 3550, 1988, 44)], 600)),
        calls: 0,
    };
    let mut notifier = FakeNotifier::new();
    let mut clock = FixedClock { now: NOW };
    let catalog = prime_catalog();
    let user = db.get_users().remove(0);
    let _ = check_account(
        &mut db,
        &mut store,
        &mut notifier,
        &mut clock,
        &vec!["https://hooks/a".to_string()],
        &catalog,
        &"v".to_string(),
        &user,
        &false,
        &false,
    );
    // One fetch, two messages: bonus first, then regular.
    assert_eq!(store.calls, 1);
    assert_eq!(notifier.sent.len(), 2);
    let after = db.get_users().remove(0);
    assert_eq!(after.next_nightmarket, NOW + 600);
    assert_eq!(after.next_store, NOW + 7200);
}

#[test]
fn rerunning_check_sends_nothing_more() {
    let mut db = seeded_db("puuid-p", NOW - 3600, NOW + 90_000, Some(NOW + 9000));
    webhook(&mut db, &"https://hooks/a".to_string());
    let mut catalog_service = FakeCatalogService {
        entries: vec![(
            "skin-prime".to_string(),
            "offer-prime".to_string(),
            "Prime Vandal".to_string(),
        )],
        fail: false,
    };
    let mut auth = FakeAuth { grant: false };
    let mut login = FakeLogin { grant: false };
    let mut identity = FakeIdentity {
        sub: "unused".to_string(),
        game_name: "U".to_string(),
        tag_line: "U".to_string(),
    };
    let mut store = FakeStore::regular_only(vec![("offer-prime".to_string(), 3550)], 7200);
    let mut notifier = FakeNotifier::new();
    let mut clock = FixedClock { now: NOW };

    let first = check(
        &mut db,
        &mut catalog_service,
        &mut auth,
        &mut login,
        &mut identity,
        &mut store,
        &mut notifier,
        &mut clock,
        &false,
        &false,
    )
    .expect("first run");
    assert_eq!(first.accounts.len(), 1);
    assert_eq!(notifier.sent.len(), 1);
    assert_eq!(store.calls, 1);

    // No time has passed and nothing is forced: the second run fetches
    // nothing and sends nothing.
    let second = check(
        &mut db,
        &mut catalog_service,
        &mut auth,
        &mut login,
        &mut identity,
        &mut store,
        &mut notifier,
        &mut clock,
        &false,
        &false,
    )
    .expect("second run");
    assert_eq!(second.accounts.len(), 1);
    assert!(matches!(second.accounts[0], AccountReport::Skipped { .. }));
    assert_eq!(notifier.sent.len(), 1);
    assert_eq!(store.calls, 1);
}

#[test]
fn failed_delivery_does_not_block_other_targets() {
    let mut notifier = FakeNotifier {
        fail_urls: vec!["https://hooks/a".to_string()],
        sent: vec![],
    };
    let targets = vec!["https://hooks/a".to_string(), "https://hooks/b".to_string()];
    let message = WebhookMessage {
        content: None,
        username: Some("Game#Tag".to_string()),
        embeds: Some(vec![]),
    };
    let outcomes = send_webhooks(&mut notifier, &targets, &message);
    assert_eq!(outcomes, vec![false, true]);
    assert_eq!(notifier.sent.len(), 2);
    assert_eq!(notifier.sent[0].0.as_str(), "https://hooks/a");
    assert_eq!(notifier.sent[1].0.as_str(), "https://hooks/b");
}

#[test]
fn fetch_failure_skips_only_that_account() {
    let mut db = Datastore::new();
    for puuid in ["puuid-a", "puuid-b"] {
        let id = db
            .add_user(&AddUser {
                puuid: puuid.to_string(),
                game_name: puuid.to_string(),
                tag_line: "T".to_string(),
                region: "eu".to_string(),
                user_info: "{}".to_string(),
                entitlements_token: "ent".to_string(),
                next_store: NOW - 100,
                next_nightmarket: NOW + 90_000,
            })
            .unwrap();
        db.set_session(&AddUserSession {
            user_id: id,
            access_token: "access".to_string(),
            id_token: "id".to_string(),
            expires_at: NOW + 9000,
            authorized_cookies: "cookies".to_string(),
        })
        .unwrap();
    }
    let mut store = FakeStore {
        fail_for: vec!["puuid-a".to_string()],
        regular_remaining: 7200,
        offers: vec![("offer-prime".to_string(), 3550)],
        bonus: None,
        calls: 0,
    };
    let mut notifier = FakeNotifier::new();
    let mut clock = FixedClock { now: NOW };
    let catalog = prime_catalog();
    let webhooks = vec!["https://hooks/a".to_string()];
    let users = db.get_users();
    let report_a = check_account(
        &mut db,
        &mut store,
        &mut notifier,
        &mut clock,
        &webhooks,
        &catalog,
        &"v".to_string(),
        &users[0],
        &false,
        &false,
    );
    let report_b = check_account(
        &mut db,
        &mut store,
        &mut notifier,
        &mut clock,
        &webhooks,
        &catalog,
        &"v".to_string(),
        &users[1],
        &false,
        &false,
    );
    assert!(matches!(report_a, AccountReport::FetchFailed { .. }));
    assert!(matches!(report_b, AccountReport::Polled { .. }));
    assert_eq!(notifier.sent.len(), 1);
    assert_eq!(notifier.sent[0].1.as_str(), "puuid-b#T");
    let after = db.get_users();
    assert_eq!(after[0].next_store, NOW - 100);
    assert_eq!(after[1].next_store, NOW + 7200);
}

#[test]
fn account_without_session_is_reported_not_logged() {
    let mut db = seeded_db("puuid-p", NOW - 100, NOW - 100, None);
    let mut store = FakeStore::regular_only(vec![], 7200);
    let mut notifier = FakeNotifier::new();
    let mut clock = FixedClock { now: NOW };
    let catalog = prime_catalog();
    let user = db.get_users().remove(0);
    let report = check_account(
        &mut db,
        &mut store,
        &mut notifier,
        &mut clock,
        &vec![],
        &catalog,
        &"v".to_string(),
        &user,
        &false,
        &false,
    );
    assert!(matches!(report, AccountReport::NotLoggedIn));
    assert_eq!(store.calls, 0);
}

#[test]
fn catalog_failure_aborts_the_run() {
    let mut db = seeded_db("puuid-p", NOW - 100, NOW - 100, Some(NOW + 9000));
    let mut catalog_service = FakeCatalogService { entries: vec![], fail: true };
    let mut auth = FakeAuth { grant: false };
    let mut login = FakeLogin { grant: false };
    let mut identity = FakeIdentity {
        sub: "unused".to_string(),
        game_name: "U".to_string(),
        tag_line: "U".to_string(),
    };
    let mut store = FakeStore::regular_only(vec![], 7200);
    let mut notifier = FakeNotifier::new();
    let mut clock = FixedClock { now: NOW };
    let result = check(
        &mut db,
        &mut catalog_service,
        &mut auth,
        &mut login,
        &mut identity,
        &mut store,
        &mut notifier,
        &mut clock,
        &false,
        &false,
    );
    assert!(matches!(result, Err(CheckError::Catalog(FetchError::Status(500)))));
    assert_eq!(store.calls, 0);
    assert!(notifier.sent.is_empty());
}

#[test]
fn expired_session_is_silently_refreshed() {
    let mut db = seeded_db("puuid-p", NOW, NOW, Some(NOW - 5));
    let mut auth = FakeAuth { grant: true };
    let mut login = FakeLogin { grant: false };
    let mut identity = FakeIdentity {
        sub: "unused".to_string(),
        game_name: "U".to_string(),
        tag_line: "U".to_string(),
    };
    let mut clock = FixedClock { now: NOW };
    let outcomes = refresh_expired_accounts(&mut db, &mut auth, &mut login, &mut identity, &mut clock);
    assert_eq!(outcomes.len(), 1);
    assert!(matches!(outcomes[0], RefreshOutcome::Refreshed { .. }));
    let after = db.get_users().remove(0);
    let session = after.session.expect("session kept");
    assert_eq!(session.access_token.as_str(), "silent-access");
    assert_eq!(session.expires_at, NOW + 3600);
    assert_eq!(session.authorized_cookies.as_str(), "refreshed-cookies");
}

#[test]
fn failed_silent_login_escalates_and_may_fail() {
    let mut db = seeded_db("puuid-p", NOW, NOW, Some(NOW - 5));
    let mut auth = FakeAuth { grant: false };
    let mut login = FakeLogin { grant: false };
    let mut identity = FakeIdentity {
        sub: "unused".to_string(),
        game_name: "U".to_string(),
        tag_line: "U".to_string(),
    };
    let mut clock = FixedClock { now: NOW };
    let outcomes = refresh_expired_accounts(&mut db, &mut auth, &mut login, &mut identity, &mut clock);
    assert_eq!(outcomes.len(), 1);
    assert!(matches!(outcomes[0], RefreshOutcome::LoginFailed { .. }));
    // The stale session is untouched; the run went on.
    let after = db.get_users().remove(0);
    assert_eq!(after.session.expect("kept").expires_at, NOW - 5);
}

#[test]
fn wrong_account_login_warns_but_persists() {
    let mut db = seeded_db("puuid-expected", NOW, NOW, None);
    let expected_id = db.get_users().remove(0).id;
    let mut auth = FakeAuth { grant: false };
    let mut login = FakeLogin { grant: true };
    let mut identity = FakeIdentity {
        sub: "puuid-actual".to_string(),
        game_name: "Other".to_string(),
        tag_line: "Acct".to_string(),
    };
    let mut clock = FixedClock { now: NOW };
    let outcomes = refresh_expired_accounts(&mut db, &mut auth, &mut login, &mut identity, &mut clock);
    assert_eq!(outcomes.len(), 1);
    match &outcomes[0] {
        RefreshOutcome::Relogged { expected_id: e, actual_id } => {
            assert_eq!(*e, expected_id);
            assert_ne!(*actual_id, expected_id);
        }
        _ => panic!("expected a relogin outcome"),
    }
    assert!(outcomes[0].is_mismatch());
    // The identity that actually logged in was stored as its own row.
    let users = db.get_users();
    assert_eq!(users.len(), 2);
    let actual = users.iter().find(|u| u.puuid == "puuid-actual").expect("persisted");
    assert_eq!(actual.game_name.as_str(), "Other");
    assert!(actual.session.is_some());
    assert_eq!(actual.next_store, NOW);
}

#[test]
fn same_account_relogin_updates_in_place() {
    let mut db = seeded_db("puuid-expected", NOW, NOW, None);
    let expected_id = db.get_users().remove(0).id;
    let mut auth = FakeAuth { grant: false };
    let mut login = FakeLogin { grant: true };
    let mut identity = FakeIdentity {
        sub: "puuid-expected".to_string(),
        game_name: "Same".to_string(),
        tag_line: "Acct".to_string(),
    };
    let mut clock = FixedClock { now: NOW };
    let outcomes = refresh_expired_accounts(&mut db, &mut auth, &mut login, &mut identity, &mut clock);
    assert_eq!(outcomes.len(), 1);
    assert!(!outcomes[0].is_mismatch());
    match &outcomes[0] {
        RefreshOutcome::Relogged { expected_id: e, actual_id } => {
            assert_eq!(*e, expected_id);
            assert_eq!(*actual_id, expected_id);
        }
        _ => panic!("expected a relogin outcome"),
    }
    let users = db.get_users();
    assert_eq!(users.len(), 1);
    assert_eq!(users[0].game_name.as_str(), "Same");
    assert!(users[0].session.is_some());
}

#[test]
fn webhook_command_registers_a_target() {
    let mut db = Datastore::new();
    webhook(&mut db, &"https://hooks/new".to_string());
    let hooks = db.get_webhooks();
    assert_eq!(hooks.len(), 1);
    assert_eq!(hooks[0].as_str(), "https://hooks/new");
}

#[test]
fn system_clock_reads_a_plausible_time() {
    let mut clock = SystemClock;
    assert!(clock.now_seconds() > 1_000_000_000);
}
