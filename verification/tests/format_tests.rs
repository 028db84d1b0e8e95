use val_store::account::User;
use val_store::auth::{auth_client_request, is_login_redirect, login_request, login_response_uri};
use val_store::message::generate_store_messages;
use val_store::models::{
    LoginResponse, LoginResponseData, LoginResponseParameters, Offer, PriceDetail, SkinData,
    SkinDetails, SkinLevel, ValorantVersionResponse,
};
use val_store::models::BonusStoreOffer;
use val_store::numfmt::{i64_dec, u64_dec};
use val_store::valdata::get_client_version;

fn sample_user() -> User {
    User {
        id: 1,
        puuid: "puuid-1".to_string(),
        game_name: "Game".to_string(),
        tag_line: "Tag".to_string(),
        region: "eu".to_string(),
        user_info: "{}".to_string(),
        entitlements_token: "ent".to_string(),
        next_store: 0,
        next_nightmarket: 0,
        session: None,
    }
}

fn sample_detail(name: &str, icon: Option<&str>, level_icon: Option<&str>) -> SkinDetails {
    SkinDetails {
        uuid: "skin-1".to_string(),
        display_name: Some(name.to_string()),
        display_icon: icon.map(|s| s.to_string()),
        levels: vec![SkinLevel {
            uuid: "level-1".to_string(),
            display_name: Some(name.to_string()),
            display_icon: level_icon.map(|s| s.to_string()),
            streamed_video: None,
        }],
    }
}

fn sample_offer(cost: u64) -> Offer {
    Offer {
        offer_id: "level-1".to_string(),
        is_direct_purchase: true,
        start_date: 0,
        cost: PriceDetail { valorant_points: cost },
    }
}

#[test]
fn renders_unsigned_decimals() {
    assert_eq!(u64_dec(0).as_str(), "0");
    assert_eq!(u64_dec(7).as_str(), "7");
    assert_eq!(u64_dec(3550).as_str(), "3550");
    assert_eq!(u64_dec(u64::MAX).as_str(), "18446744073709551615");
}

#[test]
fn renders_signed_decimals() {
    assert_eq!(i64_dec(0).as_str(), "0");
    assert_eq!(i64_dec(-45).as_str(), "-45");
    assert_eq!(i64_dec(1234).as_str(), "1234");
    assert_eq!(i64_dec(i64::MIN).as_str(), "-9223372036854775808");
}

#[test]
fn client_version_formats_from_record() {
    let record = ValorantVersionResponse {
        manifest_id: "08FD21AD41B7E3D3".to_string(),
        branch: "release-05.05".to_string(),
        version: "05.05.00.759728".to_string(),
        build_version: "7".to_string(),
        engine_version: "4.26.2.0".to_string(),
        riot_client_version: "release-05.05-shipping-7-759728".to_string(),
        build_date: "2022-09-06T00:00:00Z".to_string(),
    };
    let v = get_client_version(&record).expect("four components");
    assert_eq!(v.as_str(), "release-05.05-shipping-7-759728");
}

#[test]
fn client_version_rejects_short_version() {
    let record = ValorantVersionResponse {
        manifest_id: String::new(),
        branch: "release-05.05".to_string(),
        version: "05.05.00".to_string(),
        build_version: "7".to_string(),
        engine_version: String::new(),
        riot_client_version: String::new(),
        build_date: String::new(),
    };
    assert!(get_client_version(&record).is_none());
}

#[test]
fn regular_message_has_plain_cost_and_regular_color() {
    let user = sample_user();
    let skins = vec![SkinData {
        offer: sample_offer(3550),
        detail: sample_detail("Prime Vandal", Some("http://icon/skin"), None),
        bonus_offer: None,
    }];
    let message = generate_store_messages(&user, skins);
    assert_eq!(message.username.as_deref(), Some("Game#Tag"));
    assert!(message.content.is_none());
    let embeds = message.embeds.expect("embeds");
    assert_eq!(embeds.len(), 1);
    let e = &embeds[0];
    assert_eq!(e.title.as_deref(), Some("Prime Vandal"));
    assert_eq!(e.description.as_deref(), Some("<:vp:1274118602001350757> 3550"));
    assert_eq!(e.color, Some(0x6cc551));
    assert_eq!(e.thumbnail.as_ref().map(|t| t.url.as_str()), Some("http://icon/skin"));
    assert!(e.image.is_none());
    assert!(e.footer.is_none());
    assert!(e.timestamp.is_none());
}

#[test]
fn bonus_message_has_discount_line_and_bonus_color() {
    let user = sample_user();
    let offer = sample_offer(3550);
    let bonus = BonusStoreOffer {
        bonus_offer_id: "bonus-1".to_string(),
        offer: sample_offer(3550),
        discount_percent: 44,
        discount_costs: PriceDetail { valorant_points: 1988 },
        is_seen: false,
    };
    let skins = vec![SkinData {
        offer,
        detail: sample_detail("Prime Vandal", None, Some("http://icon/level")),
        bonus_offer: Some(bonus),
    }];
    let message = generate_store_messages(&user, skins);
    let embeds = message.embeds.expect("embeds");
    let e = &embeds[0];
    assert_eq!(
        e.description.as_deref(),
        Some("<:vp:1274118602001350757> ~~3550~~ 1988 (-44%)")
    );
    assert_eq!(e.color, Some(0xff00aa));
    // The skin-level icon is absent, so the first variant's icon is used.
    assert_eq!(e.thumbnail.as_ref().map(|t| t.url.as_str()), Some("http://icon/level"));
}

#[test]
fn title_falls_back_to_variant_name() {
    let user = sample_user();
    let mut detail = sample_detail("Prime Vandal", None, None);
    detail.display_name = None;
    let skins = vec![SkinData { offer: sample_offer(100), detail, bonus_offer: None }];
    let message = generate_store_messages(&user, skins);
    let embeds = message.embeds.expect("embeds");
    // The skin-level name is absent: the first variant's name is used.
    assert_eq!(embeds[0].title.as_deref(), Some("Prime Vandal"));
}

#[test]
fn title_absent_when_no_name_anywhere() {
    let user = sample_user();
    let detail = SkinDetails {
        uuid: "skin-1".to_string(),
        display_name: None,
        display_icon: None,
        levels: vec![SkinLevel {
            uuid: "level-1".to_string(),
            display_name: None,
            display_icon: None,
            streamed_video: None,
        }],
    };
    let skins = vec![SkinData { offer: sample_offer(100), detail, bonus_offer: None }];
    let message = generate_store_messages(&user, skins);
    let embeds = message.embeds.expect("embeds");
    assert!(embeds[0].title.is_none());
}

#[test]
fn auth_request_bodies_are_fixed() {
    let auth = auth_client_request();
    assert_eq!(auth.client_id.as_str(), "play-valorant-web-prod");
    assert_eq!(auth.nonce.as_str(), "1");
    assert_eq!(auth.redirect_uri.as_str(), "https://playvalorant.com/opt_in");
    assert_eq!(auth.response_type.as_str(), "token id_token");
    assert_eq!(auth.scope.as_str(), "account openid");

    let login = login_request("user".to_string(), "pass".to_string());
    assert_eq!(login.action_type.as_str(), "auth");
    assert_eq!(login.username.as_str(), "user");
    assert_eq!(login.password.as_str(), "pass");
    assert!(login.remember);
}

#[test]
fn login_response_uri_requires_completed_kind() {
    let ok = LoginResponse {
        response_type: "response".to_string(),
        response: LoginResponseData {
            parameters: LoginResponseParameters { uri: "https://x/#a=b".to_string() },
        },
    };
    assert_eq!(login_response_uri(&ok).map(|u| u.as_str()), Some("https://x/#a=b"));

    let pending = LoginResponse {
        response_type: "multifactor".to_string(),
        response: LoginResponseData {
            parameters: LoginResponseParameters { uri: String::new() },
        },
    };
    assert!(login_response_uri(&pending).is_none());
}

#[test]
fn login_redirect_detection() {
    assert!(is_login_redirect("/login"));
    assert!(is_login_redirect("/login?step=2"));
    assert!(!is_login_redirect("/opt_in"));
    assert!(!is_login_redirect("/log"));
}
