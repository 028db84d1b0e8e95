//! Data shapes exchanged with the identity, region, entitlement, storefront
//! and catalog collaborators, and the webhook message format. Timestamps are
//! unix seconds; the caller converts wire-format dates at the boundary.

use vstd::prelude::*;

verus! {

/// Tokens captured from a completed login redirect.
#[derive(Debug)]
pub struct Tokens {
    pub access_token: String,
    pub id_token: String,
    pub expires_in: u64,
}

impl Clone for Tokens {
    fn clone(&self) -> (res: Self)
        ensures
            res == *self,
    {
        let res = Tokens {
            access_token: self.access_token.clone(),
            id_token: self.id_token.clone(),
            expires_in: self.expires_in,
        };
        proof {
            assert(res == *self);
        }
        res
    }
}

/// Body of the request that opens an authorization flow.
#[derive(Debug)]
pub struct AuthClientRequest {
    pub client_id: String,
    pub nonce: String,
    pub redirect_uri: String,
    pub response_type: String,
    pub scope: String,
}

/// Body of a credential login request.
#[derive(Debug)]
pub struct LoginRequest {
    pub action_type: String,
    pub username: String,
    pub password: String,
    pub remember: bool,
}

/// Redirect parameters inside a login response.
#[derive(Debug)]
pub struct LoginResponseParameters {
    pub uri: String,
}

/// Payload of a login response.
#[derive(Debug)]
pub struct LoginResponseData {
    pub parameters: LoginResponseParameters,
}

/// A login response: a kind tag and the redirect payload.
#[derive(Debug)]
pub struct LoginResponse {
    pub response_type: String,
    pub response: LoginResponseData,
}

/// A completed credential authentication: tokens, their expiry instant and
/// the serialized cookie jar for later silent reauthentication.
#[derive(Debug)]
pub struct AuthResult {
    pub tokens: Tokens,
    pub expires_at: i64,
    pub cookies: String,
}

/// Response carrying the entitlement token of an account.
#[derive(Debug)]
pub struct EntitlementsTokenResponse {
    pub entitlements_token: String,
}

/// Envelope of the third-party catalog service's responses.
#[derive(Debug)]
pub struct UnofficalApiResponse<T> {
    pub status: u16,
    pub data: T,
}

/// Version record of the third-party version service.
#[derive(Debug)]
pub struct ValorantVersionResponse {
    pub manifest_id: String,
    pub branch: String,
    pub version: String,
    pub build_version: String,
    pub engine_version: String,
    pub riot_client_version: String,
    pub build_date: String,
}

/// Password metadata inside a user-info response.
#[derive(Debug)]
pub struct PasswordDataResponse {
    pub cng_at: u64,
    pub reset: bool,
    pub must_reset: bool,
}

/// Account block inside a user-info response: the display identity.
#[derive(Debug)]
pub struct AcctDataResponse {
    pub acct_type: u64,
    pub state: Option<String>,
    pub adm: bool,
    pub game_name: String,
    pub tag_line: String,
    pub created_at: u64,
}

/// Profile of the logged-in identity; `sub` is the stable identifier.
#[derive(Debug)]
pub struct UserInfoResponse {
    pub country: String,
    pub sub: String,
    pub email_verified: bool,
    pub player_plocale: Option<String>,
    pub pw: PasswordDataResponse,
    pub country_at: Option<u64>,
    pub phone_number_verified: bool,
    pub account_verified: bool,
    pub player_locale: String,
    pub acct: AcctDataResponse,
    pub age: Option<u64>,
    pub jti: Option<String>,
}

/// Body of a region resolution request.
#[derive(Debug)]
pub struct RegionRequest {
    pub id_token: String,
}

/// Region affinities of an account.
#[derive(Debug)]
pub struct Affinities {
    pub pbe: String,
    pub live: String,
}

/// Response of the region service; `affinities.live` is the shard to poll.
#[derive(Debug)]
pub struct RegionResponse {
    pub token: String,
    pub affinities: Affinities,
}

/// One catalog entry: a skin with its display metadata and variants.
#[derive(Debug)]
#[verifier::ext_equal]
pub struct SkinDetails {
    pub uuid: String,
    pub display_name: Option<String>,
    pub display_icon: Option<String>,
    pub levels: Vec<SkinLevel>,
}

/// One variant of a catalog skin; offers refer to variant identifiers.
#[derive(Debug)]
#[verifier::ext_equal]
pub struct SkinLevel {
    pub uuid: String,
    pub display_name: Option<String>,
    pub display_icon: Option<String>,
    pub streamed_video: Option<String>,
}

/// The always-present regular section of a storefront response: the
/// rotating offers both as bare identifiers and as full offer records, and
/// how long the rotation remains.
#[derive(Debug)]
pub struct SkinPanelLayout {
    pub single_item_offers: Vec<String>,
    pub single_item_store_offers: Vec<Offer>,
    pub single_item_offers_remaining_duration_in_seconds: i64,
}

/// A storefront fetch response: the regular section and, when a night
/// market is active, the bonus section.
#[derive(Debug)]
pub struct StoreFrontResponse {
    pub skins_panel_layout: SkinPanelLayout,
    pub bonus_store: Option<BonusStore>,
}

/// The optional bonus ("night market") section.
#[derive(Debug)]
pub struct BonusStore {
    pub bonus_store_offers: Vec<BonusStoreOffer>,
    pub bonus_store_remaining_duration_in_seconds: i64,
    pub bonus_store_seconds_since_it_started: i64,
}

/// A discounted offer of the bonus section.
#[derive(Debug)]
#[verifier::ext_equal]
pub struct BonusStoreOffer {
    pub bonus_offer_id: String,
    pub offer: Offer,
    pub discount_percent: i64,
    pub discount_costs: PriceDetail,
    pub is_seen: bool,
}

/// A storefront offer; `offer_id` matches a catalog variant identifier.
#[derive(Debug)]
#[verifier::ext_equal]
pub struct Offer {
    pub offer_id: String,
    pub is_direct_purchase: bool,
    pub start_date: i64,
    pub cost: PriceDetail,
}

/// A price in the store currency.
#[derive(Debug)]
pub struct PriceDetail {
    pub valorant_points: u64,
}

/// An offer joined with its catalog entry; present for the bonus section,
/// `bonus_offer` carries the discount.
#[derive(Debug)]
#[verifier::ext_equal]
pub struct SkinData {
    pub offer: Offer,
    pub detail: SkinDetails,
    pub bonus_offer: Option<BonusStoreOffer>,
}

/// Footer of a webhook embed.
#[derive(Debug)]
pub struct EmbedFooter {
    pub text: Option<String>,
    pub icon_url: Option<String>,
    pub proxy_icon_url: Option<String>,
}

/// An image reference inside a webhook embed.
#[derive(Debug)]
#[verifier::ext_equal]
pub struct EmbedImage {
    pub url: String,
}

/// One embed of a webhook message: one offer.
#[derive(Debug)]
#[verifier::ext_equal]
pub struct MessageEmbed {
    pub title: Option<String>,
    pub description: Option<String>,
    pub color: Option<u64>,
    pub timestamp: Option<i64>,
    pub image: Option<EmbedImage>,
    pub thumbnail: Option<EmbedImage>,
    pub footer: Option<EmbedFooter>,
}

/// A webhook message: sender name and one embed per offer.
#[derive(Debug)]
#[verifier::ext_equal]
pub struct WebhookMessage {
    pub content: Option<String>,
    pub username: Option<String>,
    pub embeds: Option<Vec<MessageEmbed>>,
}

impl Clone for PriceDetail {
    fn clone(&self) -> (res: Self)
        ensures
            res == *self,
    {
        PriceDetail { valorant_points: self.valorant_points }
    }
}

impl Clone for Offer {
    fn clone(&self) -> (res: Self)
        ensures
            res == *self,
    {
        let res = Offer {
            offer_id: self.offer_id.clone(),
            is_direct_purchase: self.is_direct_purchase,
            start_date: self.start_date,
            cost: self.cost.clone(),
        };
        proof {
            assert(res == *self);
        }
        res
    }
}

impl Clone for BonusStoreOffer {
    fn clone(&self) -> (res: Self)
        ensures
            res == *self,
    {
        let res = BonusStoreOffer {
            bonus_offer_id: self.bonus_offer_id.clone(),
            offer: self.offer.clone(),
            discount_percent: self.discount_percent,
            discount_costs: self.discount_costs.clone(),
            is_seen: self.is_seen,
        };
        proof {
            assert(res == *self);
        }
        res
    }
}

fn clone_opt_string(s: &Option<String>) -> (res: Option<String>)
    ensures
        res == *s,
{
    match s {
        Some(v) => Some(v.clone()),
        None => None,
    }
}

impl Clone for SkinLevel {
    fn clone(&self) -> (res: Self)
        ensures
            res == *self,
    {
        let res = SkinLevel {
            uuid: self.uuid.clone(),
            display_name: clone_opt_string(&self.display_name),
            display_icon: clone_opt_string(&self.display_icon),
            streamed_video: clone_opt_string(&self.streamed_video),
        };
        proof {
            assert(res == *self);
        }
        res
    }
}

/// Content equivalence of two catalog entries: every field agrees; the
/// variant vectors hold the same variants in the same order.
pub open spec fn skin_details_eqv(a: SkinDetails, b: SkinDetails) -> bool {
    &&& a.uuid == b.uuid
    &&& a.display_name == b.display_name
    &&& a.display_icon == b.display_icon
    &&& a.levels@ == b.levels@
}

impl Clone for SkinDetails {
    fn clone(&self) -> (res: Self)
        ensures
            skin_details_eqv(res, *self),
    {
        let levels = self.levels.clone();
        proof {
            assert forall|i: int| 0 <= i < levels@.len() implies levels@[i]
                == self.levels@[i] by {
                assert(cloned::<SkinLevel>(self.levels@[i], levels@[i]));
            }
            assert(levels@ =~= self.levels@);
        }
        SkinDetails {
            uuid: self.uuid.clone(),
            display_name: clone_opt_string(&self.display_name),
            display_icon: clone_opt_string(&self.display_icon),
            levels,
        }
    }
}

} // verus!
