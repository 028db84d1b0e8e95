//! The external collaborators the engine drives: interactive login, silent
//! reauthentication, identity resolution, catalog and storefront fetches,
//! and webhook delivery. Each is a trait the caller implements over its
//! transport of choice; the engine is verified for every behavior of an
//! implementation.

use vstd::prelude::*;

use crate::models::{
    RegionResponse, SkinDetails, StoreFrontResponse, Tokens, UserInfoResponse, ValorantVersionResponse,
    WebhookMessage,
};

verus! {

/// The login page an interactive login opens.
pub const RIOT_AUTH_PAGE: &'static str = "https://auth.riotgames.com/authorize?redirect_uri=https%3A%2F%2Fplayvalorant.com%2Fopt_in&client_id=play-valorant-web-prod&response_type=token%20id_token&scope=account%20openid&nonce=1";

/// Why a fetch against a collaborator failed. Every such failure is
/// recoverable at the granularity its caller defines: the run continues.
#[derive(Debug, Clone, Copy, PartialEq, Eq, Structural)]
pub enum FetchError {
    /// The transport failed or timed out.
    Network,
    /// The endpoint answered with an unexpected status.
    Status(u16),
    /// The response body could not be decoded.
    Decode,
}

/// Interactive login: opens a login surface and captures tokens and the
/// session cookies from the completed redirect. `None` when the operator
/// cancels.
pub trait LoginProvider {
    fn login_popup(&mut self, login_page: &str) -> Option<(Tokens, String)>;
}

/// Silent reauthentication from a stored cookie credential. `None` when
/// the credential is expired or revoked.
pub trait AuthProvider {
    fn silent_login(&mut self, cookies: &String) -> Option<(Tokens, String)>;
}

/// Identity resolution from a fresh access token.
pub trait IdentityProvider {
    /// The raw profile body together with its decoded form.
    fn get_user_info(&mut self, access_token: &String) -> Result<
        (String, UserInfoResponse),
        FetchError,
    >;

    /// The region affinities of the logged-in identity.
    fn get_region(&mut self, access_token: &String, id_token: &String) -> Result<
        RegionResponse,
        FetchError,
    >;

    /// The entitlement token of the logged-in identity.
    fn get_entitlements_token(&mut self, access_token: &String) -> Result<String, FetchError>;
}

/// The third-party catalog and version service.
pub trait CatalogProvider {
    /// The full skin catalog.
    fn get_weapon_skins(&mut self) -> Result<Vec<SkinDetails>, FetchError>;

    /// The current client version record.
    fn get_valorant_version(&mut self) -> Result<ValorantVersionResponse, FetchError>;
}

/// The storefront endpoint.
pub trait StoreProvider {
    /// One storefront fetch for one account; both sections derive from
    /// this single response.
    fn store_fetch_storefront(
        &mut self,
        client_ver: &String,
        ent: &String,
        access_token: &String,
        shard: &String,
        puuid: &String,
    ) -> Result<StoreFrontResponse, FetchError>;
}

/// Webhook delivery. Returns whether this one delivery succeeded; a
/// failure never concerns any other target.
pub trait Notifier {
    fn send_webhook(&mut self, url: &str, message: &WebhookMessage) -> bool;
}

} // verus!
