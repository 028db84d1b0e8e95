//! The fixed request bodies of the credential authentication flow, and
//! the checks made on its responses.

use vstd::prelude::*;
use vstd::string::StrSliceExecFns;
use vstd::string::StringExecFns;

use crate::models::{AuthClientRequest, LoginRequest, LoginResponse};

verus! {

/// Builds the request that opens an authorization flow; every field is
/// fixed.
pub fn auth_client_request() -> (r: AuthClientRequest)
    ensures
        r.client_id@ == "play-valorant-web-prod"@,
        r.nonce@ == "1"@,
        r.redirect_uri@ == "https://playvalorant.com/opt_in"@,
        r.response_type@ == "token id_token"@,
        r.scope@ == "account openid"@,
{
    AuthClientRequest {
        client_id: "play-valorant-web-prod".to_owned(),
        nonce: "1".to_owned(),
        redirect_uri: "https://playvalorant.com/opt_in".to_owned(),
        response_type: "token id_token".to_owned(),
        scope: "account openid".to_owned(),
    }
}

/// Builds the credential login request for one username and password;
/// the session is always remembered.
pub fn login_request(username: String, password: String) -> (r: LoginRequest)
    ensures
        r.action_type@ == "auth"@,
        r.username == username,
        r.password == password,
        r.remember == true,
{
    LoginRequest { action_type: "auth".to_owned(), username, password, remember: true }
}

/// Reads the redirect location out of a login response: present exactly
/// when the response is of the completed kind.
pub fn login_response_uri(res: &LoginResponse) -> (r: Option<&String>)
    ensures
        match r {
            Some(u) => res.response_type@ == "response"@ && u == &res.response.parameters.uri,
            None => res.response_type@ != "response"@,
        },
{
    let expected = "response".to_owned();
    if res.response_type == expected {
        Some(&res.response.parameters.uri)
    } else {
        None
    }
}

/// Whether a silent reauthentication redirect landed back on the login
/// page — the stored credential is no longer accepted.
pub fn is_login_redirect(path: &str) -> (r: bool)
    ensures
        r == (path@.len() >= 6 && path@.subrange(0, 6) == "/login"@),
{
    let len = path.unicode_len();
    if len < 6 {
        return false;
    }
    let prefix = path.substring_char(0, 6).to_owned();
    let expected = "/login".to_owned();
    prefix == expected
}

} // verus!
