//! Credentials: those given on the command line, those of the stored
//! token, and those of a refreshed one.

use vstd::prelude::*;
use vstd::string::*;
use crate::image_protocols::{base64_standard, encodable, encode_base64};
use crate::messages::{replace, replaced};
use crate::text::{text, copy_bytes, push_all};

verus! {

/// What the token service answers to a request for a token.
#[derive(Clone, Debug)]
pub struct TokenResponse {
    pub success: bool,
    pub id: Vec<u8>,
    pub message: Vec<u8>,
}

/// The state of a token: on success the token and what belongs to it, on
/// failure the reason.
#[derive(Clone, Debug)]
pub struct TokenStatus {
    pub success: bool,
    pub id: Vec<u8>,
    pub scopes: Option<Vec<Vec<u8>>>,
    pub token: Option<Vec<u8>>,
    pub refresh: Option<Vec<u8>>,
    pub username: Option<Vec<u8>>,
    pub client_id: Option<Vec<u8>>,
    pub message: Option<Vec<u8>>,
    pub error: Option<usize>,
}

/// The user's name, the access token, the client identifier and the
/// refresh token.
#[derive(Clone, Debug)]
pub struct Credentials {
    pub twitch_name: Vec<u8>,
    pub oauth_token: Vec<u8>,
    pub client_id: Vec<u8>,
    pub refresh: Vec<u8>,
}

/// Why there are no credentials.
#[derive(Clone, Copy, Debug, PartialEq, Eq, Structural)]
pub enum CredentialsError {
    /// Not all three values were given and no token is stored.
    NoStoredToken,
    /// The stored token is one that was not granted, or it lacks a part.
    LoginNeeded,
}

/// Whether a stored token has every part that credentials are made of.
pub open spec fn is_complete(status: TokenStatus) -> bool {
    status.success && status.username is Some && status.token is Some && status.client_id is Some
        && status.refresh is Some
}

/// Whether `out` is what the three given values and the stored token
/// yield: the given values where all three are there, with an empty
/// refresh token; else the stored token's values, its access token behind
/// the prefix `oauth:`.
pub open spec fn credentials_from(
    twitch_name: Option<&[u8]>,
    oauth_token: Option<&[u8]>,
    client_id: Option<&[u8]>,
    stored: Option<&TokenStatus>,
    out: Result<Credentials, CredentialsError>,
) -> bool {
    if twitch_name is Some && oauth_token is Some && client_id is Some {
        out matches Ok(c) && c.twitch_name@ == twitch_name.unwrap()@ && c.oauth_token@
            == oauth_token.unwrap()@ && c.client_id@ == client_id.unwrap()@ && c.refresh@.len() == 0
    } else {
        match stored {
            None => out == Err::<Credentials, CredentialsError>(CredentialsError::NoStoredToken),
            Some(status) => if is_complete(*status) {
                out matches Ok(c) && c.twitch_name@ == status.username.unwrap()@ && c.oauth_token@
                    == "oauth:".spec_bytes() + status.token.unwrap()@ && c.client_id@
                    == status.client_id.unwrap()@ && c.refresh@ == status.refresh.unwrap()@
            } else {
                out == Err::<Credentials, CredentialsError>(CredentialsError::LoginNeeded)
            },
        }
    }
}

/// Chooses the credentials: the three given values, or the stored token.
pub fn get_credentials(
    twitch_name: Option<&[u8]>,
    oauth_token: Option<&[u8]>,
    client_id: Option<&[u8]>,
    stored: Option<&TokenStatus>,
) -> (out: Result<Credentials, CredentialsError>)
    ensures
        credentials_from(twitch_name, oauth_token, client_id, stored, out),
{
    match (twitch_name, oauth_token, client_id) {
        (Some(name), Some(token), Some(id)) => Ok(
            Credentials {
                twitch_name: copy_bytes(name),
                oauth_token: copy_bytes(token),
                client_id: copy_bytes(id),
                refresh: Vec::new(),
            },
        ),
        _ => match stored {
            None => Err(CredentialsError::NoStoredToken),
            Some(status) => {
                if !status.success {
                    return Err(CredentialsError::LoginNeeded);
                }
                match (&status.username, &status.token, &status.client_id, &status.refresh) {
                    (Some(name), Some(token), Some(id), Some(refresh)) => {
                        let mut oauth = text("oauth:");
                        push_all(&mut oauth, token.as_slice());
                        Ok(
                            Credentials {
                                twitch_name: copy_bytes(name.as_slice()),
                                oauth_token: oauth,
                                client_id: copy_bytes(id.as_slice()),
                                refresh: copy_bytes(refresh.as_slice()),
                            },
                        )
                    },
                    _ => Err(CredentialsError::LoginNeeded),
                }
            },
        },
    }
}

/// The access token and client identifier to go on with once the token was
/// checked: those of the refreshed token where it was refreshed and names
/// them, else the ones at hand.
pub fn refreshed_credentials(token: Vec<u8>, client_id: Vec<u8>, refreshed: Option<&TokenStatus>) -> (out:
    (Vec<u8>, Vec<u8>))
    ensures
        out.0@ == match refreshed {
            Some(status) => match status.token {
                Some(t) => t@,
                None => token@,
            },
            None => token@,
        },
        out.1@ == match refreshed {
            Some(status) => match status.client_id {
                Some(id) => id@,
                None => client_id@,
            },
            None => client_id@,
        },
{
    match refreshed {
        Some(status) => {
            let new_token = match &status.token {
                Some(t) => copy_bytes(t.as_slice()),
                None => token,
            };
            let new_id = match &status.client_id {
                Some(id) => copy_bytes(id.as_slice()),
                None => client_id,
            };
            (new_token, new_id)
        },
        None => (token, client_id),
    }
}

/// How often the login asks the token service before it gives up.
pub open spec fn max_retries() -> u8 {
    18
}

/// What the login does after one answer of the token service.
#[derive(Clone, Copy, Debug, PartialEq, Eq, Structural)]
pub enum LoginStep {
    /// The token was granted: store it.
    Store,
    /// Not granted yet: wait ten seconds and ask again.
    Wait,
    /// Asked often enough: give up.
    GiveUp,
}

/// One step of the login's polling: after `retries` fruitless answers,
/// `granted` says whether the latest answer grants the token.
pub fn login_step(retries: u8, granted: bool) -> (step: LoginStep)
    ensures
        step == (if retries >= max_retries() {
            LoginStep::GiveUp
        } else if granted {
            LoginStep::Store
        } else {
            LoginStep::Wait
        }),
{
    if retries >= 18 {
        LoginStep::GiveUp
    } else if granted {
        LoginStep::Store
    } else {
        LoginStep::Wait
    }
}


/// A token without the prefix `oauth:`, wherever it stands in it.
pub open spec fn bare_token(oauth_token: Seq<u8>) -> Seq<u8> {
    replaced(oauth_token, "oauth:".spec_bytes(), Seq::empty())
}

/// The authorization that the platform's requests carry: `Bearer` and the
/// bare token.
pub fn bearer(oauth_token: &[u8]) -> (out: Vec<u8>)
    ensures
        out@ == "Bearer ".spec_bytes() + bare_token(oauth_token@),
{
    let empty: Vec<u8> = Vec::new();
    let mut out = text("Bearer ");
    push_all(&mut out, replace(oauth_token, "oauth:".as_bytes(), empty.as_slice()).as_slice());
    out
}

/// The authorization that the validation request carries: `OAuth` and the
/// bare token.
pub fn validation_authorization(oauth_token: &[u8]) -> (out: Vec<u8>)
    ensures
        out@ == "OAuth ".spec_bytes() + bare_token(oauth_token@),
{
    let empty: Vec<u8> = Vec::new();
    let mut out = text("OAuth ");
    push_all(&mut out, replace(oauth_token, "oauth:".as_bytes(), empty.as_slice()).as_slice());
    out
}

/// The permissions that the login asks for, joined by `+`.
pub open spec fn scopes() -> Seq<u8> {
    "channel:read:subscriptions+chat:read+chat:edit+channel:moderate+channel:read:redemptions+channel:manage:redemptions+channel:bot+user:write:chat+moderator:manage:shoutouts+user_read+chat_login+bits:read+channel:moderate+channel:read:ads+user:read:chat+user:bot+channel:bot".spec_bytes()
}

/// The address that starts a login for the program `app_name`: the
/// program's name in base64, then the permissions.
pub open spec fn create_token_address(app_name: Seq<u8>) -> Seq<u8> {
    "https://twitchtokengenerator.com/api/create/".spec_bytes() + base64_standard(app_name)
        + "/".spec_bytes() + scopes()
}

/// Writes the address that starts a login; `None` for a name too large to
/// encode.
pub fn create_token_url(app_name: &[u8]) -> (out: Option<Vec<u8>>)
    ensures
        match out {
            Some(url) => encodable(app_name@) && url@ == create_token_address(app_name@),
            None => !encodable(app_name@),
        },
{
    match encode_base64(app_name) {
        Some(encoded) => {
            let mut url = text("https://twitchtokengenerator.com/api/create/");
            push_all(&mut url, encoded.as_slice());
            push_all(&mut url, "/".as_bytes());
            push_all(&mut url, "channel:read:subscriptions+chat:read+chat:edit+channel:moderate+channel:read:redemptions+channel:manage:redemptions+channel:bot+user:write:chat+moderator:manage:shoutouts+user_read+chat_login+bits:read+channel:moderate+channel:read:ads+user:read:chat+user:bot+channel:bot".as_bytes());
            Some(url)
        },
        None => None,
    }
}

/// Writes the address that tells the state of the login `id`.
pub fn token_status_url(id: &[u8]) -> (out: Vec<u8>)
    ensures
        out@ == "https://twitchtokengenerator.com/api/status/".spec_bytes() + id@,
{
    let mut url = text("https://twitchtokengenerator.com/api/status/");
    push_all(&mut url, id);
    url
}

/// Writes the address that refreshes a token.
pub fn refresh_url(refresh_token: &[u8]) -> (out: Vec<u8>)
    ensures
        out@ == "https://twitchtokengenerator.com/api/refresh/".spec_bytes() + refresh_token@,
{
    let mut url = text("https://twitchtokengenerator.com/api/refresh/");
    push_all(&mut url, refresh_token);
    url
}

} // verus!
