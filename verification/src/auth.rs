//! SoundCloud OAuth 2.1 with PKCE: the challenge derived from a verifier and
//! the documented authorisation, token and sign-out requests.

use vstd::prelude::*;
use vstd::string::*;
use vstd::utf8::encode_utf8;

use crate::digest::{base64_url_no_pad, base64_url_no_pad_of, digestible_len, sha256, sha256_of};
use crate::request::{HttpMethod, RequestPlan, RequestPlanView, pair, pairs_view};

verus! {

pub const SOUNDCLOUD_AUTHORIZE_URL: &'static str = "https://secure.soundcloud.com/authorize";

pub const SOUNDCLOUD_TOKEN_URL: &'static str = "https://secure.soundcloud.com/oauth/token";

pub const SOUNDCLOUD_SIGN_OUT_URL: &'static str = "https://secure.soundcloud.com/sign-out";

#[derive(Debug, Clone, PartialEq, Eq)]
pub struct OAuthCredentials {
    pub client_id: String,
    pub client_secret: String,
    pub redirect_uri: String,
}

#[derive(Debug, Clone, PartialEq, Eq)]
pub struct OAuthEndpoints {
    pub authorize_url: String,
    pub token_url: String,
    pub sign_out_url: String,
}

impl Default for OAuthEndpoints {
    fn default() -> (r: Self)
        ensures
            r.authorize_url@ == SOUNDCLOUD_AUTHORIZE_URL@,
            r.token_url@ == SOUNDCLOUD_TOKEN_URL@,
            r.sign_out_url@ == SOUNDCLOUD_SIGN_OUT_URL@,
    {
        OAuthEndpoints {
            authorize_url: SOUNDCLOUD_AUTHORIZE_URL.to_owned(),
            token_url: SOUNDCLOUD_TOKEN_URL.to_owned(),
            sign_out_url: SOUNDCLOUD_SIGN_OUT_URL.to_owned(),
        }
    }
}

/// The S256 code challenge of a verifier: the unpadded URL-safe Base64 of
/// the SHA-256 digest of its bytes.
pub open spec fn challenge_of(verifier: Seq<char>) -> Seq<char> {
    base64_url_no_pad_of(sha256_of(encode_utf8(verifier)))
}

/// The verifier is short enough to be digested.
pub open spec fn verifier_fits(verifier: Seq<char>) -> bool {
    digestible_len(encode_utf8(verifier).len() as int)
}

pub fn pkce_challenge(verifier: &str) -> (r: String)
    requires
        verifier_fits(verifier@),
    ensures
        r@ == challenge_of(verifier@),
{
    let digest = sha256(verifier.as_bytes());
    base64_url_no_pad(digest.as_slice())
}

#[derive(Debug, Clone, PartialEq, Eq)]
pub struct Pkce {
    pub verifier: String,
    pub challenge: String,
}

impl Pkce {
    pub fn from_verifier(verifier: &str) -> (r: Self)
        requires
            verifier_fits(verifier@),
        ensures
            r.verifier@ == verifier@,
            r.challenge@ == challenge_of(verifier@),
    {
        let challenge = pkce_challenge(verifier);
        Pkce { verifier: verifier.to_owned(), challenge }
    }
}

#[derive(Debug, Clone, PartialEq, Eq)]
pub struct TokenResponse {
    pub access_token: String,
    pub refresh_token: String,
    pub expires_in: u64,
    pub scope: Option<String>,
}

/// A client of SoundCloud's OAuth endpoints.
#[derive(Debug, Clone)]
pub struct SoundCloudAuthClient {
    pub credentials: OAuthCredentials,
    pub endpoints: OAuthEndpoints,
}

/// The header that asks for JSON.
pub open spec fn accept_json() -> Seq<(Seq<char>, Seq<char>)> {
    seq![("Accept"@, "application/json; charset=utf-8"@)]
}

/// A POST of a form to the token endpoint.
pub open spec fn token_post(
    token_url: Seq<char>,
    form: Seq<(Seq<char>, Seq<char>)>,
    basic_auth: Option<(Seq<char>, Seq<char>)>,
) -> RequestPlanView {
    RequestPlanView {
        method: HttpMethod::Post,
        url: token_url,
        query: seq![],
        headers: accept_json(),
        form,
        json: seq![],
        basic_auth,
    }
}

impl SoundCloudAuthClient {
    pub fn new(credentials: OAuthCredentials) -> (r: Self)
        ensures
            r.credentials == credentials,
            r.endpoints.authorize_url@ == SOUNDCLOUD_AUTHORIZE_URL@,
            r.endpoints.token_url@ == SOUNDCLOUD_TOKEN_URL@,
            r.endpoints.sign_out_url@ == SOUNDCLOUD_SIGN_OUT_URL@,
    {
        Self::with_endpoints(credentials, OAuthEndpoints::default())
    }

    pub fn with_endpoints(credentials: OAuthCredentials, endpoints: OAuthEndpoints) -> (r: Self)
        ensures
            r.credentials == credentials,
            r.endpoints == endpoints,
    {
        SoundCloudAuthClient { credentials, endpoints }
    }

    /// The authorisation page to send the user to (code flow with an S256 challenge).
    pub fn authorization_request(&self, state: &str, pkce: &Pkce) -> (r: RequestPlan)
        ensures
            r@ == (RequestPlanView {
                method: HttpMethod::Get,
                url: self.endpoints.authorize_url@,
                query: seq![
                    ("client_id"@, self.credentials.client_id@),
                    ("redirect_uri"@, self.credentials.redirect_uri@),
                    ("response_type"@, "code"@),
                    ("code_challenge"@, pkce.challenge@),
                    ("code_challenge_method"@, "S256"@),
                    ("state"@, state@),
                ],
                headers: seq![],
                form: seq![],
                json: seq![],
                basic_auth: None,
            }),
    {
        let mut q: Vec<(String, String)> = Vec::new();
        q.push(pair("client_id", self.credentials.client_id.as_str()));
        q.push(pair("redirect_uri", self.credentials.redirect_uri.as_str()));
        q.push(pair("response_type", "code"));
        q.push(pair("code_challenge", pkce.challenge.as_str()));
        q.push(pair("code_challenge_method", "S256"));
        q.push(pair("state", state));
        let r = RequestPlan {
            method: HttpMethod::Get,
            url: self.endpoints.authorize_url.clone(),
            query: q,
            headers: Vec::new(),
            form: Vec::new(),
            json: Vec::new(),
            basic_auth: None,
        };
        assert(pairs_view(r.query@) =~= seq![
            ("client_id"@, self.credentials.client_id@),
            ("redirect_uri"@, self.credentials.redirect_uri@),
            ("response_type"@, "code"@),
            ("code_challenge"@, pkce.challenge@),
            ("code_challenge_method"@, "S256"@),
            ("state"@, state@),
        ]);
        assert(pairs_view(r.headers@) =~= seq![]);
        assert(pairs_view(r.form@) =~= seq![]);
        assert(pairs_view(r.json@) =~= seq![]);
        r
    }

    fn token_request(&self, form: Vec<(String, String)>, basic_auth: Option<(String, String)>) -> (r:
        RequestPlan)
        ensures
            r@ == token_post(
                self.endpoints.token_url@,
                pairs_view(form@),
                match basic_auth {
                    Some(p) => Some((p.0@, p.1@)),
                    None => None,
                },
            ),
    {
        let mut headers: Vec<(String, String)> = Vec::new();
        headers.push(pair("Accept", "application/json; charset=utf-8"));
        let r = RequestPlan {
            method: HttpMethod::Post,
            url: self.endpoints.token_url.clone(),
            query: Vec::new(),
            headers,
            form,
            json: Vec::new(),
            basic_auth,
        };
        assert(pairs_view(r.query@) =~= seq![]);
        assert(pairs_view(r.headers@) =~= accept_json());
        assert(pairs_view(r.json@) =~= seq![]);
        r
    }

    /// Exchanges an authorisation code for tokens, proving possession of the verifier.
    pub fn authorization_code_request(&self, code: &str, pkce: &Pkce) -> (r: RequestPlan)
        ensures
            r@ == token_post(
                self.endpoints.token_url@,
                seq![
                    ("grant_type"@, "authorization_code"@),
                    ("client_id"@, self.credentials.client_id@),
                    ("client_secret"@, self.credentials.client_secret@),
                    ("redirect_uri"@, self.credentials.redirect_uri@),
                    ("code_verifier"@, pkce.verifier@),
                    ("code"@, code@),
                ],
                None,
            ),
    {
        let mut f: Vec<(String, String)> = Vec::new();
        f.push(pair("grant_type", "authorization_code"));
        f.push(pair("client_id", self.credentials.client_id.as_str()));
        f.push(pair("client_secret", self.credentials.client_secret.as_str()));
        f.push(pair("redirect_uri", self.credentials.redirect_uri.as_str()));
        f.push(pair("code_verifier", pkce.verifier.as_str()));
        f.push(pair("code", code));
        assert(pairs_view(f@) =~= seq![
            ("grant_type"@, "authorization_code"@),
            ("client_id"@, self.credentials.client_id@),
            ("client_secret"@, self.credentials.client_secret@),
            ("redirect_uri"@, self.credentials.redirect_uri@),
            ("code_verifier"@, pkce.verifier@),
            ("code"@, code@),
        ]);
        self.token_request(f, None)
    }

    /// Trades a (single-use) refresh token for new tokens.
    pub fn refresh_token_request(&self, refresh_token: &str) -> (r: RequestPlan)
        ensures
            r@ == token_post(
                self.endpoints.token_url@,
                seq![
                    ("grant_type"@, "refresh_token"@),
                    ("client_id"@, self.credentials.client_id@),
                    ("client_secret"@, self.credentials.client_secret@),
                    ("refresh_token"@, refresh_token@),
                ],
                None,
            ),
    {
        let mut f: Vec<(String, String)> = Vec::new();
        f.push(pair("grant_type", "refresh_token"));
        f.push(pair("client_id", self.credentials.client_id.as_str()));
        f.push(pair("client_secret", self.credentials.client_secret.as_str()));
        f.push(pair("refresh_token", refresh_token));
        assert(pairs_view(f@) =~= seq![
            ("grant_type"@, "refresh_token"@),
            ("client_id"@, self.credentials.client_id@),
            ("client_secret"@, self.credentials.client_secret@),
            ("refresh_token"@, refresh_token@),
        ]);
        self.token_request(f, None)
    }

    /// Asks for an app token for public resources, authenticating with the
    /// client's own id and secret.
    pub fn client_credentials_request(&self) -> (r: RequestPlan)
        ensures
            r@ == token_post(
                self.endpoints.token_url@,
                seq![("grant_type"@, "client_credentials"@)],
                Some((self.credentials.client_id@, self.credentials.client_secret@)),
            ),
    {
        let mut f: Vec<(String, String)> = Vec::new();
        f.push(pair("grant_type", "client_credentials"));
        assert(pairs_view(f@) =~= seq![("grant_type"@, "client_credentials"@)]);
        self.token_request(
            f,
            Some((self.credentials.client_id.clone(), self.credentials.client_secret.clone())),
        )
    }

    /// Revokes an access token.
    pub fn sign_out_request(&self, access_token: &str) -> (r: RequestPlan)
        ensures
            r@ == (RequestPlanView {
                method: HttpMethod::Post,
                url: self.endpoints.sign_out_url@,
                query: seq![],
                headers: seq![],
                form: seq![],
                json: seq![("access_token"@, access_token@)],
                basic_auth: None,
            }),
    {
        let mut j: Vec<(String, String)> = Vec::new();
        j.push(pair("access_token", access_token));
        let r = RequestPlan {
            method: HttpMethod::Post,
            url: self.endpoints.sign_out_url.clone(),
            query: Vec::new(),
            headers: Vec::new(),
            form: Vec::new(),
            json: j,
            basic_auth: None,
        };
        assert(pairs_view(r.query@) =~= seq![]);
        assert(pairs_view(r.headers@) =~= seq![]);
        assert(pairs_view(r.form@) =~= seq![]);
        assert(pairs_view(r.json@) =~= seq![("access_token"@, access_token@)]);
        r
    }
}

} // verus!
