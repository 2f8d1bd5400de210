use meowify::auth::{
    pkce_challenge, OAuthCredentials, OAuthEndpoints, Pkce, SoundCloudAuthClient,
    SOUNDCLOUD_AUTHORIZE_URL, SOUNDCLOUD_SIGN_OUT_URL, SOUNDCLOUD_TOKEN_URL,
};
use meowify::request::HttpMethod;

fn pair(name: &str, value: &str) -> (String, String) {
    (name.to_string(), value.to_string())
}

fn credentials() -> OAuthCredentials {
    OAuthCredentials {
        client_id: "client-id".to_string(),
        client_secret: "client-secret".to_string(),
        redirect_uri: "meowify://soundcloud/callback".to_string(),
    }
}

fn client() -> SoundCloudAuthClient {
    SoundCloudAuthClient::new(credentials())
}

#[test]
fn pkce_challenge_matches_rfc_example() {
    let challenge = pkce_challenge("dBjftJeZ4CVP-mB92K27uhbUJU1p1r_wW1gFWFOEjXk");

    assert_eq!(challenge, "E9Melhoa2OwvFrEMTJguCHaoeK1t8URWbuGJSstw-cM");
}

#[test]
fn builds_documented_authorization_url() {
    let pkce = Pkce::from_verifier("verifier");
    let request = client().authorization_request("state-123", &pkce);

    assert_eq!(request.url, SOUNDCLOUD_AUTHORIZE_URL);
    assert!(request.query.contains(&pair("response_type", "code")));
    assert!(request.query.contains(&pair("code_challenge_method", "S256")));
    assert!(request.query.contains(&pair("state", "state-123")));
}

#[test]
fn pkce_from_verifier_keeps_the_verifier_and_derives_the_challenge() {
    let pkce = Pkce::from_verifier("verifier");
    assert_eq!(pkce.verifier, "verifier");
    assert_eq!(pkce.challenge, "iMnq5o6zALKXGivsnlom_0F5_WYda32GHkxlV7mq7hQ");
    assert_eq!(pkce.challenge, pkce_challenge("verifier"));
    // 32 digest bytes give 43 unpadded Base64 characters.
    assert_eq!(pkce.challenge.len(), 43);
    assert!(!pkce.challenge.contains('='));
}

#[test]
fn default_endpoints_are_soundclouds() {
    let endpoints = OAuthEndpoints::default();
    assert_eq!(endpoints.authorize_url, "https://secure.soundcloud.com/authorize");
    assert_eq!(endpoints.token_url, "https://secure.soundcloud.com/oauth/token");
    assert_eq!(endpoints.sign_out_url, "https://secure.soundcloud.com/sign-out");
    assert_eq!(client().endpoints, endpoints);
}

#[test]
fn authorization_request_lists_the_documented_parameters_in_order() {
    let pkce = Pkce::from_verifier("dBjftJeZ4CVP-mB92K27uhbUJU1p1r_wW1gFWFOEjXk");
    let request = client().authorization_request("s1", &pkce);

    assert_eq!(request.method, HttpMethod::Get);
    assert_eq!(
        request.query,
        vec![
            pair("client_id", "client-id"),
            pair("redirect_uri", "meowify://soundcloud/callback"),
            pair("response_type", "code"),
            pair("code_challenge", "E9Melhoa2OwvFrEMTJguCHaoeK1t8URWbuGJSstw-cM"),
            pair("code_challenge_method", "S256"),
            pair("state", "s1"),
        ]
    );
    assert!(request.headers.is_empty());
}

#[test]
fn code_exchange_posts_the_verifier_and_code() {
    let pkce = Pkce::from_verifier("verifier");
    let request = client().authorization_code_request("the-code", &pkce);

    assert_eq!(request.method, HttpMethod::Post);
    assert_eq!(request.url, SOUNDCLOUD_TOKEN_URL);
    assert_eq!(
        request.headers,
        vec![pair("Accept", "application/json; charset=utf-8")]
    );
    assert_eq!(
        request.form,
        vec![
            pair("grant_type", "authorization_code"),
            pair("client_id", "client-id"),
            pair("client_secret", "client-secret"),
            pair("redirect_uri", "meowify://soundcloud/callback"),
            pair("code_verifier", "verifier"),
            pair("code", "the-code"),
        ]
    );
    assert!(request.basic_auth.is_none());
}

#[test]
fn refresh_posts_the_refresh_token() {
    let request = client().refresh_token_request("r-1");
    assert_eq!(request.url, SOUNDCLOUD_TOKEN_URL);
    assert_eq!(
        request.form,
        vec![
            pair("grant_type", "refresh_token"),
            pair("client_id", "client-id"),
            pair("client_secret", "client-secret"),
            pair("refresh_token", "r-1"),
        ]
    );
}

#[test]
fn client_credentials_use_basic_auth() {
    let request = client().client_credentials_request();
    assert_eq!(request.form, vec![pair("grant_type", "client_credentials")]);
    assert_eq!(
        request.basic_auth,
        Some(pair("client-id", "client-secret"))
    );
}

#[test]
fn sign_out_posts_the_token_as_json() {
    let request = client().sign_out_request("acc");
    assert_eq!(request.method, HttpMethod::Post);
    assert_eq!(request.url, SOUNDCLOUD_SIGN_OUT_URL);
    assert_eq!(request.json, vec![pair("access_token", "acc")]);
    assert!(request.form.is_empty());
}

#[test]
fn custom_endpoints_are_used() {
    let endpoints = OAuthEndpoints {
        authorize_url: "http://localhost/auth".to_string(),
        token_url: "http://localhost/token".to_string(),
        sign_out_url: "http://localhost/out".to_string(),
    };
    let client = SoundCloudAuthClient::with_endpoints(credentials(), endpoints);
    let pkce = Pkce::from_verifier("v");
    assert_eq!(client.authorization_request("s", &pkce).url, "http://localhost/auth");
    assert_eq!(client.refresh_token_request("r").url, "http://localhost/token");
    assert_eq!(client.sign_out_request("a").url, "http://localhost/out");
}
