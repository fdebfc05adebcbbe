use codext_pool::http::{HttpAnswer, HttpStatus};
use codext_pool::personal_access_token::{
    authapi_base_url, hydrate_personal_access_token, is_personal_access_token, whoami_endpoint,
    PersonalAccessTokenAuth, PersonalAccessTokenMetadata, WhoamiError,
};

fn metadata() -> PersonalAccessTokenMetadata {
    PersonalAccessTokenMetadata {
        email: Some("a@example.com".to_string()),
        chatgpt_user_id: "user-1".to_string(),
        chatgpt_account_id: "acct-1".to_string(),
        chatgpt_plan_type: "team".to_string(),
        chatgpt_account_is_fedramp: true,
    }
}

fn answer(code: u16, content: Result<PersonalAccessTokenMetadata, String>) -> Result<
    HttpAnswer<PersonalAccessTokenMetadata>,
    String,
> {
    Ok(HttpAnswer {
        status: HttpStatus { code, line: "403 Forbidden".to_string() },
        text: String::new(),
        content,
    })
}

fn hydrated() -> PersonalAccessTokenAuth {
    match hydrate_personal_access_token("at-1", answer(200, Ok(metadata()))) {
        Ok(auth) => auth,
        Err(error) => panic!("{error:?}"),
    }
}

fn failed(answer: Result<HttpAnswer<PersonalAccessTokenMetadata>, String>) -> WhoamiError {
    match hydrate_personal_access_token("at-1", answer) {
        Ok(_) => panic!("an error was expected"),
        Err(error) => error,
    }
}

#[test]
fn a_token_knows_its_owner() {
    let auth = hydrated();
    assert_eq!(auth.access_token(), "at-1");
    assert_eq!(auth.account_id(), "acct-1");
    assert_eq!(auth.chatgpt_user_id(), "user-1");
    assert_eq!(auth.email(), Some("a@example.com"));
    assert_eq!(auth.plan_type(), "team");
    assert!(auth.is_fedramp_account());
}

#[test]
fn an_external_token_makes_nothing_up() {
    let auth = PersonalAccessTokenAuth::from_external("at-2", "user-2", "acct-2", None);
    assert_eq!(auth.access_token(), "at-2");
    assert_eq!(auth.account_id(), "acct-2");
    assert_eq!(auth.chatgpt_user_id(), "user-2");
    assert_eq!(auth.email(), None);
    assert_eq!(auth.plan_type(), "unknown");
    assert!(!auth.is_fedramp_account());
    let planned = PersonalAccessTokenAuth::from_external("at-2", "user-2", "acct-2", Some("plus"));
    assert_eq!(planned.plan_type(), "plus");
}

#[test]
fn a_shown_token_is_redacted() {
    let shown = hydrated().redacted();
    assert_eq!(shown.access_token(), "<redacted>");
    assert_eq!(shown.account_id(), "acct-1");
    assert_eq!(shown.email(), Some("a@example.com"));
    assert!(hydrated().clone() == hydrated());
    assert!(shown != hydrated());
}

#[test]
fn a_whoami_request_fails_in_three_ways() {
    let request = failed(Err("timed out".to_string()));
    assert_eq!(request, WhoamiError::Request("timed out".to_string()));
    assert_eq!(
        request.message(),
        "failed to request personal access token metadata: timed out"
    );
    let status = failed(answer(403, Ok(metadata())));
    assert_eq!(status, WhoamiError::Status("403 Forbidden".to_string()));
    assert_eq!(
        status.message(),
        "personal access token metadata request failed with status 403 Forbidden"
    );
    let decode = failed(answer(204, Err("empty".to_string())));
    assert_eq!(decode, WhoamiError::Decode("empty".to_string()));
    assert_eq!(decode.message(), "failed to decode personal access token metadata: empty");
}

#[test]
fn a_personal_access_token_is_known_by_its_prefix() {
    assert!(is_personal_access_token("at-1"));
    assert!(is_personal_access_token("at-"));
    assert!(!is_personal_access_token("at"));
    assert!(!is_personal_access_token("AT-1"));
    assert!(!is_personal_access_token(" at-1"));
    assert!(!is_personal_access_token(""));
}

#[test]
fn the_whoami_address_has_single_slashes() {
    let production = "https://auth.openai.com/api/accounts";
    assert_eq!(authapi_base_url(None), production);
    assert_eq!(authapi_base_url(Some("  ")), production);
    assert_eq!(authapi_base_url(Some(" // ")), production);
    assert_eq!(authapi_base_url(Some(" https://auth.test// ")), "https://auth.test");
    assert_eq!(authapi_base_url(Some("https://auth.test/ /")), "https://auth.test/ ");
    assert_eq!(
        whoami_endpoint("https://auth.test/"),
        "https://auth.test/v1/user-auth-credential/whoami"
    );
    assert_eq!(
        whoami_endpoint(production),
        "https://auth.openai.com/api/accounts/v1/user-auth-credential/whoami"
    );
}
