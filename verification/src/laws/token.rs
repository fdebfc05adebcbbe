//! What holds of personal access tokens.

use crate::laws::config::slashes_are_taken_off_exactly;
use crate::personal_access_token::{
    base_url_for, external_token, WhoamiError, PROD_AUTHAPI_BASE_URL, WHOAMI_PATH,
};
use crate::text::{trimmed, without_trailing_slashes};
use vstd::prelude::*;

verus! {

/// The address that tells whose token it is begins with the base address as it
/// was worked out: it is never empty, and no slash is doubled.
pub proof fn the_whoami_address_is_clean(configured: Option<Seq<char>>)
    ensures
        base_url_for(configured).len() > 0,
        base_url_for(configured).last() != '/',
        without_trailing_slashes(base_url_for(configured)) + WHOAMI_PATH@ == base_url_for(
            configured,
        ) + WHOAMI_PATH@,
{
    reveal_strlit("https://auth.openai.com/api/accounts");
    if let Some(value) = configured {
        slashes_are_taken_off_exactly(trimmed(value));
    }
    assert(PROD_AUTHAPI_BASE_URL@.last() == 's');
}

/// The base address is the configured one, without white space around it and
/// slashes behind it; where nothing is left, it is that of production.
pub proof fn the_base_address_is_the_configured_one(value: Seq<char>)
    ensures
        without_trailing_slashes(trimmed(value)).len() > 0 ==> base_url_for(Some(value))
            == without_trailing_slashes(trimmed(value)),
        without_trailing_slashes(trimmed(value)).len() == 0 ==> base_url_for(Some(value))
            == "https://auth.openai.com/api/accounts"@,
        base_url_for(None) == "https://auth.openai.com/api/accounts"@,
{
}

/// A token from outside carries what was told of it, and nothing that was not.
pub proof fn an_external_token_carries_what_was_told(
    access_token: Seq<char>,
    user: Seq<char>,
    account: Seq<char>,
    plan: Option<Seq<char>>,
)
    ensures
        ({
            let token = external_token(access_token, user, account, plan);
            &&& token.access_token == access_token
            &&& token.metadata.chatgpt_user_id == user
            &&& token.metadata.chatgpt_account_id == account
            &&& plan is Some ==> token.metadata.chatgpt_plan_type == plan->0
            &&& plan is None ==> token.metadata.chatgpt_plan_type == "unknown"@
            &&& token.metadata.email is None
            &&& !token.metadata.chatgpt_account_is_fedramp
        }),
{
}

/// The text of a whoami error says what failed, and then why.
pub proof fn a_whoami_error_says_why(cause: String)
    ensures
        WhoamiError::Request(cause).text()
            == "failed to request personal access token metadata: "@ + cause@,
        WhoamiError::Status(cause).text()
            == "personal access token metadata request failed with status "@ + cause@,
        WhoamiError::Decode(cause).text() == "failed to decode personal access token metadata: "@
            + cause@,
{
}

} // verus!
