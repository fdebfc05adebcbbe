//! Personal access tokens: opaque long-lived tokens and the identity that
//! belongs to them.

use crate::http::{is_success, success, HttpAnswer};
use crate::text::{
    as_opt_str, begins_with, clone_opt, opt_str, opt_text, starts_with, trim, trim_end_slashes,
    trimmed, without_trailing_slashes,
};
use vstd::prelude::*;

verus! {

/// Where the identity of a token is asked for, unless configured otherwise.
pub const PROD_AUTHAPI_BASE_URL: &'static str = "https://auth.openai.com/api/accounts";

/// The path that tells whose token it is.
pub const WHOAMI_PATH: &'static str = "/v1/user-auth-credential/whoami";

/// The prefix of every personal access token.
pub const TOKEN_PREFIX: &'static str = "at-";

/// What stands in for a token where it must not be shown.
pub const REDACTED: &'static str = "<redacted>";

/// The plan of an account whose plan was not told.
pub const UNKNOWN_PLAN: &'static str = "unknown";

/// Whom a personal access token belongs to.
#[derive(Debug, PartialEq, Eq)]
pub struct PersonalAccessTokenMetadata {
    pub email: Option<String>,
    pub chatgpt_user_id: String,
    pub chatgpt_account_id: String,
    pub chatgpt_plan_type: String,
    pub chatgpt_account_is_fedramp: bool,
}

/// A token's owner as a mathematical value.
pub struct MetadataView {
    pub email: Option<Seq<char>>,
    pub chatgpt_user_id: Seq<char>,
    pub chatgpt_account_id: Seq<char>,
    pub chatgpt_plan_type: Seq<char>,
    pub chatgpt_account_is_fedramp: bool,
}

impl View for PersonalAccessTokenMetadata {
    type V = MetadataView;

    open spec fn view(&self) -> MetadataView {
        MetadataView {
            email: opt_text(self.email),
            chatgpt_user_id: self.chatgpt_user_id@,
            chatgpt_account_id: self.chatgpt_account_id@,
            chatgpt_plan_type: self.chatgpt_plan_type@,
            chatgpt_account_is_fedramp: self.chatgpt_account_is_fedramp,
        }
    }
}

/// A personal access token together with its owner.
#[derive(PartialEq, Eq)]
pub struct PersonalAccessTokenAuth {
    access_token: String,
    metadata: PersonalAccessTokenMetadata,
}

/// A personal access token as a mathematical value.
pub struct PersonalAccessTokenView {
    pub access_token: Seq<char>,
    pub metadata: MetadataView,
}

impl View for PersonalAccessTokenAuth {
    type V = PersonalAccessTokenView;

    closed spec fn view(&self) -> PersonalAccessTokenView {
        PersonalAccessTokenView { access_token: self.access_token@, metadata: self.metadata@ }
    }
}

/// The token that is put together from an identity which somebody else has
/// already looked up. What was not told stays empty.
pub open spec fn external_token(
    access_token: Seq<char>,
    chatgpt_user_id: Seq<char>,
    chatgpt_account_id: Seq<char>,
    chatgpt_plan_type: Option<Seq<char>>,
) -> PersonalAccessTokenView {
    PersonalAccessTokenView {
        access_token,
        metadata: MetadataView {
            email: None,
            chatgpt_user_id,
            chatgpt_account_id,
            chatgpt_plan_type: match chatgpt_plan_type {
                Some(plan) => plan,
                None => UNKNOWN_PLAN@,
            },
            chatgpt_account_is_fedramp: false,
        },
    }
}

impl PersonalAccessTokenAuth {
    /// Puts a token together from an identity that somebody else has already
    /// looked up, without asking again. The mail address stays empty, and the
    /// FedRAMP flag is off: it takes evidence to set it.
    pub fn from_external(
        access_token: &str,
        chatgpt_user_id: &str,
        chatgpt_account_id: &str,
        chatgpt_plan_type: Option<&str>,
    ) -> (r: Self)
        ensures
            r@ == external_token(
                access_token@,
                chatgpt_user_id@,
                chatgpt_account_id@,
                opt_str(chatgpt_plan_type),
            ),
    {
        PersonalAccessTokenAuth {
            access_token: access_token.to_owned(),
            metadata: PersonalAccessTokenMetadata {
                email: None,
                chatgpt_user_id: chatgpt_user_id.to_owned(),
                chatgpt_account_id: chatgpt_account_id.to_owned(),
                chatgpt_plan_type: match chatgpt_plan_type {
                    Some(plan) => plan.to_owned(),
                    None => UNKNOWN_PLAN.to_owned(),
                },
                chatgpt_account_is_fedramp: false,
            },
        }
    }

    /// The token itself.
    pub fn access_token(&self) -> (r: &str)
        ensures
            r@ == self@.access_token,
    {
        self.access_token.as_str()
    }

    /// The account that the token belongs to.
    pub fn account_id(&self) -> (r: &str)
        ensures
            r@ == self@.metadata.chatgpt_account_id,
    {
        self.metadata.chatgpt_account_id.as_str()
    }

    /// The user that the token belongs to.
    pub fn chatgpt_user_id(&self) -> (r: &str)
        ensures
            r@ == self@.metadata.chatgpt_user_id,
    {
        self.metadata.chatgpt_user_id.as_str()
    }

    /// The owner's mail address, where it is known.
    pub fn email(&self) -> (r: Option<&str>)
        ensures
            opt_str(r) == self@.metadata.email,
    {
        as_opt_str(&self.metadata.email)
    }

    /// The name of the owner's plan, as it was told.
    pub fn plan_type(&self) -> (r: &str)
        ensures
            r@ == self@.metadata.chatgpt_plan_type,
    {
        self.metadata.chatgpt_plan_type.as_str()
    }

    /// Whether the account is a FedRAMP account.
    pub fn is_fedramp_account(&self) -> (r: bool)
        ensures
            r == self@.metadata.chatgpt_account_is_fedramp,
    {
        self.metadata.chatgpt_account_is_fedramp
    }

    /// This token in the form in which it may be shown: the owner, and a
    /// placeholder for the token.
    pub fn redacted(&self) -> (r: Self)
        ensures
            r@ == (PersonalAccessTokenView { access_token: REDACTED@, ..self@ }),
    {
        PersonalAccessTokenAuth {
            access_token: REDACTED.to_owned(),
            metadata: PersonalAccessTokenMetadata {
                email: clone_opt(&self.metadata.email),
                chatgpt_user_id: self.metadata.chatgpt_user_id.clone(),
                chatgpt_account_id: self.metadata.chatgpt_account_id.clone(),
                chatgpt_plan_type: self.metadata.chatgpt_plan_type.clone(),
                chatgpt_account_is_fedramp: self.metadata.chatgpt_account_is_fedramp,
            },
        }
    }
}

impl Clone for PersonalAccessTokenAuth {
    fn clone(&self) -> (r: Self)
        ensures
            r@ == self@,
    {
        PersonalAccessTokenAuth {
            access_token: self.access_token.clone(),
            metadata: PersonalAccessTokenMetadata {
                email: clone_opt(&self.metadata.email),
                chatgpt_user_id: self.metadata.chatgpt_user_id.clone(),
                chatgpt_account_id: self.metadata.chatgpt_account_id.clone(),
                chatgpt_plan_type: self.metadata.chatgpt_plan_type.clone(),
                chatgpt_account_is_fedramp: self.metadata.chatgpt_account_is_fedramp,
            },
        }
    }
}

/// Whether `access_token` is a personal access token.
pub fn is_personal_access_token(access_token: &str) -> (r: bool)
    ensures
        r == begins_with(access_token@, TOKEN_PREFIX@),
{
    starts_with(access_token, TOKEN_PREFIX)
}

/// Why the owner of a token is not known.
#[derive(Debug, PartialEq, Eq)]
pub enum WhoamiError {
    /// The request was not answered.
    Request(String),
    /// The answer was an HTTP error.
    Status(String),
    /// The answer was not understood.
    Decode(String),
}

impl WhoamiError {
    /// The text of the error.
    pub open spec fn text(self) -> Seq<char> {
        match self {
            WhoamiError::Request(cause) => {
                "failed to request personal access token metadata: "@ + cause@
            },
            WhoamiError::Status(status) => {
                "personal access token metadata request failed with status "@ + status@
            },
            WhoamiError::Decode(cause) => {
                "failed to decode personal access token metadata: "@ + cause@
            },
        }
    }

    /// The text of the error.
    pub fn message(&self) -> (r: String)
        ensures
            r@ == self.text(),
    {
        match self {
            WhoamiError::Request(cause) => {
                "failed to request personal access token metadata: ".to_owned().concat(
                    cause.as_str(),
                )
            },
            WhoamiError::Status(status) => {
                "personal access token metadata request failed with status ".to_owned().concat(
                    status.as_str(),
                )
            },
            WhoamiError::Decode(cause) => {
                "failed to decode personal access token metadata: ".to_owned().concat(
                    cause.as_str(),
                )
            },
        }
    }
}

/// The token together with the owner that a whoami request told. An error stands
/// for a request that was not answered, with its cause.
pub fn hydrate_personal_access_token(
    access_token: &str,
    answer: Result<HttpAnswer<PersonalAccessTokenMetadata>, String>,
) -> (r: Result<PersonalAccessTokenAuth, WhoamiError>)
    ensures
        match answer {
            Err(cause) => r == Err::<PersonalAccessTokenAuth, WhoamiError>(
                WhoamiError::Request(cause),
            ),
            Ok(answer) => if !success(answer.status.code) {
                r == Err::<PersonalAccessTokenAuth, WhoamiError>(
                    WhoamiError::Status(answer.status.line),
                )
            } else {
                match answer.content {
                    Err(cause) => r == Err::<PersonalAccessTokenAuth, WhoamiError>(
                        WhoamiError::Decode(cause),
                    ),
                    Ok(metadata) => r matches Ok(auth) && auth@ == (PersonalAccessTokenView {
                        access_token: access_token@,
                        metadata: metadata@,
                    }),
                }
            },
        },
{
    let answer = match answer {
        Ok(answer) => answer,
        Err(cause) => {
            return Err(WhoamiError::Request(cause));
        },
    };
    if !is_success(answer.status.code) {
        return Err(WhoamiError::Status(answer.status.line));
    }
    match answer.content {
        Ok(metadata) => Ok(
            PersonalAccessTokenAuth { access_token: access_token.to_owned(), metadata },
        ),
        Err(cause) => Err(WhoamiError::Decode(cause)),
    }
}

/// The base address for a configured value: trimmed and without trailing
/// slashes, and the production address where nothing is left.
pub open spec fn base_url_for(configured: Option<Seq<char>>) -> Seq<char> {
    match configured {
        Some(value) if without_trailing_slashes(trimmed(value)).len() > 0 => {
            without_trailing_slashes(trimmed(value))
        },
        _ => PROD_AUTHAPI_BASE_URL@,
    }
}

/// The base address for the value of the environment variable, if it is set.
pub fn authapi_base_url(configured: Option<&str>) -> (r: String)
    ensures
        r@ == base_url_for(opt_str(configured)),
{
    if let Some(value) = configured {
        let base_url = trim_end_slashes(trim(value));
        if !base_url.is_empty() {
            return base_url.to_owned();
        }
    }
    PROD_AUTHAPI_BASE_URL.to_owned()
}

/// The address that tells whose token it is.
pub fn whoami_endpoint(authapi_base_url: &str) -> (r: String)
    ensures
        r@ == without_trailing_slashes(authapi_base_url@) + WHOAMI_PATH@,
{
    trim_end_slashes(authapi_base_url).to_owned().concat(WHOAMI_PATH)
}

} // verus!
