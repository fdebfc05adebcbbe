//! The credentials that the pool leases.

use crate::personal_access_token::{PersonalAccessTokenAuth, PersonalAccessTokenView};
use crate::text::{clone_opt, opt_text};
use vstd::prelude::*;

verus! {

/// An access token of a signed-in account. There is no refresh token: renewal
/// is the pool's business alone.
#[derive(PartialEq, Eq)]
pub struct ChatgptTokens {
    pub access_token: String,
    pub account_id: String,
    pub plan: Option<String>,
    /// The mail address that the token claims.
    pub email: Option<String>,
}

/// An access token of a signed-in account as mathematical values.
pub struct ChatgptTokensView {
    pub access_token: Seq<char>,
    pub account_id: Seq<char>,
    pub plan: Option<Seq<char>>,
    pub email: Option<Seq<char>>,
}

impl View for ChatgptTokens {
    type V = ChatgptTokensView;

    open spec fn view(&self) -> ChatgptTokensView {
        ChatgptTokensView {
            access_token: self.access_token@,
            account_id: self.account_id@,
            plan: opt_text(self.plan),
            email: opt_text(self.email),
        }
    }
}

/// A leased credential. The two kinds reach different endpoints, so each keeps
/// its own form.
#[derive(PartialEq, Eq)]
pub enum CodexAuth {
    PersonalAccessToken(PersonalAccessTokenAuth),
    ChatgptTokens(ChatgptTokens),
}

/// A leased credential as a mathematical value.
pub enum AuthView {
    PersonalAccessToken(PersonalAccessTokenView),
    ChatgptTokens(ChatgptTokensView),
}

impl View for CodexAuth {
    type V = AuthView;

    open spec fn view(&self) -> AuthView {
        match self {
            CodexAuth::PersonalAccessToken(token) => AuthView::PersonalAccessToken(token@),
            CodexAuth::ChatgptTokens(tokens) => AuthView::ChatgptTokens(tokens@),
        }
    }
}

impl AuthView {
    /// The mail address of the account, where it is known.
    pub open spec fn email(self) -> Option<Seq<char>> {
        match self {
            AuthView::PersonalAccessToken(token) => token.metadata.email,
            AuthView::ChatgptTokens(tokens) => tokens.email,
        }
    }

    /// The account that the credential belongs to.
    pub open spec fn account_id(self) -> Seq<char> {
        match self {
            AuthView::PersonalAccessToken(token) => token.metadata.chatgpt_account_id,
            AuthView::ChatgptTokens(tokens) => tokens.account_id,
        }
    }
}

impl CodexAuth {
    /// The mail address of the account, where it is known.
    pub fn get_account_email(&self) -> (r: Option<String>)
        ensures
            opt_text(r) == self@.email(),
    {
        match self {
            CodexAuth::PersonalAccessToken(token) => match token.email() {
                Some(email) => Some(email.to_owned()),
                None => None,
            },
            CodexAuth::ChatgptTokens(tokens) => clone_opt(&tokens.email),
        }
    }

    /// The account that the credential belongs to.
    pub fn get_account_id(&self) -> (r: String)
        ensures
            r@ == self@.account_id(),
    {
        match self {
            CodexAuth::PersonalAccessToken(token) => token.account_id().to_owned(),
            CodexAuth::ChatgptTokens(tokens) => tokens.account_id.clone(),
        }
    }

    /// Whether this is a personal access token.
    pub fn is_personal_access_token_auth(&self) -> (r: bool)
        ensures
            r == (self@ is PersonalAccessToken),
    {
        match self {
            CodexAuth::PersonalAccessToken(_) => true,
            CodexAuth::ChatgptTokens(_) => false,
        }
    }

    /// Whether this is an access token of a signed-in account.
    pub fn is_external_chatgpt_tokens(&self) -> (r: bool)
        ensures
            r == (self@ is ChatgptTokens),
    {
        match self {
            CodexAuth::PersonalAccessToken(_) => false,
            CodexAuth::ChatgptTokens(_) => true,
        }
    }
}

impl Clone for CodexAuth {
    fn clone(&self) -> (r: Self)
        ensures
            r@ == self@,
    {
        match self {
            CodexAuth::PersonalAccessToken(token) => CodexAuth::PersonalAccessToken(token.clone()),
            CodexAuth::ChatgptTokens(tokens) => CodexAuth::ChatgptTokens(
                ChatgptTokens {
                    access_token: tokens.access_token.clone(),
                    account_id: tokens.account_id.clone(),
                    plan: clone_opt(&tokens.plan),
                    email: clone_opt(&tokens.email),
                },
            ),
        }
    }
}

} // verus!
