//! Signing in and out.

use crate::asks::{
    any_asked, ask, ask_any, ask_store, ask_text, ask_token, asked, fail, fail_unexpected, failed,
    store_asked, text_asked, token_asked, unexpected,
};
use crate::auth::{
    authorization_url, csrf_tokens_equal, login_address, logout_address, logout_url,
    nonce_from_id_token, session_user_from_token, token_nonce, token_user_asked, TokenResponse,
    TokenResponseModel,
};
use crate::config::{Config, ConfigModel};
use crate::effects::{
    Asked, Effect, EffectModel, Outcome, OutcomeModel, Replies, Reply, ReplyModel, Step,
};
use crate::error::{AppError, AppErrorModel};
use crate::pages::{Page, PageModel};
use crate::routes::{home_realm, operator_realm, redirected};
use crate::script::{answers, Ask};
use crate::session::SessionUserModel;
use crate::text::{or_empty, same_option, text_or_empty};
use vstd::prelude::*;

verus! {

/// The login page, which names the realm.
#[verifier::opaque]
pub open spec fn login_shown(config: ConfigModel, replies: Seq<ReplyModel>) -> Asked<OutcomeModel> {
    Ask::Got(OutcomeModel::Page(PageModel::Login { realm: home_realm(config) }), replies)
}

/// Shows the login page.
pub fn login(cursor: &mut Replies<'_>, config: &Config) -> (r: Result<Outcome, Step>)
    ensures
        answers(r, final(cursor).rest(), login_shown(config.deep_view(), old(cursor).rest())),
{
    proof {
        reveal(login_shown);
    }
    Ok(Outcome::Page(Page::Login { realm: operator_realm(config) }))
}

/// Two random texts are put into the session, and the browser is sent to the issuer with them.
#[verifier::opaque]
pub open spec fn login_started(config: ConfigModel, replies: Seq<ReplyModel>) -> Asked<
    OutcomeModel,
> {
    match token_asked(replies) {
        Ask::Stop(stop) => Ask::Stop(stop),
        Ask::Got(state, rest) => match token_asked(rest) {
            Ask::Stop(stop) => Ask::Stop(stop),
            Ask::Got(nonce, rest) => match store_asked(
                EffectModel::StoreText { key: "oauth_state"@, value: state },
                rest,
            ) {
                Ask::Stop(stop) => Ask::Stop(stop),
                Ask::Got(_, rest) => match store_asked(
                    EffectModel::StoreText { key: "oauth_nonce"@, value: nonce },
                    rest,
                ) {
                    Ask::Stop(stop) => Ask::Stop(stop),
                    Ask::Got(_, rest) => Ask::Got(
                        redirected(login_address(config, state, nonce)),
                        rest,
                    ),
                },
            },
        },
    }
}

/// Begins to sign a user in.
pub fn start_login(cursor: &mut Replies<'_>, config: &Config) -> (r: Result<Outcome, Step>)
    ensures
        answers(r, final(cursor).rest(), login_started(config.deep_view(), old(cursor).rest())),
{
    proof {
        reveal(login_started);
    }
    let state = ask_token(cursor)?;
    let nonce = ask_token(cursor)?;
    ask_store(
        cursor,
        Effect::StoreText { key: "oauth_state".to_string(), value: state.clone() },
    )?;
    ask_store(
        cursor,
        Effect::StoreText { key: "oauth_nonce".to_string(), value: nonce.clone() },
    )?;
    Ok(Outcome::Redirect { to: authorization_url(config, state.as_str(), nonce.as_str()) })
}

/// What the issuer sends the browser back with.
#[derive(Debug, PartialEq)]
pub struct CallbackParams {
    pub code: Option<String>,
    pub state: Option<String>,
    pub error: Option<String>,
}

/// What a [`CallbackParams`] stands for in contracts.
#[verifier::ext_equal]
pub struct CallbackParamsModel {
    pub code: Option<Seq<char>>,
    pub state: Option<Seq<char>>,
    pub error: Option<Seq<char>>,
}

impl DeepView for CallbackParams {
    type V = CallbackParamsModel;

    open spec fn deep_view(&self) -> CallbackParamsModel {
        CallbackParamsModel {
            code: self.code.deep_view(),
            state: self.state.deep_view(),
            error: self.error.deep_view(),
        }
    }
}

impl Clone for CallbackParams {
    fn clone(&self) -> (r: Self)
        ensures
            r.deep_view() == self.deep_view(),
    {
        CallbackParams {
            code: self.code.clone(),
            state: self.state.clone(),
            error: self.error.clone(),
        }
    }
}

/// The tokens that a code stands for.
pub open spec fn tokens_asked(code: Seq<char>, replies: Seq<ReplyModel>) -> Asked<
    TokenResponseModel,
> {
    match asked(EffectModel::ExchangeCode { code }, replies) {
        Ask::Stop(stop) => Ask::Stop(stop),
        Ask::Got(ReplyModel::Tokens(tokens), rest) => Ask::Got(tokens, rest),
        Ask::Got(ReplyModel::Failed(message), _) => Ask::Stop(
            failed(AppErrorModel::Internal(message)),
        ),
        Ask::Got(_, _) => Ask::Stop(unexpected()),
    }
}

fn ask_tokens(cursor: &mut Replies<'_>, code: &str) -> (r: Result<TokenResponse, Step>)
    ensures
        answers(r, final(cursor).rest(), tokens_asked(code@, old(cursor).rest())),
{
    match ask(cursor, Effect::ExchangeCode { code: code.to_string() })? {
        Reply::Tokens(tokens) => Ok(tokens.clone()),
        Reply::Failed(message) => Err(fail(AppError::Internal(message.clone()))),
        _ => Err(fail_unexpected()),
    }
}

/// Whether an ID token, where there is one, carries the nonce of the session.
pub open spec fn nonce_holds(id_token: Option<Seq<char>>, nonce: Seq<char>) -> bool {
    id_token matches Some(token) ==> or_empty(token_nonce(token)) == nonce
}

fn check_nonce(id_token: &Option<String>, nonce: &str) -> (r: bool)
    ensures
        r == nonce_holds(id_token.deep_view(), nonce@),
{
    match id_token {
        Some(token) => csrf_tokens_equal(
            text_or_empty(&nonce_from_id_token(token.as_str())).as_str(),
            nonce,
        ),
        None => true,
    }
}

/// The user is put into the session, in the place of what was kept for signing in.
pub open spec fn session_opened(user: SessionUserModel, replies: Seq<ReplyModel>) -> Asked<
    OutcomeModel,
> {
    match store_asked(EffectModel::DropText { key: "oauth_state"@ }, replies) {
        Ask::Stop(stop) => Ask::Stop(stop),
        Ask::Got(_, rest) => match store_asked(
            EffectModel::DropText { key: "oauth_nonce"@ },
            rest,
        ) {
            Ask::Stop(stop) => Ask::Stop(stop),
            Ask::Got(_, rest) => match store_asked(EffectModel::StoreUser(user), rest) {
                Ask::Stop(stop) => Ask::Stop(stop),
                Ask::Got(_, rest) => Ask::Got(redirected("/"@), rest),
            },
        },
    }
}

/// The code is traded for tokens, the tokens are checked, and the session is opened.
pub open spec fn code_accepted(
    config: ConfigModel,
    code: Seq<char>,
    nonce: Seq<char>,
    replies: Seq<ReplyModel>,
) -> Asked<OutcomeModel> {
    match tokens_asked(code, replies) {
        Ask::Stop(stop) => Ask::Stop(stop),
        Ask::Got(tokens, rest) => if !nonce_holds(tokens.id_token, nonce) {
            Ask::Stop(failed(AppErrorModel::Internal("nonce mismatch — possible replay attack"@)))
        } else {
            match token_user_asked(config, tokens.access_token, rest) {
                Ask::Stop(stop) => Ask::Stop(stop),
                Ask::Got(user, rest) => session_opened(user, rest),
            }
        },
    }
}

/// A code counts only with the state that the session holds.
pub open spec fn state_checked(
    config: ConfigModel,
    code: Seq<char>,
    state: Option<Seq<char>>,
    replies: Seq<ReplyModel>,
) -> Asked<OutcomeModel> {
    match text_asked("oauth_state"@, replies) {
        Ask::Stop(stop) => Ask::Stop(stop),
        Ask::Got(saved, rest) => if saved != state {
            Ask::Stop(failed(AppErrorModel::Internal("state mismatch"@)))
        } else {
            match text_asked("oauth_nonce"@, rest) {
                Ask::Stop(stop) => Ask::Stop(stop),
                Ask::Got(None, _) => Ask::Stop(
                    failed(AppErrorModel::Internal("missing nonce in session"@)),
                ),
                Ask::Got(Some(nonce), rest) => code_accepted(config, code, nonce, rest),
            }
        },
    }
}

/// A user comes back from the issuer.
#[verifier::opaque]
pub open spec fn returned(
    config: ConfigModel,
    params: CallbackParamsModel,
    replies: Seq<ReplyModel>,
) -> Asked<OutcomeModel> {
    match (params.error, params.code) {
        (Some(error), _) => Ask::Stop(failed(AppErrorModel::Internal("OIDC error: "@ + error))),
        (None, None) => Ask::Stop(failed(AppErrorModel::Internal("missing code"@))),
        (None, Some(code)) => state_checked(config, code, params.state, replies),
    }
}

/// Signs a user in who comes back from the issuer.
pub fn callback(cursor: &mut Replies<'_>, config: &Config, params: &CallbackParams) -> (r: Result<
    Outcome,
    Step,
>)
    ensures
        answers(
            r,
            final(cursor).rest(),
            returned(config.deep_view(), params.deep_view(), old(cursor).rest()),
        ),
{
    proof {
        reveal(returned);
    }
    if let Some(error) = &params.error {
        return Err(
            fail(AppError::Internal("OIDC error: ".to_string().concat(error.as_str()))),
        );
    }
    let code = match &params.code {
        Some(code) => code,
        None => return Err(fail(AppError::Internal("missing code".to_string()))),
    };
    let saved = ask_text(cursor, "oauth_state")?;
    if !same_option(&saved, &params.state) {
        return Err(fail(AppError::Internal("state mismatch".to_string())));
    }
    let nonce = match ask_text(cursor, "oauth_nonce")? {
        Some(nonce) => nonce,
        None => return Err(fail(AppError::Internal("missing nonce in session".to_string()))),
    };
    let tokens = ask_tokens(cursor, code.as_str())?;
    if !check_nonce(&tokens.id_token, nonce.as_str()) {
        return Err(
            fail(AppError::Internal("nonce mismatch — possible replay attack".to_string())),
        );
    }
    let user = session_user_from_token(cursor, config, tokens.access_token.as_str())?;
    ask_store(cursor, Effect::DropText { key: "oauth_state".to_string() })?;
    ask_store(cursor, Effect::DropText { key: "oauth_nonce".to_string() })?;
    ask_store(cursor, Effect::StoreUser(user))?;
    Ok(Outcome::Redirect { to: "/".to_string() })
}

/// The session is ended, and the browser is sent to the issuer to sign out there.
#[verifier::opaque]
pub open spec fn logged_out(config: ConfigModel, replies: Seq<ReplyModel>) -> Asked<OutcomeModel> {
    match any_asked(EffectModel::EndSession, replies) {
        Ask::Stop(stop) => Ask::Stop(stop),
        Ask::Got(_, rest) => Ask::Got(redirected(logout_address(config)), rest),
    }
}

/// Signs a user out.
pub fn logout(cursor: &mut Replies<'_>, config: &Config) -> (r: Result<Outcome, Step>)
    ensures
        answers(r, final(cursor).rest(), logged_out(config.deep_view(), old(cursor).rest())),
{
    proof {
        reveal(logged_out);
    }
    ask_any(cursor, Effect::EndSession)?;
    Ok(Outcome::Redirect { to: logout_url(config) })
}

} // verus!
