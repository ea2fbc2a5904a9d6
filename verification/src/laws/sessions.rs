//! Sessions, and the user that each belongs to.

use super::performs;
use crate::asks::failed;
use crate::auth::{claimed_user, claims_in, login_address, logout_address};
use crate::config::ConfigModel;
use crate::effects::{EffectModel, OutcomeModel, ReplyModel, StepModel};
use crate::error::AppErrorModel;
use crate::portal::{response, RequestModel};
use crate::routes::auth::{logged_out, login_started, nonce_holds, returned, CallbackParamsModel};
use crate::session::SessionUserModel;
use vstd::prelude::*;

verus! {

/// A user is signed in only when the state that came back is the one that the session holds,
/// the ID token, where there is one, carries the session's nonce, and the access token was
/// verified; who the user is, and in which role, the verified claims say. The state and the
/// nonce are gone from the session by then.
pub proof fn lemma_only_verified_users_sign_in(
    config: ConfigModel,
    params: CallbackParamsModel,
    replies: Seq<ReplyModel>,
    user: SessionUserModel,
)
    requires
        performs(config, RequestModel::Callback(params), replies, EffectModel::StoreUser(user)),
    ensures
        replies.len() == 6,
        replies[0] == ReplyModel::Text(params.state),
        replies[1] matches ReplyModel::Text(nonce) && (replies[2] matches ReplyModel::Tokens(tokens)
            && nonce is Some && nonce_holds(tokens.id_token, nonce->0) && response(
            config,
            RequestModel::Callback(params),
            replies.take(3),
        ) == StepModel::Perform(EffectModel::VerifyToken { token: tokens.access_token })),
        replies[3] matches ReplyModel::Claims(json) && claimed_user(config, claims_in(json))
            == Some(user),
        performs(
            config,
            RequestModel::Callback(params),
            replies.take(0),
            EffectModel::LoadText { key: "oauth_state"@ },
        ),
        performs(
            config,
            RequestModel::Callback(params),
            replies.take(1),
            EffectModel::LoadText { key: "oauth_nonce"@ },
        ),
        performs(
            config,
            RequestModel::Callback(params),
            replies.take(4),
            EffectModel::DropText { key: "oauth_state"@ },
        ),
        performs(
            config,
            RequestModel::Callback(params),
            replies.take(5),
            EffectModel::DropText { key: "oauth_nonce"@ },
        ),
{
    reveal(returned);
}

/// A browser that is sent to the issuer carries the state and the nonce that were drawn for it
/// and put into its session.
pub proof fn lemma_sign_in_starts_with_what_the_session_holds(
    config: ConfigModel,
    replies: Seq<ReplyModel>,
    to: Seq<char>,
)
    requires
        response(config, RequestModel::StartLogin, replies) == StepModel::Finish(
            OutcomeModel::Redirect { to },
        ),
    ensures
        replies.len() >= 4,
        replies[0] matches ReplyModel::Token(state) && (replies[1] matches ReplyModel::Token(nonce)
            && to == login_address(config, state, nonce) && performs(
            config,
            RequestModel::StartLogin,
            replies.take(2),
            EffectModel::StoreText { key: "oauth_state"@, value: state },
        ) && performs(
            config,
            RequestModel::StartLogin,
            replies.take(3),
            EffectModel::StoreText { key: "oauth_nonce"@, value: nonce },
        )),
        performs(config, RequestModel::StartLogin, replies.take(0), EffectModel::NewToken),
        performs(config, RequestModel::StartLogin, replies.take(1), EffectModel::NewToken),
        replies[2] == ReplyModel::Done,
        replies[3] == ReplyModel::Done,
{
    reveal(login_started);
}

/// Signing out ends the session before the browser is sent to the issuer.
pub proof fn lemma_signing_out_ends_the_session(config: ConfigModel, replies: Seq<ReplyModel>)
    ensures
        performs(config, RequestModel::Logout, Seq::empty(), EffectModel::EndSession),
        replies.len() > 0 ==> response(config, RequestModel::Logout, replies) == StepModel::Finish(
            OutcomeModel::Redirect { to: logout_address(config) },
        ),
{
    reveal(logged_out);
}

/// A state that is not the session's is refused.
pub proof fn lemma_wrong_state_is_refused(
    config: ConfigModel,
    params: CallbackParamsModel,
    replies: Seq<ReplyModel>,
    held: Option<Seq<char>>,
)
    requires
        params.error is None,
        params.code is Some,
        replies.len() > 0,
        replies[0] == ReplyModel::Text(held),
        held != params.state,
    ensures
        response(config, RequestModel::Callback(params), replies) == failed(
            AppErrorModel::Internal("state mismatch"@),
        ),
{
    reveal(returned);
}

} // verus!
