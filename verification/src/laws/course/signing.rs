//! Signing in and out.

use super::{leads_to, refused};
use crate::auth::{token_nonce, TokenResponseModel};
use crate::config::ConfigModel;
use crate::effects::{EffectModel, ReplyModel};
use crate::error::AppErrorModel;
use crate::auth::{claimed_roles, claimed_user, claims_in, origin, present};
use crate::laws::performs;
use crate::outside::{json_array, json_string, percent_encoded};
use crate::portal::{response, RequestModel};
use crate::routes::auth::{logged_out, login_started, returned, CallbackParamsModel};
use crate::session::{role_of, Role, SessionUserModel};
use vstd::prelude::*;
use vstd::utf8::encode_utf8;

verus! {

/// A text as it stands in the query of an address.
pub open spec fn in_query(text: Seq<char>) -> Seq<char> {
    percent_encoded(encode_utf8(text))
}

/// Signing in begins with two random texts, which are put into the session; the browser is
/// sent with them to the issuer, and is to come back to the portal.
pub proof fn lemma_signing_in_begins_at_the_issuer(
    config: ConfigModel,
    state: Seq<char>,
    nonce: Seq<char>,
    problem: Seq<char>,
)
    ensures
        ({
            let request = RequestModel::StartLogin;
            let drawn = seq![ReplyModel::Token(state), ReplyModel::Token(nonce)];
            let broken = AppErrorModel::Internal("session error: "@ + problem);
            &&& performs(config, request, Seq::empty(), EffectModel::NewToken)
            &&& performs(config, request, seq![ReplyModel::Token(state)], EffectModel::NewToken)
            &&& performs(
                config,
                request,
                drawn,
                EffectModel::StoreText { key: "oauth_state"@, value: state },
            )
            &&& refused(config, request, drawn.push(ReplyModel::Failed(problem)), broken)
            &&& performs(
                config,
                request,
                drawn.push(ReplyModel::Done),
                EffectModel::StoreText { key: "oauth_nonce"@, value: nonce },
            )
            &&& refused(
                config,
                request,
                drawn.push(ReplyModel::Done).push(ReplyModel::Failed(problem)),
                broken,
            )
            &&& leads_to(
                config,
                request,
                drawn.push(ReplyModel::Done).push(ReplyModel::Done),
                config.oidc_issuer
                    + "/protocol/openid-connect/auth?response_type=code&client_id="@ + in_query(
                    config.oidc_client_id,
                ) + "&redirect_uri="@ + in_query(config.oidc_redirect_uri)
                    + "&scope=openid+profile+email&state="@ + state + "&nonce="@ + nonce,
            )
        }),
{
    reveal(login_started);
}

/// A realm role is among those that a token claims.
pub open spec fn claims_role(json: Seq<char>, name: Seq<char>) -> bool {
    json_array(encode_utf8(json), "realm_access"@, "roles"@) matches Some(roles) && exists|i: int|
        0 <= i < roles.len() && #[trigger] roles[i] == Some(name)
}

/// The user whom the claims of a token name: by their subject and their username, or by the
/// subject alone; with the role that the realm roles among the claims give them.
pub open spec fn is_claimed(config: ConfigModel, json: Seq<char>, user: SessionUserModel) -> bool {
    let claims = encode_utf8(json);
    let sub = json_string(claims, "sub"@);
    let name = json_string(claims, "preferred_username"@);
    &&& user.sub == (if sub is Some {
        sub->0
    } else {
        Seq::empty()
    })
    &&& user.username == (if name is Some {
        name->0
    } else {
        user.sub
    })
    &&& user.email == json_string(claims, "email"@)
    &&& user.last_seen_changes_at is None
    &&& match user.role {
        Role::Admin => claims_role(json, config.role_admin),
        Role::Operator => !claims_role(json, config.role_admin) && claims_role(
            json,
            config.role_operator,
        ),
    }
}

proof fn lemma_present(texts: Seq<Option<Seq<char>>>, text: Seq<char>)
    ensures
        present(texts).contains(text) == exists|i: int|
            0 <= i < texts.len() && #[trigger] texts[i] == Some(text),
    decreases texts.len(),
{
    if texts.len() > 0 {
        let front = texts.drop_last();
        let n = texts.len() - 1;
        lemma_present(front, text);
        let all = present(texts);
        if present(front).contains(text) {
            let i = choose|i: int| 0 <= i < front.len() && #[trigger] front[i] == Some(text);
            assert(texts[i] == Some(text));
            let k = choose|k: int| 0 <= k < present(front).len() && present(front)[k] == text;
            assert(all[k] == text);
        }
        if texts.last() == Some(text) {
            assert(texts[n] == Some(text));
            assert(all.last() == text);
        }
        if all.contains(text) && texts.last() != Some(text) {
            let k = choose|k: int| 0 <= k < all.len() && all[k] == text;
            assert(present(front)[k] == text);
        }
        if exists|i: int| 0 <= i < texts.len() && #[trigger] texts[i] == Some(text) {
            let i = choose|i: int| 0 <= i < texts.len() && #[trigger] texts[i] == Some(text);
            if i < n {
                assert(front[i] == Some(text));
            }
        }
    }
}

proof fn lemma_is_claimed(config: ConfigModel, json: Seq<char>, user: SessionUserModel)
    ensures
        is_claimed(config, json, user) ==> claimed_user(config, claims_in(json)) == Some(user),
        !claims_role(json, config.role_admin) && !claims_role(json, config.role_operator)
            ==> claimed_user(config, claims_in(json)) is None,
{
    let roles = claimed_roles(claims_in(json));
    if let Some(listed) = json_array(encode_utf8(json), "realm_access"@, "roles"@) {
        lemma_present(listed, config.role_admin);
        lemma_present(listed, config.role_operator);
    } else {
        assert(!roles.contains(config.role_admin));
        assert(!roles.contains(config.role_operator));
    }
}

/// A user comes back from the issuer with a code and the state that was given along. Only with
/// the state that the session holds is the code traded for tokens; only with the nonce that it
/// holds does the ID token count; and only the claims of the verified access token say who the
/// user is. Then the state and the nonce are dropped, and the user is in the session.
pub proof fn lemma_signing_in_takes_these_steps(
    config: ConfigModel,
    params: CallbackParamsModel,
    code: Seq<char>,
    saved: Option<Seq<char>>,
    nonce: Seq<char>,
    tokens: TokenResponseModel,
    json: Seq<char>,
    user: SessionUserModel,
    problem: Seq<char>,
)
    ensures
        ({
            let request = RequestModel::Callback(params);
            let s1 = seq![ReplyModel::Text(saved)];
            let s2 = s1.push(ReplyModel::Text(Some(nonce)));
            let s3 = s2.push(ReplyModel::Tokens(tokens));
            let s4 = s3.push(ReplyModel::Claims(json));
            let s5 = s4.push(ReplyModel::Done);
            let s6 = s5.push(ReplyModel::Done);
            let failed = ReplyModel::Failed(problem);
            let carried = if tokens.id_token is Some && token_nonce(
                tokens.id_token->0,
            ) is Some {
                token_nonce(tokens.id_token->0)->0
            } else {
                Seq::empty()
            };
            &&& params.error is Some ==> refused(
                config,
                request,
                Seq::empty(),
                AppErrorModel::Internal("OIDC error: "@ + params.error->0),
            )
            &&& params.error is None && params.code is None ==> refused(
                config,
                request,
                Seq::empty(),
                AppErrorModel::Internal("missing code"@),
            )
            &&& params.error is None && params.code == Some(code) ==> {
                &&& performs(
                    config,
                    request,
                    Seq::empty(),
                    EffectModel::LoadText { key: "oauth_state"@ },
                )
                &&& saved != params.state ==> refused(
                    config,
                    request,
                    s1,
                    AppErrorModel::Internal("state mismatch"@),
                )
                &&& saved == params.state ==> {
                    &&& performs(
                        config,
                        request,
                        s1,
                        EffectModel::LoadText { key: "oauth_nonce"@ },
                    )
                    &&& refused(
                        config,
                        request,
                        s1.push(ReplyModel::Text(None)),
                        AppErrorModel::Internal("missing nonce in session"@),
                    )
                    &&& performs(config, request, s2, EffectModel::ExchangeCode { code })
                    &&& refused(
                        config,
                        request,
                        s2.push(failed),
                        AppErrorModel::Internal(problem),
                    )
                    &&& if tokens.id_token is Some && carried != nonce {
                        refused(
                            config,
                            request,
                            s3,
                            AppErrorModel::Internal("nonce mismatch — possible replay attack"@),
                        )
                    } else {
                        &&& performs(
                            config,
                            request,
                            s3,
                            EffectModel::VerifyToken { token: tokens.access_token },
                        )
                        &&& refused(
                            config,
                            request,
                            s3.push(failed),
                            AppErrorModel::Internal("token verification failed"@),
                        )
                        &&& !claims_role(json, config.role_admin) && !claims_role(
                            json,
                            config.role_operator,
                        ) ==> refused(
                            config,
                            request,
                            s4,
                            AppErrorModel::Internal("user has no grafter role assigned"@),
                        )
                        &&& is_claimed(config, json, user) ==> {
                            &&& performs(
                                config,
                                request,
                                s4,
                                EffectModel::DropText { key: "oauth_state"@ },
                            )
                            &&& performs(
                                config,
                                request,
                                s5,
                                EffectModel::DropText { key: "oauth_nonce"@ },
                            )
                            &&& performs(config, request, s6, EffectModel::StoreUser(user))
                            &&& leads_to(config, request, s6.push(ReplyModel::Done), "/"@)
                        }
                    }
                }
            }
        }),
{
    reveal(returned);
    lemma_is_claimed(config, json, user);
}

/// Signing out ends the session; the browser is sent to the issuer to sign out there too, and
/// is to come back to the login page of the portal.
pub proof fn lemma_signing_out_ends_at_the_login_page(config: ConfigModel, any: ReplyModel)
    ensures
        performs(config, RequestModel::Logout, Seq::empty(), EffectModel::EndSession),
        leads_to(
            config,
            RequestModel::Logout,
            seq![any],
            config.oidc_issuer + "/protocol/openid-connect/logout?client_id="@ + in_query(
                config.oidc_client_id,
            ) + "&post_logout_redirect_uri="@ + in_query(
                origin(config.oidc_redirect_uri) + "/auth/login"@,
            ),
        ),
{
    reveal(logged_out);
}

} // verus!
