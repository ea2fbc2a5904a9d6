//! The break-glass promotion: a token makes a user an admin when no admin can sign in.

use crate::asks::{any_asked, ask, ask_any, ask_stamp, asked, new_entry, stamp_asked, success_entry};
use crate::auth::csrf_tokens_equal;
use crate::config::{Config, ConfigModel};
use crate::effects::{
    Asked, Effect, EffectModel, Outcome, OutcomeModel, Promotion, PromotionModel, Replies, Reply,
    ReplyModel, Step,
};
use crate::lists::first_where;
use crate::provider::{
    users_like, ListUsersQuery, ProviderAnswer, ProviderAnswerModel, ProviderCall,
    ProviderCallModel, Role as RealmRole, RoleModel, UserModel,
};
use crate::routes::admin::{find_user_named, user_named};
use crate::routes::users::access::find_role_named;
use crate::script::{answers, Ask};
use crate::storage::{StorageCall, StorageCallModel};
use crate::text::{part_behind, part_behind_of};
use vstd::prelude::*;

verus! {

/// A request for promotion.
#[derive(Debug, PartialEq)]
pub struct PromoteBody {
    pub token: String,
    pub username: String,
}

/// What a [`PromoteBody`] stands for in contracts.
#[verifier::ext_equal]
pub struct PromoteBodyModel {
    pub token: Seq<char>,
    pub username: Seq<char>,
}

impl DeepView for PromoteBody {
    type V = PromoteBodyModel;

    open spec fn deep_view(&self) -> PromoteBodyModel {
        PromoteBodyModel {
            token: self.token.deep_view(),
            username: self.username.deep_view(),
        }
    }
}

impl Clone for PromoteBody {
    fn clone(&self) -> (r: Self)
        ensures
            r.deep_view() == self.deep_view(),
    {
        PromoteBody {
            token: self.token.clone(),
            username: self.username.clone(),
        }
    }
}

/// The promotion was made.
pub open spec fn promoted() -> OutcomeModel {
    OutcomeModel::Promotion(PromotionModel { status: 200, ok: true, error: None })
}

/// The promotion was refused or failed.
pub open spec fn not_promoted(status: u16, error: Seq<char>) -> OutcomeModel {
    OutcomeModel::Promotion(PromotionModel { status, ok: false, error: Some(error) })
}

fn refuse(status: u16, error: &str) -> (r: Outcome)
    ensures
        r.deep_view() == not_promoted(status, error@),
{
    Outcome::Promotion(Promotion { status, ok: false, error: Some(error.to_string()) })
}

/// How often an address may try in an hour.
pub const ATTEMPT_LIMIT: i64 = 3;

/// For how many seconds attempts are counted.
pub const ATTEMPT_SECONDS: i64 = 3600;

/// The counter of an address.
pub open spec fn attempts_key(ip: Seq<char>) -> Seq<char> {
    "grafter:emergency-rl:"@ + ip
}

fn attempts_key_of(ip: &str) -> (r: String)
    ensures
        r@ == attempts_key(ip@),
{
    "grafter:emergency-rl:".to_string().concat(ip)
}

/// The attempt is counted; the first one starts the hour. Nothing, where it cannot be counted.
pub open spec fn attempt_counted(ip: Seq<char>, replies: Seq<ReplyModel>) -> Asked<Option<i64>> {
    match asked(EffectModel::CountAttempt { key: attempts_key(ip) }, replies) {
        Ask::Stop(stop) => Ask::Stop(stop),
        Ask::Got(ReplyModel::Attempts(attempts), rest) => if attempts == 1 {
            match any_asked(
                EffectModel::ExpireAttempts { key: attempts_key(ip), seconds: ATTEMPT_SECONDS },
                rest,
            ) {
                Ask::Stop(stop) => Ask::Stop(stop),
                Ask::Got(_, rest) => Ask::Got(Some(attempts), rest),
            }
        } else {
            Ask::Got(Some(attempts), rest)
        },
        Ask::Got(_, rest) => Ask::Got(None, rest),
    }
}

fn count_attempt(cursor: &mut Replies<'_>, ip: &str) -> (r: Result<Option<i64>, Step>)
    ensures
        answers(r, final(cursor).rest(), attempt_counted(ip@, old(cursor).rest())),
{
    match ask(cursor, Effect::CountAttempt { key: attempts_key_of(ip) })? {
        Reply::Attempts(attempts) => {
            if *attempts == 1 {
                ask_any(
                    cursor,
                    Effect::ExpireAttempts { key: attempts_key_of(ip), seconds: ATTEMPT_SECONDS },
                )?;
            }
            Ok(Some(*attempts))
        },
        _ => Ok(None),
    }
}

/// The realm that the issuer's address names.
pub open spec fn issuer_realm(config: ConfigModel) -> Seq<char> {
    match part_behind(config.oidc_issuer, "/realms/"@) {
        Some(realm) => realm,
        None => "smartech"@,
    }
}

pub(crate) fn realm_of_issuer(config: &Config) -> (r: String)
    ensures
        r@ == issuer_realm(config.deep_view()),
{
    match part_behind_of(config.oidc_issuer.as_str(), "/realms/") {
        Some(realm) => realm,
        None => "smartech".to_string(),
    }
}

/// What the audit log says of a promotion.
pub open spec fn promotion_detail(username: Seq<char>, ip: Seq<char>) -> Seq<char> {
    "break-glass: promoted '"@ + username + "' to admin from "@ + ip
}

/// The admin role is assigned. The promotion stands even if it cannot be recorded.
pub open spec fn promotion_made(
    realm: Seq<char>,
    user_id: Seq<char>,
    role: RoleModel,
    username: Seq<char>,
    ip: Seq<char>,
    replies: Seq<ReplyModel>,
) -> Asked<OutcomeModel> {
    match asked(
        EffectModel::Provider(ProviderCallModel::AssignRealmRole { realm, user_id, role }),
        replies,
    ) {
        Ask::Stop(stop) => Ask::Stop(stop),
        Ask::Got(ReplyModel::Provider(ProviderAnswerModel::Done), rest) => match stamp_asked(rest) {
            Ask::Stop(stop) => Ask::Stop(stop),
            Ask::Got(stamp, rest) => match any_asked(
                EffectModel::Storage(
                    StorageCallModel::AppendAudit(
                        success_entry(
                            stamp,
                            "SYSTEM"@,
                            "emergency_promote"@,
                            realm,
                            Some(username),
                            promotion_detail(username, ip),
                        ),
                    ),
                ),
                rest,
            ) {
                Ask::Stop(stop) => Ask::Stop(stop),
                Ask::Got(_, rest) => Ask::Got(promoted(), rest),
            },
        },
        Ask::Got(_, rest) => Ask::Got(not_promoted(500, "role assignment failed"@), rest),
    }
}

fn make_promotion(
    cursor: &mut Replies<'_>,
    realm: &str,
    user_id: &str,
    role: RealmRole,
    username: &str,
    ip: &str,
) -> (r: Result<Outcome, Step>)
    ensures
        answers(
            r,
            final(cursor).rest(),
            promotion_made(realm@, user_id@, role.deep_view(), username@, ip@, old(cursor).rest()),
        ),
{
    match ask(
        cursor,
        Effect::Provider(
            ProviderCall::AssignRealmRole {
                realm: realm.to_string(),
                user_id: user_id.to_string(),
                role,
            },
        ),
    )? {
        Reply::Provider(ProviderAnswer::Done) => {
            let stamp = ask_stamp(cursor)?;
            let detail = "break-glass: promoted '".to_string().concat(username).concat(
                "' to admin from ",
            ).concat(ip);
            let entry = new_entry(
                stamp,
                "SYSTEM",
                "emergency_promote",
                realm,
                Some(username.to_string()),
                detail,
            );
            ask_any(cursor, Effect::Storage(StorageCall::AppendAudit(entry)))?;
            Ok(Outcome::Promotion(Promotion { status: 200, ok: true, error: None }))
        },
        _ => Ok(refuse(500, "role assignment failed")),
    }
}

/// The admin role is looked up and assigned to a user.
pub open spec fn role_promoted(
    config: ConfigModel,
    realm: Seq<char>,
    target: UserModel,
    username: Seq<char>,
    ip: Seq<char>,
    replies: Seq<ReplyModel>,
) -> Asked<OutcomeModel> {
    match asked(EffectModel::Provider(ProviderCallModel::ListRealmRoles { realm }), replies) {
        Ask::Stop(stop) => Ask::Stop(stop),
        Ask::Got(ReplyModel::Provider(ProviderAnswerModel::Roles(roles)), rest) => match first_where(
            roles,
            |role: RoleModel| role.name == config.role_admin,
        ) {
            Some(role) => promotion_made(realm, target.id, role, username, ip, rest),
            None => Ask::Got(not_promoted(500, "admin role not found"@), rest),
        },
        Ask::Got(_, rest) => Ask::Got(not_promoted(500, "role lookup failed"@), rest),
    }
}

/// The user is looked up and promoted.
pub open spec fn user_promoted(
    config: ConfigModel,
    realm: Seq<char>,
    username: Seq<char>,
    ip: Seq<char>,
    replies: Seq<ReplyModel>,
) -> Asked<OutcomeModel> {
    match asked(
        EffectModel::Provider(
            ProviderCallModel::ListUsers { realm, query: users_like(Some(username), 100) },
        ),
        replies,
    ) {
        Ask::Stop(stop) => Ask::Stop(stop),
        Ask::Got(ReplyModel::Provider(ProviderAnswerModel::Users(users)), rest) => match user_named(
            users,
            username,
        ) {
            Some(target) => role_promoted(config, realm, target, username, ip, rest),
            None => Ask::Got(not_promoted(404, "user not found"@), rest),
        },
        Ask::Got(_, rest) => Ask::Got(not_promoted(500, "user lookup failed"@), rest),
    }
}

/// A user is promoted for whoever knows the token. Without a token in the settings there is
/// no promotion, and an address that tries too often is turned away before its token is read.
#[verifier::opaque]
pub open spec fn emergency_promoted(
    config: ConfigModel,
    ip: Seq<char>,
    body: PromoteBodyModel,
    replies: Seq<ReplyModel>,
) -> Asked<OutcomeModel> {
    match config.emergency_token {
        None => Ask::Got(not_promoted(403, "disabled"@), replies),
        Some(expected) => match attempt_counted(ip, replies) {
            Ask::Stop(stop) => Ask::Stop(stop),
            Ask::Got(None, rest) => Ask::Got(not_promoted(500, "rate limit check failed"@), rest),
            Ask::Got(Some(attempts), rest) => if attempts > ATTEMPT_LIMIT {
                Ask::Got(not_promoted(403, "rate limited"@), rest)
            } else if body.token != expected {
                Ask::Got(not_promoted(403, "forbidden"@), rest)
            } else {
                user_promoted(config, issuer_realm(config), body.username, ip, rest)
            },
        },
    }
}

/// Makes a user an admin for whoever knows the token.
pub fn emergency_promote(
    cursor: &mut Replies<'_>,
    config: &Config,
    ip: &str,
    body: &PromoteBody,
) -> (r: Result<Outcome, Step>)
    ensures
        answers(
            r,
            final(cursor).rest(),
            emergency_promoted(config.deep_view(), ip@, body.deep_view(), old(cursor).rest()),
        ),
{
    proof {
        reveal(emergency_promoted);
    }
    let expected = match &config.emergency_token {
        Some(token) => token,
        None => return Ok(refuse(403, "disabled")),
    };
    let attempts = match count_attempt(cursor, ip)? {
        Some(attempts) => attempts,
        None => return Ok(refuse(500, "rate limit check failed")),
    };
    if attempts > ATTEMPT_LIMIT {
        return Ok(refuse(403, "rate limited"));
    }
    if !csrf_tokens_equal(body.token.as_str(), expected.as_str()) {
        return Ok(refuse(403, "forbidden"));
    }
    let realm = realm_of_issuer(config);
    let username = body.username.as_str();
    let users = match ask(
        cursor,
        Effect::Provider(
            ProviderCall::ListUsers {
                realm: realm.clone(),
                query: ListUsersQuery::new().search(body.username.clone()),
            },
        ),
    )? {
        Reply::Provider(ProviderAnswer::Users(users)) => users,
        _ => return Ok(refuse(500, "user lookup failed")),
    };
    let target = match find_user_named(users, username) {
        Some(user) => user,
        None => return Ok(refuse(404, "user not found")),
    };
    let roles = match ask(
        cursor,
        Effect::Provider(ProviderCall::ListRealmRoles { realm: realm.clone() }),
    )? {
        Reply::Provider(ProviderAnswer::Roles(roles)) => roles,
        _ => return Ok(refuse(500, "role lookup failed")),
    };
    let role = match find_role_named(roles, config.role_admin.as_str()) {
        Some(role) => role.clone(),
        None => return Ok(refuse(500, "admin role not found")),
    };
    make_promotion(cursor, realm.as_str(), target.id.as_str(), role, username, ip)
}

} // verus!
