//! The account of the signed-in user.

use crate::asks::{ask_groups, ask_roles, groups_asked, roles_asked};
use crate::config::{Config, ConfigModel};
use crate::effects::{Asked, Outcome, OutcomeModel, Replies, ReplyModel, Step};
use crate::pages::{Page, PageModel, ProfilePage, ProfilePageModel};
use crate::provider::{ProviderCall, ProviderCallModel};
use crate::routes::{ask_badge, badge_asked, frame, framed, require_session, session_required};
use crate::routes::admin::{ask_user_by_name, user_by_name_asked};
use crate::routes::emergency::{issuer_realm, realm_of_issuer};
use crate::script::{answers, Ask};
use crate::session::SessionUserModel;
use vstd::prelude::*;

verus! {

/// The account of a user is looked up by name and shown.
pub open spec fn account_shown(
    user: SessionUserModel,
    realm: Seq<char>,
    replies: Seq<ReplyModel>,
) -> Asked<OutcomeModel> {
    match user_by_name_asked(realm, user.username, replies) {
        Ask::Stop(stop) => Ask::Stop(stop),
        Ask::Got(subject, rest) => match roles_asked(
            ProviderCallModel::GetUserRealmRoles { realm, user_id: subject.id },
            rest,
        ) {
            Ask::Stop(stop) => Ask::Stop(stop),
            Ask::Got(roles, rest) => match groups_asked(
                ProviderCallModel::GetUserGroups { realm, user_id: subject.id },
                rest,
            ) {
                Ask::Stop(stop) => Ask::Stop(stop),
                Ask::Got(groups, rest) => match badge_asked(user, rest) {
                    Ask::Stop(stop) => Ask::Stop(stop),
                    Ask::Got(pending, rest) => Ask::Got(
                        OutcomeModel::Page(
                            PageModel::Profile(
                                ProfilePageModel {
                                    frame: framed(user, "profile"@, Some(pending)),
                                    subject,
                                    roles,
                                    groups,
                                    realm,
                                },
                            ),
                        ),
                        rest,
                    ),
                },
            },
        },
    }
}

/// The signed-in user sees their own account.
#[verifier::opaque]
pub open spec fn profile_shown(config: ConfigModel, replies: Seq<ReplyModel>) -> Asked<
    OutcomeModel,
> {
    match session_required(config, replies) {
        Ask::Stop(stop) => Ask::Stop(stop),
        Ask::Got(user, rest) => account_shown(user, issuer_realm(config), rest),
    }
}

/// Shows the account of the signed-in user.
pub fn show_profile(cursor: &mut Replies<'_>, config: &Config) -> (r: Result<Outcome, Step>)
    ensures
        answers(r, final(cursor).rest(), profile_shown(config.deep_view(), old(cursor).rest())),
{
    proof {
        reveal(profile_shown);
    }
    let user = require_session(cursor, config)?;
    let realm = realm_of_issuer(config);
    let subject = ask_user_by_name(cursor, realm.as_str(), user.username.as_str())?;
    let roles = ask_roles(
        cursor,
        ProviderCall::GetUserRealmRoles { realm: realm.clone(), user_id: subject.id.clone() },
    )?;
    let groups = ask_groups(
        cursor,
        ProviderCall::GetUserGroups { realm: realm.clone(), user_id: subject.id.clone() },
    )?;
    let pending = ask_badge(cursor, &user)?;
    Ok(
        Outcome::Page(
            Page::Profile(
                ProfilePage {
                    frame: frame(user, "profile", Some(pending)),
                    subject,
                    roles,
                    groups,
                    realm,
                },
            ),
        ),
    )
}

} // verus!
