//! Who is signed in, and the message shown on the next page.

use crate::text::same;
use crate::time::Timestamp;
use vstd::prelude::*;

verus! {

/// What a signed-in user may do.
#[derive(Clone, Copy, Debug, PartialEq, Eq, Structural)]
pub enum Role {
    Admin,
    Operator,
}

impl DeepView for Role {
    type V = Role;

    open spec fn deep_view(&self) -> Role {
        *self
    }
}

/// The role that a list of realm roles grants: admin where the admin role is among them,
/// else operator where the operator role is, else none.
pub open spec fn role_of(
    roles: Seq<Seq<char>>,
    admin_role: Seq<char>,
    operator_role: Seq<char>,
) -> Option<Role> {
    if roles.contains(admin_role) {
        Some(Role::Admin)
    } else if roles.contains(operator_role) {
        Some(Role::Operator)
    } else {
        None
    }
}

fn holds(roles: &[String], wanted: &str) -> (r: bool)
    ensures
        r == roles.deep_view().contains(wanted@),
{
    let mut i: usize = 0;
    while i < roles.len()
        invariant
            i <= roles@.len(),
            forall|j: int| 0 <= j < i ==> roles.deep_view()[j] != wanted@,
        decreases roles@.len() - i,
    {
        if same(roles[i].as_str(), wanted) {
            assert(roles.deep_view()[i as int] == wanted@);
            return true;
        }
        i = i + 1;
    }
    false
}

impl Role {
    /// The role that a list of realm roles grants.
    pub fn from_claims(roles: &[String], admin_role: &str, operator_role: &str) -> (r: Option<Role>)
        ensures
            r == role_of(roles.deep_view(), admin_role@, operator_role@),
    {
        if holds(roles, admin_role) {
            Some(Role::Admin)
        } else if holds(roles, operator_role) {
            Some(Role::Operator)
        } else {
            None
        }
    }

    /// Whether this is the admin role.
    pub fn is_admin(&self) -> (r: bool)
        ensures
            r == (*self == Role::Admin),
    {
        match self {
            Role::Admin => true,
            Role::Operator => false,
        }
    }
}

/// The user of a session.
#[derive(Debug, PartialEq)]
pub struct SessionUser {
    pub sub: String,
    pub username: String,
    pub email: Option<String>,
    pub role: Role,
    /// When this user last looked at the changes page.
    pub last_seen_changes_at: Option<Timestamp>,
}

/// What a [`SessionUser`] stands for in contracts.
#[verifier::ext_equal]
pub struct SessionUserModel {
    pub sub: Seq<char>,
    pub username: Seq<char>,
    pub email: Option<Seq<char>>,
    pub role: Role,
    pub last_seen_changes_at: Option<Timestamp>,
}

impl DeepView for SessionUser {
    type V = SessionUserModel;

    open spec fn deep_view(&self) -> SessionUserModel {
        SessionUserModel {
            sub: self.sub.deep_view(),
            username: self.username.deep_view(),
            email: self.email.deep_view(),
            role: self.role,
            last_seen_changes_at: self.last_seen_changes_at,
        }
    }
}

impl Clone for SessionUser {
    fn clone(&self) -> (r: Self)
        ensures
            r.deep_view() == self.deep_view(),
    {
        SessionUser {
            sub: self.sub.clone(),
            username: self.username.clone(),
            email: self.email.clone(),
            role: self.role,
            last_seen_changes_at: self.last_seen_changes_at,
        }
    }
}

/// The session key of the signed-in user.
pub const SESSION_KEY: &'static str = "user";

/// The session key of the message for the next page.
pub const FLASH_KEY: &'static str = "flash";

/// How a message is shown.
#[derive(Clone, Copy, Debug, PartialEq, Eq, Structural)]
pub enum FlashKind {
    Success,
    Error,
    Warning,
}

impl DeepView for FlashKind {
    type V = FlashKind;

    open spec fn deep_view(&self) -> FlashKind {
        *self
    }
}

/// A message for the next page.
#[derive(Debug, PartialEq)]
pub struct Flash {
    pub text: String,
    pub kind: FlashKind,
}

/// What a [`Flash`] stands for in contracts.
#[verifier::ext_equal]
pub struct FlashModel {
    pub text: Seq<char>,
    pub kind: FlashKind,
}

impl DeepView for Flash {
    type V = FlashModel;

    open spec fn deep_view(&self) -> FlashModel {
        FlashModel {
            text: self.text.deep_view(),
            kind: self.kind,
        }
    }
}

impl Clone for Flash {
    fn clone(&self) -> (r: Self)
        ensures
            r.deep_view() == self.deep_view(),
    {
        Flash {
            text: self.text.clone(),
            kind: self.kind,
        }
    }
}

impl Flash {
    /// A message that something was done.
    pub fn success(text: String) -> (r: Flash)
        ensures
            r.deep_view() == good_news(text@),
    {
        Flash { text, kind: FlashKind::Success }
    }

    /// A message that something was not, or not yet, done.
    pub fn warning(text: String) -> (r: Flash)
        ensures
            r.deep_view() == notice(text@),
    {
        Flash { text, kind: FlashKind::Warning }
    }
}

/// The model of a message of success.
pub open spec fn good_news(text: Seq<char>) -> FlashModel {
    FlashModel { text, kind: FlashKind::Success }
}

/// The model of a warning.
pub open spec fn notice(text: Seq<char>) -> FlashModel {
    FlashModel { text, kind: FlashKind::Warning }
}

} // verus!
