//! What the pages show.

use crate::provider::{
    AppClient, AppClientModel, Group, GroupModel, Realm, RealmModel, Role, RoleModel, User,
    UserModel,
};
use crate::session::{Flash, FlashModel, SessionUser, SessionUserModel};
use crate::storage::{AuditEntry, AuditEntryModel, PendingChange, PendingChangeModel};
use crate::text::same;
use vstd::prelude::*;

verus! {

/// What every page of a signed-in user shows.
#[derive(Debug, PartialEq)]
pub struct Frame {
    pub user: SessionUser,
    pub is_admin: bool,
    pub active_tab: String,
    /// The number of changes that wait for an admin, on the pages that show it.
    pub pending_count: Option<usize>,
}

/// What a [`Frame`] stands for in contracts.
#[verifier::ext_equal]
pub struct FrameModel {
    pub user: SessionUserModel,
    pub is_admin: bool,
    pub active_tab: Seq<char>,
    pub pending_count: Option<usize>,
}

impl DeepView for Frame {
    type V = FrameModel;

    open spec fn deep_view(&self) -> FrameModel {
        FrameModel {
            user: self.user.deep_view(),
            is_admin: self.is_admin,
            active_tab: self.active_tab.deep_view(),
            pending_count: self.pending_count,
        }
    }
}

impl Clone for Frame {
    fn clone(&self) -> (r: Self)
        ensures
            r.deep_view() == self.deep_view(),
    {
        Frame {
            user: self.user.clone(),
            is_admin: self.is_admin,
            active_tab: self.active_tab.clone(),
            pending_count: self.pending_count,
        }
    }
}

/// A user, with the realm that the account is in.
#[derive(Debug, PartialEq)]
pub struct RealmUser {
    pub user: User,
    pub realm: String,
}

/// What a [`RealmUser`] stands for in contracts.
#[verifier::ext_equal]
pub struct RealmUserModel {
    pub user: UserModel,
    pub realm: Seq<char>,
}

impl DeepView for RealmUser {
    type V = RealmUserModel;

    open spec fn deep_view(&self) -> RealmUserModel {
        RealmUserModel {
            user: self.user.deep_view(),
            realm: self.realm.deep_view(),
        }
    }
}

impl Clone for RealmUser {
    fn clone(&self) -> (r: Self)
        ensures
            r.deep_view() == self.deep_view(),
    {
        RealmUser {
            user: self.user.clone(),
            realm: self.realm.clone(),
        }
    }
}

/// The list of users.
#[derive(Debug, PartialEq)]
pub struct UsersPage {
    pub frame: Frame,
    pub realms: Vec<Realm>,
    pub current_realm: String,
    pub users: Vec<RealmUser>,
    pub team_groups: Vec<Group>,
    pub search: Option<String>,
    pub csrf: String,
}

/// What a [`UsersPage`] stands for in contracts.
#[verifier::ext_equal]
pub struct UsersPageModel {
    pub frame: FrameModel,
    pub realms: Seq<RealmModel>,
    pub current_realm: Seq<char>,
    pub users: Seq<RealmUserModel>,
    pub team_groups: Seq<GroupModel>,
    pub search: Option<Seq<char>>,
    pub csrf: Seq<char>,
}

impl DeepView for UsersPage {
    type V = UsersPageModel;

    open spec fn deep_view(&self) -> UsersPageModel {
        UsersPageModel {
            frame: self.frame.deep_view(),
            realms: self.realms.deep_view(),
            current_realm: self.current_realm.deep_view(),
            users: self.users.deep_view(),
            team_groups: self.team_groups.deep_view(),
            search: self.search.deep_view(),
            csrf: self.csrf.deep_view(),
        }
    }
}

impl Clone for UsersPage {
    fn clone(&self) -> (r: Self)
        ensures
            r.deep_view() == self.deep_view(),
    {
        let r = UsersPage {
            frame: self.frame.clone(),
            realms: self.realms.clone(),
            current_realm: self.current_realm.clone(),
            users: self.users.clone(),
            team_groups: self.team_groups.clone(),
            search: self.search.clone(),
            csrf: self.csrf.clone(),
        };
        assert(r.realms.deep_view() =~= self.realms.deep_view());
        assert(r.users.deep_view() =~= self.users.deep_view());
        assert(r.team_groups.deep_view() =~= self.team_groups.deep_view());
        r
    }
}

/// One user.
#[derive(Debug, PartialEq)]
pub struct UserPage {
    pub frame: Frame,
    pub realm: String,
    pub subject: User,
    pub groups: Vec<Group>,
    pub roles: Vec<Role>,
    pub all_groups: Vec<Group>,
    pub available_roles: Vec<Role>,
    pub pending: Vec<PendingChange>,
    pub team_groups: Vec<Group>,
    pub current_team_group_id: Option<String>,
    pub csrf: String,
    pub flash: Option<Flash>,
}

/// What a [`UserPage`] stands for in contracts.
#[verifier::ext_equal]
pub struct UserPageModel {
    pub frame: FrameModel,
    pub realm: Seq<char>,
    pub subject: UserModel,
    pub groups: Seq<GroupModel>,
    pub roles: Seq<RoleModel>,
    pub all_groups: Seq<GroupModel>,
    pub available_roles: Seq<RoleModel>,
    pub pending: Seq<PendingChangeModel>,
    pub team_groups: Seq<GroupModel>,
    pub current_team_group_id: Option<Seq<char>>,
    pub csrf: Seq<char>,
    pub flash: Option<FlashModel>,
}

impl DeepView for UserPage {
    type V = UserPageModel;

    open spec fn deep_view(&self) -> UserPageModel {
        UserPageModel {
            frame: self.frame.deep_view(),
            realm: self.realm.deep_view(),
            subject: self.subject.deep_view(),
            groups: self.groups.deep_view(),
            roles: self.roles.deep_view(),
            all_groups: self.all_groups.deep_view(),
            available_roles: self.available_roles.deep_view(),
            pending: self.pending.deep_view(),
            team_groups: self.team_groups.deep_view(),
            current_team_group_id: self.current_team_group_id.deep_view(),
            csrf: self.csrf.deep_view(),
            flash: self.flash.deep_view(),
        }
    }
}

impl Clone for UserPage {
    fn clone(&self) -> (r: Self)
        ensures
            r.deep_view() == self.deep_view(),
    {
        let r = UserPage {
            frame: self.frame.clone(),
            realm: self.realm.clone(),
            subject: self.subject.clone(),
            groups: self.groups.clone(),
            roles: self.roles.clone(),
            all_groups: self.all_groups.clone(),
            available_roles: self.available_roles.clone(),
            pending: self.pending.clone(),
            team_groups: self.team_groups.clone(),
            current_team_group_id: self.current_team_group_id.clone(),
            csrf: self.csrf.clone(),
            flash: self.flash.clone(),
        };
        assert(r.groups.deep_view() =~= self.groups.deep_view());
        assert(r.roles.deep_view() =~= self.roles.deep_view());
        assert(r.all_groups.deep_view() =~= self.all_groups.deep_view());
        assert(r.available_roles.deep_view() =~= self.available_roles.deep_view());
        assert(r.pending.deep_view() =~= self.pending.deep_view());
        assert(r.team_groups.deep_view() =~= self.team_groups.deep_view());
        r
    }
}

/// The form for a new user.
#[derive(Debug, PartialEq)]
pub struct NewUserPage {
    pub frame: Frame,
    pub realms: Vec<Realm>,
    pub current_realm: String,
    pub team_groups: Vec<Group>,
    pub csrf: String,
}

/// What a [`NewUserPage`] stands for in contracts.
#[verifier::ext_equal]
pub struct NewUserPageModel {
    pub frame: FrameModel,
    pub realms: Seq<RealmModel>,
    pub current_realm: Seq<char>,
    pub team_groups: Seq<GroupModel>,
    pub csrf: Seq<char>,
}

impl DeepView for NewUserPage {
    type V = NewUserPageModel;

    open spec fn deep_view(&self) -> NewUserPageModel {
        NewUserPageModel {
            frame: self.frame.deep_view(),
            realms: self.realms.deep_view(),
            current_realm: self.current_realm.deep_view(),
            team_groups: self.team_groups.deep_view(),
            csrf: self.csrf.deep_view(),
        }
    }
}

impl Clone for NewUserPage {
    fn clone(&self) -> (r: Self)
        ensures
            r.deep_view() == self.deep_view(),
    {
        let r = NewUserPage {
            frame: self.frame.clone(),
            realms: self.realms.clone(),
            current_realm: self.current_realm.clone(),
            team_groups: self.team_groups.clone(),
            csrf: self.csrf.clone(),
        };
        assert(r.realms.deep_view() =~= self.realms.deep_view());
        assert(r.team_groups.deep_view() =~= self.team_groups.deep_view());
        r
    }
}

/// A change, with the realm roles that the team in it grants.
#[derive(Debug, PartialEq)]
pub struct ChangeView {
    pub change: PendingChange,
    pub team_grants: Option<Vec<String>>,
}

/// What a [`ChangeView`] stands for in contracts.
#[verifier::ext_equal]
pub struct ChangeViewModel {
    pub change: PendingChangeModel,
    pub team_grants: Option<Seq<Seq<char>>>,
}

impl DeepView for ChangeView {
    type V = ChangeViewModel;

    open spec fn deep_view(&self) -> ChangeViewModel {
        ChangeViewModel {
            change: self.change.deep_view(),
            team_grants: self.team_grants.deep_view(),
        }
    }
}

impl Clone for ChangeView {
    fn clone(&self) -> (r: Self)
        ensures
            r.deep_view() == self.deep_view(),
    {
        let r = ChangeView {
            change: self.change.clone(),
            team_grants: self.team_grants.clone(),
        };
        assert(r.team_grants.deep_view() =~= self.team_grants.deep_view());
        r
    }
}

/// The queue of changes, and what became of earlier ones.
#[derive(Debug, PartialEq)]
pub struct ChangesPage {
    pub frame: Frame,
    pub changes: Vec<ChangeView>,
    pub unseen_resolved_count: usize,
    pub page: usize,
    pub total_pages: usize,
    pub csrf: String,
    pub flash: Option<Flash>,
}

/// What a [`ChangesPage`] stands for in contracts.
#[verifier::ext_equal]
pub struct ChangesPageModel {
    pub frame: FrameModel,
    pub changes: Seq<ChangeViewModel>,
    pub unseen_resolved_count: usize,
    pub page: usize,
    pub total_pages: usize,
    pub csrf: Seq<char>,
    pub flash: Option<FlashModel>,
}

impl DeepView for ChangesPage {
    type V = ChangesPageModel;

    open spec fn deep_view(&self) -> ChangesPageModel {
        ChangesPageModel {
            frame: self.frame.deep_view(),
            changes: self.changes.deep_view(),
            unseen_resolved_count: self.unseen_resolved_count,
            page: self.page,
            total_pages: self.total_pages,
            csrf: self.csrf.deep_view(),
            flash: self.flash.deep_view(),
        }
    }
}

impl Clone for ChangesPage {
    fn clone(&self) -> (r: Self)
        ensures
            r.deep_view() == self.deep_view(),
    {
        let r = ChangesPage {
            frame: self.frame.clone(),
            changes: self.changes.clone(),
            unseen_resolved_count: self.unseen_resolved_count,
            page: self.page,
            total_pages: self.total_pages,
            csrf: self.csrf.clone(),
            flash: self.flash.clone(),
        };
        assert(r.changes.deep_view() =~= self.changes.deep_view());
        r
    }
}

/// The list of clients.
#[derive(Debug, PartialEq)]
pub struct ClientsPage {
    pub frame: Frame,
    pub realms: Vec<Realm>,
    pub current_realm: String,
    pub clients: Vec<AppClient>,
    pub flash: Option<Flash>,
}

/// What a [`ClientsPage`] stands for in contracts.
#[verifier::ext_equal]
pub struct ClientsPageModel {
    pub frame: FrameModel,
    pub realms: Seq<RealmModel>,
    pub current_realm: Seq<char>,
    pub clients: Seq<AppClientModel>,
    pub flash: Option<FlashModel>,
}

impl DeepView for ClientsPage {
    type V = ClientsPageModel;

    open spec fn deep_view(&self) -> ClientsPageModel {
        ClientsPageModel {
            frame: self.frame.deep_view(),
            realms: self.realms.deep_view(),
            current_realm: self.current_realm.deep_view(),
            clients: self.clients.deep_view(),
            flash: self.flash.deep_view(),
        }
    }
}

impl Clone for ClientsPage {
    fn clone(&self) -> (r: Self)
        ensures
            r.deep_view() == self.deep_view(),
    {
        let r = ClientsPage {
            frame: self.frame.clone(),
            realms: self.realms.clone(),
            current_realm: self.current_realm.clone(),
            clients: self.clients.clone(),
            flash: self.flash.clone(),
        };
        assert(r.realms.deep_view() =~= self.realms.deep_view());
        assert(r.clients.deep_view() =~= self.clients.deep_view());
        r
    }
}

/// One client.
#[derive(Debug, PartialEq)]
pub struct ClientPage {
    pub frame: Frame,
    pub realm: String,
    pub client: AppClient,
    pub csrf: String,
    pub flash: Option<Flash>,
}

/// What a [`ClientPage`] stands for in contracts.
#[verifier::ext_equal]
pub struct ClientPageModel {
    pub frame: FrameModel,
    pub realm: Seq<char>,
    pub client: AppClientModel,
    pub csrf: Seq<char>,
    pub flash: Option<FlashModel>,
}

impl DeepView for ClientPage {
    type V = ClientPageModel;

    open spec fn deep_view(&self) -> ClientPageModel {
        ClientPageModel {
            frame: self.frame.deep_view(),
            realm: self.realm.deep_view(),
            client: self.client.deep_view(),
            csrf: self.csrf.deep_view(),
            flash: self.flash.deep_view(),
        }
    }
}

impl Clone for ClientPage {
    fn clone(&self) -> (r: Self)
        ensures
            r.deep_view() == self.deep_view(),
    {
        ClientPage {
            frame: self.frame.clone(),
            realm: self.realm.clone(),
            client: self.client.clone(),
            csrf: self.csrf.clone(),
            flash: self.flash.clone(),
        }
    }
}

/// The account of the signed-in user.
#[derive(Debug, PartialEq)]
pub struct ProfilePage {
    pub frame: Frame,
    pub subject: User,
    pub roles: Vec<Role>,
    pub groups: Vec<Group>,
    pub realm: String,
}

/// What a [`ProfilePage`] stands for in contracts.
#[verifier::ext_equal]
pub struct ProfilePageModel {
    pub frame: FrameModel,
    pub subject: UserModel,
    pub roles: Seq<RoleModel>,
    pub groups: Seq<GroupModel>,
    pub realm: Seq<char>,
}

impl DeepView for ProfilePage {
    type V = ProfilePageModel;

    open spec fn deep_view(&self) -> ProfilePageModel {
        ProfilePageModel {
            frame: self.frame.deep_view(),
            subject: self.subject.deep_view(),
            roles: self.roles.deep_view(),
            groups: self.groups.deep_view(),
            realm: self.realm.deep_view(),
        }
    }
}

impl Clone for ProfilePage {
    fn clone(&self) -> (r: Self)
        ensures
            r.deep_view() == self.deep_view(),
    {
        let r = ProfilePage {
            frame: self.frame.clone(),
            subject: self.subject.clone(),
            roles: self.roles.clone(),
            groups: self.groups.clone(),
            realm: self.realm.clone(),
        };
        assert(r.roles.deep_view() =~= self.roles.deep_view());
        assert(r.groups.deep_view() =~= self.groups.deep_view());
        r
    }
}

/// The audit log of one day.
#[derive(Debug, PartialEq)]
pub struct AuditPage {
    pub frame: Frame,
    pub entries: Vec<AuditEntry>,
    pub selected_date: String,
}

/// What a [`AuditPage`] stands for in contracts.
#[verifier::ext_equal]
pub struct AuditPageModel {
    pub frame: FrameModel,
    pub entries: Seq<AuditEntryModel>,
    pub selected_date: Seq<char>,
}

impl DeepView for AuditPage {
    type V = AuditPageModel;

    open spec fn deep_view(&self) -> AuditPageModel {
        AuditPageModel {
            frame: self.frame.deep_view(),
            entries: self.entries.deep_view(),
            selected_date: self.selected_date.deep_view(),
        }
    }
}

impl Clone for AuditPage {
    fn clone(&self) -> (r: Self)
        ensures
            r.deep_view() == self.deep_view(),
    {
        let r = AuditPage {
            frame: self.frame.clone(),
            entries: self.entries.clone(),
            selected_date: self.selected_date.clone(),
        };
        assert(r.entries.deep_view() =~= self.entries.deep_view());
        r
    }
}

/// A user whose account looks unfinished or inconsistent.
#[derive(Debug, PartialEq)]
pub struct AttentionUser {
    pub id: String,
    pub realm: String,
    pub username: String,
    pub full_name: String,
    pub reason: String,
}

/// What a [`AttentionUser`] stands for in contracts.
#[verifier::ext_equal]
pub struct AttentionUserModel {
    pub id: Seq<char>,
    pub realm: Seq<char>,
    pub username: Seq<char>,
    pub full_name: Seq<char>,
    pub reason: Seq<char>,
}

impl DeepView for AttentionUser {
    type V = AttentionUserModel;

    open spec fn deep_view(&self) -> AttentionUserModel {
        AttentionUserModel {
            id: self.id.deep_view(),
            realm: self.realm.deep_view(),
            username: self.username.deep_view(),
            full_name: self.full_name.deep_view(),
            reason: self.reason.deep_view(),
        }
    }
}

impl Clone for AttentionUser {
    fn clone(&self) -> (r: Self)
        ensures
            r.deep_view() == self.deep_view(),
    {
        AttentionUser {
            id: self.id.clone(),
            realm: self.realm.clone(),
            username: self.username.clone(),
            full_name: self.full_name.clone(),
            reason: self.reason.clone(),
        }
    }
}

/// A team and the number of its members.
#[derive(Debug, PartialEq)]
pub struct TeamCount {
    pub name: String,
    pub count: usize,
}

/// What a [`TeamCount`] stands for in contracts.
#[verifier::ext_equal]
pub struct TeamCountModel {
    pub name: Seq<char>,
    pub count: usize,
}

impl DeepView for TeamCount {
    type V = TeamCountModel;

    open spec fn deep_view(&self) -> TeamCountModel {
        TeamCountModel {
            name: self.name.deep_view(),
            count: self.count,
        }
    }
}

impl Clone for TeamCount {
    fn clone(&self) -> (r: Self)
        ensures
            r.deep_view() == self.deep_view(),
    {
        TeamCount {
            name: self.name.clone(),
            count: self.count,
        }
    }
}

/// The overview.
#[derive(Debug, PartialEq)]
pub struct DashboardPage {
    pub frame: Frame,
    pub realm: String,
    pub total_users: usize,
    pub active_users: usize,
    pub disabled_users: usize,
    pub attention: Vec<AttentionUser>,
    pub attention_total: usize,
    pub teams: Vec<TeamCount>,
    pub req_pending: usize,
    pub req_approved: usize,
    pub req_rejected: usize,
    pub recent_audit: Vec<AuditEntry>,
}

/// What a [`DashboardPage`] stands for in contracts.
#[verifier::ext_equal]
pub struct DashboardPageModel {
    pub frame: FrameModel,
    pub realm: Seq<char>,
    pub total_users: usize,
    pub active_users: usize,
    pub disabled_users: usize,
    pub attention: Seq<AttentionUserModel>,
    pub attention_total: usize,
    pub teams: Seq<TeamCountModel>,
    pub req_pending: usize,
    pub req_approved: usize,
    pub req_rejected: usize,
    pub recent_audit: Seq<AuditEntryModel>,
}

impl DeepView for DashboardPage {
    type V = DashboardPageModel;

    open spec fn deep_view(&self) -> DashboardPageModel {
        DashboardPageModel {
            frame: self.frame.deep_view(),
            realm: self.realm.deep_view(),
            total_users: self.total_users,
            active_users: self.active_users,
            disabled_users: self.disabled_users,
            attention: self.attention.deep_view(),
            attention_total: self.attention_total,
            teams: self.teams.deep_view(),
            req_pending: self.req_pending,
            req_approved: self.req_approved,
            req_rejected: self.req_rejected,
            recent_audit: self.recent_audit.deep_view(),
        }
    }
}

impl Clone for DashboardPage {
    fn clone(&self) -> (r: Self)
        ensures
            r.deep_view() == self.deep_view(),
    {
        let r = DashboardPage {
            frame: self.frame.clone(),
            realm: self.realm.clone(),
            total_users: self.total_users,
            active_users: self.active_users,
            disabled_users: self.disabled_users,
            attention: self.attention.clone(),
            attention_total: self.attention_total,
            teams: self.teams.clone(),
            req_pending: self.req_pending,
            req_approved: self.req_approved,
            req_rejected: self.req_rejected,
            recent_audit: self.recent_audit.clone(),
        };
        assert(r.attention.deep_view() =~= self.attention.deep_view());
        assert(r.teams.deep_view() =~= self.teams.deep_view());
        assert(r.recent_audit.deep_view() =~= self.recent_audit.deep_view());
        r
    }
}

/// A user who may use the portal, and as what.
#[derive(Debug, PartialEq)]
pub struct AccessUser {
    pub id: String,
    pub username: String,
    pub full_name: String,
    pub email: Option<String>,
    pub role: String,
    pub realm: String,
}

/// What a [`AccessUser`] stands for in contracts.
#[verifier::ext_equal]
pub struct AccessUserModel {
    pub id: Seq<char>,
    pub username: Seq<char>,
    pub full_name: Seq<char>,
    pub email: Option<Seq<char>>,
    pub role: Seq<char>,
    pub realm: Seq<char>,
}

impl DeepView for AccessUser {
    type V = AccessUserModel;

    open spec fn deep_view(&self) -> AccessUserModel {
        AccessUserModel {
            id: self.id.deep_view(),
            username: self.username.deep_view(),
            full_name: self.full_name.deep_view(),
            email: self.email.deep_view(),
            role: self.role.deep_view(),
            realm: self.realm.deep_view(),
        }
    }
}

impl Clone for AccessUser {
    fn clone(&self) -> (r: Self)
        ensures
            r.deep_view() == self.deep_view(),
    {
        AccessUser {
            id: self.id.clone(),
            username: self.username.clone(),
            full_name: self.full_name.clone(),
            email: self.email.clone(),
            role: self.role.clone(),
            realm: self.realm.clone(),
        }
    }
}

/// Who may use the portal, and what was done with it.
#[derive(Debug, PartialEq)]
pub struct AdminPage {
    pub frame: Frame,
    pub realms: Vec<Realm>,
    pub current_realm: String,
    pub access_users: Vec<AccessUser>,
    pub admin_role: String,
    pub op_role: String,
    pub audit: Vec<AuditEntry>,
    pub log_date: String,
    pub today: String,
    pub csrf: String,
    pub flash: Option<Flash>,
}

/// What a [`AdminPage`] stands for in contracts.
#[verifier::ext_equal]
pub struct AdminPageModel {
    pub frame: FrameModel,
    pub realms: Seq<RealmModel>,
    pub current_realm: Seq<char>,
    pub access_users: Seq<AccessUserModel>,
    pub admin_role: Seq<char>,
    pub op_role: Seq<char>,
    pub audit: Seq<AuditEntryModel>,
    pub log_date: Seq<char>,
    pub today: Seq<char>,
    pub csrf: Seq<char>,
    pub flash: Option<FlashModel>,
}

impl DeepView for AdminPage {
    type V = AdminPageModel;

    open spec fn deep_view(&self) -> AdminPageModel {
        AdminPageModel {
            frame: self.frame.deep_view(),
            realms: self.realms.deep_view(),
            current_realm: self.current_realm.deep_view(),
            access_users: self.access_users.deep_view(),
            admin_role: self.admin_role.deep_view(),
            op_role: self.op_role.deep_view(),
            audit: self.audit.deep_view(),
            log_date: self.log_date.deep_view(),
            today: self.today.deep_view(),
            csrf: self.csrf.deep_view(),
            flash: self.flash.deep_view(),
        }
    }
}

impl Clone for AdminPage {
    fn clone(&self) -> (r: Self)
        ensures
            r.deep_view() == self.deep_view(),
    {
        let r = AdminPage {
            frame: self.frame.clone(),
            realms: self.realms.clone(),
            current_realm: self.current_realm.clone(),
            access_users: self.access_users.clone(),
            admin_role: self.admin_role.clone(),
            op_role: self.op_role.clone(),
            audit: self.audit.clone(),
            log_date: self.log_date.clone(),
            today: self.today.clone(),
            csrf: self.csrf.clone(),
            flash: self.flash.clone(),
        };
        assert(r.realms.deep_view() =~= self.realms.deep_view());
        assert(r.access_users.deep_view() =~= self.access_users.deep_view());
        assert(r.audit.deep_view() =~= self.audit.deep_view());
        r
    }
}

/// A user whose name is like one that was typed.
#[derive(Debug, PartialEq)]
pub struct SimilarUser {
    pub id: String,
    pub realm: String,
    pub username: String,
    pub full_name: String,
}

/// What a [`SimilarUser`] stands for in contracts.
#[verifier::ext_equal]
pub struct SimilarUserModel {
    pub id: Seq<char>,
    pub realm: Seq<char>,
    pub username: Seq<char>,
    pub full_name: Seq<char>,
}

impl DeepView for SimilarUser {
    type V = SimilarUserModel;

    open spec fn deep_view(&self) -> SimilarUserModel {
        SimilarUserModel {
            id: self.id.deep_view(),
            realm: self.realm.deep_view(),
            username: self.username.deep_view(),
            full_name: self.full_name.deep_view(),
        }
    }
}

impl Clone for SimilarUser {
    fn clone(&self) -> (r: Self)
        ensures
            r.deep_view() == self.deep_view(),
    {
        SimilarUser {
            id: self.id.clone(),
            realm: self.realm.clone(),
            username: self.username.clone(),
            full_name: self.full_name.clone(),
        }
    }
}

/// A page and what it shows.
#[derive(Debug, PartialEq)]
pub enum Page {
    Login { realm: String },
    Users(UsersPage),
    User(UserPage),
    NewUser(NewUserPage),
    Changes(ChangesPage),
    Clients(ClientsPage),
    Client(ClientPage),
    Profile(ProfilePage),
    Audit(AuditPage),
    Dashboard(DashboardPage),
    Admin(AdminPage),
}

/// What a [`Page`] stands for in contracts.
#[verifier::ext_equal]
pub enum PageModel {
    Login { realm: Seq<char> },
    Users(UsersPageModel),
    User(UserPageModel),
    NewUser(NewUserPageModel),
    Changes(ChangesPageModel),
    Clients(ClientsPageModel),
    Client(ClientPageModel),
    Profile(ProfilePageModel),
    Audit(AuditPageModel),
    Dashboard(DashboardPageModel),
    Admin(AdminPageModel),
}

impl DeepView for Page {
    type V = PageModel;

    open spec fn deep_view(&self) -> PageModel {
        match self {
            Page::Login { realm } => PageModel::Login { realm: realm.deep_view() },
            Page::Users(v) => PageModel::Users(v.deep_view()),
            Page::User(v) => PageModel::User(v.deep_view()),
            Page::NewUser(v) => PageModel::NewUser(v.deep_view()),
            Page::Changes(v) => PageModel::Changes(v.deep_view()),
            Page::Clients(v) => PageModel::Clients(v.deep_view()),
            Page::Client(v) => PageModel::Client(v.deep_view()),
            Page::Profile(v) => PageModel::Profile(v.deep_view()),
            Page::Audit(v) => PageModel::Audit(v.deep_view()),
            Page::Dashboard(v) => PageModel::Dashboard(v.deep_view()),
            Page::Admin(v) => PageModel::Admin(v.deep_view()),
        }
    }
}

impl Clone for Page {
    fn clone(&self) -> (r: Self)
        ensures
            r.deep_view() == self.deep_view(),
    {
        match self {
            Page::Login { realm } => Page::Login { realm: realm.clone() },
            Page::Users(v) => Page::Users(v.clone()),
            Page::User(v) => Page::User(v.clone()),
            Page::NewUser(v) => Page::NewUser(v.clone()),
            Page::Changes(v) => Page::Changes(v.clone()),
            Page::Clients(v) => Page::Clients(v.clone()),
            Page::Client(v) => Page::Client(v.clone()),
            Page::Profile(v) => Page::Profile(v.clone()),
            Page::Audit(v) => Page::Audit(v.clone()),
            Page::Dashboard(v) => Page::Dashboard(v.clone()),
            Page::Admin(v) => Page::Admin(v.clone()),
        }
    }
}

/// What the name of a changed field is shown as: the names are keys, and the page is read by
/// people who know none of them.
pub open spec fn shown_field(field: Seq<char>) -> Seq<char> {
    if field == "first_name"@ {
        "First name"@
    } else if field == "last_name"@ {
        "Last name"@
    } else if field == "email"@ {
        "Email"@
    } else if field == "enabled"@ {
        "Account enabled"@
    } else if field == "team"@ || field == "team_group_id"@ {
        "Team"@
    } else if field == "phone_number"@ {
        "Phone number"@
    } else if field == "personnel_code"@ {
        "Personnel code"@
    } else if field == "status_reason"@ {
        "Reason"@
    } else {
        field
    }
}

/// Labels a changed field.
pub fn humanize_field_filter(field: &str) -> (r: String)
    ensures
        r@ == shown_field(field@),
{
    if same(field, "first_name") {
        "First name".to_string()
    } else if same(field, "last_name") {
        "Last name".to_string()
    } else if same(field, "email") {
        "Email".to_string()
    } else if same(field, "enabled") {
        "Account enabled".to_string()
    } else if same(field, "team") || same(field, "team_group_id") {
        "Team".to_string()
    } else if same(field, "phone_number") {
        "Phone number".to_string()
    } else if same(field, "personnel_code") {
        "Personnel code".to_string()
    } else if same(field, "status_reason") {
        "Reason".to_string()
    } else {
        field.to_string()
    }
}

} // verus!
