//! The applications of a realm.

use crate::asks::{
    ask_client, ask_clients, ask_flash, ask_form_token, ask_realms, ask_secret, client_asked,
    clients_asked, flash_asked, form_token_asked, realms_asked, secret_asked,
};
use crate::config::{Config, ConfigModel};
use crate::effects::{Asked, Outcome, OutcomeModel, Replies, ReplyModel, Step};
use crate::pages::{ClientPage, ClientPageModel, ClientsPage, ClientsPageModel, Page, PageModel};
use crate::provider::{
    ProviderCall, ProviderCallModel, RealmModel, UpdateAppClient, UpdateAppClientModel,
};
use crate::routes::{
    admin_form_checked, admin_required, check_admin_form, choose_realm, chosen_realm, frame, framed,
    require_admin,
};
use crate::routes::users::access::{change_recorded, record_change};
use crate::script::{answers, Ask};
use crate::session::{good_news, Flash, SessionUserModel};
use crate::text::{entries, entries_of, is_ticked, ticked};
use vstd::prelude::*;

verus! {

/// The realm whose clients are shown.
#[derive(Debug, PartialEq)]
pub struct RealmQuery {
    pub realm: Option<String>,
}

/// What a [`RealmQuery`] stands for in contracts.
#[verifier::ext_equal]
pub struct RealmQueryModel {
    pub realm: Option<Seq<char>>,
}

impl DeepView for RealmQuery {
    type V = RealmQueryModel;

    open spec fn deep_view(&self) -> RealmQueryModel {
        RealmQueryModel {
            realm: self.realm.deep_view(),
        }
    }
}

impl Clone for RealmQuery {
    fn clone(&self) -> (r: Self)
        ensures
            r.deep_view() == self.deep_view(),
    {
        RealmQuery {
            realm: self.realm.clone(),
        }
    }
}

/// The clients of a realm are shown.
pub open spec fn clients_shown(
    user: SessionUserModel,
    realms: Seq<RealmModel>,
    realm: Seq<char>,
    replies: Seq<ReplyModel>,
) -> Asked<OutcomeModel> {
    match clients_asked(ProviderCallModel::ListClients { realm }, replies) {
        Ask::Stop(stop) => Ask::Stop(stop),
        Ask::Got(clients, rest) => match flash_asked(rest) {
            Ask::Stop(stop) => Ask::Stop(stop),
            Ask::Got(flash, rest) => Ask::Got(
                OutcomeModel::Page(
                    PageModel::Clients(
                        ClientsPageModel {
                            frame: framed(user, "clients"@, None),
                            realms,
                            current_realm: realm,
                            clients,
                            flash,
                        },
                    ),
                ),
                rest,
            ),
        },
    }
}

/// An admin sees the clients of a realm.
#[verifier::opaque]
pub open spec fn clients_listed(
    config: ConfigModel,
    query: RealmQueryModel,
    replies: Seq<ReplyModel>,
) -> Asked<OutcomeModel> {
    match admin_required(config, replies) {
        Ask::Stop(stop) => Ask::Stop(stop),
        Ask::Got(user, rest) => match realms_asked(ProviderCallModel::ListRealms, rest) {
            Ask::Stop(stop) => Ask::Stop(stop),
            Ask::Got(realms, rest) => clients_shown(
                user,
                realms,
                chosen_realm(query.realm, realms),
                rest,
            ),
        },
    }
}

/// Lists the clients of a realm.
pub fn list_clients(cursor: &mut Replies<'_>, config: &Config, query: &RealmQuery) -> (r: Result<
    Outcome,
    Step,
>)
    ensures
        answers(
            r,
            final(cursor).rest(),
            clients_listed(config.deep_view(), query.deep_view(), old(cursor).rest()),
        ),
{
    proof {
        reveal(clients_listed);
    }
    let user = require_admin(cursor, config)?;
    let realms = ask_realms(cursor, ProviderCall::ListRealms)?;
    let realm = choose_realm(&query.realm, &realms);
    let clients = ask_clients(cursor, ProviderCall::ListClients { realm: realm.clone() })?;
    let flash = ask_flash(cursor)?;
    Ok(
        Outcome::Page(
            Page::Clients(
                ClientsPage {
                    frame: frame(user, "clients", None),
                    realms,
                    current_realm: realm,
                    clients,
                    flash,
                },
            ),
        ),
    )
}

/// One client is shown.
pub open spec fn client_page_asked(
    user: SessionUserModel,
    realm: Seq<char>,
    id: Seq<char>,
    replies: Seq<ReplyModel>,
) -> Asked<OutcomeModel> {
    match client_asked(ProviderCallModel::GetClient { realm, id }, replies) {
        Ask::Stop(stop) => Ask::Stop(stop),
        Ask::Got(client, rest) => match form_token_asked(rest) {
            Ask::Stop(stop) => Ask::Stop(stop),
            Ask::Got(csrf, rest) => match flash_asked(rest) {
                Ask::Stop(stop) => Ask::Stop(stop),
                Ask::Got(flash, rest) => Ask::Got(
                    OutcomeModel::Page(
                        PageModel::Client(
                            ClientPageModel {
                                frame: framed(user, "clients"@, None),
                                realm,
                                client,
                                csrf,
                                flash,
                            },
                        ),
                    ),
                    rest,
                ),
            },
        },
    }
}

/// An admin sees one client.
#[verifier::opaque]
pub open spec fn client_shown(
    config: ConfigModel,
    realm: Seq<char>,
    id: Seq<char>,
    replies: Seq<ReplyModel>,
) -> Asked<OutcomeModel> {
    match admin_required(config, replies) {
        Ask::Stop(stop) => Ask::Stop(stop),
        Ask::Got(user, rest) => client_page_asked(user, realm, id, rest),
    }
}

/// Shows one client.
pub fn client_detail(
    cursor: &mut Replies<'_>,
    config: &Config,
    realm: &str,
    id: &str,
) -> (r: Result<
    Outcome,
    Step,
>)
    ensures
        answers(
            r,
            final(cursor).rest(),
            client_shown(config.deep_view(), realm@, id@, old(cursor).rest()),
        ),
{
    proof {
        reveal(client_shown);
    }
    let user = require_admin(cursor, config)?;
    let client = ask_client(
        cursor,
        ProviderCall::GetClient { realm: realm.to_string(), id: id.to_string() },
    )?;
    let csrf = ask_form_token(cursor)?;
    let flash = ask_flash(cursor)?;
    Ok(
        Outcome::Page(
            Page::Client(
                ClientPage {
                    frame: frame(user, "clients", None),
                    realm: realm.to_string(),
                    client,
                    csrf,
                    flash,
                },
            ),
        ),
    )
}

/// The form for editing a client.
#[derive(Debug, PartialEq)]
pub struct EditClientForm {
    pub csrf_token: String,
    pub enabled: Option<String>,
    pub redirect_uris: Option<String>,
    pub web_origins: Option<String>,
}

/// What a [`EditClientForm`] stands for in contracts.
#[verifier::ext_equal]
pub struct EditClientFormModel {
    pub csrf_token: Seq<char>,
    pub enabled: Option<Seq<char>>,
    pub redirect_uris: Option<Seq<char>>,
    pub web_origins: Option<Seq<char>>,
}

impl DeepView for EditClientForm {
    type V = EditClientFormModel;

    open spec fn deep_view(&self) -> EditClientFormModel {
        EditClientFormModel {
            csrf_token: self.csrf_token.deep_view(),
            enabled: self.enabled.deep_view(),
            redirect_uris: self.redirect_uris.deep_view(),
            web_origins: self.web_origins.deep_view(),
        }
    }
}

impl Clone for EditClientForm {
    fn clone(&self) -> (r: Self)
        ensures
            r.deep_view() == self.deep_view(),
    {
        EditClientForm {
            csrf_token: self.csrf_token.clone(),
            enabled: self.enabled.clone(),
            redirect_uris: self.redirect_uris.clone(),
            web_origins: self.web_origins.clone(),
        }
    }
}

/// The entries of a text field, one on each line.
pub open spec fn lines_of(field: Option<Seq<char>>) -> Option<Seq<Seq<char>>> {
    match field {
        Some(text) => Some(entries(text, 0)),
        None => None,
    }
}

fn read_lines(field: &Option<String>) -> (r: Option<Vec<String>>)
    ensures
        r.deep_view() == lines_of(field.deep_view()),
{
    match field {
        Some(text) => Some(entries_of(text.as_str())),
        None => None,
    }
}

/// What the form changes of a client; a field that was not sent stays.
pub open spec fn client_settings(form: EditClientFormModel) -> UpdateAppClientModel {
    UpdateAppClientModel {
        enabled: match form.enabled {
            Some(_) => Some(ticked(form.enabled)),
            None => None,
        },
        redirect_uris: lines_of(form.redirect_uris),
        web_origins: lines_of(form.web_origins),
    }
}

fn settings_of(form: &EditClientForm) -> (r: UpdateAppClient)
    ensures
        r.deep_view() == client_settings(form.deep_view()),
{
    let enabled = match &form.enabled {
        Some(_) => Some(is_ticked(&form.enabled)),
        None => None,
    };
    UpdateAppClient {
        enabled,
        redirect_uris: read_lines(&form.redirect_uris),
        web_origins: read_lines(&form.web_origins),
    }
}

/// The page of a client.
pub open spec fn client_path(realm: Seq<char>, id: Seq<char>) -> Seq<char> {
    "/clients/"@ + realm + "/"@ + id
}

fn path_of_client(realm: &str, id: &str) -> (r: String)
    ensures
        r@ == client_path(realm@, id@),
{
    "/clients/".to_string().concat(realm).concat("/").concat(id)
}

/// An admin changes the settings of a client, which is recorded.
#[verifier::opaque]
pub open spec fn client_edited(
    config: ConfigModel,
    realm: Seq<char>,
    id: Seq<char>,
    form: EditClientFormModel,
    replies: Seq<ReplyModel>,
) -> Asked<OutcomeModel> {
    match admin_form_checked(config, form.csrf_token, replies) {
        Ask::Stop(stop) => Ask::Stop(stop),
        Ask::Got(user, rest) => change_recorded(
            ProviderCallModel::UpdateClient { realm, id, settings: client_settings(form) },
            user.username,
            "edit_client"@,
            realm,
            None,
            "client "@ + id + " updated"@,
            good_news("Client settings saved."@),
            client_path(realm, id),
            rest,
        ),
    }
}

/// Changes the settings of a client.
pub fn edit_client(
    cursor: &mut Replies<'_>,
    config: &Config,
    realm: &str,
    id: &str,
    form: &EditClientForm,
) -> (r: Result<Outcome, Step>)
    ensures
        answers(
            r,
            final(cursor).rest(),
            client_edited(config.deep_view(), realm@, id@, form.deep_view(), old(cursor).rest()),
        ),
{
    proof {
        reveal(client_edited);
    }
    let user = check_admin_form(cursor, config, form.csrf_token.as_str())?;
    record_change(
        cursor,
        ProviderCall::UpdateClient {
            realm: realm.to_string(),
            id: id.to_string(),
            settings: settings_of(form),
        },
        user.username.as_str(),
        "edit_client",
        realm,
        None,
        "client ".to_string().concat(id).concat(" updated"),
        Flash::success("Client settings saved.".to_string()),
        path_of_client(realm, id),
    )
}

/// An admin sees the secret of a client.
#[verifier::opaque]
pub open spec fn secret_revealed(
    config: ConfigModel,
    realm: Seq<char>,
    id: Seq<char>,
    replies: Seq<ReplyModel>,
) -> Asked<OutcomeModel> {
    match admin_required(config, replies) {
        Ask::Stop(stop) => Ask::Stop(stop),
        Ask::Got(_, rest) => match secret_asked(
            ProviderCallModel::GetClientSecret { realm, id },
            rest,
        ) {
            Ask::Stop(stop) => Ask::Stop(stop),
            Ask::Got(secret, rest) => Ask::Got(OutcomeModel::Secret(secret), rest),
        },
    }
}

/// Shows the secret of a client.
pub fn reveal_secret(
    cursor: &mut Replies<'_>,
    config: &Config,
    realm: &str,
    id: &str,
) -> (r: Result<
    Outcome,
    Step,
>)
    ensures
        answers(
            r,
            final(cursor).rest(),
            secret_revealed(config.deep_view(), realm@, id@, old(cursor).rest()),
        ),
{
    proof {
        reveal(secret_revealed);
    }
    let _ = require_admin(cursor, config)?;
    let secret = ask_secret(
        cursor,
        ProviderCall::GetClientSecret { realm: realm.to_string(), id: id.to_string() },
    )?;
    Ok(Outcome::Secret(secret))
}

} // verus!
