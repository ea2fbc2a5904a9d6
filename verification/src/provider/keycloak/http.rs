//! The requests that Keycloak is sent, and what comes back.

use crate::attributes::{Attributes, AttributesModel};
use crate::auth::{is_success, reports_success};
use crate::error::{ProviderError, ProviderErrorModel};
use crate::provider::{ProviderAnswer, ProviderAnswerModel};
use crate::provider::keycloak::errors::{parse_kc_error, report_in, reported_error};
use crate::provider::keycloak::shapes::{
    KcClientRep, KcClientRepModel, KcGroup, KcGroupModel, KcRealm, KcRealmModel, KcRole,
    KcRoleModel, KcUser, KcUserModel,
};
use crate::script::{answers, Ask, Cursor};
use vstd::prelude::*;

verus! {

// ── Requests ─────────────────────────────────────────────────────────────────

/// What a request does.
#[derive(Clone, Copy, Debug, PartialEq, Eq, Structural)]
pub enum Method {
    Get,
    Post,
    Put,
    Delete,
}

impl DeepView for Method {
    type V = Method;

    open spec fn deep_view(&self) -> Method {
        *self
    }
}

/// A password.
#[derive(Debug, PartialEq)]
pub struct Credential {
    pub value: String,
    pub temporary: bool,
}

/// What a [`Credential`] stands for in contracts.
#[verifier::ext_equal]
pub struct CredentialModel {
    pub value: Seq<char>,
    pub temporary: bool,
}

impl DeepView for Credential {
    type V = CredentialModel;

    open spec fn deep_view(&self) -> CredentialModel {
        CredentialModel {
            value: self.value.deep_view(),
            temporary: self.temporary,
        }
    }
}

impl Clone for Credential {
    fn clone(&self) -> (r: Self)
        ensures
            r.deep_view() == self.deep_view(),
    {
        Credential {
            value: self.value.clone(),
            temporary: self.temporary,
        }
    }
}

/// A new user account.
#[derive(Debug, PartialEq)]
pub struct NewUserBody {
    pub username: String,
    pub email: Option<String>,
    pub first_name: Option<String>,
    pub last_name: Option<String>,
    pub enabled: bool,
    pub attributes: Attributes,
    pub credential: Option<Credential>,
    pub required_actions: Vec<String>,
}

/// What a [`NewUserBody`] stands for in contracts.
#[verifier::ext_equal]
pub struct NewUserBodyModel {
    pub username: Seq<char>,
    pub email: Option<Seq<char>>,
    pub first_name: Option<Seq<char>>,
    pub last_name: Option<Seq<char>>,
    pub enabled: bool,
    pub attributes: AttributesModel,
    pub credential: Option<CredentialModel>,
    pub required_actions: Seq<Seq<char>>,
}

impl DeepView for NewUserBody {
    type V = NewUserBodyModel;

    open spec fn deep_view(&self) -> NewUserBodyModel {
        NewUserBodyModel {
            username: self.username.deep_view(),
            email: self.email.deep_view(),
            first_name: self.first_name.deep_view(),
            last_name: self.last_name.deep_view(),
            enabled: self.enabled,
            attributes: self.attributes.deep_view(),
            credential: self.credential.deep_view(),
            required_actions: self.required_actions.deep_view(),
        }
    }
}

impl Clone for NewUserBody {
    fn clone(&self) -> (r: Self)
        ensures
            r.deep_view() == self.deep_view(),
    {
        let r = NewUserBody {
            username: self.username.clone(),
            email: self.email.clone(),
            first_name: self.first_name.clone(),
            last_name: self.last_name.clone(),
            enabled: self.enabled,
            attributes: self.attributes.clone(),
            credential: self.credential.clone(),
            required_actions: self.required_actions.clone(),
        };
        assert(r.required_actions.deep_view() =~= self.required_actions.deep_view());
        r
    }
}

/// A user account, as it is to be from now on.
#[derive(Debug, PartialEq)]
pub struct UserBody {
    pub first_name: String,
    pub last_name: String,
    pub email: String,
    pub enabled: bool,
    pub attributes: Attributes,
}

/// What a [`UserBody`] stands for in contracts.
#[verifier::ext_equal]
pub struct UserBodyModel {
    pub first_name: Seq<char>,
    pub last_name: Seq<char>,
    pub email: Seq<char>,
    pub enabled: bool,
    pub attributes: AttributesModel,
}

impl DeepView for UserBody {
    type V = UserBodyModel;

    open spec fn deep_view(&self) -> UserBodyModel {
        UserBodyModel {
            first_name: self.first_name.deep_view(),
            last_name: self.last_name.deep_view(),
            email: self.email.deep_view(),
            enabled: self.enabled,
            attributes: self.attributes.deep_view(),
        }
    }
}

impl Clone for UserBody {
    fn clone(&self) -> (r: Self)
        ensures
            r.deep_view() == self.deep_view(),
    {
        UserBody {
            first_name: self.first_name.clone(),
            last_name: self.last_name.clone(),
            email: self.email.clone(),
            enabled: self.enabled,
            attributes: self.attributes.clone(),
        }
    }
}

/// A role that is assigned or removed.
#[derive(Debug, PartialEq)]
pub struct RoleRef {
    pub id: String,
    pub name: String,
}

/// What a [`RoleRef`] stands for in contracts.
#[verifier::ext_equal]
pub struct RoleRefModel {
    pub id: Seq<char>,
    pub name: Seq<char>,
}

impl DeepView for RoleRef {
    type V = RoleRefModel;

    open spec fn deep_view(&self) -> RoleRefModel {
        RoleRefModel {
            id: self.id.deep_view(),
            name: self.name.deep_view(),
        }
    }
}

impl Clone for RoleRef {
    fn clone(&self) -> (r: Self)
        ensures
            r.deep_view() == self.deep_view(),
    {
        RoleRef {
            id: self.id.clone(),
            name: self.name.clone(),
        }
    }
}

/// What a request carries.
#[derive(Debug, PartialEq)]
pub enum Payload {
    Nothing,
    EmptyObject,
    NewUser(NewUserBody),
    User(UserBody),
    Password(Credential),
    GroupName(String),
    Roles(Vec<RoleRef>),
    Json(String),
}

/// What a [`Payload`] stands for in contracts.
#[verifier::ext_equal]
pub enum PayloadModel {
    Nothing,
    EmptyObject,
    NewUser(NewUserBodyModel),
    User(UserBodyModel),
    Password(CredentialModel),
    GroupName(Seq<char>),
    Roles(Seq<RoleRefModel>),
    Json(Seq<char>),
}

impl DeepView for Payload {
    type V = PayloadModel;

    open spec fn deep_view(&self) -> PayloadModel {
        match self {
            Payload::Nothing => PayloadModel::Nothing,
            Payload::EmptyObject => PayloadModel::EmptyObject,
            Payload::NewUser(v) => PayloadModel::NewUser(v.deep_view()),
            Payload::User(v) => PayloadModel::User(v.deep_view()),
            Payload::Password(v) => PayloadModel::Password(v.deep_view()),
            Payload::GroupName(v) => PayloadModel::GroupName(v.deep_view()),
            Payload::Roles(v) => PayloadModel::Roles(v.deep_view()),
            Payload::Json(v) => PayloadModel::Json(v.deep_view()),
        }
    }
}

impl Clone for Payload {
    fn clone(&self) -> (r: Self)
        ensures
            r.deep_view() == self.deep_view(),
    {
        let r = match self {
            Payload::Nothing => Payload::Nothing,
            Payload::EmptyObject => Payload::EmptyObject,
            Payload::NewUser(v) => Payload::NewUser(v.clone()),
            Payload::User(v) => Payload::User(v.clone()),
            Payload::Password(v) => Payload::Password(v.clone()),
            Payload::GroupName(v) => Payload::GroupName(v.clone()),
            Payload::Roles(v) => Payload::Roles(v.clone()),
            Payload::Json(v) => Payload::Json(v.clone()),
        };
        assert(r.deep_view() =~~= self.deep_view());
        r
    }
}

/// A request to Keycloak.
#[derive(Debug, PartialEq)]
pub struct HttpRequest {
    pub method: Method,
    pub url: String,
    pub payload: Payload,
}

/// What a [`HttpRequest`] stands for in contracts.
#[verifier::ext_equal]
pub struct HttpRequestModel {
    pub method: Method,
    pub url: Seq<char>,
    pub payload: PayloadModel,
}

impl DeepView for HttpRequest {
    type V = HttpRequestModel;

    open spec fn deep_view(&self) -> HttpRequestModel {
        HttpRequestModel {
            method: self.method,
            url: self.url.deep_view(),
            payload: self.payload.deep_view(),
        }
    }
}

impl Clone for HttpRequest {
    fn clone(&self) -> (r: Self)
        ensures
            r.deep_view() == self.deep_view(),
    {
        HttpRequest {
            method: self.method,
            url: self.url.clone(),
            payload: self.payload.clone(),
        }
    }
}

/// What Keycloak answered.
#[derive(Debug, PartialEq)]
pub struct Response {
    pub status: u16,
    /// The address of what was created.
    pub location: Option<String>,
    pub body: String,
}

/// What a [`Response`] stands for in contracts.
#[verifier::ext_equal]
pub struct ResponseModel {
    pub status: u16,
    pub location: Option<Seq<char>>,
    pub body: Seq<char>,
}

impl DeepView for Response {
    type V = ResponseModel;

    open spec fn deep_view(&self) -> ResponseModel {
        ResponseModel {
            status: self.status,
            location: self.location.deep_view(),
            body: self.body.deep_view(),
        }
    }
}

impl Clone for Response {
    fn clone(&self) -> (r: Self)
        ensures
            r.deep_view() == self.deep_view(),
    {
        Response {
            status: self.status,
            location: self.location.clone(),
            body: self.body.clone(),
        }
    }
}

/// What the body of an answer is read as.
#[derive(Clone, Copy, Debug, PartialEq, Eq, Structural)]
pub enum Expect {
    Realm,
    Users,
    User,
    Groups,
    Roles,
    Clients,
    Client,
    Secret,
    Json,
}

impl DeepView for Expect {
    type V = Expect;

    open spec fn deep_view(&self) -> Expect {
        *self
    }
}

/// What the body of an answer was read as.
#[derive(Debug, PartialEq)]
pub enum Decoded {
    Realm(KcRealm),
    Users(Vec<KcUser>),
    User(KcUser),
    Groups(Vec<KcGroup>),
    Roles(Vec<KcRole>),
    Clients(Vec<KcClientRep>),
    Client(KcClientRep),
    Secret(Option<String>),
    Json(String),
}

/// What a [`Decoded`] stands for in contracts.
#[verifier::ext_equal]
pub enum DecodedModel {
    Realm(KcRealmModel),
    Users(Seq<KcUserModel>),
    User(KcUserModel),
    Groups(Seq<KcGroupModel>),
    Roles(Seq<KcRoleModel>),
    Clients(Seq<KcClientRepModel>),
    Client(KcClientRepModel),
    Secret(Option<Seq<char>>),
    Json(Seq<char>),
}

impl DeepView for Decoded {
    type V = DecodedModel;

    open spec fn deep_view(&self) -> DecodedModel {
        match self {
            Decoded::Realm(v) => DecodedModel::Realm(v.deep_view()),
            Decoded::Users(v) => DecodedModel::Users(v.deep_view()),
            Decoded::User(v) => DecodedModel::User(v.deep_view()),
            Decoded::Groups(v) => DecodedModel::Groups(v.deep_view()),
            Decoded::Roles(v) => DecodedModel::Roles(v.deep_view()),
            Decoded::Clients(v) => DecodedModel::Clients(v.deep_view()),
            Decoded::Client(v) => DecodedModel::Client(v.deep_view()),
            Decoded::Secret(v) => DecodedModel::Secret(v.deep_view()),
            Decoded::Json(v) => DecodedModel::Json(v.deep_view()),
        }
    }
}

/// What a call needs next.
#[derive(Debug, PartialEq)]
pub enum KcEffect {
    /// The token of the service account.
    AdminToken,
    Send { token: String, request: HttpRequest },
    Decode { expect: Expect, body: String },
}

/// What a [`KcEffect`] stands for in contracts.
#[verifier::ext_equal]
pub enum KcEffectModel {
    AdminToken,
    Send { token: Seq<char>, request: HttpRequestModel },
    Decode { expect: Expect, body: Seq<char> },
}

impl DeepView for KcEffect {
    type V = KcEffectModel;

    open spec fn deep_view(&self) -> KcEffectModel {
        match self {
            KcEffect::AdminToken => KcEffectModel::AdminToken,
            KcEffect::Send { token, request } => KcEffectModel::Send {
                token: token.deep_view(),
                request: request.deep_view(),
            },
            KcEffect::Decode { expect, body } => KcEffectModel::Decode {
                expect: *expect,
                body: body.deep_view(),
            },
        }
    }
}

impl Clone for KcEffect {
    fn clone(&self) -> (r: Self)
        ensures
            r.deep_view() == self.deep_view(),
    {
        match self {
            KcEffect::AdminToken => KcEffect::AdminToken,
            KcEffect::Send { token, request } => KcEffect::Send {
                token: token.clone(),
                request: request.clone(),
            },
            KcEffect::Decode { expect, body } => KcEffect::Decode {
                expect: *expect,
                body: body.clone(),
            },
        }
    }
}

/// What came back.
#[derive(Debug, PartialEq)]
pub enum KcReply {
    Token(String),
    /// There is no token.
    NoToken(ProviderError),
    /// The request could not be sent, or the body not be read.
    Failed(String),
    Response(Response),
    Decoded(Decoded),
}

/// What a [`KcReply`] stands for in contracts.
#[verifier::ext_equal]
pub enum KcReplyModel {
    Token(Seq<char>),
    NoToken(ProviderErrorModel),
    Failed(Seq<char>),
    Response(ResponseModel),
    Decoded(DecodedModel),
}

impl DeepView for KcReply {
    type V = KcReplyModel;

    open spec fn deep_view(&self) -> KcReplyModel {
        match self {
            KcReply::Token(v) => KcReplyModel::Token(v.deep_view()),
            KcReply::NoToken(v) => KcReplyModel::NoToken(v.deep_view()),
            KcReply::Failed(v) => KcReplyModel::Failed(v.deep_view()),
            KcReply::Response(v) => KcReplyModel::Response(v.deep_view()),
            KcReply::Decoded(v) => KcReplyModel::Decoded(v.deep_view()),
        }
    }
}

/// What to do next with a call.
#[derive(Debug, PartialEq)]
pub enum KcStep {
    Perform(KcEffect),
    Answer(ProviderAnswer),
}

/// What a [`KcStep`] stands for in contracts.
#[verifier::ext_equal]
pub enum KcStepModel {
    Perform(KcEffectModel),
    Answer(ProviderAnswerModel),
}

impl DeepView for KcStep {
    type V = KcStepModel;

    open spec fn deep_view(&self) -> KcStepModel {
        match self {
            KcStep::Perform(v) => KcStepModel::Perform(v.deep_view()),
            KcStep::Answer(v) => KcStepModel::Answer(v.deep_view()),
        }
    }
}

impl Clone for KcStep {
    fn clone(&self) -> (r: Self)
        ensures
            r.deep_view() == self.deep_view(),
    {
        match self {
            KcStep::Perform(v) => KcStep::Perform(v.clone()),
            KcStep::Answer(v) => KcStep::Answer(v.clone()),
        }
    }
}

/// What part of a call comes to.
pub type KcAsked<T> = Ask<T, KcReplyModel, KcStepModel>;

/// A place in the list of replies.
pub type KcReplies<'a> = Cursor<'a, KcReply>;

/// What came of an attempt.
#[derive(Debug, PartialEq)]
pub enum Attempt<T> {
    Done(T),
    Failed(ProviderError),
}

/// What an [`Attempt`] stands for in contracts.
#[verifier::ext_equal]
pub enum AttemptModel<T> {
    Done(T),
    Failed(ProviderErrorModel),
}

impl<T: DeepView> DeepView for Attempt<T> {
    type V = AttemptModel<T::V>;

    open spec fn deep_view(&self) -> AttemptModel<T::V> {
        match self {
            Attempt::Done(value) => AttemptModel::Done(value.deep_view()),
            Attempt::Failed(error) => AttemptModel::Failed(error.deep_view()),
        }
    }
}

// ── Sending ──────────────────────────────────────────────────────────────────

/// The reply does not answer the question.
pub open spec fn misplaced() -> ProviderErrorModel {
    ProviderErrorModel::Http("unexpected reply"@)
}

fn new_misplaced() -> (r: ProviderError)
    ensures
        r.deep_view() == misplaced(),
{
    ProviderError::Http("unexpected reply".to_string())
}

/// The next reply answers `effect`; where there is none, `effect` is what is needed.
pub open spec fn kc_asked(effect: KcEffectModel, replies: Seq<KcReplyModel>) -> KcAsked<
    KcReplyModel,
> {
    if replies.len() == 0 {
        Ask::Stop(KcStepModel::Perform(effect))
    } else {
        Ask::Got(replies[0], replies.skip(1))
    }
}

fn kc_ask<'a>(cursor: &mut KcReplies<'a>, effect: KcEffect) -> (r: Result<&'a KcReply, KcStep>)
    ensures
        answers(r, final(cursor).rest(), kc_asked(effect.deep_view(), old(cursor).rest())),
{
    match cursor.next() {
        Some(reply) => Ok(reply),
        None => Err(KcStep::Perform(effect)),
    }
}

/// A request is sent in the name of the service account.
pub open spec fn sent(request: HttpRequestModel, replies: Seq<KcReplyModel>) -> KcAsked<
    AttemptModel<ResponseModel>,
> {
    match kc_asked(KcEffectModel::AdminToken, replies) {
        Ask::Stop(stop) => Ask::Stop(stop),
        Ask::Got(KcReplyModel::Token(token), rest) => match kc_asked(
            KcEffectModel::Send { token, request },
            rest,
        ) {
            Ask::Stop(stop) => Ask::Stop(stop),
            Ask::Got(KcReplyModel::Response(response), rest) => Ask::Got(
                AttemptModel::Done(response),
                rest,
            ),
            Ask::Got(KcReplyModel::Failed(message), rest) => Ask::Got(
                AttemptModel::Failed(ProviderErrorModel::Http(message)),
                rest,
            ),
            Ask::Got(_, rest) => Ask::Got(AttemptModel::Failed(misplaced()), rest),
        },
        Ask::Got(KcReplyModel::NoToken(error), rest) => Ask::Got(AttemptModel::Failed(error), rest),
        Ask::Got(_, rest) => Ask::Got(AttemptModel::Failed(misplaced()), rest),
    }
}

fn send<'a>(cursor: &mut KcReplies<'a>, request: HttpRequest) -> (r: Result<
    Attempt<&'a Response>,
    KcStep,
>)
    ensures
        answers(r, final(cursor).rest(), sent(request.deep_view(), old(cursor).rest())),
{
    match kc_ask(cursor, KcEffect::AdminToken)? {
        KcReply::Token(token) => match kc_ask(
            cursor,
            KcEffect::Send { token: token.clone(), request },
        )? {
            KcReply::Response(response) => Ok(Attempt::Done(response)),
            KcReply::Failed(message) => Ok(Attempt::Failed(ProviderError::Http(message.clone()))),
            _ => Ok(Attempt::Failed(new_misplaced())),
        },
        KcReply::NoToken(error) => Ok(Attempt::Failed(error.clone())),
        _ => Ok(Attempt::Failed(new_misplaced())),
    }
}

/// The error that the answer to a refused request amounts to, as it stands.
pub open spec fn plain_error(response: ResponseModel) -> ProviderErrorModel {
    ProviderErrorModel::UnexpectedResponse { status: response.status, body: response.body }
}

fn new_plain_error(response: &Response) -> (r: ProviderError)
    ensures
        r.deep_view() == plain_error(response.deep_view()),
{
    ProviderError::UnexpectedResponse { status: response.status, body: response.body.clone() }
}

/// Something is read.
pub open spec fn fetched(url: Seq<char>, expect: Expect, replies: Seq<KcReplyModel>) -> KcAsked<
    AttemptModel<DecodedModel>,
> {
    match sent(
        HttpRequestModel { method: Method::Get, url, payload: PayloadModel::Nothing },
        replies,
    ) {
        Ask::Stop(stop) => Ask::Stop(stop),
        Ask::Got(AttemptModel::Failed(error), rest) => Ask::Got(AttemptModel::Failed(error), rest),
        Ask::Got(AttemptModel::Done(response), rest) => if response.status == 404 {
            Ask::Got(AttemptModel::Failed(ProviderErrorModel::NotFound), rest)
        } else if !is_success(response.status) {
            Ask::Got(AttemptModel::Failed(plain_error(response)), rest)
        } else {
            match kc_asked(KcEffectModel::Decode { expect, body: response.body }, rest) {
                Ask::Stop(stop) => Ask::Stop(stop),
                Ask::Got(KcReplyModel::Decoded(decoded), rest) => Ask::Got(
                    AttemptModel::Done(decoded),
                    rest,
                ),
                Ask::Got(KcReplyModel::Failed(message), rest) => Ask::Got(
                    AttemptModel::Failed(ProviderErrorModel::Http(message)),
                    rest,
                ),
                Ask::Got(_, rest) => Ask::Got(AttemptModel::Failed(misplaced()), rest),
            }
        },
    }
}

fn fetch<'a>(cursor: &mut KcReplies<'a>, url: String, expect: Expect) -> (r: Result<
    Attempt<&'a Decoded>,
    KcStep,
>)
    ensures
        answers(r, final(cursor).rest(), fetched(url@, expect, old(cursor).rest())),
{
    let response = match send(
        cursor,
        HttpRequest { method: Method::Get, url, payload: Payload::Nothing },
    )? {
        Attempt::Done(response) => response,
        Attempt::Failed(error) => return Ok(Attempt::Failed(error)),
    };
    if response.status == 404 {
        return Ok(Attempt::Failed(ProviderError::NotFound));
    }
    if !reports_success(response.status) {
        return Ok(Attempt::Failed(new_plain_error(response)));
    }
    match kc_ask(cursor, KcEffect::Decode { expect, body: response.body.clone() })? {
        KcReply::Decoded(decoded) => Ok(Attempt::Done(decoded)),
        KcReply::Failed(message) => Ok(Attempt::Failed(ProviderError::Http(message.clone()))),
        _ => Ok(Attempt::Failed(new_misplaced())),
    }
}

/// Something is changed; a refusal is told in words.
pub open spec fn written(request: HttpRequestModel, replies: Seq<KcReplyModel>) -> KcAsked<
    AttemptModel<ResponseModel>,
> {
    match sent(request, replies) {
        Ask::Stop(stop) => Ask::Stop(stop),
        Ask::Got(AttemptModel::Failed(error), rest) => Ask::Got(AttemptModel::Failed(error), rest),
        Ask::Got(AttemptModel::Done(response), rest) => if is_success(response.status) {
            Ask::Got(AttemptModel::Done(response), rest)
        } else {
            Ask::Got(
                AttemptModel::Failed(
                    reported_error(response.status, response.body, report_in(response.body)),
                ),
                rest,
            )
        },
    }
}

pub(crate) fn change<'a>(cursor: &mut KcReplies<'a>, request: HttpRequest) -> (r: Result<
    Attempt<&'a Response>,
    KcStep,
>)
    ensures
        answers(r, final(cursor).rest(), written(request.deep_view(), old(cursor).rest())),
{
    match send(cursor, request)? {
        Attempt::Failed(error) => Ok(Attempt::Failed(error)),
        Attempt::Done(response) => if reports_success(response.status) {
            Ok(Attempt::Done(response))
        } else {
            Ok(Attempt::Failed(parse_kc_error(response.status, response.body.clone())))
        },
    }
}

/// Something is changed; a refusal is passed on as it stands.
pub open spec fn written_plainly(request: HttpRequestModel, replies: Seq<KcReplyModel>) -> KcAsked<
    AttemptModel<ResponseModel>,
> {
    match sent(request, replies) {
        Ask::Stop(stop) => Ask::Stop(stop),
        Ask::Got(AttemptModel::Failed(error), rest) => Ask::Got(AttemptModel::Failed(error), rest),
        Ask::Got(AttemptModel::Done(response), rest) => if is_success(response.status) {
            Ask::Got(AttemptModel::Done(response), rest)
        } else {
            Ask::Got(AttemptModel::Failed(plain_error(response)), rest)
        },
    }
}

pub(crate) fn change_plainly<'a>(cursor: &mut KcReplies<'a>, request: HttpRequest) -> (r: Result<
    Attempt<&'a Response>,
    KcStep,
>)
    ensures
        answers(r, final(cursor).rest(), written_plainly(request.deep_view(), old(cursor).rest())),
{
    match send(cursor, request)? {
        Attempt::Failed(error) => Ok(Attempt::Failed(error)),
        Attempt::Done(response) => if reports_success(response.status) {
            Ok(Attempt::Done(response))
        } else {
            Ok(Attempt::Failed(new_plain_error(response)))
        },
    }
}

// ── Reading ──────────────────────────────────────────────────────────────────

/// A realm is read.
pub open spec fn realm_fetched(url: Seq<char>, replies: Seq<KcReplyModel>) -> KcAsked<
    AttemptModel<KcRealmModel>,
> {
    match fetched(url, Expect::Realm, replies) {
        Ask::Stop(stop) => Ask::Stop(stop),
        Ask::Got(AttemptModel::Failed(error), rest) => Ask::Got(AttemptModel::Failed(error), rest),
        Ask::Got(AttemptModel::Done(DecodedModel::Realm(found)), rest) => Ask::Got(
            AttemptModel::Done(found),
            rest,
        ),
        Ask::Got(_, rest) => Ask::Got(AttemptModel::Failed(misplaced()), rest),
    }
}

pub(crate) fn fetch_realm<'a>(cursor: &mut KcReplies<'a>, url: String) -> (r: Result<
    Attempt<&'a KcRealm>,
    KcStep,
>)
    ensures
        answers(r, final(cursor).rest(), realm_fetched(url@, old(cursor).rest())),
{
    match fetch(cursor, url, Expect::Realm)? {
        Attempt::Failed(error) => Ok(Attempt::Failed(error)),
        Attempt::Done(Decoded::Realm(found)) => Ok(Attempt::Done(found)),
        _ => Ok(Attempt::Failed(new_misplaced())),
    }
}

/// Users are read.
pub open spec fn users_fetched(url: Seq<char>, replies: Seq<KcReplyModel>) -> KcAsked<
    AttemptModel<Seq<KcUserModel>>,
> {
    match fetched(url, Expect::Users, replies) {
        Ask::Stop(stop) => Ask::Stop(stop),
        Ask::Got(AttemptModel::Failed(error), rest) => Ask::Got(AttemptModel::Failed(error), rest),
        Ask::Got(AttemptModel::Done(DecodedModel::Users(found)), rest) => Ask::Got(
            AttemptModel::Done(found),
            rest,
        ),
        Ask::Got(_, rest) => Ask::Got(AttemptModel::Failed(misplaced()), rest),
    }
}

pub(crate) fn fetch_users<'a>(cursor: &mut KcReplies<'a>, url: String) -> (r: Result<
    Attempt<&'a Vec<KcUser>>,
    KcStep,
>)
    ensures
        answers(r, final(cursor).rest(), users_fetched(url@, old(cursor).rest())),
{
    match fetch(cursor, url, Expect::Users)? {
        Attempt::Failed(error) => Ok(Attempt::Failed(error)),
        Attempt::Done(Decoded::Users(found)) => Ok(Attempt::Done(found)),
        _ => Ok(Attempt::Failed(new_misplaced())),
    }
}

/// A user is read.
pub open spec fn user_fetched(url: Seq<char>, replies: Seq<KcReplyModel>) -> KcAsked<
    AttemptModel<KcUserModel>,
> {
    match fetched(url, Expect::User, replies) {
        Ask::Stop(stop) => Ask::Stop(stop),
        Ask::Got(AttemptModel::Failed(error), rest) => Ask::Got(AttemptModel::Failed(error), rest),
        Ask::Got(AttemptModel::Done(DecodedModel::User(found)), rest) => Ask::Got(
            AttemptModel::Done(found),
            rest,
        ),
        Ask::Got(_, rest) => Ask::Got(AttemptModel::Failed(misplaced()), rest),
    }
}

pub(crate) fn fetch_user<'a>(cursor: &mut KcReplies<'a>, url: String) -> (r: Result<
    Attempt<&'a KcUser>,
    KcStep,
>)
    ensures
        answers(r, final(cursor).rest(), user_fetched(url@, old(cursor).rest())),
{
    match fetch(cursor, url, Expect::User)? {
        Attempt::Failed(error) => Ok(Attempt::Failed(error)),
        Attempt::Done(Decoded::User(found)) => Ok(Attempt::Done(found)),
        _ => Ok(Attempt::Failed(new_misplaced())),
    }
}

/// Groups are read.
pub open spec fn groups_fetched(url: Seq<char>, replies: Seq<KcReplyModel>) -> KcAsked<
    AttemptModel<Seq<KcGroupModel>>,
> {
    match fetched(url, Expect::Groups, replies) {
        Ask::Stop(stop) => Ask::Stop(stop),
        Ask::Got(AttemptModel::Failed(error), rest) => Ask::Got(AttemptModel::Failed(error), rest),
        Ask::Got(AttemptModel::Done(DecodedModel::Groups(found)), rest) => Ask::Got(
            AttemptModel::Done(found),
            rest,
        ),
        Ask::Got(_, rest) => Ask::Got(AttemptModel::Failed(misplaced()), rest),
    }
}

pub(crate) fn fetch_groups<'a>(cursor: &mut KcReplies<'a>, url: String) -> (r: Result<
    Attempt<&'a Vec<KcGroup>>,
    KcStep,
>)
    ensures
        answers(r, final(cursor).rest(), groups_fetched(url@, old(cursor).rest())),
{
    match fetch(cursor, url, Expect::Groups)? {
        Attempt::Failed(error) => Ok(Attempt::Failed(error)),
        Attempt::Done(Decoded::Groups(found)) => Ok(Attempt::Done(found)),
        _ => Ok(Attempt::Failed(new_misplaced())),
    }
}

/// Roles are read.
pub open spec fn roles_fetched(url: Seq<char>, replies: Seq<KcReplyModel>) -> KcAsked<
    AttemptModel<Seq<KcRoleModel>>,
> {
    match fetched(url, Expect::Roles, replies) {
        Ask::Stop(stop) => Ask::Stop(stop),
        Ask::Got(AttemptModel::Failed(error), rest) => Ask::Got(AttemptModel::Failed(error), rest),
        Ask::Got(AttemptModel::Done(DecodedModel::Roles(found)), rest) => Ask::Got(
            AttemptModel::Done(found),
            rest,
        ),
        Ask::Got(_, rest) => Ask::Got(AttemptModel::Failed(misplaced()), rest),
    }
}

pub(crate) fn fetch_roles<'a>(cursor: &mut KcReplies<'a>, url: String) -> (r: Result<
    Attempt<&'a Vec<KcRole>>,
    KcStep,
>)
    ensures
        answers(r, final(cursor).rest(), roles_fetched(url@, old(cursor).rest())),
{
    match fetch(cursor, url, Expect::Roles)? {
        Attempt::Failed(error) => Ok(Attempt::Failed(error)),
        Attempt::Done(Decoded::Roles(found)) => Ok(Attempt::Done(found)),
        _ => Ok(Attempt::Failed(new_misplaced())),
    }
}

/// Clients are read.
pub open spec fn clients_fetched(url: Seq<char>, replies: Seq<KcReplyModel>) -> KcAsked<
    AttemptModel<Seq<KcClientRepModel>>,
> {
    match fetched(url, Expect::Clients, replies) {
        Ask::Stop(stop) => Ask::Stop(stop),
        Ask::Got(AttemptModel::Failed(error), rest) => Ask::Got(AttemptModel::Failed(error), rest),
        Ask::Got(AttemptModel::Done(DecodedModel::Clients(found)), rest) => Ask::Got(
            AttemptModel::Done(found),
            rest,
        ),
        Ask::Got(_, rest) => Ask::Got(AttemptModel::Failed(misplaced()), rest),
    }
}

pub(crate) fn fetch_clients<'a>(cursor: &mut KcReplies<'a>, url: String) -> (r: Result<
    Attempt<&'a Vec<KcClientRep>>,
    KcStep,
>)
    ensures
        answers(r, final(cursor).rest(), clients_fetched(url@, old(cursor).rest())),
{
    match fetch(cursor, url, Expect::Clients)? {
        Attempt::Failed(error) => Ok(Attempt::Failed(error)),
        Attempt::Done(Decoded::Clients(found)) => Ok(Attempt::Done(found)),
        _ => Ok(Attempt::Failed(new_misplaced())),
    }
}

/// A client is read.
pub open spec fn client_fetched(url: Seq<char>, replies: Seq<KcReplyModel>) -> KcAsked<
    AttemptModel<KcClientRepModel>,
> {
    match fetched(url, Expect::Client, replies) {
        Ask::Stop(stop) => Ask::Stop(stop),
        Ask::Got(AttemptModel::Failed(error), rest) => Ask::Got(AttemptModel::Failed(error), rest),
        Ask::Got(AttemptModel::Done(DecodedModel::Client(found)), rest) => Ask::Got(
            AttemptModel::Done(found),
            rest,
        ),
        Ask::Got(_, rest) => Ask::Got(AttemptModel::Failed(misplaced()), rest),
    }
}

pub(crate) fn fetch_client<'a>(cursor: &mut KcReplies<'a>, url: String) -> (r: Result<
    Attempt<&'a KcClientRep>,
    KcStep,
>)
    ensures
        answers(r, final(cursor).rest(), client_fetched(url@, old(cursor).rest())),
{
    match fetch(cursor, url, Expect::Client)? {
        Attempt::Failed(error) => Ok(Attempt::Failed(error)),
        Attempt::Done(Decoded::Client(found)) => Ok(Attempt::Done(found)),
        _ => Ok(Attempt::Failed(new_misplaced())),
    }
}

/// A secret is read.
pub open spec fn secret_fetched(url: Seq<char>, replies: Seq<KcReplyModel>) -> KcAsked<
    AttemptModel<Option<Seq<char>>>,
> {
    match fetched(url, Expect::Secret, replies) {
        Ask::Stop(stop) => Ask::Stop(stop),
        Ask::Got(AttemptModel::Failed(error), rest) => Ask::Got(AttemptModel::Failed(error), rest),
        Ask::Got(AttemptModel::Done(DecodedModel::Secret(found)), rest) => Ask::Got(
            AttemptModel::Done(found),
            rest,
        ),
        Ask::Got(_, rest) => Ask::Got(AttemptModel::Failed(misplaced()), rest),
    }
}

pub(crate) fn fetch_secret<'a>(cursor: &mut KcReplies<'a>, url: String) -> (r: Result<
    Attempt<&'a Option<String>>,
    KcStep,
>)
    ensures
        answers(r, final(cursor).rest(), secret_fetched(url@, old(cursor).rest())),
{
    match fetch(cursor, url, Expect::Secret)? {
        Attempt::Failed(error) => Ok(Attempt::Failed(error)),
        Attempt::Done(Decoded::Secret(found)) => Ok(Attempt::Done(found)),
        _ => Ok(Attempt::Failed(new_misplaced())),
    }
}

/// A text of JSON is read.
pub open spec fn json_fetched(url: Seq<char>, replies: Seq<KcReplyModel>) -> KcAsked<
    AttemptModel<Seq<char>>,
> {
    match fetched(url, Expect::Json, replies) {
        Ask::Stop(stop) => Ask::Stop(stop),
        Ask::Got(AttemptModel::Failed(error), rest) => Ask::Got(AttemptModel::Failed(error), rest),
        Ask::Got(AttemptModel::Done(DecodedModel::Json(found)), rest) => Ask::Got(
            AttemptModel::Done(found),
            rest,
        ),
        Ask::Got(_, rest) => Ask::Got(AttemptModel::Failed(misplaced()), rest),
    }
}

pub(crate) fn fetch_json<'a>(cursor: &mut KcReplies<'a>, url: String) -> (r: Result<
    Attempt<&'a String>,
    KcStep,
>)
    ensures
        answers(r, final(cursor).rest(), json_fetched(url@, old(cursor).rest())),
{
    match fetch(cursor, url, Expect::Json)? {
        Attempt::Failed(error) => Ok(Attempt::Failed(error)),
        Attempt::Done(Decoded::Json(found)) => Ok(Attempt::Done(found)),
        _ => Ok(Attempt::Failed(new_misplaced())),
    }
}

} // verus!
