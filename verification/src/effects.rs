//! What a request needs of the outside world, what comes back, and how a request ends.

use crate::auth::{TokenResponse, TokenResponseModel};
use crate::error::{AppError, AppErrorModel};
use crate::pages::{Page, PageModel, SimilarUser, SimilarUserModel};
use crate::provider::{ProviderAnswer, ProviderAnswerModel, ProviderCall, ProviderCallModel};
use crate::script::{Ask, Cursor};
use crate::session::{Flash, FlashModel, SessionUser, SessionUserModel};
use crate::storage::{StorageAnswer, StorageAnswerModel, StorageCall, StorageCallModel};
use crate::time::{Stamp, StampModel, Timestamp};
use vstd::prelude::*;

verus! {

/// What a request needs next.
#[derive(Debug, PartialEq)]
pub enum Effect {
    /// Read the signed-in user from the session.
    LoadUser,
    /// Write the signed-in user to the session.
    StoreUser(SessionUser),
    /// Read a text from the session.
    LoadText { key: String },
    StoreText { key: String, value: String },
    DropText { key: String },
    StoreFlash(Flash),
    /// Read the message for this page and remove it from the session.
    TakeFlash,
    /// Remove all of the session.
    EndSession,
    /// Set `key` if it is not set, to be unset after so many seconds.
    Lock { key: String, seconds: i64 },
    Unlock { key: String },
    /// Add one to the counter under `key`.
    CountAttempt { key: String },
    /// Let the counter under `key` end after so many seconds.
    ExpireAttempts { key: String, seconds: i64 },
    /// Draw a random token.
    NewToken,
    /// Draw an id and read the clock.
    NewStamp,
    ReadClock,
    Provider(ProviderCall),
    Storage(StorageCall),
    /// Trade an authorization code for tokens.
    ExchangeCode { code: String },
    /// Verify a token against the issuer's keys.
    VerifyToken { token: String },
}

/// What an [`Effect`] stands for in contracts.
#[verifier::ext_equal]
pub enum EffectModel {
    LoadUser,
    StoreUser(SessionUserModel),
    LoadText { key: Seq<char> },
    StoreText { key: Seq<char>, value: Seq<char> },
    DropText { key: Seq<char> },
    StoreFlash(FlashModel),
    TakeFlash,
    EndSession,
    Lock { key: Seq<char>, seconds: i64 },
    Unlock { key: Seq<char> },
    CountAttempt { key: Seq<char> },
    ExpireAttempts { key: Seq<char>, seconds: i64 },
    NewToken,
    NewStamp,
    ReadClock,
    Provider(ProviderCallModel),
    Storage(StorageCallModel),
    ExchangeCode { code: Seq<char> },
    VerifyToken { token: Seq<char> },
}

impl DeepView for Effect {
    type V = EffectModel;

    open spec fn deep_view(&self) -> EffectModel {
        match self {
            Effect::LoadUser => EffectModel::LoadUser,
            Effect::StoreUser(v) => EffectModel::StoreUser(v.deep_view()),
            Effect::LoadText { key } => EffectModel::LoadText { key: key.deep_view() },
            Effect::StoreText { key, value } => EffectModel::StoreText {
                key: key.deep_view(),
                value: value.deep_view(),
            },
            Effect::DropText { key } => EffectModel::DropText { key: key.deep_view() },
            Effect::StoreFlash(v) => EffectModel::StoreFlash(v.deep_view()),
            Effect::TakeFlash => EffectModel::TakeFlash,
            Effect::EndSession => EffectModel::EndSession,
            Effect::Lock { key, seconds } => EffectModel::Lock {
                key: key.deep_view(),
                seconds: *seconds,
            },
            Effect::Unlock { key } => EffectModel::Unlock { key: key.deep_view() },
            Effect::CountAttempt { key } => EffectModel::CountAttempt { key: key.deep_view() },
            Effect::ExpireAttempts { key, seconds } => EffectModel::ExpireAttempts {
                key: key.deep_view(),
                seconds: *seconds,
            },
            Effect::NewToken => EffectModel::NewToken,
            Effect::NewStamp => EffectModel::NewStamp,
            Effect::ReadClock => EffectModel::ReadClock,
            Effect::Provider(v) => EffectModel::Provider(v.deep_view()),
            Effect::Storage(v) => EffectModel::Storage(v.deep_view()),
            Effect::ExchangeCode { code } => EffectModel::ExchangeCode { code: code.deep_view() },
            Effect::VerifyToken { token } => EffectModel::VerifyToken { token: token.deep_view() },
        }
    }
}

impl Clone for Effect {
    fn clone(&self) -> (r: Self)
        ensures
            r.deep_view() == self.deep_view(),
    {
        match self {
            Effect::LoadUser => Effect::LoadUser,
            Effect::StoreUser(v) => Effect::StoreUser(v.clone()),
            Effect::LoadText { key } => Effect::LoadText { key: key.clone() },
            Effect::StoreText { key, value } => Effect::StoreText {
                key: key.clone(),
                value: value.clone(),
            },
            Effect::DropText { key } => Effect::DropText { key: key.clone() },
            Effect::StoreFlash(v) => Effect::StoreFlash(v.clone()),
            Effect::TakeFlash => Effect::TakeFlash,
            Effect::EndSession => Effect::EndSession,
            Effect::Lock { key, seconds } => Effect::Lock { key: key.clone(), seconds: *seconds },
            Effect::Unlock { key } => Effect::Unlock { key: key.clone() },
            Effect::CountAttempt { key } => Effect::CountAttempt { key: key.clone() },
            Effect::ExpireAttempts { key, seconds } => Effect::ExpireAttempts {
                key: key.clone(),
                seconds: *seconds,
            },
            Effect::NewToken => Effect::NewToken,
            Effect::NewStamp => Effect::NewStamp,
            Effect::ReadClock => Effect::ReadClock,
            Effect::Provider(v) => Effect::Provider(v.clone()),
            Effect::Storage(v) => Effect::Storage(v.clone()),
            Effect::ExchangeCode { code } => Effect::ExchangeCode { code: code.clone() },
            Effect::VerifyToken { token } => Effect::VerifyToken { token: token.clone() },
        }
    }
}

/// What came back.
#[derive(Debug, PartialEq)]
pub enum Reply {
    Failed(String),
    Done,
    User(Option<SessionUser>),
    Text(Option<String>),
    Flash(Option<Flash>),
    /// Whether the lock was taken.
    Locked(bool),
    Attempts(i64),
    Token(String),
    Stamp(Stamp),
    Time(Timestamp),
    Provider(ProviderAnswer),
    Storage(StorageAnswer),
    Tokens(TokenResponse),
    /// The claims of a token that was verified, as JSON.
    Claims(String),
}

/// What a [`Reply`] stands for in contracts.
#[verifier::ext_equal]
pub enum ReplyModel {
    Failed(Seq<char>),
    Done,
    User(Option<SessionUserModel>),
    Text(Option<Seq<char>>),
    Flash(Option<FlashModel>),
    Locked(bool),
    Attempts(i64),
    Token(Seq<char>),
    Stamp(StampModel),
    Time(Timestamp),
    Provider(ProviderAnswerModel),
    Storage(StorageAnswerModel),
    Tokens(TokenResponseModel),
    Claims(Seq<char>),
}

impl DeepView for Reply {
    type V = ReplyModel;

    open spec fn deep_view(&self) -> ReplyModel {
        match self {
            Reply::Failed(v) => ReplyModel::Failed(v.deep_view()),
            Reply::Done => ReplyModel::Done,
            Reply::User(v) => ReplyModel::User(v.deep_view()),
            Reply::Text(v) => ReplyModel::Text(v.deep_view()),
            Reply::Flash(v) => ReplyModel::Flash(v.deep_view()),
            Reply::Locked(v) => ReplyModel::Locked(*v),
            Reply::Attempts(v) => ReplyModel::Attempts(*v),
            Reply::Token(v) => ReplyModel::Token(v.deep_view()),
            Reply::Stamp(v) => ReplyModel::Stamp(v.deep_view()),
            Reply::Time(v) => ReplyModel::Time(*v),
            Reply::Provider(v) => ReplyModel::Provider(v.deep_view()),
            Reply::Storage(v) => ReplyModel::Storage(v.deep_view()),
            Reply::Tokens(v) => ReplyModel::Tokens(v.deep_view()),
            Reply::Claims(v) => ReplyModel::Claims(v.deep_view()),
        }
    }
}

impl Clone for Reply {
    fn clone(&self) -> (r: Self)
        ensures
            r.deep_view() == self.deep_view(),
    {
        match self {
            Reply::Failed(v) => Reply::Failed(v.clone()),
            Reply::Done => Reply::Done,
            Reply::User(v) => Reply::User(v.clone()),
            Reply::Text(v) => Reply::Text(v.clone()),
            Reply::Flash(v) => Reply::Flash(v.clone()),
            Reply::Locked(v) => Reply::Locked(*v),
            Reply::Attempts(v) => Reply::Attempts(*v),
            Reply::Token(v) => Reply::Token(v.clone()),
            Reply::Stamp(v) => Reply::Stamp(v.clone()),
            Reply::Time(v) => Reply::Time(*v),
            Reply::Provider(v) => Reply::Provider(v.clone()),
            Reply::Storage(v) => Reply::Storage(v.clone()),
            Reply::Tokens(v) => Reply::Tokens(v.clone()),
            Reply::Claims(v) => Reply::Claims(v.clone()),
        }
    }
}

/// The answer to a request for promotion.
#[derive(Debug, PartialEq)]
pub struct Promotion {
    pub status: u16,
    pub ok: bool,
    pub error: Option<String>,
}

/// What a [`Promotion`] stands for in contracts.
#[verifier::ext_equal]
pub struct PromotionModel {
    pub status: u16,
    pub ok: bool,
    pub error: Option<Seq<char>>,
}

impl DeepView for Promotion {
    type V = PromotionModel;

    open spec fn deep_view(&self) -> PromotionModel {
        PromotionModel {
            status: self.status,
            ok: self.ok,
            error: self.error.deep_view(),
        }
    }
}

impl Clone for Promotion {
    fn clone(&self) -> (r: Self)
        ensures
            r.deep_view() == self.deep_view(),
    {
        Promotion {
            status: self.status,
            ok: self.ok,
            error: self.error.clone(),
        }
    }
}

/// How a request ends.
#[derive(Debug, PartialEq)]
pub enum Outcome {
    Redirect { to: String },
    Page(Page),
    Similar(Vec<SimilarUser>),
    Secret(Option<String>),
    Accepted,
    Promotion(Promotion),
    Failed(AppError),
}

/// What an [`Outcome`] stands for in contracts.
#[verifier::ext_equal]
pub enum OutcomeModel {
    Redirect { to: Seq<char> },
    Page(PageModel),
    Similar(Seq<SimilarUserModel>),
    Secret(Option<Seq<char>>),
    Accepted,
    Promotion(PromotionModel),
    Failed(AppErrorModel),
}

impl DeepView for Outcome {
    type V = OutcomeModel;

    open spec fn deep_view(&self) -> OutcomeModel {
        match self {
            Outcome::Redirect { to } => OutcomeModel::Redirect { to: to.deep_view() },
            Outcome::Page(v) => OutcomeModel::Page(v.deep_view()),
            Outcome::Similar(v) => OutcomeModel::Similar(v.deep_view()),
            Outcome::Secret(v) => OutcomeModel::Secret(v.deep_view()),
            Outcome::Accepted => OutcomeModel::Accepted,
            Outcome::Promotion(v) => OutcomeModel::Promotion(v.deep_view()),
            Outcome::Failed(v) => OutcomeModel::Failed(v.deep_view()),
        }
    }
}

impl Clone for Outcome {
    fn clone(&self) -> (r: Self)
        ensures
            r.deep_view() == self.deep_view(),
    {
        let r = match self {
            Outcome::Redirect { to } => Outcome::Redirect { to: to.clone() },
            Outcome::Page(v) => Outcome::Page(v.clone()),
            Outcome::Similar(v) => Outcome::Similar(v.clone()),
            Outcome::Secret(v) => Outcome::Secret(v.clone()),
            Outcome::Accepted => Outcome::Accepted,
            Outcome::Promotion(v) => Outcome::Promotion(v.clone()),
            Outcome::Failed(v) => Outcome::Failed(v.clone()),
        };
        assert(r.deep_view() =~~= self.deep_view());
        r
    }
}

/// What to do next.
#[derive(Debug, PartialEq)]
pub enum Step {
    Perform(Effect),
    Finish(Outcome),
}

/// What a [`Step`] stands for in contracts.
#[verifier::ext_equal]
pub enum StepModel {
    Perform(EffectModel),
    Finish(OutcomeModel),
}

impl DeepView for Step {
    type V = StepModel;

    open spec fn deep_view(&self) -> StepModel {
        match self {
            Step::Perform(v) => StepModel::Perform(v.deep_view()),
            Step::Finish(v) => StepModel::Finish(v.deep_view()),
        }
    }
}

impl Clone for Step {
    fn clone(&self) -> (r: Self)
        ensures
            r.deep_view() == self.deep_view(),
    {
        match self {
            Step::Perform(v) => Step::Perform(v.clone()),
            Step::Finish(v) => Step::Finish(v.clone()),
        }
    }
}

/// What part of a request comes to.
pub type Asked<T> = Ask<T, ReplyModel, StepModel>;

/// A place in the list of replies.
pub type Replies<'a> = Cursor<'a, Reply>;

} // verus!
