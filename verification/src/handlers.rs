//! The request and response bodies of the HTTP interface, and the decisions
//! each handler takes between its reads and writes of the database.
use vstd::prelude::*;
use crate::ai::RecommendMode;
use crate::auth::{
    argon2_accepts, argon2_default_phc_prefix, claims_text, clock_failure_text, create_token,
    hash_password, issued_claims,
    jwt_hs256_token, verify_password, TOKEN_LIFETIME_SECS,
};
use crate::db::UserCredentials;
use crate::error::AppError;
use crate::models::{status_of_name, MediaType, Status, Work};
use crate::server::SameSiteMode;
use crate::text::{has_prefix, int_text, lemma_utf8_len_bound, owned, u64_text};

verus! {

// ---------------------------------------------------------------------------
// Bodies.
// ---------------------------------------------------------------------------

/// Query of the title list: an optional status name to filter by.
pub struct ListQuery {
    pub status: Option<String>,
}

/// A body carrying one message.
#[derive(Debug)]
pub struct MessageResponse {
    pub message: String,
}

/// A recommendation, with the remaining daily allowance of model calls when
/// the model was asked.
#[derive(Debug)]
pub struct RecommendResponse {
    pub message: String,
    pub remaining: Option<i32>,
}

/// The user's remaining daily allowance of model calls.
#[derive(Debug, Clone, Copy, PartialEq, Eq, Structural)]
pub struct AiUsageResponse {
    pub remaining: i32,
    pub limit: i32,
}

/// How a recommendation is chosen.
#[derive(Debug, Clone, Copy, PartialEq, Eq, Structural)]
pub enum Strategy {
    /// A random work from the user's not-started list.
    Random,
    /// The model picks from the not-started list.
    Ai,
    /// The model suggests a work on neither list.
    NewAi,
}

impl Default for Strategy {
    fn default() -> (r: Strategy)
        ensures
            r == Strategy::Random,
    {
        Strategy::Random
    }
}

/// Query of the recommendation endpoint.
pub struct RecommendQuery {
    pub strategy: Strategy,
}

/// A work entered by hand, with the user's status for it.
pub struct WorkRequest {
    pub title: String,
    pub author: String,
    pub description: String,
    pub episodes: Option<i32>,
    pub media_type: MediaType,
    pub genres: Vec<String>,
    pub status: Status,
}

/// A new status for one of the user's works.
pub struct UpdateStatusRequest {
    pub status: Status,
}

/// A sign-up.
pub struct RegisterRequest {
    pub name: String,
    pub email: String,
    pub password: String,
}

/// A login.
pub struct LoginRequest {
    pub email: String,
    pub password: String,
}

/// The most genres one request may attach to a work.
pub const MAX_GENRES: usize = 20;

/// The shortest accepted password, in characters.
pub const PASSWORD_MIN_LEN: usize = 8;

/// The longest accepted password, in characters.
pub const PASSWORD_MAX_LEN: usize = 128;

/// The daily allowance of model calls per user.
pub const AI_DAILY_LIMIT: i32 = 10;

fn message(text: &str) -> (r: MessageResponse)
    ensures
        r.message@ == text@,
{
    MessageResponse { message: owned(text) }
}

/// The greeting of the root path.
pub fn root() -> (r: MessageResponse)
    ensures
        r.message@ == "Anime Recommend API"@,
{
    message("Anime Recommend API")
}

// ---------------------------------------------------------------------------
// Title list.
// ---------------------------------------------------------------------------

/// The message of a status filter that names no status.
pub open spec fn bad_status_text() -> Seq<char> {
    "不正なstatusです"@
}

/// The status filter of a title-list query: none, or the status it names.
pub fn list_status_filter(query: &ListQuery) -> (r: Result<Option<Status>, AppError>)
    ensures
        match query.status {
            None => r == Ok::<Option<Status>, AppError>(None),
            Some(s) => match status_of_name(s@) {
                Ok(st) => r == Ok::<Option<Status>, AppError>(Some(st)),
                Err(_) => r matches Err(AppError::BadRequest(m)) && m@ == bad_status_text(),
            },
        },
{
    match &query.status {
        None => Ok(None),
        Some(s) => match Status::from_str(s.as_str()) {
            Ok(st) => Ok(Some(st)),
            Err(_) => Err(AppError::BadRequest(owned("不正なstatusです"))),
        },
    }
}

// ---------------------------------------------------------------------------
// Recommendations.
// ---------------------------------------------------------------------------

/// The model mode of a strategy, or `None` for a random pick.
pub fn recommendation_mode(strategy: Strategy) -> (r: Option<RecommendMode>)
    ensures
        r == match strategy {
            Strategy::Random => None,
            Strategy::Ai => Some(RecommendMode::FromList),
            Strategy::NewAi => Some(RecommendMode::New),
        },
{
    match strategy {
        Strategy::Random => None,
        Strategy::Ai => Some(RecommendMode::FromList),
        Strategy::NewAi => Some(RecommendMode::New),
    }
}

/// The answer when there is nothing to pick from.
pub open spec fn nothing_to_recommend_text() -> Seq<char> {
    "おすすめできる作品がありません"@
}

/// The answer to a random recommendation, given the title picked at random
/// from the not-started list (`None` when that list is empty).
pub fn random_recommendation(picked: Option<String>) -> (r: RecommendResponse)
    ensures
        r.remaining is None,
        match picked {
            Some(t) => r.message@ == t@,
            None => r.message@ == nothing_to_recommend_text(),
        },
{
    match picked {
        Some(title) => RecommendResponse { message: title, remaining: None },
        None => RecommendResponse {
            message: owned("おすすめできる作品がありません"),
            remaining: None,
        },
    }
}

/// The message when the daily allowance is used up.
pub open spec fn allowance_exhausted_text() -> Seq<char> {
    "本日のAI利用回数の上限に達しました"@
}

/// The allowance left after this call, as the database's counter update
/// reports it (`None` when the update was refused because the allowance is
/// used up).
pub fn ai_allowance(remaining: Option<i32>) -> (r: Result<i32, AppError>)
    ensures
        match remaining {
            Some(n) => r == Ok::<i32, AppError>(n),
            None => r matches Err(AppError::TooManyRequests(m)) && m@
                == allowance_exhausted_text(),
        },
{
    match remaining {
        Some(n) => Ok(n),
        None => Err(AppError::TooManyRequests(owned("本日のAI利用回数の上限に達しました"))),
    }
}

/// The answer when the not-started list is empty.
pub open spec fn no_unwatched_text() -> Seq<char> {
    "未視聴作品がないためレコメンドできません"@
}

/// The answer when the completed list is empty.
pub open spec fn no_watched_text() -> Seq<char> {
    "視聴済み作品がないためレコメンドできません"@
}

/// Whether the model can be asked: picking from the list needs a
/// not-started title, suggesting a new work needs a completed one.
pub open spec fn model_can_be_asked(mode: RecommendMode, completed_len: nat, not_started_len: nat) -> bool {
    match mode {
        RecommendMode::FromList => not_started_len > 0,
        RecommendMode::New => completed_len > 0,
    }
}

/// The answer given instead of asking the model, or `None` when the model
/// is to be asked.
pub fn ai_precheck(mode: RecommendMode, completed: &Vec<String>, not_started: &Vec<String>) -> (r:
    Option<RecommendResponse>)
    ensures
        r is None <==> model_can_be_asked(mode, completed@.len(), not_started@.len()),
        r matches Some(resp) ==> resp.remaining is None && resp.message@ == match mode {
            RecommendMode::FromList => no_unwatched_text(),
            RecommendMode::New => no_watched_text(),
        },
{
    match mode {
        RecommendMode::FromList => if not_started.len() == 0 {
            Some(
                RecommendResponse {
                    message: owned("未視聴作品がないためレコメンドできません"),
                    remaining: None,
                },
            )
        } else {
            None
        },
        RecommendMode::New => if completed.len() == 0 {
            Some(
                RecommendResponse {
                    message: owned("視聴済み作品がないためレコメンドできません"),
                    remaining: None,
                },
            )
        } else {
            None
        },
    }
}

/// The answer carrying the model's recommendation and the allowance left.
pub fn ai_recommendation(text: String, remaining: i32) -> (r: RecommendResponse)
    ensures
        r.message@ == text@,
        r.remaining == Some(remaining),
{
    RecommendResponse { message: text, remaining: Some(remaining) }
}

/// Where a model recommendation stands between its outside steps.
#[derive(Debug, Clone, Copy, PartialEq, Eq, Structural)]
pub enum AiFlowState {
    /// Waiting for the database to count this call against the allowance.
    Counting,
    /// Counted, with `remaining` calls left; waiting for the user's lists.
    Loading { remaining: i32 },
    /// Waiting for the model's answer.
    Asking { remaining: i32 },
    /// The request has been answered.
    Finished,
}

/// What an outside step of a model recommendation brought back.
pub enum AiFlowEvent {
    /// The allowance left after counting this call, or `None` when it was
    /// already used up.
    Counted(Option<i32>),
    /// The user's completed and not-started titles.
    Loaded { completed: Vec<String>, not_started: Vec<String> },
    /// The model's recommendation.
    Answered(String),
}

/// What to do next in a model recommendation.
pub enum AiFlowAction {
    /// Read the user's completed and not-started titles.
    LoadLists,
    /// Ask the model, in the flow's mode, with these titles.
    AskModel { completed: Vec<String>, not_started: Vec<String> },
    /// Answer the request.
    Respond(RecommendResponse),
    /// Fail the request.
    Fail(AppError),
}

/// The event that can follow each unfinished state.
pub open spec fn ai_event_fits(state: AiFlowState, event: AiFlowEvent) -> bool {
    match state {
        AiFlowState::Counting => event is Counted,
        AiFlowState::Loading { .. } => event is Loaded,
        AiFlowState::Asking { .. } => event is Answered,
        AiFlowState::Finished => false,
    }
}

/// One decision of a model recommendation: the call is counted against the
/// daily allowance first, the lists are read only when the allowance
/// allowed the call, the model is asked only when the lists give it
/// something to work with, and only the model's answer reports the
/// remaining allowance.
pub fn ai_flow_step(mode: RecommendMode, state: AiFlowState, event: AiFlowEvent) -> (r: (
    AiFlowState,
    AiFlowAction,
))
    requires
        ai_event_fits(state, event),
    ensures
        match (state, event) {
            (AiFlowState::Counting, AiFlowEvent::Counted(None)) => {
                &&& r.0 == AiFlowState::Finished
                &&& r.1 matches AiFlowAction::Fail(AppError::TooManyRequests(m))
                &&& m@ == allowance_exhausted_text()
            },
            (AiFlowState::Counting, AiFlowEvent::Counted(Some(n))) => {
                &&& r.0 == AiFlowState::Loading { remaining: n }
                &&& r.1 is LoadLists
            },
            (AiFlowState::Loading { remaining }, AiFlowEvent::Loaded { completed, not_started }) => {
                if model_can_be_asked(mode, completed@.len(), not_started@.len()) {
                    &&& r.0 == AiFlowState::Asking { remaining }
                    &&& r.1 matches AiFlowAction::AskModel { completed: c, not_started: ns }
                    &&& c == completed
                    &&& ns == not_started
                } else {
                    &&& r.0 == AiFlowState::Finished
                    &&& r.1 matches AiFlowAction::Respond(resp)
                    &&& resp.remaining is None
                    &&& resp.message@ == match mode {
                        RecommendMode::FromList => no_unwatched_text(),
                        RecommendMode::New => no_watched_text(),
                    }
                }
            },
            (AiFlowState::Asking { remaining }, AiFlowEvent::Answered(t)) => {
                &&& r.0 == AiFlowState::Finished
                &&& r.1 matches AiFlowAction::Respond(resp)
                &&& resp.message@ == t@
                &&& resp.remaining == Some(remaining)
            },
            _ => false,
        },
{
    match (state, event) {
        (AiFlowState::Counting, AiFlowEvent::Counted(counted)) => match ai_allowance(counted) {
            Ok(n) => (AiFlowState::Loading { remaining: n }, AiFlowAction::LoadLists),
            Err(e) => (AiFlowState::Finished, AiFlowAction::Fail(e)),
        },
        (AiFlowState::Loading { remaining }, AiFlowEvent::Loaded { completed, not_started }) => {
            match ai_precheck(mode, &completed, &not_started) {
                Some(resp) => (AiFlowState::Finished, AiFlowAction::Respond(resp)),
                None => (
                    AiFlowState::Asking { remaining },
                    AiFlowAction::AskModel { completed, not_started },
                ),
            }
        },
        (AiFlowState::Asking { remaining }, AiFlowEvent::Answered(t)) => (
            AiFlowState::Finished,
            AiFlowAction::Respond(ai_recommendation(t, remaining)),
        ),
        (_, _) => {
            proof {
                assert(false);
            }
            (AiFlowState::Finished, AiFlowAction::LoadLists)
        },
    }
}

/// The remaining allowance reported for a user whose counter reads `calls`
/// (`None` when the user was not found, counted as no calls), never below
/// zero.
pub open spec fn remaining_allowance(calls: Option<i32>) -> int {
    let used: int = match calls {
        Some(c) => c as int,
        None => 0,
    };
    if AI_DAILY_LIMIT - used < 0 {
        0
    } else {
        AI_DAILY_LIMIT - used
    }
}

/// The allowance report of a user.
pub fn ai_usage_response(calls: Option<i32>) -> (r: AiUsageResponse)
    requires
        calls matches Some(c) ==> AI_DAILY_LIMIT - c <= i32::MAX,
    ensures
        r.remaining == remaining_allowance(calls),
        r.limit == AI_DAILY_LIMIT,
{
    let used: i32 = match calls {
        Some(c) => c,
        None => 0,
    };
    let left: i32 = AI_DAILY_LIMIT - used;
    AiUsageResponse { remaining: if left < 0 {
        0
    } else {
        left
    }, limit: AI_DAILY_LIMIT }
}

// ---------------------------------------------------------------------------
// Works.
// ---------------------------------------------------------------------------

/// The message of a request with too many genres.
pub open spec fn too_many_genres_text() -> Seq<char> {
    "ジャンルは最大"@ + int_text(MAX_GENRES as int) + "個までです"@
}

/// Checks a new work and separates it from the status the user gives it.
/// More than `MAX_GENRES` genres are refused.
pub fn work_from_request(body: WorkRequest) -> (r: Result<(Work, Status), AppError>)
    ensures
        r is Err <==> body.genres@.len() > MAX_GENRES,
        r matches Err(e) ==> (e matches AppError::BadRequest(m) && m@ == too_many_genres_text()),
        r matches Ok((w, st)) ==> {
            &&& w.title == body.title
            &&& w.author == body.author
            &&& w.description == body.description
            &&& w.episodes == body.episodes
            &&& w.media_type == body.media_type
            &&& w.genres == body.genres
            &&& st == body.status
        },
{
    if body.genres.len() > MAX_GENRES {
        let mut m = owned("ジャンルは最大");
        m.append(u64_text(MAX_GENRES as u64).as_str());
        m.append("個までです");
        return Err(AppError::BadRequest(m));
    }
    let work = Work {
        title: body.title,
        author: body.author,
        description: body.description,
        episodes: body.episodes,
        media_type: body.media_type,
        genres: body.genres,
    };
    Ok((work, body.status))
}

/// The answer to a stored work.
pub fn work_created() -> (r: MessageResponse)
    ensures
        r.message@ == "登録しました"@,
{
    message("登録しました")
}

/// The message when the work to update is not one of the user's.
pub open spec fn work_not_found_text() -> Seq<char> {
    "作品が見つかりません"@
}

/// The answer to a status update, given whether a row of the user's was
/// updated.
pub fn status_update_result(found: bool) -> (r: Result<MessageResponse, AppError>)
    ensures
        r is Ok <==> found,
        r matches Ok(resp) ==> resp.message@ == "ステータスを更新しました"@,
        r matches Err(e) ==> (e matches AppError::NotFound(m) && m@ == work_not_found_text()),
{
    if !found {
        return Err(AppError::NotFound(owned("作品が見つかりません")));
    }
    Ok(message("ステータスを更新しました"))
}

// ---------------------------------------------------------------------------
// Sign-up.
// ---------------------------------------------------------------------------

/// A password's length, in characters, is within the accepted range.
pub open spec fn password_length_ok(password: Seq<char>) -> bool {
    PASSWORD_MIN_LEN <= password.len() <= PASSWORD_MAX_LEN
}

/// The message of a password of the wrong length.
pub open spec fn password_length_text() -> Seq<char> {
    "パスワードは"@ + int_text(PASSWORD_MIN_LEN as int) + "〜"@ + int_text(PASSWORD_MAX_LEN as int)
        + "文字で入力してください"@
}

/// Refuses an empty, too short or too long password.
pub fn check_password_length(password: &str) -> (r: Result<(), AppError>)
    ensures
        r is Ok <==> password_length_ok(password@),
        r matches Err(e) ==> (e matches AppError::BadRequest(m) && m@ == password_length_text()),
{
    let len = password.unicode_len();
    if len < PASSWORD_MIN_LEN || len > PASSWORD_MAX_LEN {
        let mut m = owned("パスワードは");
        m.append(u64_text(PASSWORD_MIN_LEN as u64).as_str());
        m.append("〜");
        m.append(u64_text(PASSWORD_MAX_LEN as u64).as_str());
        m.append("文字で入力してください");
        return Err(AppError::BadRequest(m));
    }
    Ok(())
}

/// The stored hash of a sign-up's password: the length is checked first, and
/// a password of accepted length is hashed with argon2.
pub fn registration_password_hash(password: &str) -> (r: Result<String, AppError>)
    ensures
        !password_length_ok(password@) ==> (r matches Err(AppError::BadRequest(m)) && m@
            == password_length_text()),
        password_length_ok(password@) ==> (r matches Ok(h) && argon2_accepts(password@, h@)
            && has_prefix(h@, argon2_default_phc_prefix())),
{
    check_password_length(password)?;
    proof {
        lemma_utf8_len_bound(password@);
    }
    hash_password(password)
}

/// What became of the insertion of a new user.
pub enum RegisterOutcome {
    /// The user was stored.
    Inserted,
    /// The e-mail address is already taken (a unique-constraint violation).
    EmailTaken,
    /// Any other database failure, described for the log.
    Failed(String),
}

/// The answer given when a user was stored.
pub open spec fn registered_text() -> Seq<char> {
    "ユーザを登録しました"@
}

/// The answer given when the e-mail address was already taken: a success
/// message too, so that the answer does not reveal which addresses are in
/// use.
pub open spec fn already_registered_text() -> Seq<char> {
    "ユーザーを登録しました"@
}

/// The answer to a sign-up, given what became of the insertion.
pub fn registration_response(outcome: RegisterOutcome) -> (r: Result<MessageResponse, AppError>)
    ensures
        match outcome {
            RegisterOutcome::Inserted => r matches Ok(resp) && resp.message@ == registered_text(),
            RegisterOutcome::EmailTaken => r matches Ok(resp) && resp.message@
                == already_registered_text(),
            RegisterOutcome::Failed(d) => r matches Err(AppError::Database(x)) && x@ == d@,
        },
{
    match outcome {
        RegisterOutcome::Inserted => Ok(message("ユーザを登録しました")),
        RegisterOutcome::EmailTaken => Ok(message("ユーザーを登録しました")),
        RegisterOutcome::Failed(d) => Err(AppError::Database(d)),
    }
}

// ---------------------------------------------------------------------------
// Login and logout.
// ---------------------------------------------------------------------------

/// The message of every refused login, whatever was wrong.
pub open spec fn login_refused_text() -> Seq<char> {
    "メールアドレスまたはパスワードが違います"@
}

/// A login is accepted when the e-mail address names a user, the user has a
/// password hash, and argon2 accepts the password against it.
pub open spec fn credentials_accepted(user: Option<UserCredentials>, password: Seq<char>) -> bool {
    &&& user is Some
    &&& user->Some_0.password_hash is Some
    &&& argon2_accepts(password, user->Some_0.password_hash->Some_0@)
}

/// Checks a login against the user found under its e-mail address and, when
/// it is accepted, issues the user's session token at the current time.
pub fn login_token(user: Option<UserCredentials>, password: &str, secret: &str) -> (r: Result<
    String,
    AppError,
>)
    ensures
        !credentials_accepted(user, password@) ==> (r matches Err(AppError::Unauthorized(m)) && m@
            == login_refused_text()),
        credentials_accepted(user, password@) ==> match r {
            Ok(t) => exists|now: u64|
                now + TOKEN_LIFETIME_SECS <= usize::MAX && jwt_hs256_token(
                    #[trigger] claims_text(
                        issued_claims(user->Some_0.id, user->Some_0.token_version, now as int),
                    ),
                    secret@,
                ) == Some(t@),
            Err(e) => e matches AppError::External(m) && m@ == clock_failure_text(),
        },
{
    let u = match user {
        Some(u) => u,
        None => return Err(AppError::Unauthorized(owned("メールアドレスまたはパスワードが違います"))),
    };
    let hash = match &u.password_hash {
        Some(h) => h,
        None => return Err(AppError::Unauthorized(owned("メールアドレスまたはパスワードが違います"))),
    };
    if !verify_password(password, hash.as_str()) {
        return Err(AppError::Unauthorized(owned("メールアドレスまたはパスワードが違います")));
    }
    create_token(u.id, u.token_version, secret)
}

/// The answer to an accepted login.
pub fn login_message() -> (r: MessageResponse)
    ensures
        r.message@ == "ログインしました"@,
{
    message("ログインしました")
}

/// The answer to a logout.
pub fn logout_message() -> (r: MessageResponse)
    ensures
        r.message@ == "ログアウトしました"@,
{
    message("ログアウトしました")
}

/// How the session cookie is marked.
#[derive(Debug, Clone, Copy, PartialEq, Eq, Structural)]
pub struct CookieSettings {
    pub secure: bool,
    pub same_site: SameSiteMode,
}

/// The session cookie.
#[derive(Debug)]
pub struct TokenCookie {
    pub name: String,
    pub value: String,
    pub http_only: bool,
    pub same_site: SameSiteMode,
    pub secure: bool,
    pub path: String,
}

/// The name of the session cookie.
pub open spec fn token_cookie_name() -> Seq<char> {
    "token"@
}

/// The session cookie holding `token`: named `token`, hidden from scripts,
/// valid for the whole site, and marked as configured. A logout sends the
/// same cookie with an empty value, so that the browser drops it (the
/// attributes must match the login's for that).
pub fn build_token_cookie(token: String, settings: &CookieSettings) -> (r: TokenCookie)
    ensures
        r.name@ == token_cookie_name(),
        r.value == token,
        r.http_only,
        r.same_site == settings.same_site,
        r.secure == settings.secure,
        r.path@ == "/"@,
{
    TokenCookie {
        name: owned("token"),
        value: token,
        http_only: true,
        same_site: settings.same_site,
        secure: settings.secure,
        path: owned("/"),
    }
}

/// The reported allowance never goes below zero, and never above the daily
/// limit while the counter is not negative.
pub proof fn lemma_allowance_bounds(calls: Option<i32>)
    ensures
        0 <= remaining_allowance(calls),
        (calls matches Some(c) ==> c >= 0) ==> remaining_allowance(calls) <= AI_DAILY_LIMIT,
{
}

} // verus!
