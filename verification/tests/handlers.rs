use anime_recommend::ai::RecommendMode;
use anime_recommend::auth::hash_password;
use anime_recommend::db::UserCredentials;
use anime_recommend::error::AppError;
use anime_recommend::handlers::{
    ai_allowance, ai_flow_step, ai_precheck, ai_recommendation, ai_usage_response,
    build_token_cookie, AiFlowAction, AiFlowEvent, AiFlowState,
    check_password_length, list_status_filter, login_token, random_recommendation,
    recommendation_mode, registration_password_hash, registration_response, root,
    status_update_result, work_from_request, CookieSettings, ListQuery, RegisterOutcome, Strategy,
    WorkRequest,
};
use anime_recommend::models::{MediaType, Status};
use anime_recommend::server::SameSiteMode;

fn work(genres: usize) -> WorkRequest {
    WorkRequest {
        title: "葬送のフリーレン".to_string(),
        author: "山田鐘人".to_string(),
        description: "".to_string(),
        episodes: Some(28),
        media_type: MediaType::Anime,
        genres: (0..genres).map(|i| format!("g{i}")).collect(),
        status: Status::InProgress,
    }
}

#[test]
fn root_greeting() {
    assert_eq!(root().message, "Anime Recommend API");
}

#[test]
fn list_filter() {
    assert_eq!(list_status_filter(&ListQuery { status: None }).unwrap(), None);
    assert_eq!(
        list_status_filter(&ListQuery { status: Some("Completed".into()) }).unwrap(),
        Some(Status::Completed)
    );
    match list_status_filter(&ListQuery { status: Some("done".into()) }) {
        Err(AppError::BadRequest(m)) => assert_eq!(m, "不正なstatusです"),
        other => panic!("unexpected {:?}", other),
    }
}

#[test]
fn strategies() {
    assert_eq!(Strategy::default(), Strategy::Random);
    assert_eq!(recommendation_mode(Strategy::Random), None);
    assert_eq!(recommendation_mode(Strategy::Ai), Some(RecommendMode::FromList));
    assert_eq!(recommendation_mode(Strategy::NewAi), Some(RecommendMode::New));
}

#[test]
fn random_pick() {
    let r = random_recommendation(Some("ハイキュー!!".into()));
    assert_eq!(r.message, "ハイキュー!!");
    assert_eq!(r.remaining, None);
    let r = random_recommendation(None);
    assert_eq!(r.message, "おすすめできる作品がありません");
    assert_eq!(r.remaining, None);
}

#[test]
fn ai_flow_decisions() {
    assert_eq!(ai_allowance(Some(3)).unwrap(), 3);
    match ai_allowance(None) {
        Err(AppError::TooManyRequests(m)) => assert_eq!(m, "本日のAI利用回数の上限に達しました"),
        other => panic!("unexpected {:?}", other),
    }
    let empty: Vec<String> = vec![];
    let one = vec!["x".to_string()];
    let r = ai_precheck(RecommendMode::FromList, &one, &empty).unwrap();
    assert_eq!(r.message, "未視聴作品がないためレコメンドできません");
    assert_eq!(r.remaining, None);
    let r = ai_precheck(RecommendMode::New, &empty, &one).unwrap();
    assert_eq!(r.message, "視聴済み作品がないためレコメンドできません");
    assert!(ai_precheck(RecommendMode::FromList, &empty, &one).is_none());
    assert!(ai_precheck(RecommendMode::New, &one, &empty).is_none());
    let r = ai_recommendation("おすすめ".into(), 7);
    assert_eq!(r.message, "おすすめ");
    assert_eq!(r.remaining, Some(7));
}

#[test]
fn ai_usage_counts() {
    let r = ai_usage_response(Some(3));
    assert_eq!((r.remaining, r.limit), (7, 10));
    assert_eq!(ai_usage_response(None).remaining, 10);
    assert_eq!(ai_usage_response(Some(15)).remaining, 0);
    assert_eq!(ai_usage_response(Some(10)).remaining, 0);
}

#[test]
fn genre_limit() {
    let (w, st) = work_from_request(work(20)).unwrap();
    assert_eq!(w.genres.len(), 20);
    assert_eq!(w.title, "葬送のフリーレン");
    assert_eq!(w.episodes, Some(28));
    assert_eq!(w.media_type, MediaType::Anime);
    assert_eq!(st, Status::InProgress);
    match work_from_request(work(21)) {
        Err(AppError::BadRequest(m)) => assert_eq!(m, "ジャンルは最大20個までです"),
        _ => panic!("expected a refusal"),
    }
}

#[test]
fn status_update() {
    assert_eq!(status_update_result(true).unwrap().message, "ステータスを更新しました");
    match status_update_result(false) {
        Err(AppError::NotFound(m)) => assert_eq!(m, "作品が見つかりません"),
        other => panic!("unexpected {:?}", other),
    }
}

#[test]
fn password_lengths() {
    assert!(check_password_length(&"a".repeat(8)).is_ok());
    assert!(check_password_length(&"あ".repeat(128)).is_ok());
    for bad in ["".to_string(), "a".repeat(7), "a".repeat(129)] {
        match check_password_length(&bad) {
            Err(AppError::BadRequest(m)) => {
                assert_eq!(m, "パスワードは8〜128文字で入力してください")
            }
            other => panic!("unexpected {:?}", other),
        }
    }
    assert!(registration_password_hash("short").is_err());
    let h = registration_password_hash("long enough").unwrap();
    assert!(anime_recommend::auth::verify_password("long enough", &h));
}

#[test]
fn registration_answers() {
    assert_eq!(registration_response(RegisterOutcome::Inserted).unwrap().message, "ユーザを登録しました");
    assert_eq!(
        registration_response(RegisterOutcome::EmailTaken).unwrap().message,
        "ユーザーを登録しました"
    );
    match registration_response(RegisterOutcome::Failed("disk full".into())) {
        Err(AppError::Database(d)) => assert_eq!(d, "disk full"),
        other => panic!("unexpected {:?}", other),
    }
}

#[test]
fn login_decisions() {
    let hash = hash_password("password123").unwrap();
    let user = UserCredentials { id: 3, password_hash: Some(hash), token_version: 5 };
    let token = login_token(Some(user.clone()), "password123", "s3cret").unwrap();
    let mut validation = jsonwebtoken::Validation::default();
    validation.validate_exp = true;
    let data = jsonwebtoken::decode::<serde_json::Value>(
        &token,
        &jsonwebtoken::DecodingKey::from_secret(b"s3cret"),
        &validation,
    )
    .unwrap();
    assert_eq!(data.claims["sub"], 3);
    assert_eq!(data.claims["ver"], 5);

    let refusals = vec![
        login_token(None, "password123", "s3cret"),
        login_token(Some(user.clone()), "wrong", "s3cret"),
        login_token(
            Some(UserCredentials { id: 3, password_hash: None, token_version: 5 }),
            "password123",
            "s3cret",
        ),
    ];
    for r in refusals {
        match r {
            Err(AppError::Unauthorized(m)) => {
                assert_eq!(m, "メールアドレスまたはパスワードが違います")
            }
            other => panic!("unexpected {:?}", other),
        }
    }
}

#[test]
fn token_cookie() {
    let settings = CookieSettings { secure: true, same_site: SameSiteMode::Strict };
    let c = build_token_cookie("tok".into(), &settings);
    assert_eq!(c.name, "token");
    assert_eq!(c.value, "tok");
    assert!(c.http_only);
    assert!(c.secure);
    assert_eq!(c.same_site, SameSiteMode::Strict);
    assert_eq!(c.path, "/");
    let gone = build_token_cookie(String::new(), &settings);
    assert_eq!(gone.value, "");
}

#[test]
fn ai_flow_runs_in_order() {
    let mode = RecommendMode::FromList;
    let (st, act) = ai_flow_step(mode, AiFlowState::Counting, AiFlowEvent::Counted(Some(4)));
    assert_eq!(st, AiFlowState::Loading { remaining: 4 });
    assert!(matches!(act, AiFlowAction::LoadLists));
    let (st, act) = ai_flow_step(
        mode,
        st,
        AiFlowEvent::Loaded { completed: vec![], not_started: vec!["x".to_string()] },
    );
    assert_eq!(st, AiFlowState::Asking { remaining: 4 });
    match act {
        AiFlowAction::AskModel { completed, not_started } => {
            assert!(completed.is_empty());
            assert_eq!(not_started, vec!["x".to_string()]);
        }
        _ => panic!("expected the model to be asked"),
    }
    let (st, act) = ai_flow_step(mode, st, AiFlowEvent::Answered("y".to_string()));
    assert_eq!(st, AiFlowState::Finished);
    match act {
        AiFlowAction::Respond(r) => {
            assert_eq!(r.message, "y");
            assert_eq!(r.remaining, Some(4));
        }
        _ => panic!("expected an answer"),
    }
}

#[test]
fn ai_flow_stops_early() {
    let (st, act) = ai_flow_step(RecommendMode::New, AiFlowState::Counting, AiFlowEvent::Counted(None));
    assert_eq!(st, AiFlowState::Finished);
    assert!(matches!(act, AiFlowAction::Fail(AppError::TooManyRequests(_))));
    let (st, act) = ai_flow_step(
        RecommendMode::New,
        AiFlowState::Loading { remaining: 2 },
        AiFlowEvent::Loaded { completed: vec![], not_started: vec!["x".to_string()] },
    );
    assert_eq!(st, AiFlowState::Finished);
    match act {
        AiFlowAction::Respond(r) => {
            assert_eq!(r.message, "視聴済み作品がないためレコメンドできません");
            assert_eq!(r.remaining, None);
        }
        _ => panic!("expected an early answer"),
    }
}
