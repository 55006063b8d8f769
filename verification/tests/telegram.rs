use axum::http::HeaderMap;
use axum::http::HeaderValue;
use hmac::Hmac;
use hmac::Mac;
use serde_json::Value;
use sha2::Digest;
use sha2::Sha256;
use virtual_nodes::auth::AuthConfig;
use virtual_nodes::auth::AuthService;
use virtual_nodes::auth::Claims;
use virtual_nodes::auth::UserRole;
use virtual_nodes::error::APIError;
use virtual_nodes::telegram_auth::telegram_bot_auth;
use virtual_nodes::telegram_auth::telegram_bot_auth_middleware;
use virtual_nodes::telegram_auth::TelegramAuthData;
use virtual_nodes::telegram_auth::TelegramAuthService;
use virtual_nodes::telegram_integration::TelegramIntegration;
use virtual_nodes::telegram_integration::SESSION_TAG;
use virtual_nodes::telegram_routes::bot_service_proxy;
use virtual_nodes::telegram_routes::telegram_login;
use virtual_nodes::telegram_routes::BotCommand;
use virtual_nodes::telegram_routes::TelegramLoginRequest;

fn auth_data(hash: &str) -> TelegramAuthData {
    TelegramAuthData {
        id: 4242,
        first_name: "Ada".to_string(),
        last_name: None,
        username: Some("ada".to_string()),
        photo_url: None,
        auth_date: 1_700_000_000,
        hash: hash.to_string(),
    }
}

fn signed(bot_token: &str, check: &str) -> String {
    let secret = Sha256::digest(bot_token.as_bytes());
    let mut mac = Hmac::<Sha256>::new_from_slice(&secret).unwrap();
    mac.update(check.as_bytes());
    hex::encode(mac.finalize().into_bytes())
}

fn service(bot_token: &str) -> TelegramAuthService {
    TelegramAuthService::new(bot_token.to_string(), AuthService::new(AuthConfig::with_secret(None)))
}

#[test]
fn the_check_text_lists_the_fields_by_name() {
    let data = auth_data("");
    assert_eq!(
        TelegramAuthService::data_check_string(&data),
        "auth_date=1700000000\nfirst_name=Ada\nid=4242\nusername=ada"
    );
    let full = TelegramAuthData {
        id: -5,
        first_name: "B".to_string(),
        last_name: Some("C".to_string()),
        username: Some("d".to_string()),
        photo_url: Some("http://p".to_string()),
        auth_date: 0,
        hash: String::new(),
    };
    assert_eq!(
        TelegramAuthService::data_check_string(&full),
        "auth_date=0\nfirst_name=B\nid=-5\nlast_name=C\nphoto_url=http://p\nusername=d"
    );
}

#[test]
fn login_data_is_checked_against_the_bot_token() {
    let check = "auth_date=1700000000\nfirst_name=Ada\nid=4242\nusername=ada";
    let good = auth_data(&signed("bot-token", check));
    assert!(service("bot-token").verify_telegram_auth(&good));
    assert!(!service("other-token").verify_telegram_auth(&good));
    assert!(!service("bot-token").verify_telegram_auth(&auth_data("00")));
    assert!(!service("bot-token").verify_telegram_auth(&auth_data(check)));

    let claims = service("bot-token").authenticate_telegram_user(good, 1000).unwrap();
    assert_eq!(claims.user_id, "tg_4242");
    assert_eq!(claims.role, UserRole::User);
    assert_eq!(claims.exp, 1000 + 24 * 3600);
    match service("bot-token").authenticate_telegram_user(auth_data("bad"), 1000) {
        Err(APIError::Unauthorized(message)) => {
            assert_eq!(message, "Invalid Telegram authentication")
        }
        other => panic!("unexpected: {:?}", other),
    }
}

#[test]
fn telegram_users_are_named_after_their_number() {
    let claims = TelegramAuthService::create_telegram_user_context(77, None, 10).unwrap();
    assert_eq!(claims.user_id, "tg_77");
    assert_eq!(claims.role, UserRole::User);
    assert_eq!(claims.exp, 10 + 86_400);
    assert!(TelegramAuthService::create_telegram_user_context(77, None, -86_401).is_none());
    assert!(TelegramAuthService::create_telegram_user_context(77, None, i64::MAX).is_none());
    assert_eq!(
        TelegramAuthService::telegram_user_from_header(Some("9".to_string())),
        Some("tg_9".to_string())
    );
    assert_eq!(TelegramAuthService::telegram_user_from_header(None), None);
    let mut headers = HeaderMap::new();
    assert_eq!(TelegramAuthService::extract_telegram_user_from_headers(&headers), None);
    headers.insert("x-telegram-user-id", HeaderValue::from_static("12"));
    assert_eq!(
        TelegramAuthService::extract_telegram_user_from_headers(&headers),
        Some("tg_12".to_string())
    );
}

#[test]
fn bot_requests_are_authenticated() {
    let t = |s: &str| Some(s.to_string());
    match telegram_bot_auth(t("x"), None, Some(1), None, 0) {
        Err(APIError::Unauthorized(m)) => assert_eq!(m, "Bot token not configured"),
        other => panic!("unexpected: {:?}", other),
    }
    match telegram_bot_auth(t("x"), t("y"), Some(1), None, 0) {
        Err(APIError::Unauthorized(m)) => assert_eq!(m, "Invalid bot token"),
        other => panic!("unexpected: {:?}", other),
    }
    let claims = telegram_bot_auth(t("x"), t("x"), Some(31), t("99"), 5).unwrap().unwrap();
    assert_eq!((claims.user_id.as_str(), claims.exp), ("tg_31", 86_405));
    let claims = telegram_bot_auth(t("x"), t("x"), None, t("99"), 5).unwrap().unwrap();
    assert_eq!(claims.user_id, "tg_99");
    let claims = telegram_bot_auth(None, None, Some(31), t("99"), 5).unwrap().unwrap();
    assert_eq!(claims.user_id, "tg_99");
    assert!(telegram_bot_auth(None, t("x"), Some(31), None, 5).unwrap().is_none());
    assert!(matches!(
        telegram_bot_auth(None, None, None, t("1"), i64::MAX),
        Err(APIError::Unexpected(_))
    ));

    let mut headers = HeaderMap::new();
    headers.insert("x-bot-token", HeaderValue::from_static("x"));
    let mut map = serde_json::Map::new();
    map.insert("telegram_user_id".to_string(), Value::from(55));
    let body = Value::Object(map);
    let claims =
        telegram_bot_auth_middleware(&headers, &body, t("x"), 1).unwrap().unwrap();
    assert_eq!(claims.user_id, "tg_55");
    assert!(telegram_bot_auth_middleware(&headers, &body, t("z"), 1).is_err());
    assert!(telegram_bot_auth_middleware(&HeaderMap::new(), &body, t("x"), 1).unwrap().is_none());
}

#[test]
fn sessions_have_tokens() {
    assert_eq!(&SESSION_TAG[..], b"rgb_lightning_session");
    let mut registry = TelegramIntegration::new("postgres://".to_string());
    let token = registry.register_user(12, Some("ada".to_string()), "Ada".to_string(), 1_700_000_000);
    let mut hasher = Sha256::new();
    hasher.update(12i64.to_le_bytes());
    hasher.update(1_700_000_000i64.to_le_bytes());
    hasher.update(b"rgb_lightning_session");
    let expected = format!("{:x}", hasher.finalize())[..32].to_string();
    assert_eq!(token, expected);
    assert_eq!(token.len(), 32);
    assert!(registry.validate_session(12, &token));
    assert!(!registry.validate_session(12, "nope"));
    assert!(!registry.validate_session(13, &token));
    let renewed = registry.register_user(12, None, "Ada".to_string(), 1_700_000_001);
    assert_ne!(renewed, token);
    assert!(!registry.validate_session(12, &token));
    assert!(registry.validate_session(12, &renewed));
    assert_eq!(registry.get_user_data_dir(12), "dataldk0/users/12");
    assert_eq!(registry.get_user_data_dir(-3), "dataldk0/users/-3");

    let negative = registry.generate_session_token(-1, -2);
    let mut hasher = Sha256::new();
    hasher.update((-1i64).to_le_bytes());
    hasher.update((-2i64).to_le_bytes());
    hasher.update(b"rgb_lightning_session");
    assert_eq!(negative, format!("{:x}", hasher.finalize())[..32].to_string());
}

#[test]
fn the_bot_speaks_only_for_the_user_of_its_claims() {
    let claims = Claims { user_id: "tg_5".to_string(), role: UserRole::User, exp: 0 };
    assert_eq!(bot_service_proxy(&claims, 5, "get_balance").unwrap(), BotCommand::GetBalance);
    assert_eq!(
        bot_service_proxy(&claims, 5, "generate_address").unwrap(),
        BotCommand::GenerateAddress
    );
    assert_eq!(bot_service_proxy(&claims, 5, "send_asset").unwrap(), BotCommand::SendAsset);
    assert_eq!(bot_service_proxy(&claims, 5, "list_assets").unwrap(), BotCommand::ListAssets);
    assert_eq!(bot_service_proxy(&claims, 5, "create_channel").unwrap(), BotCommand::CreateChannel);
    match bot_service_proxy(&claims, 5, "dance") {
        Err(APIError::InvalidRequest(m)) => assert_eq!(m, "Unknown command: dance"),
        other => panic!("unexpected: {:?}", other),
    }
    match bot_service_proxy(&claims, 6, "get_balance") {
        Err(APIError::Forbidden(m)) => assert_eq!(m, "User ID mismatch"),
        other => panic!("unexpected: {:?}", other),
    }
    let login = telegram_login(&TelegramLoginRequest { auth_data: auth_data("h") }, "jwt".to_string());
    assert_eq!(login.token, "jwt");
    assert_eq!(login.user_id, "tg_4242");
    assert_eq!(login.telegram_id, 4242);
}
