//! Authentication through Telegram: the check of the data that a login
//! widget hands over, and the claims of a Telegram user.

use crate::auth::expiry_of;
use crate::auth::AuthService;
use crate::auth::Claims;
use crate::auth::UserRole;
use crate::crypto::hex_text;
use crate::crypto::hmac_sha256;
use crate::crypto::hmac_sha256_tag;
use crate::crypto::sha256;
use crate::crypto::sha256_digest;
use crate::error::APIError;
use crate::error::ApiFailure;
use crate::text::decimal_of;
use crate::text::i64_to_text;
use crate::text::join;
use crate::types::hex_encode;
use crate::user_manager::entry;
use crate::user_manager::header_text;
use crate::user_manager::header_texts;
use crate::user_manager::json_i64;
use crate::user_manager::json_numbers;
use crate::user_manager::text_of;
use axum::http::HeaderMap;
use axum::http::HeaderValue;
use serde_json::Value;
use vstd::prelude::*;
use vstd::utf8::encode_utf8;

verus! {

/// A Telegram user.
#[derive(Clone, Debug)]
pub struct TelegramUser {
    pub telegram_id: i64,
    pub username: Option<String>,
    pub first_name: String,
    pub last_name: Option<String>,
    pub is_bot: bool,
}

/// What the login widget of Telegram hands over.
#[derive(Clone, Debug)]
pub struct TelegramAuthData {
    pub id: i64,
    pub first_name: String,
    pub last_name: Option<String>,
    pub username: Option<String>,
    pub photo_url: Option<String>,
    pub auth_date: i64,
    pub hash: String,
}

/// The line of an optional field: a line break, the field's name, an
/// equals sign and the value where there is a value, nothing where
/// there is none.
pub open spec fn optional_line(name: Seq<char>, value: Option<Seq<char>>) -> Seq<char> {
    match value {
        Some(v) => "\n"@ + name + "="@ + v,
        None => Seq::<char>::empty(),
    }
}

/// The text that the hash of the login data is taken of: one line
/// `name=value` for each field that is present, in the order of the
/// names.
pub open spec fn data_check_text(
    id: i64,
    first_name: Seq<char>,
    last_name: Option<Seq<char>>,
    username: Option<Seq<char>>,
    photo_url: Option<Seq<char>>,
    auth_date: i64,
) -> Seq<char> {
    "auth_date="@ + decimal_of(auth_date as int) + "\nfirst_name="@ + first_name + "\nid="@
        + decimal_of(id as int) + optional_line("last_name"@, last_name) + optional_line(
        "photo_url"@,
        photo_url,
    ) + optional_line("username"@, username)
}

/// The hash that login data must carry under a bot token: the HMAC of
/// the check text under the digest of the token, in hexadecimal.
pub open spec fn expected_hash(bot_token: Seq<char>, check_text: Seq<char>) -> Seq<char> {
    hex_encode(hmac_sha256(sha256(encode_utf8(bot_token)), encode_utf8(check_text)))
}

/// The identifier of the tenant that a Telegram user is.
pub open spec fn telegram_user_id(id: Seq<char>) -> Seq<char> {
    "tg_"@ + id
}

impl TelegramAuthData {
    /// The check text of this data.
    pub open spec fn check_text(&self) -> Seq<char> {
        data_check_text(
            self.id,
            self.first_name@,
            text_of(self.last_name),
            text_of(self.username),
            text_of(self.photo_url),
            self.auth_date,
        )
    }
}

/// Appends the line of an optional field to `text`.
fn append_optional_line(text: String, name: &str, value: &Option<String>) -> (res: String)
    ensures
        res@ == text@ + optional_line(name@, text_of(*value)),
{
    match value {
        Some(v) => {
            let res = text.concat("\n").concat(name).concat("=").concat(v.as_str());
            assert(res@ =~= text@ + optional_line(name@, text_of(*value)));
            res
        },
        None => {
            assert(text@ =~= text@ + Seq::<char>::empty());
            text
        },
    }
}

/// The claims of a Telegram user whose session starts at `now` and lasts
/// 24 hours, where the expiry can be written down.
pub fn telegram_claims(user_id: String, now: i64) -> (res: Option<Claims>)
    ensures
        res is Some <==> expiry_of(now, 24) is Some,
        res matches Some(claims) ==> claims.user_id@ == user_id@ && claims.role == UserRole::User
            && Some(claims.exp) == expiry_of(now, 24),
{
    let at: i128 = now as i128 + 24 * 3600;
    if 0 <= at && at <= 0x7fff_ffff_ffff_ffff && at <= usize::MAX as i128 {
        Some(Claims { user_id, role: UserRole::User, exp: at as usize })
    } else {
        None
    }
}

/// The authentication of Telegram users.
pub struct TelegramAuthService {
    bot_token: String,
    auth_service: AuthService,
}

impl TelegramAuthService {
    /// The token of the bot.
    pub closed spec fn bot_token(&self) -> Seq<char> {
        self.bot_token@
    }

    /// The service that makes the claims.
    pub closed spec fn auth_service(&self) -> AuthService {
        self.auth_service
    }

    /// The authentication under the given bot token.
    pub fn new(bot_token: String, auth_service: AuthService) -> (res: TelegramAuthService)
        ensures
            res.bot_token() == bot_token@,
            res.auth_service() == auth_service,
    {
        TelegramAuthService { bot_token, auth_service }
    }

    /// The check text of login data.
    pub fn data_check_string(auth_data: &TelegramAuthData) -> (res: String)
        ensures
            res@ == auth_data.check_text(),
    {
        let head = join("auth_date=", i64_to_text(auth_data.auth_date).as_str()).concat(
            "\nfirst_name=",
        ).concat(auth_data.first_name.as_str()).concat("\nid=").concat(
            i64_to_text(auth_data.id).as_str(),
        );
        let with_last = append_optional_line(head, "last_name", &auth_data.last_name);
        let with_photo = append_optional_line(with_last, "photo_url", &auth_data.photo_url);
        append_optional_line(with_photo, "username", &auth_data.username)
    }

    /// Whether login data carries the hash that it must carry under the
    /// bot token.
    pub fn verify_telegram_auth(&self, auth_data: &TelegramAuthData) -> (res: bool)
        ensures
            res == (auth_data.hash@ == expected_hash(self.bot_token(), auth_data.check_text())),
    {
        let check = TelegramAuthService::data_check_string(auth_data);
        let secret_key = sha256_digest(self.bot_token.as_str().as_bytes());
        let tag = hmac_sha256_tag(secret_key.as_slice(), check.as_str().as_bytes());
        let calculated_hash = hex_text(tag.as_slice());
        calculated_hash == auth_data.hash
    }

    /// The claims of the Telegram user that login data speaks of, for a
    /// token made at `now`. Fails with `Unauthorized` where the data
    /// does not carry the right hash.
    pub fn authenticate_telegram_user(&self, auth_data: TelegramAuthData, now: i64) -> (res: Result<
        Claims,
        APIError,
    >)
        ensures
            auth_data.hash@ != expected_hash(self.bot_token(), auth_data.check_text()) ==> (
            res matches Err(e) && e@ == ApiFailure::Unauthorized(
                "Invalid Telegram authentication"@,
            )),
            auth_data.hash@ == expected_hash(self.bot_token(), auth_data.check_text()) ==> (
            match expiry_of(now, self.auth_service().expiry_hours()) {
                Some(exp) => res matches Ok(claims) && claims.user_id@ == telegram_user_id(
                    decimal_of(auth_data.id as int),
                ) && claims.role == UserRole::User && claims.exp == exp,
                None => res matches Err(e) && e is Unexpected,
            }),
    {
        if !self.verify_telegram_auth(&auth_data) {
            return Err(APIError::Unauthorized(String::from_str("Invalid Telegram authentication")));
        }
        let user_id = join("tg_", i64_to_text(auth_data.id).as_str());
        self.auth_service.token_claims(user_id, UserRole::User, now)
    }

    /// The tenant that the header `x-telegram-user-id` names, given the
    /// header's text.
    pub fn telegram_user_from_header(value: Option<String>) -> (res: Option<String>)
        ensures
            text_of(res) == match text_of(value) {
                Some(id) => Some(telegram_user_id(id)),
                None => None,
            },
    {
        match value {
            Some(id) => Some(join("tg_", id.as_str())),
            None => None,
        }
    }

    /// The tenant that the header `x-telegram-user-id` of a request
    /// names.
    pub fn extract_telegram_user_from_headers(headers: &HeaderMap<HeaderValue>) -> (res: Option<
        String,
    >)
        ensures
            text_of(res) == match entry(header_texts(*headers), "x-telegram-user-id"@) {
                Some(id) => Some(telegram_user_id(id)),
                None => None,
            },
    {
        let value = header_text(headers, "x-telegram-user-id");
        TelegramAuthService::telegram_user_from_header(value)
    }

    /// The claims of the Telegram user `telegram_id` for a session that
    /// starts at `now` and lasts 24 hours.
    pub fn create_telegram_user_context(telegram_id: i64, username: Option<String>, now: i64) -> (res:
        Option<Claims>)
        ensures
            res is Some <==> expiry_of(now, 24) is Some,
            res matches Some(claims) ==> claims.user_id@ == telegram_user_id(
                decimal_of(telegram_id as int),
            ) && claims.role == UserRole::User && Some(claims.exp) == expiry_of(now, 24),
    {
        telegram_claims(join("tg_", i64_to_text(telegram_id).as_str()), now)
    }
}

/// What the authentication of a bot request comes to.
///
/// A request with a bot token is refused with `Unauthorized` where no
/// token is configured or the token is another one. With the right token
/// and a Telegram user in its body, the request speaks for that user.
/// Otherwise it speaks for the user in its user header, if it has one,
/// and for nobody if it has none.
pub open spec fn bot_auth_outcome(
    bot_token: Option<Seq<char>>,
    expected_token: Option<Seq<char>>,
    body_user: Option<i64>,
    header_user: Option<Seq<char>>,
) -> Result<Option<Seq<char>>, ApiFailure> {
    if bot_token is Some && expected_token is None {
        Err(ApiFailure::Unauthorized("Bot token not configured"@))
    } else if bot_token is Some && bot_token != expected_token {
        Err(ApiFailure::Unauthorized("Invalid bot token"@))
    } else if bot_token is Some && body_user is Some {
        Ok(Some(telegram_user_id(decimal_of(body_user->0 as int))))
    } else {
        match header_user {
            Some(id) => Ok(Some(telegram_user_id(id))),
            None => Ok(None),
        }
    }
}

/// Authenticates a bot request, given what its headers and its body
/// say, the token that is configured and the time: the claims of the
/// user it speaks for, as `bot_auth_outcome` has it, for a session of
/// 24 hours. Fails with `Unexpected` where the expiry cannot be written
/// down.
pub fn telegram_bot_auth(
    bot_token: Option<String>,
    expected_token: Option<String>,
    body_user: Option<i64>,
    header_user: Option<String>,
    now: i64,
) -> (res: Result<Option<Claims>, APIError>)
    ensures
        match bot_auth_outcome(
            text_of(bot_token),
            text_of(expected_token),
            body_user,
            text_of(header_user),
        ) {
            Err(failure) => res matches Err(e) && e@ == failure,
            Ok(None) => res matches Ok(None),
            Ok(Some(user_id)) => match expiry_of(now, 24) {
                Some(exp) => res matches Ok(Some(claims)) && claims.user_id@ == user_id
                    && claims.role == UserRole::User && claims.exp == exp,
                None => res matches Err(e) && e is Unexpected,
            },
        },
{
    let user_id = match bot_token {
        Some(token) => {
            let expected = match expected_token {
                Some(expected) => expected,
                None => {
                    return Err(
                        APIError::Unauthorized(String::from_str("Bot token not configured")),
                    );
                },
            };
            if token != expected {
                return Err(APIError::Unauthorized(String::from_str("Invalid bot token")));
            }
            match body_user {
                Some(telegram_id) => Some(join("tg_", i64_to_text(telegram_id).as_str())),
                None => TelegramAuthService::telegram_user_from_header(header_user),
            }
        },
        None => TelegramAuthService::telegram_user_from_header(header_user),
    };
    match user_id {
        Some(user_id) => match telegram_claims(user_id, now) {
            Some(claims) => Ok(Some(claims)),
            None => Err(APIError::Unexpected(String::from_str("Session expiry out of range"))),
        },
        None => Ok(None),
    }
}

/// Authenticates a bot request from its headers `x-bot-token` and
/// `x-telegram-user-id` and the integer field `telegram_user_id` of its
/// body: what `telegram_bot_auth` gives for what they hold.
pub fn telegram_bot_auth_middleware(
    headers: &HeaderMap<HeaderValue>,
    body: &Value,
    expected_token: Option<String>,
    now: i64,
) -> (res: Result<Option<Claims>, APIError>)
    ensures
        match bot_auth_outcome(
            entry(header_texts(*headers), "x-bot-token"@),
            text_of(expected_token),
            entry(json_numbers(*body), "telegram_user_id"@),
            entry(header_texts(*headers), "x-telegram-user-id"@),
        ) {
            Err(failure) => res matches Err(e) && e@ == failure,
            Ok(None) => res matches Ok(None),
            Ok(Some(user_id)) => match expiry_of(now, 24) {
                Some(exp) => res matches Ok(Some(claims)) && claims.user_id@ == user_id
                    && claims.role == UserRole::User && claims.exp == exp,
                None => res matches Err(e) && e is Unexpected,
            },
        },
{
    let bot_token = header_text(headers, "x-bot-token");
    let body_user = json_i64(body, "telegram_user_id");
    let header_user = header_text(headers, "x-telegram-user-id");
    telegram_bot_auth(bot_token, expected_token, body_user, header_user, now)
}

} // verus!
