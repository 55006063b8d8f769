//! The routes that serve Telegram: the login of a user and the commands
//! of the bot.

use crate::auth::Claims;
use crate::error::APIError;
use crate::error::ApiFailure;
use crate::telegram_auth::telegram_user_id;
use crate::telegram_auth::TelegramAuthData;
use crate::text::decimal_of;
use crate::text::i64_to_text;
use crate::text::join;
use crate::text::text_eq;
use vstd::prelude::*;

verus! {

/// A login through Telegram.
#[derive(Clone, Debug)]
pub struct TelegramLoginRequest {
    pub auth_data: TelegramAuthData,
}

/// The answer to a login through Telegram.
#[derive(Clone, Debug)]
pub struct TelegramLoginResponse {
    pub token: String,
    pub user_id: String,
    pub telegram_id: i64,
}

/// A command of the bot.
#[derive(Clone, Copy, Debug, PartialEq, Eq, Structural)]
pub enum BotCommand {
    GetBalance,
    GenerateAddress,
    SendAsset,
    ListAssets,
    CreateChannel,
}

/// The command that a word stands for.
pub open spec fn command_of(word: Seq<char>) -> Option<BotCommand> {
    if word == "get_balance"@ {
        Some(BotCommand::GetBalance)
    } else if word == "generate_address"@ {
        Some(BotCommand::GenerateAddress)
    } else if word == "send_asset"@ {
        Some(BotCommand::SendAsset)
    } else if word == "list_assets"@ {
        Some(BotCommand::ListAssets)
    } else if word == "create_channel"@ {
        Some(BotCommand::CreateChannel)
    } else {
        None
    }
}

/// The answer to the login of a user whose token is `token`: the user
/// is `tg_` and the number that Telegram gave.
pub fn telegram_login(payload: &TelegramLoginRequest, token: String) -> (res:
    TelegramLoginResponse)
    ensures
        res.token@ == token@,
        res.user_id@ == telegram_user_id(decimal_of(payload.auth_data.id as int)),
        res.telegram_id == payload.auth_data.id,
{
    TelegramLoginResponse {
        token,
        user_id: join("tg_", i64_to_text(payload.auth_data.id).as_str()),
        telegram_id: payload.auth_data.id,
    }
}

/// The command that the bot asks for on behalf of the Telegram user
/// `telegram_user_id`. Fails with `Forbidden` where the claims are
/// those of another user, and with `InvalidRequest` where the word is
/// no command.
pub fn bot_service_proxy(claims: &Claims, telegram_user_id: i64, command: &str) -> (res: Result<
    BotCommand,
    APIError,
>)
    ensures
        claims.user_id@ != crate::telegram_auth::telegram_user_id(
            decimal_of(telegram_user_id as int),
        ) ==> (res matches Err(e) && e@ == ApiFailure::Forbidden("User ID mismatch"@)),
        claims.user_id@ == crate::telegram_auth::telegram_user_id(
            decimal_of(telegram_user_id as int),
        ) ==> (match command_of(command@) {
            Some(c) => res == Ok::<BotCommand, APIError>(c),
            None => res matches Err(e) && e@ == ApiFailure::InvalidRequest(
                "Unknown command: "@ + command@,
            ),
        }),
{
    let expected_user_id = join("tg_", i64_to_text(telegram_user_id).as_str());
    if claims.user_id != expected_user_id {
        return Err(APIError::Forbidden(String::from_str("User ID mismatch")));
    }
    if text_eq(command, "get_balance") {
        Ok(BotCommand::GetBalance)
    } else if text_eq(command, "generate_address") {
        Ok(BotCommand::GenerateAddress)
    } else if text_eq(command, "send_asset") {
        Ok(BotCommand::SendAsset)
    } else if text_eq(command, "list_assets") {
        Ok(BotCommand::ListAssets)
    } else if text_eq(command, "create_channel") {
        Ok(BotCommand::CreateChannel)
    } else {
        Err(APIError::InvalidRequest(join("Unknown command: ", command)))
    }
}

} // verus!
