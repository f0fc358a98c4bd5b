//! The command that tells a user their power.

use crate::commands::utils::{error_reply, format_error, GUILD_ONLY};
use crate::db::{Dao, StoreModel, DEFAULT_POWER};
use crate::interaction::{message, CommandInfo, HandlerError, Reply, ReplyView};
use crate::text::{i32_to_string, signed_decimal};
use vstd::prelude::*;
use vstd::string::StringExecFns;

verus! {

/// The name of the command.
pub const NAME: &'static str = "sign_my_power";

/// The power of a user in a guild: what the store holds, or ten for a user
/// that it has never seen.
pub open spec fn power_of(store: StoreModel, user_id: u64, guild_id: u64) -> i32 {
    match store.user(user_id, guild_id) {
        Some(user) => user.shaman_power,
        None => DEFAULT_POWER,
    }
}

/// What the actor is shown: their power in the guild; outside a guild, an error.
pub open spec fn my_power(store: StoreModel, user_id: u64, guild_id: Option<u64>) -> ReplyView {
    match guild_id {
        None => error_reply(GUILD_ONLY@),
        Some(guild) => message(
            "Твоя сила шамана: "@ + signed_decimal(power_of(store, user_id, guild) as int),
            true,
            None,
        ),
    }
}

/// Handles the command. Unless the store fails, the reply is that of
/// `my_power`. Outside a guild the store is not asked, so it cannot fail.
pub fn run<D: Dao>(dao: &D, user_id: u64, guild_id: Option<u64>) -> (outcome: Result<Reply, HandlerError>)
    ensures
        dao.reliable() || guild_id is None ==> outcome is Ok,
        outcome matches Err(e) ==> e matches HandlerError::Store(_),
        outcome matches Ok(reply) ==> reply@ == my_power(dao.model(), user_id, guild_id),
{
    let guild = match guild_id {
        Some(guild) => guild,
        None => {
            return Ok(format_error(GUILD_ONLY));
        },
    };
    let user = match dao.get_user_info(user_id, guild) {
        Ok(user) => user,
        Err(e) => {
            return Err(HandlerError::Store(e));
        },
    };
    let power = match user {
        Some(user) => user.shaman_power,
        None => DEFAULT_POWER,
    };
    let mut content = String::from_str("Твоя сила шамана: ");
    content.append(i32_to_string(power).as_str());
    Ok(Reply::message(content, true, None))
}

/// How the command is registered.
pub fn register() -> (info: CommandInfo)
    ensures
        info.name@ == NAME@,
        info.description@ == "Show my current shaman power"@,
{
    CommandInfo {
        name: String::from_str(NAME),
        description: String::from_str("Show my current shaman power"),
    }
}

} // verus!
