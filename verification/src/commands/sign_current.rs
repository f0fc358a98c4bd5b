//! The command that shows the sign of the day.

use crate::commands::utils::{error_reply, format_error, GUILD_ONLY};
use crate::db::{Dao, StoreModel, Timestamp};
use crate::interaction::{message, outcome_view, CommandInfo, HandlerError, Reply, ReplyView};
use crate::signs::{render, rendered_sign, SignCatalog, SignDataView};
use vstd::prelude::*;
use vstd::string::StringExecFns;

verus! {

/// The name of the command.
pub const NAME: &'static str = "sign_current";

/// What a user is shown when the guild has no sign today.
pub const NO_SIGN_TODAY: &'static str = "Сегодня еще не было знамения. Ты можешь создать его!";

/// What the actor is shown: today's sign of the guild as it stands, or that
/// there is none yet; outside a guild, an error.
pub open spec fn current(
    store: StoreModel,
    catalog: Map<Seq<char>, SignDataView>,
    guild_id: Option<u64>,
    now: Timestamp,
) -> Result<ReplyView, HandlerError> {
    match guild_id {
        None => Ok(error_reply(GUILD_ONLY@)),
        Some(guild) => match store.sign_today(guild, now.day) {
            None => Ok(message(NO_SIGN_TODAY@, true, None)),
            Some(g) => if catalog.contains_key(g.current_sign.id) {
                Ok(
                    message(
                        rendered_sign(catalog[g.current_sign.id], g.current_sign.state),
                        true,
                        None,
                    ),
                )
            } else {
                Err(HandlerError::UnknownSign)
            },
        },
    }
}

/// Handles the command. Unless the store fails, the reply is that of
/// `current`. Outside a guild the store is not asked, so it cannot fail.
pub fn run<D: Dao>(dao: &D, catalog: &SignCatalog, guild_id: Option<u64>, now: Timestamp) -> (outcome:
    Result<Reply, HandlerError>)
    ensures
        dao.reliable() || guild_id is None ==> !(outcome matches Err(HandlerError::Store(_))),
        !(outcome matches Err(HandlerError::Store(_))) ==> outcome_view(outcome) == current(
            dao.model(),
            catalog@,
            guild_id,
            now,
        ),
{
    let guild = match guild_id {
        Some(guild) => guild,
        None => {
            return Ok(format_error(GUILD_ONLY));
        },
    };
    let sign = match dao.get_guild_info(guild, now) {
        Ok(sign) => sign,
        Err(e) => {
            return Err(HandlerError::Store(e));
        },
    };
    let sign = match sign {
        Some(sign) => sign,
        None => {
            return Ok(Reply::message(String::from_str(NO_SIGN_TODAY), true, None));
        },
    };
    match catalog.find(sign.current_sign.id.as_str()) {
        Some(data) => Ok(Reply::message(render(data, sign.current_sign.state), true, None)),
        None => Err(HandlerError::UnknownSign),
    }
}

/// How the command is registered.
pub fn register() -> (info: CommandInfo)
    ensures
        info.name@ == NAME@,
        info.description@ == "Get current enoa sign for this guild"@,
{
    CommandInfo {
        name: String::from_str(NAME),
        description: String::from_str("Get current enoa sign for this guild"),
    }
}

} // verus!
