//! The command that rolls the sign of the day.

use crate::commands::modify_sign::{control, control_button};
use crate::commands::utils::{error_reply, format_error, GUILD_ONLY};
use crate::db::{Dao, SignState, StoreModel, Timestamp};
use crate::engine::{sign_id, sign_id_of};
use crate::interaction::{message, outcome_view, CommandInfo, HandlerError, Reply, ReplyView};
use crate::signs::{render, rendered_sign, SignCatalog, SignDataView};
use vstd::prelude::*;
use vstd::string::StringExecFns;

verus! {

/// The name of the command.
pub const NAME: &'static str = "sign_roll";

/// What a user is told who rolls when the guild has its sign of the day.
pub const ALREADY_CREATED: &'static str = "Знамение на сегодня уже создано, приходи завтра";

/// A roll from start to end, on a store that answers: what the store holds
/// afterwards and what the actor is told.
///
/// Outside a guild nothing happens. Otherwise the four faces name a sign,
/// which becomes the guild's sign of the day unless the guild has one; the
/// reply then shows the new sign above the open control, or says that
/// today's sign exists.
pub open spec fn roll(
    store: StoreModel,
    catalog: Map<Seq<char>, SignDataView>,
    user_id: u64,
    guild_id: Option<u64>,
    faces: Seq<i32>,
    now: Timestamp,
) -> (StoreModel, Result<ReplyView, HandlerError>) {
    match guild_id {
        None => (store, Ok(error_reply(GUILD_ONLY@))),
        Some(guild) => {
            let id = sign_id_of(faces);
            let (after, created) = store.create_sign(guild, id, user_id, now);
            if created is None {
                (after, Ok(error_reply(ALREADY_CREATED@)))
            } else if !catalog.contains_key(id) {
                (after, Err(HandlerError::UnknownSign))
            } else {
                (
                    after,
                    Ok(message(rendered_sign(catalog[id], SignState::Created), false, Some(control(false)))),
                )
            }
        },
    }
}

/// Handles the command for `user_id`, with the faces that chance has dealt.
///
/// Unless the store fails, the store and the reply are those of `roll`. If
/// the store fails, it holds what it held. Outside a guild the store is not
/// asked, so it cannot fail.
pub fn run<D: Dao>(
    dao: &mut D,
    catalog: &SignCatalog,
    user_id: u64,
    guild_id: Option<u64>,
    faces: &[i32; 4],
    now: Timestamp,
) -> (outcome: Result<Reply, HandlerError>)
    ensures
        final(dao).reliable() == old(dao).reliable(),
        old(dao).reliable() || guild_id is None ==> !(outcome matches Err(HandlerError::Store(_))),
        if outcome matches Err(HandlerError::Store(_)) {
            final(dao).model() == old(dao).model()
        } else {
            (final(dao).model(), outcome_view(outcome)) == roll(
                old(dao).model(),
                catalog@,
                user_id,
                guild_id,
                faces@,
                now,
            )
        },
{
    let guild = match guild_id {
        Some(guild) => guild,
        None => {
            return Ok(format_error(GUILD_ONLY));
        },
    };
    let id = sign_id(faces);
    let created = match dao.create_sign(guild, id, user_id, now) {
        Ok(created) => created,
        Err(e) => {
            return Err(HandlerError::Store(e));
        },
    };
    let created = match created {
        Some(created) => created,
        None => {
            return Ok(format_error(ALREADY_CREATED));
        },
    };
    match catalog.find(created.current_sign.id.as_str()) {
        Some(data) => Ok(
            Reply::message(render(data, created.current_sign.state), false, Some(control_button(false))),
        ),
        None => Err(HandlerError::UnknownSign),
    }
}

/// How the command is registered.
pub fn register() -> (info: CommandInfo)
    ensures
        info.name@ == NAME@,
        info.description@ == "Roll enoa sign"@,
{
    CommandInfo { name: String::from_str(NAME), description: String::from_str("Roll enoa sign") }
}

} // verus!
