//! The router: every inbound event goes to exactly one handler, and
//! whatever the handler does, the platform gets one well-formed reply.

use crate::chance::Chance;
use crate::commands::utils::{error_reply, format_error, WENT_WRONG};
use crate::commands::{modify_sign, sign_current, sign_my_power, sign_roll};
use crate::db::{Dao, StoreModel, Timestamp};
use crate::interaction::{
    CommandInfo, ComponentKind, HandlerError, Interaction, InteractionView, MessageRef, Reply,
    ReplyView, Response, ResponseView,
};
use crate::signs::{SignCatalog, SignDataView};
use crate::text::same_text;
use std::sync::Arc;
use vstd::prelude::*;

verus! {

/// Where an event goes.
#[derive(Clone, Copy, Debug, PartialEq, Eq, Structural)]
pub enum Route {
    /// A ping is answered at once.
    Pong,
    SignRoll,
    SignCurrent,
    SignMyPower,
    ChangeSign,
    /// No handler takes the event.
    NotFound,
}

/// The handler that an event belongs to: a command goes by its name, a
/// button by its identifier, a ping is answered, and nothing else is taken.
pub open spec fn route_of(interaction: InteractionView) -> Route {
    match interaction {
        InteractionView::Ping => Route::Pong,
        InteractionView::Command { name, .. } => if name == sign_roll::NAME@ {
            Route::SignRoll
        } else if name == sign_current::NAME@ {
            Route::SignCurrent
        } else if name == sign_my_power::NAME@ {
            Route::SignMyPower
        } else {
            Route::NotFound
        },
        InteractionView::Component { custom_id, kind, .. } => if kind == ComponentKind::Button
            && custom_id == modify_sign::CONTROL_ID@ {
            Route::ChangeSign
        } else {
            Route::NotFound
        },
        InteractionView::Other => Route::NotFound,
    }
}

/// Finds the handler of an event.
pub fn route(interaction: &Interaction) -> (route: Route)
    ensures
        route == route_of(interaction@),
{
    match interaction {
        Interaction::Ping => Route::Pong,
        Interaction::Command { name, .. } => {
            if same_text(name.as_str(), sign_roll::NAME) {
                Route::SignRoll
            } else if same_text(name.as_str(), sign_current::NAME) {
                Route::SignCurrent
            } else if same_text(name.as_str(), sign_my_power::NAME) {
                Route::SignMyPower
            } else {
                Route::NotFound
            }
        },
        Interaction::Component { custom_id, kind, .. } => {
            match kind {
                ComponentKind::Button => {
                    if same_text(custom_id.as_str(), modify_sign::CONTROL_ID) {
                        Route::ChangeSign
                    } else {
                        Route::NotFound
                    }
                },
                ComponentKind::Other => Route::NotFound,
            }
        },
        Interaction::Other => Route::NotFound,
    }
}

/// The commands that are registered with every guild: those that the
/// router takes.
pub fn registered_commands() -> (commands: Vec<CommandInfo>)
    ensures
        commands@.len() == 3,
        commands@[0].name@ == sign_roll::NAME@,
        commands@[0].description@ == "Roll enoa sign"@,
        commands@[1].name@ == sign_current::NAME@,
        commands@[1].description@ == "Get current enoa sign for this guild"@,
        commands@[2].name@ == sign_my_power::NAME@,
        commands@[2].description@ == "Show my current shaman power"@,
        forall|i: int|
            0 <= i < 3 ==> route_of(
                InteractionView::Command {
                    name: (#[trigger] commands@[i]).name@,
                    user_id: 0,
                    guild_id: None,
                },
            ) != Route::NotFound,
{
    let mut commands: Vec<CommandInfo> = Vec::new();
    commands.push(sign_roll::register());
    commands.push(sign_current::register());
    commands.push(sign_my_power::register());
    commands
}

/// The user behind an event, and the guild it came from, where it has them.
pub open spec fn actor_of(interaction: InteractionView) -> (u64, Option<u64>) {
    match interaction {
        InteractionView::Command { user_id, guild_id, .. } => (user_id, guild_id),
        InteractionView::Component { user_id, guild_id, .. } => (user_id, guild_id),
        _ => (0, None),
    }
}

/// The message under which a control was activated, and its text.
pub open spec fn message_of(interaction: InteractionView) -> (MessageRef, Seq<char>) {
    match interaction {
        InteractionView::Component { message, message_content, .. } => (message, message_content),
        _ => (MessageRef { channel_id: 0, message_id: 0 }, Seq::empty()),
    }
}

/// The answer to a ping.
pub open spec fn pong() -> ReplyView {
    ReplyView { response: Some(ResponseView::Pong), edit: None }
}

/// What the handler of an event does on a store that answers.
pub open spec fn dispatch(
    store: StoreModel,
    catalog: Map<Seq<char>, SignDataView>,
    interaction: InteractionView,
    chance: Chance,
    now: Timestamp,
) -> (StoreModel, Result<ReplyView, HandlerError>) {
    let (user_id, guild_id) = actor_of(interaction);
    match route_of(interaction) {
        Route::Pong => (store, Ok(pong())),
        Route::SignRoll => sign_roll::roll(store, catalog, user_id, guild_id, chance.faces@, now),
        Route::SignCurrent => (store, sign_current::current(store, catalog, guild_id, now)),
        Route::SignMyPower => (store, Ok(sign_my_power::my_power(store, user_id, guild_id))),
        Route::ChangeSign => modify_sign::influence(
            store,
            catalog,
            user_id,
            guild_id,
            message_of(interaction).0,
            message_of(interaction).1,
            chance.roll,
            chance.coin,
            now,
        ),
        Route::NotFound => (store, Err(HandlerError::NotFound)),
    }
}

/// The one reply that the platform gets: the handler's own, or, whatever
/// went wrong inside, the same plain error message.
pub open spec fn settle(outcome: Result<ReplyView, HandlerError>) -> ReplyView {
    match outcome {
        Ok(reply) => reply,
        Err(_) => error_reply(WENT_WRONG@),
    }
}

/// What handling an event comes to on a store that answers.
pub open spec fn handled(
    store: StoreModel,
    catalog: Map<Seq<char>, SignDataView>,
    interaction: InteractionView,
    chance: Chance,
    now: Timestamp,
) -> (StoreModel, ReplyView) {
    let (after, outcome) = dispatch(store, catalog, interaction, chance, now);
    (after, settle(outcome))
}

/// A ping is answered with a pong, and nothing else is: the store is not
/// asked and stays as it is, whether it would have answered or not.
pub proof fn law_ping_is_answered_without_the_store(
    before: StoreModel,
    reliable: bool,
    catalog: Map<Seq<char>, SignDataView>,
    chance: Chance,
    now: Timestamp,
    after: StoreModel,
    reply: ReplyView,
)
    requires
        answers(before, reliable, catalog, InteractionView::Ping, chance, now, after, reply),
    ensures
        after == before,
        reply == pong(),
{
}

/// Every event gets one response, whatever it is and whatever the store
/// holds: the handler's own message, a pong, or the plain error message.
/// Only a successful influence asks for a change to a message as well.
pub proof fn law_every_event_is_answered(
    store: StoreModel,
    catalog: Map<Seq<char>, SignDataView>,
    interaction: InteractionView,
    chance: Chance,
    now: Timestamp,
)
    ensures
        handled(store, catalog, interaction, chance, now).1.response is Some,
        handled(store, catalog, interaction, chance, now).1.edit is Some ==> route_of(interaction)
            == Route::ChangeSign,
        route_of(interaction) == Route::NotFound ==> handled(store, catalog, interaction, chance, now)
            == (store, error_reply(WENT_WRONG@)),
{
}

/// Whether handling the event asks the store: it does for the three
/// commands and the control, when they come from a guild. A ping, an event
/// that no handler takes and an event from outside any guild are answered
/// without the store.
pub open spec fn asks_store(interaction: InteractionView) -> bool {
    route_of(interaction) != Route::Pong && route_of(interaction) != Route::NotFound && actor_of(
        interaction,
    ).1 is Some
}

/// Whether `after` and `reply` are a way in which handling the event can
/// end. On a store that answers, and for every event that does not ask the
/// store, there is one way, that of `handled`. Where the store is asked
/// and fails, the plain error message is sent, no user has changed and
/// the signs are either untouched or as `handled` leaves them.
pub open spec fn answers(
    before: StoreModel,
    reliable: bool,
    catalog: Map<Seq<char>, SignDataView>,
    interaction: InteractionView,
    chance: Chance,
    now: Timestamp,
    after: StoreModel,
    reply: ReplyView,
) -> bool {
    let expected = handled(before, catalog, interaction, chance, now);
    ||| (after, reply) == expected
    ||| {
        &&& !reliable
        &&& asks_store(interaction)
        &&& reply == error_reply(WENT_WRONG@)
        &&& after.users == before.users
        &&& after.signs == before.signs || after.signs == expected.0.signs
    }
}

/// What the platform is sent once the change to the message has been
/// tried: the handler's answer, or the plain error message if the change
/// was asked for and failed.
pub open spec fn concluded(reply: ReplyView, edit_succeeded: bool) -> Option<ResponseView> {
    if reply.edit is Some && !edit_succeeded {
        error_reply(WENT_WRONG@).response
    } else {
        reply.response
    }
}

/// Settles what is sent once the change to the message has been tried.
pub fn conclude(reply: Reply, edit_succeeded: bool) -> (response: Option<Response>)
    ensures
        (match response {
            Some(r) => Some(r@),
            None => None,
        }) == concluded(reply@, edit_succeeded),
{
    if reply.edit.is_some() && !edit_succeeded {
        format_error(WENT_WRONG).response
    } else {
        reply.response
    }
}

/// The router with what it routes to: the store, and the sign catalog
/// that all routers share.
pub struct Handler<D: Dao> {
    dao: D,
    catalog: Arc<SignCatalog>,
}

impl<D: Dao> Handler<D> {
    /// What the store holds.
    pub closed spec fn store(&self) -> StoreModel {
        self.dao.model()
    }

    /// Whether the store answers every request.
    pub closed spec fn reliable(&self) -> bool {
        self.dao.reliable()
    }

    /// The sign definitions.
    pub closed spec fn signs(&self) -> Map<Seq<char>, SignDataView> {
        self.catalog@
    }

    /// A router for the store and the catalog.
    pub fn new(dao: D, catalog: Arc<SignCatalog>) -> (handler: Handler<D>)
        ensures
            handler.store() == dao.model(),
            handler.reliable() == dao.reliable(),
            handler.signs() == catalog@,
    {
        Handler { dao, catalog }
    }

    /// The store.
    pub fn dao(&self) -> (dao: &D)
        ensures
            dao.model() == self.store(),
            dao.reliable() == self.reliable(),
    {
        &self.dao
    }

    /// The sign catalog.
    pub fn catalog(&self) -> (catalog: &SignCatalog)
        ensures
            catalog@ == self.signs(),
    {
        &self.catalog
    }

    /// Handles one event with the dice as they have fallen.
    pub fn handle_with(&mut self, interaction: &Interaction, chance: &Chance, now: Timestamp) -> (reply:
        Reply)
        ensures
            final(self).signs() == old(self).signs(),
            final(self).reliable() == old(self).reliable(),
            answers(
                old(self).store(),
                old(self).reliable(),
                old(self).signs(),
                interaction@,
                *chance,
                now,
                final(self).store(),
                reply@,
            ),
    {
        let outcome = match route(interaction) {
            Route::Pong => Ok(Reply { response: Some(Response::Pong), edit: None }),
            Route::NotFound => Err(HandlerError::NotFound),
            Route::SignRoll => match interaction {
                Interaction::Command { user_id, guild_id, .. } => sign_roll::run(
                    &mut self.dao,
                    &self.catalog,
                    *user_id,
                    *guild_id,
                    &chance.faces,
                    now,
                ),
                _ => Err(HandlerError::NotFound),
            },
            Route::SignCurrent => match interaction {
                Interaction::Command { guild_id, .. } => sign_current::run(
                    &self.dao,
                    &self.catalog,
                    *guild_id,
                    now,
                ),
                _ => Err(HandlerError::NotFound),
            },
            Route::SignMyPower => match interaction {
                Interaction::Command { user_id, guild_id, .. } => sign_my_power::run(
                    &self.dao,
                    *user_id,
                    *guild_id,
                ),
                _ => Err(HandlerError::NotFound),
            },
            Route::ChangeSign => match interaction {
                Interaction::Component {
                    user_id,
                    guild_id,
                    message,
                    message_content,
                    ..
                } => modify_sign::run(
                    &mut self.dao,
                    &self.catalog,
                    *user_id,
                    *guild_id,
                    *message,
                    message_content.as_str(),
                    chance.roll,
                    chance.coin,
                    now,
                ),
                _ => Err(HandlerError::NotFound),
            },
        };
        match outcome {
            Ok(reply) => reply,
            Err(_) => format_error(WENT_WRONG),
        }
    }

    /// Handles one event, rolling the dice for it.
    pub fn handle_interaction(&mut self, interaction: &Interaction, now: Timestamp) -> (reply: Reply)
        ensures
            final(self).signs() == old(self).signs(),
            final(self).reliable() == old(self).reliable(),
            exists|chance: Chance|
                chance.fair() && #[trigger] answers(
                    old(self).store(),
                    old(self).reliable(),
                    old(self).signs(),
                    interaction@,
                    chance,
                    now,
                    final(self).store(),
                    reply@,
                ),
    {
        let chance = Chance::draw();
        self.handle_with(interaction, &chance, now)
    }
}

} // verus!
