//! The control under a sign: an attempt to influence it.

use crate::commands::utils::{error_reply, format_error, GUILD_ONLY, NO_SIGN_YET};
use crate::db::{
    guild_view, Dao, GuildInfo, GuildInfoView, SignState, StoreModel, Timestamp, UserInfo,
    DEFAULT_POWER,
};
use crate::engine::{
    attempt_fits, attempt_outcome, checked_outcome, influence_verdict, validate_influence, Attempt,
    Rejection,
};
use crate::interaction::{
    outcome_view, Button, ButtonView, HandlerError, MessageEdit, MessageEditView, MessageRef, Reply,
    ReplyView, Response, ResponseView, PRIMARY,
};
use crate::signs::{render, rendered_sign, SignCatalog, SignDataView};
use crate::text::{decimal, i32_to_string, signed_decimal, u64_to_string};
use vstd::prelude::*;
use vstd::string::StringExecFns;

verus! {

/// The identifier of the control.
pub const CONTROL_ID: &'static str = "change_sign";

/// What the control says.
pub const CONTROL_LABEL: &'static str = "Повлиять на знамение";

/// What a user is told when today's sign is resolved.
pub const ALREADY_INFLUENCED: &'static str = "Кто-то уже повлиял на знамение сегодня";

/// What the maker of today's sign is told.
pub const CREATOR_MAY_NOT: &'static str =
    "Повлиять на знамение может только тот, кто его не создавал";

/// What a user is told whose attempt came too late for a reason that
/// cannot be told.
pub const NOT_NOW: &'static str = "Ты не можешь повлиять на знамение сейчас";

/// The control under a sign, open or closed: a button that stands out.
pub open spec fn control(disabled: bool) -> ButtonView {
    ButtonView { custom_id: CONTROL_ID@, label: CONTROL_LABEL@, style: PRIMARY, disabled }
}

/// Makes the control.
pub fn control_button(disabled: bool) -> (button: Button)
    ensures
        button@ == control(disabled),
{
    Button {
        custom_id: String::from_str(CONTROL_ID),
        label: String::from_str(CONTROL_LABEL),
        style: PRIMARY,
        disabled,
    }
}

/// What a user is told who may not influence the sign.
pub open spec fn rejection_message(rejection: Rejection) -> Seq<char> {
    match rejection {
        Rejection::NoSignToday => NO_SIGN_YET@,
        Rejection::AlreadyResolved => ALREADY_INFLUENCED@,
        Rejection::CreatorCannotInfluence => CREATOR_MAY_NOT@,
    }
}

/// The text for a rejection.
pub fn rejection_text(rejection: Rejection) -> (text: &'static str)
    ensures
        text@ == rejection_message(rejection),
{
    match rejection {
        Rejection::NoSignToday => NO_SIGN_YET,
        Rejection::AlreadyResolved => ALREADY_INFLUENCED,
        Rejection::CreatorCannotInfluence => CREATOR_MAY_NOT,
    }
}

/// What a user is told whose resolution came too late: the reason for
/// which the user may not influence the sign as it now stands, or, if no
/// such reason can be found, that it cannot be done now.
pub open spec fn conflict_message(current: Option<GuildInfoView>, user_id: u64) -> Seq<char> {
    match influence_verdict(current, user_id) {
        Err(rejection) => rejection_message(rejection),
        Ok(()) => NOT_NOW@,
    }
}

/// The reply to a user who lost a race for the sign, from the sign as the
/// store reported it with the conflict.
pub fn conflict_reply(current: &Option<GuildInfo>, user_id: u64) -> (reply: Reply)
    ensures
        reply@ == error_reply(conflict_message(guild_view(*current), user_id)),
{
    match validate_influence(current, user_id) {
        Err(rejection) => format_error(rejection_text(rejection)),
        Ok(()) => format_error(NOT_NOW),
    }
}

/// The state into which an attempt by `user_id` resolves a sign.
pub open spec fn resolved_state(attempt: Attempt, user_id: u64) -> SignState {
    if attempt.success {
        SignState::Success { by_user_id: user_id }
    } else {
        SignState::Failed { by_user_id: user_id }
    }
}

/// The message that reports an attempt, above the text of the resolved sign.
pub open spec fn influence_message(user_id: u64, attempt: Attempt, sign_text: Seq<char>) -> Seq<char> {
    "__**Знамение изменено**__\n*<@"@ + decimal(user_id as nat) + "> попытался повлиять на судьбу, "@
        + (if attempt.success {
        "и у него получилось"@
    } else {
        "но сделал только хуже"@
    }) + "*\nЕго шаманская сила "@ + (if attempt.success && attempt.power_changed {
        "уменьшилась"@
    } else if !attempt.success {
        "увеличилась"@
    } else {
        "не изменилась"@
    }) + " и равна "@ + signed_decimal(attempt.new_power as int) + "\n\n\n"@ + sign_text
}

/// Writes the message that reports an attempt.
pub fn influence_text(user_id: u64, attempt: &Attempt, sign_text: &str) -> (text: String)
    ensures
        text@ == influence_message(user_id, *attempt, sign_text@),
{
    let mut text = String::from_str("__**Знамение изменено**__\n*<@");
    text.append(u64_to_string(user_id).as_str());
    text.append("> попытался повлиять на судьбу, ");
    text.append(
        if attempt.success {
            "и у него получилось"
        } else {
            "но сделал только хуже"
        },
    );
    text.append("*\nЕго шаманская сила ");
    text.append(
        if attempt.success && attempt.power_changed {
            "уменьшилась"
        } else if !attempt.success {
            "увеличилась"
        } else {
            "не изменилась"
        },
    );
    text.append(" и равна ");
    text.append(i32_to_string(attempt.new_power).as_str());
    text.append("\n\n\n");
    text.append(sign_text);
    text
}

/// What is left to do after a successful attempt: close the control under
/// the message, and report the attempt above the resolved sign.
pub open spec fn influence_reply(
    user_id: u64,
    attempt: Attempt,
    data: SignDataView,
    message: MessageRef,
    message_content: Seq<char>,
) -> ReplyView {
    ReplyView {
        response: Some(
            ResponseView::Message {
                content: influence_message(
                    user_id,
                    attempt,
                    rendered_sign(data, resolved_state(attempt, user_id)),
                ),
                ephemeral: false,
                button: None,
            },
        ),
        edit: Some(MessageEditView { message, content: message_content, button: control(true) }),
    }
}

/// An influence attempt from start to end, on a store that answers: what
/// the store holds afterwards and what the actor is told.
///
/// Outside a guild nothing happens. A user who may not influence the sign
/// is told why and the store stays as it is. Otherwise the user's power,
/// ten if the store has never seen the user, and the sign's difficulty
/// decide with `roll` and `coin`; the sign is resolved accordingly, the
/// user's new power is saved, and the reply reports both. Only where the
/// new power would leave the range of powers, at a failure with the
/// greatest power or a costly success with the least, nothing is done.
pub open spec fn influence(
    store: StoreModel,
    catalog: Map<Seq<char>, SignDataView>,
    user_id: u64,
    guild_id: Option<u64>,
    message: MessageRef,
    message_content: Seq<char>,
    roll: i32,
    coin: bool,
    now: Timestamp,
) -> (StoreModel, Result<ReplyView, HandlerError>) {
    match guild_id {
        None => (store, Ok(error_reply(GUILD_ONLY@))),
        Some(guild) => {
            let sign = store.sign_today(guild, now.day);
            match influence_verdict(sign, user_id) {
                Err(rejection) => (store, Ok(error_reply(rejection_message(rejection)))),
                Ok(()) => {
                    let power = match store.user(user_id, guild) {
                        Some(user) => user.shaman_power,
                        None => DEFAULT_POWER,
                    };
                    let id = sign->0.current_sign.id;
                    if !catalog.contains_key(id) {
                        (store, Err(HandlerError::UnknownSign))
                    } else if !attempt_fits(power, catalog[id].difficulty, roll, coin) {
                        (store, Err(HandlerError::PowerOutOfRange))
                    } else {
                        let attempt = attempt_outcome(power, catalog[id].difficulty, roll, coin);
                        let resolved = store.change_sign_state(
                            guild,
                            resolved_state(attempt, user_id),
                            now,
                        ).0;
                        (
                            resolved.save_user(
                                UserInfo { id: user_id, guild_id: guild, shaman_power: attempt.new_power },
                            ),
                            Ok(influence_reply(user_id, attempt, catalog[id], message, message_content)),
                        )
                    }
                },
            }
        },
    }
}

/// The maker of today's open sign who tries to influence it is told that
/// the maker may not, whatever the dice show, and the store stays as it is.
pub proof fn law_creator_is_turned_away(
    store: StoreModel,
    catalog: Map<Seq<char>, SignDataView>,
    user_id: u64,
    guild_id: u64,
    message: MessageRef,
    message_content: Seq<char>,
    roll: i32,
    coin: bool,
    now: Timestamp,
)
    requires
        store.sign_today(guild_id, now.day) matches Some(g) && g.current_sign.state is Created
            && g.current_sign.created_by_user_id == user_id,
    ensures
        influence(store, catalog, user_id, Some(guild_id), message, message_content, roll, coin, now) == (
            store,
            Ok::<ReplyView, HandlerError>(error_reply(CREATOR_MAY_NOT@)),
        ),
{
}

/// An attempt that goes through resolves the sign once and for all and
/// moves the user's power by the one step that the attempt decides.
pub proof fn law_influence_resolves_and_moves_power(
    store: StoreModel,
    catalog: Map<Seq<char>, SignDataView>,
    user_id: u64,
    guild_id: u64,
    message: MessageRef,
    message_content: Seq<char>,
    roll: i32,
    coin: bool,
    now: Timestamp,
)
    requires
        influence_verdict(store.sign_today(guild_id, now.day), user_id) is Ok,
        catalog.contains_key(store.signs[guild_id].id),
        attempt_fits(
            match store.user(user_id, guild_id) {
                Some(user) => user.shaman_power,
                None => DEFAULT_POWER,
            },
            catalog[store.signs[guild_id].id].difficulty,
            roll,
            coin,
        ),
    ensures
        ({
            let power = match store.user(user_id, guild_id) {
                Some(user) => user.shaman_power,
                None => DEFAULT_POWER,
            };
            let attempt = attempt_outcome(power, catalog[store.signs[guild_id].id].difficulty, roll, coin);
            let (after, outcome) = influence(
                store,
                catalog,
                user_id,
                Some(guild_id),
                message,
                message_content,
                roll,
                coin,
                now,
            );
            &&& outcome is Ok
            &&& after.sign_today(guild_id, now.day) matches Some(g) && g.current_sign.state
                == resolved_state(attempt, user_id) && g.current_sign.state.resolver() == Some(user_id)
            &&& after.user(user_id, guild_id) == Some(
                UserInfo { id: user_id, guild_id, shaman_power: attempt.new_power },
            )
            &&& power - 1 <= attempt.new_power <= power + 1
            &&& influence_verdict(after.sign_today(guild_id, now.day), user_id) == Err::<(), Rejection>(
                Rejection::AlreadyResolved,
            )
        }),
{
}

/// Handles an activation of the control by `user_id`, with the roll and the
/// coin that chance has dealt.
///
/// Unless the store fails, the store and the reply are those of
/// `influence`. If the store fails, no user has changed, and the signs are
/// either untouched or as the whole attempt would have left them. Outside
/// a guild the store is not asked, so it cannot fail.
pub fn run<D: Dao>(
    dao: &mut D,
    catalog: &SignCatalog,
    user_id: u64,
    guild_id: Option<u64>,
    message: MessageRef,
    message_content: &str,
    roll: i32,
    coin: bool,
    now: Timestamp,
) -> (outcome: Result<Reply, HandlerError>)
    ensures
        final(dao).reliable() == old(dao).reliable(),
        old(dao).reliable() || guild_id is None ==> !(outcome matches Err(HandlerError::Store(_))),
        ({
            let expected = influence(
                old(dao).model(),
                catalog@,
                user_id,
                guild_id,
                message,
                message_content@,
                roll,
                coin,
                now,
            );
            if outcome matches Err(HandlerError::Store(_)) {
                &&& final(dao).model().users == old(dao).model().users
                &&& final(dao).model().signs == old(dao).model().signs || final(dao).model().signs
                    == expected.0.signs
            } else {
                (final(dao).model(), outcome_view(outcome)) == expected
            }
        }),
{
    let guild = match guild_id {
        Some(guild) => guild,
        None => {
            return Ok(format_error(GUILD_ONLY));
        },
    };
    let user = match dao.get_user_info(user_id, guild) {
        Ok(user) => user,
        Err(e) => {
            return Err(HandlerError::Store(e));
        },
    };
    let sign = match dao.get_guild_info(guild, now) {
        Ok(sign) => sign,
        Err(e) => {
            return Err(HandlerError::Store(e));
        },
    };
    match validate_influence(&sign, user_id) {
        Err(rejection) => {
            return Ok(format_error(rejection_text(rejection)));
        },
        Ok(()) => {},
    }
    let power = match user {
        Some(user) => user.shaman_power,
        None => DEFAULT_POWER,
    };
    let sign = match sign {
        Some(sign) => sign,
        None => {
            return Ok(format_error(NO_SIGN_YET));
        },
    };
    let data = match catalog.find(sign.current_sign.id.as_str()) {
        Some(data) => data,
        None => {
            return Err(HandlerError::UnknownSign);
        },
    };
    let attempt = match checked_outcome(power, data.difficulty, roll, coin) {
        Some(attempt) => attempt,
        None => {
            return Err(HandlerError::PowerOutOfRange);
        },
    };
    let state = if attempt.success {
        SignState::Success { by_user_id: user_id }
    } else {
        SignState::Failed { by_user_id: user_id }
    };
    let answer = match dao.change_sign_state(guild, state, now) {
        Ok(answer) => answer,
        Err(e) => {
            return Err(HandlerError::Store(e));
        },
    };
    let resolved = match answer {
        Ok(resolved) => resolved,
        Err(current) => {
            return Ok(conflict_reply(&current, user_id));
        },
    };
    let saved = dao.save_user_info(
        UserInfo { id: user_id, guild_id: guild, shaman_power: attempt.new_power },
    );
    match saved {
        Ok(()) => {},
        Err(e) => {
            return Err(HandlerError::Store(e));
        },
    }
    let sign_text = render(data, resolved.current_sign.state);
    let content = influence_text(user_id, &attempt, sign_text.as_str());
    Ok(
        Reply {
            response: Some(Response::Message { content, ephemeral: false, button: None }),
            edit: Some(
                MessageEdit {
                    message,
                    content: String::from_str(message_content),
                    button: control_button(true),
                },
            ),
        },
    )
}

} // verus!
