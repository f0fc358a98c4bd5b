//! What the handlers share.

use crate::interaction::{message, Reply, ReplyView};
use vstd::prelude::*;
use vstd::string::StringExecFns;

verus! {

/// What a user is told who writes from outside any guild.
pub const GUILD_ONLY: &'static str = "Мне можно написать только с сервера.";

/// What a user is told who wants to influence a sign where there is none.
pub const NO_SIGN_YET: &'static str = "Сегодня еще не было знамения. Ты можешь его создать!";

/// What a user is told when something failed that the user cannot mend.
pub const WENT_WRONG: &'static str = "Что-то пошло не так";

/// An error message: the text under the heading for errors, shown to the actor alone.
pub open spec fn error_reply(text: Seq<char>) -> ReplyView {
    message("**Ошибка:**\n"@ + text, true, None)
}

/// The reply that tells the actor what went wrong.
pub fn format_error(msg: &str) -> (reply: Reply)
    ensures
        reply@ == error_reply(msg@),
{
    let mut content = String::from_str("**Ошибка:**\n");
    content.append(msg);
    Reply::message(content, true, None)
}

} // verus!
