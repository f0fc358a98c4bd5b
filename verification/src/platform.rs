//! The chat platform's own formats and its signatures, which only its
//! library can read, write and check.

use crate::interaction::{
    ComponentKind, Interaction, InteractionView, MessageRef, Response, ResponseView,
};
use serenity::all::{
    ButtonStyle, ComponentInteractionDataKind, CreateButton, CreateInteractionResponse,
    CreateInteractionResponseMessage,
};
use serenity::all::Interaction as Event;
use serenity::interactions_endpoint::Verifier;
use serenity::json::{from_slice, to_vec};
use vstd::prelude::*;

verus! {

/// Whether the platform's key `key` signed `timestamp` followed by `body`
/// with `signature`, written in hexadecimal.
pub uninterp spec fn signature_accepted(
    key: Seq<u8>,
    signature: Seq<char>,
    timestamp: Seq<char>,
    body: Seq<u8>,
) -> bool;

/// The event that a request body holds, if it holds one.
pub uninterp spec fn decoded_event(body: Seq<u8>) -> Option<InteractionView>;

/// The bytes in which the platform expects a response, if it can be written.
pub uninterp spec fn encoded_response(response: ResponseView) -> Option<Seq<u8>>;

/// The pieces into which a separator cuts a text. A text without the
/// separator is one piece, and so is the empty text.
pub open spec fn pieces(text: Seq<char>, separator: char) -> Seq<Seq<char>>
    decreases text.len(),
{
    if text.len() == 0 {
        seq![Seq::empty()]
    } else {
        let rest = pieces(text.drop_first(), separator);
        if text[0] == separator {
            seq![Seq::empty()] + rest
        } else {
            rest.update(0, seq![text[0]] + rest[0])
        }
    }
}

/// The pairs that a list of pieces holds: a piece with an equals sign gives
/// what stands before the first and what stands between the first and the
/// second; a piece without one gives nothing.
pub open spec fn pairs_in(parts: Seq<Seq<char>>) -> Seq<(Seq<char>, Seq<char>)>
    decreases parts.len(),
{
    if parts.len() == 0 {
        Seq::empty()
    } else {
        let halves = pieces(parts.last(), '=');
        if halves.len() >= 2 {
            pairs_in(parts.drop_last()).push((halves[0], halves[1]))
        } else {
            pairs_in(parts.drop_last())
        }
    }
}

/// The key-value pairs of a query string: those of its pieces between
/// ampersands, in their order.
pub open spec fn querified(query: Seq<char>) -> Seq<(Seq<char>, Seq<char>)> {
    pairs_in(pieces(query, '&'))
}

/// Checks an Ed25519 signature over `timestamp` followed by `body`.
///
/// Makes a `serenity::interactions_endpoint::Verifier` from the 32 bytes of
/// `key` with `Verifier::try_new` and calls `verify` on it. A key that is no
/// valid public key accepts nothing. The outcome depends on the four
/// arguments alone, and the contract gives it a name.
#[verifier::external_body]
pub(crate) fn check_signature(key: &[u8; 32], signature: &str, timestamp: &str, body: &[u8]) -> (accepted:
    bool)
    ensures
        accepted == signature_accepted(key@, signature@, timestamp@, body@),
{
    match Verifier::try_new(*key) {
        Ok(verifier) => verifier.verify(signature, timestamp, body).is_ok(),
        Err(_) => false,
    }
}

/// Reads the event in a request body.
///
/// Calls `serenity::json::from_slice` for a `serenity::all::Interaction`
/// and keeps of it the kind of event, the name of the command or the
/// identifier and kind of the control, the acting user, the guild, and the
/// place and text of the message under a control. The outcome depends on the bytes
/// alone, and the contract gives it a name.
#[verifier::external_body]
pub(crate) fn decode_event(body: &[u8]) -> (event: Option<Interaction>)
    ensures
        match event {
            Some(e) => decoded_event(body@) == Some(e@),
            None => decoded_event(body@) is None,
        },
{
    Some(match from_slice(body).ok()? {
        Event::Ping(_) => Interaction::Ping,
        Event::Command(c) => Interaction::Command {
            name: c.data.name, user_id: c.user.id.get(), guild_id: c.guild_id.map(|g| g.get()),
        },
        Event::Component(c) => Interaction::Component {
            kind: match c.data.kind { ComponentInteractionDataKind::Button => ComponentKind::Button, _ => ComponentKind::Other },
            custom_id: c.data.custom_id, user_id: c.user.id.get(), guild_id: c.guild_id.map(|g| g.get()),
            message: MessageRef { channel_id: c.message.channel_id.get(), message_id: c.message.id.get() },
            message_content: c.message.content,
        },
        _ => Interaction::Other,
    })
}

/// Writes a response as the platform expects it.
///
/// Builds a `serenity::all::CreateInteractionResponse` with serenity's
/// builders, with the ephemeral flag and the button where the response has
/// them, and calls `serenity::json::to_vec` on it. The outcome depends on the response
/// alone, and the contract gives it a name.
#[verifier::external_body]
pub(crate) fn encode_response(response: &Response) -> (bytes: Option<Vec<u8>>)
    ensures
        match bytes {
            Some(b) => encoded_response(response@) == Some(b@),
            None => encoded_response(response@) is None,
        },
{
    let built = match response {
        Response::Pong => CreateInteractionResponse::Pong,
        Response::Message { content, ephemeral, button } => {
            let m = CreateInteractionResponseMessage::new().content(content);
            let m = if *ephemeral { m.ephemeral(true) } else { m };
            CreateInteractionResponse::Message(match button {
                Some(b) => m.button(CreateButton::new(&b.custom_id).label(&b.label).disabled(b.disabled).style(ButtonStyle::from(b.style))),
                None => m,
            })
        },
    };
    to_vec(&built).ok()
}

/// Splits a query string into its pairs.
///
/// Calls `querystring::querify` and copies each pair. The contract states
/// what `querify` does: it cuts the text at every ampersand and each piece
/// at its equals signs, and keeps the first two parts of every piece that
/// has two.
#[verifier::external_body]
pub(crate) fn query_pairs(query: &str) -> (pairs: Vec<(String, String)>)
    ensures
        pairs@.len() == querified(query@).len(),
        forall|i: int|
            0 <= i < pairs@.len() ==> (#[trigger] pairs@[i]).0@ == querified(query@)[i].0 && pairs@[i].1@
                == querified(query@)[i].1,
{
    querystring::querify(query).into_iter().map(|(k, v)| (k.to_string(), v.to_string())).collect()
}

} // verus!
