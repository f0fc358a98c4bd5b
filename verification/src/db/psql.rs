//! How records lie in the rows of a relational store: identifiers as
//! decimal text, the state as a label beside the identifier of the user
//! who resolved the sign.

use crate::db::{
    guild_view, GuildInfo, GuildInfoView, SignInfo, SignInfoView, SignState, StoreError, Timestamp,
};
use crate::text::{decimal, law_decimal_round_trip, parse_u64, parsed_u64, same_text, u64_to_string};
use vstd::prelude::*;

verus! {

/// The label of an open sign.
pub const CREATED: &'static str = "Created";

/// The label of a sign that was influenced with success.
pub const SUCCESS: &'static str = "Success";

/// The label of a sign that was influenced without success.
pub const FAILED: &'static str = "Failed";

/// The label under which a state is stored.
pub open spec fn state_label(state: SignState) -> Seq<char> {
    match state {
        SignState::Created => CREATED@,
        SignState::Success { .. } => SUCCESS@,
        SignState::Failed { .. } => FAILED@,
    }
}

/// The label to store for a state.
pub fn label_of(state: SignState) -> (label: &'static str)
    ensures
        label@ == state_label(state),
{
    match state {
        SignState::Created => CREATED,
        SignState::Success { .. } => SUCCESS,
        SignState::Failed { .. } => FAILED,
    }
}

/// What a conditional update writes for a resolution: the label of the new
/// state and the identifier of the user who brought it about. No sign is
/// ever changed into `Created`.
pub open spec fn encoded_state(new_state: SignState) -> Result<(Seq<char>, Seq<char>), StoreError> {
    match new_state.resolver() {
        None => Err(StoreError::InvalidState),
        Some(user_id) => Ok((state_label(new_state), decimal(user_id as nat))),
    }
}

/// The columns to write for a resolution.
pub fn encode_state(new_state: SignState) -> (columns: Result<(&'static str, String), StoreError>)
    ensures
        match columns {
            Ok((label, made_by)) => encoded_state(new_state) == Ok::<_, StoreError>((label@, made_by@)),
            Err(e) => encoded_state(new_state) == Err::<(Seq<char>, Seq<char>), _>(e),
        },
{
    match new_state.resolved_by() {
        None => Err(StoreError::InvalidState),
        Some(user_id) => Ok((label_of(new_state), u64_to_string(user_id))),
    }
}

/// The state that a label and the identifier beside it stand for. A
/// resolved state needs the identifier of its user; a label that is none
/// of the three is no state.
pub open spec fn decoded_state(label: Seq<char>, made_by: Option<Seq<char>>) -> Result<
    SignState,
    StoreError,
> {
    if label == CREATED@ {
        Ok(SignState::Created)
    } else if label == SUCCESS@ || label == FAILED@ {
        match made_by {
            None => Err(StoreError::CorruptRecord),
            Some(text) => match parsed_u64(text) {
                None => Err(StoreError::CorruptRecord),
                Some(by_user_id) => if label == SUCCESS@ {
                    Ok(SignState::Success { by_user_id })
                } else {
                    Ok(SignState::Failed { by_user_id })
                },
            },
        }
    } else {
        Err(StoreError::CorruptRecord)
    }
}

/// Reads a state from its columns.
pub fn decode_state(label: &str, made_by: &Option<String>) -> (state: Result<SignState, StoreError>)
    ensures
        state == decoded_state(
            label@,
            match *made_by {
                Some(text) => Some(text@),
                None => None,
            },
        ),
{
    if same_text(label, CREATED) {
        return Ok(SignState::Created);
    }
    let success = same_text(label, SUCCESS);
    if !success && !same_text(label, FAILED) {
        return Err(StoreError::CorruptRecord);
    }
    let by_user_id = match made_by {
        Some(text) => match parse_u64(text.as_str()) {
            Some(id) => id,
            None => {
                return Err(StoreError::CorruptRecord);
            },
        },
        None => {
            return Err(StoreError::CorruptRecord);
        },
    };
    if success {
        Ok(SignState::Success { by_user_id })
    } else {
        Ok(SignState::Failed { by_user_id })
    }
}

/// Every state is read back as it was written; in particular a failure is
/// never read back as a success.
pub proof fn law_state_round_trip(state: SignState)
    ensures
        decoded_state(
            state_label(state),
            match state.resolver() {
                Some(user_id) => Some(decimal(user_id as nat)),
                None => None,
            },
        ) == Ok::<SignState, StoreError>(state),
{
    reveal_strlit("Created");
    reveal_strlit("Success");
    reveal_strlit("Failed");
    assert(CREATED@[0] != SUCCESS@[0]);
    assert(CREATED@[0] != FAILED@[0]);
    assert(SUCCESS@[0] != FAILED@[0]);
    match state.resolver() {
        Some(user_id) => {
            law_decimal_round_trip(user_id);
        },
        None => {},
    }
}

/// The row of a guild as the store returns it.
#[derive(Debug, PartialEq, Eq)]
pub struct GuildRow {
    pub sign_id: String,
    pub sign_created_at: Timestamp,
    pub sign_created_by_id: String,
    pub sign_state: String,
    pub sign_state_made_by_id: Option<String>,
}

/// What a `GuildRow` stands for.
pub struct GuildRowView {
    pub sign_id: Seq<char>,
    pub sign_created_at: Timestamp,
    pub sign_created_by_id: Seq<char>,
    pub sign_state: Seq<char>,
    pub sign_state_made_by_id: Option<Seq<char>>,
}

impl View for GuildRow {
    type V = GuildRowView;

    open spec fn view(&self) -> GuildRowView {
        GuildRowView {
            sign_id: self.sign_id@,
            sign_created_at: self.sign_created_at,
            sign_created_by_id: self.sign_created_by_id@,
            sign_state: self.sign_state@,
            sign_state_made_by_id: match self.sign_state_made_by_id {
                Some(text) => Some(text@),
                None => None,
            },
        }
    }
}

/// Today's sign in the row of a guild. A row whose sign was made on an
/// earlier day holds none, whatever else it holds. Otherwise the creator
/// and the state must be readable.
pub open spec fn decoded_guild(guild_id: u64, row: GuildRowView, now: Timestamp) -> Result<
    Option<GuildInfoView>,
    StoreError,
> {
    if !row.sign_created_at.counts_on(now.day) {
        Ok(None)
    } else {
        match (
            parsed_u64(row.sign_created_by_id),
            decoded_state(row.sign_state, row.sign_state_made_by_id),
        ) {
            (Some(created_by_user_id), Ok(state)) => Ok(
                Some(
                    GuildInfoView {
                        guild_id,
                        current_sign: SignInfoView {
                            id: row.sign_id,
                            created_by_user_id,
                            state,
                            created_at: row.sign_created_at,
                        },
                    },
                ),
            ),
            _ => Err(StoreError::CorruptRecord),
        }
    }
}

/// Reads today's sign from the row of a guild.
pub fn decode_guild(guild_id: u64, row: GuildRow, now: Timestamp) -> (found: Result<
    Option<GuildInfo>,
    StoreError,
>)
    ensures
        match found {
            Ok(sign) => decoded_guild(guild_id, row@, now) == Ok::<_, StoreError>(guild_view(sign)),
            Err(e) => decoded_guild(guild_id, row@, now) == Err::<Option<GuildInfoView>, _>(e),
        },
{
    if !row.sign_created_at.is_today(&now) {
        return Ok(None);
    }
    let created_by_user_id = match parse_u64(row.sign_created_by_id.as_str()) {
        Some(id) => id,
        None => {
            return Err(StoreError::CorruptRecord);
        },
    };
    let state = match decode_state(row.sign_state.as_str(), &row.sign_state_made_by_id) {
        Ok(state) => state,
        Err(_) => {
            return Err(StoreError::CorruptRecord);
        },
    };
    Ok(
        Some(
            GuildInfo {
                guild_id,
                current_sign: SignInfo {
                    id: row.sign_id,
                    created_by_user_id,
                    state,
                    created_at: row.sign_created_at,
                },
            },
        ),
    )
}

/// The record of a sign that the store has just created.
pub fn created_guild(guild_id: u64, sign_id: String, sign_created_by: u64, created_at: Timestamp) -> (created:
    GuildInfo)
    ensures
        created@ == (GuildInfoView {
            guild_id,
            current_sign: SignInfoView {
                id: sign_id@,
                created_by_user_id: sign_created_by,
                state: SignState::Created,
                created_at,
            },
        }),
{
    GuildInfo {
        guild_id,
        current_sign: SignInfo {
            id: sign_id,
            created_by_user_id: sign_created_by,
            state: SignState::Created,
            created_at,
        },
    }
}

/// The record of a sign that the store has just resolved into
/// `new_state`, from the columns that the update returned.
pub fn changed_guild(
    guild_id: u64,
    sign_id: String,
    created_at: Timestamp,
    sign_created_by_id: &str,
    new_state: SignState,
) -> (changed: Result<GuildInfo, StoreError>)
    ensures
        match parsed_u64(sign_created_by_id@) {
            Some(created_by_user_id) => changed matches Ok(g) && g@ == (GuildInfoView {
                guild_id,
                current_sign: SignInfoView {
                    id: sign_id@,
                    created_by_user_id,
                    state: new_state,
                    created_at,
                },
            }),
            None => changed == Err::<GuildInfo, _>(StoreError::CorruptRecord),
        },
{
    match parse_u64(sign_created_by_id) {
        Some(created_by_user_id) => Ok(
            GuildInfo {
                guild_id,
                current_sign: SignInfo { id: sign_id, created_by_user_id, state: new_state, created_at },
            },
        ),
        None => Err(StoreError::CorruptRecord),
    }
}

} // verus!
