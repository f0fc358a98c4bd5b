//! Records kept per guild and per user, the mathematical model of the store
//! that holds them, and the interface every store offers.

use vstd::prelude::*;

pub mod memory;
pub mod psql;

verus! {

/// Power of a user that the store has never seen.
pub const DEFAULT_POWER: i32 = 10;

/// A moment, together with the calendar day it falls on where the service runs.
///
/// `seconds` counts from the Unix epoch. `day` numbers calendar days
/// consecutively; two moments belong to the same calendar day exactly when
/// their `day` is equal.
#[derive(Clone, Copy, Debug, PartialEq, Eq, Structural)]
pub struct Timestamp {
    pub seconds: i64,
    pub day: i32,
}

/// What the store keeps of a user in a guild.
#[derive(Clone, Copy, Debug, PartialEq, Eq, Structural)]
pub struct UserInfo {
    pub id: u64,
    pub guild_id: u64,
    pub shaman_power: i32,
}

/// Where a sign stands: open since it was created, or resolved, one way or
/// the other, by the user who influenced it.
#[derive(Clone, Copy, Debug, PartialEq, Eq, Structural)]
pub enum SignState {
    Created,
    Success { by_user_id: u64 },
    Failed { by_user_id: u64 },
}

/// A sign: its identifier in the catalog, who rolled it and when, and its state.
#[derive(Debug, PartialEq, Eq)]
pub struct SignInfo {
    pub id: String,
    pub created_by_user_id: u64,
    pub state: SignState,
    pub created_at: Timestamp,
}

/// A guild with its latest sign.
#[derive(Debug, PartialEq, Eq)]
pub struct GuildInfo {
    pub guild_id: u64,
    pub current_sign: SignInfo,
}

/// Why a store operation gave no answer.
#[derive(Clone, Copy, Debug, PartialEq, Eq, Structural)]
pub enum StoreError {
    /// The store could not be reached or the statement failed.
    Unavailable,
    /// A sign was asked to change into `Created`.
    InvalidState,
    /// A stored record could not be read back.
    CorruptRecord,
}

/// What a `SignInfo` stands for: its identifier as a sequence of characters.
pub struct SignInfoView {
    pub id: Seq<char>,
    pub created_by_user_id: u64,
    pub state: SignState,
    pub created_at: Timestamp,
}

/// What a `GuildInfo` stands for.
pub struct GuildInfoView {
    pub guild_id: u64,
    pub current_sign: SignInfoView,
}

impl View for SignInfo {
    type V = SignInfoView;

    open spec fn view(&self) -> SignInfoView {
        SignInfoView {
            id: self.id@,
            created_by_user_id: self.created_by_user_id,
            state: self.state,
            created_at: self.created_at,
        }
    }
}

impl View for GuildInfo {
    type V = GuildInfoView;

    open spec fn view(&self) -> GuildInfoView {
        GuildInfoView { guild_id: self.guild_id, current_sign: self.current_sign@ }
    }
}

impl Clone for SignInfo {
    fn clone(&self) -> (copy: SignInfo)
        ensures
            copy == *self,
    {
        SignInfo {
            id: self.id.clone(),
            created_by_user_id: self.created_by_user_id,
            state: self.state,
            created_at: self.created_at,
        }
    }
}

impl Clone for GuildInfo {
    fn clone(&self) -> (copy: GuildInfo)
        ensures
            copy == *self,
    {
        GuildInfo { guild_id: self.guild_id, current_sign: self.current_sign.clone() }
    }
}

/// The view of a record that may be absent.
pub open spec fn guild_view(found: Option<GuildInfo>) -> Option<GuildInfoView> {
    match found {
        Some(g) => Some(g@),
        None => None,
    }
}

/// The view of the answer to a state change: the new record, or what stood in its way.
pub open spec fn change_view(answer: Result<GuildInfo, Option<GuildInfo>>) -> Result<
    GuildInfoView,
    Option<GuildInfoView>,
> {
    match answer {
        Ok(g) => Ok(g@),
        Err(current) => Err(guild_view(current)),
    }
}

impl SignState {
    /// The user who resolved the sign, if it is resolved.
    pub open spec fn resolver(self) -> Option<u64> {
        match self {
            SignState::Created => None,
            SignState::Success { by_user_id } => Some(by_user_id),
            SignState::Failed { by_user_id } => Some(by_user_id),
        }
    }

    pub fn is_created(&self) -> (r: bool)
        ensures
            r == (*self is Created),
    {
        match self {
            SignState::Created => true,
            _ => false,
        }
    }

    pub fn resolved_by(&self) -> (r: Option<u64>)
        ensures
            r == self.resolver(),
    {
        match self {
            SignState::Created => None,
            SignState::Success { by_user_id } => Some(*by_user_id),
            SignState::Failed { by_user_id } => Some(*by_user_id),
        }
    }
}

impl Timestamp {
    /// Whether a record made at `self` still counts on the day of `now`:
    /// it does unless it was made on an earlier calendar day.
    pub open spec fn counts_on(self, today: i32) -> bool {
        self.day >= today
    }

    pub fn is_today(&self, now: &Timestamp) -> (r: bool)
        ensures
            r == self.counts_on(now.day),
    {
        self.day >= now.day
    }
}

/// Everything a store holds: the power of each (user, guild) pair that was
/// ever saved, and the latest sign of each guild that ever had one.
pub struct StoreModel {
    pub users: Map<(u64, u64), i32>,
    pub signs: Map<u64, SignInfoView>,
}

impl StoreModel {
    pub open spec fn empty() -> StoreModel {
        StoreModel { users: Map::empty(), signs: Map::empty() }
    }

    pub open spec fn user(self, user_id: u64, guild_id: u64) -> Option<UserInfo> {
        if self.users.contains_key((user_id, guild_id)) {
            Some(UserInfo { id: user_id, guild_id, shaman_power: self.users[(user_id, guild_id)] })
        } else {
            None
        }
    }

    pub open spec fn save_user(self, user: UserInfo) -> StoreModel {
        StoreModel { users: self.users.insert((user.id, user.guild_id), user.shaman_power), ..self }
    }

    /// The sign of the guild, unless there is none or it was made before `today`.
    pub open spec fn sign_today(self, guild_id: u64, today: i32) -> Option<GuildInfoView> {
        if self.signs.contains_key(guild_id) && self.signs[guild_id].created_at.counts_on(today) {
            Some(GuildInfoView { guild_id, current_sign: self.signs[guild_id] })
        } else {
            None
        }
    }

    /// The record that a successful creation writes.
    pub open spec fn fresh_sign(sign_id: Seq<char>, created_by: u64, now: Timestamp) -> SignInfoView {
        SignInfoView {
            id: sign_id,
            created_by_user_id: created_by,
            state: SignState::Created,
            created_at: now,
        }
    }

    /// Creation is one step: it writes the new sign unless the guild has a sign
    /// today, in which case nothing changes and nothing is returned.
    pub open spec fn create_sign(
        self,
        guild_id: u64,
        sign_id: Seq<char>,
        created_by: u64,
        now: Timestamp,
    ) -> (StoreModel, Option<GuildInfoView>) {
        if self.sign_today(guild_id, now.day) is Some {
            (self, None)
        } else {
            let sign = Self::fresh_sign(sign_id, created_by, now);
            (
                StoreModel { signs: self.signs.insert(guild_id, sign), ..self },
                Some(GuildInfoView { guild_id, current_sign: sign }),
            )
        }
    }

    /// Whether the guild has a sign today that nobody has resolved.
    pub open spec fn open_today(self, guild_id: u64, today: i32) -> bool {
        self.sign_today(guild_id, today) matches Some(g) && g.current_sign.state is Created
    }

    /// Resolution is one step: it writes `new_state` into today's sign if that
    /// sign is still `Created`; otherwise nothing changes and the answer
    /// carries today's sign as it stands, or nothing if there is none.
    pub open spec fn change_sign_state(self, guild_id: u64, new_state: SignState, now: Timestamp) -> (
        StoreModel,
        Result<GuildInfoView, Option<GuildInfoView>>,
    ) {
        if self.open_today(guild_id, now.day) {
            let sign = SignInfoView { state: new_state, ..self.signs[guild_id] };
            (
                StoreModel { signs: self.signs.insert(guild_id, sign), ..self },
                Ok(GuildInfoView { guild_id, current_sign: sign }),
            )
        } else {
            (self, Err(self.sign_today(guild_id, now.day)))
        }
    }
}

/// Of two requests to create the sign of one guild on one day, on which the
/// guild has no sign yet, the one that is served first is answered with the
/// new `Created` record and the other is turned away. The store serves
/// racing requests one after the other, and the law holds whichever comes
/// first: exactly one sign is created and exactly one request is rejected.
pub proof fn law_one_creation_per_day(
    store: StoreModel,
    guild_id: u64,
    first_sign: Seq<char>,
    first_user: u64,
    first_now: Timestamp,
    second_sign: Seq<char>,
    second_user: u64,
    second_now: Timestamp,
)
    requires
        first_now.day == second_now.day,
        store.sign_today(guild_id, first_now.day) is None,
    ensures
        ({
            let (after_first, first) = store.create_sign(guild_id, first_sign, first_user, first_now);
            let (after_second, second) = after_first.create_sign(
                guild_id,
                second_sign,
                second_user,
                second_now,
            );
            &&& first == Some(
                GuildInfoView {
                    guild_id,
                    current_sign: StoreModel::fresh_sign(first_sign, first_user, first_now),
                },
            )
            &&& second is None
            &&& after_second == after_first
            &&& after_second.sign_today(guild_id, second_now.day) == first
        }),
{
}

/// Of two requests to resolve the open sign of one guild on one day, the one
/// that is served first is answered with the resolved record, and the other
/// is answered with a conflict that carries that same record and changes
/// nothing. The law holds whichever request comes first.
pub proof fn law_one_resolution_per_sign(
    store: StoreModel,
    guild_id: u64,
    first_state: SignState,
    first_now: Timestamp,
    second_state: SignState,
    second_now: Timestamp,
)
    requires
        first_now.day == second_now.day,
        store.open_today(guild_id, first_now.day),
        !(first_state is Created),
    ensures
        ({
            let (after_first, first) = store.change_sign_state(guild_id, first_state, first_now);
            let (after_second, second) = after_first.change_sign_state(
                guild_id,
                second_state,
                second_now,
            );
            &&& first matches Ok(resolved)
            &&& resolved.current_sign == SignInfoView { state: first_state, ..store.signs[guild_id] }
            &&& second == Err::<GuildInfoView, Option<GuildInfoView>>(Some(resolved))
            &&& after_second == after_first
        }),
{
}

/// A sign made on an earlier calendar day is reported absent, and creating
/// a sign for its guild succeeds exactly as if the guild had never had one.
pub proof fn law_sign_expires_overnight(
    store: StoreModel,
    guild_id: u64,
    sign_id: Seq<char>,
    created_by: u64,
    now: Timestamp,
)
    requires
        store.signs.contains_key(guild_id),
        store.signs[guild_id].created_at.day < now.day,
    ensures
        store.sign_today(guild_id, now.day) is None,
        store.create_sign(guild_id, sign_id, created_by, now) == (StoreModel {
            signs: store.signs.remove(guild_id),
            ..store
        }).create_sign(guild_id, sign_id, created_by, now),
        store.create_sign(guild_id, sign_id, created_by, now).1 == Some(
            GuildInfoView {
                guild_id,
                current_sign: StoreModel::fresh_sign(sign_id, created_by, now),
            },
        ),
{
    let without = StoreModel { signs: store.signs.remove(guild_id), ..store };
    let sign = StoreModel::fresh_sign(sign_id, created_by, now);
    assert(store.signs.insert(guild_id, sign) =~= without.signs.insert(guild_id, sign));
}

/// A resolved sign stays as it is for the rest of its day: neither a request
/// to create a sign nor a request to resolve one changes the store.
pub proof fn law_resolution_is_final(
    store: StoreModel,
    guild_id: u64,
    sign_id: Seq<char>,
    user: u64,
    new_state: SignState,
    now: Timestamp,
)
    requires
        store.sign_today(guild_id, now.day) matches Some(g) && !(g.current_sign.state is Created),
    ensures
        store.create_sign(guild_id, sign_id, user, now) == (store, None::<GuildInfoView>),
        store.change_sign_state(guild_id, new_state, now) == (
            store,
            Err::<GuildInfoView, Option<GuildInfoView>>(store.sign_today(guild_id, now.day)),
        ),
{
}

/// A store of user and guild records. Each operation is one atomic step on
/// the store's contents, or fails and leaves them as they were.
pub trait Dao {
    /// What the store holds.
    spec fn model(&self) -> StoreModel;

    /// Whether the store answers every well-formed request.
    spec fn reliable(&self) -> bool;

    /// Writes the user's power, replacing what was stored for that user in that guild.
    fn save_user_info(&mut self, user_info: UserInfo) -> (r: Result<(), StoreError>)
        ensures
            final(self).reliable() == old(self).reliable(),
            old(self).reliable() ==> r is Ok,
            r is Ok ==> final(self).model() == old(self).model().save_user(user_info),
            r is Err ==> final(self).model() == old(self).model(),
    ;

    /// The user's record in the guild, if the store has one.
    fn get_user_info(&self, user_id: u64, guild_id: u64) -> (r: Result<Option<UserInfo>, StoreError>)
        ensures
            self.reliable() ==> r is Ok,
            r matches Ok(found) ==> found == self.model().user(user_id, guild_id),
    ;

    /// Creates today's sign of the guild. Gives `None`, and changes nothing,
    /// if the guild already has a sign today.
    fn create_sign(&mut self, guild_id: u64, sign_id: String, sign_created_by: u64, now: Timestamp) -> (r:
        Result<Option<GuildInfo>, StoreError>)
        ensures
            final(self).reliable() == old(self).reliable(),
            old(self).reliable() ==> r is Ok,
            r matches Ok(created) ==> (final(self).model(), guild_view(created)) == old(
                self,
            ).model().create_sign(guild_id, sign_id@, sign_created_by, now),
            r is Err ==> final(self).model() == old(self).model(),
    ;

    /// Today's sign of the guild, if it has one.
    fn get_guild_info(&self, guild_id: u64, now: Timestamp) -> (r: Result<Option<GuildInfo>, StoreError>)
        ensures
            self.reliable() ==> r is Ok,
            r matches Ok(found) ==> guild_view(found) == self.model().sign_today(guild_id, now.day),
    ;

    /// Resolves today's sign of the guild into `new_state`, which must not be
    /// `Created`. Gives the new record, or, changing nothing, the sign that
    /// stands in the way (`None` if the guild has no sign today).
    fn change_sign_state(&mut self, guild_id: u64, new_state: SignState, now: Timestamp) -> (r: Result<
        Result<GuildInfo, Option<GuildInfo>>,
        StoreError,
    >)
        ensures
            final(self).reliable() == old(self).reliable(),
            new_state is Created ==> r is Err,
            old(self).reliable() && !(new_state is Created) ==> r is Ok,
            r matches Ok(answer) ==> (final(self).model(), change_view(answer)) == old(
                self,
            ).model().change_sign_state(guild_id, new_state, now),
            r is Err ==> final(self).model() == old(self).model(),
    ;
}

} // verus!
