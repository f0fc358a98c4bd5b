//! A store that lives in memory. It does in one process what a shared store
//! does with conditional writes: every operation is a single step of the
//! store model, so callers that race are served one after the other.

use crate::db::{
    guild_view, Dao, GuildInfo, SignInfo, SignState, StoreError, StoreModel, Timestamp, UserInfo,
};
use std::collections::HashMap;
use vstd::prelude::*;

verus! {

/// The key under which the power of a user in a guild is kept.
spec fn user_key(user_id: u64, guild_id: u64) -> u128 {
    (user_id * 0x1_0000_0000_0000_0000 + guild_id) as u128
}

fn key_of(user_id: u64, guild_id: u64) -> (key: u128)
    ensures
        key == user_key(user_id, guild_id),
{
    user_id as u128 * 0x1_0000_0000_0000_0000u128 + guild_id as u128
}

/// The store in memory: powers by user and guild, signs by guild.
pub struct MemoryDao {
    users: HashMap<u128, i32>,
    signs: HashMap<u64, SignInfo>,
}

impl MemoryDao {
    /// What the two maps hold, as a store model.
    pub closed spec fn contents(&self) -> StoreModel {
        StoreModel {
            users: Map::new(
                |k: (u64, u64)| self.users@.contains_key(user_key(k.0, k.1)),
                |k: (u64, u64)| self.users@[user_key(k.0, k.1)],
            ),
            signs: Map::new(|g: u64| self.signs@.contains_key(g), |g: u64| self.signs@[g]@),
        }
    }

    /// A store that holds nothing.
    pub fn new() -> (dao: MemoryDao)
        ensures
            dao.model() == StoreModel::empty(),
    {
        let dao = MemoryDao { users: HashMap::new(), signs: HashMap::new() };
        assert(dao.contents().users =~= Map::empty());
        assert(dao.contents().signs =~= Map::empty());
        dao
    }

    /// A copy of today's sign of the guild, if there is one.
    fn today(&self, guild_id: u64, now: Timestamp) -> (found: Option<GuildInfo>)
        ensures
            guild_view(found) == self.contents().sign_today(guild_id, now.day),
    {
        match self.signs.get(&guild_id) {
            Some(sign) => {
                if sign.created_at.is_today(&now) {
                    Some(GuildInfo { guild_id, current_sign: sign.clone() })
                } else {
                    None
                }
            },
            None => None,
        }
    }
}

impl Dao for MemoryDao {
    open spec fn model(&self) -> StoreModel {
        self.contents()
    }

    open spec fn reliable(&self) -> bool {
        true
    }

    fn save_user_info(&mut self, user_info: UserInfo) -> (r: Result<(), StoreError>) {
        let key = key_of(user_info.id, user_info.guild_id);
        self.users.insert(key, user_info.shaman_power);
        assert(self.contents().users =~= old(self).contents().save_user(user_info).users);
        assert(self.contents().signs =~= old(self).contents().signs);
        Ok(())
    }

    fn get_user_info(&self, user_id: u64, guild_id: u64) -> (r: Result<Option<UserInfo>, StoreError>) {
        let key = key_of(user_id, guild_id);
        match self.users.get(&key) {
            Some(power) => Ok(Some(UserInfo { id: user_id, guild_id, shaman_power: *power })),
            None => Ok(None),
        }
    }

    fn create_sign(&mut self, guild_id: u64, sign_id: String, sign_created_by: u64, now: Timestamp) -> (r:
        Result<Option<GuildInfo>, StoreError>) {
        if self.today(guild_id, now).is_some() {
            return Ok(None);
        }
        let sign = SignInfo {
            id: sign_id,
            created_by_user_id: sign_created_by,
            state: SignState::Created,
            created_at: now,
        };
        let created = GuildInfo { guild_id, current_sign: sign.clone() };
        self.signs.insert(guild_id, sign);
        assert(self.contents().signs =~= old(self).contents().signs.insert(guild_id, sign@));
        assert(self.contents().users =~= old(self).contents().users);
        Ok(Some(created))
    }

    fn get_guild_info(&self, guild_id: u64, now: Timestamp) -> (r: Result<Option<GuildInfo>, StoreError>) {
        Ok(self.today(guild_id, now))
    }

    fn change_sign_state(&mut self, guild_id: u64, new_state: SignState, now: Timestamp) -> (r: Result<
        Result<GuildInfo, Option<GuildInfo>>,
        StoreError,
    >) {
        if new_state.is_created() {
            return Err(StoreError::InvalidState);
        }
        match self.today(guild_id, now) {
            Some(current) => {
                if current.current_sign.state.is_created() {
                    let sign = SignInfo {
                        id: current.current_sign.id,
                        created_by_user_id: current.current_sign.created_by_user_id,
                        state: new_state,
                        created_at: current.current_sign.created_at,
                    };
                    let changed = GuildInfo { guild_id, current_sign: sign.clone() };
                    self.signs.insert(guild_id, sign);
                    assert(self.contents().signs =~= old(self).contents().signs.insert(
                        guild_id,
                        sign@,
                    ));
                    assert(self.contents().users =~= old(self).contents().users);
                    Ok(Ok(changed))
                } else {
                    Ok(Err(Some(current)))
                }
            },
            None => Ok(Err(None)),
        }
    }
}

} // verus!
