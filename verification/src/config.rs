//! What the webhook server has to be told.

use crate::text::{hex_bytes, parse_hex};
use vstd::prelude::*;

verus! {

/// The number of bytes in the platform's public key.
pub const PUBLIC_KEY_BYTES: usize = 32;

/// Where the webhook server listens and whose signatures it accepts.
#[derive(Debug)]
pub struct ServerConf {
    address: String,
    discord_pk: String,
}

impl Clone for ServerConf {
    fn clone(&self) -> (copy: ServerConf)
        ensures
            copy == *self,
    {
        ServerConf { address: self.address.clone(), discord_pk: self.discord_pk.clone() }
    }
}

/// The key that a hexadecimal text writes, if it writes exactly 32 bytes.
/// The text is read as the platform's library reads a key, which takes a
/// plus sign in place of the first digit of a byte.
pub open spec fn key_of(hex: Seq<char>) -> Option<Seq<u8>> {
    match hex_bytes(hex) {
        Some(bytes) => if bytes.len() == PUBLIC_KEY_BYTES {
            Some(bytes)
        } else {
            None
        },
        None => None,
    }
}

impl ServerConf {
    /// The address as configured.
    pub closed spec fn address_text(&self) -> Seq<char> {
        self.address@
    }

    /// The public key as configured, in hexadecimal.
    pub closed spec fn key_text(&self) -> Seq<char> {
        self.discord_pk@
    }

    /// A configuration with the given address and key.
    pub fn new(address: String, discord_pk: String) -> (conf: ServerConf)
        ensures
            conf.address_text() == address@,
            conf.key_text() == discord_pk@,
    {
        ServerConf { address, discord_pk }
    }

    /// The address to listen on.
    pub fn address(&self) -> (address: String)
        ensures
            address@ == self.address_text(),
    {
        self.address.clone()
    }

    /// The platform's public key as the configuration writes it, in hexadecimal.
    pub fn discord_pk(&self) -> (key: String)
        ensures
            key@ == self.key_text(),
    {
        self.discord_pk.clone()
    }

    /// The platform's public key in bytes, if the configuration writes one.
    pub fn public_key(&self) -> (key: Option<[u8; 32]>)
        ensures
            match key {
                Some(bytes) => key_of(self.key_text()) == Some(bytes@),
                None => key_of(self.key_text()) is None,
            },
    {
        let bytes = match parse_hex(self.discord_pk.as_str()) {
            Some(bytes) => bytes,
            None => {
                return None;
            },
        };
        if bytes.len() != PUBLIC_KEY_BYTES {
            return None;
        }
        let mut key: [u8; 32] = [0u8; 32];
        let mut i: usize = 0;
        while i < PUBLIC_KEY_BYTES
            invariant
                i <= PUBLIC_KEY_BYTES,
                bytes@.len() == PUBLIC_KEY_BYTES,
                forall|j: int| 0 <= j < i ==> key@[j] == bytes@[j],
            decreases PUBLIC_KEY_BYTES - i,
        {
            key[i] = bytes[i];
            i = i + 1;
        }
        assert(key@ =~= bytes@);
        Some(key)
    }
}

} // verus!
