//! The sessions of Telegram users: who is registered, the token of each
//! session, and where a user's data is kept.

use crate::crypto::sha256;
use crate::crypto::sha256_digest;
use crate::table::lemma_absent;
use crate::table::lemma_index_of;
use crate::table::lemma_put;
use crate::table::lemma_put_appends;
use crate::table::lemma_put_replaces;
use crate::table::lookup;
use crate::table::put;
use crate::table::row_at;
use crate::table::unique_keys;
use crate::table::Keyed;
use crate::text::decimal_of;
use crate::text::i64_to_text;
use crate::text::join;
use crate::text::text_eq;
use crate::types::hex_encode;
use crate::types::to_hex;
use crate::user_manager::text_of;
use vstd::bytes::spec_u64_to_le_bytes;
use vstd::bytes::u64_to_le_bytes;
use vstd::prelude::*;

verus! {

/// The bytes of `rgb_lightning_session`, the tag of session tokens.
pub const SESSION_TAG: [u8; 21] = [
    0x72, 0x67, 0x62, 0x5f, 0x6c, 0x69, 0x67, 0x68, 0x74, 0x6e, 0x69, 0x6e, 0x67, 0x5f, 0x73, 0x65,
    0x73, 0x73, 0x69, 0x6f, 0x6e,
];

/// A registered Telegram user and its session.
#[derive(Clone, Debug)]
pub struct TelegramUser {
    pub user_id: i64,
    pub username: Option<String>,
    pub first_name: String,
    pub session_token: String,
    /// In seconds since the epoch.
    pub created_at: i64,
}

/// What a registered user says.
pub struct TelegramUserModel {
    pub user_id: i64,
    pub username: Option<Seq<char>>,
    pub first_name: Seq<char>,
    pub session_token: Seq<char>,
    pub created_at: i64,
}

impl View for TelegramUser {
    type V = TelegramUserModel;

    open spec fn view(&self) -> TelegramUserModel {
        TelegramUserModel {
            user_id: self.user_id,
            username: text_of(self.username),
            first_name: self.first_name@,
            session_token: self.session_token@,
            created_at: self.created_at,
        }
    }
}

impl Keyed for TelegramUserModel {
    type Key = i64;

    open spec fn key(&self) -> i64 {
        self.user_id
    }
}

/// The 64 bits of `v` as an unsigned number.
pub open spec fn unsigned_bits(v: i64) -> u64 {
    if v >= 0 {
        v as u64
    } else {
        (v + 0x1_0000_0000_0000_0000) as u64
    }
}

/// The message that a session token is the digest of: the user's
/// number and the time, each as eight bytes with the least significant
/// first, and the tag.
pub open spec fn session_material(user_id: i64, now: i64) -> Seq<u8> {
    spec_u64_to_le_bytes(unsigned_bits(user_id)) + spec_u64_to_le_bytes(unsigned_bits(now))
        + SESSION_TAG@
}

/// The token of the session that `user_id` starts at `now`: the first 32
/// hexadecimal digits of the digest of the session material.
pub open spec fn session_token(user_id: i64, now: i64) -> Seq<char> {
    hex_encode(sha256(session_material(user_id, now)).subrange(0, 16))
}

/// Where the data of `user_id` is kept.
pub open spec fn user_data_dir(user_id: i64) -> Seq<char> {
    "dataldk0/users/"@ + decimal_of(user_id as int)
}

/// The eight bytes of `v`, least significant first.
fn i64_le_bytes(v: i64) -> (res: Vec<u8>)
    ensures
        res@ == spec_u64_to_le_bytes(unsigned_bits(v)),
{
    let bits: u64 = if v >= 0 {
        v as u64
    } else {
        (v as i128 + 0x1_0000_0000_0000_0000) as u64
    };
    u64_to_le_bytes(bits)
}

/// The registry of Telegram users.
pub struct TelegramIntegration {
    users: Vec<TelegramUser>,
    database_url: String,
}

impl TelegramIntegration {
    /// The registered users, oldest first.
    pub closed spec fn users(&self) -> Seq<TelegramUserModel> {
        self.users@.map_values(|u: TelegramUser| u@)
    }

    /// Where the durable store of the registry is.
    pub closed spec fn database_url(&self) -> Seq<char> {
        self.database_url@
    }

    /// Every user is registered once.
    pub open spec fn wf(&self) -> bool {
        unique_keys(self.users())
    }

    /// A registry without users, whose durable store is at
    /// `database_url`.
    pub fn new(database_url: String) -> (res: TelegramIntegration)
        ensures
            res.wf(),
            res.users() == Seq::<TelegramUserModel>::empty(),
            res.database_url() == database_url@,
    {
        let res = TelegramIntegration { users: Vec::new(), database_url };
        assert(res.users() =~= Seq::<TelegramUserModel>::empty());
        res
    }

    fn find(&self, user_id: i64) -> (res: Option<usize>)
        ensures
            match res {
                Some(i) => row_at(self.users(), user_id, i as int),
                None => forall|j: int|
                    0 <= j < self.users().len() ==> (#[trigger] self.users()[j]).key() != user_id,
            },
    {
        let mut i: usize = 0;
        while i < self.users.len()
            invariant
                i <= self.users@.len(),
                forall|j: int| 0 <= j < i ==> (#[trigger] self.users()[j]).key() != user_id,
            decreases self.users@.len() - i,
        {
            if self.users[i].user_id == user_id {
                return Some(i);
            }
            i += 1;
        }
        None
    }

    /// The token of the session that `user_id` starts at `now`.
    pub fn generate_session_token(&self, user_id: i64, now: i64) -> (res: String)
        ensures
            res@ == session_token(user_id, now),
    {
        let mut material = i64_le_bytes(user_id);
        let mut time_bytes = i64_le_bytes(now);
        let ghost head = material@;
        let ghost time = time_bytes@;
        material.append(&mut time_bytes);
        let mut i: usize = 0;
        while i < 21
            invariant
                i <= 21,
                material@ == head + time + SESSION_TAG@.subrange(0, i as int),
            decreases 21 - i,
        {
            material.push(SESSION_TAG[i]);
            assert(material@ =~= head + time + SESSION_TAG@.subrange(0, i as int + 1));
            i += 1;
        }
        assert(SESSION_TAG@.subrange(0, 21) =~= SESSION_TAG@);
        let digest = sha256_digest(material.as_slice());
        let mut first: Vec<u8> = Vec::new();
        let mut k: usize = 0;
        while k < 16
            invariant
                k <= 16,
                first@ == digest@.subrange(0, k as int),
            decreases 16 - k,
        {
            first.push(digest[k]);
            assert(first@ =~= digest@.subrange(0, k as int + 1));
            k += 1;
        }
        to_hex(first.as_slice())
    }

    /// Registers a user at `now` and returns the token of its session.
    /// A user that is registered already gets a new session.
    pub fn register_user(
        &mut self,
        user_id: i64,
        username: Option<String>,
        first_name: String,
        now: i64,
    ) -> (res: String)
        requires
            old(self).wf(),
        ensures
            final(self).wf(),
            final(self).database_url() == old(self).database_url(),
            res@ == session_token(user_id, now),
            final(self).users() == put(
                old(self).users(),
                (TelegramUserModel {
                    user_id,
                    username: text_of(username),
                    first_name: first_name@,
                    session_token: session_token(user_id, now),
                    created_at: now,
                }),
            ),
    {
        let session_token = self.generate_session_token(user_id, now);
        let user = TelegramUser {
            user_id,
            username,
            first_name,
            session_token: session_token.clone(),
            created_at: now,
        };
        let ghost before = self.users();
        proof {
            lemma_put(before, user@);
        }
        match self.find(user_id) {
            Some(i) => {
                proof {
                    lemma_put_replaces(before, user@, i as int);
                }
                self.users.set(i, user);
                assert(self.users() =~= before.update(i as int, user@));
            },
            None => {
                proof {
                    lemma_put_appends(before, user@);
                }
                self.users.push(user);
                assert(self.users() =~= before.push(user@));
            },
        }
        session_token
    }

    /// Whether `token` is the token of the session of `user_id`.
    pub fn validate_session(&self, user_id: i64, token: &str) -> (res: bool)
        requires
            self.wf(),
        ensures
            res == (lookup(self.users(), user_id) matches Some(user) && user.session_token
                == token@),
    {
        match self.find(user_id) {
            Some(i) => {
                proof {
                    lemma_index_of(self.users(), user_id, i as int);
                }
                text_eq(self.users[i].session_token.as_str(), token)
            },
            None => {
                proof {
                    lemma_absent(self.users(), user_id);
                }
                false
            },
        }
    }

    /// Where the data of `user_id` is kept.
    pub fn get_user_data_dir(&self, user_id: i64) -> (res: String)
        ensures
            res@ == user_data_dir(user_id),
    {
        join("dataldk0/users/", i64_to_text(user_id).as_str())
    }
}

} // verus!
