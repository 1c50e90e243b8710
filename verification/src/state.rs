//! The persisted records of the mailbox: one cell per message, one counter
//! cell per sender, one bounded index cell per user, and the singleton mint
//! registry.  Every record is a plain value here; the host platform owns the
//! cells and applies whole-record updates atomically.

use vstd::prelude::*;

use crate::pubkey::Pubkey;

verus! {

/// Hard cap on a message's ciphertext, in bytes.
pub const MAX_CONTENT_SIZE: usize = 500;

/// Hard cap on the number of addresses a user's index materializes.
pub const MAX_MESSAGES: usize = 1000;

/// Fixed length of a message's encryption nonce, in bytes.
pub const NONCE_SIZE: usize = 24;

/// Cell reservation for one message record: an 8-byte discriminator, the
/// two identities, a length-prefixed ciphertext at its full reservation,
/// the timestamp, the nonce, and the deletion flag.
pub const MESSAGE_ACCOUNT_SPACE: usize = 8 + 32 + 32 + 4 + MAX_CONTENT_SIZE + 8 + NONCE_SIZE + 1;

/// Cell reservation for one per-sender counter record.
pub const USER_MESSAGE_COUNTER_SPACE: usize = 8 + 32 + 8;

/// Cell reservation for one per-user index record, with the entry list at
/// its full reservation.
pub const USER_MESSAGE_INDEX_SPACE: usize = 8 + 32 + 4 + MAX_MESSAGES * 32 + 4 + 8;

/// Cell reservation for the singleton mint registry.
pub const MEMO_TOKEN_MINT_SPACE: usize = 8 + 32 + 1;

/// One stored message.  Created exactly once at an address derived from
/// (sender, recipient, counter); after creation only `deleted` may change,
/// and only from `false` to `true`.
#[derive(Clone, Debug)]
pub struct MessageAccount {
    pub sender: Pubkey,
    pub recipient: Pubkey,
    pub encrypted_content: Vec<u8>,
    pub timestamp: i64,
    pub nonce: [u8; 24],
    pub deleted: bool,
}

impl MessageAccount {
    /// The ciphertext fits the fixed cell reservation.
    pub open spec fn wf(self) -> bool {
        self.encrypted_content@.len() <= MAX_CONTENT_SIZE
    }
}

/// Per-sender monotonic counter making every message address of that sender
/// unique.  Created lazily on the sender's first send with value 0.
#[derive(Clone, Copy, Debug)]
pub struct UserMessageCounter {
    pub user: Pubkey,
    pub counter: u64,
}

/// Per-user bounded ordered record of the message addresses the user has
/// participated in.  Beyond `MAX_MESSAGES` entries the list stops growing
/// while `total_count` keeps counting: the index becomes a partial view,
/// by design, to keep the cell inside its fixed reservation.
#[derive(Clone, Debug)]
pub struct UserMessageIndex {
    pub user: Pubkey,
    pub message_pdas: Vec<Pubkey>,
    pub total_count: u32,
    pub last_updated: i64,
}

impl UserMessageIndex {
    /// The entry list never exceeds its reservation, and the logical total
    /// never undercounts the materialized entries.
    pub open spec fn wf(self) -> bool {
        &&& self.message_pdas@.len() <= MAX_MESSAGES
        &&& self.message_pdas@.len() <= self.total_count
    }
}

/// The singleton registry tying this service to one external token mint.
/// Written once by initialization; read-only thereafter.
#[derive(Clone, Copy, Debug)]
pub struct MemoTokenMint {
    pub mint: Pubkey,
    pub initialized: bool,
}

} // verus!
