//! The send protocol: one atomic delivery of a message.
//!
//! A send validates its inputs, stamps the sender's current counter value
//! into the message address and verifies the caller supplied the record
//! cell at exactly that address, advances the counter, appends the address
//! to both participants' bounded indexes, creates the record, and asks the
//! external mint service to credit one receipt token to the recipient.
//!
//! The handler is pure: it reads the cell states and returns either every
//! new cell state plus the side effects to perform, or one specific error
//! and nothing to apply.  The host applies an `Ok` outcome all-or-nothing,
//! and only if the mint call succeeds.

use vstd::prelude::*;

use crate::error::MemoError;
use crate::pubkey::Pubkey;
use crate::state::{MessageAccount, UserMessageCounter, UserMessageIndex, MemoTokenMint};
use crate::state::{MAX_CONTENT_SIZE, MAX_MESSAGES};
use crate::utils::pda::{derived_address, message_seeds, get_message_pda};

verus! {

/// The cell states one send reads: the two identities, the caller-supplied
/// address for the new record cell, the sender's counter cell, both index
/// cells (`None` when never created), the mint registry, and the mint
/// identity the caller claims.
pub struct SendMemo {
    pub sender: Pubkey,
    pub recipient: Pubkey,
    pub message_pda: Pubkey,
    pub counter_account: Option<UserMessageCounter>,
    pub sender_index: Option<UserMessageIndex>,
    pub recipient_index: Option<UserMessageIndex>,
    pub memo_mint_config: Option<MemoTokenMint>,
    pub memo_mint: Pubkey,
}

impl SendMemo {
    /// The cells handed to a send are the ones its addresses name: the
    /// counter cell belongs to the sender, each index cell to its user,
    /// and the index cells satisfy their invariant.  The host's
    /// deterministic cell addressing guarantees this.
    pub open spec fn wf(self) -> bool {
        &&& self.counter_account matches Some(c) ==> c.user@ == self.sender@
        &&& self.sender_index matches Some(x) ==> x.wf() && x.user@ == self.sender@
        &&& self.recipient_index matches Some(x) ==> x.wf() && x.user@ == self.recipient@
    }
}

/// The notification a successful send emits.
#[derive(Clone, Debug)]
pub struct MemoSent {
    pub sender: Pubkey,
    pub recipient: Pubkey,
    pub message_account: Pubkey,
    pub timestamp: i64,
    pub memo_tokens_minted: u64,
}

/// The one call a successful send asks of the external token-mint service:
/// credit `amount` tokens of `mint` to `destination`, authorized by this
/// service as mint authority.
#[derive(Clone, Debug)]
pub struct MintReceipt {
    pub mint: Pubkey,
    pub destination: Pubkey,
    pub amount: u64,
}

/// Everything a successful send produces: the new record, the advanced
/// counter, both updated indexes, the mint call to perform, and the
/// notification to emit.  The host applies all of it atomically.
#[derive(Clone, Debug)]
pub struct SendOutcome {
    pub message_account: MessageAccount,
    pub counter_account: UserMessageCounter,
    pub sender_index: UserMessageIndex,
    pub recipient_index: UserMessageIndex,
    pub mint_receipt: MintReceipt,
    pub event: MemoSent,
}

/// The counter value a counter cell holds, with a never-created cell
/// reading as zero.
pub open spec fn counter_value(c: Option<UserMessageCounter>) -> u64 {
    match c {
        Some(cc) => cc.counter,
        None => 0,
    }
}

/// The counter value a send from these cells stamps into the message
/// address.
pub open spec fn sent_counter(ctx: SendMemo) -> u64 {
    counter_value(ctx.counter_account)
}

/// The entries an index cell materializes, with a never-created cell
/// reading as empty.
pub open spec fn index_entries(ix: Option<UserMessageIndex>) -> Seq<Pubkey> {
    match ix {
        Some(x) => x.message_pdas@,
        None => Seq::empty(),
    }
}

/// The logical total an index cell records, with a never-created cell
/// reading as zero.
pub open spec fn index_total(ix: Option<UserMessageIndex>) -> u32 {
    match ix {
        Some(x) => x.total_count,
        None => 0,
    }
}

/// Increment saturating at the largest representable value.
pub open spec fn saturating_inc(x: u32) -> u32 {
    if x < u32::MAX {
        (x + 1) as u32
    } else {
        u32::MAX
    }
}

/// What the derivation primitive yields for this send's message seeds:
/// namespace, sender, recipient, and the current counter value.
pub open spec fn expected_message_address(ctx: SendMemo, program_id: Pubkey) -> Option<
    (Seq<u8>, u8),
> {
    derived_address(message_seeds(ctx.sender@, ctx.recipient@, sent_counter(ctx)), program_id@)
}

/// The mint registry is initialized and names exactly the mint the caller
/// supplied.
pub open spec fn mint_config_ok(cfg: Option<MemoTokenMint>, mint: Pubkey) -> bool {
    cfg matches Some(c) && c.initialized && c.mint@ == mint@
}

/// A send succeeds exactly when: the ciphertext fits, the recipient is not
/// the sender, the counter can advance without wrapping, the caller's
/// record cell stands at the derived message address, and the mint registry
/// matches the claimed mint.
pub open spec fn send_ok(ctx: SendMemo, content: Seq<u8>, program_id: Pubkey) -> bool {
    &&& content.len() <= MAX_CONTENT_SIZE
    &&& ctx.recipient@ != ctx.sender@
    &&& counter_value(ctx.counter_account) < u64::MAX
    &&& (match expected_message_address(ctx, program_id) {
        Some(p) => p.0 == ctx.message_pda@,
        None => false,
    })
    &&& mint_config_ok(ctx.memo_mint_config, ctx.memo_mint)
}

/// Which error a rejected send reports, checking in protocol order:
/// ciphertext length, recipient, counter headroom, derivation, address
/// match, and last the mint registry.
pub open spec fn send_error(ctx: SendMemo, content: Seq<u8>, program_id: Pubkey) -> MemoError {
    if content.len() > MAX_CONTENT_SIZE {
        MemoError::MessageTooLong
    } else if ctx.recipient@ == ctx.sender@ {
        MemoError::InvalidRecipient
    } else if counter_value(ctx.counter_account) == u64::MAX {
        MemoError::CounterOverflow
    } else {
        match expected_message_address(ctx, program_id) {
            None => MemoError::AddressDerivationExhausted,
            Some(p) => if p.0 != ctx.message_pda@ {
                MemoError::AddressDerivationFailed
            } else {
                MemoError::InvalidMintConfiguration
            },
        }
    }
}

/// How one index cell looks after a send records `pda` in it: the entry is
/// appended while the cell is below its cap and silently dropped beyond it,
/// the logical total advances saturating, and the timestamp is refreshed.
pub open spec fn index_after_send(
    ix: Option<UserMessageIndex>,
    owner: Pubkey,
    pda: Pubkey,
    now: i64,
    new_ix: UserMessageIndex,
) -> bool {
    &&& new_ix.wf()
    &&& new_ix.user@ == owner@
    &&& (if index_entries(ix).len() < MAX_MESSAGES {
        new_ix.message_pdas@ == index_entries(ix).push(pda)
    } else {
        new_ix.message_pdas@ == index_entries(ix)
    })
    &&& new_ix.total_count == saturating_inc(index_total(ix))
    &&& new_ix.last_updated == now
}

/// Everything a successful send produces, in terms of the cells it read:
/// the record carries the envelope verbatim and starts active; the counter
/// advances by exactly one; both indexes record the message address; the
/// mint call credits exactly one token of the registered mint to the
/// recipient; and the notification describes the delivery.
pub open spec fn send_outcome_ok(
    ctx: SendMemo,
    content: Vec<u8>,
    nonce: [u8; 24],
    now: i64,
    o: SendOutcome,
) -> bool {
    &&& o.message_account.sender@ == ctx.sender@
    &&& o.message_account.recipient@ == ctx.recipient@
    &&& o.message_account.encrypted_content == content
    &&& o.message_account.timestamp == now
    &&& o.message_account.nonce == nonce
    &&& !o.message_account.deleted
    &&& o.message_account.wf()
    &&& o.counter_account.user@ == ctx.sender@
    &&& o.counter_account.counter == counter_value(ctx.counter_account) + 1
    &&& index_after_send(ctx.sender_index, ctx.sender, ctx.message_pda, now, o.sender_index)
    &&& index_after_send(ctx.recipient_index, ctx.recipient, ctx.message_pda, now, o.recipient_index)
    &&& o.mint_receipt.mint@ == ctx.memo_mint@
    &&& o.mint_receipt.destination@ == ctx.recipient@
    &&& o.mint_receipt.amount == 1
    &&& o.event.sender@ == ctx.sender@
    &&& o.event.recipient@ == ctx.recipient@
    &&& o.event.message_account@ == ctx.message_pda@
    &&& o.event.timestamp == now
    &&& o.event.memo_tokens_minted == 1
}

/// Record a message address in one user's index cell, creating the cell on
/// first use.
pub fn record_in_index(ix: Option<UserMessageIndex>, owner: Pubkey, pda: Pubkey, now: i64) -> (r:
    UserMessageIndex)
    requires
        ix matches Some(x) ==> x.wf() && x.user@ == owner@,
    ensures
        index_after_send(ix, owner, pda, now, r),
{
    match ix {
        Some(mut x) => {
            if x.message_pdas.len() < MAX_MESSAGES {
                x.message_pdas.push(pda);
            }
            x.total_count = if x.total_count < u32::MAX {
                x.total_count + 1
            } else {
                u32::MAX
            };
            x.last_updated = now;
            x
        },
        None => {
            let mut entries: Vec<Pubkey> = Vec::new();
            entries.push(pda);
            UserMessageIndex { user: owner, message_pdas: entries, total_count: 1, last_updated: now }
        },
    }
}

/// Deliver one message: validate, verify the record address against the
/// derivation, advance the counter, create the record, update both indexes,
/// and describe the mint call and notification — or report exactly why not.
pub fn handler(
    ctx: SendMemo,
    encrypted_content: Vec<u8>,
    nonce: [u8; 24],
    now: i64,
    program_id: &Pubkey,
) -> (r: Result<SendOutcome, MemoError>)
    requires
        ctx.wf(),
    ensures
        r is Ok <==> send_ok(ctx, encrypted_content@, *program_id),
        r matches Ok(o) ==> send_outcome_ok(ctx, encrypted_content, nonce, now, o),
        r matches Err(e) ==> e == send_error(ctx, encrypted_content@, *program_id),
{
    if encrypted_content.len() > MAX_CONTENT_SIZE {
        return Err(MemoError::MessageTooLong);
    }
    if ctx.recipient == ctx.sender {
        return Err(MemoError::InvalidRecipient);
    }
    let current: u64 = match &ctx.counter_account {
        Some(c) => c.counter,
        None => 0,
    };
    if current == u64::MAX {
        return Err(MemoError::CounterOverflow);
    }
    let derived = match get_message_pda(&ctx.sender, &ctx.recipient, current, program_id) {
        Ok(p) => p,
        Err(e) => {
            return Err(e);
        },
    };
    if !(derived.0 == ctx.message_pda) {
        return Err(MemoError::AddressDerivationFailed);
    }
    let config_ok = match &ctx.memo_mint_config {
        Some(c) => c.initialized && c.mint == ctx.memo_mint,
        None => false,
    };
    if !config_ok {
        return Err(MemoError::InvalidMintConfiguration);
    }
    let counter_account = UserMessageCounter { user: ctx.sender, counter: current + 1 };
    let message_account = MessageAccount {
        sender: ctx.sender,
        recipient: ctx.recipient,
        encrypted_content,
        timestamp: now,
        nonce,
        deleted: false,
    };
    let sender_index = record_in_index(ctx.sender_index, ctx.sender, ctx.message_pda, now);
    let recipient_index = record_in_index(ctx.recipient_index, ctx.recipient, ctx.message_pda, now);
    let mint_receipt = MintReceipt {
        mint: ctx.memo_mint,
        destination: ctx.recipient,
        amount: 1,
    };
    let event = MemoSent {
        sender: ctx.sender,
        recipient: ctx.recipient,
        message_account: ctx.message_pda,
        timestamp: now,
        memo_tokens_minted: 1,
    };
    Ok(
        SendOutcome {
            message_account,
            counter_account,
            sender_index,
            recipient_index,
            mint_receipt,
            event,
        },
    )
}

/// Successive successful sends by one sender carry strictly increasing,
/// gap-free counter values: a send stamps the current counter value into
/// the message address and leaves the counter cell exactly one higher, so
/// a next send reading the resulting cell stamps exactly the next value.
pub proof fn lemma_counters_strictly_increase(
    ctx1: SendMemo,
    content1: Vec<u8>,
    nonce1: [u8; 24],
    now1: i64,
    o1: SendOutcome,
    ctx2: SendMemo,
)
    requires
        send_outcome_ok(ctx1, content1, nonce1, now1, o1),
        ctx2.counter_account == Some(o1.counter_account),
    ensures
        o1.counter_account.counter == sent_counter(ctx1) + 1,
        sent_counter(ctx2) == sent_counter(ctx1) + 1,
{
}

/// Every index cell a send writes satisfies the index invariant: at most
/// 1000 materialized entries, and a logical total no smaller than the
/// number of entries.
pub proof fn lemma_send_preserves_index_invariant(
    ctx: SendMemo,
    content: Vec<u8>,
    nonce: [u8; 24],
    now: i64,
    o: SendOutcome,
)
    requires
        send_outcome_ok(ctx, content, nonce, now, o),
    ensures
        o.sender_index.wf(),
        o.recipient_index.wf(),
{
}

} // verus!
