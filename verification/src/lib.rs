//! An on-ledger encrypted-messaging mailbox with a receipt-token side effect.
//!
//! Every message, per-sender counter, and per-user index lives in its own
//! storage cell at an address derived deterministically from seed byte
//! strings, so any party can recompute where a record lives without a
//! directory.  The protocol logic here is pure: each operation takes the
//! current cell states and returns either the full set of new states plus
//! the side effects to perform, or a specific error, so the host platform
//! can apply the outcome atomically.

use vstd::prelude::*;

pub mod error;
pub mod instructions;
pub mod pubkey;
pub mod state;
pub mod utils;

use crate::error::MemoError;
use crate::instructions::delete_memo::{DeleteMemo, DeleteOutcome};
use crate::instructions::initialize_mint::InitializeMint;
use crate::instructions::send_memo::{SendMemo, SendOutcome};
use crate::pubkey::Pubkey;
use crate::state::MemoTokenMint;

verus! {

/// Deliver one message as one atomic unit: validate, verify the record
/// address, advance the sender's counter, create the record, update both
/// indexes, and describe the receipt-token mint and the notification.
pub fn send_memo(
    ctx: SendMemo,
    encrypted_content: Vec<u8>,
    nonce: [u8; 24],
    now: i64,
    program_id: &Pubkey,
) -> (r: Result<SendOutcome, MemoError>)
    requires
        ctx.wf(),
    ensures
        r is Ok <==> crate::instructions::send_memo::send_ok(ctx, encrypted_content@, *program_id),
        r matches Ok(o) ==> crate::instructions::send_memo::send_outcome_ok(
            ctx,
            encrypted_content,
            nonce,
            now,
            o,
        ),
        r matches Err(e) ==> e == crate::instructions::send_memo::send_error(
            ctx,
            encrypted_content@,
            *program_id,
        ),
{
    crate::instructions::send_memo::handler(ctx, encrypted_content, nonce, now, program_id)
}

/// Soft-delete one message: only its sender may, only once.
pub fn delete_memo(ctx: DeleteMemo, now: i64) -> (r: Result<DeleteOutcome, MemoError>)
    ensures
        r is Ok <==> crate::instructions::delete_memo::delete_ok(ctx.message_account, ctx.sender),
        r matches Ok(o) ==> crate::instructions::delete_memo::delete_outcome_ok(ctx, now, o),
        r matches Err(e) ==> e == crate::instructions::delete_memo::delete_error(
            ctx.message_account,
            ctx.sender,
        ),
{
    crate::instructions::delete_memo::handler(ctx, now)
}

/// Tie the service to its receipt-token mint, exactly once.
pub fn initialize_mint(ctx: InitializeMint) -> (r: Result<MemoTokenMint, MemoError>)
    ensures
        r is Ok <==> crate::instructions::initialize_mint::initialize_ok(ctx),
        r matches Ok(cfg) ==> crate::instructions::initialize_mint::initialize_outcome_ok(ctx, cfg),
        r matches Err(e) ==> e == MemoError::AlreadyInitialized,
{
    crate::instructions::initialize_mint::handler(ctx)
}

} // verus!
