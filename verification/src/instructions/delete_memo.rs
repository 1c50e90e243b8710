//! Authorized soft-deletion of a message record.
//!
//! Deletion only flips the record's `deleted` flag: the record stays at its
//! address with every envelope field intact, so history and addressability
//! survive.  Index entries are deliberately left untouched.

use vstd::prelude::*;

use crate::error::MemoError;
use crate::pubkey::Pubkey;
use crate::state::MessageAccount;

verus! {

/// The cell states a deletion reads: the requester (the transaction's
/// signer), the address of the message cell, and the record stored there.
pub struct DeleteMemo {
    pub sender: Pubkey,
    pub message_pda: Pubkey,
    pub message_account: MessageAccount,
}

/// The notification a successful deletion emits.
#[derive(Clone, Debug)]
pub struct MemoDeleted {
    pub message_account: Pubkey,
    pub sender: Pubkey,
    pub timestamp: i64,
}

/// The new record and the notification a successful deletion produces.
#[derive(Clone, Debug)]
pub struct DeleteOutcome {
    pub message_account: MessageAccount,
    pub event: MemoDeleted,
}

/// Deletion succeeds exactly when the record is still active and the
/// requester is the message's sender.
pub open spec fn delete_ok(m: MessageAccount, requester: Pubkey) -> bool {
    &&& !m.deleted
    &&& m.sender@ == requester@
}

/// Which error a rejected deletion reports: a record already deleted wins
/// over a requester who is not the sender.
pub open spec fn delete_error(m: MessageAccount, requester: Pubkey) -> MemoError {
    if m.deleted {
        MemoError::MessageAlreadyDeleted
    } else {
        MemoError::UnauthorizedDeletion
    }
}

/// What a successful deletion produces: the same record with only the
/// `deleted` flag raised, and the notification describing it.
pub open spec fn delete_outcome_ok(ctx: DeleteMemo, now: i64, o: DeleteOutcome) -> bool {
    &&& o.message_account.sender == ctx.message_account.sender
    &&& o.message_account.recipient == ctx.message_account.recipient
    &&& o.message_account.encrypted_content == ctx.message_account.encrypted_content
    &&& o.message_account.timestamp == ctx.message_account.timestamp
    &&& o.message_account.nonce == ctx.message_account.nonce
    &&& o.message_account.deleted
    &&& o.event.message_account@ == ctx.message_pda@
    &&& o.event.sender@ == ctx.sender@
    &&& o.event.timestamp == now
}

/// Mark the message as deleted, if it is active and the requester sent it.
pub fn handler(ctx: DeleteMemo, now: i64) -> (r: Result<DeleteOutcome, MemoError>)
    ensures
        r is Ok <==> delete_ok(ctx.message_account, ctx.sender),
        r matches Ok(o) ==> delete_outcome_ok(ctx, now, o),
        r matches Err(e) ==> e == delete_error(ctx.message_account, ctx.sender),
{
    if ctx.message_account.deleted {
        return Err(MemoError::MessageAlreadyDeleted);
    }
    if !(ctx.message_account.sender == ctx.sender) {
        return Err(MemoError::UnauthorizedDeletion);
    }
    let mut record = ctx.message_account;
    record.deleted = true;
    Ok(
        DeleteOutcome {
            message_account: record,
            event: MemoDeleted {
                message_account: ctx.message_pda,
                sender: ctx.sender,
                timestamp: now,
            },
        },
    )
}

/// Soft delete is one-way: once a record written by a successful deletion
/// stands in the cell, a second deletion — by anyone — fails with
/// `MessageAlreadyDeleted`, and the record's envelope fields are exactly
/// those the record had before the first deletion.
pub proof fn lemma_soft_delete_one_way(
    ctx1: DeleteMemo,
    o1: DeleteOutcome,
    now1: i64,
    ctx2: DeleteMemo,
)
    requires
        delete_ok(ctx1.message_account, ctx1.sender),
        delete_outcome_ok(ctx1, now1, o1),
        ctx2.message_account == o1.message_account,
    ensures
        !delete_ok(ctx2.message_account, ctx2.sender),
        delete_error(ctx2.message_account, ctx2.sender) == MemoError::MessageAlreadyDeleted,
        ctx2.message_account.sender == ctx1.message_account.sender,
        ctx2.message_account.recipient == ctx1.message_account.recipient,
        ctx2.message_account.encrypted_content == ctx1.message_account.encrypted_content,
        ctx2.message_account.nonce == ctx1.message_account.nonce,
{
}

} // verus!
