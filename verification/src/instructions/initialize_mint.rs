//! One-time initialization of the mint registry.
//!
//! The registry ties the service to one external token mint.  A second
//! initialization is an error, never a silent reconfiguration.

use vstd::prelude::*;

use crate::error::MemoError;
use crate::pubkey::Pubkey;
use crate::state::MemoTokenMint;

verus! {

/// The cell states an initialization reads: the registry cell as it stands
/// (`None` when never created) and the mint identity supplied by the caller.
pub struct InitializeMint {
    pub memo_mint_config: Option<MemoTokenMint>,
    pub memo_mint: Pubkey,
}

/// Initialization succeeds exactly when the registry is not yet initialized.
pub open spec fn initialize_ok(ctx: InitializeMint) -> bool {
    !(ctx.memo_mint_config matches Some(c) && c.initialized)
}

/// The registry state a successful initialization writes.
pub open spec fn initialize_outcome_ok(ctx: InitializeMint, cfg: MemoTokenMint) -> bool {
    &&& cfg.mint@ == ctx.memo_mint@
    &&& cfg.initialized
}

/// Store the caller's mint identity in the registry, exactly once.  On
/// failure nothing is returned to apply, so the registry cell keeps the
/// state it had after the first initialization.
pub fn handler(ctx: InitializeMint) -> (r: Result<MemoTokenMint, MemoError>)
    ensures
        r is Ok <==> initialize_ok(ctx),
        r matches Ok(cfg) ==> initialize_outcome_ok(ctx, cfg),
        r matches Err(e) ==> e == MemoError::AlreadyInitialized,
{
    match ctx.memo_mint_config {
        Some(c) => {
            if c.initialized {
                Err(MemoError::AlreadyInitialized)
            } else {
                Ok(MemoTokenMint { mint: ctx.memo_mint, initialized: true })
            }
        },
        None => Ok(MemoTokenMint { mint: ctx.memo_mint, initialized: true }),
    }
}

/// Initialization is one-shot: once a registry state written by a successful
/// initialization stands in the cell, any further initialization fails with
/// `AlreadyInitialized`, whatever mint identity it supplies.
pub proof fn lemma_initialize_once(ctx1: InitializeMint, cfg: MemoTokenMint, ctx2: InitializeMint)
    requires
        initialize_ok(ctx1),
        initialize_outcome_ok(ctx1, cfg),
        ctx2.memo_mint_config == Some(cfg),
    ensures
        !initialize_ok(ctx2),
{
}

} // verus!
