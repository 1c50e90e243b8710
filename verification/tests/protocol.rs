use memo::error::MemoError;
use memo::instructions::delete_memo::DeleteMemo;
use memo::instructions::initialize_mint::InitializeMint;
use memo::instructions::send_memo::{SendMemo, SendOutcome};
use memo::pubkey::Pubkey;
use memo::state::{MemoTokenMint, UserMessageCounter, UserMessageIndex};
use memo::utils::pda::{
    get_message_counter_pda, get_message_index_pda, get_message_pda, get_mint_config_pda,
};
use memo::{delete_memo, initialize_mint, send_memo};

fn key(tag: u8) -> Pubkey {
    let mut bytes = [0u8; 32];
    bytes[0] = tag;
    bytes[31] = tag;
    Pubkey::new(bytes)
}

fn program_id() -> Pubkey {
    key(0xAA)
}

fn initialized_config(mint: Pubkey) -> MemoTokenMint {
    initialize_mint(InitializeMint { memo_mint_config: None, memo_mint: mint }).unwrap()
}

/// A send context for `sender -> recipient` with the record cell placed at
/// the correctly derived address for the given counter state.
fn send_ctx(
    sender: Pubkey,
    recipient: Pubkey,
    counter_account: Option<UserMessageCounter>,
    sender_index: Option<UserMessageIndex>,
    recipient_index: Option<UserMessageIndex>,
    mint: Pubkey,
    config: Option<MemoTokenMint>,
) -> SendMemo {
    let current = counter_account.as_ref().map(|c| c.counter).unwrap_or(0);
    let (pda, _bump) = get_message_pda(&sender, &recipient, current, &program_id()).unwrap();
    SendMemo {
        sender,
        recipient,
        message_pda: pda,
        counter_account,
        sender_index,
        recipient_index,
        memo_mint_config: config,
        memo_mint: mint,
    }
}

fn first_send(sender: Pubkey, recipient: Pubkey, content: Vec<u8>, now: i64) -> SendOutcome {
    let mint = key(0x77);
    let cfg = initialized_config(mint);
    let ctx = send_ctx(sender, recipient, None, None, None, mint, Some(cfg));
    send_memo(ctx, content, [5u8; 24], now, &program_id()).unwrap()
}

#[test]
fn derive_is_deterministic() {
    let a = key(1);
    let b = key(2);
    let r1 = get_message_pda(&a, &b, 42, &program_id()).unwrap();
    let r2 = get_message_pda(&a, &b, 42, &program_id()).unwrap();
    assert_eq!(r1.0, r2.0);
    assert_eq!(r1.1, r2.1);
    let c1 = get_message_counter_pda(&a, &program_id()).unwrap();
    let c2 = get_message_counter_pda(&a, &program_id()).unwrap();
    assert_eq!(c1.0, c2.0);
    assert_eq!(c1.1, c2.1);
}

#[test]
fn derived_addresses_match_host_derivation() {
    let a = key(1);
    let b = key(2);
    let pid = solana_program::pubkey::Pubkey::from(program_id().bytes);
    let counter: u64 = 42;

    let (msg, msg_bump) = get_message_pda(&a, &b, counter, &program_id()).unwrap();
    let (expect, expect_bump) = solana_program::pubkey::Pubkey::find_program_address(
        &[b"memo", &a.bytes, &b.bytes, &counter.to_le_bytes()],
        &pid,
    );
    assert_eq!(msg.bytes, expect.to_bytes());
    assert_eq!(msg_bump, expect_bump);

    let (cnt, cnt_bump) = get_message_counter_pda(&a, &program_id()).unwrap();
    let (expect, expect_bump) =
        solana_program::pubkey::Pubkey::find_program_address(&[b"memo", b"counter", &a.bytes], &pid);
    assert_eq!(cnt.bytes, expect.to_bytes());
    assert_eq!(cnt_bump, expect_bump);

    let (idx, idx_bump) = get_message_index_pda(&a, &program_id()).unwrap();
    let (expect, expect_bump) =
        solana_program::pubkey::Pubkey::find_program_address(&[b"memo", b"index", &a.bytes], &pid);
    assert_eq!(idx.bytes, expect.to_bytes());
    assert_eq!(idx_bump, expect_bump);

    let (cfg, cfg_bump) = get_mint_config_pda(&program_id()).unwrap();
    let (expect, expect_bump) =
        solana_program::pubkey::Pubkey::find_program_address(&[b"memo", b"mint"], &pid);
    assert_eq!(cfg.bytes, expect.to_bytes());
    assert_eq!(cfg_bump, expect_bump);
}

#[test]
fn first_send_delivers_and_mints_one_receipt() {
    let a = key(1);
    let b = key(2);
    let mint = key(0x77);
    let cfg = initialized_config(mint);
    let ctx = send_ctx(a, b, None, None, None, mint, Some(cfg));
    let pda = ctx.message_pda;
    let content: Vec<u8> = (0u8..10).collect();
    let o = send_memo(ctx, content.clone(), [5u8; 24], 1000, &program_id()).unwrap();

    assert_eq!(o.counter_account.counter, 1);
    assert_eq!(o.counter_account.user, a);

    let (expect_pda, _bump) = get_message_pda(&a, &b, 0, &program_id()).unwrap();
    assert_eq!(pda, expect_pda);

    assert_eq!(o.sender_index.message_pdas, vec![pda]);
    assert_eq!(o.sender_index.total_count, 1);
    assert_eq!(o.sender_index.user, a);
    assert_eq!(o.sender_index.last_updated, 1000);
    assert_eq!(o.recipient_index.message_pdas, vec![pda]);
    assert_eq!(o.recipient_index.total_count, 1);
    assert_eq!(o.recipient_index.user, b);

    assert_eq!(o.message_account.sender, a);
    assert_eq!(o.message_account.recipient, b);
    assert_eq!(o.message_account.encrypted_content, content);
    assert_eq!(o.message_account.timestamp, 1000);
    assert_eq!(o.message_account.nonce, [5u8; 24]);
    assert!(!o.message_account.deleted);

    assert_eq!(o.mint_receipt.amount, 1);
    assert_eq!(o.mint_receipt.mint, mint);
    assert_eq!(o.mint_receipt.destination, b);

    assert_eq!(o.event.sender, a);
    assert_eq!(o.event.recipient, b);
    assert_eq!(o.event.message_account, pda);
    assert_eq!(o.event.timestamp, 1000);
    assert_eq!(o.event.memo_tokens_minted, 1);
}

#[test]
fn successive_sends_use_strictly_increasing_counters() {
    let a = key(1);
    let b = key(2);
    let mint = key(0x77);
    let cfg = initialized_config(mint);

    let ctx1 = send_ctx(a, b, None, None, None, mint, Some(cfg));
    let pda0 = ctx1.message_pda;
    let o1 = send_memo(ctx1, vec![1], [0u8; 24], 10, &program_id()).unwrap();
    assert_eq!(o1.counter_account.counter, 1);

    let ctx2 = send_ctx(
        a,
        b,
        Some(o1.counter_account),
        Some(o1.sender_index),
        Some(o1.recipient_index),
        mint,
        Some(cfg),
    );
    let pda1 = ctx2.message_pda;
    let o2 = send_memo(ctx2, vec![2], [0u8; 24], 11, &program_id()).unwrap();
    assert_eq!(o2.counter_account.counter, 2);
    assert_ne!(pda0, pda1);
    assert_eq!(o2.sender_index.message_pdas, vec![pda0, pda1]);
    assert_eq!(o2.sender_index.total_count, 2);
}

#[test]
fn oversized_ciphertext_is_rejected_whole() {
    let a = key(1);
    let b = key(2);
    let mint = key(0x77);
    let cfg = initialized_config(mint);
    let ctx = send_ctx(a, b, None, None, None, mint, Some(cfg));
    let content = vec![0u8; 501];
    let r = send_memo(ctx, content, [0u8; 24], 10, &program_id());
    assert_eq!(r.unwrap_err(), MemoError::MessageTooLong);
}

#[test]
fn ciphertext_at_the_cap_is_accepted() {
    let o = first_send(key(1), key(2), vec![0u8; 500], 10);
    assert_eq!(o.message_account.encrypted_content.len(), 500);
}

#[test]
fn sending_to_oneself_is_rejected() {
    let a = key(1);
    let mint = key(0x77);
    let cfg = initialized_config(mint);
    let ctx = send_ctx(a, a, None, None, None, mint, Some(cfg));
    let r = send_memo(ctx, vec![1], [0u8; 24], 10, &program_id());
    assert_eq!(r.unwrap_err(), MemoError::InvalidRecipient);
}

#[test]
fn counter_at_maximum_does_not_wrap() {
    let a = key(1);
    let b = key(2);
    let mint = key(0x77);
    let cfg = initialized_config(mint);
    let counter = UserMessageCounter { user: a, counter: u64::MAX };
    let ctx = send_ctx(a, b, Some(counter), None, None, mint, Some(cfg));
    let r = send_memo(ctx, vec![1], [0u8; 24], 10, &program_id());
    assert_eq!(r.unwrap_err(), MemoError::CounterOverflow);
}

#[test]
fn record_cell_at_wrong_address_is_rejected() {
    let a = key(1);
    let b = key(2);
    let mint = key(0x77);
    let cfg = initialized_config(mint);
    let mut ctx = send_ctx(a, b, None, None, None, mint, Some(cfg));
    ctx.message_pda = key(0x31);
    let r = send_memo(ctx, vec![1], [0u8; 24], 10, &program_id());
    assert_eq!(r.unwrap_err(), MemoError::AddressDerivationFailed);
}

#[test]
fn uninitialized_mint_registry_is_rejected() {
    let a = key(1);
    let b = key(2);
    let mint = key(0x77);
    let ctx = send_ctx(a, b, None, None, None, mint, None);
    let r = send_memo(ctx, vec![1], [0u8; 24], 10, &program_id());
    assert_eq!(r.unwrap_err(), MemoError::InvalidMintConfiguration);
}

#[test]
fn mismatched_mint_is_rejected() {
    let a = key(1);
    let b = key(2);
    let cfg = initialized_config(key(0x77));
    let ctx = send_ctx(a, b, None, None, None, key(0x78), Some(cfg));
    let r = send_memo(ctx, vec![1], [0u8; 24], 10, &program_id());
    assert_eq!(r.unwrap_err(), MemoError::InvalidMintConfiguration);
}

#[test]
fn full_index_drops_entry_but_counts_on() {
    let a = key(1);
    let b = key(2);
    let mint = key(0x77);
    let cfg = initialized_config(mint);
    let mut entries = Vec::new();
    for i in 0..1000u32 {
        let mut bytes = [0u8; 32];
        bytes[0] = (i % 251) as u8;
        bytes[1] = (i / 251) as u8;
        entries.push(Pubkey::new(bytes));
    }
    let full = UserMessageIndex {
        user: a,
        message_pdas: entries.clone(),
        total_count: 1000,
        last_updated: 5,
    };
    let ctx = send_ctx(a, b, None, Some(full), None, mint, Some(cfg));
    let pda = ctx.message_pda;
    let o = send_memo(ctx, vec![1], [0u8; 24], 10, &program_id()).unwrap();
    assert_eq!(o.sender_index.message_pdas.len(), 1000);
    assert_eq!(o.sender_index.message_pdas, entries);
    assert_eq!(o.sender_index.total_count, 1001);
    assert_eq!(o.sender_index.last_updated, 10);
    assert_eq!(o.recipient_index.message_pdas, vec![pda]);
    assert_eq!(o.recipient_index.total_count, 1);
}

#[test]
fn total_count_saturates_at_maximum() {
    let a = key(1);
    let b = key(2);
    let mint = key(0x77);
    let cfg = initialized_config(mint);
    let saturated = UserMessageIndex {
        user: a,
        message_pdas: vec![key(9)],
        total_count: u32::MAX,
        last_updated: 5,
    };
    let ctx = send_ctx(a, b, None, Some(saturated), None, mint, Some(cfg));
    let o = send_memo(ctx, vec![1], [0u8; 24], 10, &program_id()).unwrap();
    assert_eq!(o.sender_index.total_count, u32::MAX);
    assert_eq!(o.sender_index.message_pdas.len(), 2);
}

#[test]
fn initialize_mint_is_one_shot() {
    let mint = key(0x77);
    let cfg = initialize_mint(InitializeMint { memo_mint_config: None, memo_mint: mint }).unwrap();
    assert!(cfg.initialized);
    assert_eq!(cfg.mint, mint);
    let second = initialize_mint(InitializeMint {
        memo_mint_config: Some(cfg),
        memo_mint: key(0x78),
    });
    assert_eq!(second.unwrap_err(), MemoError::AlreadyInitialized);
    assert_eq!(cfg.mint, mint);
    assert!(cfg.initialized);
}

#[test]
fn delete_is_sender_only_and_one_way() {
    let a = key(1);
    let b = key(2);
    let o = first_send(a, b, vec![7, 8, 9], 50);
    let record = o.message_account;
    let pda = o.event.message_account;

    let stranger = key(3);
    let r = delete_memo(
        DeleteMemo { sender: stranger, message_pda: pda, message_account: record.clone() },
        60,
    );
    assert_eq!(r.unwrap_err(), MemoError::UnauthorizedDeletion);
    assert!(!record.deleted);

    let d1 = delete_memo(
        DeleteMemo { sender: a, message_pda: pda, message_account: record.clone() },
        61,
    )
    .unwrap();
    assert!(d1.message_account.deleted);
    assert_eq!(d1.message_account.sender, record.sender);
    assert_eq!(d1.message_account.recipient, record.recipient);
    assert_eq!(d1.message_account.encrypted_content, record.encrypted_content);
    assert_eq!(d1.message_account.nonce, record.nonce);
    assert_eq!(d1.message_account.timestamp, record.timestamp);
    assert_eq!(d1.event.message_account, pda);
    assert_eq!(d1.event.sender, a);
    assert_eq!(d1.event.timestamp, 61);

    let d2 = delete_memo(
        DeleteMemo { sender: a, message_pda: pda, message_account: d1.message_account },
        62,
    );
    assert_eq!(d2.unwrap_err(), MemoError::MessageAlreadyDeleted);
}

#[test]
fn recipient_can_not_delete() {
    let a = key(1);
    let b = key(2);
    let o = first_send(a, b, vec![7], 50);
    let r = delete_memo(
        DeleteMemo {
            sender: b,
            message_pda: o.event.message_account,
            message_account: o.message_account,
        },
        60,
    );
    assert_eq!(r.unwrap_err(), MemoError::UnauthorizedDeletion);
}
