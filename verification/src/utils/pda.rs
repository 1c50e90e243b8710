//! Deterministic address derivation.
//!
//! Every record cell of the service lives at an address computed from a
//! fixed seed scheme, so any party can recompute where a record lives
//! without a directory:
//!
//! - message:       `["memo", sender, recipient, counter as 8 LE bytes]`
//! - counter:       `["memo", "counter", sender]`
//! - index:         `["memo", "index", user]`
//! - mint registry: `["memo", "mint"]`
//!
//! The derivation primitive itself is the host platform's one-way search
//! for a key-less address; it stands behind one trusted wrapper and its
//! result is only named, never restated.

use vstd::prelude::*;

use crate::error::MemoError;
use crate::pubkey::Pubkey;

verus! {

/// What the host's address-derivation primitive returns for an ordered seed
/// list and a deriving service identity: a 32-byte key-less address with its
/// collision-avoidance bump, or nothing when no bump in the valid range
/// yields such an address (statistically improbable) or the seed list is
/// outside the primitive's limits (never the case for the schemes below).
/// The result is a function of the seed bytes and the service identity
/// alone.
pub uninterp spec fn derived_address(seeds: Seq<Seq<u8>>, program_id: Seq<u8>) -> Option<(Seq<u8>, u8)>;

/// The literal seed `"memo"`, the namespace of every address of the service.
pub open spec fn seed_memo() -> Seq<u8> {
    seq![109u8, 101u8, 109u8, 111u8]
}

/// The literal seed `"counter"`.
pub open spec fn seed_counter() -> Seq<u8> {
    seq![99u8, 111u8, 117u8, 110u8, 116u8, 101u8, 114u8]
}

/// The literal seed `"index"`.
pub open spec fn seed_index() -> Seq<u8> {
    seq![105u8, 110u8, 100u8, 101u8, 120u8]
}

/// The literal seed `"mint"`.
pub open spec fn seed_mint() -> Seq<u8> {
    seq![109u8, 105u8, 110u8, 116u8]
}

/// Seed scheme of a message record: namespace, sender, recipient, and the
/// sender's counter value in little-endian bytes.
pub open spec fn message_seeds(sender: Seq<u8>, recipient: Seq<u8>, counter: u64) -> Seq<Seq<u8>> {
    seq![seed_memo(), sender, recipient, vstd::bytes::spec_u64_to_le_bytes(counter)]
}

/// Seed scheme of a sender's counter record.
pub open spec fn counter_seeds(user: Seq<u8>) -> Seq<Seq<u8>> {
    seq![seed_memo(), seed_counter(), user]
}

/// Seed scheme of a user's index record.
pub open spec fn index_seeds(user: Seq<u8>) -> Seq<Seq<u8>> {
    seq![seed_memo(), seed_index(), user]
}

/// Seed scheme of the singleton mint registry.
pub open spec fn mint_config_seeds() -> Seq<Seq<u8>> {
    seq![seed_memo(), seed_mint()]
}

/// What a derivation returns for a given seed scheme: the derived address
/// and bump on success, or `AddressDerivationExhausted` exactly when the
/// primitive finds no bump.
pub open spec fn derivation_result(
    r: Result<(Pubkey, u8), MemoError>,
    seeds: Seq<Seq<u8>>,
    program_id: Seq<u8>,
) -> bool {
    match r {
        Ok(p) => derived_address(seeds, program_id) == Some((p.0@, p.1)),
        Err(e) => e == MemoError::AddressDerivationExhausted && derived_address(
            seeds,
            program_id,
        ) is None,
    }
}

/// Relies on solana_program's `Pubkey::try_find_program_address`: a pure,
/// deterministic search over bump seeds that either returns a derived
/// key-less address with its bump, or `None` when every bump is exhausted
/// or the seed list is outside the primitive's limits.  It never panics.
#[verifier::external_body]
fn find_program_address(seeds: &Vec<Vec<u8>>, program_id: &Pubkey) -> (r: Option<(Pubkey, u8)>)
    ensures
        match r {
            Some(p) => derived_address(seeds.deep_view(), program_id@) == Some((p.0@, p.1)),
            None => derived_address(seeds.deep_view(), program_id@) is None,
        },
{
    let seed_slices: Vec<&[u8]> = seeds.iter().map(|s| s.as_slice()).collect();
    let pid = solana_program::pubkey::Pubkey::from(program_id.bytes);
    solana_program::pubkey::Pubkey::try_find_program_address(&seed_slices, &pid).map(
        |p: (solana_program::pubkey::Pubkey, u8)| (Pubkey { bytes: p.0.to_bytes() }, p.1),
    )
}

/// The literal bytes of `"memo"`.
fn seed_memo_bytes() -> (r: Vec<u8>)
    ensures
        r@ == seed_memo(),
{
    let r = vec![109u8, 101u8, 109u8, 111u8];
    proof {
        assert(r@ =~= seed_memo());
    }
    r
}

/// The literal bytes of `"counter"`.
fn seed_counter_bytes() -> (r: Vec<u8>)
    ensures
        r@ == seed_counter(),
{
    let r = vec![99u8, 111u8, 117u8, 110u8, 116u8, 101u8, 114u8];
    proof {
        assert(r@ =~= seed_counter());
    }
    r
}

/// The literal bytes of `"index"`.
fn seed_index_bytes() -> (r: Vec<u8>)
    ensures
        r@ == seed_index(),
{
    let r = vec![105u8, 110u8, 100u8, 101u8, 120u8];
    proof {
        assert(r@ =~= seed_index());
    }
    r
}

/// The literal bytes of `"mint"`.
fn seed_mint_bytes() -> (r: Vec<u8>)
    ensures
        r@ == seed_mint(),
{
    let r = vec![109u8, 105u8, 110u8, 116u8];
    proof {
        assert(r@ =~= seed_mint());
    }
    r
}

/// Derive the address of the counter record of `user`.
pub fn get_message_counter_pda(user: &Pubkey, program_id: &Pubkey) -> (r: Result<
    (Pubkey, u8),
    MemoError,
>)
    ensures
        derivation_result(r, counter_seeds(user@), program_id@),
{
    let mut seeds: Vec<Vec<u8>> = Vec::new();
    seeds.push(seed_memo_bytes());
    seeds.push(seed_counter_bytes());
    seeds.push(user.to_vec());
    proof {
        assert(seeds.deep_view() =~~= counter_seeds(user@));
    }
    match find_program_address(&seeds, program_id) {
        Some(p) => Ok(p),
        None => Err(MemoError::AddressDerivationExhausted),
    }
}

/// Derive the address of the index record of `user`.
pub fn get_message_index_pda(user: &Pubkey, program_id: &Pubkey) -> (r: Result<
    (Pubkey, u8),
    MemoError,
>)
    ensures
        derivation_result(r, index_seeds(user@), program_id@),
{
    let mut seeds: Vec<Vec<u8>> = Vec::new();
    seeds.push(seed_memo_bytes());
    seeds.push(seed_index_bytes());
    seeds.push(user.to_vec());
    proof {
        assert(seeds.deep_view() =~~= index_seeds(user@));
    }
    match find_program_address(&seeds, program_id) {
        Some(p) => Ok(p),
        None => Err(MemoError::AddressDerivationExhausted),
    }
}

/// Derive the address of the message record for the `counter`-th send from
/// `sender` to `recipient`.
pub fn get_message_pda(
    sender: &Pubkey,
    recipient: &Pubkey,
    counter: u64,
    program_id: &Pubkey,
) -> (r: Result<(Pubkey, u8), MemoError>)
    ensures
        derivation_result(r, message_seeds(sender@, recipient@, counter), program_id@),
{
    let mut seeds: Vec<Vec<u8>> = Vec::new();
    seeds.push(seed_memo_bytes());
    seeds.push(sender.to_vec());
    seeds.push(recipient.to_vec());
    seeds.push(vstd::bytes::u64_to_le_bytes(counter));
    proof {
        assert(seeds.deep_view() =~~= message_seeds(sender@, recipient@, counter));
    }
    match find_program_address(&seeds, program_id) {
        Some(p) => Ok(p),
        None => Err(MemoError::AddressDerivationExhausted),
    }
}

/// Derive the address of the singleton mint registry.
pub fn get_mint_config_pda(program_id: &Pubkey) -> (r: Result<(Pubkey, u8), MemoError>)
    ensures
        derivation_result(r, mint_config_seeds(), program_id@),
{
    let mut seeds: Vec<Vec<u8>> = Vec::new();
    seeds.push(seed_memo_bytes());
    seeds.push(seed_mint_bytes());
    proof {
        assert(seeds.deep_view() =~~= mint_config_seeds());
    }
    match find_program_address(&seeds, program_id) {
        Some(p) => Ok(p),
        None => Err(MemoError::AddressDerivationExhausted),
    }
}

/// A message seed scheme pins every component: two schemes agree only on
/// the same sender, recipient, and counter value.  Together with the
/// strictly increasing per-sender counter this gives every message its own
/// seed scheme without any central allocator.
pub proof fn lemma_message_seeds_injective(
    sender1: Seq<u8>,
    recipient1: Seq<u8>,
    counter1: u64,
    sender2: Seq<u8>,
    recipient2: Seq<u8>,
    counter2: u64,
)
    requires
        message_seeds(sender1, recipient1, counter1) == message_seeds(
            sender2,
            recipient2,
            counter2,
        ),
    ensures
        sender1 == sender2,
        recipient1 == recipient2,
        counter1 == counter2,
{
    vstd::bytes::lemma_auto_spec_u64_to_from_le_bytes();
    assert(message_seeds(sender1, recipient1, counter1)[1] == sender1);
    assert(message_seeds(sender1, recipient1, counter1)[2] == recipient1);
    assert(message_seeds(sender1, recipient1, counter1)[3] == vstd::bytes::spec_u64_to_le_bytes(
        counter1,
    ));
    assert(message_seeds(sender2, recipient2, counter2)[1] == sender2);
    assert(message_seeds(sender2, recipient2, counter2)[2] == recipient2);
    assert(message_seeds(sender2, recipient2, counter2)[3] == vstd::bytes::spec_u64_to_le_bytes(
        counter2,
    ));
}

/// Derivation is deterministic: any two derivations from the same seed
/// scheme and service identity agree — same success or failure, and on
/// success the same address bytes and the same bump.
pub proof fn lemma_derivation_deterministic(
    r1: Result<(Pubkey, u8), MemoError>,
    r2: Result<(Pubkey, u8), MemoError>,
    seeds: Seq<Seq<u8>>,
    program_id: Seq<u8>,
)
    requires
        derivation_result(r1, seeds, program_id),
        derivation_result(r2, seeds, program_id),
    ensures
        r1 is Ok <==> r2 is Ok,
        r1 matches Ok(p1) ==> (r2 matches Ok(p2) && p1.0@ == p2.0@ && p1.1 == p2.1),
        r1 matches Err(e1) ==> (r2 matches Err(e2) && e1 == e2),
{
}

} // verus!
