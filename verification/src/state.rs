//! The persistent entities of a raffle: the `Raffle` record itself, the
//! escrow `Vault`, the two families of write-once replay markers, and the
//! balance-transfer primitive that moves funds between plain balances.

use vstd::prelude::*;

use crate::bytes::all_zero;
use crate::errors::RafferoError;

verus! {

/// Lifecycle states; transitions run `Active -> Closed -> Claimed`, never
/// backward and never skipping a state.
#[derive(Clone, Copy, PartialEq, Eq, Structural, Debug)]
pub enum RaffleStatus {
    Active,
    Closed,
    Claimed,
}

/// Position of a status in the lifecycle order; used to state that no
/// operation ever moves the status backward.
pub open spec fn status_rank(s: RaffleStatus) -> int {
    match s {
        RaffleStatus::Active => 0,
        RaffleStatus::Closed => 1,
        RaffleStatus::Claimed => 2,
    }
}

/// One raffle instance. All identities (authority, verifiers) and commitment
/// roots are 32-byte values.
#[derive(Debug)]
pub struct Raffle {
    pub authority: Vec<u8>,
    pub raffle_id: u64,
    pub ticket_price: u64,
    pub max_participants: u32,
    pub participants: u32,
    pub tree_depth: u32,
    pub end_slot: u64,
    pub pending_root: Vec<u8>,
    pub final_root: Vec<u8>,
    pub alias_root: Vec<u8>,
    pub winner_index: u32,
    pub status: RaffleStatus,
    pub finalized: bool,
    pub claim_verifier: Vec<u8>,
    pub finalize_verifier: Vec<u8>,
}

/// Structural well-formedness of a raffle record: 32-byte identities and
/// roots, the participant bound, all-zero roots until finalization, and a
/// drawn, in-range winner once the raffle has left the `Active` state.
pub open spec fn raffle_wf(r: Raffle) -> bool {
    &&& r.authority@.len() == 32
    &&& r.pending_root@.len() == 32
    &&& r.final_root@.len() == 32
    &&& r.alias_root@.len() == 32
    &&& r.claim_verifier@.len() == 32
    &&& r.finalize_verifier@.len() == 32
    &&& r.participants <= r.max_participants
    &&& (!r.finalized ==> all_zero(r.pending_root@) && all_zero(r.final_root@) && all_zero(
        r.alias_root@,
    ))
    &&& (r.status != RaffleStatus::Active ==> r.finalized && r.participants > 0
        && r.winner_index < r.participants)
}

/// The escrow bound 1:1 to a raffle: holds the prize and every ticket
/// payment, and is drained to zero by the single successful claim.
#[derive(Debug)]
pub struct Vault {
    pub balance: u64,
}

/// Write-once marker recording that an entry commitment was accepted; its
/// existence is the de-duplication signal for tickets.
#[derive(Debug)]
pub struct EntryMarker {
    pub entry_hash: Vec<u8>,
}

/// Write-once marker recording that a nullifier was consumed by a successful
/// claim; its existence is the sole anti-double-claim mechanism.
#[derive(Debug)]
pub struct NullifierMarker {
    pub nullifier: Vec<u8>,
    pub used: bool,
}

/// Whether an entry marker for commitment `h` exists.
pub open spec fn entry_present(markers: Seq<EntryMarker>, h: Seq<u8>) -> bool {
    exists|i: int| 0 <= i < markers.len() && markers[i].entry_hash@ == h
}

/// Entry markers are keyed by their commitment: no two hold the same one.
pub open spec fn entries_unique(markers: Seq<EntryMarker>) -> bool {
    forall|i: int, j: int|
        0 <= i < j < markers.len() ==> markers[i].entry_hash@ != markers[j].entry_hash@
}

/// Whether a nullifier marker for `n` exists.
pub open spec fn nullifier_present(markers: Seq<NullifierMarker>, n: Seq<u8>) -> bool {
    exists|i: int| 0 <= i < markers.len() && markers[i].nullifier@ == n
}

/// Nullifier markers are keyed by their nullifier: no two hold the same one.
pub open spec fn nullifiers_unique(markers: Seq<NullifierMarker>) -> bool {
    forall|i: int, j: int|
        0 <= i < j < markers.len() ==> markers[i].nullifier@ != markers[j].nullifier@
}

/// Scans the entry markers for commitment `h`.
pub fn entry_marker_present(markers: &Vec<EntryMarker>, h: &Vec<u8>) -> (r: bool)
    ensures
        r == entry_present(markers@, h@),
{
    let mut i: usize = 0;
    while i < markers.len()
        invariant
            i <= markers@.len(),
            forall|j: int| 0 <= j < i ==> markers@[j].entry_hash@ != h@,
        decreases markers@.len() - i,
    {
        if crate::bytes::bytes_eq(&markers[i].entry_hash, h) {
            return true;
        }
        i += 1;
    }
    false
}

/// Scans the nullifier markers for nullifier `n`.
pub fn nullifier_marker_present(markers: &Vec<NullifierMarker>, n: &Vec<u8>) -> (r: bool)
    ensures
        r == nullifier_present(markers@, n@),
{
    let mut i: usize = 0;
    while i < markers.len()
        invariant
            i <= markers@.len(),
            forall|j: int| 0 <= j < i ==> markers@[j].nullifier@ != n@,
        decreases markers@.len() - i,
    {
        if crate::bytes::bytes_eq(&markers[i].nullifier, n) {
            return true;
        }
        i += 1;
    }
    false
}

/// Moves `amount` from one balance to another. Fails, leaving both balances
/// untouched, exactly when the source balance is too small.
pub fn transfer_lamports(from: &mut u64, to: &mut u64, amount: u64) -> (r: Result<
    (),
    RafferoError,
>)
    requires
        *old(to) + amount <= u64::MAX,
    ensures
        r is Ok <==> *old(from) >= amount,
        r is Ok ==> *final(from) == *old(from) - amount && *final(to) == *old(to) + amount,
        r is Err ==> *final(from) == *old(from) && *final(to) == *old(to) && r == Err::<
            (),
            RafferoError,
        >(RafferoError::EmptyPrize),
        *final(from) + *final(to) == *old(from) + *old(to),
{
    if *from < amount {
        return Err(RafferoError::EmptyPrize);
    }
    *from = *from - amount;
    *to = *to + amount;
    Ok(())
}

} // verus!
