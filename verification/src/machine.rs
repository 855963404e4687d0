//! The raffle lifecycle state machine. Each operation validates its
//! preconditions against the entities it touches, applies its whole effect or
//! none of it, and reports a specific error kind on failure.
//!
//! Operations that depend on an external zero-knowledge verifier are split in
//! two: a validation step that checks every precondition and assembles the
//! verifier call, and an application step the caller runs only after the
//! external module accepted the proof.

use vstd::prelude::*;

use crate::bytes::{all_zero, bytes_all_zero, bytes_eq, copy_bytes, concat_bytes, read_be_u64,
    u64_to_be_bytes, u64_be_bytes, be64_val, zero_bytes};
use crate::codec::{parse_public_witness, field_be_to_u64, witness_ok, witness_field, field_u64,
    FINALIZE_PUBS, CLAIM_PUBS};
use crate::digest::{keccak256, keccak_of};
use crate::errors::RafferoError;
use crate::gateway::{build_verifier_call, CapabilityHandle, VerifierCall};
use crate::state::{Raffle, RaffleStatus, Vault, EntryMarker, NullifierMarker, raffle_wf,
    status_rank, entry_present, entries_unique, nullifier_present, nullifiers_unique,
    entry_marker_present, nullifier_marker_present, transfer_lamports};

verus! {

/// What `create_raffle` touches: the organizer's balance, debited by the
/// prize deposit.
#[derive(Debug)]
pub struct CreateRaffle {
    pub creator_lamports: u64,
}

/// What `submit_ticket` touches: the raffle, its escrow, the entry markers
/// already created for it, and the buyer's balance.
#[derive(Debug)]
pub struct SubmitTicket {
    pub raffle: Raffle,
    pub vault: Vault,
    pub entry_markers: Vec<EntryMarker>,
    pub buyer_lamports: u64,
}

/// What `finalize_raffle` reads: the raffle and the caller-supplied identity
/// of the verifier module to call.
#[derive(Debug)]
pub struct FinalizeRaffle {
    pub raffle: Raffle,
    pub finalize_verifier: Vec<u8>,
}

/// What `draw_winner` touches: the raffle alone.
#[derive(Debug)]
pub struct DrawWinner {
    pub raffle: Raffle,
}

/// What `claim_prize` touches: the raffle, its escrow, the nullifier markers
/// already created for it, the caller-supplied verifier identity, and the two
/// payout balances.
#[derive(Debug)]
pub struct ClaimPrize {
    pub raffle: Raffle,
    pub vault: Vault,
    pub nullifier_markers: Vec<NullifierMarker>,
    pub claim_verifier: Vec<u8>,
    pub relayer_lamports: u64,
    pub recipient_lamports: u64,
}

/// The three commitment roots a finalize witness carries, ready to be
/// committed once the external verifier has accepted the proof.
#[derive(Debug)]
pub struct FinalizePending {
    pub pending_root: Vec<u8>,
    pub final_root: Vec<u8>,
    pub alias_root: Vec<u8>,
}

/// Initializes a raffle and its empty escrow, then deposits the prize from
/// the organizer's balance. Fails, leaving the balance untouched, exactly
/// when the organizer cannot cover the prize.
pub fn create_raffle(
    ctx: &mut CreateRaffle,
    raffle_id: u64,
    ticket_price: u64,
    max_participants: u32,
    tree_depth: u32,
    end_slot: u64,
    prize_lamports: u64,
    claim_verifier: Vec<u8>,
    finalize_verifier: Vec<u8>,
    authority: Vec<u8>,
) -> (r: Result<(Raffle, Vault), RafferoError>)
    requires
        claim_verifier@.len() == 32,
        finalize_verifier@.len() == 32,
        authority@.len() == 32,
    ensures
        r is Ok <==> old(ctx).creator_lamports >= prize_lamports,
        r is Err ==> final(ctx).creator_lamports == old(ctx).creator_lamports && r == Err::<
            (Raffle, Vault),
            RafferoError,
        >(RafferoError::EmptyPrize),
        r matches Ok(p) ==> {
            &&& raffle_wf(p.0)
            &&& p.0.authority@ == authority@
            &&& p.0.raffle_id == raffle_id
            &&& p.0.ticket_price == ticket_price
            &&& p.0.max_participants == max_participants
            &&& p.0.participants == 0
            &&& p.0.tree_depth == tree_depth
            &&& p.0.end_slot == end_slot
            &&& all_zero(p.0.pending_root@) && p.0.pending_root@.len() == 32
            &&& all_zero(p.0.final_root@) && p.0.final_root@.len() == 32
            &&& all_zero(p.0.alias_root@) && p.0.alias_root@.len() == 32
            &&& p.0.winner_index == 0
            &&& p.0.status == RaffleStatus::Active
            &&& !p.0.finalized
            &&& p.0.claim_verifier@ == claim_verifier@
            &&& p.0.finalize_verifier@ == finalize_verifier@
            &&& p.1.balance == prize_lamports
            &&& final(ctx).creator_lamports == old(ctx).creator_lamports - prize_lamports
        },
{
    let mut vault = Vault { balance: 0 };
    if let Err(e) = transfer_lamports(&mut ctx.creator_lamports, &mut vault.balance, prize_lamports)
        {
        return Err(e);
    }
    let raffle = Raffle {
        authority,
        raffle_id,
        ticket_price,
        max_participants,
        participants: 0,
        tree_depth,
        end_slot,
        pending_root: zero_bytes(32),
        final_root: zero_bytes(32),
        alias_root: zero_bytes(32),
        winner_index: 0,
        status: RaffleStatus::Active,
        finalized: false,
        claim_verifier,
        finalize_verifier,
    };
    Ok((raffle, vault))
}

/// The outcome `submit_ticket` owes for a given starting state: the first
/// failing condition in checking order decides the error.
pub open spec fn submit_check(pre: SubmitTicket, now_slot: u64, h: Seq<u8>) -> Result<
    (),
    RafferoError,
> {
    if entry_present(pre.entry_markers@, h) {
        Err(RafferoError::DuplicateEntry)
    } else if pre.raffle.status != RaffleStatus::Active {
        Err(RafferoError::RaffleNotActive)
    } else if now_slot >= pre.raffle.end_slot {
        Err(RafferoError::RaffleEnded)
    } else if pre.raffle.participants >= pre.raffle.max_participants {
        Err(RafferoError::RaffleFull)
    } else if all_zero(h) {
        Err(RafferoError::InvalidLeaf)
    } else if pre.buyer_lamports < pre.raffle.ticket_price {
        Err(RafferoError::EmptyPrize)
    } else {
        Ok(())
    }
}

/// Accepts one ticket: moves the ticket price from the buyer to the escrow,
/// records the entry commitment in a fresh write-once marker, and counts the
/// participant. Rejects duplicates, inactive or ended or full raffles, and
/// the all-zero commitment, leaving everything untouched.
pub fn submit_ticket(ctx: &mut SubmitTicket, now_slot: u64, entry_hash: &Vec<u8>) -> (r: Result<
    (),
    RafferoError,
>)
    requires
        raffle_wf(old(ctx).raffle),
        entries_unique(old(ctx).entry_markers@),
        entry_hash@.len() == 32,
        old(ctx).vault.balance + old(ctx).raffle.ticket_price <= u64::MAX,
    ensures
        r == submit_check(*old(ctx), now_slot, entry_hash@),
        raffle_wf(final(ctx).raffle),
        entries_unique(final(ctx).entry_markers@),
        final(ctx).raffle.participants <= final(ctx).raffle.max_participants,
        status_rank(final(ctx).raffle.status) >= status_rank(old(ctx).raffle.status),
        r is Err ==> *final(ctx) == *old(ctx),
        r is Ok ==> {
            &&& final(ctx).raffle.participants == old(ctx).raffle.participants + 1
            &&& final(ctx).raffle.status == old(ctx).raffle.status
            &&& final(ctx).raffle.authority == old(ctx).raffle.authority
            &&& final(ctx).raffle.raffle_id == old(ctx).raffle.raffle_id
            &&& final(ctx).raffle.ticket_price == old(ctx).raffle.ticket_price
            &&& final(ctx).raffle.max_participants == old(ctx).raffle.max_participants
            &&& final(ctx).raffle.tree_depth == old(ctx).raffle.tree_depth
            &&& final(ctx).raffle.end_slot == old(ctx).raffle.end_slot
            &&& final(ctx).raffle.pending_root == old(ctx).raffle.pending_root
            &&& final(ctx).raffle.final_root == old(ctx).raffle.final_root
            &&& final(ctx).raffle.alias_root == old(ctx).raffle.alias_root
            &&& final(ctx).raffle.winner_index == old(ctx).raffle.winner_index
            &&& final(ctx).raffle.finalized == old(ctx).raffle.finalized
            &&& final(ctx).raffle.claim_verifier == old(ctx).raffle.claim_verifier
            &&& final(ctx).raffle.finalize_verifier == old(ctx).raffle.finalize_verifier
            &&& final(ctx).vault.balance == old(ctx).vault.balance + old(ctx).raffle.ticket_price
            &&& final(ctx).buyer_lamports == old(ctx).buyer_lamports
                - old(ctx).raffle.ticket_price
            &&& final(ctx).entry_markers@.len() == old(ctx).entry_markers@.len() + 1
            &&& (forall|j: int|
                0 <= j < old(ctx).entry_markers@.len() ==> final(ctx).entry_markers@[j] == old(
                    ctx,
                ).entry_markers@[j])
            &&& final(ctx).entry_markers@[old(ctx).entry_markers@.len() as int].entry_hash@
                == entry_hash@
            &&& entry_present(final(ctx).entry_markers@, entry_hash@)
        },
{
    if entry_marker_present(&ctx.entry_markers, entry_hash) {
        return Err(RafferoError::DuplicateEntry);
    }
    if ctx.raffle.status != RaffleStatus::Active {
        return Err(RafferoError::RaffleNotActive);
    }
    if now_slot >= ctx.raffle.end_slot {
        return Err(RafferoError::RaffleEnded);
    }
    if ctx.raffle.participants >= ctx.raffle.max_participants {
        return Err(RafferoError::RaffleFull);
    }
    if bytes_all_zero(entry_hash) {
        return Err(RafferoError::InvalidLeaf);
    }
    let price = ctx.raffle.ticket_price;
    if let Err(e) = transfer_lamports(&mut ctx.buyer_lamports, &mut ctx.vault.balance, price) {
        return Err(e);
    }
    ctx.entry_markers.push(EntryMarker { entry_hash: copy_bytes(entry_hash) });
    ctx.raffle.participants = ctx.raffle.participants + 1;
    proof {
        let m = ctx.entry_markers@;
        let m0 = old(ctx).entry_markers@;
        assert(m[m0.len() as int].entry_hash@ == entry_hash@);
        assert forall|i: int, j: int| 0 <= i < j < m.len() implies m[i].entry_hash@
            != m[j].entry_hash@ by {
            if j < m0.len() {
                assert(m0[i].entry_hash@ != m0[j].entry_hash@);
            } else {
                assert(!entry_present(m0, entry_hash@));
                assert(m[i] == m0[i]);
            }
        }
    }
    Ok(())
}

/// The outcome `finalize_raffle` owes for a given starting state and witness:
/// the first failing condition in checking order decides the error.
pub open spec fn finalize_check(pre: FinalizeRaffle, now_slot: u64, pw: Seq<u8>) -> Result<
    (),
    RafferoError,
> {
    if pre.raffle.status != RaffleStatus::Active {
        Err(RafferoError::RaffleNotActive)
    } else if now_slot < pre.raffle.end_slot {
        Err(RafferoError::RaffleNotEnded)
    } else if pre.raffle.finalized {
        Err(RafferoError::AlreadyFinalized)
    } else if !witness_ok(pw, FINALIZE_PUBS as int) {
        Err(RafferoError::InvalidPublicWitness)
    } else if field_u64(witness_field(pw, 3)) != pre.raffle.raffle_id {
        Err(RafferoError::InvalidRaffleId)
    } else if field_u64(witness_field(pw, 4)) != pre.raffle.participants {
        Err(RafferoError::InvalidParticipants)
    } else if field_u64(witness_field(pw, 5)) != pre.raffle.tree_depth {
        Err(RafferoError::InvalidTreeDepth)
    } else if pre.finalize_verifier@ != pre.raffle.finalize_verifier@ {
        Err(RafferoError::BadVerifier)
    } else {
        Ok(())
    }
}

/// Validates a finalize request: lifecycle state, deadline, a 9-element
/// witness whose raffle id, participant count and tree depth match the stored
/// record, and the verifier identity bound to the raffle. On success it hands
/// back the three roots the witness commits to and the assembled verifier
/// call; the raffle itself is only changed by `apply_finalize`, after the
/// external verifier accepted the call.
pub fn finalize_raffle(
    ctx: &FinalizeRaffle,
    now_slot: u64,
    proof_bytes: &Vec<u8>,
    public_witness: &Vec<u8>,
    capabilities: Vec<CapabilityHandle>,
) -> (r: Result<(FinalizePending, VerifierCall), RafferoError>)
    requires
        raffle_wf(ctx.raffle),
    ensures
        (r is Ok) == (finalize_check(*ctx, now_slot, public_witness@) is Ok),
        r matches Err(e) ==> finalize_check(*ctx, now_slot, public_witness@) == Err::<
            (),
            RafferoError,
        >(e),
        r matches Ok(p) ==> {
            &&& p.0.pending_root@ == witness_field(public_witness@, 0)
            &&& p.0.final_root@ == witness_field(public_witness@, 1)
            &&& p.0.alias_root@ == witness_field(public_witness@, 2)
            &&& p.0.pending_root@.len() == 32
            &&& p.0.final_root@.len() == 32
            &&& p.0.alias_root@.len() == 32
            &&& p.1.program_id@ == ctx.raffle.finalize_verifier@
            &&& p.1.data@ == proof_bytes@ + public_witness@
            &&& p.1.accounts == capabilities
            &&& p.1.execution_identities@.len() == 1 + capabilities@.len()
            &&& p.1.execution_identities@[0]@ == ctx.raffle.finalize_verifier@
        },
{
    if ctx.raffle.status != RaffleStatus::Active {
        return Err(RafferoError::RaffleNotActive);
    }
    if now_slot < ctx.raffle.end_slot {
        return Err(RafferoError::RaffleNotEnded);
    }
    if ctx.raffle.finalized {
        return Err(RafferoError::AlreadyFinalized);
    }
    let pubs = match parse_public_witness(public_witness, FINALIZE_PUBS) {
        Ok(v) => v,
        Err(e) => {
            return Err(e);
        },
    };
    let raffle_id = field_be_to_u64(&pubs[3]);
    if raffle_id != ctx.raffle.raffle_id {
        return Err(RafferoError::InvalidRaffleId);
    }
    let n = field_be_to_u64(&pubs[4]);
    if n != ctx.raffle.participants as u64 {
        return Err(RafferoError::InvalidParticipants);
    }
    let depth = field_be_to_u64(&pubs[5]);
    if depth != ctx.raffle.tree_depth as u64 {
        return Err(RafferoError::InvalidTreeDepth);
    }
    if !bytes_eq(&ctx.finalize_verifier, &ctx.raffle.finalize_verifier) {
        return Err(RafferoError::BadVerifier);
    }
    let pending = FinalizePending {
        pending_root: copy_bytes(&pubs[0]),
        final_root: copy_bytes(&pubs[1]),
        alias_root: copy_bytes(&pubs[2]),
    };
    let call = build_verifier_call(&ctx.finalize_verifier, proof_bytes, public_witness,
        capabilities);
    Ok((pending, call))
}

/// Commits an accepted finalize: sets the three commitment roots atomically
/// and marks the raffle finalized. The caller runs this only after the
/// external verifier accepted the call that `finalize_raffle` assembled.
pub fn apply_finalize(raffle: &mut Raffle, pending: &FinalizePending)
    requires
        raffle_wf(*old(raffle)),
        old(raffle).status == RaffleStatus::Active,
        !old(raffle).finalized,
        pending.pending_root@.len() == 32,
        pending.final_root@.len() == 32,
        pending.alias_root@.len() == 32,
    ensures
        raffle_wf(*final(raffle)),
        final(raffle).pending_root@ == pending.pending_root@,
        final(raffle).final_root@ == pending.final_root@,
        final(raffle).alias_root@ == pending.alias_root@,
        final(raffle).finalized,
        final(raffle).status == old(raffle).status,
        status_rank(final(raffle).status) >= status_rank(old(raffle).status),
        final(raffle).authority == old(raffle).authority,
        final(raffle).raffle_id == old(raffle).raffle_id,
        final(raffle).ticket_price == old(raffle).ticket_price,
        final(raffle).max_participants == old(raffle).max_participants,
        final(raffle).participants == old(raffle).participants,
        final(raffle).tree_depth == old(raffle).tree_depth,
        final(raffle).end_slot == old(raffle).end_slot,
        final(raffle).winner_index == old(raffle).winner_index,
        final(raffle).claim_verifier == old(raffle).claim_verifier,
        final(raffle).finalize_verifier == old(raffle).finalize_verifier,
{
    raffle.pending_root = copy_bytes(&pending.pending_root);
    raffle.final_root = copy_bytes(&pending.final_root);
    raffle.alias_root = copy_bytes(&pending.alias_root);
    raffle.finalized = true;
}

/// The outcome `draw_winner` owes for a given starting state: the first
/// failing condition in checking order decides the error.
pub open spec fn draw_check(pre: DrawWinner, now_slot: u64) -> Result<(), RafferoError> {
    if !pre.raffle.finalized {
        Err(RafferoError::RaffleNotFinalized)
    } else if pre.raffle.status != RaffleStatus::Active {
        Err(RafferoError::RaffleNotActive)
    } else if now_slot < pre.raffle.end_slot {
        Err(RafferoError::RaffleNotEnded)
    } else if pre.raffle.participants == 0 {
        Err(RafferoError::NoParticipants)
    } else {
        Ok(())
    }
}

/// The winner index the draw owes: the first 8 bytes of the Keccak-256 digest
/// of the draw slot (big-endian) followed by the final root, read as a
/// big-endian integer and reduced modulo the participant count.
pub open spec fn winner_of(now_slot: u64, final_root: Seq<u8>, participants: u32) -> int
    recommends
        participants > 0,
{
    be64_val(keccak_of(u64_be_bytes(now_slot) + final_root).subrange(0, 8)) % (
    participants as int)
}

/// Draws the winner deterministically from the draw slot and the final root,
/// and closes the raffle. The derived index is always below the participant
/// count.
pub fn draw_winner(ctx: &mut DrawWinner, now_slot: u64) -> (r: Result<(), RafferoError>)
    requires
        raffle_wf(old(ctx).raffle),
    ensures
        r == draw_check(*old(ctx), now_slot),
        raffle_wf(final(ctx).raffle),
        status_rank(final(ctx).raffle.status) >= status_rank(old(ctx).raffle.status),
        r is Err ==> *final(ctx) == *old(ctx),
        r is Ok ==> {
            &&& final(ctx).raffle.winner_index == winner_of(
                now_slot,
                old(ctx).raffle.final_root@,
                old(ctx).raffle.participants,
            )
            &&& 0 <= final(ctx).raffle.winner_index < final(ctx).raffle.participants
            &&& final(ctx).raffle.status == RaffleStatus::Closed
            &&& final(ctx).raffle.authority == old(ctx).raffle.authority
            &&& final(ctx).raffle.raffle_id == old(ctx).raffle.raffle_id
            &&& final(ctx).raffle.ticket_price == old(ctx).raffle.ticket_price
            &&& final(ctx).raffle.max_participants == old(ctx).raffle.max_participants
            &&& final(ctx).raffle.participants == old(ctx).raffle.participants
            &&& final(ctx).raffle.tree_depth == old(ctx).raffle.tree_depth
            &&& final(ctx).raffle.end_slot == old(ctx).raffle.end_slot
            &&& final(ctx).raffle.pending_root == old(ctx).raffle.pending_root
            &&& final(ctx).raffle.final_root == old(ctx).raffle.final_root
            &&& final(ctx).raffle.alias_root == old(ctx).raffle.alias_root
            &&& final(ctx).raffle.finalized == old(ctx).raffle.finalized
            &&& final(ctx).raffle.claim_verifier == old(ctx).raffle.claim_verifier
            &&& final(ctx).raffle.finalize_verifier == old(ctx).raffle.finalize_verifier
        },
{
    if !ctx.raffle.finalized {
        return Err(RafferoError::RaffleNotFinalized);
    }
    if ctx.raffle.status != RaffleStatus::Active {
        return Err(RafferoError::RaffleNotActive);
    }
    if now_slot < ctx.raffle.end_slot {
        return Err(RafferoError::RaffleNotEnded);
    }
    if ctx.raffle.participants == 0 {
        return Err(RafferoError::NoParticipants);
    }
    let slot_bytes = u64_to_be_bytes(now_slot);
    let data = concat_bytes(&slot_bytes, &ctx.raffle.final_root);
    let seed = keccak256(&data);
    let x = read_be_u64(&seed, 0);
    let w = (x % (ctx.raffle.participants as u64)) as u32;
    ctx.raffle.winner_index = w;
    ctx.raffle.status = RaffleStatus::Closed;
    Ok(())
}

/// The outcome the claim validation owes for a given starting state, witness
/// and caller-supplied nullifier: the first failing condition in checking
/// order decides the error. A present nullifier marker is rejected before
/// anything else, whatever the raffle's status.
pub open spec fn claim_check(pre: ClaimPrize, pw: Seq<u8>, nullifier: Seq<u8>) -> Result<
    (),
    RafferoError,
> {
    if nullifier_present(pre.nullifier_markers@, nullifier) {
        Err(RafferoError::DuplicateNullifier)
    } else if pre.raffle.status != RaffleStatus::Closed {
        Err(RafferoError::RaffleNotClosed)
    } else if !witness_ok(pw, CLAIM_PUBS as int) {
        Err(RafferoError::InvalidPublicWitness)
    } else if field_u64(witness_field(pw, 3)) != pre.raffle.raffle_id {
        Err(RafferoError::InvalidRaffleId)
    } else if witness_field(pw, 0) != pre.raffle.final_root@ {
        Err(RafferoError::InvalidRoot)
    } else if field_u64(witness_field(pw, 4)) != pre.raffle.winner_index {
        Err(RafferoError::NotWinner)
    } else if field_u64(witness_field(pw, 5)) != pre.raffle.tree_depth {
        Err(RafferoError::InvalidTreeDepth)
    } else if nullifier != witness_field(pw, 1) {
        Err(RafferoError::NullifierMismatch)
    } else if pre.claim_verifier@ != pre.raffle.claim_verifier@ {
        Err(RafferoError::BadVerifier)
    } else {
        Ok(())
    }
}

/// Validates a claim request: no marker for the nullifier yet, a closed
/// raffle, a 6-element witness whose raffle id, root, winner index and tree
/// depth match the stored record, a caller nullifier equal to the one the
/// witness embeds, and the verifier identity bound to the raffle. On success
/// it hands back the assembled verifier call; funds only move in
/// `settle_claim`, after the external verifier accepted the call.
pub fn claim_prize(
    ctx: &ClaimPrize,
    proof_bytes: &Vec<u8>,
    public_witness: &Vec<u8>,
    nullifier_hash: &Vec<u8>,
    capabilities: Vec<CapabilityHandle>,
) -> (r: Result<VerifierCall, RafferoError>)
    requires
        raffle_wf(ctx.raffle),
    ensures
        (r is Ok) == (claim_check(*ctx, public_witness@, nullifier_hash@) is Ok),
        r matches Err(e) ==> claim_check(*ctx, public_witness@, nullifier_hash@) == Err::<
            (),
            RafferoError,
        >(e),
        r matches Ok(c) ==> {
            &&& c.program_id@ == ctx.raffle.claim_verifier@
            &&& c.data@ == proof_bytes@ + public_witness@
            &&& c.accounts == capabilities
            &&& c.execution_identities@.len() == 1 + capabilities@.len()
            &&& c.execution_identities@[0]@ == ctx.raffle.claim_verifier@
        },
{
    if nullifier_marker_present(&ctx.nullifier_markers, nullifier_hash) {
        return Err(RafferoError::DuplicateNullifier);
    }
    if ctx.raffle.status != RaffleStatus::Closed {
        return Err(RafferoError::RaffleNotClosed);
    }
    let pubs = match parse_public_witness(public_witness, CLAIM_PUBS) {
        Ok(v) => v,
        Err(e) => {
            return Err(e);
        },
    };
    let raffle_id = field_be_to_u64(&pubs[3]);
    if raffle_id != ctx.raffle.raffle_id {
        return Err(RafferoError::InvalidRaffleId);
    }
    if !bytes_eq(&pubs[0], &ctx.raffle.final_root) {
        return Err(RafferoError::InvalidRoot);
    }
    let winner_index = field_be_to_u64(&pubs[4]);
    if winner_index != ctx.raffle.winner_index as u64 {
        return Err(RafferoError::NotWinner);
    }
    let depth = field_be_to_u64(&pubs[5]);
    if depth != ctx.raffle.tree_depth as u64 {
        return Err(RafferoError::InvalidTreeDepth);
    }
    if !bytes_eq(nullifier_hash, &pubs[1]) {
        return Err(RafferoError::NullifierMismatch);
    }
    if !bytes_eq(&ctx.claim_verifier, &ctx.raffle.claim_verifier) {
        return Err(RafferoError::BadVerifier);
    }
    let call = build_verifier_call(&ctx.claim_verifier, proof_bytes, public_witness, capabilities);
    Ok(call)
}

/// The outcome `settle_claim` owes for a given starting state: the first
/// failing condition in checking order decides the error.
pub open spec fn settle_check(pre: ClaimPrize, nullifier: Seq<u8>, relayer_fee: u64) -> Result<
    (),
    RafferoError,
> {
    if nullifier_present(pre.nullifier_markers@, nullifier) {
        Err(RafferoError::DuplicateNullifier)
    } else if pre.vault.balance == 0 {
        Err(RafferoError::EmptyPrize)
    } else if relayer_fee > pre.vault.balance {
        Err(RafferoError::BadRelayerFee)
    } else {
        Ok(())
    }
}

/// Settles an accepted claim: records the nullifier in a fresh write-once
/// marker, pays the relayer fee, drains the rest of the escrow to the
/// recipient, and moves the raffle to `Claimed`. The caller runs this only
/// after the external verifier accepted the call that `claim_prize`
/// assembled. The two payouts add up exactly to the pre-claim escrow balance,
/// and the escrow ends at zero.
pub fn settle_claim(ctx: &mut ClaimPrize, nullifier_hash: &Vec<u8>, relayer_fee: u64) -> (r: Result<
    (),
    RafferoError,
>)
    requires
        raffle_wf(old(ctx).raffle),
        nullifiers_unique(old(ctx).nullifier_markers@),
        old(ctx).raffle.status == RaffleStatus::Closed,
        nullifier_hash@.len() == 32,
        old(ctx).relayer_lamports + relayer_fee <= u64::MAX,
        old(ctx).recipient_lamports + old(ctx).vault.balance <= u64::MAX,
    ensures
        r == settle_check(*old(ctx), nullifier_hash@, relayer_fee),
        raffle_wf(final(ctx).raffle),
        nullifiers_unique(final(ctx).nullifier_markers@),
        status_rank(final(ctx).raffle.status) >= status_rank(old(ctx).raffle.status),
        r is Err ==> *final(ctx) == *old(ctx),
        r is Ok ==> {
            &&& final(ctx).vault.balance == 0
            &&& final(ctx).relayer_lamports == old(ctx).relayer_lamports + relayer_fee
            &&& final(ctx).recipient_lamports == old(ctx).recipient_lamports + (old(
                ctx,
            ).vault.balance - relayer_fee)
            &&& (final(ctx).relayer_lamports + final(ctx).recipient_lamports) - (old(
                ctx,
            ).relayer_lamports + old(ctx).recipient_lamports) == old(ctx).vault.balance
            &&& final(ctx).raffle.status == RaffleStatus::Claimed
            &&& final(ctx).raffle.authority == old(ctx).raffle.authority
            &&& final(ctx).raffle.raffle_id == old(ctx).raffle.raffle_id
            &&& final(ctx).raffle.ticket_price == old(ctx).raffle.ticket_price
            &&& final(ctx).raffle.max_participants == old(ctx).raffle.max_participants
            &&& final(ctx).raffle.participants == old(ctx).raffle.participants
            &&& final(ctx).raffle.tree_depth == old(ctx).raffle.tree_depth
            &&& final(ctx).raffle.end_slot == old(ctx).raffle.end_slot
            &&& final(ctx).raffle.pending_root == old(ctx).raffle.pending_root
            &&& final(ctx).raffle.final_root == old(ctx).raffle.final_root
            &&& final(ctx).raffle.alias_root == old(ctx).raffle.alias_root
            &&& final(ctx).raffle.winner_index == old(ctx).raffle.winner_index
            &&& final(ctx).raffle.finalized == old(ctx).raffle.finalized
            &&& final(ctx).claim_verifier == old(ctx).claim_verifier
            &&& final(ctx).nullifier_markers@.len() == old(ctx).nullifier_markers@.len() + 1
            &&& (forall|j: int|
                0 <= j < old(ctx).nullifier_markers@.len() ==> final(ctx).nullifier_markers@[j]
                    == old(ctx).nullifier_markers@[j])
            &&& final(ctx).nullifier_markers@[old(
                ctx,
            ).nullifier_markers@.len() as int].nullifier@ == nullifier_hash@
            &&& nullifier_present(final(ctx).nullifier_markers@, nullifier_hash@)
        },
{
    if nullifier_marker_present(&ctx.nullifier_markers, nullifier_hash) {
        return Err(RafferoError::DuplicateNullifier);
    }
    let vault_balance = ctx.vault.balance;
    if vault_balance == 0 {
        return Err(RafferoError::EmptyPrize);
    }
    if relayer_fee > vault_balance {
        return Err(RafferoError::BadRelayerFee);
    }
    ctx.nullifier_markers.push(
        NullifierMarker { nullifier: copy_bytes(nullifier_hash), used: true },
    );
    let to_recipient = vault_balance - relayer_fee;
    if relayer_fee > 0 {
        if let Err(e) = transfer_lamports(&mut ctx.vault.balance, &mut ctx.relayer_lamports,
            relayer_fee) {
            return Err(e);
        }
    }
    if let Err(e) = transfer_lamports(&mut ctx.vault.balance, &mut ctx.recipient_lamports,
        to_recipient) {
        return Err(e);
    }
    ctx.raffle.status = RaffleStatus::Claimed;
    proof {
        let m = ctx.nullifier_markers@;
        let m0 = old(ctx).nullifier_markers@;
        assert(m[m0.len() as int].nullifier@ == nullifier_hash@);
        assert forall|i: int, j: int| 0 <= i < j < m.len() implies m[i].nullifier@
            != m[j].nullifier@ by {
            if j < m0.len() {
                assert(m0[i].nullifier@ != m0[j].nullifier@);
            } else {
                assert(!nullifier_present(m0, nullifier_hash@));
                assert(m[i] == m0[i]);
            }
        }
    }
    Ok(())
}

/// Claim exclusivity: a settled claim records its nullifier marker, markers
/// are never removed, and both the claim validation and the settlement reject
/// a nullifier whose marker is present. Hence, for a fixed nullifier, after
/// one claim has settled every later claim attempt with that nullifier is
/// rejected as a duplicate, whatever the raffle's status by then.
pub proof fn lemma_claim_exclusive(
    settled: ClaimPrize,
    later: ClaimPrize,
    nullifier: Seq<u8>,
    relayer_fee: u64,
    pw: Seq<u8>,
)
    requires
        nullifier_present(settled.nullifier_markers@, nullifier),
        forall|h: Seq<u8>|
            nullifier_present(settled.nullifier_markers@, h) ==> #[trigger] nullifier_present(
                later.nullifier_markers@,
                h,
            ),
    ensures
        settle_check(later, nullifier, relayer_fee) == Err::<(), RafferoError>(
            RafferoError::DuplicateNullifier,
        ),
        claim_check(later, pw, nullifier) == Err::<(), RafferoError>(
            RafferoError::DuplicateNullifier,
        ),
{
    assert(nullifier_present(later.nullifier_markers@, nullifier));
}

} // verus!
