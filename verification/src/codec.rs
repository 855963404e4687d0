//! Field codec: decodes the public-witness wire format — a big-endian 32-bit
//! element count followed by that many contiguous 32-byte big-endian field
//! elements — and reinterprets field elements as 64-bit integers.

use vstd::prelude::*;

use crate::bytes::{be32_val, be64_val, read_be_u32, read_be_u64};
use crate::errors::RafferoError;

verus! {

/// Number of field elements a finalize witness must carry.
pub const FINALIZE_PUBS: usize = 9;

/// Number of field elements a claim witness must carry.
pub const CLAIM_PUBS: usize = 6;

/// A well-formed witness buffer: at least 4 bytes, a count prefix equal to
/// `expected`, and room for that many 32-byte elements.
pub open spec fn witness_ok(pw: Seq<u8>, expected: int) -> bool {
    &&& pw.len() >= 4
    &&& be32_val(pw.subrange(0, 4)) == expected
    &&& pw.len() >= 4 + 32 * expected
}

/// The `i`-th 32-byte field element of a witness buffer.
pub open spec fn witness_field(pw: Seq<u8>, i: int) -> Seq<u8> {
    pw.subrange(4 + 32 * i, 36 + 32 * i)
}

/// The low 8 bytes of a 32-byte big-endian field element, as an unsigned
/// integer; the top 24 bytes are deliberately ignored.
pub open spec fn field_u64(f: Seq<u8>) -> int
    recommends
        f.len() == 32,
{
    be64_val(f.subrange(24, 32))
}

/// Splits a public-witness buffer into its ordered 32-byte field elements.
/// Fails with `InvalidPublicWitness` exactly when the buffer is shorter than
/// 4 bytes, the count prefix differs from `expected`, or the buffer cannot
/// hold `expected` elements.
pub fn parse_public_witness(pw: &Vec<u8>, expected: usize) -> (r: Result<
    Vec<Vec<u8>>,
    RafferoError,
>)
    requires
        4 + 32 * expected <= usize::MAX,
    ensures
        r is Ok <==> witness_ok(pw@, expected as int),
        r is Err ==> r == Err::<Vec<Vec<u8>>, RafferoError>(RafferoError::InvalidPublicWitness),
        r matches Ok(v) ==> v@.len() == expected && (forall|i: int|
            0 <= i < expected ==> #[trigger] v@[i]@ == witness_field(pw@, i)),
{
    if pw.len() < 4 {
        return Err(RafferoError::InvalidPublicWitness);
    }
    let n = read_be_u32(pw, 0);
    if n as usize != expected {
        return Err(RafferoError::InvalidPublicWitness);
    }
    let need: usize = 4 + 32 * expected;
    if pw.len() < need {
        return Err(RafferoError::InvalidPublicWitness);
    }
    let mut out: Vec<Vec<u8>> = Vec::new();
    let mut i: usize = 0;
    while i < expected
        invariant
            i <= expected,
            4 + 32 * expected <= usize::MAX,
            pw@.len() >= 4 + 32 * expected,
            out@.len() == i,
            forall|k: int| 0 <= k < i ==> #[trigger] out@[k]@ == witness_field(pw@, k),
        decreases expected - i,
    {
        let base: usize = 4 + 32 * i;
        let mut f: Vec<u8> = Vec::new();
        let mut j: usize = 0;
        while j < 32
            invariant
                j <= 32,
                i < expected,
                base == 4 + 32 * i,
                4 + 32 * expected <= usize::MAX,
                pw@.len() >= 4 + 32 * expected,
                f@.len() == j,
                forall|t: int| 0 <= t < j ==> f@[t] == pw@[base + t],
            decreases 32 - j,
        {
            f.push(pw[base + j]);
            j += 1;
        }
        proof {
            assert(f@ =~= witness_field(pw@, i as int));
        }
        out.push(f);
        i += 1;
    }
    Ok(out)
}

/// Reinterprets the low 8 bytes (bytes 24..32) of a 32-byte big-endian field
/// element as an unsigned 64-bit integer, discarding the top 24 bytes.
pub fn field_be_to_u64(f: &Vec<u8>) -> (r: u64)
    requires
        f@.len() == 32,
    ensures
        r == field_u64(f@),
{
    read_be_u64(f, 24)
}

} // verus!
