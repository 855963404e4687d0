use raffero::bytes::u64_to_be_bytes;
use raffero::codec::{field_be_to_u64, parse_public_witness, CLAIM_PUBS, FINALIZE_PUBS};
use raffero::errors::RafferoError;

fn make_field_u64(x: u64) -> Vec<u8> {
    let mut v = vec![0u8; 24];
    v.extend_from_slice(&x.to_be_bytes());
    v
}

fn make_witness(fields: &[Vec<u8>]) -> Vec<u8> {
    let mut w = (fields.len() as u32).to_be_bytes().to_vec();
    for f in fields {
        w.extend_from_slice(f);
    }
    w
}

#[test]
fn parse_valid_claim_witness() {
    let fields: Vec<Vec<u8>> = (0..CLAIM_PUBS as u64).map(make_field_u64).collect();
    let w = make_witness(&fields);
    let parsed = parse_public_witness(&w, CLAIM_PUBS).unwrap();
    assert_eq!(parsed.len(), CLAIM_PUBS);
    for (i, f) in parsed.iter().enumerate() {
        assert_eq!(f, &fields[i]);
        assert_eq!(field_be_to_u64(f), i as u64);
    }
}

#[test]
fn parse_valid_finalize_witness() {
    let fields: Vec<Vec<u8>> = (10..10 + FINALIZE_PUBS as u64).map(make_field_u64).collect();
    let w = make_witness(&fields);
    let parsed = parse_public_witness(&w, FINALIZE_PUBS).unwrap();
    assert_eq!(parsed.len(), FINALIZE_PUBS);
    assert_eq!(field_be_to_u64(&parsed[3]), 13);
}

#[test]
fn parse_rejects_short_buffer() {
    let w = vec![0u8, 0, 0];
    assert_eq!(parse_public_witness(&w, CLAIM_PUBS), Err(RafferoError::InvalidPublicWitness));
}

#[test]
fn parse_rejects_count_mismatch() {
    let fields: Vec<Vec<u8>> = (0..5u64).map(make_field_u64).collect();
    let w = make_witness(&fields);
    assert_eq!(parse_public_witness(&w, CLAIM_PUBS), Err(RafferoError::InvalidPublicWitness));
}

#[test]
fn parse_rejects_truncated_body() {
    let fields: Vec<Vec<u8>> = (0..CLAIM_PUBS as u64).map(make_field_u64).collect();
    let mut w = make_witness(&fields);
    w.truncate(100);
    assert_eq!(parse_public_witness(&w, CLAIM_PUBS), Err(RafferoError::InvalidPublicWitness));
}

#[test]
fn parse_accepts_trailing_bytes() {
    let fields: Vec<Vec<u8>> = (0..CLAIM_PUBS as u64).map(make_field_u64).collect();
    let mut w = make_witness(&fields);
    w.push(0xAB);
    assert!(parse_public_witness(&w, CLAIM_PUBS).is_ok());
}

#[test]
fn field_to_u64_ignores_top_bytes() {
    let mut f = vec![0xFFu8; 24];
    f.extend_from_slice(&0x1122334455667788u64.to_be_bytes());
    assert_eq!(field_be_to_u64(&f), 0x1122334455667788);
}

#[test]
fn field_to_u64_exact_value() {
    let f = make_field_u64(987654321);
    assert_eq!(field_be_to_u64(&f), 987654321);
}

#[test]
fn u64_big_endian_encoding_matches_std() {
    let x = 0xDEADBEEF12345678u64;
    assert_eq!(u64_to_be_bytes(x), x.to_be_bytes().to_vec());
    assert_eq!(u64_to_be_bytes(0), vec![0u8; 8]);
}
