//! The zero-copy evaluator over raw byte regions.

use culling::{evaluate_batch, evaluate_batch_direct, CullError};

const MAX_D: f64 = 100.0;
const SPEED_T: f64 = 2.0;
const COS_T: f64 = 0.25;

/// Packs doubles into a byte region as the engine expects them:
/// little-endian, eight bytes each.
fn pack(values: &[f64]) -> Vec<u8> {
    let mut region = Vec::with_capacity(values.len() * 8);
    for v in values {
        region.extend_from_slice(&v.to_le_bytes());
    }
    region
}

fn sample_doubles(n: usize) -> (Vec<f64>, Vec<f64>, Vec<f64>) {
    let mut d = Vec::with_capacity(n);
    let mut s = Vec::with_capacity(n);
    let mut c = Vec::with_capacity(n);
    for i in 0..n {
        d.push(match i % 9 {
            0 => f64::NAN,
            1 => f64::INFINITY,
            k => 40.0 * k as f64,
        });
        s.push(match i % 7 {
            0 => f64::NAN,
            k => 0.6 * k as f64,
        });
        c.push(match i % 5 {
            0 => -0.0,
            k => 0.3 * k as f64 - 0.8,
        });
    }
    (d, s, c)
}

#[test]
fn direct_matches_batch_on_identical_numeric_contents() {
    let n = 61;
    let (d, s, c) = sample_doubles(n);
    let d_region = pack(&d);
    let s_region = pack(&s);
    let c_region = pack(&c);
    let mut out = vec![0xAAu8; n];
    evaluate_batch_direct(
        &d_region,
        &s_region,
        &c_region,
        &mut out,
        n,
        MAX_D.to_bits(),
        SPEED_T.to_bits(),
        COS_T.to_bits(),
    )
    .unwrap();

    let d_bits: Vec<u64> = d.iter().map(|v| v.to_bits()).collect();
    let s_bits: Vec<u64> = s.iter().map(|v| v.to_bits()).collect();
    let c_bits: Vec<u64> = c.iter().map(|v| v.to_bits()).collect();
    let flags = evaluate_batch(
        &d_bits,
        &s_bits,
        &c_bits,
        MAX_D.to_bits(),
        SPEED_T.to_bits(),
        COS_T.to_bits(),
    )
    .unwrap();
    for i in 0..n {
        assert_eq!(out[i], if flags[i] { 1 } else { 0 }, "row {i}");
    }
}

#[test]
fn rejects_count_exceeding_an_input_region() {
    let (d, s, c) = sample_doubles(4);
    let d_region = pack(&d);
    let s_region = pack(&s);
    let c_region = pack(&c);
    let mut out = vec![0x55u8; 8];
    let untouched = out.clone();
    // 5 * 8 = 40 bytes exceed the 32-byte regions
    for (dr, sr, cr) in [
        (&d_region[..24], &s_region[..], &c_region[..]),
        (&d_region[..], &s_region[..24], &c_region[..]),
        (&d_region[..], &s_region[..], &c_region[..24]),
    ] {
        let r = evaluate_batch_direct(
            dr,
            sr,
            cr,
            &mut out,
            4,
            MAX_D.to_bits(),
            SPEED_T.to_bits(),
            COS_T.to_bits(),
        );
        assert_eq!(r, Err(CullError::UndersizedRegion));
        assert_eq!(out, untouched, "output region must stay untouched");
    }
    let r = evaluate_batch_direct(
        &d_region,
        &s_region,
        &c_region,
        &mut out,
        5,
        MAX_D.to_bits(),
        SPEED_T.to_bits(),
        COS_T.to_bits(),
    );
    assert_eq!(r, Err(CullError::UndersizedRegion));
    assert_eq!(out, untouched);
}

#[test]
fn rejects_undersized_output_region() {
    let (d, s, c) = sample_doubles(4);
    let mut out = vec![0x55u8; 3];
    let untouched = out.clone();
    let r = evaluate_batch_direct(
        &pack(&d),
        &pack(&s),
        &pack(&c),
        &mut out,
        4,
        MAX_D.to_bits(),
        SPEED_T.to_bits(),
        COS_T.to_bits(),
    );
    assert_eq!(r, Err(CullError::UndersizedRegion));
    assert_eq!(out, untouched);
}

#[test]
fn rejects_zero_count() {
    let (d, s, c) = sample_doubles(2);
    let mut out = vec![7u8; 2];
    let r = evaluate_batch_direct(
        &pack(&d),
        &pack(&s),
        &pack(&c),
        &mut out,
        0,
        MAX_D.to_bits(),
        SPEED_T.to_bits(),
        COS_T.to_bits(),
    );
    assert_eq!(r, Err(CullError::InvalidBatchShape));
    assert_eq!(out, vec![7u8; 2]);
}

#[test]
fn writes_exactly_count_flag_bytes() {
    let (d, s, c) = sample_doubles(6);
    let mut out = vec![0xEEu8; 10];
    evaluate_batch_direct(
        &pack(&d),
        &pack(&s),
        &pack(&c),
        &mut out,
        6,
        MAX_D.to_bits(),
        SPEED_T.to_bits(),
        COS_T.to_bits(),
    )
    .unwrap();
    for i in 0..6 {
        assert!(out[i] == 0 || out[i] == 1, "flag byte {i}");
    }
    assert_eq!(&out[6..], &[0xEE; 4], "bytes past count must stay untouched");
}

#[test]
fn count_may_cover_only_a_prefix_of_the_regions() {
    let (d, s, c) = sample_doubles(8);
    let mut out_prefix = vec![0u8; 3];
    evaluate_batch_direct(
        &pack(&d),
        &pack(&s),
        &pack(&c),
        &mut out_prefix,
        3,
        MAX_D.to_bits(),
        SPEED_T.to_bits(),
        COS_T.to_bits(),
    )
    .unwrap();
    let mut out_full = vec![0u8; 8];
    evaluate_batch_direct(
        &pack(&d),
        &pack(&s),
        &pack(&c),
        &mut out_full,
        8,
        MAX_D.to_bits(),
        SPEED_T.to_bits(),
        COS_T.to_bits(),
    )
    .unwrap();
    assert_eq!(&out_full[..3], &out_prefix[..]);
}

#[test]
fn direct_repeated_calls_give_identical_flags() {
    let (d, s, c) = sample_doubles(16);
    let mut first = vec![0u8; 16];
    let mut second = vec![1u8; 16];
    for out in [&mut first, &mut second] {
        evaluate_batch_direct(
            &pack(&d),
            &pack(&s),
            &pack(&c),
            out,
            16,
            MAX_D.to_bits(),
            SPEED_T.to_bits(),
            COS_T.to_bits(),
        )
        .unwrap();
    }
    assert_eq!(first, second);
}
