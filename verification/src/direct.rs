//! The zero-copy evaluator over raw byte regions.
//!
//! The caller shares four memory regions with the engine: three read-only
//! regions of packed little-endian doubles and one writable region of
//! single-byte flags. An explicit `count` parameter, not the region sizes,
//! states how many entities to process. The regions arrive as bounds-checked
//! byte slices — a validate-then-borrow view, never a bare address — and the
//! evaluator proves it reads and writes only within the validated extents:
//! every flag byte past `count` is left exactly as it was.

use vstd::prelude::*;
use vstd::bytes::{spec_u64_from_le_bytes, u64_from_le_bytes};
use vstd::slice::slice_subrange;
use crate::engine::{batch_flags, evaluate_single, CullError};

verus! {

/// The `i`-th packed little-endian double bit pattern of a byte region.
pub open spec fn double_at(region: Seq<u8>, i: int) -> u64 {
    spec_u64_from_le_bytes(region.subrange(8 * i, 8 * i + 8))
}

/// The first `count` packed doubles of a byte region, as bit patterns.
pub open spec fn region_doubles(region: Seq<u8>, count: nat) -> Seq<u64> {
    Seq::new(count, |i: int| double_at(region, i))
}

/// The flag bytes the direct evaluator writes: `1` exactly where the batch
/// over the decoded doubles culls, `0` elsewhere.
pub open spec fn direct_flags(
    distances: Seq<u8>,
    speeds: Seq<u8>,
    cos_angles: Seq<u8>,
    count: nat,
    max_distance: u64,
    speed_threshold: u64,
    cos_threshold: u64,
) -> Seq<u8> {
    Seq::new(
        count,
        |i: int|
            if batch_flags(
                region_doubles(distances, count),
                region_doubles(speeds, count),
                region_doubles(cos_angles, count),
                max_distance,
                speed_threshold,
                cos_threshold,
            )[i] {
                1u8
            } else {
                0u8
            },
    )
}

/// The requested count fits every region: it is positive, each input region
/// holds at least `count` eight-byte doubles, and the output region holds at
/// least `count` flag bytes.
pub open spec fn valid_direct_shape(
    count: nat,
    n_distances: nat,
    n_speeds: nat,
    n_cos_angles: nat,
    n_out: nat,
) -> bool {
    &&& count > 0
    &&& 8 * count <= n_distances
    &&& 8 * count <= n_speeds
    &&& 8 * count <= n_cos_angles
    &&& count <= n_out
}

/// Evaluates `count` entities directly over shared byte regions, writing one
/// flag byte per entity into `out`. A zero count or a region whose declared
/// capacity cannot hold the count is rejected before any region byte is read
/// or written; flag bytes at and past `count` are never touched.
pub fn evaluate_batch_direct(
    distances: &[u8],
    speeds: &[u8],
    cos_angles: &[u8],
    out: &mut [u8],
    count: usize,
    max_distance: u64,
    speed_threshold: u64,
    cos_threshold: u64,
) -> (result: Result<(), CullError>)
    ensures
        result is Ok <==> valid_direct_shape(
            count as nat,
            distances@.len(),
            speeds@.len(),
            cos_angles@.len(),
            old(out)@.len(),
        ),
        final(out)@.len() == old(out)@.len(),
        result is Ok ==> final(out)@.subrange(0, count as int) == direct_flags(
            distances@,
            speeds@,
            cos_angles@,
            count as nat,
            max_distance,
            speed_threshold,
            cos_threshold,
        ),
        result is Ok ==> final(out)@.skip(count as int) == old(out)@.skip(count as int),
        result is Err ==> final(out)@ == old(out)@,
        result is Err ==> (result->Err_0 == CullError::InvalidBatchShape <==> count == 0),
        result is Err ==> (result->Err_0 == CullError::UndersizedRegion <==> count > 0),
{
    if count == 0 {
        return Err(CullError::InvalidBatchShape);
    }
    let need_bytes: u128 = (count as u128) * 8;
    if need_bytes > distances.len() as u128 || need_bytes > speeds.len() as u128 || need_bytes
        > cos_angles.len() as u128 || count > out.len() {
        return Err(CullError::UndersizedRegion);
    }
    let ghost out_before = out@;
    let mut i: usize = 0;
    while i < count
        invariant
            i <= count,
            8 * count <= usize::MAX,
            8 * count <= distances@.len(),
            8 * count <= speeds@.len(),
            8 * count <= cos_angles@.len(),
            count <= out@.len(),
            out@.len() == out_before.len(),
            forall|j: int|
                0 <= j < i ==> out@[j] == direct_flags(
                    distances@,
                    speeds@,
                    cos_angles@,
                    count as nat,
                    max_distance,
                    speed_threshold,
                    cos_threshold,
                )[j],
            forall|j: int| i <= j < out@.len() ==> out@[j] == out_before[j],
        decreases count - i,
    {
        let offset = 8 * i;
        let d_bits = u64_from_le_bytes(slice_subrange(distances, offset, offset + 8));
        let s_bits = u64_from_le_bytes(slice_subrange(speeds, offset, offset + 8));
        let c_bits = u64_from_le_bytes(slice_subrange(cos_angles, offset, offset + 8));
        let cull = evaluate_single(
            d_bits,
            s_bits,
            c_bits,
            max_distance,
            speed_threshold,
            cos_threshold,
        );
        out[i] = if cull {
            1
        } else {
            0
        };
        i = i + 1;
    }
    assert(out@.subrange(0, count as int) =~= direct_flags(
        distances@,
        speeds@,
        cos_angles@,
        count as nat,
        max_distance,
        speed_threshold,
        cos_threshold,
    ));
    assert(out@.skip(count as int) =~= out_before.skip(count as int));
    Ok(())
}

} // verus!
