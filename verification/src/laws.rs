//! Engine-wide laws, each proved from the definitions the evaluators'
//! contracts are stated over.
//!
//! Every evaluator's `ensures` pins its output to one of the spec sequences
//! `batch_flags`, `typed_flags` or `direct_flags`; the laws here relate those
//! sequences to one another and to the scalar predicate, so they hold of the
//! evaluators' real outputs as well.

use vstd::prelude::*;
use crate::ieee::is_nan;
use crate::engine::{batch_flags, code_in_range, should_cull, typed_flags};
use crate::direct::{direct_flags, region_doubles};

verus! {

/// Batch/scalar agreement: entry `i` of a batch over one global threshold
/// set is exactly the scalar predicate applied to row `i`.
pub proof fn lemma_batch_matches_single(
    distances: Seq<u64>,
    speeds: Seq<u64>,
    cos_angles: Seq<u64>,
    max_distance: u64,
    speed_threshold: u64,
    cos_threshold: u64,
    i: int,
)
    requires
        0 <= i < distances.len(),
    ensures
        batch_flags(distances, speeds, cos_angles, max_distance, speed_threshold, cos_threshold)[i]
            == should_cull(
            distances[i],
            speeds[i],
            cos_angles[i],
            max_distance,
            speed_threshold,
            cos_threshold,
        ),
{
}

/// A NaN in any of an entity's three data operands means the entity is never
/// culled, whatever the thresholds: the safe default is to keep processing.
pub proof fn lemma_nan_never_culled(
    distance: u64,
    speed: u64,
    cos_angle: u64,
    max_distance: u64,
    speed_threshold: u64,
    cos_threshold: u64,
)
    requires
        is_nan(distance) || is_nan(speed) || is_nan(cos_angle),
    ensures
        !should_cull(distance, speed, cos_angle, max_distance, speed_threshold, cos_threshold),
{
}

/// A NaN threshold component likewise disables the comparison it enters, so
/// an all-NaN threshold set culls nothing.
pub proof fn lemma_nan_threshold_never_culls(
    distance: u64,
    speed: u64,
    cos_angle: u64,
    max_distance: u64,
    speed_threshold: u64,
    cos_threshold: u64,
)
    requires
        is_nan(max_distance) || is_nan(speed_threshold) || is_nan(cos_threshold),
    ensures
        !should_cull(distance, speed, cos_angle, max_distance, speed_threshold, cos_threshold),
{
}

/// In-place/allocating agreement: the flag sequence the in-place evaluator
/// writes — pinned by its contract to `batch_flags` — is identical to the
/// sequence the allocating evaluator returns, for the same inputs and every
/// length, tail rows included.
pub proof fn lemma_into_matches_batch(
    distances: Seq<u64>,
    speeds: Seq<u64>,
    cos_angles: Seq<u64>,
    max_distance: u64,
    speed_threshold: u64,
    cos_threshold: u64,
    allocated: Seq<bool>,
    written: Seq<bool>,
)
    requires
        allocated == batch_flags(
            distances,
            speeds,
            cos_angles,
            max_distance,
            speed_threshold,
            cos_threshold,
        ),
        written == batch_flags(
            distances,
            speeds,
            cos_angles,
            max_distance,
            speed_threshold,
            cos_threshold,
        ),
    ensures
        allocated == written,
{
}

/// Statelessness: the engine holds nothing across calls, so two results that
/// each meet a batch contract on unchanged inputs are identical.
pub proof fn lemma_batch_idempotent(
    distances: Seq<u64>,
    speeds: Seq<u64>,
    cos_angles: Seq<u64>,
    max_distance: u64,
    speed_threshold: u64,
    cos_threshold: u64,
    first: Seq<bool>,
    second: Seq<bool>,
)
    requires
        first == batch_flags(
            distances,
            speeds,
            cos_angles,
            max_distance,
            speed_threshold,
            cos_threshold,
        ),
        second == batch_flags(
            distances,
            speeds,
            cos_angles,
            max_distance,
            speed_threshold,
            cos_threshold,
        ),
    ensures
        first == second,
{
}

/// Statelessness of the typed evaluator: two results that each meet its
/// contract on unchanged inputs are identical.
pub proof fn lemma_typed_idempotent(
    distances: Seq<u64>,
    speeds: Seq<u64>,
    cos_angles: Seq<u64>,
    type_codes: Seq<i32>,
    max_distances: Seq<u64>,
    speed_thresholds: Seq<u64>,
    cos_thresholds: Seq<u64>,
    first: Seq<bool>,
    second: Seq<bool>,
)
    requires
        first == typed_flags(
            distances,
            speeds,
            cos_angles,
            type_codes,
            max_distances,
            speed_thresholds,
            cos_thresholds,
        ),
        second == typed_flags(
            distances,
            speeds,
            cos_angles,
            type_codes,
            max_distances,
            speed_thresholds,
            cos_thresholds,
        ),
    ensures
        first == second,
{
}

/// Statelessness of the direct evaluator: two flag regions that each meet
/// its contract on unchanged regions and count are identical.
pub proof fn lemma_direct_idempotent(
    distances: Seq<u8>,
    speeds: Seq<u8>,
    cos_angles: Seq<u8>,
    count: nat,
    max_distance: u64,
    speed_threshold: u64,
    cos_threshold: u64,
    first: Seq<u8>,
    second: Seq<u8>,
)
    requires
        first == direct_flags(
            distances,
            speeds,
            cos_angles,
            count,
            max_distance,
            speed_threshold,
            cos_threshold,
        ),
        second == direct_flags(
            distances,
            speeds,
            cos_angles,
            count,
            max_distance,
            speed_threshold,
            cos_threshold,
        ),
    ensures
        first == second,
{
}

/// A type code at or past the threshold-set count — or negative — leaves the
/// row's flag at the default `false`.
pub proof fn lemma_code_out_of_range_keeps_default(
    distances: Seq<u64>,
    speeds: Seq<u64>,
    cos_angles: Seq<u64>,
    type_codes: Seq<i32>,
    max_distances: Seq<u64>,
    speed_thresholds: Seq<u64>,
    cos_thresholds: Seq<u64>,
    i: int,
)
    requires
        0 <= i < distances.len(),
        i < type_codes.len(),
        !code_in_range(type_codes[i], max_distances.len()),
    ensures
        !typed_flags(
            distances,
            speeds,
            cos_angles,
            type_codes,
            max_distances,
            speed_thresholds,
            cos_thresholds,
        )[i],
{
}

/// A type code within range makes the row behave exactly as the scalar
/// predicate under the threshold set that code selects.
pub proof fn lemma_code_selects_threshold_set(
    distances: Seq<u64>,
    speeds: Seq<u64>,
    cos_angles: Seq<u64>,
    type_codes: Seq<i32>,
    max_distances: Seq<u64>,
    speed_thresholds: Seq<u64>,
    cos_thresholds: Seq<u64>,
    i: int,
)
    requires
        0 <= i < distances.len(),
        i < type_codes.len(),
        code_in_range(type_codes[i], max_distances.len()),
    ensures
        typed_flags(
            distances,
            speeds,
            cos_angles,
            type_codes,
            max_distances,
            speed_thresholds,
            cos_thresholds,
        )[i] == should_cull(
            distances[i],
            speeds[i],
            cos_angles[i],
            max_distances[type_codes[i] as int],
            speed_thresholds[type_codes[i] as int],
            cos_thresholds[type_codes[i] as int],
        ),
{
}

/// A row's flag depends on that row alone: two typed batches whose code
/// sequences differ only at row `i` agree at every other row, so an
/// out-of-range code never disturbs its neighbours.
pub proof fn lemma_typed_row_is_local(
    distances: Seq<u64>,
    speeds: Seq<u64>,
    cos_angles: Seq<u64>,
    codes_a: Seq<i32>,
    codes_b: Seq<i32>,
    max_distances: Seq<u64>,
    speed_thresholds: Seq<u64>,
    cos_thresholds: Seq<u64>,
    i: int,
)
    requires
        codes_a.len() == distances.len(),
        codes_b.len() == distances.len(),
        forall|j: int| 0 <= j < codes_a.len() && j != i ==> codes_a[j] == codes_b[j],
    ensures
        forall|j: int|
            0 <= j < distances.len() && j != i ==> typed_flags(
                distances,
                speeds,
                cos_angles,
                codes_a,
                max_distances,
                speed_thresholds,
                cos_thresholds,
            )[j] == typed_flags(
                distances,
                speeds,
                cos_angles,
                codes_b,
                max_distances,
                speed_thresholds,
                cos_thresholds,
            )[j],
{
    assert forall|j: int| 0 <= j < distances.len() && j != i implies typed_flags(
        distances,
        speeds,
        cos_angles,
        codes_a,
        max_distances,
        speed_thresholds,
        cos_thresholds,
    )[j] == typed_flags(
        distances,
        speeds,
        cos_angles,
        codes_b,
        max_distances,
        speed_thresholds,
        cos_thresholds,
    )[j] by {
        assert(codes_a[j] == codes_b[j]);
    }
}

/// Direct/batch agreement: the flag byte the direct evaluator writes for row
/// `i` is `1` exactly where a batch over the decoded doubles culls.
pub proof fn lemma_direct_matches_batch(
    distances: Seq<u8>,
    speeds: Seq<u8>,
    cos_angles: Seq<u8>,
    count: nat,
    max_distance: u64,
    speed_threshold: u64,
    cos_threshold: u64,
    i: int,
)
    requires
        0 <= i < count,
    ensures
        direct_flags(distances, speeds, cos_angles, count, max_distance, speed_threshold, cos_threshold)[i]
            == (if batch_flags(
            region_doubles(distances, count),
            region_doubles(speeds, count),
            region_doubles(cos_angles, count),
            max_distance,
            speed_threshold,
            cos_threshold,
        )[i] {
            1u8
        } else {
            0u8
        }),
{
}

} // verus!
