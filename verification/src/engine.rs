//! The cull predicate and the array batch evaluators.
//!
//! One predicate backs every calling convention: an entity may be culled when
//! it is farther away than the distance cap, slower than the speed threshold,
//! and outside the observer's facing cone. The batch evaluators validate the
//! shape of the caller's parallel sequences, then apply the predicate row by
//! row; a rejected call does no work and leaves the output untouched.

use vstd::prelude::*;
use crate::ieee::{double_gt, double_lt, gt_bits, lt_bits};

verus! {

/// Why a batch call was rejected. Every failure is a rejected call reported
/// to the caller; no partial results are produced.
#[derive(Clone, Copy, Debug, PartialEq, Eq, Structural)]
pub enum CullError {
    /// Parallel sequences of unequal length, or an empty batch.
    InvalidBatchShape,
    /// A raw region's declared capacity cannot hold the requested count.
    UndersizedRegion,
}

/// The cull predicate: cull exactly when the entity is farther than
/// `max_distance`, slower than `speed_threshold`, and its direction cosine
/// lies below `cos_threshold`. All six operands are double bit patterns; a
/// NaN in any comparison makes that comparison false, so a NaN input never
/// culls.
pub open spec fn should_cull(
    distance: u64,
    speed: u64,
    cos_angle: u64,
    max_distance: u64,
    speed_threshold: u64,
    cos_threshold: u64,
) -> bool {
    &&& double_gt(distance, max_distance)
    &&& double_lt(speed, speed_threshold)
    &&& double_lt(cos_angle, cos_threshold)
}

/// The flag sequence a batch over one global threshold set must produce:
/// entry `i` is the predicate applied to row `i`.
pub open spec fn batch_flags(
    distances: Seq<u64>,
    speeds: Seq<u64>,
    cos_angles: Seq<u64>,
    max_distance: u64,
    speed_threshold: u64,
    cos_threshold: u64,
) -> Seq<bool> {
    Seq::new(
        distances.len(),
        |i: int|
            should_cull(
                distances[i],
                speeds[i],
                cos_angles[i],
                max_distance,
                speed_threshold,
                cos_threshold,
            ),
    )
}

/// A batch's parallel input sequences are acceptable: nonempty and of one
/// common length.
pub open spec fn valid_batch_shape(n_distances: nat, n_speeds: nat, n_cos_angles: nat) -> bool {
    &&& n_distances > 0
    &&& n_speeds == n_distances
    &&& n_cos_angles == n_distances
}

/// Decides one entity: cull exactly when it is farther than `max_distance`,
/// slower than `speed_threshold`, and its direction cosine lies below
/// `cos_threshold`.
pub fn evaluate_single(
    distance: u64,
    speed: u64,
    cos_angle: u64,
    max_distance: u64,
    speed_threshold: u64,
    cos_threshold: u64,
) -> (cull: bool)
    ensures
        cull == should_cull(distance, speed, cos_angle, max_distance, speed_threshold, cos_threshold),
{
    gt_bits(distance, max_distance) && lt_bits(speed, speed_threshold) && lt_bits(
        cos_angle,
        cos_threshold,
    )
}

/// The one shared evaluation routine behind every array calling convention:
/// overwrites each entry of `out` with the predicate on its row. Rows are
/// processed four per step, with a scalar pass over any tail the lane width
/// does not divide; both passes apply the identical scalar predicate, so the
/// lane structure can never diverge from the scalar result.
fn fill_flags(
    distances: &[u64],
    speeds: &[u64],
    cos_angles: &[u64],
    max_distance: u64,
    speed_threshold: u64,
    cos_threshold: u64,
    out: &mut Vec<bool>,
)
    requires
        speeds@.len() == distances@.len(),
        cos_angles@.len() == distances@.len(),
        old(out)@.len() == distances@.len(),
    ensures
        final(out)@ == batch_flags(
            distances@,
            speeds@,
            cos_angles@,
            max_distance,
            speed_threshold,
            cos_threshold,
        ),
{
    let n = distances.len();
    let mut i: usize = 0;
    while i < n && n - i >= 4
        invariant
            i <= n,
            n == distances@.len(),
            speeds@.len() == n,
            cos_angles@.len() == n,
            out@.len() == n,
            forall|j: int|
                0 <= j < i ==> out@[j] == should_cull(
                    distances@[j],
                    speeds@[j],
                    cos_angles@[j],
                    max_distance,
                    speed_threshold,
                    cos_threshold,
                ),
        decreases n - i,
    {
        out[i] = evaluate_single(
            distances[i],
            speeds[i],
            cos_angles[i],
            max_distance,
            speed_threshold,
            cos_threshold,
        );
        out[i + 1] = evaluate_single(
            distances[i + 1],
            speeds[i + 1],
            cos_angles[i + 1],
            max_distance,
            speed_threshold,
            cos_threshold,
        );
        out[i + 2] = evaluate_single(
            distances[i + 2],
            speeds[i + 2],
            cos_angles[i + 2],
            max_distance,
            speed_threshold,
            cos_threshold,
        );
        out[i + 3] = evaluate_single(
            distances[i + 3],
            speeds[i + 3],
            cos_angles[i + 3],
            max_distance,
            speed_threshold,
            cos_threshold,
        );
        i = i + 4;
    }
    while i < n
        invariant
            i <= n,
            n == distances@.len(),
            speeds@.len() == n,
            cos_angles@.len() == n,
            out@.len() == n,
            forall|j: int|
                0 <= j < i ==> out@[j] == should_cull(
                    distances@[j],
                    speeds@[j],
                    cos_angles@[j],
                    max_distance,
                    speed_threshold,
                    cos_threshold,
                ),
        decreases n - i,
    {
        out[i] = evaluate_single(
            distances[i],
            speeds[i],
            cos_angles[i],
            max_distance,
            speed_threshold,
            cos_threshold,
        );
        i = i + 1;
    }
    assert(out@ =~= batch_flags(
        distances@,
        speeds@,
        cos_angles@,
        max_distance,
        speed_threshold,
        cos_threshold,
    ));
}

/// Evaluates a batch against one global threshold set, allocating and
/// returning the flag sequence. Rejects an empty batch or parallel sequences
/// of unequal length without doing any work.
pub fn evaluate_batch(
    distances: &[u64],
    speeds: &[u64],
    cos_angles: &[u64],
    max_distance: u64,
    speed_threshold: u64,
    cos_threshold: u64,
) -> (result: Result<Vec<bool>, CullError>)
    ensures
        result is Ok <==> valid_batch_shape(distances@.len(), speeds@.len(), cos_angles@.len()),
        result is Ok ==> result->Ok_0@ == batch_flags(
            distances@,
            speeds@,
            cos_angles@,
            max_distance,
            speed_threshold,
            cos_threshold,
        ),
        result is Err ==> result->Err_0 == CullError::InvalidBatchShape,
{
    let n = distances.len();
    if n == 0 || speeds.len() != n || cos_angles.len() != n {
        return Err(CullError::InvalidBatchShape);
    }
    let mut out: Vec<bool> = vec![false; n];
    fill_flags(distances, speeds, cos_angles, max_distance, speed_threshold, cos_threshold, &mut out);
    Ok(out)
}

/// Evaluates a batch against one global threshold set, writing the flags into
/// the caller's `out` buffer instead of allocating. In addition to the shape
/// checks of [`evaluate_batch`], `out` must already have the batch length; on
/// any rejection `out` is left exactly as it was.
pub fn evaluate_batch_into(
    distances: &[u64],
    speeds: &[u64],
    cos_angles: &[u64],
    max_distance: u64,
    speed_threshold: u64,
    cos_threshold: u64,
    out: &mut Vec<bool>,
) -> (result: Result<(), CullError>)
    ensures
        result is Ok <==> valid_batch_shape(distances@.len(), speeds@.len(), cos_angles@.len())
            && old(out)@.len() == distances@.len(),
        result is Ok ==> final(out)@ == batch_flags(
            distances@,
            speeds@,
            cos_angles@,
            max_distance,
            speed_threshold,
            cos_threshold,
        ),
        result is Err ==> final(out)@ == old(out)@ && result->Err_0
            == CullError::InvalidBatchShape,
{
    let n = distances.len();
    if n == 0 || speeds.len() != n || cos_angles.len() != n || out.len() != n {
        return Err(CullError::InvalidBatchShape);
    }
    fill_flags(distances, speeds, cos_angles, max_distance, speed_threshold, cos_threshold, out);
    Ok(())
}

/// A type code selects a threshold set: it must be non-negative and below the
/// number of sets.
pub open spec fn code_in_range(code: i32, n_sets: nat) -> bool {
    0 <= code && code < n_sets
}

/// The flag sequence a typed batch must produce: a row whose code selects a
/// threshold set gets the predicate under that set; a row whose code is out
/// of range keeps the default flag `false` and disturbs nothing else.
pub open spec fn typed_flags(
    distances: Seq<u64>,
    speeds: Seq<u64>,
    cos_angles: Seq<u64>,
    type_codes: Seq<i32>,
    max_distances: Seq<u64>,
    speed_thresholds: Seq<u64>,
    cos_thresholds: Seq<u64>,
) -> Seq<bool> {
    Seq::new(
        distances.len(),
        |i: int|
            if code_in_range(type_codes[i], max_distances.len()) {
                should_cull(
                    distances[i],
                    speeds[i],
                    cos_angles[i],
                    max_distances[type_codes[i] as int],
                    speed_thresholds[type_codes[i] as int],
                    cos_thresholds[type_codes[i] as int],
                )
            } else {
                false
            },
    )
}

/// A typed batch's sequences are acceptable: the per-entity sequences share
/// one nonzero length, and the three threshold-component sequences share one
/// nonzero length of their own.
pub open spec fn valid_typed_shape(
    n_distances: nat,
    n_speeds: nat,
    n_cos_angles: nat,
    n_codes: nat,
    n_out: nat,
    n_max_distances: nat,
    n_speed_thresholds: nat,
    n_cos_thresholds: nat,
) -> bool {
    &&& valid_batch_shape(n_distances, n_speeds, n_cos_angles)
    &&& n_codes == n_distances
    &&& n_out == n_distances
    &&& n_max_distances > 0
    &&& n_speed_thresholds == n_max_distances
    &&& n_cos_thresholds == n_max_distances
}

/// Evaluates a batch in which each entity's type code selects one of several
/// threshold sets, writing into the caller's `out` buffer. A row whose code
/// falls outside the threshold sets gets the default flag `false`; it never
/// aborts the batch and never disturbs any other row. On any shape rejection
/// `out` is left exactly as it was.
pub fn evaluate_batch_by_type(
    distances: &[u64],
    speeds: &[u64],
    cos_angles: &[u64],
    type_codes: &[i32],
    max_distances: &[u64],
    speed_thresholds: &[u64],
    cos_thresholds: &[u64],
    out: &mut Vec<bool>,
) -> (result: Result<(), CullError>)
    ensures
        result is Ok <==> valid_typed_shape(
            distances@.len(),
            speeds@.len(),
            cos_angles@.len(),
            type_codes@.len(),
            old(out)@.len(),
            max_distances@.len(),
            speed_thresholds@.len(),
            cos_thresholds@.len(),
        ),
        result is Ok ==> final(out)@ == typed_flags(
            distances@,
            speeds@,
            cos_angles@,
            type_codes@,
            max_distances@,
            speed_thresholds@,
            cos_thresholds@,
        ),
        result is Err ==> final(out)@ == old(out)@ && result->Err_0
            == CullError::InvalidBatchShape,
{
    let n = distances.len();
    if n == 0 || speeds.len() != n || cos_angles.len() != n || type_codes.len() != n
        || out.len() != n {
        return Err(CullError::InvalidBatchShape);
    }
    let n_sets = max_distances.len();
    if n_sets == 0 || speed_thresholds.len() != n_sets || cos_thresholds.len() != n_sets {
        return Err(CullError::InvalidBatchShape);
    }
    let mut i: usize = 0;
    while i < n
        invariant
            i <= n,
            n == distances@.len(),
            speeds@.len() == n,
            cos_angles@.len() == n,
            type_codes@.len() == n,
            out@.len() == n,
            n_sets == max_distances@.len(),
            n_sets > 0,
            speed_thresholds@.len() == n_sets,
            cos_thresholds@.len() == n_sets,
            forall|j: int|
                0 <= j < i ==> out@[j] == typed_flags(
                    distances@,
                    speeds@,
                    cos_angles@,
                    type_codes@,
                    max_distances@,
                    speed_thresholds@,
                    cos_thresholds@,
                )[j],
        decreases n - i,
    {
        let code = type_codes[i];
        if code >= 0 && (code as usize) < n_sets {
            let set = code as usize;
            out[i] = evaluate_single(
                distances[i],
                speeds[i],
                cos_angles[i],
                max_distances[set],
                speed_thresholds[set],
                cos_thresholds[set],
            );
        } else {
            out[i] = false;
        }
        i = i + 1;
    }
    assert(out@ =~= typed_flags(
        distances@,
        speeds@,
        cos_angles@,
        type_codes@,
        max_distances@,
        speed_thresholds@,
        cos_thresholds@,
    ));
    Ok(())
}

} // verus!
