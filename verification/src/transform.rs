//! Planning a coordinate transform: one call of the engine for a whole batch.

use crate::call::TransformCall;
use crate::error::{ContractViolation, TransformError};
use crate::handle::{Projection, ProjectionState};
use libc::{c_int, c_long};
use vstd::prelude::*;

verus! {

/// The call that transforms `count` points from `src` to `dst`: the points lie
/// one element apart, and no heights go along.
pub open spec fn call_for(src: ProjectionState, dst: ProjectionState, count: int) -> TransformCall {
    TransformCall {
        src: src.address,
        dst: dst.address,
        point_count: count as c_long,
        point_offset: 1,
        z: 0,
    }
}

/// What is done about a batch whose coordinate sequences hold `x_len` and
/// `y_len` numbers. Unequal lengths are refused before anything else is looked at.
pub open spec fn batch_plan(
    src: ProjectionState,
    dst: ProjectionState,
    x_len: int,
    y_len: int,
) -> Result<TransformCall, ContractViolation> {
    if x_len != y_len {
        Err(ContractViolation::LengthMismatch)
    } else if !src.live || !dst.live {
        Err(ContractViolation::Released)
    } else if x_len > c_long::MAX {
        Err(ContractViolation::TooManyPoints)
    } else {
        Ok(call_for(src, dst, x_len))
    }
}

/// What is done about a single point.
pub open spec fn point_plan(src: ProjectionState, dst: ProjectionState) -> Result<
    TransformCall,
    ContractViolation,
> {
    if src.live && dst.live {
        Ok(call_for(src, dst, 1))
    } else {
        Err(ContractViolation::Released)
    }
}

/// Plans the transform of one point from `srcdefn` to `dstdefn`.
pub fn transform(srcdefn: &Projection, dstdefn: &Projection) -> (plan: Result<
    TransformCall,
    ContractViolation,
>)
    ensures
        plan == point_plan(srcdefn@, dstdefn@),
        plan matches Ok(call) ==> call.src != 0 && call.dst != 0,
{
    if srcdefn.is_live() && dstdefn.is_live() {
        Ok(
            TransformCall {
                src: srcdefn.address(),
                dst: dstdefn.address(),
                point_count: 1,
                point_offset: 1,
                z: 0,
            },
        )
    } else {
        Err(ContractViolation::Released)
    }
}

/// Plans the transform of a batch from `srcdefn` to `dstdefn`, given the
/// lengths of its two coordinate sequences.
pub fn transformv(srcdefn: &Projection, dstdefn: &Projection, x_len: usize, y_len: usize) -> (plan:
    Result<TransformCall, ContractViolation>)
    ensures
        plan == batch_plan(srcdefn@, dstdefn@, x_len as int, y_len as int),
        plan matches Ok(call) ==> call.src != 0 && call.dst != 0 && call.point_count == x_len,
{
    if x_len != y_len {
        return Err(ContractViolation::LengthMismatch);
    }
    if !srcdefn.is_live() || !dstdefn.is_live() {
        return Err(ContractViolation::Released);
    }
    if x_len as u64 > c_long::MAX as u64 {
        return Err(ContractViolation::TooManyPoints);
    }
    Ok(
        TransformCall {
            src: srcdefn.address(),
            dst: dstdefn.address(),
            point_count: x_len as c_long,
            point_offset: 1,
            z: 0,
        },
    )
}

/// What a status of the engine means: zero is success, anything else the
/// engine's own error code.
pub open spec fn status_outcome(status: c_int) -> Result<(), TransformError> {
    if status == 0 {
        Ok(())
    } else {
        Err(TransformError { code: status })
    }
}

/// Reads the status that a transform came back with.
pub fn check_status(status: c_int) -> (outcome: Result<(), TransformError>)
    ensures
        outcome == status_outcome(status),
{
    if status == 0 {
        Ok(())
    } else {
        Err(TransformError { code: status })
    }
}

/// A single point is planned as a batch of one.
pub proof fn lemma_point_is_batch_of_one(src: ProjectionState, dst: ProjectionState)
    ensures
        point_plan(src, dst) == batch_plan(src, dst, 1, 1),
{
}

/// Wherever a batch of `count` points is planned, each of its points alone is
/// planned too, and the two calls differ in the point count only.
pub proof fn lemma_batch_agrees_with_point(src: ProjectionState, dst: ProjectionState, count: int)
    requires
        batch_plan(src, dst, count, count) is Ok,
    ensures
        point_plan(src, dst) is Ok,
        batch_plan(src, dst, count, count)->Ok_0 == (TransformCall {
            point_count: count as c_long,
            ..point_plan(src, dst)->Ok_0
        }),
{
}

/// A batch of unequal lengths is refused, whatever else holds of it.
pub proof fn lemma_length_mismatch_is_refused(
    src: ProjectionState,
    dst: ProjectionState,
    x_len: int,
    y_len: int,
)
    requires
        x_len != y_len,
    ensures
        batch_plan(src, dst, x_len, y_len) == Err::<TransformCall, ContractViolation>(
            ContractViolation::LengthMismatch,
        ),
{
}

} // verus!
