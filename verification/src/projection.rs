//! Calls on a projection: what it is, how it is defined, which context it is
//! bound to.

use crate::call::{Command, ContextSource, Query, TextSource};
use crate::error::{when_live, ContractViolation};
use crate::handle::{Context, Projection};
use libc::c_int;
use vstd::prelude::*;

verus! {

/// Whether an integer flag of the engine is set: every value but zero counts
/// as set.
pub open spec fn flag_is_set(flag: c_int) -> bool {
    flag != 0
}

/// Reads an integer flag of the engine as a `bool`.
pub fn flag(reply: c_int) -> (set: bool)
    ensures
        set == flag_is_set(reply),
{
    reply != 0
}

/// Plans the reading of the projection's definition, as the engine words it.
/// The engine takes the options as a C `int`: they are cut down to its width.
pub fn get_def(proj: &Projection, opts: isize) -> (source: Result<TextSource, ContractViolation>)
    ensures
        source == when_live(
            proj@.live,
            TextSource::Definition { proj: proj@.address, opts: opts as c_int },
        ),
        proj@.address != 0,
{
    let address = proj.address();
    if proj.is_live() {
        Ok(TextSource::Definition { proj: address, opts: #[verifier::truncate] (opts as c_int) })
    } else {
        Err(ContractViolation::Released)
    }
}

/// Plans the question whether the projection's coordinates are longitude and
/// latitude. `flag` reads the answer.
pub fn is_latlong(proj: &Projection) -> (query: Result<Query, ContractViolation>)
    ensures
        query == when_live(proj@.live, Query::IsLatlong { proj: proj@.address }),
        proj@.address != 0,
{
    let address = proj.address();
    if proj.is_live() {
        Ok(Query::IsLatlong { proj: address })
    } else {
        Err(ContractViolation::Released)
    }
}

/// Plans the question whether the projection's coordinates are geocentric.
/// `flag` reads the answer.
pub fn is_geocent(proj: &Projection) -> (query: Result<Query, ContractViolation>)
    ensures
        query == when_live(proj@.live, Query::IsGeocent { proj: proj@.address }),
        proj@.address != 0,
{
    let address = proj.address();
    if proj.is_live() {
        Ok(Query::IsGeocent { proj: address })
    } else {
        Err(ContractViolation::Released)
    }
}

/// Plans the reading of the context that the projection is bound to. The
/// context stays the engine's: `Context::adopt` makes a borrowed handle of it.
pub fn get_ctx(proj: &Projection) -> (source: Result<ContextSource, ContractViolation>)
    ensures
        source == when_live(proj@.live, ContextSource::Of { proj: proj@.address }),
        proj@.address != 0,
{
    let address = proj.address();
    if proj.is_live() {
        Ok(ContextSource::Of { proj: address })
    } else {
        Err(ContractViolation::Released)
    }
}

/// Plans the binding of the projection to the context. Neither handle
/// changes: the context is freed through its own handle as before.
pub fn set_ctx(proj: &Projection, ctx: &Context) -> (command: Result<Command, ContractViolation>)
    ensures
        command == when_live(
            proj@.live && ctx@.live,
            Command::SetCtx { proj: proj@.address, ctx: ctx@.address },
        ),
        proj@.address != 0,
        ctx@.address != 0,
{
    let proj_address = proj.address();
    let ctx_address = ctx.address();
    if proj.is_live() && ctx.is_live() {
        Ok(Command::SetCtx { proj: proj_address, ctx: ctx_address })
    } else {
        Err(ContractViolation::Released)
    }
}

} // verus!
