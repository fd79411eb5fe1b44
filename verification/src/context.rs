//! Calls for a context and on one: where contexts come from, and the error
//! and debug state that each carries.

use crate::call::{Command, ContextSource, Query};
use crate::error::{when_live, ContractViolation};
use crate::handle::Context;
use libc::c_int;
use vstd::prelude::*;

verus! {

/// Plans the allocation of a new context, which will be its handle's to free.
pub fn ctx_alloc() -> (source: ContextSource)
    ensures
        source == ContextSource::Alloc,
{
    ContextSource::Alloc
}

/// Plans the reading of the context that the whole process shares, which no
/// handle ever frees.
pub fn get_default_ctx() -> (source: ContextSource)
    ensures
        source == ContextSource::Default,
{
    ContextSource::Default
}

/// Plans the reading of the context's error number. The engine's answer is
/// the result as it stands.
pub fn ctx_get_errno(ctx: &Context) -> (query: Result<Query, ContractViolation>)
    ensures
        query == when_live(ctx@.live, Query::CtxGetErrno { ctx: ctx@.address }),
        ctx@.address != 0,
{
    let address = ctx.address();
    if ctx.is_live() {
        Ok(Query::CtxGetErrno { ctx: address })
    } else {
        Err(ContractViolation::Released)
    }
}

/// Plans the setting of the context's error number to `errno`.
pub fn ctx_set_errno(ctx: &Context, errno: c_int) -> (command: Result<Command, ContractViolation>)
    ensures
        command == when_live(ctx@.live, Command::CtxSetErrno { ctx: ctx@.address, errno }),
        ctx@.address != 0,
{
    let address = ctx.address();
    if ctx.is_live() {
        Ok(Command::CtxSetErrno { ctx: address, errno })
    } else {
        Err(ContractViolation::Released)
    }
}

/// Plans the setting of the context's debug level to `level`.
pub fn ctx_set_debug(ctx: &Context, level: c_int) -> (command: Result<Command, ContractViolation>)
    ensures
        command == when_live(ctx@.live, Command::CtxSetDebug { ctx: ctx@.address, level }),
        ctx@.address != 0,
{
    let address = ctx.address();
    if ctx.is_live() {
        Ok(Command::CtxSetDebug { ctx: address, level })
    } else {
        Err(ContractViolation::Released)
    }
}

} // verus!
