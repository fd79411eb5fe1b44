//! Descriptions of calls into the engine, grouped by what the engine hands back.
//!
//! Addresses are those of objects inside the engine; 0 is the null address.

use libc::{c_int, c_long};
use vstd::prelude::*;

verus! {

/// A call that hands back the address of a context.
#[derive(Debug, Clone, Copy, PartialEq, Eq, Structural)]
pub enum ContextSource {
    /// `pj_ctx_alloc`: a new context, which its receiver must free.
    Alloc,
    /// `pj_get_default_ctx`: the context that the whole process shares.
    Default,
    /// `pj_get_ctx`: the context that the projection at `proj` is bound to.
    Of { proj: usize },
}

/// A call that hands back the address of a C string.
#[derive(Debug, Clone, Copy, PartialEq, Eq, Structural)]
pub enum TextSource {
    /// `pj_get_def`: the definition of the projection at `proj`, in a buffer
    /// that its receiver must give back through `pj_dalloc`.
    Definition { proj: usize, opts: c_int },
    /// `pj_get_release`: the engine's version text, which stays the engine's.
    Release,
}

/// A call that hands back a C `int`.
#[derive(Debug, Clone, Copy, PartialEq, Eq, Structural)]
pub enum Query {
    /// `pj_is_latlong` on the projection at `proj`.
    IsLatlong { proj: usize },
    /// `pj_is_geocent` on the projection at `proj`.
    IsGeocent { proj: usize },
    /// `pj_ctx_get_errno` on the context at `ctx`.
    CtxGetErrno { ctx: usize },
}

/// A call that hands back nothing.
#[derive(Debug, Clone, Copy, PartialEq, Eq, Structural)]
pub enum Command {
    /// `pj_free` on the projection at `proj`.
    Free { proj: usize },
    /// `pj_ctx_free` on the context at `ctx`.
    CtxFree { ctx: usize },
    /// `pj_dalloc` on the buffer at `allocated`.
    Dalloc { allocated: usize },
    /// `pj_set_ctx`: binds the projection at `proj` to the context at `ctx`.
    SetCtx { proj: usize, ctx: usize },
    /// `pj_ctx_set_errno` on the context at `ctx`.
    CtxSetErrno { ctx: usize, errno: c_int },
    /// `pj_ctx_set_debug` on the context at `ctx`.
    CtxSetDebug { ctx: usize, level: c_int },
}

/// `pj_transform` on the caller's coordinate buffers: hands back a status.
#[derive(Debug, Clone, Copy, PartialEq, Eq, Structural)]
pub struct TransformCall {
    /// The projection that the coordinates are in.
    pub src: usize,
    /// The projection that the coordinates are brought to.
    pub dst: usize,
    /// How many points each buffer holds.
    pub point_count: c_long,
    /// The distance, in elements, from one point to the next.
    pub point_offset: c_int,
    /// The address of the heights that go along with the points, or null
    /// where none do.
    pub z: usize,
}

} // verus!
