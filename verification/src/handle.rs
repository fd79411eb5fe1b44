//! The two kinds of handle and their life: live, then released, never back.

use crate::call::{Command, ContextSource};
use crate::error::ConstructionError;
use vstd::prelude::*;

verus! {

/// What a projection handle stands for.
pub struct ProjectionState {
    /// The address of the projection inside the engine.
    pub address: usize,
    /// Whether the handle has not been released yet.
    pub live: bool,
}

impl ProjectionState {
    /// The state after a release.
    pub open spec fn released(self) -> ProjectionState {
        ProjectionState { address: self.address, live: false }
    }

    /// The call that a release owes the engine.
    pub open spec fn release_command(self) -> Option<Command> {
        if self.live {
            Some(Command::Free { proj: self.address })
        } else {
            None
        }
    }
}

/// The owner of one projection inside the engine.
#[derive(Debug)]
pub struct Projection {
    addr: usize,
    released: bool,
}

impl View for Projection {
    type V = ProjectionState;

    closed spec fn view(&self) -> ProjectionState {
        ProjectionState { address: self.addr, live: !self.released }
    }
}

impl Projection {
    #[verifier::type_invariant]
    spec fn non_null(self) -> bool {
        self.addr != 0
    }

    /// Takes charge of what `pj_init_plus` handed back.
    pub fn adopt(raw: usize) -> (made: Result<Projection, ConstructionError>)
        ensures
            raw == 0 ==> made matches Err(ConstructionError::NullHandle),
            raw != 0 ==> (made matches Ok(p) && p@ == (ProjectionState {
                address: raw,
                live: true,
            })),
    {
        if raw == 0 {
            Err(ConstructionError::NullHandle)
        } else {
            Ok(Projection { addr: raw, released: false })
        }
    }

    /// Ends the handle's life and says what the engine is owed for it.
    pub fn release(&mut self) -> (owed: Option<Command>)
        ensures
            final(self)@ == old(self)@.released(),
            owed == old(self)@.release_command(),
    {
        proof {
            use_type_invariant(&*self);
        }
        if self.released {
            None
        } else {
            self.released = true;
            Some(Command::Free { proj: self.addr })
        }
    }

    /// The address of the projection inside the engine; never null.
    pub fn address(&self) -> (address: usize)
        ensures
            address == self@.address,
            address != 0,
    {
        proof {
            use_type_invariant(self);
        }
        self.addr
    }

    /// Whether the handle has not been released yet.
    pub fn is_live(&self) -> (live: bool)
        ensures
            live == self@.live,
    {
        !self.released
    }
}

/// What a context handle stands for.
pub struct ContextState {
    /// The address of the context inside the engine.
    pub address: usize,
    /// Whether the context is the handle's to free. A context that is only
    /// borrowed from the engine is never freed through its handle.
    pub owned: bool,
    /// Whether the handle has not been released yet.
    pub live: bool,
}

impl ContextState {
    /// The state after a release.
    pub open spec fn released(self) -> ContextState {
        ContextState { address: self.address, owned: self.owned, live: false }
    }

    /// The call that a release owes the engine.
    pub open spec fn release_command(self) -> Option<Command> {
        if self.live && self.owned {
            Some(Command::CtxFree { ctx: self.address })
        } else {
            None
        }
    }
}

/// A handle on one context inside the engine, owned or borrowed.
#[derive(Debug)]
pub struct Context {
    addr: usize,
    owned: bool,
    released: bool,
}

impl View for Context {
    type V = ContextState;

    closed spec fn view(&self) -> ContextState {
        ContextState { address: self.addr, owned: self.owned, live: !self.released }
    }
}

/// Whether a context from this source is its receiver's to free: only one that
/// was allocated for the receiver is.
pub open spec fn hands_over(source: ContextSource) -> bool {
    source is Alloc
}

impl Context {
    #[verifier::type_invariant]
    spec fn non_null(self) -> bool {
        self.addr != 0
    }

    /// Takes charge of the address that a call for a context handed back.
    pub fn adopt(source: &ContextSource, raw: usize) -> (made: Result<Context, ConstructionError>)
        ensures
            raw == 0 ==> made matches Err(ConstructionError::NullHandle),
            raw != 0 ==> (made matches Ok(c) && c@ == (ContextState {
                address: raw,
                owned: hands_over(*source),
                live: true,
            })),
    {
        if raw == 0 {
            return Err(ConstructionError::NullHandle);
        }
        let owned = match source {
            ContextSource::Alloc => true,
            ContextSource::Default => false,
            ContextSource::Of { .. } => false,
        };
        Ok(Context { addr: raw, owned, released: false })
    }

    /// Ends the handle's life and says what the engine is owed for it.
    pub fn release(&mut self) -> (owed: Option<Command>)
        ensures
            final(self)@ == old(self)@.released(),
            owed == old(self)@.release_command(),
    {
        proof {
            use_type_invariant(&*self);
        }
        if self.released {
            None
        } else {
            self.released = true;
            if self.owned {
                Some(Command::CtxFree { ctx: self.addr })
            } else {
                None
            }
        }
    }

    /// The address of the context inside the engine; never null.
    pub fn address(&self) -> (address: usize)
        ensures
            address == self@.address,
            address != 0,
    {
        proof {
            use_type_invariant(self);
        }
        self.addr
    }

    /// Whether the context is the handle's to free.
    pub fn is_owned(&self) -> (owned: bool)
        ensures
            owned == self@.owned,
    {
        self.owned
    }

    /// Whether the handle has not been released yet.
    pub fn is_live(&self) -> (live: bool)
        ensures
            live == self@.live,
    {
        !self.released
    }
}

/// A projection is released once: the first release of a live handle owes the
/// engine `pj_free` on its address, and a second release changes nothing and
/// owes nothing.
pub proof fn lemma_projection_released_once(state: ProjectionState)
    ensures
        state.live ==> state.release_command() == Some(Command::Free { proj: state.address }),
        state.released().release_command() is None,
        state.released().released() == state.released(),
{
}

/// A context is released once: the first release of a live handle that owns
/// its context owes the engine `pj_ctx_free` on its address, and a second
/// release changes nothing and owes nothing.
pub proof fn lemma_context_released_once(state: ContextState)
    ensures
        state.live && state.owned ==> state.release_command() == Some(
            Command::CtxFree { ctx: state.address },
        ),
        state.released().release_command() is None,
        state.released().released() == state.released(),
{
}

/// A borrowed context is never freed, in whatever state its handle is released.
pub proof fn lemma_borrowed_context_is_never_freed(state: ContextState)
    requires
        !state.owned,
    ensures
        state.release_command() is None,
{
}

} // verus!
