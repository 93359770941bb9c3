//! The arena: one fixed region of bytes that every dynamic allocation of the
//! process is served from.
//!
//! [`Arena`] is the ledger of that region. It records where the region lies,
//! how large it is and how much of it has been handed out, and it decides
//! whether a request still fits. The region is registered once, before the
//! first request, and is never released or resized.

use vstd::prelude::*;

use crate::fault::Fault;

verus! {

/// Size of the arena's region in the default configuration, in bytes.
pub const HEAP_SIZE: usize = 1024;

/// The arena as a mathematical value.
pub struct ArenaView {
    /// Address of the first byte of the region.
    pub base: nat,
    /// Size of the region in bytes.
    pub capacity: nat,
    /// Bytes handed out so far.
    pub used: nat,
    /// Whether the region has been registered.
    pub initialized: bool,
}

impl ArenaView {
    /// The arena before its region is registered.
    pub open spec fn blank() -> ArenaView {
        ArenaView { base: 0, capacity: 0, used: 0, initialized: false }
    }

    /// The arena right after a region of `size` bytes at `base` is registered.
    pub open spec fn fresh(base: nat, size: nat) -> ArenaView {
        ArenaView { base, capacity: size, used: 0, initialized: true }
    }

    /// No more is handed out than the region holds, the region's size is a
    /// machine word, and an unregistered arena holds nothing.
    pub open spec fn wf(self) -> bool {
        &&& self.used <= self.capacity <= usize::MAX
        &&& !self.initialized ==> self == ArenaView::blank()
    }

    /// Bytes that can still be handed out.
    pub open spec fn remaining(self) -> nat {
        (self.capacity - self.used) as nat
    }

    /// Whether a request of `bytes` bytes fits.
    pub open spec fn grants(self, bytes: nat) -> bool {
        bytes <= self.remaining()
    }

    /// The arena after `bytes` more bytes are handed out.
    pub open spec fn charged(self, bytes: nat) -> ArenaView {
        ArenaView { used: self.used + bytes, ..self }
    }
}

/// The region is fixed: handing out bytes that the arena grants changes
/// neither where the region lies nor how large it is, never takes the
/// registration back, and leaves exactly that many bytes fewer.
pub proof fn lemma_region_is_fixed(arena: ArenaView, bytes: nat)
    requires
        arena.wf(),
        arena.grants(bytes),
    ensures
        arena.charged(bytes).wf(),
        arena.charged(bytes).initialized == arena.initialized,
        arena.charged(bytes).base == arena.base,
        arena.charged(bytes).capacity == arena.capacity,
        arena.charged(bytes).remaining() + bytes == arena.remaining(),
{
}

/// The ledger of the arena's region.
#[derive(Debug)]
pub struct Arena {
    base: usize,
    capacity: usize,
    used: usize,
    initialized: bool,
}

impl View for Arena {
    type V = ArenaView;

    closed spec fn view(&self) -> ArenaView {
        ArenaView {
            base: self.base as nat,
            capacity: self.capacity as nat,
            used: self.used as nat,
            initialized: self.initialized,
        }
    }
}

impl Arena {
    #[verifier::type_invariant]
    pub(crate) open spec fn inv(self) -> bool {
        self@.wf()
    }

    /// An arena whose region is not registered yet.
    pub fn empty() -> (arena: Arena)
        ensures
            arena@ == ArenaView::blank(),
    {
        Arena { base: 0, capacity: 0, used: 0, initialized: false }
    }

    /// Registers the region of `size` bytes that starts at `base`. Nothing
    /// else changes: no byte is handed out yet.
    ///
    /// The region is registered once and before the first request. Whether
    /// that holds is not checked when the program runs; it is the caller's
    /// obligation, stated here as the precondition.
    pub fn init(&mut self, base: usize, size: usize)
        requires
            !old(self)@.initialized,
        ensures
            final(self)@ == ArenaView::fresh(base as nat, size as nat),
    {
        *self = Arena { base, capacity: size, used: 0, initialized: true };
    }

    /// Whether the region has been registered.
    pub fn is_initialized(&self) -> (b: bool)
        ensures
            b == self@.initialized,
    {
        self.initialized
    }

    /// Address of the first byte of the region.
    pub fn base(&self) -> (addr: usize)
        ensures
            addr == self@.base,
    {
        self.base
    }

    /// Size of the region in bytes.
    pub fn capacity(&self) -> (bytes: usize)
        ensures
            bytes == self@.capacity,
    {
        self.capacity
    }

    /// Bytes handed out so far.
    pub fn used(&self) -> (bytes: usize)
        ensures
            bytes == self@.used,
            self@.wf(),
    {
        proof {
            use_type_invariant(self);
        }
        self.used
    }

    /// Bytes that can still be handed out.
    pub fn free(&self) -> (bytes: usize)
        ensures
            bytes == self@.remaining(),
            self@.wf(),
    {
        proof {
            use_type_invariant(self);
        }
        self.capacity - self.used
    }

    /// Hands out `bytes` bytes of the region, or refuses and leaves the arena
    /// as it was when fewer than `bytes` bytes remain.
    pub fn allocate(&mut self, bytes: usize) -> (granted: Result<(), Fault>)
        requires
            old(self)@.initialized,
        ensures
            granted is Ok <==> old(self)@.grants(bytes as nat),
            granted is Ok ==> final(self)@ == old(self)@.charged(bytes as nat),
            granted matches Err(fault) ==> fault == Fault::AllocatorExhausted && final(self)@ == old(
                self,
            )@,
            final(self)@.wf(),
    {
        proof {
            use_type_invariant(&*self);
        }
        if bytes <= self.capacity - self.used {
            self.used = self.used + bytes;
            Ok(())
        } else {
            Err(Fault::AllocatorExhausted)
        }
    }
}

} // verus!
