//! The render-action flags a callback invocation carries, and the
//! handle a callback reads and writes them through.

use vstd::prelude::*;

verus! {

/// The render notification is being called before the render operation.
pub const PRE_RENDER: u32 = 4;

/// The render notification is being called after the render operation.
pub const POST_RENDER: u32 = 8;

/// The rendered buffer holds only silence; the host may skip
/// processing it.
pub const OUTPUT_IS_SILENCE: u32 = 16;

/// An offline unit is being preflighted before its render pass.
pub const OFFLINE_PREFLIGHT: u32 = 32;

/// An offline unit is in its render pass.
pub const OFFLINE_RENDER: u32 = 64;

/// An offline unit finished its preflight or render pass.
pub const OFFLINE_COMPLETE: u32 = 128;

/// The render operation returned an error and the buffer handed to the
/// post-render notification is invalid.
pub const POST_RENDER_ERROR: u32 = 256;

/// Argument checks on the render calls are skipped.
pub const DO_NOT_CHECK_RENDER_ARGS: u32 = 512;

/// Every defined render-action bit.
pub const ALL_ACTION_FLAGS: u32 = 1020;

/// A set of render-action flags.
#[derive(Copy, Clone, Debug, PartialEq, Eq, Structural)]
pub struct ActionFlags {
    /// The flag word; only defined bits are ever stored.
    pub bits: u32,
}

impl ActionFlags {
    /// Every stored word holds only defined bits.
    pub open spec fn wf(self) -> bool {
        self.bits & ALL_ACTION_FLAGS == self.bits
    }

    /// The flag set a native word decodes to, keeping the defined bits
    /// and clearing the rest.
    pub open spec fn spec_from_bits_truncate(bits: u32) -> ActionFlags {
        ActionFlags { bits: bits & ALL_ACTION_FLAGS }
    }

    /// Decode a native word, clearing undefined bits.
    pub fn from_bits_truncate(bits: u32) -> (r: ActionFlags)
        ensures
            r == Self::spec_from_bits_truncate(bits),
            r.wf(),
    {
        proof {
            assert(bits & 1020 & 1020 == bits & 1020) by (bit_vector);
        }
        ActionFlags { bits: bits & ALL_ACTION_FLAGS }
    }

    /// The empty flag set.
    pub fn empty() -> (r: ActionFlags)
        ensures
            r.bits == 0,
            r.wf(),
    {
        proof {
            assert(0u32 & 1020 == 0u32) by (bit_vector);
        }
        ActionFlags { bits: 0 }
    }

    /// The raw value of the flags.
    pub fn bits(&self) -> (r: u32)
        ensures
            r == self.bits,
    {
        self.bits
    }

    /// Whether no flag is set.
    pub fn is_empty(&self) -> (r: bool)
        ensures
            r == (self.bits == 0),
    {
        self.bits == 0
    }

    /// Whether every defined flag is set.
    pub fn is_all(&self) -> (r: bool)
        ensures
            r == (self.bits & ALL_ACTION_FLAGS == ALL_ACTION_FLAGS),
    {
        self.bits & ALL_ACTION_FLAGS == ALL_ACTION_FLAGS
    }

    /// Whether some flag is set in both `self` and `other`.
    pub fn intersects(&self, other: ActionFlags) -> (r: bool)
        ensures
            r == (self.bits & other.bits != 0),
    {
        self.bits & other.bits != 0
    }

    /// Whether every flag of `other` is set in `self`.
    pub fn contains(&self, other: ActionFlags) -> (r: bool)
        ensures
            r == (self.bits & other.bits == other.bits),
    {
        self.bits & other.bits == other.bits
    }

    /// Set every flag of `other`.
    pub fn insert(&mut self, other: ActionFlags)
        ensures
            final(self).bits == old(self).bits | other.bits,
    {
        self.bits = self.bits | other.bits;
    }

    /// Clear every flag of `other`.
    pub fn remove(&mut self, other: ActionFlags)
        ensures
            final(self).bits == old(self).bits & !other.bits,
    {
        self.bits = self.bits & !other.bits;
    }

    /// Flip every flag of `other`.
    pub fn toggle(&mut self, other: ActionFlags)
        ensures
            final(self).bits == old(self).bits ^ other.bits,
    {
        self.bits = self.bits ^ other.bits;
    }
}

/// The flag storage of one callback invocation, as the callback sees
/// it: the OS owns a flag word for the call, and the callback reads
/// hints from it and writes hints back through this handle.
#[derive(Copy, Clone, Debug, PartialEq, Eq, Structural)]
pub struct Handle {
    /// The OS-owned flag word of the invocation.
    pub raw: u32,
}

impl Handle {
    /// Wrap the flag word of one invocation.
    pub fn from_raw(raw: u32) -> (r: Handle)
        ensures
            r.raw == raw,
    {
        Handle { raw }
    }

    /// The current flags, with undefined bits cleared.
    pub fn get(&self) -> (r: ActionFlags)
        ensures
            r == ActionFlags::spec_from_bits_truncate(self.raw),
    {
        ActionFlags::from_bits_truncate(self.raw)
    }

    /// Store a flag set.
    fn set(&mut self, flags: ActionFlags)
        ensures
            final(self).raw == flags.bits,
    {
        self.raw = flags.bits;
    }

    /// The raw value of the flags currently stored, with undefined bits
    /// cleared.
    pub fn bits(&self) -> (r: u32)
        ensures
            r == self.raw & ALL_ACTION_FLAGS,
    {
        self.get().bits()
    }

    /// Whether no defined flag is currently stored.
    pub fn is_empty(&self) -> (r: bool)
        ensures
            r == (self.raw & ALL_ACTION_FLAGS == 0),
    {
        self.get().is_empty()
    }

    /// Whether every defined flag is currently stored.
    pub fn is_all(&self) -> (r: bool)
        ensures
            r == (self.raw & ALL_ACTION_FLAGS == ALL_ACTION_FLAGS),
    {
        let flags = self.get();
        proof {
            let raw = self.raw;
            assert(raw & 1020 & 1020 == raw & 1020) by (bit_vector);
        }
        flags.is_all()
    }

    /// Whether some flag is stored that `other` also holds.
    pub fn intersects(&self, other: ActionFlags) -> (r: bool)
        ensures
            r == ((self.raw & ALL_ACTION_FLAGS) & other.bits != 0),
    {
        self.get().intersects(other)
    }

    /// Whether every flag of `other` is stored.
    pub fn contains(&self, other: ActionFlags) -> (r: bool)
        ensures
            r == ((self.raw & ALL_ACTION_FLAGS) & other.bits == other.bits),
    {
        self.get().contains(other)
    }

    /// Set every flag of `other` in the stored word.
    pub fn insert(&mut self, other: ActionFlags)
        ensures
            final(self).raw == (old(self).raw & ALL_ACTION_FLAGS) | other.bits,
    {
        let mut flags = self.get();
        flags.insert(other);
        self.set(flags);
    }

    /// Clear every flag of `other` in the stored word.
    pub fn remove(&mut self, other: ActionFlags)
        ensures
            final(self).raw == (old(self).raw & ALL_ACTION_FLAGS) & !other.bits,
    {
        let mut flags = self.get();
        flags.remove(other);
        self.set(flags);
    }

    /// Flip every flag of `other` in the stored word.
    pub fn toggle(&mut self, other: ActionFlags)
        ensures
            final(self).raw == (old(self).raw & ALL_ACTION_FLAGS) ^ other.bits,
    {
        let mut flags = self.get();
        flags.toggle(other);
        self.set(flags);
    }
}

} // verus!
