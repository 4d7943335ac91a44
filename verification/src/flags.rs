//! The initialization flag bitmask.
//!
//! The native library's initialization entry point takes a bitmask selecting
//! which hardware classes it should discover. The recognized options are
//! combinable by bitwise union.

use vstd::prelude::*;

verus! {

/// Bit selecting every processor class at once.
pub const ALL_PROCESSORS_BITS: u64 = 0xFFFF_FFFF;
/// Bit selecting AMD CPUs.
pub const AMD_CPUS_BITS: u64 = 0x1;
/// Bit selecting AMD GPUs.
pub const AMD_GPUS_BITS: u64 = 0x2;
/// Bits selecting AMD APUs (the union of the CPU and GPU bits).
pub const AMD_APUS_BITS: u64 = 0x3;
/// Bit selecting CPUs of other vendors.
pub const NON_AMD_CPUS_BITS: u64 = 0x4;
/// Bit selecting GPUs of other vendors.
pub const NON_AMD_GPUS_BITS: u64 = 0x8;

/// Bitmask handed to the native initialization entry point, selecting which
/// hardware classes the library discovers and exposes.
#[derive(Clone, Copy, Debug, PartialEq, Eq, Structural)]
pub struct InitFlags {
    bits: u64,
}

impl InitFlags {
    /// The raw bits of the mask.
    pub closed spec fn spec_bits(&self) -> u64 {
        self.bits
    }

    /// An empty mask, selecting nothing.
    pub fn empty() -> (r: InitFlags)
        ensures
            r.spec_bits() == 0,
    {
        InitFlags { bits: 0 }
    }

    /// The mask selecting every processor class.
    pub fn all_processors() -> (r: InitFlags)
        ensures
            r.spec_bits() == ALL_PROCESSORS_BITS,
    {
        InitFlags { bits: ALL_PROCESSORS_BITS }
    }

    /// The mask selecting AMD CPUs.
    pub fn amd_cpus() -> (r: InitFlags)
        ensures
            r.spec_bits() == AMD_CPUS_BITS,
    {
        InitFlags { bits: AMD_CPUS_BITS }
    }

    /// The mask selecting AMD GPUs.
    pub fn amd_gpus() -> (r: InitFlags)
        ensures
            r.spec_bits() == AMD_GPUS_BITS,
    {
        InitFlags { bits: AMD_GPUS_BITS }
    }

    /// The mask selecting AMD APUs.
    pub fn amd_apus() -> (r: InitFlags)
        ensures
            r.spec_bits() == AMD_APUS_BITS,
    {
        InitFlags { bits: AMD_APUS_BITS }
    }

    /// The mask selecting CPUs of other vendors.
    pub fn non_amd_cpus() -> (r: InitFlags)
        ensures
            r.spec_bits() == NON_AMD_CPUS_BITS,
    {
        InitFlags { bits: NON_AMD_CPUS_BITS }
    }

    /// The mask selecting GPUs of other vendors.
    pub fn non_amd_gpus() -> (r: InitFlags)
        ensures
            r.spec_bits() == NON_AMD_GPUS_BITS,
    {
        InitFlags { bits: NON_AMD_GPUS_BITS }
    }

    /// The union of two masks.
    pub fn union(self, other: InitFlags) -> (r: InitFlags)
        ensures
            r.spec_bits() == self.spec_bits() | other.spec_bits(),
    {
        InitFlags { bits: self.bits | other.bits }
    }

    /// Whether every bit of `other` is set in `self`.
    pub fn contains(self, other: InitFlags) -> (r: bool)
        ensures
            r == (self.spec_bits() & other.spec_bits() == other.spec_bits()),
    {
        self.bits & other.bits == other.bits
    }

    /// The raw bits of the mask, as the native entry point takes them.
    pub fn bits(self) -> (r: u64)
        ensures
            r == self.spec_bits(),
    {
        self.bits
    }
}

} // verus!
