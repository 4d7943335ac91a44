//! The native status-code space and its normalization into a closed taxonomy.
//!
//! The native telemetry library reports every call's outcome as a raw 32-bit
//! status code. The enumeration below names each code the vendor documents,
//! but the runtime conversion deliberately recognizes only a small subset:
//! success, invalid argument, not supported, out of resources, no permission,
//! not yet implemented, and unexpected data. Every other raw code, including
//! ones that have a named variant here, collapses to [`AmdStatus::UnknownError`]
//! when converted. The asymmetry is part of the interface and is kept as is.

use vstd::prelude::*;

verus! {

/// Raw code the native library returns for a successful call.
pub const CODE_SUCCESS: u32 = 0;
/// Raw code for an invalid argument.
pub const CODE_INVAL: u32 = 1;
/// Raw code for an unsupported operation.
pub const CODE_NOT_SUPPORTED: u32 = 2;
/// Raw code for an entry point that is not yet implemented.
pub const CODE_NOT_YET_IMPLEMENTED: u32 = 3;
/// Raw code for insufficient resources, also used by the growing-buffer
/// protocol to signal that a larger buffer is required.
pub const CODE_OUT_OF_RESOURCES: u32 = 15;
/// Raw code for a permission failure.
pub const CODE_NO_PERM: u32 = 10;
/// Raw code for unexpected data from the hardware.
pub const CODE_UNEXPECTED_DATA: u32 = 43;
/// Raw code the native library itself uses for an unclassified error.
pub const CODE_UNKNOWN_ERROR: u32 = 0xFFFF_FFFF;

/// The closed taxonomy of native outcomes.
///
/// Each variant names a status code the vendor documents. Only the variants
/// listed in [`spec_status_from`] are produced by the conversion from a raw
/// code; the others exist for documentation and pattern matching.
#[derive(Clone, Copy, Debug, PartialEq, Eq, Structural)]
pub enum AmdStatus {
    Success,
    Inval,
    NotSupported,
    NotYetImplemented,
    FailLoadModule,
    FailLoadSymbol,
    DrmError,
    ApiFailed,
    Timeout,
    Retry,
    NoPerm,
    Interrupt,
    Io,
    AddressFault,
    FileError,
    OutOfResources,
    InternalException,
    InputOutOfBounds,
    InitError,
    RefcountOverflow,
    DirectoryNotFound,
    Busy,
    NotFound,
    NotInit,
    NoSlot,
    DriverNotLoaded,
    MoreData,
    NoData,
    InsufficientSize,
    UnexpectedSize,
    UnexpectedData,
    NonAmdCpu,
    NoEnergyDrv,
    NoMsrDrv,
    NoHsmpDrv,
    NoHsmpSup,
    NoHsmpMsgSup,
    HsmpTimeout,
    NoDrv,
    FileNotFound,
    ArgPtrNull,
    AmdgpuRestartErr,
    SettingUnavailable,
    CorruptedEeprom,
    MapError,
    UnknownError,
}

/// What a raw native status code converts to.
///
/// Exactly the seven explicitly recognized codes map to their named variants;
/// every other raw code maps to [`AmdStatus::UnknownError`].
pub open spec fn spec_status_from(raw: u32) -> AmdStatus {
    if raw == CODE_SUCCESS {
        AmdStatus::Success
    } else if raw == CODE_INVAL {
        AmdStatus::Inval
    } else if raw == CODE_NOT_SUPPORTED {
        AmdStatus::NotSupported
    } else if raw == CODE_OUT_OF_RESOURCES {
        AmdStatus::OutOfResources
    } else if raw == CODE_NO_PERM {
        AmdStatus::NoPerm
    } else if raw == CODE_NOT_YET_IMPLEMENTED {
        AmdStatus::NotYetImplemented
    } else if raw == CODE_UNEXPECTED_DATA {
        AmdStatus::UnexpectedData
    } else {
        AmdStatus::UnknownError
    }
}

/// Whether a raw code is one of the seven the conversion recognizes.
pub open spec fn spec_recognized(raw: u32) -> bool {
    raw == CODE_SUCCESS || raw == CODE_INVAL || raw == CODE_NOT_SUPPORTED
        || raw == CODE_OUT_OF_RESOURCES || raw == CODE_NO_PERM
        || raw == CODE_NOT_YET_IMPLEMENTED || raw == CODE_UNEXPECTED_DATA
}

impl From<u32> for AmdStatus {
    /// Normalize a raw native status code.
    fn from(status: u32) -> (r: Self) {
        if status == CODE_SUCCESS {
            AmdStatus::Success
        } else if status == CODE_INVAL {
            AmdStatus::Inval
        } else if status == CODE_NOT_SUPPORTED {
            AmdStatus::NotSupported
        } else if status == CODE_OUT_OF_RESOURCES {
            AmdStatus::OutOfResources
        } else if status == CODE_NO_PERM {
            AmdStatus::NoPerm
        } else if status == CODE_NOT_YET_IMPLEMENTED {
            AmdStatus::NotYetImplemented
        } else if status == CODE_UNEXPECTED_DATA {
            AmdStatus::UnexpectedData
        } else {
            AmdStatus::UnknownError
        }
    }
}

impl vstd::std_specs::convert::FromSpecImpl<u32> for AmdStatus {
    open spec fn obeys_from_spec() -> bool {
        true
    }

    open spec fn from_spec(t: u32) -> Self {
        spec_status_from(t)
    }
}

/// Law: each explicitly recognized raw code converts to its named variant,
/// and any unrecognized raw code converts to the generic unknown outcome.
pub proof fn lemma_status_mapping(raw: u32)
    ensures
        spec_status_from(CODE_SUCCESS) == AmdStatus::Success,
        spec_status_from(CODE_INVAL) == AmdStatus::Inval,
        spec_status_from(CODE_NOT_SUPPORTED) == AmdStatus::NotSupported,
        spec_status_from(CODE_OUT_OF_RESOURCES) == AmdStatus::OutOfResources,
        spec_status_from(CODE_NO_PERM) == AmdStatus::NoPerm,
        spec_status_from(CODE_NOT_YET_IMPLEMENTED) == AmdStatus::NotYetImplemented,
        spec_status_from(CODE_UNEXPECTED_DATA) == AmdStatus::UnexpectedData,
        !spec_recognized(raw) ==> spec_status_from(raw) == AmdStatus::UnknownError,
        spec_status_from(raw) == AmdStatus::Success <==> raw == CODE_SUCCESS,
{
}

} // verus!
