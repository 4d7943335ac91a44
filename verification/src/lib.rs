//! A statically checked boundary around a vendor-provided hardware telemetry
//! library for accelerator monitoring.
//!
//! The native interface is a C-ABI, pointer-and-length surface whose safety
//! rules are only documented in prose. This crate reconstructs those rules as
//! verified logic: the handle-ownership hierarchy (library instance, then
//! sockets, then processors), the exactly-once initialization and shutdown of
//! the library instance, the two-phase "query size, then fill" retrieval
//! protocol, the growing-buffer variant used for process lists, the
//! fixed-buffer string retrieval used for device identifiers, and the
//! normalization of the native status space into a closed error taxonomy.
//!
//! The native entry points themselves are reached through the [`AmdNative`]
//! capability trait. Two implementations exist: a programmable test double,
//! [`ScriptedNative`], defined and verified here, and a loader-backed
//! implementation kept in the surrounding application, since dynamic loading
//! and raw foreign calls cannot be verified.

use vstd::prelude::*;

pub mod flags;
pub mod native;
pub mod scripted;
pub mod smi;
pub mod status;
pub mod uuid;
pub mod values;

pub use flags::InitFlags;
pub use native::AmdNative;
pub use scripted::ScriptedNative;
pub use smi::AmdProcessorHandle;
pub use smi::AmdSmi;
pub use smi::AmdSocketHandle;
pub use status::AmdStatus;
pub use values::AmdEnergyConsumptionInfo;

verus! {

use crate::status::spec_status_from;

/// Error raised by a native call that did not report success.
///
/// Wraps the normalized status the underlying call returned.
#[derive(Clone, Copy, Debug, PartialEq, Eq, Structural)]
pub struct AmdError(pub AmdStatus);

/// Error raised while bringing the native library up.
#[derive(Clone, Debug, PartialEq, Eq)]
pub enum AmdInitError {
    /// The library was loaded but its native initialization call failed;
    /// carries the normalized status of that call.
    Init(AmdError),
    /// The shared library could not be located, or a required entry point was
    /// missing; carries the loader's description of the failure.
    Load(String),
}

/// Turn a raw native status code into a success or an error.
///
/// Returns `Ok` exactly when the code converts to [`AmdStatus::Success`];
/// otherwise the error carries the converted status.
pub fn check_status(status: u32) -> (r: Result<(), AmdError>)
    ensures
        r is Ok <==> spec_status_from(status) == AmdStatus::Success,
        r is Err ==> r->Err_0 == AmdError(spec_status_from(status)),
{
    let converted = AmdStatus::from(status);
    if converted == AmdStatus::Success {
        Ok(())
    } else {
        Err(AmdError(converted))
    }
}

} // verus!
