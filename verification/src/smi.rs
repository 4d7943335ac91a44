//! The handle hierarchy and the retrieval protocols.
//!
//! A caller obtains an [`AmdSmi`] instance through [`AmdSmi::init`], derives
//! [`AmdSocketHandle`] values from it, derives [`AmdProcessorHandle`] values
//! from each socket, and issues independent telemetry queries against each
//! processor. The instance owns the backend, and every derived operation
//! borrows the instance exclusively, so no token can be used after
//! [`AmdSmi::stop`] has consumed the instance and invoked the native shutdown
//! exactly once: the lifecycle rule the vendor documents in prose is enforced
//! structurally.
//!
//! Output storage handed to a native call is never exposed before the call
//! reports success: every query gates its result on the status code first, as
//! the native contract only guarantees full initialization on success.

use vstd::prelude::*;

use vstd::utf8::decode_utf8;
use vstd::utf8::valid_utf8;

use crate::AmdError;
use crate::AmdInitError;
use crate::check_status;
use crate::flags::InitFlags;
use crate::native::AmdNative;
use crate::native::same_lifecycle;
use crate::native::same_topology;
use crate::status::AmdStatus;
use crate::status::spec_status_from;
use crate::uuid::prefix_before_nul;
use crate::uuid::utf8_to_string;
use crate::uuid::uuid_prefix;
use crate::values::AmdEngineUsage;
use crate::values::AmdEnergyConsumptionInfo;
use crate::values::AmdMemoryType;
use crate::values::AmdPowerInfo;
use crate::values::AmdProcInfo;
use crate::values::AmdTemperatureMetric;
use crate::values::AmdTemperatureType;
use crate::values::AmdVoltageMetric;
use crate::values::AmdVoltageType;

verus! {

/// Library-defined capacity of the device-identifier buffer, terminator
/// included.
pub const UUID_BUFFER_CAPACITY: u32 = 38;

/// Bound on growth retries of the growing-buffer protocol. The native
/// interface leaves the retry loop unbounded; a faulty library could then
/// keep reporting insufficient capacity forever, so this layer aborts after
/// this many grown attempts and surfaces the last insufficient-capacity
/// status as the error.
pub const MAX_GROWTH_ATTEMPTS: u32 = 8;

/// The native tokens a sequence of socket handles carries, in order.
pub open spec fn socket_tokens_of(v: Seq<AmdSocketHandle>) -> Seq<u64> {
    v.map_values(|h: AmdSocketHandle| h.spec_token())
}

/// The native tokens a sequence of processor handles carries, in order.
pub open spec fn processor_tokens_of(v: Seq<AmdProcessorHandle>) -> Seq<u64> {
    v.map_values(|h: AmdProcessorHandle| h.spec_token())
}

/// Gate a value a native call wrote on the status code that call returned.
///
/// Hands the value through unchanged exactly when the status converts to
/// success, and otherwise reports the converted status as the error.
pub fn accept_on_success<T>(status: u32, value: T) -> (r: Result<T, AmdError>)
    ensures
        spec_status_from(status) == AmdStatus::Success ==> r == Ok::<T, AmdError>(value),
        spec_status_from(status) != AmdStatus::Success ==> r == Err::<T, AmdError>(
            AmdError(spec_status_from(status)),
        ),
{
    match check_status(status) {
        Ok(()) => Ok(value),
        Err(e) => Err(e),
    }
}

/// Law: over one whole lifecycle the native shutdown runs exactly once.
///
/// `after_init` is the backend state a successful [`AmdSmi::init`] produced
/// from `before`, `after_use` the state after any sequence of derived
/// operations — every one of which keeps the lifecycle counters unchanged,
/// as their contracts state — and `after_stop` the state [`AmdSmi::stop`]
/// handed back. However many handles were derived and in whatever order they
/// were released, the shutdown counter has advanced exactly once, and the
/// library was initialized exactly once more than before.
pub proof fn lemma_lifecycle_shuts_down_once<L: AmdNative>(
    before: L,
    after_init: L,
    after_use: L,
    after_stop: L,
)
    requires
        after_init.inits() == before.inits() + 1,
        after_init.shutdowns() == before.shutdowns(),
        same_lifecycle(after_init, after_use),
        after_stop.inits() == after_use.inits(),
        after_stop.shutdowns() == after_use.shutdowns() + 1,
    ensures
        after_stop.shutdowns() == before.shutdowns() + 1,
        after_stop.inits() == before.inits() + 1,
{
}

/// The initialized library instance: the root of the ownership hierarchy.
///
/// Owns the backend. Created by [`AmdSmi::init`]; consumed by
/// [`AmdSmi::stop`], which invokes the native shutdown exactly once. Handles
/// derived from the instance borrow it, so the borrow checker guarantees that
/// the instance outlives every use of a derived token.
pub struct AmdSmi<L: AmdNative> {
    lib: L,
}

/// One enumerated physical socket: an opaque native token, valid only while
/// the instance that produced it is alive.
#[derive(Clone, Copy, Debug, PartialEq, Eq, Structural)]
pub struct AmdSocketHandle {
    token: u64,
}

/// One enumerated processor under a socket: an opaque native token, valid
/// only while the instance that produced it is alive.
#[derive(Clone, Copy, Debug, PartialEq, Eq, Structural)]
pub struct AmdProcessorHandle {
    token: u64,
}

impl AmdSocketHandle {
    /// The opaque native token.
    pub closed spec fn spec_token(&self) -> u64 {
        self.token
    }

    /// The opaque native token.
    pub fn token(&self) -> (r: u64)
        ensures
            r == self.spec_token(),
    {
        self.token
    }
}

impl AmdProcessorHandle {
    /// The opaque native token.
    pub closed spec fn spec_token(&self) -> u64 {
        self.token
    }

    /// The opaque native token.
    pub fn token(&self) -> (r: u64)
        ensures
            r == self.spec_token(),
    {
        self.token
    }
}

impl<L: AmdNative> AmdSmi<L> {
    /// The backend model this instance owns.
    pub closed spec fn native(&self) -> L {
        self.lib
    }

    /// Initialize the native library for the hardware classes in `flags`.
    ///
    /// Invokes the native initialization entry point once. On success the
    /// returned instance owns the backend; the shutdown counter is untouched,
    /// so a later [`AmdSmi::stop`] shuts the library down exactly once. On
    /// failure the error carries the status the native call reported.
    ///
    /// Loading the shared library itself happens before this layer: a loader
    /// that cannot locate the library or a required entry point reports
    /// [`AmdInitError::Load`] instead of constructing a backend.
    pub fn init(lib: L, flags: InitFlags) -> (r: Result<AmdSmi<L>, AmdInitError>)
        ensures
            r matches Ok(smi) ==> {
                &&& smi.native().calls() == lib.calls() + 1
                &&& smi.native().inits() == lib.inits() + 1
                &&& smi.native().shutdowns() == lib.shutdowns()
                &&& smi.native().last_init_flags() == flags.spec_bits()
                &&& smi.native().statuses() == lib.statuses().push(
                    smi.native().statuses().last(),
                )
                &&& spec_status_from(smi.native().statuses().last()) == AmdStatus::Success
                &&& same_topology(lib, smi.native())
            },
            r matches Err(e) ==> e matches AmdInitError::Init(err) && err.0
                != AmdStatus::Success,
    {
        let mut lib = lib;
        let status = lib.init_call(flags.bits());
        match check_status(status) {
            Ok(()) => Ok(AmdSmi { lib }),
            Err(e) => Err(AmdInitError::Init(e)),
        }
    }

    /// Quit the native library and release its resources.
    ///
    /// Consumes the instance, which Rust only permits once no derived handle
    /// borrows it, and invokes the native shutdown entry point exactly once.
    /// The backend is handed back so its final state remains observable.
    pub fn stop(self) -> (r: (Result<(), AmdError>, L))
        ensures
            r.1.calls() == self.native().calls() + 1,
            r.1.inits() == self.native().inits(),
            r.1.shutdowns() == self.native().shutdowns() + 1,
            r.1.statuses() == self.native().statuses().push(r.1.statuses().last()),
            same_topology(self.native(), r.1),
            r.0 is Ok <==> spec_status_from(r.1.statuses().last()) == AmdStatus::Success,
            r.0 matches Err(e) ==> e == AmdError(spec_status_from(r.1.statuses().last())),
    {
        let AmdSmi { lib } = self;
        let mut lib = lib;
        let status = lib.shut_down_call();
        (check_status(status), lib)
    }

    /// Enumerate the physical sockets, by the exact two-call shape of the
    /// retrieval protocol: probe the count with no buffer, then fill a buffer
    /// of exactly that size, truncating defensively to the count the fill
    /// call reports.
    ///
    /// When the probe reports zero sockets the result is empty and the second
    /// native call is not issued. Each returned handle pairs one enumerated
    /// token with this same instance.
    pub fn socket_handles(&mut self) -> (r: Result<Vec<AmdSocketHandle>, AmdError>)
        ensures
            same_lifecycle(old(self).native(), final(self).native()),
            same_topology(old(self).native(), final(self).native()),
            old(self).native().calls() + 1 <= final(self).native().calls(),
            final(self).native().calls() <= old(self).native().calls() + 2,
            old(self).native().sockets().len() == 0
                ==> final(self).native().calls() == old(self).native().calls() + 1,
            r matches Ok(v) && old(self).native().sockets().len() > 0
                ==> final(self).native().calls() == old(self).native().calls() + 2,
            r matches Ok(v) ==> socket_tokens_of(v@) == old(self).native().sockets(),
            final(self).native().statuses().len() == old(self).native().statuses().len() + (
            final(self).native().calls() - old(self).native().calls()),
            final(self).native().counts().len() == old(self).native().counts().len() + (
            final(self).native().calls() - old(self).native().calls()),
            r is Ok <==> spec_status_from(final(self).native().statuses().last())
                == AmdStatus::Success,
            r matches Err(e) ==> e == AmdError(
                spec_status_from(final(self).native().statuses().last()),
            ),
            spec_status_from(
                final(self).native().statuses()[old(self).native().statuses().len() as int],
            ) != AmdStatus::Success ==> r is Err && final(self).native().calls() == old(
                self,
            ).native().calls() + 1,
            spec_status_from(
                final(self).native().statuses()[old(self).native().statuses().len() as int],
            ) == AmdStatus::Success && final(self).native().counts()[old(
                self,
            ).native().counts().len() as int] > 0 ==> final(self).native().calls() == old(
                self,
            ).native().calls() + 2,
    {
        let (status, count) = self.lib.socket_count_call();
        match check_status(status) {
            Ok(()) => (),
            Err(e) => {
                return Err(e);
            },
        }
        if count == 0 {
            let out: Vec<AmdSocketHandle> = Vec::new();
            proof {
                assert(socket_tokens_of(out@) =~= old(self).native().sockets());
            }
            return Ok(out);
        }
        let (status, written, mut tokens) = self.lib.socket_fill_call(count);
        match check_status(status) {
            Ok(()) => (),
            Err(e) => {
                return Err(e);
            },
        }
        let effective = if (written as usize) < tokens.len() {
            written as usize
        } else {
            tokens.len()
        };
        tokens.truncate(effective);
        let mut out: Vec<AmdSocketHandle> = Vec::new();
        let mut i: usize = 0;
        while i < tokens.len()
            invariant
                0 <= i <= tokens@.len(),
                out@.len() == i as nat,
                forall|j: int| 0 <= j < i ==> out@[j].spec_token() == tokens@[j],
            decreases tokens@.len() - i,
        {
            out.push(AmdSocketHandle { token: tokens[i] });
            i = i + 1;
        }
        proof {
            assert(tokens@ =~= old(self).native().sockets());
            assert(socket_tokens_of(out@) =~= old(self).native().sockets());
        }
        Ok(out)
    }
}

impl AmdSocketHandle {
    /// Enumerate the processors under this socket, by the same exact two-call
    /// shape as socket enumeration, scoped to this socket's token. Each
    /// returned handle shares the same owning instance; the socket is not an
    /// independent owner.
    pub fn processor_handles<L: AmdNative>(&self, smi: &mut AmdSmi<L>) -> (r: Result<
        Vec<AmdProcessorHandle>,
        AmdError,
    >)
        ensures
            same_lifecycle(old(smi).native(), final(smi).native()),
            same_topology(old(smi).native(), final(smi).native()),
            old(smi).native().calls() + 1 <= final(smi).native().calls(),
            final(smi).native().calls() <= old(smi).native().calls() + 2,
            old(smi).native().processors(self.spec_token()).len() == 0
                ==> final(smi).native().calls() == old(smi).native().calls() + 1,
            r matches Ok(v) && old(smi).native().processors(self.spec_token()).len() > 0
                ==> final(smi).native().calls() == old(smi).native().calls() + 2,
            r matches Ok(v) ==> processor_tokens_of(v@) == old(smi).native().processors(
                self.spec_token(),
            ),
            final(smi).native().statuses().len() == old(smi).native().statuses().len() + (
            final(smi).native().calls() - old(smi).native().calls()),
            final(smi).native().counts().len() == old(smi).native().counts().len() + (
            final(smi).native().calls() - old(smi).native().calls()),
            r is Ok <==> spec_status_from(final(smi).native().statuses().last())
                == AmdStatus::Success,
            r matches Err(e) ==> e == AmdError(
                spec_status_from(final(smi).native().statuses().last()),
            ),
            spec_status_from(
                final(smi).native().statuses()[old(smi).native().statuses().len() as int],
            ) != AmdStatus::Success ==> r is Err && final(smi).native().calls() == old(
                smi,
            ).native().calls() + 1,
            spec_status_from(
                final(smi).native().statuses()[old(smi).native().statuses().len() as int],
            ) == AmdStatus::Success && final(smi).native().counts()[old(
                smi,
            ).native().counts().len() as int] > 0 ==> final(smi).native().calls() == old(
                smi,
            ).native().calls() + 2,
    {
        let (status, count) = smi.lib.processor_count_call(self.token);
        match check_status(status) {
            Ok(()) => (),
            Err(e) => {
                return Err(e);
            },
        }
        if count == 0 {
            let out: Vec<AmdProcessorHandle> = Vec::new();
            proof {
                assert(processor_tokens_of(out@) =~= old(smi).native().processors(
                    self.spec_token(),
                ));
            }
            return Ok(out);
        }
        let (status, written, mut tokens) = smi.lib.processor_fill_call(self.token, count);
        match check_status(status) {
            Ok(()) => (),
            Err(e) => {
                return Err(e);
            },
        }
        let effective = if (written as usize) < tokens.len() {
            written as usize
        } else {
            tokens.len()
        };
        tokens.truncate(effective);
        let mut out: Vec<AmdProcessorHandle> = Vec::new();
        let mut i: usize = 0;
        while i < tokens.len()
            invariant
                0 <= i <= tokens@.len(),
                out@.len() == i as nat,
                forall|j: int| 0 <= j < i ==> out@[j].spec_token() == tokens@[j],
            decreases tokens@.len() - i,
        {
            out.push(AmdProcessorHandle { token: tokens[i] });
            i = i + 1;
        }
        proof {
            assert(tokens@ =~= old(smi).native().processors(self.spec_token()));
            assert(processor_tokens_of(out@) =~= old(smi).native().processors(
                self.spec_token(),
            ));
        }
        Ok(out)
    }
}

impl AmdProcessorHandle {
    /// Retrieve the device identifier, by the string shape of the retrieval
    /// protocol: one call into a fixed-capacity buffer, then a C-string
    /// decode of the reported prefix, synthesizing a terminator when the
    /// native call left none within the reported length.
    ///
    /// A text-decoding failure is reported with the status of the call that
    /// produced the bytes — which at that point is the success status — not
    /// with a distinct kind; the quirk is part of the interface.
    pub fn device_uuid<L: AmdNative>(&self, smi: &mut AmdSmi<L>) -> (r: Result<String, AmdError>)
        ensures
            same_lifecycle(old(smi).native(), final(smi).native()),
            same_topology(old(smi).native(), final(smi).native()),
            final(smi).native().calls() == old(smi).native().calls() + 1,
            final(smi).native().statuses() == old(smi).native().statuses().push(
                final(smi).native().statuses().last(),
            ),
            spec_status_from(final(smi).native().statuses().last()) != AmdStatus::Success ==> r
                == Err::<String, AmdError>(
                AmdError(spec_status_from(final(smi).native().statuses().last())),
            ),
            spec_status_from(final(smi).native().statuses().last()) == AmdStatus::Success ==> (
            r is Ok <==> valid_utf8(
                uuid_prefix(old(smi).native().uuid_reported(self.spec_token())),
            )),
            r matches Ok(s) ==> {
                let decoded = uuid_prefix(old(smi).native().uuid_reported(self.spec_token()));
                &&& valid_utf8(decoded)
                &&& s@ == decode_utf8(decoded)
            },
            r matches Err(e) && e.0 == AmdStatus::Success ==> !valid_utf8(
                uuid_prefix(old(smi).native().uuid_reported(self.spec_token())),
            ),
    {
        let (status, length, buf) = smi.lib.uuid_call(self.token, UUID_BUFFER_CAPACITY);
        match check_status(status) {
            Ok(()) => (),
            Err(e) => {
                return Err(e);
            },
        }
        let len = if (length as usize) < buf.len() {
            length as usize
        } else {
            buf.len()
        };
        let prefix = prefix_before_nul(&buf, len);
        proof {
            assert(buf@.take(len as int) == old(smi).native().uuid_reported(self.spec_token()));
        }
        match utf8_to_string(prefix) {
            Some(s) => Ok(s),
            None => Err(AmdError(AmdStatus::from(status))),
        }
    }

    /// Retrieve the engine-usage snapshot of this processor.
    pub fn device_activity<L: AmdNative>(&self, smi: &mut AmdSmi<L>) -> (r: Result<
        AmdEngineUsage,
        AmdError,
    >)
        ensures
            same_lifecycle(old(smi).native(), final(smi).native()),
            same_topology(old(smi).native(), final(smi).native()),
            final(smi).native().calls() == old(smi).native().calls() + 1,
            final(smi).native().statuses() == old(smi).native().statuses().push(
                final(smi).native().statuses().last(),
            ),
            r is Ok <==> spec_status_from(final(smi).native().statuses().last())
                == AmdStatus::Success,
            r matches Err(e) ==> e == AmdError(
                spec_status_from(final(smi).native().statuses().last()),
            ),
            r matches Ok(v) ==> v == final(smi).native().last_activity(),
    {
        let (status, info) = smi.lib.activity_call(self.token);
        accept_on_success(status, info)
    }

    /// Retrieve the energy-consumption snapshot of this processor.
    pub fn device_energy_consumption<L: AmdNative>(&self, smi: &mut AmdSmi<L>) -> (r: Result<
        AmdEnergyConsumptionInfo,
        AmdError,
    >)
        ensures
            same_lifecycle(old(smi).native(), final(smi).native()),
            same_topology(old(smi).native(), final(smi).native()),
            final(smi).native().calls() == old(smi).native().calls() + 1,
            final(smi).native().statuses() == old(smi).native().statuses().push(
                final(smi).native().statuses().last(),
            ),
            r is Ok <==> spec_status_from(final(smi).native().statuses().last())
                == AmdStatus::Success,
            r matches Err(e) ==> e == AmdError(
                spec_status_from(final(smi).native().statuses().last()),
            ),
            r matches Ok(v) ==> v == final(smi).native().last_energy(),
    {
        let (status, info) = smi.lib.energy_call(self.token);
        accept_on_success(status, info)
    }

    /// Retrieve the byte count in use for one memory kind of this processor,
    /// handed through from the native report unchanged.
    pub fn device_memory_usage<L: AmdNative>(&self, smi: &mut AmdSmi<L>, mem_type: AmdMemoryType)
        -> (r: Result<u64, AmdError>)
        ensures
            same_lifecycle(old(smi).native(), final(smi).native()),
            same_topology(old(smi).native(), final(smi).native()),
            final(smi).native().calls() == old(smi).native().calls() + 1,
            final(smi).native().statuses() == old(smi).native().statuses().push(
                final(smi).native().statuses().last(),
            ),
            r is Ok <==> spec_status_from(final(smi).native().statuses().last())
                == AmdStatus::Success,
            r matches Err(e) ==> e == AmdError(
                spec_status_from(final(smi).native().statuses().last()),
            ),
            r matches Ok(v) ==> v == final(smi).native().last_memory_used(),
    {
        let (status, used) = smi.lib.memory_usage_call(self.token, mem_type);
        accept_on_success(status, used)
    }

    /// Retrieve the power-consumption snapshot of this processor.
    pub fn device_power_consumption<L: AmdNative>(&self, smi: &mut AmdSmi<L>) -> (r: Result<
        AmdPowerInfo,
        AmdError,
    >)
        ensures
            same_lifecycle(old(smi).native(), final(smi).native()),
            same_topology(old(smi).native(), final(smi).native()),
            final(smi).native().calls() == old(smi).native().calls() + 1,
            final(smi).native().statuses() == old(smi).native().statuses().push(
                final(smi).native().statuses().last(),
            ),
            r is Ok <==> spec_status_from(final(smi).native().statuses().last())
                == AmdStatus::Success,
            r matches Err(e) ==> e == AmdError(
                spec_status_from(final(smi).native().statuses().last()),
            ),
            r matches Ok(v) ==> v == final(smi).native().last_power(),
    {
        let (status, info) = smi.lib.power_info_call(self.token);
        accept_on_success(status, info)
    }

    /// Retrieve whether power management is enabled for this processor.
    pub fn device_power_managment<L: AmdNative>(&self, smi: &mut AmdSmi<L>) -> (r: Result<
        bool,
        AmdError,
    >)
        ensures
            same_lifecycle(old(smi).native(), final(smi).native()),
            same_topology(old(smi).native(), final(smi).native()),
            final(smi).native().calls() == old(smi).native().calls() + 1,
            final(smi).native().statuses() == old(smi).native().statuses().push(
                final(smi).native().statuses().last(),
            ),
            r is Ok <==> spec_status_from(final(smi).native().statuses().last())
                == AmdStatus::Success,
            r matches Err(e) ==> e == AmdError(
                spec_status_from(final(smi).native().statuses().last()),
            ),
            r matches Ok(v) ==> v == final(smi).native().last_power_management(),
    {
        let (status, enabled) = smi.lib.power_management_call(self.token);
        accept_on_success(status, enabled)
    }

    /// Retrieve the temperature of one sensor of this processor, for the
    /// given metric.
    pub fn device_temperature<L: AmdNative>(
        &self,
        smi: &mut AmdSmi<L>,
        sensor_type: AmdTemperatureType,
        metric: AmdTemperatureMetric,
    ) -> (r: Result<i64, AmdError>)
        ensures
            same_lifecycle(old(smi).native(), final(smi).native()),
            same_topology(old(smi).native(), final(smi).native()),
            final(smi).native().calls() == old(smi).native().calls() + 1,
            final(smi).native().statuses() == old(smi).native().statuses().push(
                final(smi).native().statuses().last(),
            ),
            r is Ok <==> spec_status_from(final(smi).native().statuses().last())
                == AmdStatus::Success,
            r matches Err(e) ==> e == AmdError(
                spec_status_from(final(smi).native().statuses().last()),
            ),
            r matches Ok(v) ==> v == final(smi).native().last_temperature(),
    {
        let (status, temperature) = smi.lib.temperature_call(self.token, sensor_type, metric);
        accept_on_success(status, temperature)
    }

    /// Retrieve the voltage of one rail of this processor, for the given
    /// metric.
    pub fn device_voltage<L: AmdNative>(
        &self,
        smi: &mut AmdSmi<L>,
        sensor_type: AmdVoltageType,
        metric: AmdVoltageMetric,
    ) -> (r: Result<i64, AmdError>)
        ensures
            same_lifecycle(old(smi).native(), final(smi).native()),
            same_topology(old(smi).native(), final(smi).native()),
            final(smi).native().calls() == old(smi).native().calls() + 1,
            final(smi).native().statuses() == old(smi).native().statuses().push(
                final(smi).native().statuses().last(),
            ),
            r is Ok <==> spec_status_from(final(smi).native().statuses().last())
                == AmdStatus::Success,
            r matches Err(e) ==> e == AmdError(
                spec_status_from(final(smi).native().statuses().last()),
            ),
            r matches Ok(v) ==> v == final(smi).native().last_voltage(),
    {
        let (status, voltage) = smi.lib.voltage_call(self.token, sensor_type, metric);
        accept_on_success(status, voltage)
    }

    /// Retrieve the list of processes running on this processor, by the
    /// growing shape of the retrieval protocol.
    ///
    /// The probe accepts either success or insufficient capacity; a zero
    /// count then yields an empty list at once. Otherwise the fill call is
    /// retried, adopting each reported larger count as the new buffer size,
    /// until it succeeds, fails with a status other than insufficient
    /// capacity, or exhausts [`MAX_GROWTH_ATTEMPTS`].
    pub fn device_process_list<L: AmdNative>(&self, smi: &mut AmdSmi<L>) -> (r: Result<
        Vec<AmdProcInfo>,
        AmdError,
    >)
        ensures
            same_lifecycle(old(smi).native(), final(smi).native()),
            same_topology(old(smi).native(), final(smi).native()),
            old(smi).native().calls() + 1 <= final(smi).native().calls(),
            final(smi).native().calls() <= old(smi).native().calls() + 1
                + MAX_GROWTH_ATTEMPTS as nat,
            final(smi).native().statuses().len() == old(smi).native().statuses().len() + (
            final(smi).native().calls() - old(smi).native().calls()),
            final(smi).native().counts().len() == old(smi).native().counts().len() + (
            final(smi).native().calls() - old(smi).native().calls()),
            final(smi).native().fill_capacities().len() == old(
                smi,
            ).native().fill_capacities().len() + (final(smi).native().calls() - old(
                smi,
            ).native().calls() - 1),
            forall|k: int|
                0 <= k < final(smi).native().calls() - old(smi).native().calls() - 1
                    ==> #[trigger] final(smi).native().fill_capacities()[old(
                    smi,
                ).native().fill_capacities().len() as int + k] == final(smi).native().counts()[old(
                    smi,
                ).native().counts().len() as int + k],
            r matches Err(e) ==> e == AmdError(
                spec_status_from(final(smi).native().statuses().last()),
            ),
            r matches Err(e) ==> e.0 != AmdStatus::Success,
            ({
                let probe = spec_status_from(
                    final(smi).native().statuses()[old(smi).native().statuses().len() as int],
                );
                probe != AmdStatus::Success && probe != AmdStatus::OutOfResources ==> r is Err
                    && final(smi).native().calls() == old(smi).native().calls() + 1
            }),
            ({
                let probe = spec_status_from(
                    final(smi).native().statuses()[old(smi).native().statuses().len() as int],
                );
                let probe_count = final(smi).native().counts()[old(
                    smi,
                ).native().counts().len() as int];
                (probe == AmdStatus::Success || probe == AmdStatus::OutOfResources)
                    && probe_count == 0 ==> (r matches Ok(v) && v@.len() == 0
                    && final(smi).native().calls() == old(smi).native().calls() + 1)
            }),
            r matches Ok(v) ==> (final(smi).native().calls() == old(smi).native().calls() + 1
                ==> v@.len() == 0 && final(smi).native().counts()[old(
                smi,
            ).native().counts().len() as int] == 0),
            r matches Ok(v) ==> (final(smi).native().calls() > old(smi).native().calls() + 1
                ==> {
                    &&& spec_status_from(final(smi).native().statuses().last())
                        == AmdStatus::Success
                    &&& v@ == final(smi).native().last_process_entries()
                    &&& v@.len() == final(smi).native().counts().last() as nat
                }),
    {
        let ghost base_s = old(smi).native().statuses().len();
        let ghost base_c = old(smi).native().counts().len();
        let ghost base_f = old(smi).native().fill_capacities().len();
        let (status, count) = smi.lib.process_count_call(self.token);
        let ghost probe_status = status;
        let ghost probe_count = count;
        let probe = AmdStatus::from(status);
        if !(probe == AmdStatus::Success || probe == AmdStatus::OutOfResources) {
            return Err(AmdError(probe));
        }
        if count == 0 {
            return Ok(Vec::new());
        }
        let mut capacity = count;
        let mut attempts: u32 = 0;
        while attempts < MAX_GROWTH_ATTEMPTS
            invariant
                attempts <= MAX_GROWTH_ATTEMPTS,
                same_lifecycle(old(smi).native(), smi.native()),
                same_topology(old(smi).native(), smi.native()),
                smi.native().calls() == old(smi).native().calls() + 1 + attempts as nat,
                base_s == old(smi).native().statuses().len(),
                base_c == old(smi).native().counts().len(),
                smi.native().statuses().len() == base_s + 1 + attempts as nat,
                smi.native().counts().len() == base_c + 1 + attempts as nat,
                smi.native().statuses()[base_s as int] == probe_status,
                smi.native().counts()[base_c as int] == probe_count,
                base_f == old(smi).native().fill_capacities().len(),
                smi.native().fill_capacities().len() == base_f + attempts as nat,
                capacity == smi.native().counts()[base_c as int + attempts as int],
                forall|k: int|
                    0 <= k < attempts ==> #[trigger] smi.native().fill_capacities()[base_f as int
                        + k] == smi.native().counts()[base_c as int + k],
                spec_status_from(probe_status) == AmdStatus::Success || spec_status_from(
                    probe_status,
                ) == AmdStatus::OutOfResources,
                probe_count != 0,
                attempts > 0 ==> spec_status_from(smi.native().statuses().last())
                    == AmdStatus::OutOfResources,
            decreases MAX_GROWTH_ATTEMPTS - attempts,
        {
            let (status, written, entries) = smi.lib.process_fill_call(self.token, capacity);
            let outcome = AmdStatus::from(status);
            if outcome == AmdStatus::Success {
                return Ok(entries);
            } else if outcome == AmdStatus::OutOfResources {
                capacity = written;
                attempts = attempts + 1;
            } else {
                return Err(AmdError(outcome));
            }
        }
        Err(AmdError(AmdStatus::OutOfResources))
    }
}

} // verus!
