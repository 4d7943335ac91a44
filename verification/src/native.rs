//! The capability interface over the native telemetry library.
//!
//! Every foreign entry point the crate relies on appears here as a method of
//! [`AmdNative`], stated over plain values. The trait also carries a
//! mathematical model of the backend: the socket, processor, and identifier
//! data the library currently exposes, and observers for what the entry
//! points were handed and what they reported — how often each kind of call
//! ran, the status and count of each call in order, and the values the most
//! recent query of each kind wrote. The retrieval protocols are verified
//! against this model, so their contracts can attribute every outcome to the
//! reply that produced it.
//!
//! Two implementations exist. [`crate::scripted::ScriptedNative`] is a
//! programmable test double, defined and verified in this crate. The
//! production implementation loads the vendor's shared library and forwards
//! each method to the matching entry point; it lives in the unverified
//! application layer, and holding it to the contracts below is the documented
//! external assumption of this crate. In particular the model treats the
//! socket and processor topology and the device identifier as stable while
//! the library is initialized, which is how the vendor documents them;
//! telemetry readings and the process list are left free to differ between
//! calls, and the observers only record what a call did report.
//!
//! The native library is not documented as reentrant: callers that share one
//! backend across threads must serialize access themselves, which the
//! exclusive references below enforce structurally.

use vstd::prelude::*;

use crate::status::AmdStatus;
use crate::status::spec_status_from;
use crate::values::AmdEngineUsage;
use crate::values::AmdEnergyConsumptionInfo;
use crate::values::AmdMemoryType;
use crate::values::AmdPowerInfo;
use crate::values::AmdProcInfo;
use crate::values::AmdTemperatureMetric;
use crate::values::AmdTemperatureType;
use crate::values::AmdVoltageMetric;
use crate::values::AmdVoltageType;

verus! {

/// The two backends expose the same socket and processor tokens and the same
/// device identifiers.
pub open spec fn same_topology<L: AmdNative>(a: L, b: L) -> bool {
    &&& a.sockets() == b.sockets()
    &&& forall|s: u64| #[trigger] a.processors(s) == b.processors(s)
    &&& forall|p: u64| #[trigger] a.uuid_reported(p) == b.uuid_reported(p)
}

/// The two backends have seen the same number of initialization and shutdown
/// calls.
pub open spec fn same_lifecycle<L: AmdNative>(a: L, b: L) -> bool {
    &&& a.inits() == b.inits()
    &&& a.shutdowns() == b.shutdowns()
}

/// One native entry point for each operation the crate performs.
///
/// Every method makes exactly one native call, appends the raw status code
/// that call returned to [`statuses`], and reports it; a method whose call
/// reports a count appends that count to [`counts`] as well. Data the call
/// writes through output pointers is handed back by value. A method promises
/// something about that data only where the vendor documents it and only for
/// a call that reported success.
///
/// The model functions carry default bodies so that a backend outside the
/// verifier's reach, such as the loaded vendor library, can implement only
/// the executable methods; a backend defined in verified code overrides them
/// with its real model.
///
/// [`statuses`]: AmdNative::statuses
/// [`counts`]: AmdNative::counts
pub trait AmdNative: Sized {
    /// How many native entry-point invocations this backend has made.
    open spec fn calls(&self) -> nat {
        0
    }

    /// How many times the initialization entry point was invoked.
    open spec fn inits(&self) -> nat {
        0
    }

    /// How many times the shutdown entry point was invoked.
    open spec fn shutdowns(&self) -> nat {
        0
    }

    /// The raw status code of every native call made, in call order.
    open spec fn statuses(&self) -> Seq<u32> {
        Seq::empty()
    }

    /// The count reported by every native call that reports one (the
    /// enumeration probes and fills, the identifier query's length, and the
    /// process-list calls), in call order.
    open spec fn counts(&self) -> Seq<u32> {
        Seq::empty()
    }

    /// The flag mask the most recent initialization call was handed.
    open spec fn last_init_flags(&self) -> u64 {
        0
    }

    /// The socket tokens the backend currently exposes, in enumeration order.
    open spec fn sockets(&self) -> Seq<u64> {
        Seq::empty()
    }

    /// The processor tokens under the given socket token, in enumeration
    /// order. Empty for a token the backend does not expose.
    open spec fn processors(&self, socket: u64) -> Seq<u64> {
        Seq::empty()
    }

    /// The bytes a device-identifier query writes for the given processor
    /// token; the reported length is the length of this sequence.
    open spec fn uuid_reported(&self, processor: u64) -> Seq<u8> {
        Seq::empty()
    }

    /// The snapshot the most recent engine-usage call wrote.
    open spec fn last_activity(&self) -> AmdEngineUsage {
        AmdEngineUsage {
            average_gfx_activity: 0,
            average_umc_activity: 0,
            average_mm_activity: 0,
        }
    }

    /// The snapshot the most recent energy call wrote.
    open spec fn last_energy(&self) -> AmdEnergyConsumptionInfo {
        AmdEnergyConsumptionInfo { energy: 0, resolution_bits: 0, timestamp: 0 }
    }

    /// The byte count the most recent memory-usage call wrote.
    open spec fn last_memory_used(&self) -> u64 {
        0
    }

    /// The snapshot the most recent power call wrote.
    open spec fn last_power(&self) -> AmdPowerInfo {
        AmdPowerInfo {
            current_socket_power: 0,
            average_socket_power: 0,
            gfx_voltage: 0,
            soc_voltage: 0,
            mem_voltage: 0,
            power_limit: 0,
        }
    }

    /// The flag the most recent power-management call wrote.
    open spec fn last_power_management(&self) -> bool {
        false
    }

    /// The reading the most recent temperature call wrote.
    open spec fn last_temperature(&self) -> i64 {
        0
    }

    /// The reading the most recent voltage call wrote.
    open spec fn last_voltage(&self) -> i64 {
        0
    }

    /// The records the most recent process-list fill call handed back.
    open spec fn last_process_entries(&self) -> Seq<AmdProcInfo> {
        Seq::empty()
    }

    /// The buffer capacity handed to every process-list fill call, in call
    /// order.
    open spec fn fill_capacities(&self) -> Seq<u32> {
        Seq::empty()
    }

    /// Initialize the library for the hardware classes in `flags`.
    fn init_call(&mut self, flags: u64) -> (status: u32)
        ensures
            final(self).calls() == old(self).calls() + 1,
            final(self).inits() == old(self).inits() + 1,
            final(self).shutdowns() == old(self).shutdowns(),
            final(self).statuses() == old(self).statuses().push(status),
            final(self).counts() == old(self).counts(),
            final(self).last_init_flags() == flags,
            final(self).sockets() == old(self).sockets(),
            forall|s: u64| #[trigger] final(self).processors(s) == old(self).processors(s),
            forall|p: u64| #[trigger] final(self).uuid_reported(p) == old(self).uuid_reported(p),
    ;

    /// Shut the library down and release its internal resources.
    fn shut_down_call(&mut self) -> (status: u32)
        ensures
            final(self).calls() == old(self).calls() + 1,
            final(self).inits() == old(self).inits(),
            final(self).shutdowns() == old(self).shutdowns() + 1,
            final(self).statuses() == old(self).statuses().push(status),
            final(self).counts() == old(self).counts(),
            final(self).sockets() == old(self).sockets(),
            forall|s: u64| #[trigger] final(self).processors(s) == old(self).processors(s),
            forall|p: u64| #[trigger] final(self).uuid_reported(p) == old(self).uuid_reported(p),
    ;

    /// First phase of socket enumeration: ask for the socket count, passing
    /// no output buffer. Returns the raw status and the reported count.
    fn socket_count_call(&mut self) -> (r: (u32, u32))
        ensures
            final(self).calls() == old(self).calls() + 1,
            final(self).inits() == old(self).inits(),
            final(self).shutdowns() == old(self).shutdowns(),
            final(self).statuses() == old(self).statuses().push(r.0),
            final(self).counts() == old(self).counts().push(r.1),
            final(self).sockets() == old(self).sockets(),
            forall|s: u64| #[trigger] final(self).processors(s) == old(self).processors(s),
            forall|p: u64| #[trigger] final(self).uuid_reported(p) == old(self).uuid_reported(p),
            spec_status_from(r.0) == AmdStatus::Success ==> r.1 as nat == old(
                self,
            ).sockets().len(),
    ;

    /// Second phase of socket enumeration: hand over a zeroed buffer of
    /// `capacity` entries to be filled. Returns the raw status, the count the
    /// call reported back, and the buffer. On success the native call fills
    /// the first `min(capacity, count)` entries and leaves the rest as
    /// allocated.
    fn socket_fill_call(&mut self, capacity: u32) -> (r: (u32, u32, Vec<u64>))
        ensures
            final(self).calls() == old(self).calls() + 1,
            final(self).inits() == old(self).inits(),
            final(self).shutdowns() == old(self).shutdowns(),
            final(self).statuses() == old(self).statuses().push(r.0),
            final(self).counts() == old(self).counts().push(r.1),
            final(self).sockets() == old(self).sockets(),
            forall|s: u64| #[trigger] final(self).processors(s) == old(self).processors(s),
            forall|p: u64| #[trigger] final(self).uuid_reported(p) == old(self).uuid_reported(p),
            spec_status_from(r.0) == AmdStatus::Success ==> {
                &&& r.1 as nat == old(self).sockets().len()
                &&& r.2@.len() == capacity as nat
                &&& forall|i: int|
                    0 <= i < capacity as int && i < old(self).sockets().len() ==> r.2@[i] == old(
                        self,
                    ).sockets()[i]
            },
    ;

    /// First phase of processor enumeration under one socket token.
    fn processor_count_call(&mut self, socket: u64) -> (r: (u32, u32))
        ensures
            final(self).calls() == old(self).calls() + 1,
            final(self).inits() == old(self).inits(),
            final(self).shutdowns() == old(self).shutdowns(),
            final(self).statuses() == old(self).statuses().push(r.0),
            final(self).counts() == old(self).counts().push(r.1),
            final(self).sockets() == old(self).sockets(),
            forall|s: u64| #[trigger] final(self).processors(s) == old(self).processors(s),
            forall|p: u64| #[trigger] final(self).uuid_reported(p) == old(self).uuid_reported(p),
            spec_status_from(r.0) == AmdStatus::Success ==> r.1 as nat == old(self).processors(
                socket,
            ).len(),
    ;

    /// Second phase of processor enumeration under one socket token.
    fn processor_fill_call(&mut self, socket: u64, capacity: u32) -> (r: (u32, u32, Vec<u64>))
        ensures
            final(self).calls() == old(self).calls() + 1,
            final(self).inits() == old(self).inits(),
            final(self).shutdowns() == old(self).shutdowns(),
            final(self).statuses() == old(self).statuses().push(r.0),
            final(self).counts() == old(self).counts().push(r.1),
            final(self).sockets() == old(self).sockets(),
            forall|s: u64| #[trigger] final(self).processors(s) == old(self).processors(s),
            forall|p: u64| #[trigger] final(self).uuid_reported(p) == old(self).uuid_reported(p),
            spec_status_from(r.0) == AmdStatus::Success ==> {
                &&& r.1 as nat == old(self).processors(socket).len()
                &&& r.2@.len() == capacity as nat
                &&& forall|i: int|
                    0 <= i < capacity as int && i < old(self).processors(socket).len()
                        ==> r.2@[i] == old(self).processors(socket)[i]
            },
    ;

    /// Device-identifier query: hand over a zeroed byte buffer of `capacity`
    /// entries and a length variable initialized to that capacity. Returns
    /// the raw status, the reported length, and the buffer. On success the
    /// reported bytes stand at the front of the buffer; the vendor does not
    /// promise a terminator within the reported length.
    fn uuid_call(&mut self, processor: u64, capacity: u32) -> (r: (u32, u32, Vec<u8>))
        ensures
            final(self).calls() == old(self).calls() + 1,
            final(self).inits() == old(self).inits(),
            final(self).shutdowns() == old(self).shutdowns(),
            final(self).statuses() == old(self).statuses().push(r.0),
            final(self).counts() == old(self).counts().push(r.1),
            final(self).sockets() == old(self).sockets(),
            forall|s: u64| #[trigger] final(self).processors(s) == old(self).processors(s),
            forall|p: u64| #[trigger] final(self).uuid_reported(p) == old(self).uuid_reported(p),
            spec_status_from(r.0) == AmdStatus::Success ==> {
                &&& r.1 as nat == old(self).uuid_reported(processor).len()
                &&& r.1 as nat <= capacity as nat
                &&& r.2@.len() == capacity as nat
                &&& r.2@.take(r.1 as int) == old(self).uuid_reported(processor)
            },
    ;

    /// Engine-usage query. The reading is volatile: nothing is promised about
    /// the value beyond full initialization on success.
    fn activity_call(&mut self, processor: u64) -> (r: (u32, AmdEngineUsage))
        ensures
            final(self).calls() == old(self).calls() + 1,
            final(self).inits() == old(self).inits(),
            final(self).shutdowns() == old(self).shutdowns(),
            final(self).statuses() == old(self).statuses().push(r.0),
            final(self).counts() == old(self).counts(),
            final(self).last_activity() == r.1,
            final(self).sockets() == old(self).sockets(),
            forall|s: u64| #[trigger] final(self).processors(s) == old(self).processors(s),
            forall|p: u64| #[trigger] final(self).uuid_reported(p) == old(self).uuid_reported(p),
    ;

    /// Energy-counter query. The reading is volatile.
    fn energy_call(&mut self, processor: u64) -> (r: (u32, AmdEnergyConsumptionInfo))
        ensures
            final(self).calls() == old(self).calls() + 1,
            final(self).inits() == old(self).inits(),
            final(self).shutdowns() == old(self).shutdowns(),
            final(self).statuses() == old(self).statuses().push(r.0),
            final(self).counts() == old(self).counts(),
            final(self).last_energy() == r.1,
            final(self).sockets() == old(self).sockets(),
            forall|s: u64| #[trigger] final(self).processors(s) == old(self).processors(s),
            forall|p: u64| #[trigger] final(self).uuid_reported(p) == old(self).uuid_reported(p),
    ;

    /// Memory-usage query for one memory kind. The reading is volatile.
    fn memory_usage_call(&mut self, processor: u64, mem_type: AmdMemoryType) -> (r: (u32, u64))
        ensures
            final(self).calls() == old(self).calls() + 1,
            final(self).inits() == old(self).inits(),
            final(self).shutdowns() == old(self).shutdowns(),
            final(self).statuses() == old(self).statuses().push(r.0),
            final(self).counts() == old(self).counts(),
            final(self).last_memory_used() == r.1,
            final(self).sockets() == old(self).sockets(),
            forall|s: u64| #[trigger] final(self).processors(s) == old(self).processors(s),
            forall|p: u64| #[trigger] final(self).uuid_reported(p) == old(self).uuid_reported(p),
    ;

    /// Power-consumption query. The reading is volatile.
    fn power_info_call(&mut self, processor: u64) -> (r: (u32, AmdPowerInfo))
        ensures
            final(self).calls() == old(self).calls() + 1,
            final(self).inits() == old(self).inits(),
            final(self).shutdowns() == old(self).shutdowns(),
            final(self).statuses() == old(self).statuses().push(r.0),
            final(self).counts() == old(self).counts(),
            final(self).last_power() == r.1,
            final(self).sockets() == old(self).sockets(),
            forall|s: u64| #[trigger] final(self).processors(s) == old(self).processors(s),
            forall|p: u64| #[trigger] final(self).uuid_reported(p) == old(self).uuid_reported(p),
    ;

    /// Power-management-enabled query.
    fn power_management_call(&mut self, processor: u64) -> (r: (u32, bool))
        ensures
            final(self).calls() == old(self).calls() + 1,
            final(self).inits() == old(self).inits(),
            final(self).shutdowns() == old(self).shutdowns(),
            final(self).statuses() == old(self).statuses().push(r.0),
            final(self).counts() == old(self).counts(),
            final(self).last_power_management() == r.1,
            final(self).sockets() == old(self).sockets(),
            forall|s: u64| #[trigger] final(self).processors(s) == old(self).processors(s),
            forall|p: u64| #[trigger] final(self).uuid_reported(p) == old(self).uuid_reported(p),
    ;

    /// Temperature query for one sensor and metric. The reading is volatile.
    fn temperature_call(
        &mut self,
        processor: u64,
        sensor: AmdTemperatureType,
        metric: AmdTemperatureMetric,
    ) -> (r: (u32, i64))
        ensures
            final(self).calls() == old(self).calls() + 1,
            final(self).inits() == old(self).inits(),
            final(self).shutdowns() == old(self).shutdowns(),
            final(self).statuses() == old(self).statuses().push(r.0),
            final(self).counts() == old(self).counts(),
            final(self).last_temperature() == r.1,
            final(self).sockets() == old(self).sockets(),
            forall|s: u64| #[trigger] final(self).processors(s) == old(self).processors(s),
            forall|p: u64| #[trigger] final(self).uuid_reported(p) == old(self).uuid_reported(p),
    ;

    /// Voltage query for one rail and metric. The reading is volatile.
    fn voltage_call(
        &mut self,
        processor: u64,
        sensor: AmdVoltageType,
        metric: AmdVoltageMetric,
    ) -> (r: (u32, i64))
        ensures
            final(self).calls() == old(self).calls() + 1,
            final(self).inits() == old(self).inits(),
            final(self).shutdowns() == old(self).shutdowns(),
            final(self).statuses() == old(self).statuses().push(r.0),
            final(self).counts() == old(self).counts(),
            final(self).last_voltage() == r.1,
            final(self).sockets() == old(self).sockets(),
            forall|s: u64| #[trigger] final(self).processors(s) == old(self).processors(s),
            forall|p: u64| #[trigger] final(self).uuid_reported(p) == old(self).uuid_reported(p),
    ;

    /// First phase of the process-list query, passing no output buffer.
    /// Returns the raw status and the reported process count. The list is
    /// volatile: the count may differ on the next call.
    fn process_count_call(&mut self, processor: u64) -> (r: (u32, u32))
        ensures
            final(self).calls() == old(self).calls() + 1,
            final(self).inits() == old(self).inits(),
            final(self).shutdowns() == old(self).shutdowns(),
            final(self).statuses() == old(self).statuses().push(r.0),
            final(self).counts() == old(self).counts().push(r.1),
            final(self).fill_capacities() == old(self).fill_capacities(),
            final(self).sockets() == old(self).sockets(),
            forall|s: u64| #[trigger] final(self).processors(s) == old(self).processors(s),
            forall|p: u64| #[trigger] final(self).uuid_reported(p) == old(self).uuid_reported(p),
    ;

    /// Second phase of the process-list query with a buffer of `capacity`
    /// records. On success the reported count is the number of records
    /// written, at most `capacity`, and exactly those records are returned.
    /// On an out-of-resources status the reported count is the capacity a
    /// retry needs.
    fn process_fill_call(&mut self, processor: u64, capacity: u32) -> (r: (
        u32,
        u32,
        Vec<AmdProcInfo>,
    ))
        ensures
            final(self).calls() == old(self).calls() + 1,
            final(self).inits() == old(self).inits(),
            final(self).shutdowns() == old(self).shutdowns(),
            final(self).statuses() == old(self).statuses().push(r.0),
            final(self).counts() == old(self).counts().push(r.1),
            final(self).fill_capacities() == old(self).fill_capacities().push(capacity),
            final(self).last_process_entries() == r.2@,
            final(self).sockets() == old(self).sockets(),
            forall|s: u64| #[trigger] final(self).processors(s) == old(self).processors(s),
            forall|p: u64| #[trigger] final(self).uuid_reported(p) == old(self).uuid_reported(p),
            spec_status_from(r.0) == AmdStatus::Success ==> {
                &&& r.1 as nat <= capacity as nat
                &&& r.2@.len() == r.1 as nat
            },
    ;
}

} // verus!
