//! A programmable test double for the native capability interface.
//!
//! [`ScriptedNative`] honors the same contracts as the loader-backed
//! implementation, so the retrieval protocols can be exercised against any
//! scripted topology, telemetry values, status codes, and process-list reply
//! sequence — including the error and growth paths that real hardware rarely
//! produces. The double records every native call in plain fields — which
//! entry point ran, the status and count it reported, the capacities handed
//! to process-list fills — so a test can observe exactly what happened.

use vstd::prelude::*;

use crate::native::AmdNative;
use crate::status::AmdStatus;
use crate::status::CODE_SUCCESS;
use crate::status::CODE_UNKNOWN_ERROR;
use crate::values::AmdEngineUsage;
use crate::values::AmdEnergyConsumptionInfo;
use crate::values::AmdMemoryType;
use crate::values::AmdPowerInfo;
use crate::values::AmdProcInfo;
use crate::values::AmdTemperatureMetric;
use crate::values::AmdTemperatureType;
use crate::values::AmdVoltageMetric;
use crate::values::AmdVoltageType;

verus! {

/// Which native entry point a recorded call went to.
#[derive(Clone, Copy, Debug, PartialEq, Eq, Structural)]
pub enum CallKind {
    Init,
    ShutDown,
    SocketCount,
    SocketFill,
    ProcessorCount,
    ProcessorFill,
    Uuid,
    Activity,
    Energy,
    MemoryUsage,
    PowerInfo,
    PowerManagement,
    Temperature,
    Voltage,
    ProcessCount,
    ProcessFill,
}

/// One scripted reply to a process-list call: the raw status to report, the
/// count to report, and the records to hand back.
pub struct ProcessReply {
    /// Raw status code of this reply.
    pub status: u32,
    /// Count the call reports back.
    pub count: u32,
    /// Records the call writes.
    pub entries: Vec<AmdProcInfo>,
}

/// The processor tokens scripted under the first entry that carries the given
/// socket token; empty when no entry does.
pub open spec fn lookup_processors(entries: Seq<(u64, Vec<u64>)>, socket: u64) -> Seq<u64>
    decreases entries.len(),
{
    if entries.len() == 0 {
        Seq::empty()
    } else if entries[0].0 == socket {
        entries[0].1@
    } else {
        lookup_processors(entries.drop_first(), socket)
    }
}

/// Skipping entries whose socket token does not match leaves the lookup
/// unchanged.
proof fn lemma_lookup_skip(entries: Seq<(u64, Vec<u64>)>, socket: u64, i: int)
    requires
        0 <= i <= entries.len(),
        forall|j: int| 0 <= j < i ==> (#[trigger] entries[j]).0 != socket,
    ensures
        lookup_processors(entries, socket) == lookup_processors(entries.skip(i), socket),
    decreases i,
{
    if i > 0 {
        lemma_lookup_skip(entries, socket, i - 1);
        let rest = entries.skip(i - 1);
        assert(rest[0] == entries[i - 1]);
        assert(rest.drop_first() =~= entries.skip(i));
    } else {
        assert(entries.skip(0) =~= entries);
    }
}

/// The programmable double: a backend whose topology, telemetry values,
/// status codes, and process-list replies are plain data a test sets up.
///
/// Process-list replies are consumed front to back, one per native call, by
/// both the probe and the fill calls; an exhausted script reports the unknown
/// error status. Initialization and shutdown calls are recorded in
/// [`init_flags_seen`] and [`shutdown_statuses`].
///
/// [`init_flags_seen`]: ScriptedNative::init_flags_seen
/// [`shutdown_statuses`]: ScriptedNative::shutdown_statuses
pub struct ScriptedNative {
    /// Socket tokens the double exposes, in enumeration order.
    pub socket_tokens: Vec<u64>,
    /// Processor tokens per socket token; the first matching entry wins.
    pub processor_map: Vec<(u64, Vec<u64>)>,
    /// Identifier bytes reported for every processor.
    pub uuid_bytes: Vec<u8>,
    /// Scripted replies for process-list calls.
    pub process_replies: Vec<ProcessReply>,
    /// Engine-usage snapshot every activity query reports.
    pub activity: AmdEngineUsage,
    /// Energy snapshot every energy query reports.
    pub energy: AmdEnergyConsumptionInfo,
    /// Byte count every memory-usage query reports.
    pub memory_used: u64,
    /// Power snapshot every power query reports.
    pub power: AmdPowerInfo,
    /// Flag every power-management query reports.
    pub power_management: bool,
    /// Reading every temperature query reports.
    pub temperature: i64,
    /// Reading every voltage query reports.
    pub voltage: i64,
    /// Raw status of initialization calls.
    pub init_status: u32,
    /// Raw status of shutdown calls.
    pub shut_down_status: u32,
    /// Raw status of socket enumeration calls.
    pub socket_status: u32,
    /// Raw status of processor enumeration calls.
    pub processor_status: u32,
    /// Raw status of identifier calls.
    pub uuid_status: u32,
    /// Raw status of single-shot telemetry calls.
    pub telemetry_status: u32,
    /// Flag masks handed to the initialization entry point, in order.
    pub init_flags_seen: Vec<u64>,
    /// Statuses handed back by the shutdown entry point, in order.
    pub shutdown_statuses: Vec<u32>,
    /// Every native call made, in order: one entry per entry-point invocation.
    pub call_log: Vec<CallKind>,
    /// Raw status reported by every native call, in call order.
    pub status_log: Vec<u32>,
    /// Count reported by every count-reporting native call, in call order.
    pub count_log: Vec<u32>,
    /// Capacity handed to every process-list fill call, in call order.
    pub process_fill_capacities: Vec<u32>,
    /// Records the most recent process-list fill call handed back.
    pub last_fill_entries: Ghost<Seq<AmdProcInfo>>,
}

impl ScriptedNative {
    /// A double with no sockets, empty scripts, zeroed telemetry, and every
    /// status set to success.
    pub fn new() -> (r: ScriptedNative)
        ensures
            r.calls() == 0,
            r.inits() == 0,
            r.shutdowns() == 0,
            r.sockets().len() == 0,
            r.process_replies@.len() == 0,
    {
        ScriptedNative {
            socket_tokens: Vec::new(),
            processor_map: Vec::new(),
            uuid_bytes: Vec::new(),
            process_replies: Vec::new(),
            activity: AmdEngineUsage {
                average_gfx_activity: 0,
                average_umc_activity: 0,
                average_mm_activity: 0,
            },
            energy: AmdEnergyConsumptionInfo { energy: 0, resolution_bits: 0, timestamp: 0 },
            memory_used: 0,
            power: AmdPowerInfo {
                current_socket_power: 0,
                average_socket_power: 0,
                gfx_voltage: 0,
                soc_voltage: 0,
                mem_voltage: 0,
                power_limit: 0,
            },
            power_management: false,
            temperature: 0,
            voltage: 0,
            init_status: CODE_SUCCESS,
            shut_down_status: CODE_SUCCESS,
            socket_status: CODE_SUCCESS,
            processor_status: CODE_SUCCESS,
            uuid_status: CODE_SUCCESS,
            telemetry_status: CODE_SUCCESS,
            init_flags_seen: Vec::new(),
            shutdown_statuses: Vec::new(),
            call_log: Vec::new(),
            status_log: Vec::new(),
            count_log: Vec::new(),
            process_fill_capacities: Vec::new(),
            last_fill_entries: Ghost(Seq::empty()),
        }
    }

    /// The scripted processor tokens under one socket token.
    fn processors_of(&self, socket: u64) -> (r: Vec<u64>)
        ensures
            r@ == lookup_processors(self.processor_map@, socket),
    {
        let mut i: usize = 0;
        while i < self.processor_map.len()
            invariant
                0 <= i <= self.processor_map@.len(),
                forall|j: int| 0 <= j < i ==> (#[trigger] self.processor_map@[j]).0 != socket,
            decreases self.processor_map@.len() - i,
        {
            let entry = &self.processor_map[i];
            if entry.0 == socket {
                let found = &self.processor_map[i].1;
                let mut out: Vec<u64> = Vec::new();
                let mut k: usize = 0;
                while k < found.len()
                    invariant
                        0 <= k <= found@.len(),
                        out@.len() == k as nat,
                        forall|j: int| 0 <= j < k ==> out@[j] == found@[j],
                    decreases found@.len() - k,
                {
                    out.push(found[k]);
                    k = k + 1;
                }
                proof {
                    lemma_lookup_skip(self.processor_map@, socket, i as int);
                    assert(self.processor_map@.skip(i as int)[0] == self.processor_map@[i as int]);
                    assert(out@ =~= self.processor_map@[i as int].1@);
                }
                return out;
            }
            i = i + 1;
        }
        proof {
            lemma_lookup_skip(self.processor_map@, socket, self.processor_map@.len() as int);
            assert(self.processor_map@.skip(self.processor_map@.len() as int).len() == 0);
        }
        Vec::new()
    }
}

impl AmdNative for ScriptedNative {
    open spec fn calls(&self) -> nat {
        self.call_log@.len()
    }

    open spec fn inits(&self) -> nat {
        self.init_flags_seen@.len()
    }

    open spec fn shutdowns(&self) -> nat {
        self.shutdown_statuses@.len()
    }

    open spec fn statuses(&self) -> Seq<u32> {
        self.status_log@
    }

    open spec fn counts(&self) -> Seq<u32> {
        self.count_log@
    }

    open spec fn last_init_flags(&self) -> u64 {
        if self.init_flags_seen@.len() == 0 {
            0
        } else {
            self.init_flags_seen@.last()
        }
    }

    open spec fn last_activity(&self) -> AmdEngineUsage {
        self.activity
    }

    open spec fn last_energy(&self) -> AmdEnergyConsumptionInfo {
        self.energy
    }

    open spec fn last_memory_used(&self) -> u64 {
        self.memory_used
    }

    open spec fn last_power(&self) -> AmdPowerInfo {
        self.power
    }

    open spec fn last_power_management(&self) -> bool {
        self.power_management
    }

    open spec fn last_temperature(&self) -> i64 {
        self.temperature
    }

    open spec fn last_voltage(&self) -> i64 {
        self.voltage
    }

    open spec fn last_process_entries(&self) -> Seq<AmdProcInfo> {
        self.last_fill_entries@
    }

    open spec fn fill_capacities(&self) -> Seq<u32> {
        self.process_fill_capacities@
    }

    open spec fn sockets(&self) -> Seq<u64> {
        self.socket_tokens@
    }

    open spec fn processors(&self, socket: u64) -> Seq<u64> {
        lookup_processors(self.processor_map@, socket)
    }

    open spec fn uuid_reported(&self, processor: u64) -> Seq<u8> {
        self.uuid_bytes@
    }

    fn init_call(&mut self, flags: u64) -> (status: u32) {
        self.call_log.push(CallKind::Init);
        self.init_flags_seen.push(flags);
        self.status_log.push(self.init_status);
        self.init_status
    }

    fn shut_down_call(&mut self) -> (status: u32) {
        self.call_log.push(CallKind::ShutDown);
        let status = self.shut_down_status;
        self.shutdown_statuses.push(status);
        self.status_log.push(status);
        status
    }

    fn socket_count_call(&mut self) -> (r: (u32, u32)) {
        self.call_log.push(CallKind::SocketCount);
        if self.socket_tokens.len() > u32::MAX as usize {
            self.status_log.push(CODE_UNKNOWN_ERROR);
            self.count_log.push(0);
            return (CODE_UNKNOWN_ERROR, 0);
        }
        let count = self.socket_tokens.len() as u32;
        self.status_log.push(self.socket_status);
        self.count_log.push(count);
        (self.socket_status, count)
    }

    fn socket_fill_call(&mut self, capacity: u32) -> (r: (u32, u32, Vec<u64>)) {
        self.call_log.push(CallKind::SocketFill);
        if self.socket_tokens.len() > u32::MAX as usize {
            self.status_log.push(CODE_UNKNOWN_ERROR);
            self.count_log.push(0);
            return (CODE_UNKNOWN_ERROR, 0, Vec::new());
        }
        let count = self.socket_tokens.len() as u32;
        self.status_log.push(self.socket_status);
        self.count_log.push(count);
        let cap = capacity as usize;
        let mut buf: Vec<u64> = Vec::new();
        let mut i: usize = 0;
        while i < cap
            invariant
                0 <= i <= cap,
                buf@.len() == i as nat,
                forall|j: int|
                    0 <= j < i && j < self.socket_tokens@.len() ==> buf@[j]
                        == self.socket_tokens@[j],
            decreases cap - i,
        {
            if i < self.socket_tokens.len() {
                buf.push(self.socket_tokens[i]);
            } else {
                buf.push(0);
            }
            i = i + 1;
        }
        (self.socket_status, count, buf)
    }

    fn processor_count_call(&mut self, socket: u64) -> (r: (u32, u32)) {
        self.call_log.push(CallKind::ProcessorCount);
        let found = self.processors_of(socket);
        if found.len() > u32::MAX as usize {
            self.status_log.push(CODE_UNKNOWN_ERROR);
            self.count_log.push(0);
            return (CODE_UNKNOWN_ERROR, 0);
        }
        let count = found.len() as u32;
        self.status_log.push(self.processor_status);
        self.count_log.push(count);
        (self.processor_status, count)
    }

    fn processor_fill_call(&mut self, socket: u64, capacity: u32) -> (r: (u32, u32, Vec<u64>)) {
        self.call_log.push(CallKind::ProcessorFill);
        let found = self.processors_of(socket);
        if found.len() > u32::MAX as usize {
            self.status_log.push(CODE_UNKNOWN_ERROR);
            self.count_log.push(0);
            return (CODE_UNKNOWN_ERROR, 0, Vec::new());
        }
        let count = found.len() as u32;
        self.status_log.push(self.processor_status);
        self.count_log.push(count);
        let cap = capacity as usize;
        let mut buf: Vec<u64> = Vec::new();
        let mut i: usize = 0;
        while i < cap
            invariant
                0 <= i <= cap,
                buf@.len() == i as nat,
                forall|j: int| 0 <= j < i && j < found@.len() ==> buf@[j] == found@[j],
            decreases cap - i,
        {
            if i < found.len() {
                buf.push(found[i]);
            } else {
                buf.push(0);
            }
            i = i + 1;
        }
        (self.processor_status, count, buf)
    }

    fn uuid_call(&mut self, processor: u64, capacity: u32) -> (r: (u32, u32, Vec<u8>)) {
        self.call_log.push(CallKind::Uuid);
        if self.uuid_bytes.len() > capacity as usize {
            self.status_log.push(CODE_UNKNOWN_ERROR);
            self.count_log.push(0);
            return (CODE_UNKNOWN_ERROR, 0, Vec::new());
        }
        let length = self.uuid_bytes.len() as u32;
        self.status_log.push(self.uuid_status);
        self.count_log.push(length);
        let cap = capacity as usize;
        let mut buf: Vec<u8> = Vec::new();
        let mut i: usize = 0;
        while i < cap
            invariant
                0 <= i <= cap,
                buf@.len() == i as nat,
                forall|j: int| 0 <= j < i && j < self.uuid_bytes@.len() ==> buf@[j]
                    == self.uuid_bytes@[j],
            decreases cap - i,
        {
            if i < self.uuid_bytes.len() {
                buf.push(self.uuid_bytes[i]);
            } else {
                buf.push(0);
            }
            i = i + 1;
        }
        proof {
            assert(buf@.take(length as int) =~= self.uuid_bytes@);
        }
        (self.uuid_status, length, buf)
    }

    fn activity_call(&mut self, processor: u64) -> (r: (u32, AmdEngineUsage)) {
        self.call_log.push(CallKind::Activity);
        self.status_log.push(self.telemetry_status);
        (self.telemetry_status, self.activity)
    }

    fn energy_call(&mut self, processor: u64) -> (r: (u32, AmdEnergyConsumptionInfo)) {
        self.call_log.push(CallKind::Energy);
        self.status_log.push(self.telemetry_status);
        (self.telemetry_status, self.energy)
    }

    fn memory_usage_call(&mut self, processor: u64, mem_type: AmdMemoryType) -> (r: (u32, u64)) {
        self.call_log.push(CallKind::MemoryUsage);
        self.status_log.push(self.telemetry_status);
        (self.telemetry_status, self.memory_used)
    }

    fn power_info_call(&mut self, processor: u64) -> (r: (u32, AmdPowerInfo)) {
        self.call_log.push(CallKind::PowerInfo);
        self.status_log.push(self.telemetry_status);
        (self.telemetry_status, self.power)
    }

    fn power_management_call(&mut self, processor: u64) -> (r: (u32, bool)) {
        self.call_log.push(CallKind::PowerManagement);
        self.status_log.push(self.telemetry_status);
        (self.telemetry_status, self.power_management)
    }

    fn temperature_call(
        &mut self,
        processor: u64,
        sensor: AmdTemperatureType,
        metric: AmdTemperatureMetric,
    ) -> (r: (u32, i64)) {
        self.call_log.push(CallKind::Temperature);
        self.status_log.push(self.telemetry_status);
        (self.telemetry_status, self.temperature)
    }

    fn voltage_call(
        &mut self,
        processor: u64,
        sensor: AmdVoltageType,
        metric: AmdVoltageMetric,
    ) -> (r: (u32, i64)) {
        self.call_log.push(CallKind::Voltage);
        self.status_log.push(self.telemetry_status);
        (self.telemetry_status, self.voltage)
    }

    fn process_count_call(&mut self, processor: u64) -> (r: (u32, u32)) {
        self.call_log.push(CallKind::ProcessCount);
        if self.process_replies.len() == 0 {
            self.status_log.push(CODE_UNKNOWN_ERROR);
            self.count_log.push(0);
            return (CODE_UNKNOWN_ERROR, 0);
        }
        let reply = self.process_replies.remove(0);
        self.status_log.push(reply.status);
        self.count_log.push(reply.count);
        (reply.status, reply.count)
    }

    fn process_fill_call(&mut self, processor: u64, capacity: u32) -> (r: (
        u32,
        u32,
        Vec<AmdProcInfo>,
    )) {
        self.call_log.push(CallKind::ProcessFill);
        self.process_fill_capacities.push(capacity);
        if self.process_replies.len() == 0 {
            self.status_log.push(CODE_UNKNOWN_ERROR);
            self.count_log.push(0);
            self.last_fill_entries = Ghost(Seq::empty());
            return (CODE_UNKNOWN_ERROR, 0, Vec::new());
        }
        let reply = self.process_replies.remove(0);
        let status = reply.status;
        let converted = AmdStatus::from(status);
        if converted == AmdStatus::Success {
            let mut entries = reply.entries;
            let mut n: usize = reply.count as usize;
            if n > capacity as usize {
                n = capacity as usize;
            }
            if n > entries.len() {
                n = entries.len();
            }
            entries.truncate(n);
            self.status_log.push(status);
            self.count_log.push(n as u32);
            self.last_fill_entries = Ghost(entries@);
            (status, n as u32, entries)
        } else {
            self.status_log.push(status);
            self.count_log.push(reply.count);
            self.last_fill_entries = Ghost(reply.entries@);
            (status, reply.count, reply.entries)
        }
    }
}

} // verus!
