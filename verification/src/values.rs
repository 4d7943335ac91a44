//! Value objects carried across the native boundary.
//!
//! The native library fills fixed, vendor-defined structures. The types here
//! hold the same data as plain values; the selector enumerations carry the
//! vendor's raw codes through [`raw_code`] methods, so the layer that makes
//! the foreign calls does not re-derive them.
//!
//! [`raw_code`]: AmdMemoryType::raw_code

use vstd::prelude::*;

verus! {

/// Engine usage snapshot of one processor, in percent.
#[derive(Clone, Copy, Debug, PartialEq, Eq, Structural)]
pub struct AmdEngineUsage {
    /// Average graphics engine activity.
    pub average_gfx_activity: u32,
    /// Average memory controller activity.
    pub average_umc_activity: u32,
    /// Average multimedia engine activity.
    pub average_mm_activity: u32,
}

/// Power consumption snapshot of one processor.
#[derive(Clone, Copy, Debug, PartialEq, Eq, Structural)]
pub struct AmdPowerInfo {
    /// Current socket power, in watts.
    pub current_socket_power: u32,
    /// Average socket power, in watts.
    pub average_socket_power: u32,
    /// Graphics rail voltage, in millivolts.
    pub gfx_voltage: u32,
    /// SoC rail voltage, in millivolts.
    pub soc_voltage: u32,
    /// Memory rail voltage, in millivolts.
    pub mem_voltage: u32,
    /// Configured power limit, in watts.
    pub power_limit: u32,
}

/// Energy consumption snapshot of one processor. A value object, recomputed
/// on each query.
#[derive(Clone, Copy, Debug, PartialEq, Eq, Structural)]
pub struct AmdEnergyConsumptionInfo {
    /// Cumulative energy since boot, in micro-joules.
    pub energy: u64,
    /// Resolution of the energy counter in micro-joules, kept as the raw bit
    /// pattern of the 32-bit floating-point value the native library reports.
    /// The crate carries it uninterpreted; callers that need the numeric value
    /// reconstruct it from these bits.
    pub resolution_bits: u32,
    /// Timestamp of the sample, in nanoseconds.
    pub timestamp: u64,
}

/// One process running on a processor, as the native process list reports it.
#[derive(Clone, Debug, PartialEq, Eq)]
pub struct AmdProcInfo {
    /// Process name bytes.
    pub name: Vec<u8>,
    /// Process identifier.
    pub pid: u32,
    /// Total memory in use by the process, in bytes.
    pub mem: u64,
    /// Graphics engine time used, in nanoseconds.
    pub gfx_engine_used: u64,
    /// Encode engine time used, in nanoseconds.
    pub enc_engine_used: u64,
    /// Graphics translation table memory in use, in bytes.
    pub gtt_mem: u64,
    /// CPU-visible memory in use, in bytes.
    pub cpu_mem: u64,
    /// Video memory in use, in bytes.
    pub vram_mem: u64,
    /// Container name bytes, when the process runs in one.
    pub container_name: Vec<u8>,
    /// Compute unit occupancy, in percent.
    pub cu_occupancy: u32,
}

/// Memory kind a memory-usage query selects.
#[derive(Clone, Copy, Debug, PartialEq, Eq, Structural)]
pub enum AmdMemoryType {
    /// Video memory.
    Vram,
    /// CPU-visible video memory.
    VisVram,
    /// Graphics translation table memory.
    Gtt,
}

impl AmdMemoryType {
    /// The vendor's raw code for this selector.
    pub open spec fn spec_raw_code(&self) -> u32 {
        match self {
            AmdMemoryType::Vram => 0,
            AmdMemoryType::VisVram => 1,
            AmdMemoryType::Gtt => 2,
        }
    }

    /// The vendor's raw code for this selector.
    pub fn raw_code(&self) -> (r: u32)
        ensures
            r == self.spec_raw_code(),
    {
        match self {
            AmdMemoryType::Vram => 0,
            AmdMemoryType::VisVram => 1,
            AmdMemoryType::Gtt => 2,
        }
    }
}

/// Sensor a temperature query reads.
#[derive(Clone, Copy, Debug, PartialEq, Eq, Structural)]
pub enum AmdTemperatureType {
    /// Edge of the die.
    Edge,
    /// Hottest point of the die.
    Hotspot,
    /// Video memory.
    Vram,
    /// First high-bandwidth memory stack.
    Hbm0,
    /// Second high-bandwidth memory stack.
    Hbm1,
    /// Third high-bandwidth memory stack.
    Hbm2,
    /// Fourth high-bandwidth memory stack.
    Hbm3,
    /// PCIe switch.
    Plx,
}

impl AmdTemperatureType {
    /// The vendor's raw code for this sensor.
    pub open spec fn spec_raw_code(&self) -> u32 {
        match self {
            AmdTemperatureType::Edge => 0,
            AmdTemperatureType::Hotspot => 1,
            AmdTemperatureType::Vram => 2,
            AmdTemperatureType::Hbm0 => 3,
            AmdTemperatureType::Hbm1 => 4,
            AmdTemperatureType::Hbm2 => 5,
            AmdTemperatureType::Hbm3 => 6,
            AmdTemperatureType::Plx => 7,
        }
    }

    /// The vendor's raw code for this sensor.
    pub fn raw_code(&self) -> (r: u32)
        ensures
            r == self.spec_raw_code(),
    {
        match self {
            AmdTemperatureType::Edge => 0,
            AmdTemperatureType::Hotspot => 1,
            AmdTemperatureType::Vram => 2,
            AmdTemperatureType::Hbm0 => 3,
            AmdTemperatureType::Hbm1 => 4,
            AmdTemperatureType::Hbm2 => 5,
            AmdTemperatureType::Hbm3 => 6,
            AmdTemperatureType::Plx => 7,
        }
    }
}

/// Which temperature value a query reads from a sensor.
#[derive(Clone, Copy, Debug, PartialEq, Eq, Structural)]
pub enum AmdTemperatureMetric {
    /// Current temperature.
    Current,
    /// Maximum observed temperature.
    Max,
    /// Minimum observed temperature.
    Min,
    /// Critical threshold.
    Critical,
    /// Emergency threshold.
    Emergency,
}

impl AmdTemperatureMetric {
    /// The vendor's raw code for this metric.
    pub open spec fn spec_raw_code(&self) -> u32 {
        match self {
            AmdTemperatureMetric::Current => 0,
            AmdTemperatureMetric::Max => 1,
            AmdTemperatureMetric::Min => 2,
            AmdTemperatureMetric::Critical => 5,
            AmdTemperatureMetric::Emergency => 7,
        }
    }

    /// The vendor's raw code for this metric.
    pub fn raw_code(&self) -> (r: u32)
        ensures
            r == self.spec_raw_code(),
    {
        match self {
            AmdTemperatureMetric::Current => 0,
            AmdTemperatureMetric::Max => 1,
            AmdTemperatureMetric::Min => 2,
            AmdTemperatureMetric::Critical => 5,
            AmdTemperatureMetric::Emergency => 7,
        }
    }
}

/// Voltage rail a voltage query reads.
#[derive(Clone, Copy, Debug, PartialEq, Eq, Structural)]
pub enum AmdVoltageType {
    /// Graphics rail.
    Vddgfx,
    /// Board rail.
    Vddboard,
}

impl AmdVoltageType {
    /// The vendor's raw code for this rail.
    pub open spec fn spec_raw_code(&self) -> u32 {
        match self {
            AmdVoltageType::Vddgfx => 0,
            AmdVoltageType::Vddboard => 1,
        }
    }

    /// The vendor's raw code for this rail.
    pub fn raw_code(&self) -> (r: u32)
        ensures
            r == self.spec_raw_code(),
    {
        match self {
            AmdVoltageType::Vddgfx => 0,
            AmdVoltageType::Vddboard => 1,
        }
    }
}

/// Which voltage value a query reads from a rail.
#[derive(Clone, Copy, Debug, PartialEq, Eq, Structural)]
pub enum AmdVoltageMetric {
    /// Current voltage.
    Current,
    /// Maximum observed voltage.
    Max,
    /// Minimum observed voltage.
    Min,
    /// Average voltage.
    Average,
}

impl AmdVoltageMetric {
    /// The vendor's raw code for this metric.
    pub open spec fn spec_raw_code(&self) -> u32 {
        match self {
            AmdVoltageMetric::Current => 0,
            AmdVoltageMetric::Max => 1,
            AmdVoltageMetric::Min => 3,
            AmdVoltageMetric::Average => 5,
        }
    }

    /// The vendor's raw code for this metric.
    pub fn raw_code(&self) -> (r: u32)
        ensures
            r == self.spec_raw_code(),
    {
        match self {
            AmdVoltageMetric::Current => 0,
            AmdVoltageMetric::Max => 1,
            AmdVoltageMetric::Min => 3,
            AmdVoltageMetric::Average => 5,
        }
    }
}

} // verus!
