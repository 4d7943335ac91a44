//! Single-shot telemetry queries, and the end-to-end scenario.

use amd_smi::status::AmdStatus;
use amd_smi::status::CODE_NO_PERM;
use amd_smi::values::AmdEngineUsage;
use amd_smi::values::AmdEnergyConsumptionInfo;
use amd_smi::values::AmdMemoryType;
use amd_smi::values::AmdPowerInfo;
use amd_smi::values::AmdTemperatureMetric;
use amd_smi::values::AmdTemperatureType;
use amd_smi::values::AmdVoltageMetric;
use amd_smi::values::AmdVoltageType;
use amd_smi::AmdError;
use amd_smi::AmdSmi;
use amd_smi::InitFlags;
use amd_smi::ScriptedNative;

#[test]
fn end_to_end_memory_usage_is_the_native_count_unchanged() {
    // Init with the AMD-GPU flag only; one socket carrying two processors;
    // the memory query hands the native-reported byte count through.
    let mut lib = ScriptedNative::new();
    lib.socket_tokens = vec![77];
    lib.processor_map = vec![(77, vec![700, 701])];
    lib.memory_used = 123_456_789;
    let mut smi = AmdSmi::init(lib, InitFlags::amd_gpus()).unwrap();

    let sockets = smi.socket_handles().unwrap();
    assert_eq!(sockets.len(), 1);
    let procs = sockets[0].processor_handles(&mut smi).unwrap();
    assert_eq!(procs.len(), 2);

    let used = procs[0]
        .device_memory_usage(&mut smi, AmdMemoryType::Vram)
        .unwrap();
    assert_eq!(used, 123_456_789);

    let (outcome, lib) = smi.stop();
    assert_eq!(outcome, Ok(()));
    assert_eq!(lib.init_flags_seen, vec![InitFlags::amd_gpus().bits()]);
    assert_eq!(lib.shutdown_statuses.len(), 1);
}

fn one_gpu(lib: ScriptedNative) -> AmdSmi<ScriptedNative> {
    let mut lib = lib;
    lib.socket_tokens = vec![1];
    lib.processor_map = vec![(1, vec![10])];
    AmdSmi::init(lib, InitFlags::amd_gpus()).unwrap()
}

#[test]
fn activity_reports_the_scripted_snapshot() {
    let mut lib = ScriptedNative::new();
    lib.activity = AmdEngineUsage {
        average_gfx_activity: 83,
        average_umc_activity: 12,
        average_mm_activity: 5,
    };
    let mut smi = one_gpu(lib);
    let sockets = smi.socket_handles().unwrap();
    let procs = sockets[0].processor_handles(&mut smi).unwrap();
    let usage = procs[0].device_activity(&mut smi).unwrap();
    assert_eq!(usage.average_gfx_activity, 83);
    assert_eq!(usage.average_umc_activity, 12);
    assert_eq!(usage.average_mm_activity, 5);
}

#[test]
fn energy_consumption_carries_the_counter_resolution_bits() {
    let mut lib = ScriptedNative::new();
    lib.energy = AmdEnergyConsumptionInfo {
        energy: 987_654_321,
        resolution_bits: 15.3f32.to_bits(),
        timestamp: 1_700_000_000,
    };
    let mut smi = one_gpu(lib);
    let sockets = smi.socket_handles().unwrap();
    let procs = sockets[0].processor_handles(&mut smi).unwrap();
    let snapshot = procs[0].device_energy_consumption(&mut smi).unwrap();
    assert_eq!(snapshot.energy, 987_654_321);
    assert_eq!(snapshot.timestamp, 1_700_000_000);
    assert_eq!(f32::from_bits(snapshot.resolution_bits), 15.3f32);
}

#[test]
fn power_consumption_reports_the_scripted_snapshot() {
    let mut lib = ScriptedNative::new();
    lib.power = AmdPowerInfo {
        current_socket_power: 220,
        average_socket_power: 180,
        gfx_voltage: 850,
        soc_voltage: 900,
        mem_voltage: 1250,
        power_limit: 300,
    };
    let mut smi = one_gpu(lib);
    let sockets = smi.socket_handles().unwrap();
    let procs = sockets[0].processor_handles(&mut smi).unwrap();
    let info = procs[0].device_power_consumption(&mut smi).unwrap();
    assert_eq!(info.current_socket_power, 220);
    assert_eq!(info.power_limit, 300);
}

#[test]
fn power_management_reports_the_scripted_flag() {
    let mut lib = ScriptedNative::new();
    lib.power_management = true;
    let mut smi = one_gpu(lib);
    let sockets = smi.socket_handles().unwrap();
    let procs = sockets[0].processor_handles(&mut smi).unwrap();
    assert!(procs[0].device_power_managment(&mut smi).unwrap());
}

#[test]
fn temperature_and_voltage_report_the_scripted_readings() {
    let mut lib = ScriptedNative::new();
    lib.temperature = -12;
    lib.voltage = 803;
    let mut smi = one_gpu(lib);
    let sockets = smi.socket_handles().unwrap();
    let procs = sockets[0].processor_handles(&mut smi).unwrap();
    assert_eq!(
        procs[0]
            .device_temperature(
                &mut smi,
                AmdTemperatureType::Edge,
                AmdTemperatureMetric::Current
            )
            .unwrap(),
        -12
    );
    assert_eq!(
        procs[0]
            .device_voltage(&mut smi, AmdVoltageType::Vddgfx, AmdVoltageMetric::Current)
            .unwrap(),
        803
    );
}

#[test]
fn a_failing_query_surfaces_its_status_and_exposes_no_value() {
    let mut lib = ScriptedNative::new();
    lib.memory_used = 555;
    lib.telemetry_status = CODE_NO_PERM;
    let mut smi = one_gpu(lib);
    let sockets = smi.socket_handles().unwrap();
    let procs = sockets[0].processor_handles(&mut smi).unwrap();
    assert_eq!(
        procs[0].device_memory_usage(&mut smi, AmdMemoryType::Gtt),
        Err(AmdError(AmdStatus::NoPerm))
    );
    assert_eq!(
        procs[0].device_activity(&mut smi),
        Err(AmdError(AmdStatus::NoPerm))
    );
    assert_eq!(
        procs[0].device_power_managment(&mut smi),
        Err(AmdError(AmdStatus::NoPerm))
    );
}

#[test]
fn selector_raw_codes_match_the_vendor_interface() {
    assert_eq!(AmdMemoryType::Vram.raw_code(), 0);
    assert_eq!(AmdMemoryType::VisVram.raw_code(), 1);
    assert_eq!(AmdMemoryType::Gtt.raw_code(), 2);
    assert_eq!(AmdTemperatureType::Edge.raw_code(), 0);
    assert_eq!(AmdTemperatureType::Hotspot.raw_code(), 1);
    assert_eq!(AmdTemperatureMetric::Current.raw_code(), 0);
    assert_eq!(AmdVoltageType::Vddgfx.raw_code(), 0);
    assert_eq!(AmdVoltageMetric::Current.raw_code(), 0);
}
