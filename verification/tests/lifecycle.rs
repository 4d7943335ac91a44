//! Lifecycle: a successful init followed by releasing everything invokes the
//! native shutdown exactly once, whatever was derived in between and in
//! whatever order it was dropped.

use amd_smi::flags::ALL_PROCESSORS_BITS;
use amd_smi::flags::AMD_APUS_BITS;
use amd_smi::flags::AMD_GPUS_BITS;
use amd_smi::scripted::CallKind;
use amd_smi::status::AmdStatus;
use amd_smi::status::CODE_INVAL;
use amd_smi::AmdError;
use amd_smi::AmdInitError;
use amd_smi::AmdSmi;
use amd_smi::InitFlags;
use amd_smi::ScriptedNative;

fn flag_combinations() -> Vec<InitFlags> {
    vec![
        InitFlags::all_processors(),
        InitFlags::amd_cpus(),
        InitFlags::amd_gpus(),
        InitFlags::amd_apus(),
        InitFlags::non_amd_cpus(),
        InitFlags::non_amd_gpus(),
        InitFlags::amd_cpus().union(InitFlags::amd_gpus()),
        InitFlags::amd_gpus().union(InitFlags::non_amd_gpus()),
        InitFlags::empty(),
    ]
}

#[test]
fn init_then_stop_shuts_down_exactly_once() {
    for flags in flag_combinations() {
        let lib = ScriptedNative::new();
        let smi = AmdSmi::init(lib, flags).unwrap();
        let (outcome, lib) = smi.stop();
        assert_eq!(outcome, Ok(()));
        assert_eq!(lib.init_flags_seen, vec![flags.bits()]);
        assert_eq!(lib.shutdown_statuses.len(), 1);
        assert_eq!(lib.call_log, vec![CallKind::Init, CallKind::ShutDown]);
    }
}

#[test]
fn shutdown_is_once_with_handles_dropped_in_any_order() {
    let mut lib = ScriptedNative::new();
    lib.socket_tokens = vec![5, 6];
    lib.processor_map = vec![(5, vec![50, 51]), (6, vec![60])];
    let mut smi = AmdSmi::init(lib, InitFlags::amd_gpus()).unwrap();

    let sockets = smi.socket_handles().unwrap();
    let procs_a = sockets[0].processor_handles(&mut smi).unwrap();
    let procs_b = sockets[1].processor_handles(&mut smi).unwrap();

    // Release children before their socket, sockets in reverse order.
    drop(procs_b);
    drop(sockets);
    drop(procs_a);

    let (outcome, lib) = smi.stop();
    assert_eq!(outcome, Ok(()));
    assert_eq!(lib.shutdown_statuses.len(), 1);
    assert_eq!(lib.init_flags_seen.len(), 1);
}

#[test]
fn failed_init_reports_the_native_status_and_never_shuts_down() {
    let mut lib = ScriptedNative::new();
    lib.init_status = CODE_INVAL;
    match AmdSmi::init(lib, InitFlags::all_processors()) {
        Err(AmdInitError::Init(e)) => assert_eq!(e, AmdError(AmdStatus::Inval)),
        other => panic!("expected an initialization error, got {:?}", other.is_ok()),
    }
}

#[test]
fn stop_surfaces_a_failing_shutdown_status() {
    let mut lib = ScriptedNative::new();
    lib.shut_down_status = CODE_INVAL;
    let smi = AmdSmi::init(lib, InitFlags::amd_gpus()).unwrap();
    let (outcome, lib) = smi.stop();
    assert_eq!(outcome, Err(AmdError(AmdStatus::Inval)));
    // The shutdown entry point still ran exactly once.
    assert_eq!(lib.shutdown_statuses.len(), 1);
}

#[test]
fn flag_masks_carry_the_vendor_bits() {
    assert_eq!(InitFlags::all_processors().bits(), ALL_PROCESSORS_BITS);
    assert_eq!(InitFlags::amd_apus().bits(), AMD_APUS_BITS);
    assert_eq!(
        InitFlags::amd_cpus().union(InitFlags::amd_gpus()).bits(),
        AMD_GPUS_BITS | 0x1
    );
    assert!(InitFlags::all_processors().contains(InitFlags::amd_gpus()));
    assert!(!InitFlags::amd_cpus().contains(InitFlags::amd_gpus()));
    assert!(InitFlags::amd_apus().contains(InitFlags::amd_gpus()));
    assert_eq!(InitFlags::empty().bits(), 0);
}
