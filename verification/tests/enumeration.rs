//! Socket and processor enumeration: the exact two-call shape.

use amd_smi::scripted::CallKind;
use amd_smi::status::AmdStatus;
use amd_smi::status::CODE_NO_PERM;
use amd_smi::status::CODE_SUCCESS;
use amd_smi::AmdError;
use amd_smi::AmdSmi;
use amd_smi::InitFlags;
use amd_smi::ScriptedNative;

#[test]
fn zero_sockets_yield_an_empty_result_without_a_second_call() {
    let lib = ScriptedNative::new();
    let mut smi = AmdSmi::init(lib, InitFlags::amd_gpus()).unwrap();
    let sockets = smi.socket_handles().unwrap();
    assert!(sockets.is_empty());
    let (_, lib) = smi.stop();
    // One probe call only: the fill call was never issued.
    assert_eq!(
        lib.call_log,
        vec![CallKind::Init, CallKind::SocketCount, CallKind::ShutDown]
    );
}

#[test]
fn n_sockets_yield_n_handles_sharing_the_instance() {
    let mut lib = ScriptedNative::new();
    lib.socket_tokens = vec![11, 22, 33];
    let mut smi = AmdSmi::init(lib, InitFlags::amd_gpus()).unwrap();
    let sockets = smi.socket_handles().unwrap();
    assert_eq!(sockets.len(), 3);
    assert_eq!(sockets[0].token(), 11);
    assert_eq!(sockets[1].token(), 22);
    assert_eq!(sockets[2].token(), 33);
    // Every handle is usable against the same instance it was derived from.
    for socket in &sockets {
        assert_eq!(socket.processor_handles(&mut smi).unwrap().len(), 0);
    }
    let (_, lib) = smi.stop();
    assert_eq!(lib.call_log[1], CallKind::SocketCount);
    assert_eq!(lib.call_log[2], CallKind::SocketFill);
}

#[test]
fn processor_enumeration_is_scoped_to_the_socket_token() {
    let mut lib = ScriptedNative::new();
    lib.socket_tokens = vec![1, 2];
    lib.processor_map = vec![(1, vec![100, 101]), (2, vec![200])];
    let mut smi = AmdSmi::init(lib, InitFlags::amd_gpus()).unwrap();
    let sockets = smi.socket_handles().unwrap();

    let first = sockets[0].processor_handles(&mut smi).unwrap();
    assert_eq!(first.len(), 2);
    assert_eq!(first[0].token(), 100);
    assert_eq!(first[1].token(), 101);

    let second = sockets[1].processor_handles(&mut smi).unwrap();
    assert_eq!(second.len(), 1);
    assert_eq!(second[0].token(), 200);
}

#[test]
fn zero_processors_skip_the_fill_call() {
    let mut lib = ScriptedNative::new();
    lib.socket_tokens = vec![9];
    let mut smi = AmdSmi::init(lib, InitFlags::amd_gpus()).unwrap();
    let sockets = smi.socket_handles().unwrap();
    let procs = sockets[0].processor_handles(&mut smi).unwrap();
    assert!(procs.is_empty());
    let (_, lib) = smi.stop();
    assert_eq!(
        lib.call_log,
        vec![
            CallKind::Init,
            CallKind::SocketCount,
            CallKind::SocketFill,
            CallKind::ProcessorCount,
            CallKind::ShutDown,
        ]
    );
}

#[test]
fn a_failing_probe_surfaces_its_status() {
    let mut lib = ScriptedNative::new();
    lib.socket_tokens = vec![4];
    lib.socket_status = CODE_NO_PERM;
    let mut smi = AmdSmi::init(lib, InitFlags::amd_gpus()).unwrap();
    assert_eq!(smi.socket_handles(), Err(AmdError(AmdStatus::NoPerm)));
    let (_, lib) = smi.stop();
    // The error carries exactly the status the probe reported, and the fill
    // call never ran: one enumeration status between init and shutdown.
    assert_eq!(lib.status_log, vec![CODE_SUCCESS, CODE_NO_PERM, CODE_SUCCESS]);
}

#[test]
fn a_failing_processor_probe_surfaces_its_status() {
    let mut lib = ScriptedNative::new();
    lib.socket_tokens = vec![4];
    lib.processor_map = vec![(4, vec![40])];
    lib.processor_status = CODE_NO_PERM;
    let mut smi = AmdSmi::init(lib, InitFlags::amd_gpus()).unwrap();
    let sockets = smi.socket_handles().unwrap();
    assert_eq!(
        sockets[0].processor_handles(&mut smi),
        Err(AmdError(AmdStatus::NoPerm))
    );
}
