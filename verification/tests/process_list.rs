//! The growing-buffer shape of the retrieval protocol.

use amd_smi::scripted::CallKind;
use amd_smi::scripted::ProcessReply;
use amd_smi::status::AmdStatus;
use amd_smi::status::CODE_NO_PERM;
use amd_smi::status::CODE_OUT_OF_RESOURCES;
use amd_smi::status::CODE_SUCCESS;
use amd_smi::values::AmdProcInfo;
use amd_smi::AmdError;
use amd_smi::AmdSmi;
use amd_smi::InitFlags;
use amd_smi::ScriptedNative;

fn record(pid: u32) -> AmdProcInfo {
    AmdProcInfo {
        name: b"proc".to_vec(),
        pid,
        mem: 1024 * pid as u64,
        gfx_engine_used: 10,
        enc_engine_used: 0,
        gtt_mem: 1,
        cpu_mem: 2,
        vram_mem: 3,
        container_name: Vec::new(),
        cu_occupancy: 50,
    }
}

fn gpu_with_replies(replies: Vec<ProcessReply>) -> AmdSmi<ScriptedNative> {
    let mut lib = ScriptedNative::new();
    lib.socket_tokens = vec![1];
    lib.processor_map = vec![(1, vec![10])];
    lib.process_replies = replies;
    AmdSmi::init(lib, InitFlags::amd_gpus()).unwrap()
}

#[test]
fn growth_converges_in_three_calls_and_returns_five_entries() {
    let mut smi = gpu_with_replies(vec![
        // Probe: insufficient capacity, current estimate 2.
        ProcessReply { status: CODE_OUT_OF_RESOURCES, count: 2, entries: Vec::new() },
        // First retry at size 2: still insufficient, 5 needed.
        ProcessReply { status: CODE_OUT_OF_RESOURCES, count: 5, entries: Vec::new() },
        // Second retry at size 5: success with exactly 5 records.
        ProcessReply {
            status: CODE_SUCCESS,
            count: 5,
            entries: vec![record(1), record(2), record(3), record(4), record(5)],
        },
    ]);
    let sockets = smi.socket_handles().unwrap();
    let procs = sockets[0].processor_handles(&mut smi).unwrap();

    let list = procs[0].device_process_list(&mut smi).unwrap();
    assert_eq!(list.len(), 5);
    assert_eq!(list[0], record(1));
    assert_eq!(list[4], record(5));

    let (_, lib) = smi.stop();
    // Exactly three native calls: one probe and two retries.
    assert!(lib.process_replies.is_empty());
    let process_calls: Vec<CallKind> = lib
        .call_log
        .iter()
        .copied()
        .filter(|c| *c == CallKind::ProcessCount || *c == CallKind::ProcessFill)
        .collect();
    assert_eq!(
        process_calls,
        vec![CallKind::ProcessCount, CallKind::ProcessFill, CallKind::ProcessFill]
    );
    // Each retry adopts the previous insufficient-capacity count verbatim.
    assert_eq!(lib.process_fill_capacities, vec![2, 5]);
}

#[test]
fn a_zero_count_probe_yields_an_empty_list_at_once() {
    let mut smi = gpu_with_replies(vec![ProcessReply {
        status: CODE_SUCCESS,
        count: 0,
        entries: Vec::new(),
    }]);
    let sockets = smi.socket_handles().unwrap();
    let procs = sockets[0].processor_handles(&mut smi).unwrap();
    let list = procs[0].device_process_list(&mut smi).unwrap();
    assert!(list.is_empty());
    let (_, lib) = smi.stop();
    // Only the probe consumed a reply.
    assert!(lib.process_replies.is_empty());
}

#[test]
fn a_successful_probe_count_is_used_for_one_fill() {
    let mut smi = gpu_with_replies(vec![
        ProcessReply { status: CODE_SUCCESS, count: 2, entries: Vec::new() },
        ProcessReply { status: CODE_SUCCESS, count: 2, entries: vec![record(7), record(8)] },
    ]);
    let sockets = smi.socket_handles().unwrap();
    let procs = sockets[0].processor_handles(&mut smi).unwrap();
    let list = procs[0].device_process_list(&mut smi).unwrap();
    assert_eq!(list, vec![record(7), record(8)]);
}

#[test]
fn a_hard_error_during_growth_aborts() {
    let mut smi = gpu_with_replies(vec![
        ProcessReply { status: CODE_OUT_OF_RESOURCES, count: 3, entries: Vec::new() },
        ProcessReply { status: CODE_NO_PERM, count: 0, entries: Vec::new() },
    ]);
    let sockets = smi.socket_handles().unwrap();
    let procs = sockets[0].processor_handles(&mut smi).unwrap();
    assert_eq!(
        procs[0].device_process_list(&mut smi),
        Err(AmdError(AmdStatus::NoPerm))
    );
}

#[test]
fn a_hard_error_at_the_probe_aborts() {
    let mut smi = gpu_with_replies(vec![ProcessReply {
        status: CODE_NO_PERM,
        count: 9,
        entries: Vec::new(),
    }]);
    let sockets = smi.socket_handles().unwrap();
    let procs = sockets[0].processor_handles(&mut smi).unwrap();
    assert_eq!(
        procs[0].device_process_list(&mut smi),
        Err(AmdError(AmdStatus::NoPerm))
    );
}

#[test]
fn endless_growth_is_cut_off_with_the_last_status() {
    // A probe and more insufficient-capacity replies than the retry bound.
    let mut replies = vec![ProcessReply {
        status: CODE_OUT_OF_RESOURCES,
        count: 1,
        entries: Vec::new(),
    }];
    for _ in 0..20 {
        replies.push(ProcessReply {
            status: CODE_OUT_OF_RESOURCES,
            count: 2,
            entries: Vec::new(),
        });
    }
    let mut smi = gpu_with_replies(replies);
    let sockets = smi.socket_handles().unwrap();
    let procs = sockets[0].processor_handles(&mut smi).unwrap();
    assert_eq!(
        procs[0].device_process_list(&mut smi),
        Err(AmdError(AmdStatus::OutOfResources))
    );
    let (_, lib) = smi.stop();
    // One probe and a bounded number of retries were issued; the script was
    // not drained. The first retry uses the probe's count, every later one
    // the count of the preceding insufficient-capacity reply, verbatim.
    assert!(!lib.process_replies.is_empty());
    assert_eq!(lib.process_fill_capacities[0], 1);
    for capacity in lib.process_fill_capacities.iter().skip(1) {
        assert_eq!(*capacity, 2);
    }
}
