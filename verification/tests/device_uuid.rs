//! The string shape of the retrieval protocol: terminator handling and text
//! decoding.

use amd_smi::status::AmdStatus;
use amd_smi::status::CODE_NOT_SUPPORTED;
use amd_smi::AmdError;
use amd_smi::AmdSmi;
use amd_smi::InitFlags;
use amd_smi::ScriptedNative;

fn gpu_with_uuid(bytes: Vec<u8>) -> AmdSmi<ScriptedNative> {
    let mut lib = ScriptedNative::new();
    lib.socket_tokens = vec![1];
    lib.processor_map = vec![(1, vec![10])];
    lib.uuid_bytes = bytes;
    AmdSmi::init(lib, InitFlags::amd_gpus()).unwrap()
}

fn read_uuid(smi: &mut AmdSmi<ScriptedNative>) -> Result<String, AmdError> {
    let sockets = smi.socket_handles().unwrap();
    let procs = sockets[0].processor_handles(smi).unwrap();
    procs[0].device_uuid(smi)
}

#[test]
fn a_terminated_report_decodes_to_the_bytes_before_the_terminator() {
    let mut smi = gpu_with_uuid(b"83ff74f0-0000-1000-8000-1b626ed663e4\0".to_vec());
    assert_eq!(
        read_uuid(&mut smi).unwrap(),
        "83ff74f0-0000-1000-8000-1b626ed663e4"
    );
}

#[test]
fn an_unterminated_report_decodes_to_the_whole_reported_prefix() {
    // The reported length covers exactly these bytes and none of them is a
    // terminator: one is synthesized after the prefix.
    let mut smi = gpu_with_uuid(b"83ff74f0-0000-1000-8000-1b626ed663e4".to_vec());
    assert_eq!(
        read_uuid(&mut smi).unwrap(),
        "83ff74f0-0000-1000-8000-1b626ed663e4"
    );
}

#[test]
fn an_early_terminator_cuts_the_text_there() {
    let mut smi = gpu_with_uuid(b"abc\0def\0".to_vec());
    assert_eq!(read_uuid(&mut smi).unwrap(), "abc");
}

#[test]
fn multi_byte_text_decodes_as_utf8() {
    let mut smi = gpu_with_uuid("gpu-\u{00e9}\u{4e2d}\0".as_bytes().to_vec());
    assert_eq!(read_uuid(&mut smi).unwrap(), "gpu-\u{00e9}\u{4e2d}");
}

#[test]
fn an_empty_report_decodes_to_the_empty_text() {
    let mut smi = gpu_with_uuid(Vec::new());
    assert_eq!(read_uuid(&mut smi).unwrap(), "");
}

#[test]
fn a_decode_failure_reports_the_status_of_the_producing_call() {
    // Invalid text encoding: the error carries the status of the native call
    // that produced the bytes, which reported success.
    let mut smi = gpu_with_uuid(vec![0xff, 0xfe, 0xfd]);
    assert_eq!(read_uuid(&mut smi), Err(AmdError(AmdStatus::Success)));
}

#[test]
fn a_failing_identifier_call_surfaces_its_status() {
    let mut lib = ScriptedNative::new();
    lib.socket_tokens = vec![1];
    lib.processor_map = vec![(1, vec![10])];
    lib.uuid_bytes = b"irrelevant\0".to_vec();
    lib.uuid_status = CODE_NOT_SUPPORTED;
    let mut smi = AmdSmi::init(lib, InitFlags::amd_gpus()).unwrap();
    assert_eq!(read_uuid(&mut smi), Err(AmdError(AmdStatus::NotSupported)));
}
