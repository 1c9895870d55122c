use video_summary_bot::error::Error;
use video_summary_bot::ipc::guest_agent::{
    check_sync, command_frame, rand_sync_id, sync_frame, AnswerReader, GaError, GaReply, GuestAgentClient,
};
use video_summary_bot::ipc::{ipc_path, serial_path};

#[test]
fn endpoint_paths() {
    assert_eq!(ipc_path("vm1", false), "/tmp/vsb-vm1.sock");
    assert_eq!(ipc_path("vm1", true), r"\\.\pipe\vsb-vm1");
    assert_eq!(serial_path("vm1", false), "/tmp/vsb-serial-vm1.sock");
    assert_eq!(serial_path("vm1", true), r"\\.\pipe\vsb-serial-vm1");
}

#[test]
fn frames() {
    assert_eq!(sync_frame(b"{}"), vec![0xFF, b'{', b'}', b'\n']);
    assert_eq!(command_frame(b"{}"), vec![b'{', b'}', b'\n']);
}

#[test]
fn reader_resets_on_delimiter_and_ends_on_newline() {
    let mut r = AnswerReader::new();
    let mut answer = None;
    for &b in b"junk\xFF{\"return\":1}\n".iter() {
        if let Some(line) = r.feed(b) {
            answer = Some(line);
            break;
        }
    }
    assert_eq!(answer.unwrap(), b"{\"return\":1}".to_vec());
}

#[test]
fn sync_checks() {
    assert!(check_sync(7, GaReply::Return(Some(7))).is_ok());
    match check_sync(7, GaReply::Return(Some(8))) {
        Err(Error::Ipc(m)) => assert_eq!(m, "sync ID mismatch: expected 7 got 8"),
        other => panic!("{:?}", other),
    }
    match check_sync(7, GaReply::Return(None)) {
        Err(Error::Ipc(m)) => assert_eq!(m, "sync ID mismatch: expected 7 got 0"),
        other => panic!("{:?}", other),
    }
    let e = GaError { class: "GenericError".into(), desc: "bad".into() };
    match check_sync(7, GaReply::Error(e.clone())) {
        Err(Error::Ipc(m)) => assert_eq!(m, "sync error: bad"),
        other => panic!("{:?}", other),
    }
    match GaReply::<u8>::Error(e).into_result() {
        Err(Error::Ipc(m)) => assert_eq!(m, "[GenericError] bad"),
        other => panic!("{:?}", other),
    }
    assert_eq!(GaReply::Return(5u8).into_result().unwrap(), 5);
}

#[test]
fn client_timeouts() {
    let c = GuestAgentClient::new("/tmp/s".to_string());
    assert_eq!(c.timeout_secs, 30);
    let c = c.with_timeout(5);
    assert_eq!(c.timeout_secs, 5);
    assert_eq!(c.serial_path, "/tmp/s");
    assert_eq!(c.serial_path, "/tmp/s");
}

#[test]
fn sync_ids() {
    assert_eq!(rand_sync_id(Some(5)), 5);
    assert_eq!(rand_sync_id(Some((1u128 << 64) + 9)), 9);
    assert_eq!(rand_sync_id(None), 12345);
}
