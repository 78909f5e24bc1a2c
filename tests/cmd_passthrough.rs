use monoio::{Cmd, Op, SharedFd};

fn op(len: usize) -> Op<Cmd> {
    let fd = SharedFd::new(5);
    let payload: Vec<u8> = (0..len).map(|i| (i as u8) + 1).collect();
    Op::issue_cmd(&fd, 0x1234, payload)
}

#[test]
fn issue_cmd_keeps_its_arguments() {
    let fd = SharedFd::new(11);
    let op = Op::issue_cmd(&fd, 3, vec![9, 8, 7]);
    assert_eq!(op.data.fd.raw_fd(), 11);
    assert_eq!(op.data.cmd_op, 3);
    assert_eq!(op.data.cmd, vec![9, 8, 7]);
    assert_eq!(fd.owners(), 2);
    drop(op);
    assert_eq!(fd.owners(), 1);
}

#[test]
fn narrow_region_round_trip() {
    let op = op(12);
    assert!(op.data.fits_narrow());
    let buf = op.data.narrow_bytes();
    assert_eq!(&buf[..12], &op.data.cmd[..]);
    assert_eq!(&buf[12..], &[0u8; 4]);
}

#[test]
fn narrow_region_full() {
    let op = op(16);
    assert!(op.data.fits_narrow());
    assert_eq!(op.data.narrow_bytes().to_vec(), op.data.cmd);
}

#[test]
fn empty_payload_is_all_zero() {
    let op = op(0);
    assert!(op.data.fits_narrow());
    assert_eq!(op.data.narrow_bytes(), [0u8; 16]);
    assert_eq!(op.data.wide_bytes(), [0u8; 80]);
}

#[test]
fn twenty_byte_command_needs_wide_entry() {
    let mut op = op(20);
    assert!(!op.data.fits_narrow());
    assert!(op.data.fits_wide());
    let buf = op.data.wide_bytes();
    assert_eq!(&buf[..20], &op.data.cmd[..]);
    assert!(buf[20..].iter().all(|b| *b == 0));
    let entry = op.data.uring_op_wide();
    assert!(format!("{:?}", entry).contains("op_code: 46"));
}

#[test]
fn wide_region_full() {
    let op = op(80);
    assert!(!op.data.fits_narrow());
    assert!(op.data.fits_wide());
    assert_eq!(op.data.wide_bytes().to_vec(), op.data.cmd);
}

#[test]
fn oversized_command_fits_nowhere() {
    let op = op(81);
    assert!(!op.data.fits_narrow());
    assert!(!op.data.fits_wide());
}

#[test]
fn narrow_entry_is_a_command_entry() {
    let mut op = op(8);
    let entry = op.data.uring_op();
    assert!(format!("{:?}", entry).contains("op_code: 46"));
    assert_eq!(op.data.cmd.len(), 8);
    assert_eq!(op.data.fd.raw_fd(), 5);
}
