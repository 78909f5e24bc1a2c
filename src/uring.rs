//! The submission-ring crate's items that the library relies on.
use vstd::prelude::*;

verus! {

#[verifier::external_type_specification]
#[verifier::external_body]
pub struct ExSqEntry(io_uring::squeue::Entry);

#[verifier::external_type_specification]
#[verifier::external_body]
pub struct ExSqEntry128(io_uring::squeue::Entry128);

/// Opaque options for setting up a submission ring with 64-byte submission
/// and 16-byte completion entries.
#[verifier::external_body]
pub struct RingOptions {
    pub inner: io_uring::Builder,
}

/// The ring options that the ring crate gives by default for submission
/// entries of `sqe_bytes` bytes and completion entries of `cqe_bytes` bytes.
pub uninterp spec fn ring_defaults(sqe_bytes: u32, cqe_bytes: u32) -> RingOptions;

/// Relies on `io_uring::IoUring::builder`: the ring options with their
/// defaults, which depend on the entry layout alone.
#[verifier::external_body]
pub(crate) fn default_ring_options() -> (r: RingOptions)
    ensures
        r == ring_defaults(64, 16),
{
    RingOptions { inner: io_uring::IoUring::builder() }
}

/// The 64-byte `IORING_OP_URING_CMD` entry on descriptor `fd` with command
/// opcode `cmd_op` and 16-byte command region `cmd`.
pub uninterp spec fn uring_cmd16(fd: i32, cmd_op: u32, cmd: Seq<u8>) -> io_uring::squeue::Entry;

/// The 128-byte `IORING_OP_URING_CMD` entry on descriptor `fd` with command
/// opcode `cmd_op` and 80-byte command region `cmd`.
pub uninterp spec fn uring_cmd80(fd: i32, cmd_op: u32, cmd: Seq<u8>) -> io_uring::squeue::Entry128;

/// Relies on `io_uring::opcode::UringCmd16`: its `build` fills a zeroed entry
/// from the descriptor, the command opcode and the 16 command bytes alone.
#[verifier::external_body]
pub(crate) fn build_cmd16(fd: i32, cmd_op: u32, cmd: [u8; 16]) -> (r: io_uring::squeue::Entry)
    ensures
        r == uring_cmd16(fd, cmd_op, cmd@),
{
    io_uring::opcode::UringCmd16::new(io_uring::types::Fd(fd), cmd_op).cmd(cmd).build()
}

/// Relies on `io_uring::opcode::UringCmd80`: its `build` fills a zeroed
/// 128-byte entry from the descriptor, the command opcode and the 80 command
/// bytes alone.
#[verifier::external_body]
pub(crate) fn build_cmd80(fd: i32, cmd_op: u32, cmd: [u8; 80]) -> (r: io_uring::squeue::Entry128)
    ensures
        r == uring_cmd80(fd, cmd_op, cmd@),
{
    io_uring::opcode::UringCmd80::new(io_uring::types::Fd(fd), cmd_op).cmd(cmd).build()
}

} // verus!
