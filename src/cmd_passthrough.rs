//! The passthrough command: a device or file specific command handed to the
//! submission ring with its payload inline in the entry.
use vstd::prelude::*;

use crate::shared_fd::SharedFd;
use crate::uring::{build_cmd16, build_cmd80, uring_cmd16, uring_cmd80};

verus! {

/// Bytes of command payload that a 64-byte submission entry holds.
pub const NARROW_CMD_BYTES: usize = 16;

/// Bytes of command payload that a 128-byte submission entry holds.
pub const WIDE_CMD_BYTES: usize = 80;

/// The command region of an entry with room for `n` bytes: the payload
/// first, then zeros.
pub open spec fn padded(payload: Seq<u8>, n: nat) -> Seq<u8> {
    Seq::new(n, |i: int| if i < payload.len() { payload[i] } else { 0u8 })
}

/// One asynchronous operation, holding its operation-specific state.
pub struct Op<T> {
    pub data: T,
}

/// A passthrough command on a descriptor.
pub struct Cmd {
    /// Keeps the descriptor open while the command is outstanding.
    pub fd: SharedFd,
    pub cmd_op: u32,
    /// The byte representation of the command payload.
    pub cmd: Vec<u8>,
}

impl Op<Cmd> {
    /// Makes the operation for command `cmd_op` with payload `cmd` on `fd`,
    /// holding its own owner of the descriptor.
    pub fn issue_cmd(fd: &SharedFd, cmd_op: u32, cmd: Vec<u8>) -> (r: Op<Cmd>)
        ensures
            r.data.fd@ == fd@,
            r.data.cmd_op == cmd_op,
            r.data.cmd@ == cmd@,
    {
        Op { data: Cmd { fd: fd.clone(), cmd_op, cmd } }
    }
}

/// Copies `payload` into the front of a zeroed region of `N` bytes.
fn fill_region<const N: usize>(payload: &Vec<u8>) -> (r: [u8; N])
    requires
        payload@.len() <= N,
    ensures
        r@ == padded(payload@, N as nat),
{
    let mut buf: [u8; N] = [0u8; N];
    let mut i: usize = 0;
    while i < payload.len()
        invariant
            payload@.len() <= N,
            i <= payload@.len(),
            buf@.len() == N,
            forall|j: int| 0 <= j < i ==> buf@[j] == payload@[j],
            forall|j: int| i <= j < N ==> buf@[j] == 0u8,
        decreases payload@.len() - i,
    {
        buf[i] = payload[i];
        i = i + 1;
    }
    assert(buf@ =~= padded(payload@, N as nat));
    buf
}

impl Cmd {
    /// Whether the payload fits the command region of a 64-byte entry.
    pub fn fits_narrow(&self) -> (r: bool)
        ensures
            r == (self.cmd@.len() <= NARROW_CMD_BYTES),
    {
        self.cmd.len() <= NARROW_CMD_BYTES
    }

    /// Whether the payload fits the command region of a 128-byte entry.
    pub fn fits_wide(&self) -> (r: bool)
        ensures
            r == (self.cmd@.len() <= WIDE_CMD_BYTES),
    {
        self.cmd.len() <= WIDE_CMD_BYTES
    }

    /// The command region of a 64-byte entry.
    pub fn narrow_bytes(&self) -> (r: [u8; 16])
        requires
            self.cmd@.len() <= NARROW_CMD_BYTES,
        ensures
            r@ == padded(self.cmd@, NARROW_CMD_BYTES as nat),
    {
        fill_region::<16>(&self.cmd)
    }

    /// The command region of a 128-byte entry.
    pub fn wide_bytes(&self) -> (r: [u8; 80])
        requires
            self.cmd@.len() <= WIDE_CMD_BYTES,
        ensures
            r@ == padded(self.cmd@, WIDE_CMD_BYTES as nat),
    {
        fill_region::<80>(&self.cmd)
    }

    /// The 64-byte submission entry of this command; the payload must fit.
    pub fn uring_op(&mut self) -> (r: io_uring::squeue::Entry)
        requires
            old(self).cmd@.len() <= NARROW_CMD_BYTES,
        ensures
            *final(self) == *old(self),
            r == uring_cmd16(old(self).fd@, old(self).cmd_op, padded(old(self).cmd@, NARROW_CMD_BYTES as nat)),
    {
        let buf = self.narrow_bytes();
        build_cmd16(self.fd.raw_fd(), self.cmd_op, buf)
    }

    /// The 128-byte submission entry of this command; the payload must fit.
    pub fn uring_op_wide(&mut self) -> (r: io_uring::squeue::Entry128)
        requires
            old(self).cmd@.len() <= WIDE_CMD_BYTES,
        ensures
            *final(self) == *old(self),
            r == uring_cmd80(old(self).fd@, old(self).cmd_op, padded(old(self).cmd@, WIDE_CMD_BYTES as nat)),
    {
        let buf = self.wide_bytes();
        build_cmd80(self.fd.raw_fd(), self.cmd_op, buf)
    }
}

/// Writing a payload into a command region that has room for it and reading
/// the payload's length back gives the payload unchanged; the rest of the
/// region is zero.
pub proof fn lemma_region_round_trip(payload: Seq<u8>, n: nat)
    requires
        payload.len() <= n,
    ensures
        padded(payload, n).len() == n,
        padded(payload, n).subrange(0, payload.len() as int) == payload,
        forall|i: int| payload.len() <= i < n ==> padded(payload, n)[i] == 0u8,
{
    assert(padded(payload, n).subrange(0, payload.len() as int) =~= payload);
}

/// A payload of more than `NARROW_CMD_BYTES` and at most `WIDE_CMD_BYTES`
/// bytes is refused for a 64-byte entry and fits a 128-byte one, whose command
/// region gives it back unchanged.
pub proof fn lemma_wide_only_payload(payload: Seq<u8>)
    requires
        NARROW_CMD_BYTES < payload.len() <= WIDE_CMD_BYTES,
    ensures
        !(payload.len() <= NARROW_CMD_BYTES),
        payload.len() <= WIDE_CMD_BYTES,
        padded(payload, WIDE_CMD_BYTES as nat).subrange(0, payload.len() as int) == payload,
{
    lemma_region_round_trip(payload, WIDE_CMD_BYTES as nat);
}

} // verus!
