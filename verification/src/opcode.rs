//! Operation codes that build [`squeue::Entry`](crate::squeue::Entry)s.
//!
//! Each builder is a plain value: `new` takes the required arguments, the setters replace one
//! optional field, and `build` lays the fields out in a submission queue entry. Pointers the
//! kernel would dereference are carried as addresses (`u64`).

#![allow(clippy::new_without_default)]

use crate::squeue::{Entry, Entry128};
use crate::sys;
use crate::types::{self, sealed};
use vstd::prelude::*;

verus! {

/// The `fd` field written for a file target: the descriptor, or the registered index.
pub open spec fn target_fd(target: sealed::Target) -> i32 {
    match target {
        sealed::Target::Fd(fd) => fd,
        sealed::Target::Fixed(idx) => idx as i32,
    }
}

/// The entry flags a file target sets: `FIXED_FILE` for a registered file, none otherwise.
pub open spec fn target_flags(target: sealed::Target) -> u8 {
    match target {
        sealed::Target::Fd(_) => 0u8,
        sealed::Target::Fixed(_) => fixed_file_flag(),
    }
}

/// The `FIXED_FILE` entry flag.
pub open spec fn fixed_file_flag() -> u8 {
    1u8
}

/// The `BUFFER_SELECT` entry flag.
pub open spec fn buffer_select_flag() -> u8 {
    32u8
}

/// The splice flags written for an input file: `SPLICE_F_FD_IN_FIXED` is added for a
/// registered file.
pub open spec fn splice_in_flags(flags: u32, fd_in: sealed::Target) -> u32 {
    match fd_in {
        sealed::Target::Fd(_) => flags,
        sealed::Target::Fixed(_) => flags | sys::SPLICE_F_FD_IN_FIXED,
    }
}

/// The `file_index` argument for a direct descriptor: the slot plus one, or zero for a
/// regular descriptor.
pub open spec fn file_index_arg(file_index: Option<u32>) -> i32 {
    match file_index {
        Some(idx) => (idx as i32 + 1) as i32,
        None => 0i32,
    }
}

/// The `file_index` argument for direct descriptor slot `idx`.
fn direct_slot_arg(idx: u32) -> (r: i32)
    requires
        idx != 0x7FFF_FFFF,
    ensures
        r == file_index_arg(Some(idx)),
{
    assert(idx != 0x7FFF_FFFF ==> (idx as i32) < 0x7FFF_FFFF) by (bit_vector);
    idx as i32 + 1
}

/// The size in bytes of `struct open_how`.
pub const OPEN_HOW_SIZE: u32 = 24;

/// The little-endian `u64` stored in the eight bytes of `b` starting at `off`.
pub open spec fn spec_u64_le(b: Seq<u8>, off: int) -> u64 {
    (b[off] + 0x100 * b[off + 1] + 0x1_0000 * b[off + 2] + 0x100_0000 * b[off + 3]
        + 0x1_0000_0000 * b[off + 4] + 0x100_0000_0000 * b[off + 5]
        + 0x1_0000_0000_0000 * b[off + 6] + 0x100_0000_0000_0000 * b[off + 7]) as u64
}

/// Reads the little-endian `u64` at `off`.
fn u64_le<const N: usize>(b: &[u8; N], off: usize) -> (r: u64)
    requires
        off + 8 <= N,
    ensures
        r == spec_u64_le(b@, off as int),
{
    b[off] as u64 + 0x100 * (b[off + 1] as u64) + 0x1_0000 * (b[off + 2] as u64)
        + 0x100_0000 * (b[off + 3] as u64) + 0x1_0000_0000 * (b[off + 4] as u64)
        + 0x100_0000_0000 * (b[off + 5] as u64) + 0x1_0000_0000_0000 * (b[off + 6] as u64)
        + 0x100_0000_0000_0000 * (b[off + 7] as u64)
}

/// A zeroed entry with the given opcode, aimed at the given file target.
fn sqe_with_target(opcode: u8, target: sealed::Target) -> (sqe: sys::io_uring_sqe)
    ensures
        sqe == (sys::io_uring_sqe {
            opcode,
            fd: target_fd(target),
            flags: target_flags(target),
            ..sys::sqe_zeroed()
        }),
{
    let mut sqe = sys::io_uring_sqe::zeroed();
    sqe.opcode = opcode;
    match target {
        sealed::Target::Fd(fd) => sqe.fd = fd,
        sealed::Target::Fixed(idx) => {
            sqe.fd = idx as i32;
            sqe.flags = crate::squeue::Flags::FIXED_FILE().bits();
        },
    }
    sqe
}

/// Do not perform any I/O.
#[derive(Debug)]
pub struct Nop {
    pub nop_flags: u32,
    pub nop_result: u32,
}

impl Nop {
    /// The operation code ([`sys::IORING_OP_NOP`]).
    pub const CODE: u8 = 0;

    pub fn new() -> (r: Self)
        ensures
            r.nop_flags == 0,
            r.nop_result == 0,
    {
        Nop { nop_flags: 0, nop_result: 0 }
    }

    pub fn nop_flags(self, nop_flags: u32) -> (r: Self)
        ensures
            r == (Nop { nop_flags, ..self }),
    {
        Nop { nop_flags, ..self }
    }

    pub fn nop_result(self, nop_result: u32) -> (r: Self)
        ensures
            r == (Nop { nop_result, ..self }),
    {
        Nop { nop_result, ..self }
    }

    pub fn build(self) -> (r: Entry)
        ensures
            r.0 == (sys::io_uring_sqe {
                opcode: Self::CODE,
                fd: -1i32,
                len: self.nop_result,
                op_flags: self.nop_flags,
                ..sys::sqe_zeroed()
            }),
    {
        let Nop { nop_flags, nop_result } = self;
        let mut sqe = sys::io_uring_sqe::zeroed();
        sqe.opcode = Self::CODE;
        sqe.fd = -1;
        sqe.op_flags = nop_flags;
        sqe.len = nop_result;
        Entry(sqe)
    }
}

/// Vectored read, equivalent to `preadv2(2)`.
#[derive(Debug)]
pub struct Readv {
    pub fd: sealed::Target,
    pub iovec: u64,
    pub len: u32,
    pub ioprio: u16,
    pub offset: u64,
    pub rw_flags: i32,
    pub buf_group: u16,
}

impl Readv {
    /// The operation code ([`sys::IORING_OP_READV`]).
    pub const CODE: u8 = 1;

    pub fn new<F: sealed::UseFixed>(fd: F, iovec: u64, len: u32) -> (r: Self)
        ensures
            r.fd == fd.spec_target(),
            r.iovec == iovec,
            r.len == len,
            r.ioprio == 0,
            r.offset == 0,
            r.rw_flags == 0,
            r.buf_group == 0,
    {
        Readv { fd: sealed::UseFixed::into(fd), iovec, len, ioprio: 0, offset: 0, rw_flags: 0, buf_group: 0 }
    }

    pub fn ioprio(self, ioprio: u16) -> (r: Self)
        ensures
            r == (Readv { ioprio, ..self }),
    {
        Readv { ioprio, ..self }
    }

    pub fn offset(self, offset: u64) -> (r: Self)
        ensures
            r == (Readv { offset, ..self }),
    {
        Readv { offset, ..self }
    }

    pub fn rw_flags(self, rw_flags: i32) -> (r: Self)
        ensures
            r == (Readv { rw_flags, ..self }),
    {
        Readv { rw_flags, ..self }
    }

    pub fn buf_group(self, buf_group: u16) -> (r: Self)
        ensures
            r == (Readv { buf_group, ..self }),
    {
        Readv { buf_group, ..self }
    }

    pub fn build(self) -> (r: Entry)
        ensures
            r.0 == (sys::io_uring_sqe {
                opcode: Self::CODE,
                flags: target_flags(self.fd),
                ioprio: self.ioprio,
                fd: target_fd(self.fd),
                off: self.offset,
                addr: self.iovec,
                len: self.len,
                op_flags: self.rw_flags as u32,
                buf_index: self.buf_group,
                ..sys::sqe_zeroed()
            }),
    {
        let Readv { fd, iovec, len, offset, ioprio, rw_flags, buf_group } = self;
        let mut sqe = sqe_with_target(Self::CODE, fd);
        sqe.ioprio = ioprio;
        sqe.addr = iovec;
        sqe.len = len;
        sqe.off = offset;
        sqe.op_flags = rw_flags as u32;
        sqe.buf_index = buf_group;
        Entry(sqe)
    }
}

/// Vectored write, equivalent to `pwritev2(2)`.
#[derive(Debug)]
pub struct Writev {
    pub fd: sealed::Target,
    pub iovec: u64,
    pub len: u32,
    pub ioprio: u16,
    pub offset: u64,
    pub rw_flags: i32,
}

impl Writev {
    /// The operation code ([`sys::IORING_OP_WRITEV`]).
    pub const CODE: u8 = 2;

    pub fn new<F: sealed::UseFixed>(fd: F, iovec: u64, len: u32) -> (r: Self)
        ensures
            r.fd == fd.spec_target(),
            r.iovec == iovec,
            r.len == len,
            r.ioprio == 0,
            r.offset == 0,
            r.rw_flags == 0,
    {
        Writev { fd: sealed::UseFixed::into(fd), iovec, len, ioprio: 0, offset: 0, rw_flags: 0 }
    }

    pub fn ioprio(self, ioprio: u16) -> (r: Self)
        ensures
            r == (Writev { ioprio, ..self }),
    {
        Writev { ioprio, ..self }
    }

    pub fn offset(self, offset: u64) -> (r: Self)
        ensures
            r == (Writev { offset, ..self }),
    {
        Writev { offset, ..self }
    }

    pub fn rw_flags(self, rw_flags: i32) -> (r: Self)
        ensures
            r == (Writev { rw_flags, ..self }),
    {
        Writev { rw_flags, ..self }
    }

    pub fn build(self) -> (r: Entry)
        ensures
            r.0 == (sys::io_uring_sqe {
                opcode: Self::CODE,
                flags: target_flags(self.fd),
                ioprio: self.ioprio,
                fd: target_fd(self.fd),
                off: self.offset,
                addr: self.iovec,
                len: self.len,
                op_flags: self.rw_flags as u32,
                ..sys::sqe_zeroed()
            }),
    {
        let Writev { fd, iovec, len, offset, ioprio, rw_flags } = self;
        let mut sqe = sqe_with_target(Self::CODE, fd);
        sqe.ioprio = ioprio;
        sqe.addr = iovec;
        sqe.len = len;
        sqe.off = offset;
        sqe.op_flags = rw_flags as u32;
        Entry(sqe)
    }
}

/// File sync, equivalent to `fsync(2)`.
#[derive(Debug)]
pub struct Fsync {
    pub fd: sealed::Target,
    pub flags: types::FsyncFlags,
}

impl Fsync {
    /// The operation code ([`sys::IORING_OP_FSYNC`]).
    pub const CODE: u8 = 3;

    pub fn new<F: sealed::UseFixed>(fd: F) -> (r: Self)
        ensures
            r.fd == fd.spec_target(),
            r.flags.spec_bits() == 0,
    {
        Fsync { fd: sealed::UseFixed::into(fd), flags: types::FsyncFlags::empty() }
    }

    pub fn flags(self, flags: types::FsyncFlags) -> (r: Self)
        ensures
            r == (Fsync { flags, ..self }),
    {
        Fsync { flags, ..self }
    }

    pub fn build(self) -> (r: Entry)
        ensures
            r.0 == (sys::io_uring_sqe {
                opcode: Self::CODE,
                flags: target_flags(self.fd),
                fd: target_fd(self.fd),
                op_flags: self.flags.spec_bits(),
                ..sys::sqe_zeroed()
            }),
    {
        let Fsync { fd, flags } = self;
        let mut sqe = sqe_with_target(Self::CODE, fd);
        sqe.op_flags = flags.bits();
        Entry(sqe)
    }
}

/// Read from a file into a registered fixed buffer.
#[derive(Debug)]
pub struct ReadFixed {
    pub fd: sealed::Target,
    pub buf: u64,
    pub len: u32,
    pub buf_index: u16,
    pub ioprio: u16,
    pub offset: u64,
    pub rw_flags: i32,
}

impl ReadFixed {
    /// The operation code ([`sys::IORING_OP_READ_FIXED`]).
    pub const CODE: u8 = 4;

    pub fn new<F: sealed::UseFixed>(fd: F, buf: u64, len: u32, buf_index: u16) -> (r: Self)
        ensures
            r.fd == fd.spec_target(),
            r.buf == buf,
            r.len == len,
            r.buf_index == buf_index,
            r.ioprio == 0,
            r.offset == 0,
            r.rw_flags == 0,
    {
        ReadFixed { fd: sealed::UseFixed::into(fd), buf, len, buf_index, ioprio: 0, offset: 0, rw_flags: 0 }
    }

    pub fn ioprio(self, ioprio: u16) -> (r: Self)
        ensures
            r == (ReadFixed { ioprio, ..self }),
    {
        ReadFixed { ioprio, ..self }
    }

    pub fn offset(self, offset: u64) -> (r: Self)
        ensures
            r == (ReadFixed { offset, ..self }),
    {
        ReadFixed { offset, ..self }
    }

    pub fn rw_flags(self, rw_flags: i32) -> (r: Self)
        ensures
            r == (ReadFixed { rw_flags, ..self }),
    {
        ReadFixed { rw_flags, ..self }
    }

    pub fn build(self) -> (r: Entry)
        ensures
            r.0 == (sys::io_uring_sqe {
                opcode: Self::CODE,
                flags: target_flags(self.fd),
                ioprio: self.ioprio,
                fd: target_fd(self.fd),
                off: self.offset,
                addr: self.buf,
                len: self.len,
                op_flags: self.rw_flags as u32,
                buf_index: self.buf_index,
                ..sys::sqe_zeroed()
            }),
    {
        let ReadFixed { fd, buf, len, offset, buf_index, ioprio, rw_flags } = self;
        let mut sqe = sqe_with_target(Self::CODE, fd);
        sqe.ioprio = ioprio;
        sqe.addr = buf;
        sqe.len = len;
        sqe.off = offset;
        sqe.op_flags = rw_flags as u32;
        sqe.buf_index = buf_index;
        Entry(sqe)
    }
}

/// Write to a file from a registered fixed buffer.
#[derive(Debug)]
pub struct WriteFixed {
    pub fd: sealed::Target,
    pub buf: u64,
    pub len: u32,
    pub buf_index: u16,
    pub ioprio: u16,
    pub offset: u64,
    pub rw_flags: i32,
}

impl WriteFixed {
    /// The operation code ([`sys::IORING_OP_WRITE_FIXED`]).
    pub const CODE: u8 = 5;

    pub fn new<F: sealed::UseFixed>(fd: F, buf: u64, len: u32, buf_index: u16) -> (r: Self)
        ensures
            r.fd == fd.spec_target(),
            r.buf == buf,
            r.len == len,
            r.buf_index == buf_index,
            r.ioprio == 0,
            r.offset == 0,
            r.rw_flags == 0,
    {
        WriteFixed { fd: sealed::UseFixed::into(fd), buf, len, buf_index, ioprio: 0, offset: 0, rw_flags: 0 }
    }

    pub fn ioprio(self, ioprio: u16) -> (r: Self)
        ensures
            r == (WriteFixed { ioprio, ..self }),
    {
        WriteFixed { ioprio, ..self }
    }

    pub fn offset(self, offset: u64) -> (r: Self)
        ensures
            r == (WriteFixed { offset, ..self }),
    {
        WriteFixed { offset, ..self }
    }

    pub fn rw_flags(self, rw_flags: i32) -> (r: Self)
        ensures
            r == (WriteFixed { rw_flags, ..self }),
    {
        WriteFixed { rw_flags, ..self }
    }

    pub fn build(self) -> (r: Entry)
        ensures
            r.0 == (sys::io_uring_sqe {
                opcode: Self::CODE,
                flags: target_flags(self.fd),
                ioprio: self.ioprio,
                fd: target_fd(self.fd),
                off: self.offset,
                addr: self.buf,
                len: self.len,
                op_flags: self.rw_flags as u32,
                buf_index: self.buf_index,
                ..sys::sqe_zeroed()
            }),
    {
        let WriteFixed { fd, buf, len, offset, buf_index, ioprio, rw_flags } = self;
        let mut sqe = sqe_with_target(Self::CODE, fd);
        sqe.ioprio = ioprio;
        sqe.addr = buf;
        sqe.len = len;
        sqe.off = offset;
        sqe.op_flags = rw_flags as u32;
        sqe.buf_index = buf_index;
        Entry(sqe)
    }
}

/// Poll for events on a file descriptor.
#[derive(Debug)]
pub struct PollAdd {
    pub fd: sealed::Target,
    pub flags: u32,
    pub multi: bool,
}

impl PollAdd {
    /// The operation code ([`sys::IORING_OP_POLL_ADD`]).
    pub const CODE: u8 = 6;

    pub fn new<F: sealed::UseFixed>(fd: F, flags: u32) -> (r: Self)
        ensures
            r.fd == fd.spec_target(),
            r.flags == flags,
            !r.multi,
    {
        PollAdd { fd: sealed::UseFixed::into(fd), flags, multi: false }
    }

    pub fn multi(self, multi: bool) -> (r: Self)
        ensures
            r == (PollAdd { multi, ..self }),
    {
        PollAdd { multi, ..self }
    }

    pub fn build(self) -> (r: Entry)
        ensures
            r.0 == (sys::io_uring_sqe {
                opcode: Self::CODE,
                flags: target_flags(self.fd),
                fd: target_fd(self.fd),
                len: if self.multi { sys::IORING_POLL_ADD_MULTI } else { 0 },
                op_flags: self.flags,
                ..sys::sqe_zeroed()
            }),
    {
        let PollAdd { fd, flags, multi } = self;
        let mut sqe = sqe_with_target(Self::CODE, fd);
        sqe.op_flags = flags;
        if multi {
            sqe.len = sys::IORING_POLL_ADD_MULTI;
        }
        Entry(sqe)
    }
}

/// Remove a previously added poll request.
#[derive(Debug)]
pub struct PollRemove {
    pub user_data: u64,
}

impl PollRemove {
    /// The operation code ([`sys::IORING_OP_POLL_REMOVE`]).
    pub const CODE: u8 = 7;

    pub fn new(user_data: u64) -> (r: Self)
        ensures
            r.user_data == user_data,
    {
        PollRemove { user_data }
    }

    pub fn build(self) -> (r: Entry)
        ensures
            r.0 == (sys::io_uring_sqe {
                opcode: Self::CODE,
                fd: -1i32,
                addr: self.user_data,
                ..sys::sqe_zeroed()
            }),
    {
        let PollRemove { user_data } = self;
        let mut sqe = sys::io_uring_sqe::zeroed();
        sqe.opcode = Self::CODE;
        sqe.fd = -1;
        sqe.addr = user_data;
        Entry(sqe)
    }
}

/// Sync a file range, equivalent to `sync_file_range(2)`.
#[derive(Debug)]
pub struct SyncFileRange {
    pub fd: sealed::Target,
    pub len: u32,
    pub offset: u64,
    pub flags: u32,
}

impl SyncFileRange {
    /// The operation code ([`sys::IORING_OP_SYNC_FILE_RANGE`]).
    pub const CODE: u8 = 8;

    pub fn new<F: sealed::UseFixed>(fd: F, len: u32) -> (r: Self)
        ensures
            r.fd == fd.spec_target(),
            r.len == len,
            r.offset == 0,
            r.flags == 0,
    {
        SyncFileRange { fd: sealed::UseFixed::into(fd), len, offset: 0, flags: 0 }
    }

    pub fn offset(self, offset: u64) -> (r: Self)
        ensures
            r == (SyncFileRange { offset, ..self }),
    {
        SyncFileRange { offset, ..self }
    }

    pub fn flags(self, flags: u32) -> (r: Self)
        ensures
            r == (SyncFileRange { flags, ..self }),
    {
        SyncFileRange { flags, ..self }
    }

    pub fn build(self) -> (r: Entry)
        ensures
            r.0 == (sys::io_uring_sqe {
                opcode: Self::CODE,
                flags: target_flags(self.fd),
                fd: target_fd(self.fd),
                off: self.offset,
                len: self.len,
                op_flags: self.flags,
                ..sys::sqe_zeroed()
            }),
    {
        let SyncFileRange { fd, len, offset, flags } = self;
        let mut sqe = sqe_with_target(Self::CODE, fd);
        sqe.len = len;
        sqe.off = offset;
        sqe.op_flags = flags;
        Entry(sqe)
    }
}

/// Send a message on a socket, equivalent to `sendmsg(2)`.
#[derive(Debug)]
pub struct SendMsg {
    pub fd: sealed::Target,
    pub msg: u64,
    pub ioprio: u16,
    pub flags: u32,
}

impl SendMsg {
    /// The operation code ([`sys::IORING_OP_SENDMSG`]).
    pub const CODE: u8 = 9;

    pub fn new<F: sealed::UseFixed>(fd: F, msg: u64) -> (r: Self)
        ensures
            r.fd == fd.spec_target(),
            r.msg == msg,
            r.ioprio == 0,
            r.flags == 0,
    {
        SendMsg { fd: sealed::UseFixed::into(fd), msg, ioprio: 0, flags: 0 }
    }

    pub fn ioprio(self, ioprio: u16) -> (r: Self)
        ensures
            r == (SendMsg { ioprio, ..self }),
    {
        SendMsg { ioprio, ..self }
    }

    pub fn flags(self, flags: u32) -> (r: Self)
        ensures
            r == (SendMsg { flags, ..self }),
    {
        SendMsg { flags, ..self }
    }

    pub fn build(self) -> (r: Entry)
        ensures
            r.0 == (sys::io_uring_sqe {
                opcode: Self::CODE,
                flags: target_flags(self.fd),
                ioprio: self.ioprio,
                fd: target_fd(self.fd),
                addr: self.msg,
                len: 1,
                op_flags: self.flags,
                ..sys::sqe_zeroed()
            }),
    {
        let SendMsg { fd, msg, ioprio, flags } = self;
        let mut sqe = sqe_with_target(Self::CODE, fd);
        sqe.ioprio = ioprio;
        sqe.addr = msg;
        sqe.op_flags = flags;
        sqe.len = 1;
        Entry(sqe)
    }
}

/// Receive a message on a socket, equivalent to `recvmsg(2)`.
#[derive(Debug)]
pub struct RecvMsg {
    pub fd: sealed::Target,
    pub msg: u64,
    pub ioprio: u16,
    pub flags: u32,
    pub buf_group: u16,
}

impl RecvMsg {
    /// The operation code ([`sys::IORING_OP_RECVMSG`]).
    pub const CODE: u8 = 10;

    pub fn new<F: sealed::UseFixed>(fd: F, msg: u64) -> (r: Self)
        ensures
            r.fd == fd.spec_target(),
            r.msg == msg,
            r.ioprio == 0,
            r.flags == 0,
            r.buf_group == 0,
    {
        RecvMsg { fd: sealed::UseFixed::into(fd), msg, ioprio: 0, flags: 0, buf_group: 0 }
    }

    pub fn ioprio(self, ioprio: u16) -> (r: Self)
        ensures
            r == (RecvMsg { ioprio, ..self }),
    {
        RecvMsg { ioprio, ..self }
    }

    pub fn flags(self, flags: u32) -> (r: Self)
        ensures
            r == (RecvMsg { flags, ..self }),
    {
        RecvMsg { flags, ..self }
    }

    pub fn buf_group(self, buf_group: u16) -> (r: Self)
        ensures
            r == (RecvMsg { buf_group, ..self }),
    {
        RecvMsg { buf_group, ..self }
    }

    pub fn build(self) -> (r: Entry)
        ensures
            r.0 == (sys::io_uring_sqe {
                opcode: Self::CODE,
                flags: target_flags(self.fd),
                ioprio: self.ioprio,
                fd: target_fd(self.fd),
                addr: self.msg,
                len: 1,
                op_flags: self.flags,
                buf_index: self.buf_group,
                ..sys::sqe_zeroed()
            }),
    {
        let RecvMsg { fd, msg, ioprio, flags, buf_group } = self;
        let mut sqe = sqe_with_target(Self::CODE, fd);
        sqe.ioprio = ioprio;
        sqe.addr = msg;
        sqe.op_flags = flags;
        sqe.len = 1;
        sqe.buf_index = buf_group;
        Entry(sqe)
    }
}

/// Register a timeout operation.
#[derive(Debug)]
pub struct Timeout {
    pub timespec: u64,
    pub count: u32,
    pub flags: types::TimeoutFlags,
}

impl Timeout {
    /// The operation code ([`sys::IORING_OP_TIMEOUT`]).
    pub const CODE: u8 = 11;

    pub fn new(timespec: u64) -> (r: Self)
        ensures
            r.timespec == timespec,
            r.count == 0,
            r.flags.spec_bits() == 0,
    {
        Timeout { timespec, count: 0, flags: types::TimeoutFlags::empty() }
    }

    pub fn count(self, count: u32) -> (r: Self)
        ensures
            r == (Timeout { count, ..self }),
    {
        Timeout { count, ..self }
    }

    pub fn flags(self, flags: types::TimeoutFlags) -> (r: Self)
        ensures
            r == (Timeout { flags, ..self }),
    {
        Timeout { flags, ..self }
    }

    pub fn build(self) -> (r: Entry)
        ensures
            r.0 == (sys::io_uring_sqe {
                opcode: Self::CODE,
                fd: -1i32,
                off: 1,
                addr: self.timespec,
                len: self.count,
                op_flags: self.flags.spec_bits(),
                ..sys::sqe_zeroed()
            }),
    {
        let Timeout { timespec, count, flags } = self;
        let mut sqe = sys::io_uring_sqe::zeroed();
        sqe.opcode = Self::CODE;
        sqe.fd = -1;
        sqe.addr = timespec;
        sqe.len = count;
        sqe.op_flags = flags.bits();
        sqe.off = 1;
        Entry(sqe)
    }
}

/// Remove a previously registered timeout.
#[derive(Debug)]
pub struct TimeoutRemove {
    pub user_data: u64,
    pub flags: types::TimeoutFlags,
}

impl TimeoutRemove {
    /// The operation code ([`sys::IORING_OP_TIMEOUT_REMOVE`]).
    pub const CODE: u8 = 12;

    pub fn new(user_data: u64) -> (r: Self)
        ensures
            r.user_data == user_data,
            r.flags.spec_bits() == 0,
    {
        TimeoutRemove { user_data, flags: types::TimeoutFlags::empty() }
    }

    pub fn flags(self, flags: types::TimeoutFlags) -> (r: Self)
        ensures
            r == (TimeoutRemove { flags, ..self }),
    {
        TimeoutRemove { flags, ..self }
    }

    pub fn build(self) -> (r: Entry)
        ensures
            r.0 == (sys::io_uring_sqe {
                opcode: Self::CODE,
                fd: -1i32,
                addr: self.user_data,
                op_flags: self.flags.spec_bits(),
                ..sys::sqe_zeroed()
            }),
    {
        let TimeoutRemove { user_data, flags } = self;
        let mut sqe = sys::io_uring_sqe::zeroed();
        sqe.opcode = Self::CODE;
        sqe.fd = -1;
        sqe.addr = user_data;
        sqe.op_flags = flags.bits();
        Entry(sqe)
    }
}

/// Accept a new connection on a socket, equivalent to `accept4(2)`.
#[derive(Debug)]
pub struct Accept {
    pub fd: sealed::Target,
    pub addr: u64,
    pub addrlen: u64,
    pub flags: u32,
    pub file_index: Option<u32>,
}

impl Accept {
    /// The operation code ([`sys::IORING_OP_ACCEPT`]).
    pub const CODE: u8 = 13;

    pub fn new<F: sealed::UseFixed>(fd: F) -> (r: Self)
        ensures
            r.fd == fd.spec_target(),
            r.addr == 0,
            r.addrlen == 0,
            r.flags == 0,
            r.file_index is None,
    {
        Accept { fd: sealed::UseFixed::into(fd), addr: 0, addrlen: 0, flags: 0, file_index: None }
    }

    pub fn addr(self, addr: u64) -> (r: Self)
        ensures
            r == (Accept { addr, ..self }),
    {
        Accept { addr, ..self }
    }

    pub fn addrlen(self, addrlen: u64) -> (r: Self)
        ensures
            r == (Accept { addrlen, ..self }),
    {
        Accept { addrlen, ..self }
    }

    pub fn flags(self, flags: u32) -> (r: Self)
        ensures
            r == (Accept { flags, ..self }),
    {
        Accept { flags, ..self }
    }

    pub fn file_index(self, file_index: Option<u32>) -> (r: Self)
        ensures
            r == (Accept { file_index, ..self }),
    {
        Accept { file_index, ..self }
    }

    pub fn build(self) -> (r: Entry)
        requires
            self.file_index != Some(0x7FFF_FFFFu32),
        ensures
            r.0 == (sys::io_uring_sqe {
                opcode: Self::CODE,
                flags: target_flags(self.fd),
                fd: target_fd(self.fd),
                off: self.addrlen,
                addr: self.addr,
                op_flags: self.flags,
                splice_fd_in: file_index_arg(self.file_index),
                ..sys::sqe_zeroed()
            }),
    {
        let Accept { fd, addr, addrlen, flags, file_index } = self;
        let mut sqe = sqe_with_target(Self::CODE, fd);
        sqe.addr = addr;
        sqe.off = addrlen;
        sqe.op_flags = flags;
        if let Some(idx) = file_index {
            sqe.splice_fd_in = direct_slot_arg(idx);
        }
        Entry(sqe)
    }
}

/// Cancel an in-flight async operation.
#[derive(Debug)]
pub struct AsyncCancel {
    pub user_data: u64,
}

impl AsyncCancel {
    /// The operation code ([`sys::IORING_OP_ASYNC_CANCEL`]).
    pub const CODE: u8 = 14;

    pub fn new(user_data: u64) -> (r: Self)
        ensures
            r.user_data == user_data,
    {
        AsyncCancel { user_data }
    }

    pub fn build(self) -> (r: Entry)
        ensures
            r.0 == (sys::io_uring_sqe {
                opcode: Self::CODE,
                fd: -1i32,
                addr: self.user_data,
                ..sys::sqe_zeroed()
            }),
    {
        let AsyncCancel { user_data } = self;
        let mut sqe = sys::io_uring_sqe::zeroed();
        sqe.opcode = Self::CODE;
        sqe.fd = -1;
        sqe.addr = user_data;
        Entry(sqe)
    }
}

/// Link timeout — timeout for linked operations.
#[derive(Debug)]
pub struct LinkTimeout {
    pub timespec: u64,
    pub flags: types::TimeoutFlags,
}

impl LinkTimeout {
    /// The operation code ([`sys::IORING_OP_LINK_TIMEOUT`]).
    pub const CODE: u8 = 15;

    pub fn new(timespec: u64) -> (r: Self)
        ensures
            r.timespec == timespec,
            r.flags.spec_bits() == 0,
    {
        LinkTimeout { timespec, flags: types::TimeoutFlags::empty() }
    }

    pub fn flags(self, flags: types::TimeoutFlags) -> (r: Self)
        ensures
            r == (LinkTimeout { flags, ..self }),
    {
        LinkTimeout { flags, ..self }
    }

    pub fn build(self) -> (r: Entry)
        ensures
            r.0 == (sys::io_uring_sqe {
                opcode: Self::CODE,
                fd: -1i32,
                addr: self.timespec,
                op_flags: self.flags.spec_bits(),
                ..sys::sqe_zeroed()
            }),
    {
        let LinkTimeout { timespec, flags } = self;
        let mut sqe = sys::io_uring_sqe::zeroed();
        sqe.opcode = Self::CODE;
        sqe.fd = -1;
        sqe.addr = timespec;
        sqe.op_flags = flags.bits();
        Entry(sqe)
    }
}

/// Connect a socket, equivalent to `connect(2)`.
#[derive(Debug)]
pub struct Connect {
    pub fd: sealed::Target,
    pub addr: u64,
    pub addrlen: u32,
}

impl Connect {
    /// The operation code ([`sys::IORING_OP_CONNECT`]).
    pub const CODE: u8 = 16;

    pub fn new<F: sealed::UseFixed>(fd: F, addr: u64, addrlen: u32) -> (r: Self)
        ensures
            r.fd == fd.spec_target(),
            r.addr == addr,
            r.addrlen == addrlen,
    {
        Connect { fd: sealed::UseFixed::into(fd), addr, addrlen }
    }

    pub fn build(self) -> (r: Entry)
        ensures
            r.0 == (sys::io_uring_sqe {
                opcode: Self::CODE,
                flags: target_flags(self.fd),
                fd: target_fd(self.fd),
                off: self.addrlen as u64,
                addr: self.addr,
                ..sys::sqe_zeroed()
            }),
    {
        let Connect { fd, addr, addrlen } = self;
        let mut sqe = sqe_with_target(Self::CODE, fd);
        sqe.addr = addr;
        sqe.off = addrlen as u64;
        Entry(sqe)
    }
}

/// Pre-allocate or deallocate space to a file, equivalent to `fallocate(2)`.
#[derive(Debug)]
pub struct Fallocate {
    pub fd: sealed::Target,
    pub len: u64,
    pub offset: u64,
    pub mode: i32,
}

impl Fallocate {
    /// The operation code ([`sys::IORING_OP_FALLOCATE`]).
    pub const CODE: u8 = 17;

    pub fn new<F: sealed::UseFixed>(fd: F, len: u64) -> (r: Self)
        ensures
            r.fd == fd.spec_target(),
            r.len == len,
            r.offset == 0,
            r.mode == 0,
    {
        Fallocate { fd: sealed::UseFixed::into(fd), len, offset: 0, mode: 0 }
    }

    pub fn offset(self, offset: u64) -> (r: Self)
        ensures
            r == (Fallocate { offset, ..self }),
    {
        Fallocate { offset, ..self }
    }

    pub fn mode(self, mode: i32) -> (r: Self)
        ensures
            r == (Fallocate { mode, ..self }),
    {
        Fallocate { mode, ..self }
    }

    pub fn build(self) -> (r: Entry)
        ensures
            r.0 == (sys::io_uring_sqe {
                opcode: Self::CODE,
                flags: target_flags(self.fd),
                fd: target_fd(self.fd),
                off: self.offset,
                addr: self.len,
                len: self.mode as u32,
                ..sys::sqe_zeroed()
            }),
    {
        let Fallocate { fd, len, offset, mode } = self;
        let mut sqe = sqe_with_target(Self::CODE, fd);
        sqe.addr = len;
        sqe.off = offset;
        sqe.len = mode as u32;
        Entry(sqe)
    }
}

/// Open a file, equivalent to `openat(2)`.
#[derive(Debug)]
pub struct OpenAt {
    pub dirfd: sealed::Target,
    pub pathname: u64,
    pub flags: i32,
    pub mode: u32,
    pub file_index: Option<u32>,
}

impl OpenAt {
    /// The operation code ([`sys::IORING_OP_OPENAT`]).
    pub const CODE: u8 = 18;

    pub fn new<F: sealed::UseFixed>(dirfd: F, pathname: u64) -> (r: Self)
        ensures
            r.dirfd == dirfd.spec_target(),
            r.pathname == pathname,
            r.flags == 0,
            r.mode == 0,
            r.file_index is None,
    {
        OpenAt { dirfd: sealed::UseFixed::into(dirfd), pathname, flags: 0, mode: 0, file_index: None }
    }

    pub fn flags(self, flags: i32) -> (r: Self)
        ensures
            r == (OpenAt { flags, ..self }),
    {
        OpenAt { flags, ..self }
    }

    pub fn mode(self, mode: u32) -> (r: Self)
        ensures
            r == (OpenAt { mode, ..self }),
    {
        OpenAt { mode, ..self }
    }

    pub fn file_index(self, file_index: Option<u32>) -> (r: Self)
        ensures
            r == (OpenAt { file_index, ..self }),
    {
        OpenAt { file_index, ..self }
    }

    pub fn build(self) -> (r: Entry)
        requires
            self.file_index != Some(0x7FFF_FFFFu32),
        ensures
            r.0 == (sys::io_uring_sqe {
                opcode: Self::CODE,
                flags: target_flags(self.dirfd),
                fd: target_fd(self.dirfd),
                addr: self.pathname,
                len: self.mode,
                op_flags: self.flags as u32,
                splice_fd_in: file_index_arg(self.file_index),
                ..sys::sqe_zeroed()
            }),
    {
        let OpenAt { dirfd, pathname, flags, mode, file_index } = self;
        let mut sqe = sqe_with_target(Self::CODE, dirfd);
        sqe.addr = pathname;
        sqe.op_flags = flags as u32;
        sqe.len = mode;
        if let Some(idx) = file_index {
            sqe.splice_fd_in = direct_slot_arg(idx);
        }
        Entry(sqe)
    }
}

/// Close a file descriptor, equivalent to `close(2)`.
#[derive(Debug)]
pub struct Close {
    pub fd: sealed::Target,
}

impl Close {
    /// The operation code ([`sys::IORING_OP_CLOSE`]).
    pub const CODE: u8 = 19;

    pub fn new<F: sealed::UseFixed>(fd: F) -> (r: Self)
        ensures
            r.fd == fd.spec_target(),
    {
        Close { fd: sealed::UseFixed::into(fd) }
    }

    pub fn build(self) -> (r: Entry)
        ensures
            r.0 == (sys::io_uring_sqe {
                opcode: Self::CODE,
                flags: target_flags(self.fd),
                fd: target_fd(self.fd),
                ..sys::sqe_zeroed()
            }),
    {
        let Close { fd } = self;
        let mut sqe = sqe_with_target(Self::CODE, fd);
        Entry(sqe)
    }
}

/// Update the registered file set.
#[derive(Debug)]
pub struct FilesUpdate {
    pub fds: u64,
    pub len: u32,
    pub offset: i32,
}

impl FilesUpdate {
    /// The operation code ([`sys::IORING_OP_FILES_UPDATE`]).
    pub const CODE: u8 = 20;

    pub fn new(fds: u64, len: u32) -> (r: Self)
        ensures
            r.fds == fds,
            r.len == len,
            r.offset == 0,
    {
        FilesUpdate { fds, len, offset: 0 }
    }

    pub fn offset(self, offset: i32) -> (r: Self)
        ensures
            r == (FilesUpdate { offset, ..self }),
    {
        FilesUpdate { offset, ..self }
    }

    pub fn build(self) -> (r: Entry)
        ensures
            r.0 == (sys::io_uring_sqe {
                opcode: Self::CODE,
                fd: -1i32,
                off: self.offset as u64,
                addr: self.fds,
                len: self.len,
                ..sys::sqe_zeroed()
            }),
    {
        let FilesUpdate { fds, len, offset } = self;
        let mut sqe = sys::io_uring_sqe::zeroed();
        sqe.opcode = Self::CODE;
        sqe.fd = -1;
        sqe.addr = fds;
        sqe.len = len;
        sqe.off = offset as u64;
        Entry(sqe)
    }
}

/// Get file status, equivalent to `statx(2)`.
#[derive(Debug)]
pub struct Statx {
    pub dirfd: sealed::Target,
    pub pathname: u64,
    pub statxbuf: u64,
    pub flags: i32,
    pub mask: u32,
}

impl Statx {
    /// The operation code ([`sys::IORING_OP_STATX`]).
    pub const CODE: u8 = 21;

    pub fn new<F: sealed::UseFixed>(dirfd: F, pathname: u64, statxbuf: u64) -> (r: Self)
        ensures
            r.dirfd == dirfd.spec_target(),
            r.pathname == pathname,
            r.statxbuf == statxbuf,
            r.flags == 0,
            r.mask == 0,
    {
        Statx { dirfd: sealed::UseFixed::into(dirfd), pathname, statxbuf, flags: 0, mask: 0 }
    }

    pub fn flags(self, flags: i32) -> (r: Self)
        ensures
            r == (Statx { flags, ..self }),
    {
        Statx { flags, ..self }
    }

    pub fn mask(self, mask: u32) -> (r: Self)
        ensures
            r == (Statx { mask, ..self }),
    {
        Statx { mask, ..self }
    }

    pub fn build(self) -> (r: Entry)
        ensures
            r.0 == (sys::io_uring_sqe {
                opcode: Self::CODE,
                flags: target_flags(self.dirfd),
                fd: target_fd(self.dirfd),
                off: self.statxbuf,
                addr: self.pathname,
                len: self.mask,
                op_flags: self.flags as u32,
                ..sys::sqe_zeroed()
            }),
    {
        let Statx { dirfd, pathname, statxbuf, flags, mask } = self;
        let mut sqe = sqe_with_target(Self::CODE, dirfd);
        sqe.addr = pathname;
        sqe.off = statxbuf;
        sqe.len = mask;
        sqe.op_flags = flags as u32;
        Entry(sqe)
    }
}

/// Read from a file, equivalent to `pread(2)`.
#[derive(Debug)]
pub struct Read {
    pub fd: sealed::Target,
    pub buf: u64,
    pub len: u32,
    pub ioprio: u16,
    pub offset: u64,
    pub rw_flags: i32,
    pub buf_group: u16,
}

impl Read {
    /// The operation code ([`sys::IORING_OP_READ`]).
    pub const CODE: u8 = 22;

    pub fn new<F: sealed::UseFixed>(fd: F, buf: u64, len: u32) -> (r: Self)
        ensures
            r.fd == fd.spec_target(),
            r.buf == buf,
            r.len == len,
            r.ioprio == 0,
            r.offset == 0,
            r.rw_flags == 0,
            r.buf_group == 0,
    {
        Read { fd: sealed::UseFixed::into(fd), buf, len, ioprio: 0, offset: 0, rw_flags: 0, buf_group: 0 }
    }

    pub fn ioprio(self, ioprio: u16) -> (r: Self)
        ensures
            r == (Read { ioprio, ..self }),
    {
        Read { ioprio, ..self }
    }

    pub fn offset(self, offset: u64) -> (r: Self)
        ensures
            r == (Read { offset, ..self }),
    {
        Read { offset, ..self }
    }

    pub fn rw_flags(self, rw_flags: i32) -> (r: Self)
        ensures
            r == (Read { rw_flags, ..self }),
    {
        Read { rw_flags, ..self }
    }

    pub fn buf_group(self, buf_group: u16) -> (r: Self)
        ensures
            r == (Read { buf_group, ..self }),
    {
        Read { buf_group, ..self }
    }

    pub fn build(self) -> (r: Entry)
        ensures
            r.0 == (sys::io_uring_sqe {
                opcode: Self::CODE,
                flags: target_flags(self.fd),
                ioprio: self.ioprio,
                fd: target_fd(self.fd),
                off: self.offset,
                addr: self.buf,
                len: self.len,
                op_flags: self.rw_flags as u32,
                buf_index: self.buf_group,
                ..sys::sqe_zeroed()
            }),
    {
        let Read { fd, buf, len, offset, ioprio, rw_flags, buf_group } = self;
        let mut sqe = sqe_with_target(Self::CODE, fd);
        sqe.ioprio = ioprio;
        sqe.addr = buf;
        sqe.len = len;
        sqe.off = offset;
        sqe.op_flags = rw_flags as u32;
        sqe.buf_index = buf_group;
        Entry(sqe)
    }
}

/// Write to a file, equivalent to `pwrite(2)`.
#[derive(Debug)]
pub struct Write {
    pub fd: sealed::Target,
    pub buf: u64,
    pub len: u32,
    pub ioprio: u16,
    pub offset: u64,
    pub rw_flags: i32,
}

impl Write {
    /// The operation code ([`sys::IORING_OP_WRITE`]).
    pub const CODE: u8 = 23;

    pub fn new<F: sealed::UseFixed>(fd: F, buf: u64, len: u32) -> (r: Self)
        ensures
            r.fd == fd.spec_target(),
            r.buf == buf,
            r.len == len,
            r.ioprio == 0,
            r.offset == 0,
            r.rw_flags == 0,
    {
        Write { fd: sealed::UseFixed::into(fd), buf, len, ioprio: 0, offset: 0, rw_flags: 0 }
    }

    pub fn ioprio(self, ioprio: u16) -> (r: Self)
        ensures
            r == (Write { ioprio, ..self }),
    {
        Write { ioprio, ..self }
    }

    pub fn offset(self, offset: u64) -> (r: Self)
        ensures
            r == (Write { offset, ..self }),
    {
        Write { offset, ..self }
    }

    pub fn rw_flags(self, rw_flags: i32) -> (r: Self)
        ensures
            r == (Write { rw_flags, ..self }),
    {
        Write { rw_flags, ..self }
    }

    pub fn build(self) -> (r: Entry)
        ensures
            r.0 == (sys::io_uring_sqe {
                opcode: Self::CODE,
                flags: target_flags(self.fd),
                ioprio: self.ioprio,
                fd: target_fd(self.fd),
                off: self.offset,
                addr: self.buf,
                len: self.len,
                op_flags: self.rw_flags as u32,
                ..sys::sqe_zeroed()
            }),
    {
        let Write { fd, buf, len, offset, ioprio, rw_flags } = self;
        let mut sqe = sqe_with_target(Self::CODE, fd);
        sqe.ioprio = ioprio;
        sqe.addr = buf;
        sqe.len = len;
        sqe.off = offset;
        sqe.op_flags = rw_flags as u32;
        Entry(sqe)
    }
}

/// Send data on a socket, equivalent to `send(2)`.
#[derive(Debug)]
pub struct Send {
    pub fd: sealed::Target,
    pub buf: u64,
    pub len: u32,
    pub flags: u32,
    pub dest_addr: u64,
    pub dest_addr_len: u16,
}

impl Send {
    /// The operation code ([`sys::IORING_OP_SEND`]).
    pub const CODE: u8 = 26;

    pub fn new<F: sealed::UseFixed>(fd: F, buf: u64, len: u32) -> (r: Self)
        ensures
            r.fd == fd.spec_target(),
            r.buf == buf,
            r.len == len,
            r.flags == 0,
            r.dest_addr == 0,
            r.dest_addr_len == 0,
    {
        Send { fd: sealed::UseFixed::into(fd), buf, len, flags: 0, dest_addr: 0, dest_addr_len: 0 }
    }

    pub fn flags(self, flags: u32) -> (r: Self)
        ensures
            r == (Send { flags, ..self }),
    {
        Send { flags, ..self }
    }

    pub fn dest_addr(self, dest_addr: u64) -> (r: Self)
        ensures
            r == (Send { dest_addr, ..self }),
    {
        Send { dest_addr, ..self }
    }

    pub fn dest_addr_len(self, dest_addr_len: u16) -> (r: Self)
        ensures
            r == (Send { dest_addr_len, ..self }),
    {
        Send { dest_addr_len, ..self }
    }

    pub fn build(self) -> (r: Entry)
        ensures
            r.0 == (sys::io_uring_sqe {
                opcode: Self::CODE,
                flags: target_flags(self.fd),
                fd: target_fd(self.fd),
                addr: self.buf,
                len: self.len,
                op_flags: self.flags,
                splice_fd_in: if self.dest_addr != 0 { self.dest_addr_len as i32 } else { 0 },
                addr3: self.dest_addr,
                ..sys::sqe_zeroed()
            }),
    {
        let Send { fd, buf, len, flags, dest_addr, dest_addr_len } = self;
        let mut sqe = sqe_with_target(Self::CODE, fd);
        sqe.addr = buf;
        sqe.len = len;
        sqe.op_flags = flags;
        if dest_addr != 0 {
            sqe.addr3 = dest_addr;
            sqe.splice_fd_in = dest_addr_len as i32;
        }
        Entry(sqe)
    }
}

/// Receive data from a socket, equivalent to `recv(2)`.
#[derive(Debug)]
pub struct Recv {
    pub fd: sealed::Target,
    pub buf: u64,
    pub len: u32,
    pub flags: u32,
    pub buf_group: u16,
}

impl Recv {
    /// The operation code ([`sys::IORING_OP_RECV`]).
    pub const CODE: u8 = 27;

    pub fn new<F: sealed::UseFixed>(fd: F, buf: u64, len: u32) -> (r: Self)
        ensures
            r.fd == fd.spec_target(),
            r.buf == buf,
            r.len == len,
            r.flags == 0,
            r.buf_group == 0,
    {
        Recv { fd: sealed::UseFixed::into(fd), buf, len, flags: 0, buf_group: 0 }
    }

    pub fn flags(self, flags: u32) -> (r: Self)
        ensures
            r == (Recv { flags, ..self }),
    {
        Recv { flags, ..self }
    }

    pub fn buf_group(self, buf_group: u16) -> (r: Self)
        ensures
            r == (Recv { buf_group, ..self }),
    {
        Recv { buf_group, ..self }
    }

    pub fn build(self) -> (r: Entry)
        ensures
            r.0 == (sys::io_uring_sqe {
                opcode: Self::CODE,
                flags: target_flags(self.fd),
                fd: target_fd(self.fd),
                addr: self.buf,
                len: self.len,
                op_flags: self.flags,
                buf_index: self.buf_group,
                ..sys::sqe_zeroed()
            }),
    {
        let Recv { fd, buf, len, flags, buf_group } = self;
        let mut sqe = sqe_with_target(Self::CODE, fd);
        sqe.addr = buf;
        sqe.len = len;
        sqe.op_flags = flags;
        sqe.buf_index = buf_group;
        Entry(sqe)
    }
}

/// Open a file, equivalent to `openat2(2)`.
#[derive(Debug)]
pub struct OpenAt2 {
    pub dirfd: sealed::Target,
    pub pathname: u64,
    pub how: u64,
    pub file_index: Option<u32>,
}

impl OpenAt2 {
    /// The operation code ([`sys::IORING_OP_OPENAT2`]).
    pub const CODE: u8 = 28;

    pub fn new<F: sealed::UseFixed>(dirfd: F, pathname: u64, how: u64) -> (r: Self)
        ensures
            r.dirfd == dirfd.spec_target(),
            r.pathname == pathname,
            r.how == how,
            r.file_index is None,
    {
        OpenAt2 { dirfd: sealed::UseFixed::into(dirfd), pathname, how, file_index: None }
    }

    pub fn file_index(self, file_index: Option<u32>) -> (r: Self)
        ensures
            r == (OpenAt2 { file_index, ..self }),
    {
        OpenAt2 { file_index, ..self }
    }

    pub fn build(self) -> (r: Entry)
        requires
            self.file_index != Some(0x7FFF_FFFFu32),
        ensures
            r.0 == (sys::io_uring_sqe {
                opcode: Self::CODE,
                flags: target_flags(self.dirfd),
                fd: target_fd(self.dirfd),
                off: self.how,
                addr: self.pathname,
                len: OPEN_HOW_SIZE,
                splice_fd_in: file_index_arg(self.file_index),
                ..sys::sqe_zeroed()
            }),
    {
        let OpenAt2 { dirfd, pathname, how, file_index } = self;
        let mut sqe = sqe_with_target(Self::CODE, dirfd);
        sqe.addr = pathname;
        sqe.off = how;
        sqe.len = OPEN_HOW_SIZE;
        if let Some(idx) = file_index {
            sqe.splice_fd_in = direct_slot_arg(idx);
        }
        Entry(sqe)
    }
}

/// Modify an epoll file descriptor, equivalent to `epoll_ctl(2)`.
#[derive(Debug)]
pub struct EpollCtl {
    pub epfd: sealed::Target,
    pub fd: i32,
    pub op: i32,
    pub ev: u64,
}

impl EpollCtl {
    /// The operation code ([`sys::IORING_OP_EPOLL_CTL`]).
    pub const CODE: u8 = 29;

    pub fn new<F: sealed::UseFixed>(epfd: F, fd: i32, op: i32, ev: u64) -> (r: Self)
        ensures
            r.epfd == epfd.spec_target(),
            r.fd == fd,
            r.op == op,
            r.ev == ev,
    {
        EpollCtl { epfd: sealed::UseFixed::into(epfd), fd, op, ev }
    }

    pub fn build(self) -> (r: Entry)
        ensures
            r.0 == (sys::io_uring_sqe {
                opcode: Self::CODE,
                flags: target_flags(self.epfd),
                fd: target_fd(self.epfd),
                off: self.fd as u64,
                addr: self.ev,
                len: self.op as u32,
                ..sys::sqe_zeroed()
            }),
    {
        let EpollCtl { epfd, fd, op, ev } = self;
        let mut sqe = sqe_with_target(Self::CODE, epfd);
        sqe.off = fd as u64;
        sqe.len = op as u32;
        sqe.addr = ev;
        Entry(sqe)
    }
}

/// Splice data between two file descriptors, equivalent to `splice(2)`.
#[derive(Debug)]
pub struct Splice {
    pub fd_in: sealed::Target,
    pub off_in: i64,
    pub fd_out: sealed::Target,
    pub off_out: i64,
    pub len: u32,
    pub flags: u32,
}

impl Splice {
    /// The operation code ([`sys::IORING_OP_SPLICE`]).
    pub const CODE: u8 = 30;

    pub fn new<F: sealed::UseFixed, F2: sealed::UseFixed>(fd_in: F, off_in: i64, fd_out: F2, off_out: i64, len: u32) -> (r: Self)
        ensures
            r.fd_in == fd_in.spec_target(),
            r.off_in == off_in,
            r.fd_out == fd_out.spec_target(),
            r.off_out == off_out,
            r.len == len,
            r.flags == 0,
    {
        Splice { fd_in: sealed::UseFixed::into(fd_in), off_in, fd_out: sealed::UseFixed::into(fd_out), off_out, len, flags: 0 }
    }

    pub fn flags(self, flags: u32) -> (r: Self)
        ensures
            r == (Splice { flags, ..self }),
    {
        Splice { flags, ..self }
    }

    pub fn build(self) -> (r: Entry)
        ensures
            r.0 == (sys::io_uring_sqe {
                opcode: Self::CODE,
                flags: target_flags(self.fd_out),
                fd: target_fd(self.fd_out),
                off: self.off_out as u64,
                addr: self.off_in as u64,
                len: self.len,
                op_flags: splice_in_flags(self.flags, self.fd_in),
                splice_fd_in: target_fd(self.fd_in),
                ..sys::sqe_zeroed()
            }),
    {
        let Splice { fd_in, off_in, fd_out, off_out, len, flags } = self;
        let mut sqe = sqe_with_target(Self::CODE, fd_out);
        sqe.off = off_out as u64;
        sqe.addr = off_in as u64;
        sqe.len = len;
        sqe.op_flags = flags;
        match fd_in {
            sealed::Target::Fd(fd) => sqe.splice_fd_in = fd,
            sealed::Target::Fixed(idx) => {
                sqe.splice_fd_in = idx as i32;
                sqe.op_flags = sqe.op_flags | sys::SPLICE_F_FD_IN_FIXED;
            },
        }
        Entry(sqe)
    }
}

/// Provide buffers to the kernel for buffer selection.
#[derive(Debug)]
pub struct ProvideBuffers {
    pub addr: u64,
    pub len: i32,
    pub nbufs: u16,
    pub bgid: u16,
    pub bid: u16,
}

impl ProvideBuffers {
    /// The operation code ([`sys::IORING_OP_PROVIDE_BUFFERS`]).
    pub const CODE: u8 = 31;

    pub fn new(addr: u64, len: i32, nbufs: u16, bgid: u16, bid: u16) -> (r: Self)
        ensures
            r.addr == addr,
            r.len == len,
            r.nbufs == nbufs,
            r.bgid == bgid,
            r.bid == bid,
    {
        ProvideBuffers { addr, len, nbufs, bgid, bid }
    }

    pub fn build(self) -> (r: Entry)
        ensures
            r.0 == (sys::io_uring_sqe {
                opcode: Self::CODE,
                fd: self.nbufs as i32,
                off: self.bid as u64,
                addr: self.addr,
                len: self.len as u32,
                buf_index: self.bgid,
                ..sys::sqe_zeroed()
            }),
    {
        let ProvideBuffers { addr, len, nbufs, bgid, bid } = self;
        let mut sqe = sys::io_uring_sqe::zeroed();
        sqe.opcode = Self::CODE;
        sqe.fd = nbufs as i32;
        sqe.addr = addr;
        sqe.len = len as u32;
        sqe.off = bid as u64;
        sqe.buf_index = bgid;
        Entry(sqe)
    }
}

/// Remove provided buffers.
#[derive(Debug)]
pub struct RemoveBuffers {
    pub nbufs: u16,
    pub bgid: u16,
}

impl RemoveBuffers {
    /// The operation code ([`sys::IORING_OP_REMOVE_BUFFERS`]).
    pub const CODE: u8 = 32;

    pub fn new(nbufs: u16, bgid: u16) -> (r: Self)
        ensures
            r.nbufs == nbufs,
            r.bgid == bgid,
    {
        RemoveBuffers { nbufs, bgid }
    }

    pub fn build(self) -> (r: Entry)
        ensures
            r.0 == (sys::io_uring_sqe {
                opcode: Self::CODE,
                fd: self.nbufs as i32,
                buf_index: self.bgid,
                ..sys::sqe_zeroed()
            }),
    {
        let RemoveBuffers { nbufs, bgid } = self;
        let mut sqe = sys::io_uring_sqe::zeroed();
        sqe.opcode = Self::CODE;
        sqe.fd = nbufs as i32;
        sqe.buf_index = bgid;
        Entry(sqe)
    }
}

/// Duplicate pipe content, equivalent to `tee(2)`.
#[derive(Debug)]
pub struct Tee {
    pub fd_in: sealed::Target,
    pub fd_out: sealed::Target,
    pub len: u32,
    pub flags: u32,
}

impl Tee {
    /// The operation code ([`sys::IORING_OP_TEE`]).
    pub const CODE: u8 = 33;

    pub fn new<F: sealed::UseFixed, F2: sealed::UseFixed>(fd_in: F, fd_out: F2, len: u32) -> (r: Self)
        ensures
            r.fd_in == fd_in.spec_target(),
            r.fd_out == fd_out.spec_target(),
            r.len == len,
            r.flags == 0,
    {
        Tee { fd_in: sealed::UseFixed::into(fd_in), fd_out: sealed::UseFixed::into(fd_out), len, flags: 0 }
    }

    pub fn flags(self, flags: u32) -> (r: Self)
        ensures
            r == (Tee { flags, ..self }),
    {
        Tee { flags, ..self }
    }

    pub fn build(self) -> (r: Entry)
        ensures
            r.0 == (sys::io_uring_sqe {
                opcode: Self::CODE,
                flags: target_flags(self.fd_out),
                fd: target_fd(self.fd_out),
                len: self.len,
                op_flags: splice_in_flags(self.flags, self.fd_in),
                splice_fd_in: target_fd(self.fd_in),
                ..sys::sqe_zeroed()
            }),
    {
        let Tee { fd_in, fd_out, len, flags } = self;
        let mut sqe = sqe_with_target(Self::CODE, fd_out);
        sqe.len = len;
        sqe.op_flags = flags;
        match fd_in {
            sealed::Target::Fd(fd) => sqe.splice_fd_in = fd,
            sealed::Target::Fixed(idx) => {
                sqe.splice_fd_in = idx as i32;
                sqe.op_flags = sqe.op_flags | sys::SPLICE_F_FD_IN_FIXED;
            },
        }
        Entry(sqe)
    }
}

/// Shutdown a socket, equivalent to `shutdown(2)`.
#[derive(Debug)]
pub struct Shutdown {
    pub fd: sealed::Target,
    pub how: i32,
}

impl Shutdown {
    /// The operation code ([`sys::IORING_OP_SHUTDOWN`]).
    pub const CODE: u8 = 34;

    pub fn new<F: sealed::UseFixed>(fd: F, how: i32) -> (r: Self)
        ensures
            r.fd == fd.spec_target(),
            r.how == how,
    {
        Shutdown { fd: sealed::UseFixed::into(fd), how }
    }

    pub fn build(self) -> (r: Entry)
        ensures
            r.0 == (sys::io_uring_sqe {
                opcode: Self::CODE,
                flags: target_flags(self.fd),
                fd: target_fd(self.fd),
                len: self.how as u32,
                ..sys::sqe_zeroed()
            }),
    {
        let Shutdown { fd, how } = self;
        let mut sqe = sqe_with_target(Self::CODE, fd);
        sqe.len = how as u32;
        Entry(sqe)
    }
}

/// Rename a file, equivalent to `renameat2(2)`.
#[derive(Debug)]
pub struct RenameAt {
    pub olddirfd: sealed::Target,
    pub oldpath: u64,
    pub newdirfd: i32,
    pub newpath: u64,
    pub flags: u32,
}

impl RenameAt {
    /// The operation code ([`sys::IORING_OP_RENAMEAT`]).
    pub const CODE: u8 = 35;

    pub fn new<F: sealed::UseFixed>(olddirfd: F, oldpath: u64, newdirfd: i32, newpath: u64) -> (r: Self)
        ensures
            r.olddirfd == olddirfd.spec_target(),
            r.oldpath == oldpath,
            r.newdirfd == newdirfd,
            r.newpath == newpath,
            r.flags == 0,
    {
        RenameAt { olddirfd: sealed::UseFixed::into(olddirfd), oldpath, newdirfd, newpath, flags: 0 }
    }

    pub fn flags(self, flags: u32) -> (r: Self)
        ensures
            r == (RenameAt { flags, ..self }),
    {
        RenameAt { flags, ..self }
    }

    pub fn build(self) -> (r: Entry)
        ensures
            r.0 == (sys::io_uring_sqe {
                opcode: Self::CODE,
                flags: target_flags(self.olddirfd),
                fd: target_fd(self.olddirfd),
                off: self.newpath,
                addr: self.oldpath,
                len: self.newdirfd as u32,
                op_flags: self.flags,
                ..sys::sqe_zeroed()
            }),
    {
        let RenameAt { olddirfd, oldpath, newdirfd, newpath, flags } = self;
        let mut sqe = sqe_with_target(Self::CODE, olddirfd);
        sqe.addr = oldpath;
        sqe.off = newpath;
        sqe.len = newdirfd as u32;
        sqe.op_flags = flags;
        Entry(sqe)
    }
}

/// Unlink a file, equivalent to `unlinkat(2)`.
#[derive(Debug)]
pub struct UnlinkAt {
    pub dirfd: sealed::Target,
    pub pathname: u64,
    pub flags: i32,
}

impl UnlinkAt {
    /// The operation code ([`sys::IORING_OP_UNLINKAT`]).
    pub const CODE: u8 = 36;

    pub fn new<F: sealed::UseFixed>(dirfd: F, pathname: u64) -> (r: Self)
        ensures
            r.dirfd == dirfd.spec_target(),
            r.pathname == pathname,
            r.flags == 0,
    {
        UnlinkAt { dirfd: sealed::UseFixed::into(dirfd), pathname, flags: 0 }
    }

    pub fn flags(self, flags: i32) -> (r: Self)
        ensures
            r == (UnlinkAt { flags, ..self }),
    {
        UnlinkAt { flags, ..self }
    }

    pub fn build(self) -> (r: Entry)
        ensures
            r.0 == (sys::io_uring_sqe {
                opcode: Self::CODE,
                flags: target_flags(self.dirfd),
                fd: target_fd(self.dirfd),
                addr: self.pathname,
                op_flags: self.flags as u32,
                ..sys::sqe_zeroed()
            }),
    {
        let UnlinkAt { dirfd, pathname, flags } = self;
        let mut sqe = sqe_with_target(Self::CODE, dirfd);
        sqe.addr = pathname;
        sqe.op_flags = flags as u32;
        Entry(sqe)
    }
}

/// Make a directory, equivalent to `mkdirat(2)`.
#[derive(Debug)]
pub struct MkDirAt {
    pub dirfd: sealed::Target,
    pub pathname: u64,
    pub mode: u32,
}

impl MkDirAt {
    /// The operation code ([`sys::IORING_OP_MKDIRAT`]).
    pub const CODE: u8 = 37;

    pub fn new<F: sealed::UseFixed>(dirfd: F, pathname: u64) -> (r: Self)
        ensures
            r.dirfd == dirfd.spec_target(),
            r.pathname == pathname,
            r.mode == 0,
    {
        MkDirAt { dirfd: sealed::UseFixed::into(dirfd), pathname, mode: 0 }
    }

    pub fn mode(self, mode: u32) -> (r: Self)
        ensures
            r == (MkDirAt { mode, ..self }),
    {
        MkDirAt { mode, ..self }
    }

    pub fn build(self) -> (r: Entry)
        ensures
            r.0 == (sys::io_uring_sqe {
                opcode: Self::CODE,
                flags: target_flags(self.dirfd),
                fd: target_fd(self.dirfd),
                addr: self.pathname,
                len: self.mode,
                ..sys::sqe_zeroed()
            }),
    {
        let MkDirAt { dirfd, pathname, mode } = self;
        let mut sqe = sqe_with_target(Self::CODE, dirfd);
        sqe.addr = pathname;
        sqe.len = mode;
        Entry(sqe)
    }
}

/// Create a symlink, equivalent to `symlinkat(2)`.
#[derive(Debug)]
pub struct SymlinkAt {
    pub newdirfd: sealed::Target,
    pub target: u64,
    pub linkpath: u64,
}

impl SymlinkAt {
    /// The operation code ([`sys::IORING_OP_SYMLINKAT`]).
    pub const CODE: u8 = 38;

    pub fn new<F: sealed::UseFixed>(newdirfd: F, target: u64, linkpath: u64) -> (r: Self)
        ensures
            r.newdirfd == newdirfd.spec_target(),
            r.target == target,
            r.linkpath == linkpath,
    {
        SymlinkAt { newdirfd: sealed::UseFixed::into(newdirfd), target, linkpath }
    }

    pub fn build(self) -> (r: Entry)
        ensures
            r.0 == (sys::io_uring_sqe {
                opcode: Self::CODE,
                flags: target_flags(self.newdirfd),
                fd: target_fd(self.newdirfd),
                off: self.linkpath,
                addr: self.target,
                ..sys::sqe_zeroed()
            }),
    {
        let SymlinkAt { newdirfd, target, linkpath } = self;
        let mut sqe = sqe_with_target(Self::CODE, newdirfd);
        sqe.addr = target;
        sqe.off = linkpath;
        Entry(sqe)
    }
}

/// Create a hard link, equivalent to `linkat(2)`.
#[derive(Debug)]
pub struct LinkAt {
    pub olddirfd: sealed::Target,
    pub oldpath: u64,
    pub newdirfd: i32,
    pub newpath: u64,
    pub flags: i32,
}

impl LinkAt {
    /// The operation code ([`sys::IORING_OP_LINKAT`]).
    pub const CODE: u8 = 39;

    pub fn new<F: sealed::UseFixed>(olddirfd: F, oldpath: u64, newdirfd: i32, newpath: u64) -> (r: Self)
        ensures
            r.olddirfd == olddirfd.spec_target(),
            r.oldpath == oldpath,
            r.newdirfd == newdirfd,
            r.newpath == newpath,
            r.flags == 0,
    {
        LinkAt { olddirfd: sealed::UseFixed::into(olddirfd), oldpath, newdirfd, newpath, flags: 0 }
    }

    pub fn flags(self, flags: i32) -> (r: Self)
        ensures
            r == (LinkAt { flags, ..self }),
    {
        LinkAt { flags, ..self }
    }

    pub fn build(self) -> (r: Entry)
        ensures
            r.0 == (sys::io_uring_sqe {
                opcode: Self::CODE,
                flags: target_flags(self.olddirfd),
                fd: target_fd(self.olddirfd),
                off: self.newpath,
                addr: self.oldpath,
                len: self.newdirfd as u32,
                op_flags: self.flags as u32,
                ..sys::sqe_zeroed()
            }),
    {
        let LinkAt { olddirfd, oldpath, newdirfd, newpath, flags } = self;
        let mut sqe = sqe_with_target(Self::CODE, olddirfd);
        sqe.addr = oldpath;
        sqe.off = newpath;
        sqe.len = newdirfd as u32;
        sqe.op_flags = flags as u32;
        Entry(sqe)
    }
}

/// Send a message to another io_uring instance.
#[derive(Debug)]
pub struct MsgRing {
    pub fd: i32,
    pub result: i32,
    pub user_data: u64,
    pub user_flags: u32,
    pub opcode: u32,
    pub flags: u32,
}

impl MsgRing {
    /// The operation code ([`sys::IORING_OP_MSG_RING`]).
    pub const CODE: u8 = 40;

    pub fn new<D: sealed::UseFd>(fd: D, result: i32, user_data: u64, user_flags: u32) -> (r: Self)
        ensures
            r.fd == fd.spec_fd(),
            r.result == result,
            r.user_data == user_data,
            r.user_flags == user_flags,
            r.opcode == sys::IORING_MSG_DATA,
            r.flags == 0,
    {
        MsgRing { fd: sealed::UseFd::into(fd), result, user_data, user_flags, opcode: sys::IORING_MSG_DATA, flags: 0 }
    }

    pub fn opcode(self, opcode: u32) -> (r: Self)
        ensures
            r == (MsgRing { opcode, ..self }),
    {
        MsgRing { opcode, ..self }
    }

    pub fn flags(self, flags: u32) -> (r: Self)
        ensures
            r == (MsgRing { flags, ..self }),
    {
        MsgRing { flags, ..self }
    }

    pub fn build(self) -> (r: Entry)
        ensures
            r.0 == (sys::io_uring_sqe {
                opcode: Self::CODE,
                fd: self.fd,
                off: self.user_data,
                len: self.result as u32,
                op_flags: self.flags,
                buf_index: self.user_flags as u16,
                splice_fd_in: self.opcode as i32,
                ..sys::sqe_zeroed()
            }),
    {
        let MsgRing { fd, result, user_data, user_flags, opcode, flags } = self;
        let mut sqe = sys::io_uring_sqe::zeroed();
        sqe.opcode = Self::CODE;
        sqe.fd = fd;
        sqe.len = result as u32;
        sqe.off = user_data;
        sqe.op_flags = flags;
        sqe.splice_fd_in = opcode as i32;
        sqe.buf_index = user_flags as u16;
        Entry(sqe)
    }
}

/// Send a fixed file descriptor to another io_uring instance.
#[derive(Debug)]
pub struct MsgRingSendFd {
    pub fd: i32,
    pub src_fd: sealed::Target,
    pub dest_slot: types::DestinationSlot,
    pub user_data: u64,
    pub flags: u32,
}

impl MsgRingSendFd {
    /// The operation code ([`sys::IORING_OP_MSG_RING`]).
    pub const CODE: u8 = 40;

    pub fn new<D: sealed::UseFd, F: sealed::UseFixed>(fd: D, src_fd: F, dest_slot: types::DestinationSlot, user_data: u64) -> (r: Self)
        ensures
            r.fd == fd.spec_fd(),
            r.src_fd == src_fd.spec_target(),
            r.dest_slot == dest_slot,
            r.user_data == user_data,
            r.flags == 0,
    {
        MsgRingSendFd { fd: sealed::UseFd::into(fd), src_fd: sealed::UseFixed::into(src_fd), dest_slot, user_data, flags: 0 }
    }

    pub fn flags(self, flags: u32) -> (r: Self)
        ensures
            r == (MsgRingSendFd { flags, ..self }),
    {
        MsgRingSendFd { flags, ..self }
    }

    pub fn build(self) -> (r: Entry)
        ensures
            r.0 == (sys::io_uring_sqe {
                opcode: Self::CODE,
                flags: target_flags(self.src_fd),
                fd: self.fd,
                off: self.user_data,
                addr: match self.src_fd {
                    sealed::Target::Fd(src) => src as u64,
                    sealed::Target::Fixed(idx) => idx as u64,
                },
                op_flags: self.flags,
                splice_fd_in: sys::IORING_MSG_SEND_FD as i32,
                addr3: self.dest_slot.spec_kernel_index() as u64,
                ..sys::sqe_zeroed()
            }),
    {
        let MsgRingSendFd { fd, src_fd, dest_slot, user_data, flags } = self;
        let mut sqe = sys::io_uring_sqe::zeroed();
        sqe.opcode = Self::CODE;
        sqe.fd = fd;
        sqe.off = user_data;
        sqe.op_flags = flags;
        sqe.splice_fd_in = sys::IORING_MSG_SEND_FD as i32;
        match src_fd {
            sealed::Target::Fd(src) => sqe.addr = src as u64,
            sealed::Target::Fixed(idx) => {
                sqe.addr = idx as u64;
                sqe.flags = crate::squeue::Flags::FIXED_FILE().bits();
            },
        }
        sqe.addr3 = dest_slot.kernel_index_arg() as u64;
        Entry(sqe)
    }
}

/// Create a socket, equivalent to `socket(2)`.
#[derive(Debug)]
pub struct Socket {
    pub domain: i32,
    pub socket_type: i32,
    pub protocol: i32,
    pub file_index: Option<u32>,
}

impl Socket {
    /// The operation code ([`sys::IORING_OP_SOCKET`]).
    pub const CODE: u8 = 45;

    pub fn new(domain: i32, socket_type: i32, protocol: i32) -> (r: Self)
        ensures
            r.domain == domain,
            r.socket_type == socket_type,
            r.protocol == protocol,
            r.file_index is None,
    {
        Socket { domain, socket_type, protocol, file_index: None }
    }

    pub fn file_index(self, file_index: Option<u32>) -> (r: Self)
        ensures
            r == (Socket { file_index, ..self }),
    {
        Socket { file_index, ..self }
    }

    pub fn build(self) -> (r: Entry)
        requires
            self.file_index != Some(0x7FFF_FFFFu32),
        ensures
            r.0 == (sys::io_uring_sqe {
                opcode: Self::CODE,
                fd: self.domain,
                off: self.socket_type as u64,
                len: self.protocol as u32,
                splice_fd_in: file_index_arg(self.file_index),
                ..sys::sqe_zeroed()
            }),
    {
        let Socket { domain, socket_type, protocol, file_index } = self;
        let mut sqe = sys::io_uring_sqe::zeroed();
        sqe.opcode = Self::CODE;
        sqe.fd = domain;
        sqe.off = socket_type as u64;
        sqe.len = protocol as u32;
        if let Some(idx) = file_index {
            sqe.splice_fd_in = direct_slot_arg(idx);
        }
        Entry(sqe)
    }
}

/// Send with zero-copy.
#[derive(Debug)]
pub struct SendZc {
    pub fd: sealed::Target,
    pub buf: u64,
    pub len: u32,
    pub flags: u32,
    pub zc_flags: u16,
    pub buf_index: u16,
    pub dest_addr: u64,
    pub dest_addr_len: u16,
}

impl SendZc {
    /// The operation code ([`sys::IORING_OP_SEND_ZC`]).
    pub const CODE: u8 = 47;

    pub fn new<F: sealed::UseFixed>(fd: F, buf: u64, len: u32) -> (r: Self)
        ensures
            r.fd == fd.spec_target(),
            r.buf == buf,
            r.len == len,
            r.flags == 0,
            r.zc_flags == 0,
            r.buf_index == 0,
            r.dest_addr == 0,
            r.dest_addr_len == 0,
    {
        SendZc { fd: sealed::UseFixed::into(fd), buf, len, flags: 0, zc_flags: 0, buf_index: 0, dest_addr: 0, dest_addr_len: 0 }
    }

    pub fn flags(self, flags: u32) -> (r: Self)
        ensures
            r == (SendZc { flags, ..self }),
    {
        SendZc { flags, ..self }
    }

    pub fn zc_flags(self, zc_flags: u16) -> (r: Self)
        ensures
            r == (SendZc { zc_flags, ..self }),
    {
        SendZc { zc_flags, ..self }
    }

    pub fn buf_index(self, buf_index: u16) -> (r: Self)
        ensures
            r == (SendZc { buf_index, ..self }),
    {
        SendZc { buf_index, ..self }
    }

    pub fn dest_addr(self, dest_addr: u64) -> (r: Self)
        ensures
            r == (SendZc { dest_addr, ..self }),
    {
        SendZc { dest_addr, ..self }
    }

    pub fn dest_addr_len(self, dest_addr_len: u16) -> (r: Self)
        ensures
            r == (SendZc { dest_addr_len, ..self }),
    {
        SendZc { dest_addr_len, ..self }
    }

    pub fn build(self) -> (r: Entry)
        ensures
            r.0 == (sys::io_uring_sqe {
                opcode: Self::CODE,
                flags: target_flags(self.fd),
                ioprio: self.zc_flags,
                fd: target_fd(self.fd),
                addr: self.buf,
                len: self.len,
                op_flags: self.flags,
                buf_index: self.buf_index,
                splice_fd_in: if self.dest_addr != 0 { self.dest_addr_len as i32 } else { 0 },
                addr3: self.dest_addr,
                ..sys::sqe_zeroed()
            }),
    {
        let SendZc { fd, buf, len, flags, zc_flags, buf_index, dest_addr, dest_addr_len } = self;
        let mut sqe = sqe_with_target(Self::CODE, fd);
        sqe.addr = buf;
        sqe.len = len;
        sqe.op_flags = flags;
        sqe.ioprio = zc_flags;
        sqe.buf_index = buf_index;
        if dest_addr != 0 {
            sqe.addr3 = dest_addr;
            sqe.splice_fd_in = dest_addr_len as i32;
        }
        Entry(sqe)
    }
}

/// Sendmsg with zero-copy.
#[derive(Debug)]
pub struct SendMsgZc {
    pub fd: sealed::Target,
    pub msg: u64,
    pub ioprio: u16,
    pub flags: u32,
}

impl SendMsgZc {
    /// The operation code ([`sys::IORING_OP_SENDMSG_ZC`]).
    pub const CODE: u8 = 48;

    pub fn new<F: sealed::UseFixed>(fd: F, msg: u64) -> (r: Self)
        ensures
            r.fd == fd.spec_target(),
            r.msg == msg,
            r.ioprio == 0,
            r.flags == 0,
    {
        SendMsgZc { fd: sealed::UseFixed::into(fd), msg, ioprio: 0, flags: 0 }
    }

    pub fn ioprio(self, ioprio: u16) -> (r: Self)
        ensures
            r == (SendMsgZc { ioprio, ..self }),
    {
        SendMsgZc { ioprio, ..self }
    }

    pub fn flags(self, flags: u32) -> (r: Self)
        ensures
            r == (SendMsgZc { flags, ..self }),
    {
        SendMsgZc { flags, ..self }
    }

    pub fn build(self) -> (r: Entry)
        ensures
            r.0 == (sys::io_uring_sqe {
                opcode: Self::CODE,
                flags: target_flags(self.fd),
                ioprio: self.ioprio,
                fd: target_fd(self.fd),
                addr: self.msg,
                len: 1,
                op_flags: self.flags,
                ..sys::sqe_zeroed()
            }),
    {
        let SendMsgZc { fd, msg, ioprio, flags } = self;
        let mut sqe = sqe_with_target(Self::CODE, fd);
        sqe.ioprio = ioprio;
        sqe.addr = msg;
        sqe.op_flags = flags;
        sqe.len = 1;
        Entry(sqe)
    }
}

/// Truncate a file, equivalent to `ftruncate(2)`.
#[derive(Debug)]
pub struct Ftruncate {
    pub fd: sealed::Target,
    pub len: u64,
}

impl Ftruncate {
    /// The operation code ([`sys::IORING_OP_FTRUNCATE`]).
    pub const CODE: u8 = 55;

    pub fn new<F: sealed::UseFixed>(fd: F, len: u64) -> (r: Self)
        ensures
            r.fd == fd.spec_target(),
            r.len == len,
    {
        Ftruncate { fd: sealed::UseFixed::into(fd), len }
    }

    pub fn build(self) -> (r: Entry)
        ensures
            r.0 == (sys::io_uring_sqe {
                opcode: Self::CODE,
                flags: target_flags(self.fd),
                fd: target_fd(self.fd),
                off: self.len,
                ..sys::sqe_zeroed()
            }),
    {
        let Ftruncate { fd, len } = self;
        let mut sqe = sqe_with_target(Self::CODE, fd);
        sqe.off = len;
        Entry(sqe)
    }
}

/// Bind a socket, equivalent to `bind(2)`.
#[derive(Debug)]
pub struct Bind {
    pub fd: sealed::Target,
    pub addr: u64,
    pub addrlen: u32,
}

impl Bind {
    /// The operation code ([`sys::IORING_OP_BIND`]).
    pub const CODE: u8 = 56;

    pub fn new<F: sealed::UseFixed>(fd: F, addr: u64, addrlen: u32) -> (r: Self)
        ensures
            r.fd == fd.spec_target(),
            r.addr == addr,
            r.addrlen == addrlen,
    {
        Bind { fd: sealed::UseFixed::into(fd), addr, addrlen }
    }

    pub fn build(self) -> (r: Entry)
        ensures
            r.0 == (sys::io_uring_sqe {
                opcode: Self::CODE,
                flags: target_flags(self.fd),
                fd: target_fd(self.fd),
                off: self.addrlen as u64,
                addr: self.addr,
                ..sys::sqe_zeroed()
            }),
    {
        let Bind { fd, addr, addrlen } = self;
        let mut sqe = sqe_with_target(Self::CODE, fd);
        sqe.addr = addr;
        sqe.off = addrlen as u64;
        Entry(sqe)
    }
}

/// Listen on a socket, equivalent to `listen(2)`.
#[derive(Debug)]
pub struct Listen {
    pub fd: sealed::Target,
    pub backlog: i32,
}

impl Listen {
    /// The operation code ([`sys::IORING_OP_LISTEN`]).
    pub const CODE: u8 = 57;

    pub fn new<F: sealed::UseFixed>(fd: F, backlog: i32) -> (r: Self)
        ensures
            r.fd == fd.spec_target(),
            r.backlog == backlog,
    {
        Listen { fd: sealed::UseFixed::into(fd), backlog }
    }

    pub fn build(self) -> (r: Entry)
        ensures
            r.0 == (sys::io_uring_sqe {
                opcode: Self::CODE,
                flags: target_flags(self.fd),
                fd: target_fd(self.fd),
                len: self.backlog as u32,
                ..sys::sqe_zeroed()
            }),
    {
        let Listen { fd, backlog } = self;
        let mut sqe = sqe_with_target(Self::CODE, fd);
        sqe.len = backlog as u32;
        Entry(sqe)
    }
}

/// Provide file access advice, equivalent to `posix_fadvise(2)`.
#[derive(Debug)]
pub struct Fadvise {
    pub fd: sealed::Target,
    pub len: u32,
    pub advice: i32,
    pub offset: u64,
}

impl Fadvise {
    /// The operation code ([`sys::IORING_OP_FADVISE`]).
    pub const CODE: u8 = 24;

    pub fn new<F: sealed::UseFixed>(fd: F, len: u32, advice: i32) -> (r: Self)
        ensures
            r.fd == fd.spec_target(),
            r.len == len,
            r.advice == advice,
            r.offset == 0,
    {
        Fadvise { fd: sealed::UseFixed::into(fd), len, advice, offset: 0 }
    }

    pub fn offset(self, offset: u64) -> (r: Self)
        ensures
            r == (Fadvise { offset, ..self }),
    {
        Fadvise { offset, ..self }
    }

    pub fn build(self) -> (r: Entry)
        ensures
            r.0 == (sys::io_uring_sqe {
                opcode: Self::CODE,
                flags: target_flags(self.fd),
                fd: target_fd(self.fd),
                off: self.offset,
                len: self.len,
                op_flags: self.advice as u32,
                ..sys::sqe_zeroed()
            }),
    {
        let Fadvise { fd, len, advice, offset } = self;
        let mut sqe = sqe_with_target(Self::CODE, fd);
        sqe.len = len;
        sqe.off = offset;
        sqe.op_flags = advice as u32;
        Entry(sqe)
    }
}

/// Provide memory advice, equivalent to `madvise(2)`.
#[derive(Debug)]
pub struct Madvise {
    pub addr: u64,
    pub len: u32,
    pub advice: i32,
}

impl Madvise {
    /// The operation code ([`sys::IORING_OP_MADVISE`]).
    pub const CODE: u8 = 25;

    pub fn new(addr: u64, len: u32, advice: i32) -> (r: Self)
        ensures
            r.addr == addr,
            r.len == len,
            r.advice == advice,
    {
        Madvise { addr, len, advice }
    }

    pub fn build(self) -> (r: Entry)
        ensures
            r.0 == (sys::io_uring_sqe {
                opcode: Self::CODE,
                fd: -1i32,
                addr: self.addr,
                len: self.len,
                op_flags: self.advice as u32,
                ..sys::sqe_zeroed()
            }),
    {
        let Madvise { addr, len, advice } = self;
        let mut sqe = sys::io_uring_sqe::zeroed();
        sqe.opcode = Self::CODE;
        sqe.fd = -1;
        sqe.addr = addr;
        sqe.len = len;
        sqe.op_flags = advice as u32;
        Entry(sqe)
    }
}

/// Multishot accept — repeatedly accept connections with a single SQE.
///
/// Unlike [`Accept`], this does not return a sockaddr. The caller should use
/// `getpeername` if the remote address is needed.
#[derive(Debug)]
pub struct AcceptMulti {
    pub fd: sealed::Target,
    pub allocate_file_index: bool,
    pub flags: i32,
}

impl AcceptMulti {
    /// The operation code ([`sys::IORING_OP_ACCEPT`]).
    pub const CODE: u8 = 13;

    pub fn new<F: sealed::UseFixed>(fd: F) -> (r: Self)
        ensures
            r.fd == fd.spec_target(),
            !r.allocate_file_index,
            r.flags == 0,
    {
        AcceptMulti { fd: sealed::UseFixed::into(fd), allocate_file_index: false, flags: 0 }
    }

    pub fn allocate_file_index(self, allocate_file_index: bool) -> (r: Self)
        ensures
            r == (AcceptMulti { allocate_file_index, ..self }),
    {
        AcceptMulti { allocate_file_index, ..self }
    }

    pub fn flags(self, flags: i32) -> (r: Self)
        ensures
            r == (AcceptMulti { flags, ..self }),
    {
        AcceptMulti { flags, ..self }
    }

    pub fn build(self) -> (r: Entry)
        ensures
            r.0 == (sys::io_uring_sqe {
                opcode: Self::CODE,
                flags: target_flags(self.fd),
                ioprio: sys::IORING_ACCEPT_MULTISHOT as u16,
                fd: target_fd(self.fd),
                op_flags: self.flags as u32,
                splice_fd_in: if self.allocate_file_index { sys::IORING_FILE_INDEX_ALLOC } else { 0 },
                ..sys::sqe_zeroed()
            }),
    {
        let AcceptMulti { fd, allocate_file_index, flags } = self;
        let mut sqe = sqe_with_target(Self::CODE, fd);
        sqe.ioprio = sys::IORING_ACCEPT_MULTISHOT as u16;
        sqe.op_flags = flags as u32;
        if allocate_file_index {
            sqe.splice_fd_in = sys::IORING_FILE_INDEX_ALLOC;
        }
        Entry(sqe)
    }
}

/// Multishot receive — repeatedly receive messages with buffer selection.
#[derive(Debug)]
pub struct RecvMulti {
    pub fd: sealed::Target,
    pub buf_group: u16,
    pub flags: i32,
}

impl RecvMulti {
    /// The operation code ([`sys::IORING_OP_RECV`]).
    pub const CODE: u8 = 27;

    pub fn new<F: sealed::UseFixed>(fd: F, buf_group: u16) -> (r: Self)
        ensures
            r.fd == fd.spec_target(),
            r.buf_group == buf_group,
            r.flags == 0,
    {
        RecvMulti { fd: sealed::UseFixed::into(fd), buf_group, flags: 0 }
    }

    pub fn flags(self, flags: i32) -> (r: Self)
        ensures
            r == (RecvMulti { flags, ..self }),
    {
        RecvMulti { flags, ..self }
    }

    pub fn build(self) -> (r: Entry)
        ensures
            r.0 == (sys::io_uring_sqe {
                opcode: Self::CODE,
                flags: target_flags(self.fd) | buffer_select_flag(),
                ioprio: sys::IORING_RECV_MULTISHOT as u16,
                fd: target_fd(self.fd),
                op_flags: self.flags as u32,
                buf_index: self.buf_group,
                ..sys::sqe_zeroed()
            }),
    {
        let RecvMulti { fd, buf_group, flags } = self;
        let mut sqe = sqe_with_target(Self::CODE, fd);
        sqe.op_flags = flags as u32;
        sqe.buf_index = buf_group;
        sqe.flags = sqe.flags | crate::squeue::Flags::BUFFER_SELECT().bits();
        sqe.ioprio = sys::IORING_RECV_MULTISHOT as u16;
        Entry(sqe)
    }
}

/// Multishot recvmsg — repeatedly receive messages with buffer ring selection.
#[derive(Debug)]
pub struct RecvMsgMulti {
    pub fd: sealed::Target,
    pub msg: u64,
    pub buf_group: u16,
    pub ioprio: u16,
    pub flags: u32,
}

impl RecvMsgMulti {
    /// The operation code ([`sys::IORING_OP_RECVMSG`]).
    pub const CODE: u8 = 10;

    pub fn new<F: sealed::UseFixed>(fd: F, msg: u64, buf_group: u16) -> (r: Self)
        ensures
            r.fd == fd.spec_target(),
            r.msg == msg,
            r.buf_group == buf_group,
            r.ioprio == 0,
            r.flags == 0,
    {
        RecvMsgMulti { fd: sealed::UseFixed::into(fd), msg, buf_group, ioprio: 0, flags: 0 }
    }

    pub fn ioprio(self, ioprio: u16) -> (r: Self)
        ensures
            r == (RecvMsgMulti { ioprio, ..self }),
    {
        RecvMsgMulti { ioprio, ..self }
    }

    pub fn flags(self, flags: u32) -> (r: Self)
        ensures
            r == (RecvMsgMulti { flags, ..self }),
    {
        RecvMsgMulti { flags, ..self }
    }

    pub fn build(self) -> (r: Entry)
        ensures
            r.0 == (sys::io_uring_sqe {
                opcode: Self::CODE,
                flags: target_flags(self.fd) | buffer_select_flag(),
                ioprio: self.ioprio | (sys::IORING_RECV_MULTISHOT as u16),
                fd: target_fd(self.fd),
                addr: self.msg,
                len: 1,
                op_flags: self.flags,
                buf_index: self.buf_group,
                ..sys::sqe_zeroed()
            }),
    {
        let RecvMsgMulti { fd, msg, buf_group, ioprio, flags } = self;
        let mut sqe = sqe_with_target(Self::CODE, fd);
        sqe.addr = msg;
        sqe.len = 1;
        sqe.op_flags = flags;
        sqe.buf_index = buf_group;
        sqe.flags = sqe.flags | crate::squeue::Flags::BUFFER_SELECT().bits();
        sqe.ioprio = ioprio | (sys::IORING_RECV_MULTISHOT as u16);
        Entry(sqe)
    }
}

/// Receive a bundle of buffers from a socket.
#[derive(Debug)]
pub struct RecvBundle {
    pub fd: sealed::Target,
    pub buf_group: u16,
    pub flags: i32,
}

impl RecvBundle {
    /// The operation code ([`sys::IORING_OP_RECV`]).
    pub const CODE: u8 = 27;

    pub fn new<F: sealed::UseFixed>(fd: F, buf_group: u16) -> (r: Self)
        ensures
            r.fd == fd.spec_target(),
            r.buf_group == buf_group,
            r.flags == 0,
    {
        RecvBundle { fd: sealed::UseFixed::into(fd), buf_group, flags: 0 }
    }

    pub fn flags(self, flags: i32) -> (r: Self)
        ensures
            r == (RecvBundle { flags, ..self }),
    {
        RecvBundle { flags, ..self }
    }

    pub fn build(self) -> (r: Entry)
        ensures
            r.0 == (sys::io_uring_sqe {
                opcode: Self::CODE,
                flags: target_flags(self.fd) | buffer_select_flag(),
                ioprio: sys::IORING_RECVSEND_BUNDLE as u16,
                fd: target_fd(self.fd),
                op_flags: self.flags as u32,
                buf_index: self.buf_group,
                ..sys::sqe_zeroed()
            }),
    {
        let RecvBundle { fd, buf_group, flags } = self;
        let mut sqe = sqe_with_target(Self::CODE, fd);
        sqe.op_flags = flags as u32;
        sqe.buf_index = buf_group;
        sqe.flags = sqe.flags | crate::squeue::Flags::BUFFER_SELECT().bits();
        sqe.ioprio = sys::IORING_RECVSEND_BUNDLE as u16;
        Entry(sqe)
    }
}

/// Multishot receive with bundle — repeatedly receive bundled buffers.
#[derive(Debug)]
pub struct RecvMultiBundle {
    pub fd: sealed::Target,
    pub buf_group: u16,
    pub flags: i32,
}

impl RecvMultiBundle {
    /// The operation code ([`sys::IORING_OP_RECV`]).
    pub const CODE: u8 = 27;

    pub fn new<F: sealed::UseFixed>(fd: F, buf_group: u16) -> (r: Self)
        ensures
            r.fd == fd.spec_target(),
            r.buf_group == buf_group,
            r.flags == 0,
    {
        RecvMultiBundle { fd: sealed::UseFixed::into(fd), buf_group, flags: 0 }
    }

    pub fn flags(self, flags: i32) -> (r: Self)
        ensures
            r == (RecvMultiBundle { flags, ..self }),
    {
        RecvMultiBundle { flags, ..self }
    }

    pub fn build(self) -> (r: Entry)
        ensures
            r.0 == (sys::io_uring_sqe {
                opcode: Self::CODE,
                flags: target_flags(self.fd) | buffer_select_flag(),
                ioprio: (sys::IORING_RECV_MULTISHOT as u16) | sys::IORING_RECVSEND_BUNDLE as u16,
                fd: target_fd(self.fd),
                op_flags: self.flags as u32,
                buf_index: self.buf_group,
                ..sys::sqe_zeroed()
            }),
    {
        let RecvMultiBundle { fd, buf_group, flags } = self;
        let mut sqe = sqe_with_target(Self::CODE, fd);
        sqe.op_flags = flags as u32;
        sqe.buf_index = buf_group;
        sqe.flags = sqe.flags | crate::squeue::Flags::BUFFER_SELECT().bits();
        sqe.ioprio = sys::IORING_RECV_MULTISHOT as u16;
        sqe.ioprio = sqe.ioprio | sys::IORING_RECVSEND_BUNDLE as u16;
        Entry(sqe)
    }
}

/// Send a bundle of buffers on a socket in a single request.
#[derive(Debug)]
pub struct SendBundle {
    pub fd: sealed::Target,
    pub buf_group: u16,
    pub flags: i32,
    pub len: u32,
}

impl SendBundle {
    /// The operation code ([`sys::IORING_OP_SEND`]).
    pub const CODE: u8 = 26;

    pub fn new<F: sealed::UseFixed>(fd: F, buf_group: u16) -> (r: Self)
        ensures
            r.fd == fd.spec_target(),
            r.buf_group == buf_group,
            r.flags == 0,
            r.len == 0,
    {
        SendBundle { fd: sealed::UseFixed::into(fd), buf_group, flags: 0, len: 0 }
    }

    pub fn flags(self, flags: i32) -> (r: Self)
        ensures
            r == (SendBundle { flags, ..self }),
    {
        SendBundle { flags, ..self }
    }

    pub fn len(self, len: u32) -> (r: Self)
        ensures
            r == (SendBundle { len, ..self }),
    {
        SendBundle { len, ..self }
    }

    pub fn build(self) -> (r: Entry)
        ensures
            r.0 == (sys::io_uring_sqe {
                opcode: Self::CODE,
                flags: target_flags(self.fd) | buffer_select_flag(),
                ioprio: sys::IORING_RECVSEND_BUNDLE as u16,
                fd: target_fd(self.fd),
                len: self.len,
                op_flags: self.flags as u32,
                buf_index: self.buf_group,
                ..sys::sqe_zeroed()
            }),
    {
        let SendBundle { fd, len, flags, buf_group } = self;
        let mut sqe = sqe_with_target(Self::CODE, fd);
        sqe.len = len;
        sqe.op_flags = flags as u32;
        sqe.ioprio = sys::IORING_RECVSEND_BUNDLE as u16;
        sqe.flags = sqe.flags | crate::squeue::Flags::BUFFER_SELECT().bits();
        sqe.buf_index = buf_group;
        Entry(sqe)
    }
}

/// Multishot read — buffer group selection for repeated reads.
#[derive(Debug)]
pub struct ReadMulti {
    pub fd: sealed::Target,
    pub len: u32,
    pub buf_group: u16,
    pub offset: u64,
}

impl ReadMulti {
    /// The operation code ([`sys::IORING_OP_READ_MULTISHOT`]).
    pub const CODE: u8 = 49;

    pub fn new<F: sealed::UseFixed>(fd: F, len: u32, buf_group: u16) -> (r: Self)
        ensures
            r.fd == fd.spec_target(),
            r.len == len,
            r.buf_group == buf_group,
            r.offset == 0,
    {
        ReadMulti { fd: sealed::UseFixed::into(fd), len, buf_group, offset: 0 }
    }

    pub fn offset(self, offset: u64) -> (r: Self)
        ensures
            r == (ReadMulti { offset, ..self }),
    {
        ReadMulti { offset, ..self }
    }

    pub fn build(self) -> (r: Entry)
        ensures
            r.0 == (sys::io_uring_sqe {
                opcode: Self::CODE,
                flags: buffer_select_flag(),
                fd: target_fd(self.fd),
                off: self.offset,
                len: self.len,
                buf_index: self.buf_group,
                ..sys::sqe_zeroed()
            }),
    {
        let ReadMulti { fd, len, buf_group, offset } = self;
        let mut sqe = sqe_with_target(Self::CODE, fd);
        sqe.off = offset;
        sqe.len = len;
        sqe.buf_index = buf_group;
        sqe.flags = crate::squeue::Flags::BUFFER_SELECT().bits();
        Entry(sqe)
    }
}

/// Get extended attribute, equivalent to `getxattr(2)`.
#[derive(Debug)]
pub struct GetXattr {
    pub name: u64,
    pub value: u64,
    pub path: u64,
    pub len: u32,
}

impl GetXattr {
    /// The operation code ([`sys::IORING_OP_GETXATTR`]).
    pub const CODE: u8 = 44;

    pub fn new(name: u64, value: u64, path: u64, len: u32) -> (r: Self)
        ensures
            r.name == name,
            r.value == value,
            r.path == path,
            r.len == len,
    {
        GetXattr { name, value, path, len }
    }

    pub fn build(self) -> (r: Entry)
        ensures
            r.0 == (sys::io_uring_sqe {
                opcode: Self::CODE,
                off: self.value,
                addr: self.name,
                len: self.len,
                op_flags: 0,
                addr3: self.path,
                ..sys::sqe_zeroed()
            }),
    {
        let GetXattr { name, value, path, len } = self;
        let mut sqe = sys::io_uring_sqe::zeroed();
        sqe.opcode = Self::CODE;
        sqe.addr = name;
        sqe.len = len;
        sqe.off = value;
        sqe.addr3 = path;
        sqe.op_flags = 0;
        Entry(sqe)
    }
}

/// Set extended attribute, equivalent to `setxattr(2)`.
#[derive(Debug)]
pub struct SetXattr {
    pub name: u64,
    pub value: u64,
    pub path: u64,
    pub len: u32,
    pub flags: i32,
}

impl SetXattr {
    /// The operation code ([`sys::IORING_OP_SETXATTR`]).
    pub const CODE: u8 = 42;

    pub fn new(name: u64, value: u64, path: u64, len: u32) -> (r: Self)
        ensures
            r.name == name,
            r.value == value,
            r.path == path,
            r.len == len,
            r.flags == 0,
    {
        SetXattr { name, value, path, len, flags: 0 }
    }

    pub fn flags(self, flags: i32) -> (r: Self)
        ensures
            r == (SetXattr { flags, ..self }),
    {
        SetXattr { flags, ..self }
    }

    pub fn build(self) -> (r: Entry)
        ensures
            r.0 == (sys::io_uring_sqe {
                opcode: Self::CODE,
                off: self.value,
                addr: self.name,
                len: self.len,
                op_flags: self.flags as u32,
                addr3: self.path,
                ..sys::sqe_zeroed()
            }),
    {
        let SetXattr { name, value, path, flags, len } = self;
        let mut sqe = sys::io_uring_sqe::zeroed();
        sqe.opcode = Self::CODE;
        sqe.addr = name;
        sqe.len = len;
        sqe.off = value;
        sqe.addr3 = path;
        sqe.op_flags = flags as u32;
        Entry(sqe)
    }
}

/// Get extended attribute on a file descriptor, equivalent to `fgetxattr(2)`.
#[derive(Debug)]
pub struct FGetXattr {
    pub fd: sealed::Target,
    pub name: u64,
    pub value: u64,
    pub len: u32,
}

impl FGetXattr {
    /// The operation code ([`sys::IORING_OP_FGETXATTR`]).
    pub const CODE: u8 = 43;

    pub fn new<F: sealed::UseFixed>(fd: F, name: u64, value: u64, len: u32) -> (r: Self)
        ensures
            r.fd == fd.spec_target(),
            r.name == name,
            r.value == value,
            r.len == len,
    {
        FGetXattr { fd: sealed::UseFixed::into(fd), name, value, len }
    }

    pub fn build(self) -> (r: Entry)
        ensures
            r.0 == (sys::io_uring_sqe {
                opcode: Self::CODE,
                flags: target_flags(self.fd),
                fd: target_fd(self.fd),
                off: self.value,
                addr: self.name,
                len: self.len,
                op_flags: 0,
                ..sys::sqe_zeroed()
            }),
    {
        let FGetXattr { fd, name, value, len } = self;
        let mut sqe = sqe_with_target(Self::CODE, fd);
        sqe.addr = name;
        sqe.len = len;
        sqe.off = value;
        sqe.op_flags = 0;
        Entry(sqe)
    }
}

/// Set extended attribute on a file descriptor, equivalent to `fsetxattr(2)`.
#[derive(Debug)]
pub struct FSetXattr {
    pub fd: sealed::Target,
    pub name: u64,
    pub value: u64,
    pub len: u32,
    pub flags: i32,
}

impl FSetXattr {
    /// The operation code ([`sys::IORING_OP_FSETXATTR`]).
    pub const CODE: u8 = 41;

    pub fn new<F: sealed::UseFixed>(fd: F, name: u64, value: u64, len: u32) -> (r: Self)
        ensures
            r.fd == fd.spec_target(),
            r.name == name,
            r.value == value,
            r.len == len,
            r.flags == 0,
    {
        FSetXattr { fd: sealed::UseFixed::into(fd), name, value, len, flags: 0 }
    }

    pub fn flags(self, flags: i32) -> (r: Self)
        ensures
            r == (FSetXattr { flags, ..self }),
    {
        FSetXattr { flags, ..self }
    }

    pub fn build(self) -> (r: Entry)
        ensures
            r.0 == (sys::io_uring_sqe {
                opcode: Self::CODE,
                flags: target_flags(self.fd),
                fd: target_fd(self.fd),
                off: self.value,
                addr: self.name,
                len: self.len,
                op_flags: self.flags as u32,
                ..sys::sqe_zeroed()
            }),
    {
        let FSetXattr { fd, name, value, flags, len } = self;
        let mut sqe = sqe_with_target(Self::CODE, fd);
        sqe.addr = name;
        sqe.len = len;
        sqe.off = value;
        sqe.op_flags = flags as u32;
        Entry(sqe)
    }
}

/// Cancel an in-flight operation using a [`CancelBuilder`](types::CancelBuilder).
#[derive(Debug)]
pub struct AsyncCancel2 {
    pub builder: types::CancelBuilder,
}

impl AsyncCancel2 {
    /// The operation code ([`sys::IORING_OP_ASYNC_CANCEL`]).
    pub const CODE: u8 = 14;

    pub fn new(builder: types::CancelBuilder) -> (r: Self)
        ensures
            r.builder == builder,
    {
        AsyncCancel2 { builder }
    }

    pub fn build(self) -> (r: Entry)
        ensures
            r.0 == (sys::io_uring_sqe {
                opcode: Self::CODE,
                fd: self.builder.spec_to_fd(),
                addr: match self.builder.spec_user_data() {
                    Some(u) => u,
                    None => 0,
                },
                op_flags: self.builder.spec_flags(),
                ..sys::sqe_zeroed()
            }),
    {
        let AsyncCancel2 { builder } = self;
        let mut sqe = sys::io_uring_sqe::zeroed();
        sqe.opcode = Self::CODE;
        sqe.fd = builder.to_fd();
        sqe.addr = builder.user_data_or_zero();
        sqe.op_flags = builder.flag_bits();
        Entry(sqe)
    }
}

/// Update an existing timeout operation.
#[derive(Debug)]
pub struct TimeoutUpdate {
    pub user_data: u64,
    pub timespec: u64,
    pub flags: types::TimeoutFlags,
}

impl TimeoutUpdate {
    /// The operation code ([`sys::IORING_OP_TIMEOUT_REMOVE`]).
    pub const CODE: u8 = 12;

    pub fn new(user_data: u64, timespec: u64) -> (r: Self)
        ensures
            r.user_data == user_data,
            r.timespec == timespec,
            r.flags.spec_bits() == 0,
    {
        TimeoutUpdate { user_data, timespec, flags: types::TimeoutFlags::empty() }
    }

    pub fn flags(self, flags: types::TimeoutFlags) -> (r: Self)
        ensures
            r == (TimeoutUpdate { flags, ..self }),
    {
        TimeoutUpdate { flags, ..self }
    }

    pub fn build(self) -> (r: Entry)
        ensures
            r.0 == (sys::io_uring_sqe {
                opcode: Self::CODE,
                fd: -1i32,
                off: self.timespec,
                addr: self.user_data,
                op_flags: self.flags.spec_bits() | sys::IORING_TIMEOUT_UPDATE,
                ..sys::sqe_zeroed()
            }),
    {
        let TimeoutUpdate { user_data, timespec, flags } = self;
        let mut sqe = sys::io_uring_sqe::zeroed();
        sqe.opcode = Self::CODE;
        sqe.fd = -1;
        sqe.off = timespec;
        sqe.addr = user_data;
        sqe.op_flags = flags.bits() | sys::IORING_TIMEOUT_UPDATE;
        Entry(sqe)
    }
}

/// A file/device-specific 16-byte command, akin to `ioctl(2)`.
#[derive(Debug)]
pub struct UringCmd16 {
    pub fd: sealed::Target,
    pub cmd_op: u32,
    pub buf_index: Option<u16>,
    pub cmd: [u8; 16],
}

impl UringCmd16 {
    /// The operation code ([`sys::IORING_OP_URING_CMD`]).
    pub const CODE: u8 = 46;

    pub fn new<F: sealed::UseFixed>(fd: F, cmd_op: u32) -> (r: Self)
        ensures
            r.fd == fd.spec_target(),
            r.cmd_op == cmd_op,
            r.buf_index is None,
            r.cmd@ == Seq::new(16, |_i: int| 0u8),
    {
        UringCmd16 { fd: sealed::UseFixed::into(fd), cmd_op, buf_index: None, cmd: [0u8; 16] }
    }

    pub fn buf_index(self, buf_index: Option<u16>) -> (r: Self)
        ensures
            r == (UringCmd16 { buf_index, ..self }),
    {
        UringCmd16 { buf_index, ..self }
    }

    pub fn cmd(self, cmd: [u8; 16]) -> (r: Self)
        ensures
            r == (UringCmd16 { cmd, ..self }),
    {
        UringCmd16 { cmd, ..self }
    }

    pub fn build(self) -> (r: Entry)
        ensures
            r.0 == (sys::io_uring_sqe {
                opcode: Self::CODE,
                flags: target_flags(self.fd),
                fd: target_fd(self.fd),
                off: self.cmd_op as u64,
                op_flags: if self.buf_index is Some { sys::IORING_URING_CMD_FIXED } else { 0 },
                buf_index: match self.buf_index {
                    Some(b) => b,
                    None => 0,
                },
                addr3: spec_u64_le(self.cmd@, 0),
                __pad2: [spec_u64_le(self.cmd@, 8)],
                ..sys::sqe_zeroed()
            }),
    {
        let UringCmd16 { fd, cmd_op, cmd, buf_index } = self;
        let mut sqe = sqe_with_target(Self::CODE, fd);
        sqe.off = cmd_op as u64;
        sqe.addr3 = u64_le(&cmd, 0);
        sqe.__pad2 = [u64_le(&cmd, 8)];
        if let Some(buf_index) = buf_index {
            sqe.buf_index = buf_index;
            sqe.op_flags = sys::IORING_URING_CMD_FIXED;
        }
        Entry(sqe)
    }
}

/// A file/device-specific 80-byte command (needs [`Entry128`]).
#[derive(Debug)]
pub struct UringCmd80 {
    pub fd: sealed::Target,
    pub cmd_op: u32,
    pub buf_index: Option<u16>,
    pub cmd: [u8; 80],
}

impl UringCmd80 {
    /// The operation code ([`sys::IORING_OP_URING_CMD`]).
    pub const CODE: u8 = 46;

    pub fn new<F: sealed::UseFixed>(fd: F, cmd_op: u32) -> (r: Self)
        ensures
            r.fd == fd.spec_target(),
            r.cmd_op == cmd_op,
            r.buf_index is None,
            r.cmd@ == Seq::new(80, |_i: int| 0u8),
    {
        UringCmd80 { fd: sealed::UseFixed::into(fd), cmd_op, buf_index: None, cmd: [0u8; 80] }
    }

    pub fn buf_index(self, buf_index: Option<u16>) -> (r: Self)
        ensures
            r == (UringCmd80 { buf_index, ..self }),
    {
        UringCmd80 { buf_index, ..self }
    }

    pub fn cmd(self, cmd: [u8; 80]) -> (r: Self)
        ensures
            r == (UringCmd80 { cmd, ..self }),
    {
        UringCmd80 { cmd, ..self }
    }

    pub fn build(self) -> (r: Entry128)
        ensures
            r.0.0 == (sys::io_uring_sqe {
                opcode: Self::CODE,
                flags: target_flags(self.fd),
                fd: target_fd(self.fd),
                off: self.cmd_op as u64,
                op_flags: if self.buf_index is Some { sys::IORING_URING_CMD_FIXED } else { 0 },
                buf_index: match self.buf_index {
                    Some(b) => b,
                    None => 0,
                },
                addr3: spec_u64_le(self.cmd@, 0),
                __pad2: [spec_u64_le(self.cmd@, 8)],
                ..sys::sqe_zeroed()
            }),
            r.1@ == self.cmd@.subrange(16, 80),
    {
        let UringCmd80 { fd, cmd_op, cmd, buf_index } = self;
        let mut cmd2 = [0u8; 64];
        let mut i: usize = 0;
        while i < 64
            invariant
                i <= 64,
                forall|j: int| 0 <= j < i ==> cmd2@[j] == cmd@[16 + j],
            decreases 64 - i,
        {
            cmd2[i] = cmd[16 + i];
            i = i + 1;
        }
        let mut sqe = sqe_with_target(Self::CODE, fd);
        sqe.off = cmd_op as u64;
        sqe.addr3 = u64_le(&cmd, 0);
        sqe.__pad2 = [u64_le(&cmd, 8)];
        if let Some(buf_index) = buf_index {
            sqe.buf_index = buf_index;
            sqe.op_flags = sys::IORING_URING_CMD_FIXED;
        }
        proof {
            assert(cmd2@ =~= cmd@.subrange(16, 80));
        }
        Entry128(Entry(sqe), cmd2)
    }
}

/// Set a socket option via `URING_CMD`.
#[derive(Debug)]
pub struct SetSockOpt {
    pub fd: sealed::Target,
    pub level: u32,
    pub optname: u32,
    pub optval: u64,
    pub optlen: u32,
    pub flags: u32,
}

impl SetSockOpt {
    /// The operation code ([`sys::IORING_OP_URING_CMD`]).
    pub const CODE: u8 = 46;

    pub fn new<F: sealed::UseFixed>(fd: F, level: u32, optname: u32, optval: u64, optlen: u32) -> (r: Self)
        ensures
            r.fd == fd.spec_target(),
            r.level == level,
            r.optname == optname,
            r.optval == optval,
            r.optlen == optlen,
            r.flags == 0,
    {
        SetSockOpt { fd: sealed::UseFixed::into(fd), level, optname, optval, optlen, flags: 0 }
    }

    pub fn flags(self, flags: u32) -> (r: Self)
        ensures
            r == (SetSockOpt { flags, ..self }),
    {
        SetSockOpt { flags, ..self }
    }

    pub fn build(self) -> (r: Entry)
        ensures
            r.0 == (sys::io_uring_sqe {
                opcode: Self::CODE,
                flags: target_flags(self.fd),
                fd: target_fd(self.fd),
                off: sys::SOCKET_URING_OP_SETSOCKOPT as u64,
                addr: ((self.optname as u64) << 32) | (self.level as u64),
                op_flags: self.flags,
                splice_fd_in: self.optlen as i32,
                addr3: self.optval,
                ..sys::sqe_zeroed()
            }),
    {
        let SetSockOpt { fd, level, optname, optval, optlen, flags } = self;
        let mut sqe = sqe_with_target(Self::CODE, fd);
        sqe.off = sys::SOCKET_URING_OP_SETSOCKOPT as u64;
        sqe.addr = ((optname as u64) << 32) | (level as u64);
        sqe.op_flags = flags;
        sqe.splice_fd_in = optlen as i32;
        sqe.addr3 = optval;
        Entry(sqe)
    }
}

/// Wait on a futex, similar to `futex(2)` `FUTEX_WAIT_BITSET`.
#[derive(Debug)]
pub struct FutexWait {
    pub futex: u64,
    pub val: u64,
    pub mask: u64,
    pub futex_flags: u32,
    pub flags: u32,
}

impl FutexWait {
    /// The operation code ([`sys::IORING_OP_FUTEX_WAIT`]).
    pub const CODE: u8 = 51;

    pub fn new(futex: u64, val: u64, mask: u64, futex_flags: u32) -> (r: Self)
        ensures
            r.futex == futex,
            r.val == val,
            r.mask == mask,
            r.futex_flags == futex_flags,
            r.flags == 0,
    {
        FutexWait { futex, val, mask, futex_flags, flags: 0 }
    }

    pub fn flags(self, flags: u32) -> (r: Self)
        ensures
            r == (FutexWait { flags, ..self }),
    {
        FutexWait { flags, ..self }
    }

    pub fn build(self) -> (r: Entry)
        ensures
            r.0 == (sys::io_uring_sqe {
                opcode: Self::CODE,
                fd: self.futex_flags as i32,
                off: self.val,
                addr: self.futex,
                op_flags: self.flags,
                addr3: self.mask,
                ..sys::sqe_zeroed()
            }),
    {
        let FutexWait { futex, val, mask, futex_flags, flags } = self;
        let mut sqe = sys::io_uring_sqe::zeroed();
        sqe.opcode = Self::CODE;
        sqe.fd = futex_flags as i32;
        sqe.addr = futex;
        sqe.off = val;
        sqe.addr3 = mask;
        sqe.op_flags = flags;
        Entry(sqe)
    }
}

/// Wake waiters on a futex, similar to `futex(2)` `FUTEX_WAKE_BITSET`.
#[derive(Debug)]
pub struct FutexWake {
    pub futex: u64,
    pub val: u64,
    pub mask: u64,
    pub futex_flags: u32,
    pub flags: u32,
}

impl FutexWake {
    /// The operation code ([`sys::IORING_OP_FUTEX_WAKE`]).
    pub const CODE: u8 = 52;

    pub fn new(futex: u64, val: u64, mask: u64, futex_flags: u32) -> (r: Self)
        ensures
            r.futex == futex,
            r.val == val,
            r.mask == mask,
            r.futex_flags == futex_flags,
            r.flags == 0,
    {
        FutexWake { futex, val, mask, futex_flags, flags: 0 }
    }

    pub fn flags(self, flags: u32) -> (r: Self)
        ensures
            r == (FutexWake { flags, ..self }),
    {
        FutexWake { flags, ..self }
    }

    pub fn build(self) -> (r: Entry)
        ensures
            r.0 == (sys::io_uring_sqe {
                opcode: Self::CODE,
                fd: self.futex_flags as i32,
                off: self.val,
                addr: self.futex,
                op_flags: self.flags,
                addr3: self.mask,
                ..sys::sqe_zeroed()
            }),
    {
        let FutexWake { futex, val, mask, futex_flags, flags } = self;
        let mut sqe = sys::io_uring_sqe::zeroed();
        sqe.opcode = Self::CODE;
        sqe.fd = futex_flags as i32;
        sqe.addr = futex;
        sqe.off = val;
        sqe.addr3 = mask;
        sqe.op_flags = flags;
        Entry(sqe)
    }
}

/// Wait on multiple futexes simultaneously.
#[derive(Debug)]
pub struct FutexWaitV {
    pub futexv: u64,
    pub nr_futex: u32,
    pub flags: u32,
}

impl FutexWaitV {
    /// The operation code ([`sys::IORING_OP_FUTEX_WAITV`]).
    pub const CODE: u8 = 53;

    pub fn new(futexv: u64, nr_futex: u32) -> (r: Self)
        ensures
            r.futexv == futexv,
            r.nr_futex == nr_futex,
            r.flags == 0,
    {
        FutexWaitV { futexv, nr_futex, flags: 0 }
    }

    pub fn flags(self, flags: u32) -> (r: Self)
        ensures
            r == (FutexWaitV { flags, ..self }),
    {
        FutexWaitV { flags, ..self }
    }

    pub fn build(self) -> (r: Entry)
        ensures
            r.0 == (sys::io_uring_sqe {
                opcode: Self::CODE,
                addr: self.futexv,
                len: self.nr_futex,
                op_flags: self.flags,
                ..sys::sqe_zeroed()
            }),
    {
        let FutexWaitV { futexv, nr_futex, flags } = self;
        let mut sqe = sys::io_uring_sqe::zeroed();
        sqe.opcode = Self::CODE;
        sqe.addr = futexv;
        sqe.len = nr_futex;
        sqe.op_flags = flags;
        Entry(sqe)
    }
}

/// Issue the equivalent of a `waitid(2)` system call.
#[derive(Debug)]
pub struct WaitId {
    pub idtype: u32,
    pub id: u32,
    pub options: i32,
    pub infop: u64,
    pub flags: u32,
}

impl WaitId {
    /// The operation code ([`sys::IORING_OP_WAITID`]).
    pub const CODE: u8 = 50;

    pub fn new(idtype: u32, id: u32, options: i32) -> (r: Self)
        ensures
            r.idtype == idtype,
            r.id == id,
            r.options == options,
            r.infop == 0,
            r.flags == 0,
    {
        WaitId { idtype, id, options, infop: 0, flags: 0 }
    }

    pub fn infop(self, infop: u64) -> (r: Self)
        ensures
            r == (WaitId { infop, ..self }),
    {
        WaitId { infop, ..self }
    }

    pub fn flags(self, flags: u32) -> (r: Self)
        ensures
            r == (WaitId { flags, ..self }),
    {
        WaitId { flags, ..self }
    }

    pub fn build(self) -> (r: Entry)
        ensures
            r.0 == (sys::io_uring_sqe {
                opcode: Self::CODE,
                fd: self.id as i32,
                off: self.infop,
                len: self.idtype,
                op_flags: self.flags,
                splice_fd_in: self.options,
                ..sys::sqe_zeroed()
            }),
    {
        let WaitId { idtype, id, options, infop, flags } = self;
        let mut sqe = sys::io_uring_sqe::zeroed();
        sqe.opcode = Self::CODE;
        sqe.fd = id as i32;
        sqe.len = idtype;
        sqe.op_flags = flags;
        sqe.splice_fd_in = options;
        sqe.off = infop;
        Entry(sqe)
    }
}

/// Install a fixed file descriptor as a regular fd.
#[derive(Debug)]
pub struct FixedFdInstall {
    pub fd: types::Fixed,
    pub file_flags: u32,
}

impl FixedFdInstall {
    /// The operation code ([`sys::IORING_OP_FIXED_FD_INSTALL`]).
    pub const CODE: u8 = 54;

    pub fn new(fd: types::Fixed, file_flags: u32) -> (r: Self)
        ensures
            r.fd == fd,
            r.file_flags == file_flags,
    {
        FixedFdInstall { fd, file_flags }
    }

    pub fn build(self) -> (r: Entry)
        ensures
            r.0 == (sys::io_uring_sqe {
                opcode: Self::CODE,
                flags: fixed_file_flag(),
                fd: self.fd.0 as i32,
                op_flags: self.file_flags,
                ..sys::sqe_zeroed()
            }),
    {
        let FixedFdInstall { fd, file_flags } = self;
        let mut sqe = sys::io_uring_sqe::zeroed();
        sqe.opcode = Self::CODE;
        sqe.fd = fd.0 as i32;
        sqe.flags = crate::squeue::Flags::FIXED_FILE().bits();
        sqe.op_flags = file_flags;
        Entry(sqe)
    }
}

/// Zero-copy receive, equivalent to `recv(2)` with zero-copy semantics.
#[derive(Debug)]
pub struct RecvZc {
    pub fd: sealed::Target,
    pub len: u32,
    pub ifq: u32,
    pub ioprio: u16,
}

impl RecvZc {
    /// The operation code ([`sys::IORING_OP_RECV_ZC`]).
    pub const CODE: u8 = 58;

    pub fn new<F: sealed::UseFixed>(fd: F, len: u32) -> (r: Self)
        ensures
            r.fd == fd.spec_target(),
            r.len == len,
            r.ifq == 0,
            r.ioprio == 0,
    {
        RecvZc { fd: sealed::UseFixed::into(fd), len, ifq: 0, ioprio: 0 }
    }

    pub fn ifq(self, ifq: u32) -> (r: Self)
        ensures
            r == (RecvZc { ifq, ..self }),
    {
        RecvZc { ifq, ..self }
    }

    pub fn ioprio(self, ioprio: u16) -> (r: Self)
        ensures
            r == (RecvZc { ioprio, ..self }),
    {
        RecvZc { ioprio, ..self }
    }

    pub fn build(self) -> (r: Entry)
        ensures
            r.0 == (sys::io_uring_sqe {
                opcode: Self::CODE,
                flags: target_flags(self.fd),
                ioprio: self.ioprio | sys::IORING_RECV_MULTISHOT as u16,
                fd: target_fd(self.fd),
                len: self.len,
                splice_fd_in: self.ifq as i32,
                ..sys::sqe_zeroed()
            }),
    {
        let RecvZc { fd, len, ifq, ioprio } = self;
        let mut sqe = sqe_with_target(Self::CODE, fd);
        sqe.len = len;
        sqe.ioprio = ioprio | sys::IORING_RECV_MULTISHOT as u16;
        sqe.splice_fd_in = ifq as i32;
        Entry(sqe)
    }
}

/// Wait for epoll events, equivalent to `epoll_wait(2)`.
#[derive(Debug)]
pub struct EpollWait {
    pub fd: sealed::Target,
    pub events: u64,
    pub max_events: u32,
    pub flags: u32,
}

impl EpollWait {
    /// The operation code ([`sys::IORING_OP_EPOLL_WAIT`]).
    pub const CODE: u8 = 59;

    pub fn new<F: sealed::UseFixed>(fd: F, events: u64, max_events: u32) -> (r: Self)
        ensures
            r.fd == fd.spec_target(),
            r.events == events,
            r.max_events == max_events,
            r.flags == 0,
    {
        EpollWait { fd: sealed::UseFixed::into(fd), events, max_events, flags: 0 }
    }

    pub fn flags(self, flags: u32) -> (r: Self)
        ensures
            r == (EpollWait { flags, ..self }),
    {
        EpollWait { flags, ..self }
    }

    pub fn build(self) -> (r: Entry)
        ensures
            r.0 == (sys::io_uring_sqe {
                opcode: Self::CODE,
                flags: target_flags(self.fd),
                fd: target_fd(self.fd),
                addr: self.events,
                len: self.max_events,
                op_flags: self.flags,
                ..sys::sqe_zeroed()
            }),
    {
        let EpollWait { fd, events, max_events, flags } = self;
        let mut sqe = sqe_with_target(Self::CODE, fd);
        sqe.addr = events;
        sqe.len = max_events;
        sqe.op_flags = flags;
        Entry(sqe)
    }
}

/// Vectored read into a fixed (pre-registered) buffer.
#[derive(Debug)]
pub struct ReadvFixed {
    pub fd: sealed::Target,
    pub iovec: u64,
    pub len: u32,
    pub buf_index: u16,
    pub ioprio: u16,
    pub offset: u64,
    pub rw_flags: i32,
}

impl ReadvFixed {
    /// The operation code ([`sys::IORING_OP_READV_FIXED`]).
    pub const CODE: u8 = 60;

    pub fn new<F: sealed::UseFixed>(fd: F, iovec: u64, len: u32, buf_index: u16) -> (r: Self)
        ensures
            r.fd == fd.spec_target(),
            r.iovec == iovec,
            r.len == len,
            r.buf_index == buf_index,
            r.ioprio == 0,
            r.offset == 0,
            r.rw_flags == 0,
    {
        ReadvFixed { fd: sealed::UseFixed::into(fd), iovec, len, buf_index, ioprio: 0, offset: 0, rw_flags: 0 }
    }

    pub fn ioprio(self, ioprio: u16) -> (r: Self)
        ensures
            r == (ReadvFixed { ioprio, ..self }),
    {
        ReadvFixed { ioprio, ..self }
    }

    pub fn offset(self, offset: u64) -> (r: Self)
        ensures
            r == (ReadvFixed { offset, ..self }),
    {
        ReadvFixed { offset, ..self }
    }

    pub fn rw_flags(self, rw_flags: i32) -> (r: Self)
        ensures
            r == (ReadvFixed { rw_flags, ..self }),
    {
        ReadvFixed { rw_flags, ..self }
    }

    pub fn build(self) -> (r: Entry)
        ensures
            r.0 == (sys::io_uring_sqe {
                opcode: Self::CODE,
                flags: target_flags(self.fd),
                ioprio: self.ioprio,
                fd: target_fd(self.fd),
                off: self.offset,
                addr: self.iovec,
                len: self.len,
                op_flags: self.rw_flags as u32,
                buf_index: self.buf_index,
                ..sys::sqe_zeroed()
            }),
    {
        let ReadvFixed { fd, iovec, len, buf_index, offset, ioprio, rw_flags } = self;
        let mut sqe = sqe_with_target(Self::CODE, fd);
        sqe.off = offset;
        sqe.addr = iovec;
        sqe.len = len;
        sqe.buf_index = buf_index;
        sqe.ioprio = ioprio;
        sqe.op_flags = rw_flags as u32;
        Entry(sqe)
    }
}

/// Vectored write from a fixed (pre-registered) buffer.
#[derive(Debug)]
pub struct WritevFixed {
    pub fd: sealed::Target,
    pub iovec: u64,
    pub len: u32,
    pub buf_index: u16,
    pub ioprio: u16,
    pub offset: u64,
    pub rw_flags: i32,
}

impl WritevFixed {
    /// The operation code ([`sys::IORING_OP_WRITEV_FIXED`]).
    pub const CODE: u8 = 61;

    pub fn new<F: sealed::UseFixed>(fd: F, iovec: u64, len: u32, buf_index: u16) -> (r: Self)
        ensures
            r.fd == fd.spec_target(),
            r.iovec == iovec,
            r.len == len,
            r.buf_index == buf_index,
            r.ioprio == 0,
            r.offset == 0,
            r.rw_flags == 0,
    {
        WritevFixed { fd: sealed::UseFixed::into(fd), iovec, len, buf_index, ioprio: 0, offset: 0, rw_flags: 0 }
    }

    pub fn ioprio(self, ioprio: u16) -> (r: Self)
        ensures
            r == (WritevFixed { ioprio, ..self }),
    {
        WritevFixed { ioprio, ..self }
    }

    pub fn offset(self, offset: u64) -> (r: Self)
        ensures
            r == (WritevFixed { offset, ..self }),
    {
        WritevFixed { offset, ..self }
    }

    pub fn rw_flags(self, rw_flags: i32) -> (r: Self)
        ensures
            r == (WritevFixed { rw_flags, ..self }),
    {
        WritevFixed { rw_flags, ..self }
    }

    pub fn build(self) -> (r: Entry)
        ensures
            r.0 == (sys::io_uring_sqe {
                opcode: Self::CODE,
                flags: target_flags(self.fd),
                ioprio: self.ioprio,
                fd: target_fd(self.fd),
                off: self.offset,
                addr: self.iovec,
                len: self.len,
                op_flags: self.rw_flags as u32,
                buf_index: self.buf_index,
                ..sys::sqe_zeroed()
            }),
    {
        let WritevFixed { fd, iovec, len, buf_index, offset, ioprio, rw_flags } = self;
        let mut sqe = sqe_with_target(Self::CODE, fd);
        sqe.off = offset;
        sqe.addr = iovec;
        sqe.len = len;
        sqe.buf_index = buf_index;
        sqe.ioprio = ioprio;
        sqe.op_flags = rw_flags as u32;
        Entry(sqe)
    }
}

/// Create a pipe, equivalent to `pipe2(2)`.
#[derive(Debug)]
pub struct Pipe {
    pub fds: u64,
    pub flags: u32,
    pub file_index: Option<types::DestinationSlot>,
}

impl Pipe {
    /// The operation code ([`sys::IORING_OP_PIPE`]).
    pub const CODE: u8 = 62;

    pub fn new(fds: u64) -> (r: Self)
        ensures
            r.fds == fds,
            r.flags == 0,
            r.file_index is None,
    {
        Pipe { fds, flags: 0, file_index: None }
    }

    pub fn flags(self, flags: u32) -> (r: Self)
        ensures
            r == (Pipe { flags, ..self }),
    {
        Pipe { flags, ..self }
    }

    pub fn file_index(self, file_index: Option<types::DestinationSlot>) -> (r: Self)
        ensures
            r == (Pipe { file_index, ..self }),
    {
        Pipe { file_index, ..self }
    }

    pub fn build(self) -> (r: Entry)
        ensures
            r.0 == (sys::io_uring_sqe {
                opcode: Self::CODE,
                addr: self.fds,
                op_flags: self.flags,
                splice_fd_in: match self.file_index {
                    Some(dest) => dest.spec_kernel_index() as i32,
                    None => 0,
                },
                ..sys::sqe_zeroed()
            }),
    {
        let Pipe { fds, flags, file_index } = self;
        let mut sqe = sys::io_uring_sqe::zeroed();
        sqe.opcode = Self::CODE;
        sqe.fd = 0;
        sqe.addr = fds;
        sqe.op_flags = flags;
        if let Some(dest) = file_index {
            sqe.splice_fd_in = dest.kernel_index_arg() as i32;
        }
        Entry(sqe)
    }
}

impl Nop {
    /// Set the NOP to inject the given value as the operation result.
    ///
    /// When this is set, the completion reports `result` as an `i32` instead of `0`.
    pub fn inject_result(self, result: u32) -> (r: Self)
        ensures
            r == (Nop { nop_flags: sys::IORING_NOP_INJECT_RESULT, nop_result: result }),
    {
        self.nop_flags(sys::IORING_NOP_INJECT_RESULT).nop_result(result)
    }
}

/// Iovec compatible with the kernel's `struct iovec`.
#[allow(non_camel_case_types)]
#[derive(Debug, Copy, Clone)]
pub struct libc_iovec {
    pub iov_base: u64,
    pub iov_len: usize,
}

} // verus!
