//! Common Linux types used when building submission queue entries.

#![allow(non_camel_case_types)]

pub mod sealed;

use crate::sys;
use vstd::prelude::*;

verus! {

/// A file descriptor that has not been registered with io_uring.
#[derive(Debug, Clone, Copy)]
pub struct Fd(pub i32);

/// A file descriptor that has been registered with io_uring using
/// [`Submitter::register_files`](crate::Submitter::register_files) or
/// [`Submitter::register_files_sparse`](crate::Submitter::register_files_sparse).
#[derive(Debug, Clone, Copy)]
pub struct Fixed(pub u32);

/// Options for [`Timeout`](super::opcode::Timeout).
#[derive(Clone, Copy, Debug, PartialEq, Eq, Structural)]
pub struct TimeoutFlags {
    bits: u32,
}

impl TimeoutFlags {
    /// The raw flag bits.
    pub closed spec fn spec_bits(&self) -> u32 {
        self.bits
    }

    /// The raw flag bits.
    pub fn bits(&self) -> (r: u32)
        ensures
            r == self.spec_bits(),
    {
        self.bits
    }

    /// Flags holding exactly the given bits.
    pub fn from_bits_retain(bits: u32) -> (r: TimeoutFlags)
        ensures
            r.spec_bits() == bits,
    {
        TimeoutFlags { bits }
    }

    /// No flags.
    pub fn empty() -> (r: TimeoutFlags)
        ensures
            r.spec_bits() == 0,
    {
        TimeoutFlags { bits: 0 }
    }

    /// The union of two sets of flags.
    pub fn union(self, other: TimeoutFlags) -> (r: TimeoutFlags)
        ensures
            r.spec_bits() == self.spec_bits() | other.spec_bits(),
    {
        TimeoutFlags { bits: self.bits | other.bits }
    }

    /// Adds the flags of `other`.
    pub fn insert(&mut self, other: TimeoutFlags)
        ensures
            final(self).spec_bits() == old(self).spec_bits() | other.spec_bits(),
    {
        self.bits = self.bits | other.bits;
    }

    /// Whether every flag of `other` is set in `self`.
    pub fn contains(&self, other: TimeoutFlags) -> (r: bool)
        ensures
            r == (self.spec_bits() & other.spec_bits() == other.spec_bits()),
    {
        self.bits & other.bits == other.bits
    }

    /// The timeout is an absolute time.
    #[allow(non_snake_case)]
    pub fn ABS() -> (r: TimeoutFlags)
        ensures
            r.spec_bits() == 1u32,
    {
        TimeoutFlags { bits: 1u32 }
    }

    /// Measure the timeout against the boot-time clock.
    #[allow(non_snake_case)]
    pub fn BOOTTIME() -> (r: TimeoutFlags)
        ensures
            r.spec_bits() == 4u32,
    {
        TimeoutFlags { bits: 4u32 }
    }

    /// Measure the timeout against the real-time clock.
    #[allow(non_snake_case)]
    pub fn REALTIME() -> (r: TimeoutFlags)
        ensures
            r.spec_bits() == 8u32,
    {
        TimeoutFlags { bits: 8u32 }
    }

    /// Update a linked timeout.
    #[allow(non_snake_case)]
    pub fn LINK_TIMEOUT_UPDATE() -> (r: TimeoutFlags)
        ensures
            r.spec_bits() == 16u32,
    {
        TimeoutFlags { bits: 16u32 }
    }

    /// Report an expired timeout as success.
    #[allow(non_snake_case)]
    pub fn ETIME_SUCCESS() -> (r: TimeoutFlags)
        ensures
            r.spec_bits() == 32u32,
    {
        TimeoutFlags { bits: 32u32 }
    }

    /// Fire the timeout repeatedly.
    #[allow(non_snake_case)]
    pub fn MULTISHOT() -> (r: TimeoutFlags)
        ensures
            r.spec_bits() == 64u32,
    {
        TimeoutFlags { bits: 64u32 }
    }
}

/// Options for [`Fsync`](super::opcode::Fsync).
#[derive(Clone, Copy, Debug, PartialEq, Eq, Structural)]
pub struct FsyncFlags {
    bits: u32,
}

impl FsyncFlags {
    /// The raw flag bits.
    pub closed spec fn spec_bits(&self) -> u32 {
        self.bits
    }

    /// The raw flag bits.
    pub fn bits(&self) -> (r: u32)
        ensures
            r == self.spec_bits(),
    {
        self.bits
    }

    /// Flags holding exactly the given bits.
    pub fn from_bits_retain(bits: u32) -> (r: FsyncFlags)
        ensures
            r.spec_bits() == bits,
    {
        FsyncFlags { bits }
    }

    /// No flags.
    pub fn empty() -> (r: FsyncFlags)
        ensures
            r.spec_bits() == 0,
    {
        FsyncFlags { bits: 0 }
    }

    /// The union of two sets of flags.
    pub fn union(self, other: FsyncFlags) -> (r: FsyncFlags)
        ensures
            r.spec_bits() == self.spec_bits() | other.spec_bits(),
    {
        FsyncFlags { bits: self.bits | other.bits }
    }

    /// Adds the flags of `other`.
    pub fn insert(&mut self, other: FsyncFlags)
        ensures
            final(self).spec_bits() == old(self).spec_bits() | other.spec_bits(),
    {
        self.bits = self.bits | other.bits;
    }

    /// Whether every flag of `other` is set in `self`.
    pub fn contains(&self, other: FsyncFlags) -> (r: bool)
        ensures
            r == (self.spec_bits() & other.spec_bits() == other.spec_bits()),
    {
        self.bits & other.bits == other.bits
    }

    /// Sync file data only, as `fdatasync(2)`.
    #[allow(non_snake_case)]
    pub fn DATASYNC() -> (r: FsyncFlags)
        ensures
            r.spec_bits() == 1u32,
    {
        FsyncFlags { bits: 1u32 }
    }
}

/// Match criteria flags of an asynchronous cancel request.
#[derive(Clone, Copy, Debug, PartialEq, Eq, Structural)]
pub struct AsyncCancelFlags {
    bits: u32,
}

impl AsyncCancelFlags {
    /// The raw flag bits.
    pub closed spec fn spec_bits(&self) -> u32 {
        self.bits
    }

    /// The raw flag bits.
    pub fn bits(&self) -> (r: u32)
        ensures
            r == self.spec_bits(),
    {
        self.bits
    }

    /// Flags holding exactly the given bits.
    pub fn from_bits_retain(bits: u32) -> (r: AsyncCancelFlags)
        ensures
            r.spec_bits() == bits,
    {
        AsyncCancelFlags { bits }
    }

    /// No flags.
    pub fn empty() -> (r: AsyncCancelFlags)
        ensures
            r.spec_bits() == 0,
    {
        AsyncCancelFlags { bits: 0 }
    }

    /// The union of two sets of flags.
    pub fn union(self, other: AsyncCancelFlags) -> (r: AsyncCancelFlags)
        ensures
            r.spec_bits() == self.spec_bits() | other.spec_bits(),
    {
        AsyncCancelFlags { bits: self.bits | other.bits }
    }

    /// Adds the flags of `other`.
    pub fn insert(&mut self, other: AsyncCancelFlags)
        ensures
            final(self).spec_bits() == old(self).spec_bits() | other.spec_bits(),
    {
        self.bits = self.bits | other.bits;
    }

    /// Whether every flag of `other` is set in `self`.
    pub fn contains(&self, other: AsyncCancelFlags) -> (r: bool)
        ensures
            r == (self.spec_bits() & other.spec_bits() == other.spec_bits()),
    {
        self.bits & other.bits == other.bits
    }

    /// Cancel every matching request rather than the first.
    #[allow(non_snake_case)]
    pub fn ALL() -> (r: AsyncCancelFlags)
        ensures
            r.spec_bits() == 1u32,
    {
        AsyncCancelFlags { bits: 1u32 }
    }

    /// Match requests by file descriptor.
    #[allow(non_snake_case)]
    pub fn FD() -> (r: AsyncCancelFlags)
        ensures
            r.spec_bits() == 2u32,
    {
        AsyncCancelFlags { bits: 2u32 }
    }

    /// Match any request.
    #[allow(non_snake_case)]
    pub fn ANY() -> (r: AsyncCancelFlags)
        ensures
            r.spec_bits() == 4u32,
    {
        AsyncCancelFlags { bits: 4u32 }
    }

    /// The file descriptor is a registered file index.
    #[allow(non_snake_case)]
    pub fn FD_FIXED() -> (r: AsyncCancelFlags)
        ensures
            r.spec_bits() == 8u32,
    {
        AsyncCancelFlags { bits: 8u32 }
    }
}

/// Wrapper around `open_how` as used in openat2(2).
#[derive(Default, Debug, Clone, Copy)]
pub struct OpenHow(pub sys::open_how);

impl OpenHow {
    pub fn new() -> (r: Self)
        ensures
            r.0 == (sys::open_how { flags: 0, mode: 0, resolve: 0 }),
    {
        OpenHow(sys::open_how { flags: 0, mode: 0, resolve: 0 })
    }

    pub fn flags(self, flags: u64) -> (r: Self)
        ensures
            r.0 == (sys::open_how { flags: flags, ..self.0 }),
    {
        let mut r = self;
        r.0.flags = flags;
        r
    }

    pub fn mode(self, mode: u64) -> (r: Self)
        ensures
            r.0 == (sys::open_how { mode: mode, ..self.0 }),
    {
        let mut r = self;
        r.0.mode = mode;
        r
    }

    pub fn resolve(self, resolve: u64) -> (r: Self)
        ensures
            r.0 == (sys::open_how { resolve: resolve, ..self.0 }),
    {
        let mut r = self;
        r.0.resolve = resolve;
        r
    }
}

/// A kernel timespec: whole seconds and nanoseconds.
#[derive(Default, Debug, Clone, Copy)]
pub struct Timespec(pub sys::__kernel_timespec);

impl Timespec {
    pub fn new() -> (r: Self)
        ensures
            r.0 == (sys::__kernel_timespec { tv_sec: 0, tv_nsec: 0 }),
    {
        Timespec(sys::__kernel_timespec { tv_sec: 0, tv_nsec: 0 })
    }

    /// Set the seconds; values above `i64::MAX` wrap as the kernel field is signed.
    pub fn sec(self, sec: u64) -> (r: Self)
        ensures
            r.0 == (sys::__kernel_timespec { tv_sec: sec as i64, ..self.0 }),
    {
        let mut r = self;
        r.0.tv_sec = sec as i64;
        r
    }

    pub fn nsec(self, nsec: u32) -> (r: Self)
        ensures
            r.0 == (sys::__kernel_timespec { tv_nsec: nsec as i64, ..self.0 }),
    {
        let mut r = self;
        r.0.tv_nsec = nsec as i64;
        r
    }

    /// The timespec of a duration given as whole seconds and the sub-second nanoseconds.
    pub fn from_parts(secs: u64, subsec_nanos: u32) -> (r: Self)
        ensures
            r.0 == (sys::__kernel_timespec { tv_sec: secs as i64, tv_nsec: subsec_nanos as i64 }),
    {
        Timespec::new().sec(secs).nsec(subsec_nanos)
    }
}

/// Submit arguments.
#[derive(Default, Debug, Clone, Copy)]
pub struct SubmitArgs {
    pub args: sys::io_uring_getevents_arg,
}

impl SubmitArgs {
    pub fn new() -> (r: SubmitArgs)
        ensures
            r.args == (sys::io_uring_getevents_arg { sigmask: 0, sigmask_sz: 0, min_wait_usec: 0, ts: 0 }),
    {
        SubmitArgs {
            args: sys::io_uring_getevents_arg { sigmask: 0, sigmask_sz: 0, min_wait_usec: 0, ts: 0 },
        }
    }

    /// Sets a timeout in microseconds to start waiting for a minimum of a single completion.
    pub fn min_wait_usec(self, min_wait_usec: u32) -> (r: Self)
        ensures
            r.args == (sys::io_uring_getevents_arg { min_wait_usec: min_wait_usec, ..self.args }),
    {
        let mut r = self;
        r.args.min_wait_usec = min_wait_usec;
        r
    }

    /// Sets the address of the timespec bounding the wait.
    pub fn timespec(self, timespec_addr: u64) -> (r: Self)
        ensures
            r.args == (sys::io_uring_getevents_arg { ts: timespec_addr, ..self.args }),
    {
        let mut r = self;
        r.args.ts = timespec_addr;
        r
    }
}

/// An entry of a provided-buffer ring.
#[derive(Debug, Clone, Copy)]
pub struct BufRingEntry(pub sys::io_uring_buf);

impl BufRingEntry {
    pub fn set_addr(&mut self, addr: u64)
        ensures
            final(self).0 == (sys::io_uring_buf { addr: addr, ..old(self).0 }),
    {
        self.0.addr = addr;
    }

    pub fn addr(&self) -> (r: u64)
        ensures
            r == self.0.addr,
    {
        self.0.addr
    }

    pub fn set_len(&mut self, len: u32)
        ensures
            final(self).0 == (sys::io_uring_buf { len: len, ..old(self).0 }),
    {
        self.0.len = len;
    }

    pub fn len(&self) -> (r: u32)
        ensures
            r == self.0.len,
    {
        self.0.len
    }

    pub fn set_bid(&mut self, bid: u16)
        ensures
            final(self).0 == (sys::io_uring_buf { bid: bid, ..old(self).0 }),
    {
        self.0.bid = bid;
    }

    pub fn bid(&self) -> (r: u16)
        ensures
            r == self.0.bid,
    {
        self.0.bid
    }
}

/// The kernel index that asks for a free slot to be allocated (`IORING_FILE_INDEX_ALLOC`).
pub open spec fn auto_alloc_index() -> u32 {
    0xFFFF_FFFF
}

/// A destination slot for sending fixed resources.
#[derive(Debug, Clone, Copy)]
pub struct DestinationSlot {
    dest: u32,
}

impl DestinationSlot {
    /// The kernel's encoding of this slot: the slot index plus one, or the auto-allocation
    /// index; never zero.
    pub closed spec fn spec_kernel_index(&self) -> u32 {
        self.dest
    }

    /// Ask the kernel to pick a free slot.
    pub fn auto_target() -> (r: Self)
        ensures
            r.spec_kernel_index() == auto_alloc_index(),
    {
        DestinationSlot { dest: 0xFFFF_FFFF }
    }

    /// Target a specific slot. Fails, handing the index back, when the index collides with
    /// the kernel's reserved encodings.
    pub fn try_from_slot_target(target: u32) -> (r: Result<Self, u32>)
        ensures
            target <= auto_alloc_index() - 2 ==> (r matches Ok(s) && s.spec_kernel_index() == target + 1),
            target > auto_alloc_index() - 2 ==> r == Err::<Self, u32>(target),
    {
        if target > 0xFFFF_FFFD {
            return Err(target);
        }
        let kernel_index = target + 1;
        Ok(DestinationSlot { dest: kernel_index })
    }

    /// The kernel's encoding of this slot.
    pub fn kernel_index_arg(&self) -> (r: u32)
        ensures
            r == self.spec_kernel_index(),
    {
        self.dest
    }
}

/// Constructs match criteria for request cancellation.
#[derive(Debug, Clone, Copy)]
pub struct CancelBuilder {
    flags: AsyncCancelFlags,
    user_data: Option<u64>,
    fd: Option<sealed::Target>,
}

impl CancelBuilder {
    /// The match flags.
    pub closed spec fn spec_flags(&self) -> u32 {
        self.flags.spec_bits()
    }

    /// The user data to match, if any.
    pub closed spec fn spec_user_data(&self) -> Option<u64> {
        self.user_data
    }

    /// The file to match, if any.
    pub closed spec fn spec_fd(&self) -> Option<sealed::Target> {
        self.fd
    }

    /// The file descriptor field of a cancel request: the descriptor or registered index
    /// to match, or `-1` when matching on something else.
    pub open spec fn spec_to_fd(&self) -> i32 {
        match self.spec_fd() {
            Some(sealed::Target::Fd(fd)) => fd,
            Some(sealed::Target::Fixed(idx)) => idx as i32,
            None => -1i32,
        }
    }

    /// Match any request.
    pub fn any() -> (r: Self)
        ensures
            r.spec_flags() == 4,
            r.spec_user_data() is None,
            r.spec_fd() is None,
    {
        CancelBuilder { flags: AsyncCancelFlags::ANY(), user_data: None, fd: None }
    }

    /// Match requests with the given user data.
    pub fn user_data(user_data: u64) -> (r: Self)
        ensures
            r.spec_flags() == 0,
            r.spec_user_data() == Some(user_data),
            r.spec_fd() is None,
    {
        CancelBuilder { flags: AsyncCancelFlags::empty(), user_data: Some(user_data), fd: None }
    }

    /// Match requests on the given file.
    pub fn fd<F: sealed::UseFixed>(fd: F) -> (r: Self)
        ensures
            r.spec_fd() == Some(fd.spec_target()),
            r.spec_user_data() is None,
            r.spec_flags() == match fd.spec_target() {
                sealed::Target::Fixed(_) => 2u32 | 8u32,
                sealed::Target::Fd(_) => 2u32,
            },
    {
        let mut flags = AsyncCancelFlags::FD();
        let target = fd.into();
        if let sealed::Target::Fixed(_) = target {
            flags.insert(AsyncCancelFlags::FD_FIXED());
        }
        CancelBuilder { flags, user_data: None, fd: Some(target) }
    }

    /// Cancel every matching request rather than the first one.
    pub fn all(self) -> (r: Self)
        ensures
            r.spec_flags() == self.spec_flags() | 1u32,
            r.spec_user_data() == self.spec_user_data(),
            r.spec_fd() == self.spec_fd(),
    {
        let mut r = self;
        r.flags.insert(AsyncCancelFlags::ALL());
        r
    }

    /// The match flags.
    pub fn flag_bits(&self) -> (r: u32)
        ensures
            r == self.spec_flags(),
    {
        self.flags.bits()
    }

    /// The user data to match, or zero when matching on something else.
    pub fn user_data_or_zero(&self) -> (r: u64)
        ensures
            r == match self.spec_user_data() {
                Some(u) => u,
                None => 0,
            },
    {
        match self.user_data {
            Some(u) => u,
            None => 0,
        }
    }

    /// The file descriptor field of a cancel request.
    pub fn to_fd(&self) -> (r: i32)
        ensures
            r == self.spec_to_fd(),
    {
        match self.fd {
            Some(sealed::Target::Fd(fd)) => fd,
            Some(sealed::Target::Fixed(idx)) => idx as i32,
            None => -1,
        }
    }
}

/// Wrapper around `futex_waitv`.
#[derive(Default, Debug, Clone, Copy)]
pub struct FutexWaitV(pub sys::futex_waitv);

impl FutexWaitV {
    pub fn new() -> (r: Self)
        ensures
            r.0 == (sys::futex_waitv { val: 0, uaddr: 0, flags: 0, __reserved: 0 }),
    {
        FutexWaitV(sys::futex_waitv { val: 0, uaddr: 0, flags: 0, __reserved: 0 })
    }

    pub fn val(self, val: u64) -> (r: Self)
        ensures
            r.0 == (sys::futex_waitv { val: val, ..self.0 }),
    {
        let mut r = self;
        r.0.val = val;
        r
    }

    pub fn uaddr(self, uaddr: u64) -> (r: Self)
        ensures
            r.0 == (sys::futex_waitv { uaddr: uaddr, ..self.0 }),
    {
        let mut r = self;
        r.0.uaddr = uaddr;
        r
    }

    pub fn flags(self, flags: u32) -> (r: Self)
        ensures
            r.0 == (sys::futex_waitv { flags: flags, ..self.0 }),
    {
        let mut r = self;
        r.0.flags = flags;
        r
    }
}

/// Opaque `struct statx`; only its address is handed to the kernel.
pub struct statx {
    _priv: (),
}

/// Opaque `struct epoll_event`; only its address is handed to the kernel.
pub struct epoll_event {
    _priv: (),
}

/// A `u32` stored in four bytes, least significant byte first.
pub open spec fn spec_u32_le(b: Seq<u8>, off: int) -> u32 {
    (b[off] as u32) | ((b[off + 1] as u32) << 8u32) | ((b[off + 2] as u32) << 16u32) | ((b[off + 3] as u32) << 24u32)
}

/// The `io_uring_recvmsg_out` header at the start of a multishot recvmsg buffer.
pub open spec fn spec_recvmsg_header(b: Seq<u8>) -> sys::io_uring_recvmsg_out {
    sys::io_uring_recvmsg_out {
        namelen: spec_u32_le(b, 0),
        controllen: spec_u32_le(b, 4),
        payloadlen: spec_u32_le(b, 8),
        flags: spec_u32_le(b, 12),
    }
}

/// The size of the `io_uring_recvmsg_out` header.
pub open spec fn recvmsg_data_start() -> int {
    16
}

pub open spec fn spec_min(a: int, b: int) -> int {
    if a < b {
        a
    } else {
        b
    }
}

fn read_u32_le(b: &[u8], off: usize) -> (r: u32)
    requires
        off + 4 <= b@.len(),
    ensures
        r == spec_u32_le(b@, off as int),
{
    (b[off] as u32) | ((b[off + 1] as u32) << 8u32) | ((b[off + 2] as u32) << 16u32) | ((b[off + 3] as u32) << 24u32)
}

/// Helper structure for parsing the result of a multishot RecvMsg.
#[derive(Debug)]
pub struct RecvMsgOut<'buf> {
    header: sys::io_uring_recvmsg_out,
    msghdr_name_len: usize,
    name_data: &'buf [u8],
    control_data: &'buf [u8],
    payload_data: &'buf [u8],
}

impl<'buf> RecvMsgOut<'buf> {
    pub closed spec fn spec_header(&self) -> sys::io_uring_recvmsg_out {
        self.header
    }

    pub closed spec fn spec_msghdr_name_len(&self) -> usize {
        self.msghdr_name_len
    }

    pub closed spec fn spec_name_data(&self) -> Seq<u8> {
        self.name_data@
    }

    pub closed spec fn spec_control_data(&self) -> Seq<u8> {
        self.control_data@
    }

    pub closed spec fn spec_payload_data(&self) -> Seq<u8> {
        self.payload_data@
    }

    /// Parse the data buffered upon completion of a multishot `RecvMsg` operation.
    ///
    /// `buffer` is the whole buffer previously provided to the ring.
    /// `msghdr_name_len` and `msghdr_control_len` correspond to the `msg_namelen`
    /// and `msg_controllen` fields of the msghdr passed to the SQE.
    ///
    /// The buffer holds the header, then a name field of `msghdr_name_len` bytes, then a
    /// control field of `msghdr_control_len` bytes, then the payload. Name and control data
    /// are the part of their field the header says was received; the payload is what the
    /// header says was received, cut at the end of the buffer.
    pub fn parse(buffer: &'buf [u8], msghdr_name_len: u32, msghdr_control_len: usize) -> (r: Result<Self, ()>)
        ensures
            (r is Ok) == (recvmsg_data_start() + msghdr_name_len + msghdr_control_len <= buffer@.len()),
            r matches Ok(m) ==> ({
                let hdr = spec_recvmsg_header(buffer@);
                let name_start = recvmsg_data_start();
                let control_start = name_start + msghdr_name_len;
                let payload_start = control_start + msghdr_control_len;
                &&& m.spec_header() == hdr
                &&& m.spec_msghdr_name_len() == msghdr_name_len
                &&& m.spec_name_data() == buffer@.subrange(
                    name_start,
                    name_start + spec_min(hdr.namelen as int, msghdr_name_len as int),
                )
                &&& m.spec_control_data() == buffer@.subrange(
                    control_start,
                    control_start + spec_min(hdr.controllen as int, msghdr_control_len as int),
                )
                &&& m.spec_payload_data() == buffer@.subrange(
                    payload_start,
                    payload_start + spec_min(hdr.payloadlen as int, buffer@.len() - payload_start),
                )
            }),
    {
        let blen = buffer.len();
        let name_len = msghdr_name_len as usize;
        let control_len = msghdr_control_len;
        let header_len = match 16usize.checked_add(name_len) {
            Some(acc) => match acc.checked_add(control_len) {
                Some(h) => h,
                None => return Err(()),
            },
            None => return Err(()),
        };
        if blen < header_len {
            return Err(());
        }
        let header = sys::io_uring_recvmsg_out {
            namelen: read_u32_le(buffer, 0),
            controllen: read_u32_le(buffer, 4),
            payloadlen: read_u32_le(buffer, 8),
            flags: read_u32_le(buffer, 12),
        };

        let name_start: usize = 16;
        let incoming_name = header.namelen as usize;
        let name_data_end = name_start + if incoming_name < name_len { incoming_name } else { name_len };
        let control_start = name_start + name_len;
        let name_data = vstd::slice::slice_subrange(buffer, name_start, name_data_end);

        let incoming_control = header.controllen as usize;
        let control_data_end = control_start + if incoming_control < control_len {
            incoming_control
        } else {
            control_len
        };
        let payload_start = control_start + control_len;
        let control_data = vstd::slice::slice_subrange(buffer, control_start, control_data_end);

        let room = buffer.len() - payload_start;
        let incoming_payload = header.payloadlen as usize;
        let payload_data_end = payload_start + if incoming_payload < room { incoming_payload } else { room };
        let payload_data = vstd::slice::slice_subrange(buffer, payload_start, payload_data_end);

        Ok(RecvMsgOut { header, msghdr_name_len: name_len, name_data, control_data, payload_data })
    }

    pub fn incoming_name_len(&self) -> (r: u32)
        ensures
            r == self.spec_header().namelen,
    {
        self.header.namelen
    }

    /// Whether the sender's name did not fit in the name field.
    pub fn is_name_data_truncated(&self) -> (r: bool)
        ensures
            r == (self.spec_header().namelen > self.spec_msghdr_name_len()),
    {
        self.header.namelen as usize > self.msghdr_name_len
    }

    pub fn name_data(&self) -> (r: &[u8])
        ensures
            r@ == self.spec_name_data(),
    {
        self.name_data
    }

    pub fn incoming_control_len(&self) -> (r: u32)
        ensures
            r == self.spec_header().controllen,
    {
        self.header.controllen
    }

    pub fn control_data(&self) -> (r: &[u8])
        ensures
            r@ == self.spec_control_data(),
    {
        self.control_data
    }

    pub fn payload_data(&self) -> (r: &[u8])
        ensures
            r@ == self.spec_payload_data(),
    {
        self.payload_data
    }

    pub fn incoming_payload_len(&self) -> (r: u32)
        ensures
            r == self.spec_header().payloadlen,
    {
        self.header.payloadlen
    }

    pub fn flags(&self) -> (r: u32)
        ensures
            r == self.spec_header().flags,
    {
        self.header.flags
    }
}


/// The `u32` read from four buffer bytes is their little-endian value:
/// `b[off] + 2^8 b[off+1] + 2^16 b[off+2] + 2^24 b[off+3]`.
pub proof fn law_u32_le_value(b: Seq<u8>, off: int)
    requires
        0 <= off,
        off + 4 <= b.len(),
    ensures
        spec_u32_le(b, off) as int == b[off] + 0x100 * b[off + 1] + 0x1_0000 * b[off + 2] + 0x100_0000 * b[off
            + 3],
{
    let (x0, x1, x2, x3) = (b[off], b[off + 1], b[off + 2], b[off + 3]);
    assert((x0 as u32) | ((x1 as u32) << 8u32) | ((x2 as u32) << 16u32) | ((x3 as u32) << 24u32) == x0 as u32
        + 0x100u32 * (x1 as u32) + 0x1_0000u32 * (x2 as u32) + 0x100_0000u32 * (x3 as u32)) by (bit_vector);
}

/// Each field of a parsed `RecvMsgOut` header is the full little-endian `u32` stored in its
/// four bytes of the buffer: `namelen` in bytes `0..4`, `controllen` in `4..8`, `payloadlen`
/// in `8..12` and `flags` in `12..16`.
pub proof fn law_recvmsg_header_fields(b: Seq<u8>)
    requires
        b.len() >= 16,
    ensures
        spec_recvmsg_header(b).namelen as int == b[0] + 0x100 * b[1] + 0x1_0000 * b[2] + 0x100_0000 * b[3],
        spec_recvmsg_header(b).controllen as int == b[4] + 0x100 * b[5] + 0x1_0000 * b[6] + 0x100_0000 * b[7],
        spec_recvmsg_header(b).payloadlen as int == b[8] + 0x100 * b[9] + 0x1_0000 * b[10] + 0x100_0000
            * b[11],
        spec_recvmsg_header(b).flags as int == b[12] + 0x100 * b[13] + 0x1_0000 * b[14] + 0x100_0000 * b[15],
{
    law_u32_le_value(b, 0);
    law_u32_le_value(b, 4);
    law_u32_le_value(b, 8);
    law_u32_le_value(b, 12);
}

} // verus!
