//! Completion results of the emulated operations.
//!
//! Each handler decides the result the kernel would report for one submission queue entry.
//! Results that depend on user memory (the iovec arrays of vectored and message operations)
//! are computed from the iovecs as read from that memory, handed in as plain values.

use crate::sys;
use vstd::prelude::*;

verus! {

/// One `struct iovec` as read from user memory.
#[derive(Clone, Copy, Debug)]
pub struct UserIovec {
    pub base: u64,
    pub len: usize,
}

/// `-EFAULT`
pub open spec fn efault() -> i32 {
    -14i32
}

/// `-ETIME`
pub open spec fn etime() -> i32 {
    -62i32
}

/// `-ENOSYS`
pub open spec fn enosys() -> i32 {
    -38i32
}

/// The file descriptor the emulator hands out for operations that create one.
pub open spec fn fake_fd() -> i32 {
    42
}

/// `-ENOBUFS`
pub open spec fn enobufs() -> i32 {
    -105i32
}

/// A buffer handed over by ProvideBuffers, waiting to be selected by a read.
#[derive(Clone, Copy, Debug)]
pub struct ProvidedBuffer {
    /// The buffer group.
    pub bgid: u16,
    /// The buffer id, reported in the completion flags of the read that selects it.
    pub bid: u16,
    pub addr: u64,
    pub len: u32,
}

/// The entry reads into a buffer selected from a provided group: a single-buffer read
/// (`Read`, `Recv`, `ReadMulti`) with `BUFFER_SELECT`, the group being `buf_index`.
pub open spec fn spec_selects_buffer(sqe: sys::io_uring_sqe) -> bool {
    let op = sqe.opcode as u32;
    &&& sqe.flags & 32u8 != 0
    &&& (op == sys::IORING_OP_READ || op == sys::IORING_OP_RECV || op == sys::IORING_OP_READ_MULTISHOT)
}

/// The position of the oldest buffer of group `group` at or after `from`, or `-1`.
pub open spec fn spec_find_buffer(pool: Seq<ProvidedBuffer>, group: u16, from: int) -> int
    decreases pool.len() - from,
{
    if from < 0 || from >= pool.len() {
        -1
    } else if pool[from].bgid == group {
        from
    } else {
        spec_find_buffer(pool, group, from + 1)
    }
}

pub proof fn lemma_find_buffer(pool: Seq<ProvidedBuffer>, group: u16, from: int)
    requires
        0 <= from,
    ensures
        spec_find_buffer(pool, group, from) == -1 || (from <= spec_find_buffer(pool, group, from)
            < pool.len() && pool[spec_find_buffer(pool, group, from)].bgid == group),
    decreases pool.len() - from,
{
    if from < pool.len() && pool[from].bgid != group {
        lemma_find_buffer(pool, group, from + 1);
    }
}

/// The position of the oldest provided buffer of `group`, if any.
pub fn find_buffer(pool: &Vec<ProvidedBuffer>, group: u16) -> (r: Option<usize>)
    ensures
        match r {
            Some(k) => k as int == spec_find_buffer(pool@, group, 0) && k < pool@.len(),
            None => spec_find_buffer(pool@, group, 0) == -1,
        },
{
    let mut k: usize = 0;
    while k < pool.len()
        invariant
            k <= pool@.len(),
            spec_find_buffer(pool@, group, 0) == spec_find_buffer(pool@, group, k as int),
        decreases pool@.len() - k,
    {
        if pool[k].bgid == group {
            return Some(k);
        }
        k = k + 1;
    }
    None
}

/// The buffers a ProvideBuffers entry hands over: `fd` buffers of `len` bytes laid end to
/// end from `addr`, ids counting up from `off`, in group `buf_index`; none when the range is
/// empty or null.
pub open spec fn spec_provided(sqe: sys::io_uring_sqe) -> Seq<ProvidedBuffer> {
    if sqe.addr == 0 || sqe.len == 0 || sqe.fd <= 0 {
        Seq::empty()
    } else {
        Seq::new(
            sqe.fd as nat,
            |k: int|
                ProvidedBuffer {
                    bgid: sqe.buf_index,
                    bid: (sqe.off + k) as u16,
                    addr: (sqe.addr + k * sqe.len) as u64,
                    len: sqe.len,
                },
        )
    }
}

/// The buffers a ProvideBuffers entry hands over.
pub fn provided_buffers(sqe: &sys::io_uring_sqe) -> (r: Vec<ProvidedBuffer>)
    ensures
        r@ == spec_provided(*sqe),
{
    let mut out: Vec<ProvidedBuffer> = Vec::new();
    if sqe.addr == 0 || sqe.len == 0 || sqe.fd <= 0 {
        assert(out@ =~= spec_provided(*sqe));
        return out;
    }
    let n = sqe.fd as u32;
    let mut k: u32 = 0;
    while k < n
        invariant
            n as int == sqe.fd,
            sqe.addr != 0 && sqe.len != 0 && sqe.fd > 0,
            k <= n,
            out@ == spec_provided(*sqe).take(k as int),
        decreases n - k,
    {
        let len = sqe.len;
        assert((k as int) * (len as int) < 0x1_0000_0000_0000_0000) by (nonlinear_arith)
            requires
                k < 0x1_0000_0000,
                len < 0x1_0000_0000,
        ;
        let bid = ((sqe.off as u128) + (k as u128)) as u16;
        let addr = ((sqe.addr as u128) + (k as u128) * (len as u128)) as u64;
        out.push(ProvidedBuffer { bgid: sqe.buf_index, bid, addr, len });
        k = k + 1;
        assert(out@ =~= spec_provided(*sqe).take(k as int));
    }
    assert(spec_provided(*sqe).take(n as int) =~= spec_provided(*sqe));
    out
}

/// The provided buffers after RemoveBuffers takes out the `n` oldest buffers of `group`
/// (all of them when it holds fewer); the others keep their order.
pub open spec fn spec_removed(pool: Seq<ProvidedBuffer>, group: u16, n: nat) -> Seq<ProvidedBuffer>
    decreases pool.len(),
{
    if pool.len() == 0 {
        pool
    } else if pool[0].bgid == group && n > 0 {
        spec_removed(pool.drop_first(), group, (n - 1) as nat)
    } else {
        seq![pool[0]] + spec_removed(pool.drop_first(), group, n)
    }
}

/// How many buffers a RemoveBuffers entry asks to take out (`fd`; none when not positive).
pub open spec fn spec_remove_count(sqe: sys::io_uring_sqe) -> nat {
    if sqe.fd > 0 {
        sqe.fd as nat
    } else {
        0
    }
}

/// Take out the `n` oldest buffers of `group`.
pub fn remove_buffers(pool: &Vec<ProvidedBuffer>, group: u16, n: u32) -> (r: Vec<ProvidedBuffer>)
    ensures
        r@ == spec_removed(pool@, group, n as nat),
{
    let mut out: Vec<ProvidedBuffer> = Vec::new();
    let mut left: u32 = n;
    let mut i: usize = 0;
    assert(pool@.skip(0) =~= pool@);
    assert(out@ + spec_removed(pool@, group, n as nat) =~= spec_removed(pool@, group, n as nat));
    while i < pool.len()
        invariant
            i <= pool@.len(),
            out@ + spec_removed(pool@.skip(i as int), group, left as nat) == spec_removed(pool@, group, n as nat),
        decreases pool@.len() - i,
    {
        let b = pool[i];
        let ghost rest = pool@.skip(i as int);
        assert(rest[0] == b);
        assert(rest.drop_first() =~= pool@.skip(i + 1));
        if b.bgid == group && left > 0 {
            left = left - 1;
        } else {
            assert(out@.push(b) + spec_removed(pool@.skip(i + 1), group, left as nat) =~= out@ + (seq![b]
                + spec_removed(pool@.skip(i + 1), group, left as nat)));
            out.push(b);
        }
        i = i + 1;
    }
    assert(pool@.skip(pool@.len() as int) =~= Seq::<ProvidedBuffer>::empty());
    assert(out@ + Seq::<ProvidedBuffer>::empty() =~= out@);
    out
}

/// Bytes a read into a selected buffer transfers: the requested length, at most the
/// buffer's length, or the whole buffer when no length was requested.
pub open spec fn spec_selected_len(sqe: sys::io_uring_sqe, b: ProvidedBuffer) -> i32 {
    (if sqe.len == 0 || sqe.len > b.len {
        b.len
    } else {
        sqe.len
    }) as i32
}

/// The two descriptors a successful Pipe writes to its array: read end, then write end.
pub fn pipe_fds() -> (r: (i32, i32))
    ensures
        r.0 == fake_fd(),
        r.1 == fake_fd() + 1,
{
    (42, 43)
}

/// Bytes covered by the non-null, non-empty iovecs, saturating at `usize::MAX`.
pub open spec fn spec_iov_total(iovs: Seq<UserIovec>) -> nat
    decreases iovs.len(),
{
    if iovs.len() == 0 {
        0
    } else {
        let t = spec_iov_total(iovs.drop_last());
        let v = iovs.last();
        if v.base != 0 && v.len > 0 {
            if t + v.len > usize::MAX {
                usize::MAX as nat
            } else {
                (t + v.len) as nat
            }
        } else {
            t
        }
    }
}

/// The byte count covered by `iovs`, as the kernel reports it in a completion.
pub open spec fn spec_iov_result(iovs: Seq<UserIovec>) -> i32 {
    (spec_iov_total(iovs) as usize) as i32
}

fn iov_total(iovs: &Vec<UserIovec>) -> (r: usize)
    ensures
        r == spec_iov_total(iovs@),
{
    let mut total: usize = 0;
    let mut i: usize = 0;
    while i < iovs.len()
        invariant
            i <= iovs@.len(),
            total == spec_iov_total(iovs@.subrange(0, i as int)),
        decreases iovs@.len() - i,
    {
        let v = iovs[i];
        assert(iovs@.subrange(0, i + 1).drop_last() =~= iovs@.subrange(0, i as int));
        if v.base != 0 && v.len > 0 {
            total = total.saturating_add(v.len);
        }
        i = i + 1;
    }
    assert(iovs@.subrange(0, iovs@.len() as int) =~= iovs@);
    total
}

/// NOP: zero, or the injected result carried in `len`.
pub open spec fn spec_nop(sqe: sys::io_uring_sqe) -> i32 {
    if sqe.op_flags & sys::IORING_NOP_INJECT_RESULT != 0 {
        sqe.len as i32
    } else {
        0
    }
}

/// Single-buffer transfer: the buffer length, or zero for a null or empty buffer.
pub open spec fn spec_buf_transfer(sqe: sys::io_uring_sqe) -> i32 {
    if sqe.addr == 0 || sqe.len == 0 {
        0
    } else {
        (sqe.len as usize) as i32
    }
}

/// Vectored transfer: the bytes of the iovec array, or zero for a null or empty array.
pub open spec fn spec_vectored(sqe: sys::io_uring_sqe, iovs: Seq<UserIovec>) -> i32 {
    if sqe.addr == 0 || sqe.len == 0 {
        0
    } else {
        spec_iov_result(iovs)
    }
}

/// Message transfer: `-EFAULT` without a msghdr, else the bytes of its iovec array.
pub open spec fn spec_msg(sqe: sys::io_uring_sqe, iovs: Seq<UserIovec>) -> i32 {
    if sqe.addr == 0 {
        efault()
    } else {
        spec_iov_result(iovs)
    }
}

/// An operation that reads one pointer argument from `addr`: `-EFAULT` if it is null,
/// else `ok`.
pub open spec fn spec_needs_addr(sqe: sys::io_uring_sqe, ok: i32) -> i32 {
    if sqe.addr == 0 {
        efault()
    } else {
        ok
    }
}

/// An operation that reads pointers from both `addr` and `off`.
pub open spec fn spec_needs_addr_off(sqe: sys::io_uring_sqe) -> i32 {
    if sqe.addr == 0 || sqe.off == 0 {
        efault()
    } else {
        0
    }
}

/// FilesUpdate: the number of descriptors, or zero for a null or empty array.
pub open spec fn spec_files_update(sqe: sys::io_uring_sqe) -> i32 {
    if sqe.addr == 0 || sqe.len == 0 {
        0
    } else {
        (sqe.len as usize) as i32
    }
}

/// FutexWaitV: `-EFAULT` for a null or empty array, else zero.
pub open spec fn spec_futex_waitv(sqe: sys::io_uring_sqe) -> i32 {
    if sqe.addr == 0 || sqe.len == 0 {
        efault()
    } else {
        0
    }
}

/// Operations that succeed without touching user memory.
pub open spec fn spec_noop_success(op: u32) -> bool {
    ||| op == sys::IORING_OP_CLOSE
    ||| op == sys::IORING_OP_FSYNC
    ||| op == sys::IORING_OP_SYNC_FILE_RANGE
    ||| op == sys::IORING_OP_FALLOCATE
    ||| op == sys::IORING_OP_FTRUNCATE
    ||| op == sys::IORING_OP_SHUTDOWN
    ||| op == sys::IORING_OP_POLL_ADD
    ||| op == sys::IORING_OP_POLL_REMOVE
    ||| op == sys::IORING_OP_ASYNC_CANCEL
    ||| op == sys::IORING_OP_TIMEOUT_REMOVE
    ||| op == sys::IORING_OP_SPLICE
    ||| op == sys::IORING_OP_TEE
    ||| op == sys::IORING_OP_REMOVE_BUFFERS
    ||| op == sys::IORING_OP_FADVISE
    ||| op == sys::IORING_OP_MADVISE
    ||| op == sys::IORING_OP_MSG_RING
    ||| op == sys::IORING_OP_LISTEN
    ||| op == sys::IORING_OP_URING_CMD
    ||| op == sys::IORING_OP_RECV_ZC
}

/// The result the emulator reports for `sqe`, given the iovecs it reads from user memory.
pub open spec fn spec_dispatch(sqe: sys::io_uring_sqe, iovs: Seq<UserIovec>) -> i32 {
    let op = sqe.opcode as u32;
    if op == sys::IORING_OP_NOP {
        spec_nop(sqe)
    } else if op == sys::IORING_OP_READ || op == sys::IORING_OP_READ_FIXED || op
        == sys::IORING_OP_RECV || op == sys::IORING_OP_READ_MULTISHOT {
        spec_buf_transfer(sqe)
    } else if op == sys::IORING_OP_WRITE || op == sys::IORING_OP_WRITE_FIXED || op
        == sys::IORING_OP_SEND || op == sys::IORING_OP_SEND_ZC {
        spec_buf_transfer(sqe)
    } else if op == sys::IORING_OP_READV || op == sys::IORING_OP_READV_FIXED || op
        == sys::IORING_OP_WRITEV || op == sys::IORING_OP_WRITEV_FIXED {
        spec_vectored(sqe, iovs)
    } else if op == sys::IORING_OP_RECVMSG || op == sys::IORING_OP_SENDMSG || op
        == sys::IORING_OP_SENDMSG_ZC {
        spec_msg(sqe, iovs)
    } else if op == sys::IORING_OP_TIMEOUT || op == sys::IORING_OP_LINK_TIMEOUT {
        spec_needs_addr(sqe, etime())
    } else if op == sys::IORING_OP_CONNECT || op == sys::IORING_OP_BIND {
        spec_needs_addr_off(sqe)
    } else if op == sys::IORING_OP_ACCEPT {
        fake_fd()
    } else if op == sys::IORING_OP_OPENAT || op == sys::IORING_OP_OPENAT2 {
        spec_needs_addr(sqe, fake_fd())
    } else if op == sys::IORING_OP_STATX {
        0
    } else if op == sys::IORING_OP_UNLINKAT || op == sys::IORING_OP_MKDIRAT {
        spec_needs_addr(sqe, 0)
    } else if op == sys::IORING_OP_RENAMEAT || op == sys::IORING_OP_SYMLINKAT || op
        == sys::IORING_OP_LINKAT {
        spec_needs_addr_off(sqe)
    } else if op == sys::IORING_OP_EPOLL_CTL {
        0
    } else if op == sys::IORING_OP_FILES_UPDATE {
        spec_files_update(sqe)
    } else if op == sys::IORING_OP_PROVIDE_BUFFERS {
        0
    } else if op == sys::IORING_OP_FSETXATTR || op == sys::IORING_OP_SETXATTR {
        0
    } else if op == sys::IORING_OP_FGETXATTR || op == sys::IORING_OP_GETXATTR {
        (sqe.len as usize) as i32
    } else if op == sys::IORING_OP_EPOLL_WAIT {
        0
    } else if op == sys::IORING_OP_FUTEX_WAIT || op == sys::IORING_OP_FUTEX_WAKE {
        spec_needs_addr(sqe, 0)
    } else if op == sys::IORING_OP_FUTEX_WAITV {
        spec_futex_waitv(sqe)
    } else if op == sys::IORING_OP_WAITID {
        0
    } else if op == sys::IORING_OP_PIPE {
        spec_needs_addr(sqe, 0)
    } else if spec_noop_success(op) {
        0
    } else if op == sys::IORING_OP_SOCKET || op == sys::IORING_OP_FIXED_FD_INSTALL {
        fake_fd()
    } else {
        enosys()
    }
}

/// The opcodes the emulator implements: every opcode with an arm of its own in
/// [`spec_dispatch`].
pub open spec fn spec_handled(op: u32) -> bool {
    ||| op == sys::IORING_OP_NOP
    ||| op == sys::IORING_OP_READ
    ||| op == sys::IORING_OP_READ_FIXED
    ||| op == sys::IORING_OP_RECV
    ||| op == sys::IORING_OP_WRITE
    ||| op == sys::IORING_OP_WRITE_FIXED
    ||| op == sys::IORING_OP_SEND
    ||| op == sys::IORING_OP_SEND_ZC
    ||| op == sys::IORING_OP_READV
    ||| op == sys::IORING_OP_WRITEV
    ||| op == sys::IORING_OP_RECVMSG
    ||| op == sys::IORING_OP_SENDMSG
    ||| op == sys::IORING_OP_SENDMSG_ZC
    ||| op == sys::IORING_OP_TIMEOUT
    ||| op == sys::IORING_OP_LINK_TIMEOUT
    ||| op == sys::IORING_OP_CONNECT
    ||| op == sys::IORING_OP_ACCEPT
    ||| op == sys::IORING_OP_OPENAT
    ||| op == sys::IORING_OP_OPENAT2
    ||| op == sys::IORING_OP_STATX
    ||| op == sys::IORING_OP_UNLINKAT
    ||| op == sys::IORING_OP_MKDIRAT
    ||| op == sys::IORING_OP_RENAMEAT
    ||| op == sys::IORING_OP_SYMLINKAT
    ||| op == sys::IORING_OP_LINKAT
    ||| op == sys::IORING_OP_BIND
    ||| op == sys::IORING_OP_EPOLL_CTL
    ||| op == sys::IORING_OP_FILES_UPDATE
    ||| op == sys::IORING_OP_PROVIDE_BUFFERS
    ||| op == sys::IORING_OP_FSETXATTR
    ||| op == sys::IORING_OP_SETXATTR
    ||| op == sys::IORING_OP_FGETXATTR
    ||| op == sys::IORING_OP_GETXATTR
    ||| op == sys::IORING_OP_EPOLL_WAIT
    ||| op == sys::IORING_OP_READV_FIXED
    ||| op == sys::IORING_OP_WRITEV_FIXED
    ||| op == sys::IORING_OP_READ_MULTISHOT
    ||| op == sys::IORING_OP_FUTEX_WAIT
    ||| op == sys::IORING_OP_FUTEX_WAKE
    ||| op == sys::IORING_OP_FUTEX_WAITV
    ||| op == sys::IORING_OP_WAITID
    ||| op == sys::IORING_OP_PIPE
    ||| spec_noop_success(op)
    ||| op == sys::IORING_OP_SOCKET
    ||| op == sys::IORING_OP_FIXED_FD_INSTALL
}

/// Whether the emulator implements opcode `op`.
pub fn is_handled(op: u32) -> (r: bool)
    ensures
        r == spec_handled(op),
{
    op == sys::IORING_OP_NOP || op == sys::IORING_OP_READ || op == sys::IORING_OP_READ_FIXED
        || op == sys::IORING_OP_RECV || op == sys::IORING_OP_WRITE || op
        == sys::IORING_OP_WRITE_FIXED || op == sys::IORING_OP_SEND || op
        == sys::IORING_OP_SEND_ZC || op == sys::IORING_OP_READV || op == sys::IORING_OP_WRITEV
        || op == sys::IORING_OP_RECVMSG || op == sys::IORING_OP_SENDMSG || op
        == sys::IORING_OP_SENDMSG_ZC || op == sys::IORING_OP_TIMEOUT || op
        == sys::IORING_OP_LINK_TIMEOUT || op == sys::IORING_OP_CONNECT || op
        == sys::IORING_OP_ACCEPT || op == sys::IORING_OP_OPENAT || op == sys::IORING_OP_OPENAT2
        || op == sys::IORING_OP_STATX || op == sys::IORING_OP_UNLINKAT || op
        == sys::IORING_OP_MKDIRAT || op == sys::IORING_OP_RENAMEAT || op
        == sys::IORING_OP_SYMLINKAT || op == sys::IORING_OP_LINKAT || op == sys::IORING_OP_BIND
        || op == sys::IORING_OP_EPOLL_CTL || op == sys::IORING_OP_FILES_UPDATE || op
        == sys::IORING_OP_PROVIDE_BUFFERS || op == sys::IORING_OP_FSETXATTR || op
        == sys::IORING_OP_SETXATTR || op == sys::IORING_OP_FGETXATTR || op
        == sys::IORING_OP_GETXATTR || op == sys::IORING_OP_EPOLL_WAIT || op
        == sys::IORING_OP_READV_FIXED || op == sys::IORING_OP_WRITEV_FIXED || op
        == sys::IORING_OP_READ_MULTISHOT || op == sys::IORING_OP_FUTEX_WAIT || op
        == sys::IORING_OP_FUTEX_WAKE || op == sys::IORING_OP_FUTEX_WAITV || op
        == sys::IORING_OP_WAITID || op == sys::IORING_OP_PIPE || is_noop_success(op) || op
        == sys::IORING_OP_SOCKET || op == sys::IORING_OP_FIXED_FD_INSTALL
}

fn is_noop_success(op: u32) -> (r: bool)
    ensures
        r == spec_noop_success(op),
{
    op == sys::IORING_OP_CLOSE || op == sys::IORING_OP_FSYNC || op
        == sys::IORING_OP_SYNC_FILE_RANGE || op == sys::IORING_OP_FALLOCATE || op
        == sys::IORING_OP_FTRUNCATE || op == sys::IORING_OP_SHUTDOWN || op
        == sys::IORING_OP_POLL_ADD || op == sys::IORING_OP_POLL_REMOVE || op
        == sys::IORING_OP_ASYNC_CANCEL || op == sys::IORING_OP_TIMEOUT_REMOVE || op
        == sys::IORING_OP_SPLICE || op == sys::IORING_OP_TEE || op
        == sys::IORING_OP_REMOVE_BUFFERS || op == sys::IORING_OP_FADVISE || op
        == sys::IORING_OP_MADVISE || op == sys::IORING_OP_MSG_RING || op
        == sys::IORING_OP_LISTEN || op == sys::IORING_OP_URING_CMD || op
        == sys::IORING_OP_RECV_ZC
}

/// Dispatch an SQE to the handler of its opcode and return the result code.
pub fn dispatch_op(sqe: &sys::io_uring_sqe, iovs: &Vec<UserIovec>) -> (r: i32)
    ensures
        r == spec_dispatch(*sqe, iovs@),
{
    let op = sqe.opcode as u32;
    if op == sys::IORING_OP_NOP {
        dispatch_nop(sqe)
    } else if op == sys::IORING_OP_READ || op == sys::IORING_OP_READ_FIXED || op
        == sys::IORING_OP_RECV || op == sys::IORING_OP_READ_MULTISHOT {
        dispatch_buf_fill(sqe)
    } else if op == sys::IORING_OP_WRITE || op == sys::IORING_OP_WRITE_FIXED || op
        == sys::IORING_OP_SEND || op == sys::IORING_OP_SEND_ZC {
        dispatch_buf_sink(sqe)
    } else if op == sys::IORING_OP_READV || op == sys::IORING_OP_READV_FIXED {
        dispatch_readv(sqe, iovs)
    } else if op == sys::IORING_OP_WRITEV || op == sys::IORING_OP_WRITEV_FIXED {
        dispatch_writev(sqe, iovs)
    } else if op == sys::IORING_OP_RECVMSG {
        dispatch_recvmsg(sqe, iovs)
    } else if op == sys::IORING_OP_SENDMSG || op == sys::IORING_OP_SENDMSG_ZC {
        dispatch_sendmsg(sqe, iovs)
    } else if op == sys::IORING_OP_TIMEOUT || op == sys::IORING_OP_LINK_TIMEOUT {
        dispatch_timeout(sqe)
    } else if op == sys::IORING_OP_CONNECT || op == sys::IORING_OP_BIND {
        dispatch_connect(sqe)
    } else if op == sys::IORING_OP_ACCEPT {
        dispatch_accept(sqe)
    } else if op == sys::IORING_OP_OPENAT {
        dispatch_openat(sqe)
    } else if op == sys::IORING_OP_OPENAT2 {
        dispatch_openat2(sqe)
    } else if op == sys::IORING_OP_STATX {
        dispatch_statx(sqe)
    } else if op == sys::IORING_OP_UNLINKAT || op == sys::IORING_OP_MKDIRAT {
        dispatch_pathname(sqe)
    } else if op == sys::IORING_OP_RENAMEAT || op == sys::IORING_OP_SYMLINKAT || op
        == sys::IORING_OP_LINKAT {
        dispatch_pathname2(sqe)
    } else if op == sys::IORING_OP_EPOLL_CTL {
        dispatch_epoll_ctl(sqe)
    } else if op == sys::IORING_OP_FILES_UPDATE {
        dispatch_files_update(sqe)
    } else if op == sys::IORING_OP_PROVIDE_BUFFERS {
        dispatch_provide_buffers(sqe)
    } else if op == sys::IORING_OP_FSETXATTR || op == sys::IORING_OP_SETXATTR {
        dispatch_xattr_set(sqe)
    } else if op == sys::IORING_OP_FGETXATTR || op == sys::IORING_OP_GETXATTR {
        dispatch_xattr_get(sqe)
    } else if op == sys::IORING_OP_EPOLL_WAIT {
        dispatch_epoll_wait(sqe)
    } else if op == sys::IORING_OP_FUTEX_WAIT || op == sys::IORING_OP_FUTEX_WAKE {
        dispatch_futex_read(sqe)
    } else if op == sys::IORING_OP_FUTEX_WAITV {
        dispatch_futex_waitv(sqe)
    } else if op == sys::IORING_OP_WAITID {
        dispatch_waitid(sqe)
    } else if op == sys::IORING_OP_PIPE {
        dispatch_pipe(sqe)
    } else if is_noop_success(op) {
        0
    } else if op == sys::IORING_OP_SOCKET || op == sys::IORING_OP_FIXED_FD_INSTALL {
        42
    } else {
        -38
    }
}

fn dispatch_nop(sqe: &sys::io_uring_sqe) -> (r: i32)
    ensures
        r == spec_nop(*sqe),
{
    if sqe.op_flags & sys::IORING_NOP_INJECT_RESULT != 0 {
        sqe.len as i32
    } else {
        0
    }
}

/// Read-like: the kernel writes the whole buffer.
fn dispatch_buf_fill(sqe: &sys::io_uring_sqe) -> (r: i32)
    ensures
        r == spec_buf_transfer(*sqe),
{
    let len = sqe.len as usize;
    if sqe.addr == 0 || len == 0 {
        return 0;
    }
    len as i32
}

/// Write-like: the kernel reads the whole buffer.
fn dispatch_buf_sink(sqe: &sys::io_uring_sqe) -> (r: i32)
    ensures
        r == spec_buf_transfer(*sqe),
{
    let len = sqe.len as usize;
    if sqe.addr == 0 || len == 0 {
        return 0;
    }
    len as i32
}

/// Readv: the kernel writes the scatter buffers of the iovec array.
fn dispatch_readv(sqe: &sys::io_uring_sqe, iovs: &Vec<UserIovec>) -> (r: i32)
    ensures
        r == spec_vectored(*sqe, iovs@),
{
    if sqe.addr == 0 || sqe.len == 0 {
        return 0;
    }
    iov_total(iovs) as i32
}

/// Writev: the kernel reads the gather buffers of the iovec array.
fn dispatch_writev(sqe: &sys::io_uring_sqe, iovs: &Vec<UserIovec>) -> (r: i32)
    ensures
        r == spec_vectored(*sqe, iovs@),
{
    if sqe.addr == 0 || sqe.len == 0 {
        return 0;
    }
    iov_total(iovs) as i32
}

/// RecvMsg: the kernel reads the msghdr and writes its name, control and scatter buffers.
fn dispatch_recvmsg(sqe: &sys::io_uring_sqe, iovs: &Vec<UserIovec>) -> (r: i32)
    ensures
        r == spec_msg(*sqe, iovs@),
{
    if sqe.addr == 0 {
        return -14;
    }
    iov_total(iovs) as i32
}

/// SendMsg: the kernel reads the msghdr and its name, control and gather buffers.
fn dispatch_sendmsg(sqe: &sys::io_uring_sqe, iovs: &Vec<UserIovec>) -> (r: i32)
    ensures
        r == spec_msg(*sqe, iovs@),
{
    if sqe.addr == 0 {
        return -14;
    }
    iov_total(iovs) as i32
}

/// Timeout: the kernel reads the timespec; the timeout then expires.
fn dispatch_timeout(sqe: &sys::io_uring_sqe) -> (r: i32)
    ensures
        r == spec_needs_addr(*sqe, etime()),
{
    if sqe.addr == 0 {
        return -14;
    }
    -62i32
}

/// Connect and bind: the kernel reads a sockaddr of `off` bytes.
fn dispatch_connect(sqe: &sys::io_uring_sqe) -> (r: i32)
    ensures
        r == spec_needs_addr_off(*sqe),
{
    if sqe.addr == 0 || sqe.off == 0 {
        return -14;
    }
    0
}

/// Accept: the kernel writes the peer address; a descriptor is returned.
fn dispatch_accept(sqe: &sys::io_uring_sqe) -> (r: i32)
    ensures
        r == fake_fd(),
{
    42
}

/// OpenAt: the kernel reads the pathname; a descriptor is returned.
fn dispatch_openat(sqe: &sys::io_uring_sqe) -> (r: i32)
    ensures
        r == spec_needs_addr(*sqe, fake_fd()),
{
    if sqe.addr == 0 {
        return -14;
    }
    42
}

/// OpenAt2: the kernel reads the pathname and the `open_how`; a descriptor is returned.
fn dispatch_openat2(sqe: &sys::io_uring_sqe) -> (r: i32)
    ensures
        r == spec_needs_addr(*sqe, fake_fd()),
{
    if sqe.addr == 0 {
        return -14;
    }
    42
}

/// Statx: the kernel reads the pathname and writes the statx buffer.
fn dispatch_statx(sqe: &sys::io_uring_sqe) -> (r: i32)
    ensures
        r == 0,
{
    0
}

/// UnlinkAt and MkDirAt: the kernel reads one pathname.
fn dispatch_pathname(sqe: &sys::io_uring_sqe) -> (r: i32)
    ensures
        r == spec_needs_addr(*sqe, 0),
{
    if sqe.addr == 0 {
        return -14;
    }
    0
}

/// RenameAt, SymlinkAt and LinkAt: the kernel reads two pathnames.
fn dispatch_pathname2(sqe: &sys::io_uring_sqe) -> (r: i32)
    ensures
        r == spec_needs_addr_off(*sqe),
{
    if sqe.addr == 0 || sqe.off == 0 {
        return -14;
    }
    0
}

/// EpollCtl: the kernel reads the event, which may be absent.
fn dispatch_epoll_ctl(sqe: &sys::io_uring_sqe) -> (r: i32)
    ensures
        r == 0,
{
    0
}

/// FilesUpdate: the kernel reads the descriptor array and reports its length.
fn dispatch_files_update(sqe: &sys::io_uring_sqe) -> (r: i32)
    ensures
        r == spec_files_update(*sqe),
{
    let len = sqe.len as usize;
    if sqe.addr == 0 || len == 0 {
        return 0;
    }
    len as i32
}

/// ProvideBuffers: the kernel checks the buffer range.
fn dispatch_provide_buffers(sqe: &sys::io_uring_sqe) -> (r: i32)
    ensures
        r == 0,
{
    0
}

/// FSetXattr and SetXattr: the kernel reads the name, the value and (SetXattr) the path.
fn dispatch_xattr_set(sqe: &sys::io_uring_sqe) -> (r: i32)
    ensures
        r == 0,
{
    0
}

/// FGetXattr and GetXattr: the kernel writes the value buffer and reports its length.
fn dispatch_xattr_get(sqe: &sys::io_uring_sqe) -> (r: i32)
    ensures
        r == (sqe.len as usize) as i32,
{
    let len = sqe.len as usize;
    len as i32
}

/// EpollWait: the kernel writes the event array; no events are reported.
fn dispatch_epoll_wait(sqe: &sys::io_uring_sqe) -> (r: i32)
    ensures
        r == 0,
{
    0
}

/// FutexWait and FutexWake: the kernel reads the futex word.
fn dispatch_futex_read(sqe: &sys::io_uring_sqe) -> (r: i32)
    ensures
        r == spec_needs_addr(*sqe, 0),
{
    if sqe.addr == 0 {
        return -14;
    }
    0
}

/// FutexWaitV: the kernel reads the futex_waitv array.
fn dispatch_futex_waitv(sqe: &sys::io_uring_sqe) -> (r: i32)
    ensures
        r == spec_futex_waitv(*sqe),
{
    if sqe.addr == 0 || sqe.len == 0 {
        return -14;
    }
    0
}

/// WaitId: the kernel writes the siginfo buffer, which may be absent.
fn dispatch_waitid(sqe: &sys::io_uring_sqe) -> (r: i32)
    ensures
        r == 0,
{
    0
}

/// Pipe: the kernel writes two descriptors to the array.
fn dispatch_pipe(sqe: &sys::io_uring_sqe) -> (r: i32)
    ensures
        r == spec_needs_addr(*sqe, 0),
{
    if sqe.addr == 0 {
        return -14;
    }
    0
}

/// Opcodes without an arm of their own are answered with `-ENOSYS`, whatever the entry.
pub proof fn lemma_unhandled_is_enosys(sqe: sys::io_uring_sqe, iovs: Seq<UserIovec>)
    requires
        !spec_handled(sqe.opcode as u32),
    ensures
        spec_dispatch(sqe, iovs) == enosys(),
{
}

/// Every implemented opcode has an entry it does not answer with `-ENOSYS`: the all-zero
/// entry carrying that opcode.
pub proof fn lemma_handled_answers(op: u8, iovs: Seq<UserIovec>)
    requires
        spec_handled(op as u32),
    ensures
        spec_dispatch(sys::io_uring_sqe { opcode: op, ..sys::sqe_zeroed() }, iovs) != enosys(),
{
    let sqe = sys::io_uring_sqe { opcode: op, ..sys::sqe_zeroed() };
    assert(0u32 & sys::IORING_NOP_INJECT_RESULT == 0) by (bit_vector);
}


/// Single-buffer transfers without buffer selection report the bytes of their buffer: for
/// `Read`, `ReadFixed`, `Recv`, `ReadMulti`, `Write`, `WriteFixed`, `Send` and `SendZc`, the
/// result is the entry's `len` when both `addr` and `len` are non-zero, and `0` otherwise.
pub proof fn law_buffer_transfer_result(sqe: sys::io_uring_sqe, iovs: Seq<UserIovec>)
    requires
        sqe.opcode == 22 || sqe.opcode == 4 || sqe.opcode == 27 || sqe.opcode == 49 || sqe.opcode == 23
            || sqe.opcode == 5 || sqe.opcode == 26 || sqe.opcode == 47,
    ensures
        spec_dispatch(sqe, iovs) == if sqe.addr != 0 && sqe.len != 0 {
            sqe.len as i32
        } else {
            0i32
        },
{
}

/// Every opcode below `IORING_OP_LAST` (63) is implemented, and no other: the probe reports
/// exactly opcodes `0..63`.
pub proof fn law_handled_opcodes(op: u32)
    ensures
        spec_handled(op) == (op < 63),
{
}

/// Operations that only change kernel state the emulator does not keep complete with `0`,
/// whatever the entry holds: `Close`, `Fsync`, `SyncFileRange`, `Fallocate`, `Ftruncate`,
/// `Shutdown`, `PollAdd`, `PollRemove`, `AsyncCancel`, `TimeoutRemove`, `Splice`, `Tee`,
/// `RemoveBuffers`, `Fadvise`, `Madvise`, `MsgRing`, `Listen`, `UringCmd` and `RecvZc`.
pub proof fn law_noop_success_result(sqe: sys::io_uring_sqe, iovs: Seq<UserIovec>)
    requires
        sqe.opcode == 19 || sqe.opcode == 3 || sqe.opcode == 8 || sqe.opcode == 17 || sqe.opcode == 55
            || sqe.opcode == 34 || sqe.opcode == 6 || sqe.opcode == 7 || sqe.opcode == 14 || sqe.opcode
            == 12 || sqe.opcode == 30 || sqe.opcode == 33 || sqe.opcode == 32 || sqe.opcode == 24
            || sqe.opcode == 25 || sqe.opcode == 40 || sqe.opcode == 57 || sqe.opcode == 46 || sqe.opcode
            == 58,
    ensures
        spec_dispatch(sqe, iovs) == 0,
{
}

/// A NOP completes with `0`, or with the entry's `len` when it asks for an injected
/// result (`IORING_NOP_INJECT_RESULT`, bit 0 of the op flags).
pub proof fn law_nop_result(sqe: sys::io_uring_sqe, iovs: Seq<UserIovec>)
    requires
        sqe.opcode == 0,
    ensures
        spec_dispatch(sqe, iovs) == if sqe.op_flags & 1u32 != 0 {
            sqe.len as i32
        } else {
            0i32
        },
{
}

/// Vectored transfers (`Readv`, `Writev` and their fixed forms) report the bytes of the
/// iovec array, `0` for a null or empty array; message transfers (`RecvMsg`, `SendMsg`,
/// `SendMsgZc`) report the bytes of the msghdr's iovec array, `-EFAULT` without a msghdr.
pub proof fn law_vectored_result(sqe: sys::io_uring_sqe, iovs: Seq<UserIovec>)
    ensures
        (sqe.opcode == 1 || sqe.opcode == 2 || sqe.opcode == 60 || sqe.opcode == 61) ==> spec_dispatch(
            sqe,
            iovs,
        ) == if sqe.addr == 0 || sqe.len == 0 {
            0i32
        } else {
            (spec_iov_total(iovs) as usize) as i32
        },
        (sqe.opcode == 10 || sqe.opcode == 9 || sqe.opcode == 48) ==> spec_dispatch(sqe, iovs) == if sqe.addr
            == 0 {
            -14i32
        } else {
            (spec_iov_total(iovs) as usize) as i32
        },
{
}

/// The iovec byte count adds up the lengths of the non-null iovecs, as long as the sum fits
/// in a `usize`.
pub proof fn law_iov_total_sums(iovs: Seq<UserIovec>, v: UserIovec)
    requires
        spec_iov_total(iovs) + v.len <= usize::MAX,
    ensures
        spec_iov_total(Seq::<UserIovec>::empty()) == 0,
        spec_iov_total(iovs.push(v)) == spec_iov_total(iovs) + if v.base != 0 {
            v.len as nat
        } else {
            0
        },
{
    assert(iovs.push(v).drop_last() =~= iovs);
}

/// Operations that read a pointer from the entry fail with `-EFAULT` (-14) when it is null,
/// and otherwise succeed: `Timeout` and `LinkTimeout` with `-ETIME` (-62); `OpenAt` and
/// `OpenAt2` with a new descriptor (42); `UnlinkAt`, `MkdirAt`, `FutexWait`, `FutexWake`
/// and `Pipe` with `0`; `Connect`, `Bind`, `RenameAt`, `SymlinkAt` and `LinkAt`, which
/// read both `addr` and `off`, with `0`; `FutexWaitV` with `0`, needing a non-empty array.
pub proof fn law_pointer_argument_results(sqe: sys::io_uring_sqe, iovs: Seq<UserIovec>)
    ensures
        (sqe.opcode == 11 || sqe.opcode == 15) ==> spec_dispatch(sqe, iovs) == if sqe.addr == 0 {
            -14i32
        } else {
            -62i32
        },
        (sqe.opcode == 18 || sqe.opcode == 28) ==> spec_dispatch(sqe, iovs) == if sqe.addr == 0 {
            -14i32
        } else {
            42i32
        },
        (sqe.opcode == 36 || sqe.opcode == 37 || sqe.opcode == 51 || sqe.opcode == 52 || sqe.opcode == 62)
            ==> spec_dispatch(sqe, iovs) == if sqe.addr == 0 {
            -14i32
        } else {
            0i32
        },
        (sqe.opcode == 16 || sqe.opcode == 56 || sqe.opcode == 35 || sqe.opcode == 38 || sqe.opcode == 39)
            ==> spec_dispatch(sqe, iovs) == if sqe.addr == 0 || sqe.off == 0 {
            -14i32
        } else {
            0i32
        },
        sqe.opcode == 53 ==> spec_dispatch(sqe, iovs) == if sqe.addr == 0 || sqe.len == 0 {
            -14i32
        } else {
            0i32
        },
{
}

/// The remaining implemented operations: `Accept`, `Socket` and `FixedFdInstall` hand out
/// descriptor 42; `Statx`, `EpollCtl`, `ProvideBuffers`, `FSetXattr`, `SetXattr`,
/// `EpollWait` and `WaitId` complete with `0`; `FGetXattr` and `GetXattr` report the value
/// length `len`; `FilesUpdate` reports the number of descriptors, `0` for a null or empty
/// array. An opcode from `IORING_OP_LAST` (63) on completes with `-ENOSYS` (-38).
pub proof fn law_other_results(sqe: sys::io_uring_sqe, iovs: Seq<UserIovec>)
    ensures
        (sqe.opcode == 13 || sqe.opcode == 45 || sqe.opcode == 54) ==> spec_dispatch(sqe, iovs) == 42,
        (sqe.opcode == 21 || sqe.opcode == 29 || sqe.opcode == 31 || sqe.opcode == 41 || sqe.opcode == 42
            || sqe.opcode == 59 || sqe.opcode == 50) ==> spec_dispatch(sqe, iovs) == 0,
        (sqe.opcode == 43 || sqe.opcode == 44) ==> spec_dispatch(sqe, iovs) == sqe.len as i32,
        sqe.opcode == 20 ==> spec_dispatch(sqe, iovs) == if sqe.addr == 0 || sqe.len == 0 {
            0i32
        } else {
            sqe.len as i32
        },
        sqe.opcode >= 63 ==> spec_dispatch(sqe, iovs) == -38,
{
}

/// A buffer-selecting read takes the oldest buffer of its group: the position found holds a
/// buffer of the group and every earlier buffer belongs to another group; no position is
/// found exactly when the group has no buffer.
pub proof fn law_find_buffer_is_oldest(pool: Seq<ProvidedBuffer>, group: u16)
    ensures
        spec_find_buffer(pool, group, 0) >= 0 ==> ({
            let k = spec_find_buffer(pool, group, 0);
            &&& k < pool.len()
            &&& pool[k].bgid == group
            &&& forall|j: int| 0 <= j < k ==> (#[trigger] pool[j]).bgid != group
        }),
        spec_find_buffer(pool, group, 0) < 0 <==> forall|j: int| 0 <= j < pool.len() ==> (#[trigger] pool[j]).bgid
            != group,
{
    lemma_find_buffer_from(pool, group, 0);
}

proof fn lemma_find_buffer_from(pool: Seq<ProvidedBuffer>, group: u16, from: int)
    requires
        0 <= from,
    ensures
        spec_find_buffer(pool, group, from) >= 0 ==> ({
            let k = spec_find_buffer(pool, group, from);
            &&& from <= k < pool.len()
            &&& pool[k].bgid == group
            &&& forall|j: int| from <= j < k ==> (#[trigger] pool[j]).bgid != group
        }),
        spec_find_buffer(pool, group, from) < 0 <==> forall|j: int| from <= j < pool.len() ==> (
        #[trigger] pool[j]).bgid != group,
    decreases pool.len() - from,
{
    if from < pool.len() && pool[from].bgid != group {
        lemma_find_buffer_from(pool, group, from + 1);
    }
}

/// RemoveBuffers with count `n` on group `group`: the buffers of other groups stay, in their
/// order; of the group's own buffers the `n` oldest go (all of them when it holds fewer) and
/// the rest stay, in their order.
pub proof fn law_remove_buffers_by_group(pool: Seq<ProvidedBuffer>, group: u16, n: nat)
    ensures
        spec_removed(pool, group, n).filter(|b: ProvidedBuffer| b.bgid != group) == pool.filter(
            |b: ProvidedBuffer| b.bgid != group,
        ),
        spec_removed(pool, group, n).filter(|b: ProvidedBuffer| b.bgid == group) == if n < pool.filter(
            |b: ProvidedBuffer| b.bgid == group,
        ).len() {
            pool.filter(|b: ProvidedBuffer| b.bgid == group).skip(n as int)
        } else {
            Seq::<ProvidedBuffer>::empty()
        },
    decreases pool.len(),
{
    let other = |b: ProvidedBuffer| b.bgid != group;
    let same = |b: ProvidedBuffer| b.bgid == group;
    if pool.len() == 0 {
        reveal(Seq::filter);
        assert(pool.filter(other) =~= Seq::<ProvidedBuffer>::empty());
        assert(pool.filter(same) =~= Seq::<ProvidedBuffer>::empty());
    } else {
        let x = pool[0];
        let rest = pool.drop_first();
        assert(pool =~= seq![x] + rest);
        rest.lemma_filter_prepend(x, other);
        rest.lemma_filter_prepend(x, same);
        if x.bgid == group && n > 0 {
            law_remove_buffers_by_group(rest, group, (n - 1) as nat);
            assert(pool.filter(same) =~= seq![x] + rest.filter(same));
            assert(pool.filter(other) =~= rest.filter(other));
            if n < pool.filter(same).len() {
                assert(pool.filter(same).skip(n as int) =~= rest.filter(same).skip(n - 1));
            }
        } else {
            law_remove_buffers_by_group(rest, group, n);
            let r = spec_removed(rest, group, n);
            assert(spec_removed(pool, group, n) == seq![x] + r);
            r.lemma_filter_prepend(x, other);
            r.lemma_filter_prepend(x, same);
            if x.bgid == group {
                assert(n == 0);
                assert(pool.filter(same) =~= seq![x] + rest.filter(same));
                assert(pool.filter(same).skip(0) =~= pool.filter(same));
                if rest.filter(same).len() == 0 {
                    assert(rest.filter(same).skip(0) =~= rest.filter(same));
                }
                assert(r.filter(same) =~= rest.filter(same));
            }
        }
    }
}

/// A read into a selected buffer transfers the requested length when the buffer holds it,
/// and the whole buffer when no length was requested or the request is longer; never more
/// than the buffer holds (for a buffer shorter than 2 GiB, whose length fits the result).
pub proof fn law_selected_read_length(sqe: sys::io_uring_sqe, b: ProvidedBuffer)
    requires
        b.len < 0x8000_0000,
    ensures
        0 <= spec_selected_len(sqe, b) <= b.len,
        sqe.len != 0 && sqe.len <= b.len ==> spec_selected_len(sqe, b) == sqe.len,
        sqe.len == 0 || sqe.len > b.len ==> spec_selected_len(sqe, b) == b.len,
{
}

} // verus!
