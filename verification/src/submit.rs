//! The kernel side of the emulated ring: submission, dispatch and completion.
//!
//! Submitting moves queued entries off the submission ring into a pending batch. Reaping
//! completions dispatches every pending batch, in order, and posts the completions.

pub mod dispatch;
pub mod properties;

use crate::cqueue::{self, CompletionQueue};
use crate::register::{Probe, Restriction};
use crate::squeue::{self, SubmissionQueue};
use crate::sys;
use crate::types::{CancelBuilder, SubmitArgs, Timespec};
use crate::util::{ring_advance, u32_period};
use crate::{Error, Parameters};
use dispatch::{
    dispatch_op, enobufs, find_buffer, is_handled, provided_buffers, remove_buffers, spec_dispatch,
    spec_find_buffer, spec_handled, spec_provided, spec_remove_count, spec_removed, spec_selected_len, spec_selects_buffer, ProvidedBuffer, UserIovec,
};
use vstd::prelude::*;

verus! {

/// `io_uring_enter` flags.
#[derive(Clone, Copy, Debug, PartialEq, Eq, Structural)]
pub struct EnterFlags {
    bits: u32,
}

impl EnterFlags {
    /// The raw flag bits.
    pub closed spec fn spec_bits(&self) -> u32 {
        self.bits
    }

    /// The raw flag bits.
    pub fn bits(&self) -> (r: u32)
        ensures
            r == self.spec_bits(),
    {
        self.bits
    }

    /// Flags holding exactly the given bits.
    pub fn from_bits_retain(bits: u32) -> (r: EnterFlags)
        ensures
            r.spec_bits() == bits,
    {
        EnterFlags { bits }
    }

    /// No flags.
    pub fn empty() -> (r: EnterFlags)
        ensures
            r.spec_bits() == 0,
    {
        EnterFlags { bits: 0 }
    }

    /// The union of two sets of flags.
    pub fn union(self, other: EnterFlags) -> (r: EnterFlags)
        ensures
            r.spec_bits() == self.spec_bits() | other.spec_bits(),
    {
        EnterFlags { bits: self.bits | other.bits }
    }

    /// Adds the flags of `other`.
    pub fn insert(&mut self, other: EnterFlags)
        ensures
            final(self).spec_bits() == old(self).spec_bits() | other.spec_bits(),
    {
        self.bits = self.bits | other.bits;
    }

    /// Whether every flag of `other` is set in `self`.
    pub fn contains(&self, other: EnterFlags) -> (r: bool)
        ensures
            r == (self.spec_bits() & other.spec_bits() == other.spec_bits()),
    {
        self.bits & other.bits == other.bits
    }

    /// Wait for the requested number of completions.
    #[allow(non_snake_case)]
    pub fn GETEVENTS() -> (r: EnterFlags)
        ensures
            r.spec_bits() == 1u32,
    {
        EnterFlags { bits: 1u32 }
    }

    /// Wake up the submission queue polling thread.
    #[allow(non_snake_case)]
    pub fn SQ_WAKEUP() -> (r: EnterFlags)
        ensures
            r.spec_bits() == 2u32,
    {
        EnterFlags { bits: 2u32 }
    }

    /// Wait for free submission queue entries.
    #[allow(non_snake_case)]
    pub fn SQ_WAIT() -> (r: EnterFlags)
        ensures
            r.spec_bits() == 4u32,
    {
        EnterFlags { bits: 4u32 }
    }

    /// The argument is an extended `io_uring_getevents_arg`.
    #[allow(non_snake_case)]
    pub fn EXT_ARG() -> (r: EnterFlags)
        ensures
            r.spec_bits() == 8u32,
    {
        EnterFlags { bits: 8u32 }
    }

    /// The ring file descriptor is a registered ring index.
    #[allow(non_snake_case)]
    pub fn REGISTERED_RING() -> (r: EnterFlags)
        ensures
            r.spec_bits() == 16u32,
    {
        EnterFlags { bits: 16u32 }
    }

    /// The wait timeout is an absolute time.
    #[allow(non_snake_case)]
    pub fn ABS_TIMER() -> (r: EnterFlags)
        ensures
            r.spec_bits() == 32u32,
    {
        EnterFlags { bits: 32u32 }
    }

    /// The extended argument is a registered wait region offset.
    #[allow(non_snake_case)]
    pub fn EXT_ARG_REG() -> (r: EnterFlags)
        ensures
            r.spec_bits() == 64u32,
    {
        EnterFlags { bits: 64u32 }
    }

    /// Do not account the wait as I/O wait.
    #[allow(non_snake_case)]
    pub fn NO_IOWAIT() -> (r: EnterFlags)
        ensures
            r.spec_bits() == 128u32,
    {
        EnterFlags { bits: 128u32 }
    }
}

/// An iovec handed to buffer registration: base address and length.
#[derive(Clone, Copy, Debug)]
pub struct IoVec {
    pub iov_base: u64,
    pub iov_len: usize,
}

/// Result of dispatching a single SQE.
#[derive(Clone, Copy, Debug)]
pub struct CompletionData {
    pub user_data: u64,
    pub result: i32,
    pub skip_success: bool,
    /// Whether the operation ran (it was not cancelled by its link chain), and so touched
    /// the user memory it points to.
    pub dispatched: bool,
    /// The provided buffer the operation read into, if it selected one.
    pub buffer: Option<ProvidedBuffer>,
}

/// `-ECANCELED`, the result of an operation whose link chain was broken.
pub open spec fn ecanceled() -> i32 {
    -125i32
}

/// The entry links to the next one in its batch (`IO_LINK` or `IO_HARDLINK`).
pub open spec fn spec_links_next(sqe: sys::io_uring_sqe) -> bool {
    sqe.flags & 4u8 != 0 || sqe.flags & 8u8 != 0
}

/// The entry's link to the next one survives its failure (`IO_HARDLINK`).
pub open spec fn spec_hardlink(sqe: sys::io_uring_sqe) -> bool {
    sqe.flags & 8u8 != 0
}

/// No completion is posted when the entry succeeds (`SKIP_SUCCESS`).
pub open spec fn spec_skip_success(sqe: sys::io_uring_sqe) -> bool {
    sqe.flags & 64u8 != 0
}

/// Whether the entry after `sqe` is cancelled, given whether `sqe` itself was, and its result.
/// A chain is broken by a soft-linked entry that fails, and ends at an entry that does not
/// link on.
pub open spec fn spec_next_cancel(cancel: bool, sqe: sys::io_uring_sqe, result: i32) -> bool {
    if !spec_links_next(sqe) {
        false
    } else if result < 0 && !spec_hardlink(sqe) {
        true
    } else {
        cancel
    }
}

/// The iovecs read from user memory for entry `k` of a batch (none when absent).
pub open spec fn spec_mem_at(mems: Seq<Vec<UserIovec>>, k: int) -> Seq<UserIovec> {
    if 0 <= k < mems.len() {
        mems[k]@
    } else {
        Seq::empty()
    }
}

/// The outcome of one entry, given whether its link chain is broken and the provided
/// buffers: `-ECANCELED` inside a broken chain; for a buffer-selecting read, the oldest
/// buffer of its group (or `-ENOBUFS` when the group is empty); else its dispatch result.
pub open spec fn spec_entry_outcome(
    cancel: bool,
    pool: Seq<ProvidedBuffer>,
    sqe: sys::io_uring_sqe,
    iovs: Seq<UserIovec>,
) -> CompletionData {
    let skip = spec_skip_success(sqe);
    if cancel {
        CompletionData {
            user_data: sqe.user_data,
            result: ecanceled(),
            skip_success: skip,
            dispatched: false,
            buffer: None,
        }
    } else if spec_selects_buffer(sqe) {
        let k = spec_find_buffer(pool, sqe.buf_index, 0);
        if k < 0 {
            CompletionData {
                user_data: sqe.user_data,
                result: enobufs(),
                skip_success: skip,
                dispatched: true,
                buffer: None,
            }
        } else {
            CompletionData {
                user_data: sqe.user_data,
                result: spec_selected_len(sqe, pool[k]),
                skip_success: skip,
                dispatched: true,
                buffer: Some(pool[k]),
            }
        }
    } else {
        CompletionData {
            user_data: sqe.user_data,
            result: spec_dispatch(sqe, iovs),
            skip_success: skip,
            dispatched: true,
            buffer: None,
        }
    }
}

/// The provided buffers after one entry: a selected buffer is taken out, a ProvideBuffers
/// entry appends its buffers, a RemoveBuffers entry takes out the oldest of its group; a
/// cancelled entry changes nothing.
pub open spec fn spec_pool_after(cancel: bool, pool: Seq<ProvidedBuffer>, sqe: sys::io_uring_sqe) -> Seq<ProvidedBuffer> {
    if cancel {
        pool
    } else if spec_selects_buffer(sqe) {
        let k = spec_find_buffer(pool, sqe.buf_index, 0);
        if k < 0 {
            pool
        } else {
            pool.remove(k)
        }
    } else if sqe.opcode as u32 == sys::IORING_OP_PROVIDE_BUFFERS {
        pool + spec_provided(sqe)
    } else if sqe.opcode as u32 == sys::IORING_OP_REMOVE_BUFFERS {
        spec_removed(pool, sqe.buf_index, spec_remove_count(sqe))
    } else {
        pool
    }
}

/// Before entry `i` of a batch: whether its link chain is broken, and the provided buffers.
pub open spec fn spec_state_before(
    sqes: Seq<sys::io_uring_sqe>,
    mems: Seq<Vec<UserIovec>>,
    pool: Seq<ProvidedBuffer>,
    i: nat,
) -> (bool, Seq<ProvidedBuffer>)
    decreases i,
{
    if i == 0 {
        (false, pool)
    } else {
        let prev = spec_state_before(sqes, mems, pool, (i - 1) as nat);
        let sqe = sqes[i - 1];
        let cd = spec_entry_outcome(prev.0, prev.1, sqe, spec_mem_at(mems, i - 1));
        (spec_next_cancel(prev.0, sqe, cd.result), spec_pool_after(prev.0, prev.1, sqe))
    }
}

/// Whether entry `i` of a batch is cancelled.
pub open spec fn spec_cancel_before(
    sqes: Seq<sys::io_uring_sqe>,
    mems: Seq<Vec<UserIovec>>,
    pool: Seq<ProvidedBuffer>,
    i: nat,
) -> bool {
    spec_state_before(sqes, mems, pool, i).0
}

/// The dispatch results of a batch, in submission order, starting from the provided
/// buffers `pool`.
pub open spec fn spec_batch_results(
    sqes: Seq<sys::io_uring_sqe>,
    mems: Seq<Vec<UserIovec>>,
    pool: Seq<ProvidedBuffer>,
) -> Seq<CompletionData> {
    Seq::new(
        sqes.len(),
        |i: int|
            {
                let st = spec_state_before(sqes, mems, pool, i as nat);
                spec_entry_outcome(st.0, st.1, sqes[i], spec_mem_at(mems, i))
            },
    )
}

/// The provided buffers after a batch.
pub open spec fn spec_batch_pool(
    sqes: Seq<sys::io_uring_sqe>,
    mems: Seq<Vec<UserIovec>>,
    pool: Seq<ProvidedBuffer>,
) -> Seq<ProvidedBuffer> {
    spec_state_before(sqes, mems, pool, sqes.len()).1
}

/// The completion flags of a result: `IORING_CQE_F_BUFFER` with the buffer id in the upper
/// 16 bits when a provided buffer was selected, else none.
pub open spec fn spec_cqe_flags(buffer: Option<ProvidedBuffer>) -> u32 {
    match buffer {
        Some(b) => sys::IORING_CQE_F_BUFFER | ((b.bid as u32) << sys::IORING_CQE_BUFFER_SHIFT),
        None => 0,
    }
}

/// Whether a result is posted as a completion: all are, except successes of
/// `SKIP_SUCCESS` entries.
pub open spec fn spec_is_posted(cd: CompletionData) -> bool {
    !(cd.skip_success && cd.result >= 0)
}

/// The completion entry posted for a result.
pub open spec fn spec_completion_cqe(cd: CompletionData) -> sys::io_uring_cqe {
    sys::io_uring_cqe { user_data: cd.user_data, res: cd.result, flags: spec_cqe_flags(cd.buffer) }
}

/// The completion entries posted for a sequence of results, in order.
pub open spec fn spec_posted(results: Seq<CompletionData>) -> Seq<sys::io_uring_cqe>
    decreases results.len(),
{
    if results.len() == 0 {
        Seq::empty()
    } else {
        let rest = spec_posted(results.drop_last());
        if spec_is_posted(results.last()) {
            rest.push(spec_completion_cqe(results.last()))
        } else {
            rest
        }
    }
}

/// The iovec table of batch `b` (empty when absent).
pub open spec fn spec_table_at(table: Seq<Vec<Vec<UserIovec>>>, b: int) -> Seq<Vec<UserIovec>> {
    if 0 <= b < table.len() {
        table[b]@
    } else {
        Seq::empty()
    }
}

/// The provided buffers after a sequence of pending batches, starting from `pool`.
pub open spec fn spec_pending_pool(
    batches: Seq<Seq<sys::io_uring_sqe>>,
    table: Seq<Vec<Vec<UserIovec>>>,
    pool: Seq<ProvidedBuffer>,
) -> Seq<ProvidedBuffer>
    decreases batches.len(),
{
    if batches.len() == 0 {
        pool
    } else {
        let prior = batches.drop_last();
        spec_batch_pool(
            batches.last(),
            spec_table_at(table, prior.len() as int),
            spec_pending_pool(prior, table, pool),
        )
    }
}

/// The completion entries posted for a sequence of pending batches, batch after batch,
/// starting from the provided buffers `pool`; batch `b` reads its iovecs from `table[b]`.
pub open spec fn spec_pending_cqes(
    batches: Seq<Seq<sys::io_uring_sqe>>,
    table: Seq<Vec<Vec<UserIovec>>>,
    pool: Seq<ProvidedBuffer>,
) -> Seq<sys::io_uring_cqe>
    decreases batches.len(),
{
    if batches.len() == 0 {
        Seq::empty()
    } else {
        let prior = batches.drop_last();
        spec_pending_cqes(prior, table, pool) + spec_posted(
            spec_batch_results(
                batches.last(),
                spec_table_at(table, prior.len() as int),
                spec_pending_pool(prior, table, pool),
            ),
        )
    }
}

/// Whether one of `dropped` consecutive overflows, counted from `overflow`, found the
/// counter at zero (which raises the CQ overflow flag on the submission ring).
pub open spec fn spec_overflow_flag_raised(overflow: u32, dropped: nat) -> bool
    decreases dropped,
{
    if dropped == 0 {
        false
    } else {
        spec_overflow_flag_raised(overflow, (dropped - 1) as nat) || (overflow as int + (dropped
            - 1)) % u32_period() == 0
    }
}

/// How many of `count` completions fit in the room left in `cq`.
pub open spec fn spec_fit<C: cqueue::EntryMarker>(cq: CompletionQueue<C>, count: nat) -> nat {
    let room = (cq.spec_capacity() - cq@.len()) as nat;
    if count <= room {
        count
    } else {
        room
    }
}

/// Posting `cqes` in order into `before` gives `after`: those that fit are appended, the rest
/// are counted as overflowed (the counter wrapping at `2^32`), and the submission ring flags
/// go from `before_flags` to `after_flags`.
pub open spec fn spec_posts<C: cqueue::EntryMarker>(
    before: CompletionQueue<C>,
    before_flags: u32,
    cqes: Seq<sys::io_uring_cqe>,
    after: CompletionQueue<C>,
    after_flags: u32,
) -> bool {
    let fit = spec_fit(before, cqes.len());
    let dropped = (cqes.len() - fit) as nat;
    &&& after.wf()
    &&& after@ == before@ + cqes.take(fit as int).map_values(|c: sys::io_uring_cqe| C::spec_from_cqe(c))
    &&& after.spec_capacity() == before.spec_capacity()
    &&& after.spec_flags() == before.spec_flags()
    &&& after.spec_overflow() as int == (before.spec_overflow() as int + dropped) % u32_period()
    &&& after_flags == if spec_overflow_flag_raised(before.spec_overflow(), dropped) {
        before_flags | sys::IORING_SQ_CQ_OVERFLOW
    } else {
        before_flags
    }
}

proof fn lemma_or_idempotent(x: u32, b: u32)
    ensures
        (x | b) | b == x | b,
{
    assert((x | b) | b == x | b) by (bit_vector);
}

/// Submitting the entries `taken` appends them as a new pending batch (when there are any);
/// when `flush` is set, every pending batch is then dispatched, batch `b` reading its iovecs
/// from `table[b]`, and its completions posted.
pub open spec fn spec_submits<C: cqueue::EntryMarker>(
    pending: Seq<Seq<sys::io_uring_sqe>>,
    taken: Seq<sys::io_uring_sqe>,
    cq: CompletionQueue<C>,
    sq_flags: u32,
    pool: Seq<ProvidedBuffer>,
    flush: bool,
    table: Seq<Vec<Vec<UserIovec>>>,
    pending_after: Seq<Seq<sys::io_uring_sqe>>,
    cq_after: CompletionQueue<C>,
    sq_flags_after: u32,
    pool_after: Seq<ProvidedBuffer>,
) -> bool {
    let queued = if taken.len() == 0 {
        pending
    } else {
        pending.push(taken)
    };
    if flush {
        &&& pending_after == Seq::<Seq<sys::io_uring_sqe>>::empty()
        &&& pool_after == spec_pending_pool(queued, table, pool)
        &&& spec_posts(cq, sq_flags, spec_pending_cqes(queued, table, pool), cq_after, sq_flags_after)
    } else {
        &&& pending_after == queued
        &&& cq_after == cq
        &&& sq_flags_after == sq_flags
        &&& pool_after == pool
    }
}

/// `after` is `before` with every pending batch dispatched, batch `b` reading its iovecs from
/// `table[b]`, and the completions posted.
pub open spec fn spec_flushed<S: squeue::EntryMarker, C: cqueue::EntryMarker>(
    before: Submitter<S, C>,
    after: Submitter<S, C>,
    table: Seq<Vec<Vec<UserIovec>>>,
) -> bool {
    &&& after.wf()
    &&& after.spec_params() == before.spec_params()
    &&& after.spec_pending() == Seq::<Seq<sys::io_uring_sqe>>::empty()
    &&& after.spec_sq()@ == before.spec_sq()@
    &&& after.spec_sq().spec_capacity() == before.spec_sq().spec_capacity()
    &&& after.spec_sq().spec_dropped() == before.spec_sq().spec_dropped()
    &&& after.spec_pool() == spec_pending_pool(before.spec_pending(), table, before.spec_pool())
    &&& spec_posts(
        before.spec_cq(),
        before.spec_sq().spec_flags(),
        spec_pending_cqes(before.spec_pending(), table, before.spec_pool()),
        after.spec_cq(),
        after.spec_sq().spec_flags(),
    )
}

/// `after` is `before` with every queued entry submitted as a new pending batch, reported in
/// `r`; when `flush` is set, every pending batch is then dispatched, batch `b` reading its
/// iovecs from `table[b]`, and its completions posted.
pub open spec fn spec_submitted<S: squeue::EntryMarker, C: cqueue::EntryMarker>(
    before: Submitter<S, C>,
    after: Submitter<S, C>,
    r: Result<usize, Error>,
    flush: bool,
    table: Seq<Vec<Vec<UserIovec>>>,
) -> bool {
    &&& after.wf()
    &&& after.spec_params() == before.spec_params()
    &&& after.spec_sq().spec_capacity() == before.spec_sq().spec_capacity()
    &&& after.spec_sq().spec_dropped() == before.spec_sq().spec_dropped()
    &&& r == Ok::<usize, Error>(before.spec_sq()@.len() as usize)
    &&& after.spec_sq()@ == Seq::<S>::empty()
    &&& spec_submits(
        before.spec_pending(),
        before.spec_sq()@.map_values(|e: S| e.spec_sqe()),
        before.spec_cq(),
        before.spec_sq().spec_flags(),
        before.spec_pool(),
        flush,
        table,
        after.spec_pending(),
        after.spec_cq(),
        after.spec_sq().spec_flags(),
        after.spec_pool(),
    )
}

/// Posting `xs` and then one more completion is posting `xs.push(c)`.
proof fn lemma_posts_step<C: cqueue::EntryMarker>(
    a: CompletionQueue<C>,
    fa: u32,
    xs: Seq<sys::io_uring_cqe>,
    b: CompletionQueue<C>,
    fb: u32,
    c: sys::io_uring_cqe,
    d: CompletionQueue<C>,
    fd: u32,
)
    requires
        a.wf(),
        spec_posts(a, fa, xs, b, fb),
        spec_posts(b, fb, seq![c], d, fd),
    ensures
        spec_posts(a, fa, xs.push(c), d, fd),
{
    a.lemma_wf();
    b.lemma_wf();
    let n = xs.len();
    let fit_a = spec_fit(a, n);
    let drop_a = (n - fit_a) as nat;
    let fit2 = spec_fit(a, n + 1);
    let drop2 = (n + 1 - fit2) as nat;
    let fit_b = spec_fit(b, 1);
    let drop_b = (1 - fit_b) as nat;
    let f = |x: sys::io_uring_cqe| C::spec_from_cqe(x);
    let p = u32_period();
    vstd::arithmetic::div_mod::lemma_small_mod(a.spec_overflow() as nat, p as nat);
    vstd::arithmetic::div_mod::lemma_small_mod(b.spec_overflow() as nat, p as nat);
    vstd::arithmetic::div_mod::lemma_add_mod_noop(a.spec_overflow() as int + drop_a, drop_b as int, p);
    vstd::arithmetic::div_mod::lemma_small_mod(drop_b, p as nat);
    vstd::arithmetic::div_mod::lemma_mod_twice(a.spec_overflow() as int + drop_a, p);
    assert(seq![c].take(1) =~= seq![c]);
    assert(seq![c].take(0) =~= Seq::<sys::io_uring_cqe>::empty());
    if fit_a == n {
        assert(xs.push(c).take(n as int) =~= xs);
        if fit_b == 1 {
            assert(fit2 == n + 1);
            assert(xs.push(c).take(fit2 as int) =~= xs.push(c));
            assert(xs.push(c).map_values(f) =~= xs.map_values(f).push(C::spec_from_cqe(c)));
            assert(seq![c].map_values(f) =~= seq![C::spec_from_cqe(c)]);
            assert(d@ =~= a@ + xs.push(c).take(fit2 as int).map_values(f));
        } else {
            assert(fit2 == n);
            assert(xs.take(n as int) =~= xs);
            assert(Seq::<sys::io_uring_cqe>::empty().map_values(f) =~= Seq::<C>::empty());
            assert(d@ =~= a@ + xs.push(c).take(fit2 as int).map_values(f));
            assert(drop2 == 1);
            assert(spec_overflow_flag_raised(a.spec_overflow(), 1) == (a.spec_overflow() as int % p == 0));
        }
    } else {
        assert(fit_b == 0);
        assert(fit2 == fit_a);
        assert(xs.push(c).take(fit2 as int) =~= xs.take(fit_a as int));
        assert(Seq::<sys::io_uring_cqe>::empty().map_values(f) =~= Seq::<C>::empty());
        assert(d@ =~= a@ + xs.push(c).take(fit2 as int).map_values(f));
        assert(drop2 == drop_a + 1);
        assert(spec_overflow_flag_raised(a.spec_overflow(), drop2) == (spec_overflow_flag_raised(
            a.spec_overflow(),
            drop_a,
        ) || (a.spec_overflow() as int + drop_a) % p == 0));
        assert(spec_overflow_flag_raised(b.spec_overflow(), 0) == false);
        assert(spec_overflow_flag_raised(b.spec_overflow(), 1) == (b.spec_overflow() as int % p == 0));
        lemma_or_idempotent(fa, sys::IORING_SQ_CQ_OVERFLOW);
    }
}

/// Posting nothing changes nothing.
proof fn lemma_posts_nothing<C: cqueue::EntryMarker>(a: CompletionQueue<C>, fa: u32)
    requires
        a.wf(),
    ensures
        spec_posts(a, fa, Seq::empty(), a, fa),
{
    a.lemma_wf();
    vstd::arithmetic::div_mod::lemma_small_mod(a.spec_overflow() as nat, u32_period() as nat);
    let f = |x: sys::io_uring_cqe| C::spec_from_cqe(x);
    assert(Seq::<sys::io_uring_cqe>::empty().take(0).map_values(f) =~= Seq::<C>::empty());
    assert(a@ =~= a@ + Seq::<C>::empty());
}

/// Whether the entry after `sqe` is cancelled, given whether `sqe` was and its result.
pub fn next_cancel(cancel: bool, sqe: &sys::io_uring_sqe, result: i32) -> (r: bool)
    ensures
        r == spec_next_cancel(cancel, *sqe, result),
{
    let links_to_next = (sqe.flags & 4u8 != 0) || (sqe.flags & 8u8 != 0);
    if !links_to_next {
        false
    } else if result < 0 && sqe.flags & 8u8 == 0 {
        true
    } else {
        cancel
    }
}

/// The outcome of one entry (see [`spec_entry_outcome`]); the provided buffers are updated
/// as [`spec_pool_after`] says.
pub fn run_entry(
    cancel: bool,
    pool: &mut Vec<ProvidedBuffer>,
    sqe: &sys::io_uring_sqe,
    iovs: &Vec<UserIovec>,
) -> (r: CompletionData)
    ensures
        r == spec_entry_outcome(cancel, old(pool)@, *sqe, iovs@),
        final(pool)@ == spec_pool_after(cancel, old(pool)@, *sqe),
{
    let skip_success = sqe.flags & 64u8 != 0;
    if cancel {
        return CompletionData {
            user_data: sqe.user_data,
            result: -125i32,
            skip_success,
            dispatched: false,
            buffer: None,
        };
    }
    let op = sqe.opcode as u32;
    let selects = sqe.flags & 32u8 != 0 && (op == sys::IORING_OP_READ || op == sys::IORING_OP_RECV
        || op == sys::IORING_OP_READ_MULTISHOT);
    if selects {
        match find_buffer(pool, sqe.buf_index) {
            None => CompletionData {
                user_data: sqe.user_data,
                result: -105i32,
                skip_success,
                dispatched: true,
                buffer: None,
            },
            Some(k) => {
                let b = pool.remove(k);
                let n = if sqe.len == 0 || sqe.len > b.len {
                    b.len
                } else {
                    sqe.len
                };
                CompletionData {
                    user_data: sqe.user_data,
                    result: n as i32,
                    skip_success,
                    dispatched: true,
                    buffer: Some(b),
                }
            },
        }
    } else {
        let result = dispatch_op(sqe, iovs);
        if op == sys::IORING_OP_PROVIDE_BUFFERS {
            let mut added = provided_buffers(sqe);
            pool.append(&mut added);
        } else if op == sys::IORING_OP_REMOVE_BUFFERS {
            let n: u32 = if sqe.fd > 0 {
                sqe.fd as u32
            } else {
                0
            };
            *pool = remove_buffers(pool, sqe.buf_index, n);
        }
        CompletionData { user_data: sqe.user_data, result, skip_success, dispatched: true, buffer: None }
    }
}

/// Dispatch a batch of entries in order, starting from the provided buffers `pool`,
/// cancelling the rest of a link chain after a soft-linked failure. Entry `i` reads the
/// iovecs `mems[i]` (none when absent).
pub fn dispatch_batch(
    sqes: &Vec<sys::io_uring_sqe>,
    mems: &Vec<Vec<UserIovec>>,
    pool: &mut Vec<ProvidedBuffer>,
) -> (r: Vec<CompletionData>)
    ensures
        r@ == spec_batch_results(sqes@, mems@, old(pool)@),
        final(pool)@ == spec_batch_pool(sqes@, mems@, old(pool)@),
{
    let ghost pool0 = pool@;
    let empty: Vec<UserIovec> = Vec::new();
    let mut results: Vec<CompletionData> = Vec::new();
    let mut cancel_chain = false;
    let mut i: usize = 0;
    while i < sqes.len()
        invariant
            i <= sqes@.len(),
            pool0 == old(pool)@,
            empty@ == Seq::<UserIovec>::empty(),
            (cancel_chain, pool@) == spec_state_before(sqes@, mems@, pool0, i as nat),
            results@ == spec_batch_results(sqes@, mems@, pool0).take(i as int),
        decreases sqes@.len() - i,
    {
        let sqe = &sqes[i];
        let iovs = if i < mems.len() {
            &mems[i]
        } else {
            &empty
        };
        assert(iovs@ == spec_mem_at(mems@, i as int));
        let cd = run_entry(cancel_chain, pool, sqe, iovs);
        cancel_chain = next_cancel(cancel_chain, sqe, cd.result);
        results.push(cd);
        i = i + 1;
        assert(results@ =~= spec_batch_results(sqes@, mems@, pool0).take(i as int));
    }
    assert(results@ =~= spec_batch_results(sqes@, mems@, pool0));
    results
}

/// The completion entries to post for `results`, in order.
pub fn posted_completions(results: &Vec<CompletionData>) -> (r: Vec<sys::io_uring_cqe>)
    ensures
        r@ == spec_posted(results@),
{
    let mut out: Vec<sys::io_uring_cqe> = Vec::new();
    let mut i: usize = 0;
    while i < results.len()
        invariant
            i <= results@.len(),
            out@ == spec_posted(results@.take(i as int)),
        decreases results@.len() - i,
    {
        let cd = results[i];
        assert(results@.take(i + 1).drop_last() =~= results@.take(i as int));
        if !(cd.skip_success && cd.result >= 0) {
            let flags = match cd.buffer {
                Some(b) => sys::IORING_CQE_F_BUFFER | ((b.bid as u32) << sys::IORING_CQE_BUFFER_SHIFT),
                None => 0,
            };
            out.push(sys::io_uring_cqe { user_data: cd.user_data, res: cd.result, flags });
        }
        i = i + 1;
    }
    assert(results@.take(results@.len() as int) =~= results@);
    out
}

/// The completion entries posted for pending batches, batch `b` reading its iovecs from
/// `table[b]`, starting from the provided buffers `pool`.
pub fn pending_completions(
    batches: &Vec<Vec<sys::io_uring_sqe>>,
    table: &Vec<Vec<Vec<UserIovec>>>,
    pool: &mut Vec<ProvidedBuffer>,
) -> (r: Vec<sys::io_uring_cqe>)
    ensures
        r@ == spec_pending_cqes(batches@.map_values(|b: Vec<sys::io_uring_sqe>| b@), table@, old(pool)@),
        final(pool)@ == spec_pending_pool(batches@.map_values(|b: Vec<sys::io_uring_sqe>| b@), table@, old(pool)@),
{
    let ghost bs = batches@.map_values(|b: Vec<sys::io_uring_sqe>| b@);
    let ghost pool0 = pool@;
    let empty: Vec<Vec<UserIovec>> = Vec::new();
    let mut out: Vec<sys::io_uring_cqe> = Vec::new();
    let mut b: usize = 0;
    while b < batches.len()
        invariant
            b <= batches@.len(),
            pool0 == old(pool)@,
            bs == batches@.map_values(|v: Vec<sys::io_uring_sqe>| v@),
            empty@ == Seq::<Vec<UserIovec>>::empty(),
            out@ == spec_pending_cqes(bs.take(b as int), table@, pool0),
            pool@ == spec_pending_pool(bs.take(b as int), table@, pool0),
        decreases batches@.len() - b,
    {
        let mems = if b < table.len() {
            &table[b]
        } else {
            &empty
        };
        assert(bs.take(b + 1).drop_last() =~= bs.take(b as int));
        assert(bs.take(b + 1).last() == batches@[b as int]@);
        assert(mems@ == spec_table_at(table@, b as int));
        let results = dispatch_batch(&batches[b], mems, pool);
        let mut posted = posted_completions(&results);
        out.append(&mut posted);
        b = b + 1;
    }
    assert(bs.take(batches@.len() as int) =~= bs);
    out
}

/// The kernel side of an io_uring instance: it consumes submission queue entries, dispatches
/// them and posts their completions. It also accepts the registration calls of the kernel
/// interface.
pub struct Submitter<S, C> {
    params: Parameters,
    sq: SubmissionQueue<S>,
    cq: CompletionQueue<C>,
    pending: Vec<Vec<sys::io_uring_sqe>>,
    pool: Vec<ProvidedBuffer>,
}

impl<S: squeue::EntryMarker, C: cqueue::EntryMarker> Submitter<S, C> {
    /// The parameters the ring was built with.
    pub closed spec fn spec_params(&self) -> Parameters {
        self.params
    }

    /// The submission queue.
    pub closed spec fn spec_sq(&self) -> SubmissionQueue<S> {
        self.sq
    }

    /// The completion queue.
    pub closed spec fn spec_cq(&self) -> CompletionQueue<C> {
        self.cq
    }

    /// The batches submitted and not yet dispatched, oldest first.
    pub closed spec fn spec_pending(&self) -> Seq<Seq<sys::io_uring_sqe>> {
        self.pending@.map_values(|b: Vec<sys::io_uring_sqe>| b@)
    }

    /// The provided buffers not yet selected, oldest first.
    pub closed spec fn spec_pool(&self) -> Seq<ProvidedBuffer> {
        self.pool@
    }

    /// Both rings keep their layout invariant.
    pub open spec fn wf(&self) -> bool {
        self.spec_sq().wf() && self.spec_cq().wf()
    }

    pub(crate) fn new(params: Parameters, sq: SubmissionQueue<S>, cq: CompletionQueue<C>) -> (r: Self)
        ensures
            r.spec_params() == params,
            r.spec_sq() == sq,
            r.spec_cq() == cq,
            r.spec_pending() == Seq::<Seq<sys::io_uring_sqe>>::empty(),
            r.spec_pool() == Seq::<ProvidedBuffer>::empty(),
    {
        let r = Submitter { params, sq, cq, pending: Vec::new(), pool: Vec::new() };
        assert(r.spec_pending() =~= Seq::<Seq<sys::io_uring_sqe>>::empty());
        r
    }

    pub(crate) fn params(&self) -> (r: &Parameters)
        ensures
            *r == self.spec_params(),
    {
        &self.params
    }

    /// The submission queue, for the application to fill.
    pub(crate) fn sq_mut(&mut self) -> (r: &mut SubmissionQueue<S>)
        ensures
            *r == old(self).spec_sq(),
            final(self).spec_sq() == *final(r),
            final(self).spec_cq() == old(self).spec_cq(),
            final(self).spec_pending() == old(self).spec_pending(),
            final(self).spec_pool() == old(self).spec_pool(),
            final(self).spec_params() == old(self).spec_params(),
    {
        &mut self.sq
    }

    /// The completion queue, for the application to reap.
    pub(crate) fn cq_mut(&mut self) -> (r: &mut CompletionQueue<C>)
        ensures
            *r == old(self).spec_cq(),
            final(self).spec_cq() == *final(r),
            final(self).spec_sq() == old(self).spec_sq(),
            final(self).spec_pending() == old(self).spec_pending(),
            final(self).spec_pool() == old(self).spec_pool(),
            final(self).spec_params() == old(self).spec_params(),
    {
        &mut self.cq
    }

    /// The batches submitted and not yet dispatched, oldest first.
    pub fn pending_batches(&self) -> (r: &Vec<Vec<sys::io_uring_sqe>>)
        ensures
            r@.map_values(|b: Vec<sys::io_uring_sqe>| b@) == self.spec_pending(),
    {
        &self.pending
    }

    /// The provided buffers not yet selected, oldest first.
    pub fn provided_buffers(&self) -> (r: &Vec<ProvidedBuffer>)
        ensures
            r@ == self.spec_pool(),
    {
        &self.pool
    }

    fn sq_len(&self) -> (r: usize)
        requires
            self.wf(),
        ensures
            r == self.spec_sq()@.len(),
    {
        self.sq.len()
    }

    /// Moves up to `to_submit` entries off the submission queue into a new pending batch.
    /// Returns how many were moved.
    fn enqueue_sqes(&mut self, to_submit: u32) -> (n: usize)
        requires
            old(self).wf(),
        ensures
            final(self).wf(),
            final(self).spec_params() == old(self).spec_params(),
            final(self).spec_cq() == old(self).spec_cq(),
            final(self).spec_pool() == old(self).spec_pool(),
            final(self).spec_sq().same_setup(&old(self).spec_sq()),
            n == if to_submit < old(self).spec_sq()@.len() { to_submit as nat } else { old(self).spec_sq()@.len() },
            final(self).spec_sq()@ == old(self).spec_sq()@.skip(n as int),
            final(self).spec_pending() == if n == 0 {
                old(self).spec_pending()
            } else {
                old(self).spec_pending().push(
                    old(self).spec_sq()@.take(n as int).map_values(|e: S| e.spec_sqe()),
                )
            },
    {
        let batch = self.sq.take(to_submit);
        let n = batch.len();
        if n == 0 {
            return 0;
        }
        self.pending.push(batch);
        assert(self.spec_pending() =~= old(self).spec_pending().push(
            old(self).spec_sq()@.take(n as int).map_values(|e: S| e.spec_sqe()),
        ));
        n
    }

    /// Post one completion, or count it as overflowed when the completion queue is full; the
    /// first overflow seen with the counter at zero raises the CQ overflow flag.
    fn post_cqe(&mut self, cqe: sys::io_uring_cqe)
        requires
            old(self).wf(),
        ensures
            final(self).wf(),
            final(self).spec_params() == old(self).spec_params(),
            final(self).spec_pending() == old(self).spec_pending(),
            final(self).spec_pool() == old(self).spec_pool(),
            final(self).spec_sq()@ == old(self).spec_sq()@,
            final(self).spec_sq().spec_capacity() == old(self).spec_sq().spec_capacity(),
            final(self).spec_sq().spec_dropped() == old(self).spec_sq().spec_dropped(),
            spec_posts(
                old(self).spec_cq(),
                old(self).spec_sq().spec_flags(),
                seq![cqe],
                final(self).spec_cq(),
                final(self).spec_sq().spec_flags(),
            ),
    {
        let prev = self.cq.overflow();
        let posted = self.cq.post(cqe);
        proof {
            self.cq.lemma_wf();
            assert(seq![cqe].take(1) =~= seq![cqe]);
            assert(seq![cqe].take(0) =~= Seq::<sys::io_uring_cqe>::empty());
            assert(spec_overflow_flag_raised(prev, 0) == false);
            vstd::arithmetic::div_mod::lemma_small_mod(prev as nat, u32_period() as nat);
            crate::util::lemma_wrapping_add_is_advance(prev, 1);
        }
        if !posted {
            if prev == 0 {
                self.sq.raise_flags(sys::IORING_SQ_CQ_OVERFLOW);
            }
            assert(spec_overflow_flag_raised(prev, 1) == (prev == 0));
        }
        assert(seq![cqe].take(1).map_values(|c: sys::io_uring_cqe| C::spec_from_cqe(c)) =~= seq![C::spec_from_cqe(cqe)]);
        assert(Seq::<sys::io_uring_cqe>::empty().map_values(|c: sys::io_uring_cqe| C::spec_from_cqe(c)) =~= Seq::<C>::empty());
        let ghost before = old(self).spec_cq();
        let ghost fit = spec_fit(before, 1);
        let ghost dropped = (1 - fit) as nat;
        assert(posted ==> fit == 1);
        assert(!posted ==> fit == 0);
        assert(self.cq.wf());
        assert(self.cq@ == before@ + seq![cqe].take(fit as int).map_values(|c: sys::io_uring_cqe| C::spec_from_cqe(c)));
        assert(self.cq.spec_overflow() as int == (before.spec_overflow() as int + dropped) % u32_period());
        assert(self.sq.spec_flags() == if spec_overflow_flag_raised(before.spec_overflow(), dropped) {
            old(self).spec_sq().spec_flags() | sys::IORING_SQ_CQ_OVERFLOW
        } else {
            old(self).spec_sq().spec_flags()
        });
    }

    /// Post completions in order: those that fit are appended to the completion queue, the
    /// rest are counted as overflowed.
    fn post_all(&mut self, cqes: &Vec<sys::io_uring_cqe>)
        requires
            old(self).wf(),
        ensures
            final(self).wf(),
            final(self).spec_params() == old(self).spec_params(),
            final(self).spec_pending() == old(self).spec_pending(),
            final(self).spec_pool() == old(self).spec_pool(),
            final(self).spec_sq()@ == old(self).spec_sq()@,
            final(self).spec_sq().spec_capacity() == old(self).spec_sq().spec_capacity(),
            final(self).spec_sq().spec_dropped() == old(self).spec_sq().spec_dropped(),
            spec_posts(
                old(self).spec_cq(),
                old(self).spec_sq().spec_flags(),
                cqes@,
                final(self).spec_cq(),
                final(self).spec_sq().spec_flags(),
            ),
    {
        let ghost a = self.cq;
        let ghost fa = self.sq.spec_flags();
        proof {
            lemma_posts_nothing(a, fa);
            assert(cqes@.take(0) =~= Seq::<sys::io_uring_cqe>::empty());
        }
        let mut i: usize = 0;
        while i < cqes.len()
            invariant
                i <= cqes@.len(),
                a == old(self).spec_cq(),
                a.wf(),
                fa == old(self).spec_sq().spec_flags(),
                self.wf(),
                self.spec_params() == old(self).spec_params(),
                self.spec_pending() == old(self).spec_pending(),
                self.spec_pool() == old(self).spec_pool(),
                self.spec_sq()@ == old(self).spec_sq()@,
                self.spec_sq().spec_capacity() == old(self).spec_sq().spec_capacity(),
                self.spec_sq().spec_dropped() == old(self).spec_sq().spec_dropped(),
                spec_posts(a, fa, cqes@.take(i as int), self.spec_cq(), self.spec_sq().spec_flags()),
            decreases cqes@.len() - i,
        {
            let ghost b = self.cq;
            let ghost fb = self.sq.spec_flags();
            self.post_cqe(cqes[i]);
            proof {
                lemma_posts_step(a, fa, cqes@.take(i as int), b, fb, cqes@[i as int], self.cq, self.sq.spec_flags());
                assert(cqes@.take(i as int).push(cqes@[i as int]) =~= cqes@.take(i + 1));
            }
            i = i + 1;
        }
        assert(cqes@.take(cqes@.len() as int) =~= cqes@);
    }

    /// Dispatch every pending batch, oldest first, and post their completions. Batch `b`
    /// reads the iovecs of its vectored and message operations from `table[b]`, which holds
    /// them as read from user memory; entries the table does not cover read none.
    pub fn flush_pending(&mut self, table: &Vec<Vec<Vec<UserIovec>>>)
        requires
            old(self).wf(),
        ensures
            spec_flushed(*old(self), *final(self), table@),
    {
        let mut batches: Vec<Vec<sys::io_uring_sqe>> = Vec::new();
        std::mem::swap(&mut batches, &mut self.pending);
        let cqes = pending_completions(&batches, table, &mut self.pool);
        assert(self.spec_pending() =~= Seq::<Seq<sys::io_uring_sqe>>::empty());
        self.post_all(&cqes);
    }

    /// Emulated `io_uring_enter`: submit up to `to_submit` queued entries, and when
    /// `min_complete` is positive dispatch all pending ones, batch `b` reading its iovecs
    /// from `table[b]`. Returns how many were submitted.
    pub fn enter<T>(
        &mut self,
        to_submit: u32,
        min_complete: u32,
        flag: u32,
        arg: Option<&T>,
        table: &Vec<Vec<Vec<UserIovec>>>,
    ) -> (r: Result<usize, Error>)
        requires
            old(self).wf(),
        ensures
            final(self).wf(),
            final(self).spec_params() == old(self).spec_params(),
            final(self).spec_sq().spec_capacity() == old(self).spec_sq().spec_capacity(),
            final(self).spec_sq().spec_dropped() == old(self).spec_sq().spec_dropped(),
            ({
                let n = if to_submit < old(self).spec_sq()@.len() {
                    to_submit as nat
                } else {
                    old(self).spec_sq()@.len()
                };
                &&& r == Ok::<usize, Error>(n as usize)
                &&& final(self).spec_sq()@ == old(self).spec_sq()@.skip(n as int)
                &&& spec_submits(
                    old(self).spec_pending(),
                    old(self).spec_sq()@.take(n as int).map_values(|e: S| e.spec_sqe()),
                    old(self).spec_cq(),
                    old(self).spec_sq().spec_flags(),
                    old(self).spec_pool(),
                    min_complete > 0,
                    table@,
                    final(self).spec_pending(),
                    final(self).spec_cq(),
                    final(self).spec_sq().spec_flags(),
                    final(self).spec_pool(),
                )
            }),
    {
        let submitted = self.enqueue_sqes(to_submit);
        if min_complete > 0 {
            self.flush_pending(table);
        }
        Ok(submitted)
    }

    /// Submit all queued submission queue events. They are dispatched when completions are
    /// next reaped or waited for.
    pub fn submit(&mut self) -> (r: Result<usize, Error>)
        requires
            old(self).wf(),
        ensures
            spec_submitted(*old(self), *final(self), r, false, Seq::empty()),
    {
        let table: Vec<Vec<Vec<UserIovec>>> = Vec::new();
        self.submit_and_wait(0, &table)
    }

    /// Submit all queued submission queue events, and when `want` is positive, dispatch all
    /// pending ones, batch `b` reading its iovecs from `table[b]`, and post their completions
    /// before returning.
    pub fn submit_and_wait(&mut self, want: usize, table: &Vec<Vec<Vec<UserIovec>>>) -> (r: Result<usize, Error>)
        requires
            old(self).wf(),
        ensures
            spec_submitted(*old(self), *final(self), r, want > 0, table@),
    {
        proof {
            self.sq.lemma_wf();
        }
        let len = self.sq_len();
        let submitted = self.enqueue_sqes(len as u32);
        assert(old(self).spec_sq()@.take(len as int) =~= old(self).spec_sq()@);
        assert(old(self).spec_sq()@.skip(len as int) =~= Seq::<S>::empty());
        if want > 0 {
            self.flush_pending(table);
        }
        Ok(submitted)
    }

    /// Submit with extended arguments; the arguments do not change what is done.
    pub fn submit_with_args(
        &mut self,
        want: usize,
        args: &SubmitArgs,
        table: &Vec<Vec<Vec<UserIovec>>>,
    ) -> (r: Result<usize, Error>)
        requires
            old(self).wf(),
        ensures
            spec_submitted(*old(self), *final(self), r, want > 0, table@),
    {
        self.submit_and_wait(want, table)
    }

    /// Wait for the submission queue to have free entries; the emulated kernel consumes
    /// entries on submission, so there is nothing to wait for.
    pub fn squeue_wait(&self) -> (r: Result<usize, Error>)
        ensures
            r == Ok::<usize, Error>(0),
    {
        Ok(0)
    }

    /// Report in `probe` the opcodes the emulator implements.
    pub fn register_probe(&self, probe: &mut Probe) -> (r: Result<(), Error>)
        ensures
            r == Ok::<(), Error>(()),
            forall|op: int| #[trigger] final(probe).spec_supports(op) == (old(probe).spec_supports(op) || (0 <= op < 64 && spec_handled(op as u32))),
    {
        let mut op: u32 = 0;
        while op < 64
            invariant
                op <= 64,
                forall|o: int| #[trigger] probe.spec_supports(o) == (old(probe).spec_supports(o) || (0 <= o < op && spec_handled(o as u32))),
            decreases 64 - op,
        {
            if is_handled(op) {
                probe.set_supported(op as u8);
            }
            op = op + 1;
        }
        Ok(())
    }

    /// Register in-memory fixed buffers; accepted without effect on dispatch.
    pub fn register_buffers(&self, bufs: &[IoVec]) -> (r: Result<(), Error>)
        ensures
            r == Ok::<(), Error>(()),
    {
        Ok(())
    }

    /// Unregister all fixed buffers; accepted without effect.
    pub fn unregister_buffers(&self) -> (r: Result<(), Error>)
        ensures
            r == Ok::<(), Error>(()),
    {
        Ok(())
    }

    /// Register files for I/O; accepted without effect on dispatch.
    pub fn register_files(&self, fds: &[i32]) -> (r: Result<(), Error>)
        ensures
            r == Ok::<(), Error>(()),
    {
        Ok(())
    }

    /// Update registered files; reports zero files updated.
    pub fn register_files_update(&self, offset: u32, fds: &[i32]) -> (r: Result<usize, Error>)
        ensures
            r == Ok::<usize, Error>(0),
    {
        Ok(0)
    }

    /// Register a sparse file table; accepted without effect.
    pub fn register_files_sparse(&self, nr: u32) -> (r: Result<(), Error>)
        ensures
            r == Ok::<(), Error>(()),
    {
        Ok(())
    }

    /// Unregister all registered files; accepted without effect.
    pub fn unregister_files(&self) -> (r: Result<(), Error>)
        ensures
            r == Ok::<(), Error>(()),
    {
        Ok(())
    }

    /// Register an eventfd for completion notifications; accepted without effect.
    pub fn register_eventfd(&self, eventfd: i32) -> (r: Result<(), Error>)
        ensures
            r == Ok::<(), Error>(()),
    {
        Ok(())
    }

    /// Register an eventfd notified only for async completions; accepted without effect.
    pub fn register_eventfd_async(&self, eventfd: i32) -> (r: Result<(), Error>)
        ensures
            r == Ok::<(), Error>(()),
    {
        Ok(())
    }

    /// Unregister the eventfd; accepted without effect.
    pub fn unregister_eventfd(&self) -> (r: Result<(), Error>)
        ensures
            r == Ok::<(), Error>(()),
    {
        Ok(())
    }

    /// Register the current credentials; personality zero is returned.
    pub fn register_personality(&self) -> (r: Result<u16, Error>)
        ensures
            r == Ok::<u16, Error>(0),
    {
        Ok(0)
    }

    /// Unregister a personality; accepted without effect.
    pub fn unregister_personality(&self, personality: u16) -> (r: Result<(), Error>)
        ensures
            r == Ok::<(), Error>(()),
    {
        Ok(())
    }

    /// Restrict the ring; accepted without effect.
    pub fn register_restrictions(&self, res: &mut [Restriction]) -> (r: Result<(), Error>)
        ensures
            r == Ok::<(), Error>(()),
    {
        Ok(())
    }

    /// Enable rings started disabled; accepted without effect.
    pub fn register_enable_rings(&self) -> (r: Result<(), Error>)
        ensures
            r == Ok::<(), Error>(()),
    {
        Ok(())
    }

    /// Set the worker CPU affinity; accepted without effect.
    pub fn register_iowq_aff(&self, cpu_set: &[u8]) -> (r: Result<(), Error>)
        ensures
            r == Ok::<(), Error>(()),
    {
        Ok(())
    }

    /// Reset the worker CPU affinity; accepted without effect.
    pub fn unregister_iowq_aff(&self) -> (r: Result<(), Error>)
        ensures
            r == Ok::<(), Error>(()),
    {
        Ok(())
    }

    /// Set the maximum worker counts; accepted without effect.
    pub fn register_iowq_max_workers(&self, max: &mut [u32; 2]) -> (r: Result<(), Error>)
        ensures
            r == Ok::<(), Error>(()),
    {
        Ok(())
    }

    /// Register a provided-buffer ring; accepted without effect.
    pub fn register_buf_ring_with_flags(&self, ring_addr: u64, ring_entries: u16, bgid: u16, flags: u16) -> (r: Result<(), Error>)
        ensures
            r == Ok::<(), Error>(()),
    {
        Ok(())
    }

    /// Unregister a provided-buffer ring; accepted without effect.
    pub fn unregister_buf_ring(&self, bgid: u16) -> (r: Result<(), Error>)
        ensures
            r == Ok::<(), Error>(()),
    {
        Ok(())
    }

    /// Cancel requests synchronously; accepted without effect.
    pub fn register_sync_cancel(&self, timeout: Option<Timespec>, builder: CancelBuilder) -> (r: Result<(), Error>)
        ensures
            r == Ok::<(), Error>(()),
    {
        Ok(())
    }

    /// Update registered buffers; accepted without effect.
    pub fn register_buffers_update(&self, offset: u32, bufs: &[IoVec], tags: Option<&[u64]>) -> (r: Result<(), Error>)
        ensures
            r == Ok::<(), Error>(()),
    {
        Ok(())
    }

    /// Register tagged buffers; accepted without effect.
    pub fn register_buffers2(&self, bufs: &[IoVec], tags: &[u64]) -> (r: Result<(), Error>)
        ensures
            r == Ok::<(), Error>(()),
    {
        Ok(())
    }

    /// Register a sparse buffer table; accepted without effect.
    pub fn register_buffers_sparse(&self, nr: u32) -> (r: Result<(), Error>)
        ensures
            r == Ok::<(), Error>(()),
    {
        Ok(())
    }

    /// Register a zero-copy receive queue; accepted without effect.
    pub fn register_ifq(&self, reg: &sys::io_uring_zcrx_ifq_reg) -> (r: Result<(), Error>)
        ensures
            r == Ok::<(), Error>(()),
    {
        Ok(())
    }

}

} // verus!
