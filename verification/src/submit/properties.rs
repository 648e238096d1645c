//! Properties of dispatch and completion posting that hold across calls: how link chains
//! cancel, which completions are posted, and how a full completion queue overflows.

use super::dispatch::{
    enobufs, enosys, lemma_find_buffer, spec_dispatch, spec_find_buffer, spec_handled,
    spec_selects_buffer, ProvidedBuffer, UserIovec,
};
use super::{
    ecanceled, spec_batch_pool, spec_batch_results, spec_cancel_before, spec_completion_cqe,
    spec_entry_outcome, spec_fit, spec_hardlink, spec_is_posted, spec_links_next, spec_mem_at,
    spec_overflow_flag_raised, spec_pending_cqes, spec_pending_pool, spec_posted, spec_posts,
    spec_state_before, spec_submitted, spec_table_at, CompletionData, Submitter,
};
use crate::cqueue::{self, CompletionQueue};
use crate::register::Probe;
use crate::squeue;
use crate::sys;
use crate::util::u32_period;
use vstd::prelude::*;

verus! {

/// The first entry of a batch is never cancelled: it runs.
pub proof fn law_first_entry_runs(
    sqes: Seq<sys::io_uring_sqe>,
    mems: Seq<Vec<UserIovec>>,
    pool: Seq<ProvidedBuffer>,
)
    requires
        sqes.len() > 0,
    ensures
        !spec_cancel_before(sqes, mems, pool, 0),
        spec_batch_results(sqes, mems, pool)[0] == spec_entry_outcome(false, pool, sqes[0], spec_mem_at(mems, 0)),
        spec_batch_results(sqes, mems, pool)[0].dispatched,
{
}

/// An entry without `IO_LINK` or `IO_HARDLINK` ends its chain: the entry after it runs,
/// whatever happened before.
pub proof fn law_unlinked_entry_ends_chain(
    sqes: Seq<sys::io_uring_sqe>,
    mems: Seq<Vec<UserIovec>>,
    pool: Seq<ProvidedBuffer>,
    i: int,
)
    requires
        0 <= i,
        i + 1 < sqes.len(),
        !spec_links_next(sqes[i]),
    ensures
        !spec_cancel_before(sqes, mems, pool, (i + 1) as nat),
        spec_batch_results(sqes, mems, pool)[i + 1].dispatched,
{
    assert(!spec_cancel_before(sqes, mems, pool, (i + 1) as nat));
}

/// A soft-linked (`IO_LINK`) entry that fails breaks its chain: the entry after it does not
/// run and completes with `-ECANCELED`.
pub proof fn law_failed_link_cancels_next(
    sqes: Seq<sys::io_uring_sqe>,
    mems: Seq<Vec<UserIovec>>,
    pool: Seq<ProvidedBuffer>,
    i: int,
)
    requires
        0 <= i,
        i + 1 < sqes.len(),
        spec_links_next(sqes[i]),
        !spec_hardlink(sqes[i]),
        spec_batch_results(sqes, mems, pool)[i].result < 0,
    ensures
        spec_cancel_before(sqes, mems, pool, (i + 1) as nat),
        spec_batch_results(sqes, mems, pool)[i + 1].result == ecanceled(),
        !spec_batch_results(sqes, mems, pool)[i + 1].dispatched,
{
    assert(spec_cancel_before(sqes, mems, pool, (i + 1) as nat));
}

/// Cancellation runs down a chain: a cancelled entry that links on, softly or hard, cancels
/// the entry after it.
pub proof fn law_cancellation_propagates(
    sqes: Seq<sys::io_uring_sqe>,
    mems: Seq<Vec<UserIovec>>,
    pool: Seq<ProvidedBuffer>,
    i: int,
)
    requires
        0 <= i,
        i + 1 < sqes.len(),
        spec_cancel_before(sqes, mems, pool, i as nat),
        spec_links_next(sqes[i]),
    ensures
        spec_cancel_before(sqes, mems, pool, (i + 1) as nat),
        spec_batch_results(sqes, mems, pool)[i + 1].result == ecanceled(),
        !spec_batch_results(sqes, mems, pool)[i + 1].dispatched,
{
    assert(spec_cancel_before(sqes, mems, pool, (i + 1) as nat));
}

/// A hard link (`IO_HARDLINK`) survives failure: after a hard-linked entry that was not
/// cancelled, the next entry runs, whatever the first one returned.
pub proof fn law_hardlink_keeps_chain(
    sqes: Seq<sys::io_uring_sqe>,
    mems: Seq<Vec<UserIovec>>,
    pool: Seq<ProvidedBuffer>,
    i: int,
)
    requires
        0 <= i,
        i + 1 < sqes.len(),
        spec_hardlink(sqes[i]),
        !spec_cancel_before(sqes, mems, pool, i as nat),
    ensures
        !spec_cancel_before(sqes, mems, pool, (i + 1) as nat),
        spec_batch_results(sqes, mems, pool)[i + 1].dispatched,
{
    assert(!spec_cancel_before(sqes, mems, pool, (i + 1) as nat));
}

/// Every result answers the entry at the same position and carries its user data.
pub proof fn law_results_keep_user_data(
    sqes: Seq<sys::io_uring_sqe>,
    mems: Seq<Vec<UserIovec>>,
    pool: Seq<ProvidedBuffer>,
    i: int,
)
    requires
        0 <= i < sqes.len(),
    ensures
        spec_batch_results(sqes, mems, pool).len() == sqes.len(),
        spec_batch_results(sqes, mems, pool)[i].user_data == sqes[i].user_data,
{
}

/// A buffer-selecting read that runs while its group holds buffers takes the oldest of
/// them, and its completion carries `IORING_CQE_F_BUFFER` with that buffer's id in the upper
/// 16 bits.
pub proof fn law_selected_buffer_is_reported(
    sqes: Seq<sys::io_uring_sqe>,
    mems: Seq<Vec<UserIovec>>,
    pool: Seq<ProvidedBuffer>,
    i: int,
)
    requires
        0 <= i < sqes.len(),
        !spec_cancel_before(sqes, mems, pool, i as nat),
        spec_selects_buffer(sqes[i]),
        spec_find_buffer(spec_state_before(sqes, mems, pool, i as nat).1, sqes[i].buf_index, 0) >= 0,
    ensures
        ({
            let avail = spec_state_before(sqes, mems, pool, i as nat).1;
            let b = avail[spec_find_buffer(avail, sqes[i].buf_index, 0)];
            let cqe = spec_completion_cqe(spec_batch_results(sqes, mems, pool)[i]);
            &&& b.bgid == sqes[i].buf_index
            &&& spec_batch_results(sqes, mems, pool)[i].buffer == Some(b)
            &&& cqe.flags & sys::IORING_CQE_F_BUFFER != 0
            &&& cqe.flags >> sys::IORING_CQE_BUFFER_SHIFT == b.bid as u32
        }),
{
    let avail = spec_state_before(sqes, mems, pool, i as nat).1;
    lemma_find_buffer(avail, sqes[i].buf_index, 0);
    let bid = avail[spec_find_buffer(avail, sqes[i].buf_index, 0)].bid;
    assert((1u32 | ((bid as u32) << 16u32)) & 1u32 != 0) by (bit_vector);
    assert((1u32 | ((bid as u32) << 16u32)) >> 16u32 == bid as u32) by (bit_vector);
}

/// A buffer-selecting read that runs while its group holds no buffer completes with
/// `-ENOBUFS` and no completion flags.
pub proof fn law_empty_group_is_enobufs(
    sqes: Seq<sys::io_uring_sqe>,
    mems: Seq<Vec<UserIovec>>,
    pool: Seq<ProvidedBuffer>,
    i: int,
)
    requires
        0 <= i < sqes.len(),
        !spec_cancel_before(sqes, mems, pool, i as nat),
        spec_selects_buffer(sqes[i]),
        spec_find_buffer(spec_state_before(sqes, mems, pool, i as nat).1, sqes[i].buf_index, 0) < 0,
    ensures
        spec_batch_results(sqes, mems, pool)[i].result == enobufs(),
        spec_completion_cqe(spec_batch_results(sqes, mems, pool)[i]).flags == 0,
{
}

/// The completions posted for a sequence of results are, in order, those of every result
/// except the successes of `SKIP_SUCCESS` entries; a failed `SKIP_SUCCESS` entry is still
/// posted.
pub proof fn law_skip_success_filter(results: Seq<CompletionData>)
    ensures
        spec_posted(results) == results.filter(|cd: CompletionData| spec_is_posted(cd)).map_values(
            |cd: CompletionData| spec_completion_cqe(cd),
        ),
    decreases results.len(),
{
    reveal(Seq::filter);
    let pred = |cd: CompletionData| spec_is_posted(cd);
    let f = |cd: CompletionData| spec_completion_cqe(cd);
    if results.len() == 0 {
        assert(results.filter(pred).map_values(f) =~= Seq::<sys::io_uring_cqe>::empty());
    } else {
        law_skip_success_filter(results.drop_last());
        let sub = results.drop_last().filter(pred);
        assert(results.filter(pred) == if pred(results.last()) {
            sub.push(results.last())
        } else {
            sub
        });
        if pred(results.last()) {
            assert(sub.push(results.last()).map_values(f) =~= sub.map_values(f).push(f(results.last())));
        }
    }
}

/// Posting completions that all fit appends them, in order, with nothing counted as
/// overflowed and the submission ring flags unchanged.
pub proof fn law_posts_fit<C: cqueue::EntryMarker>(
    before: CompletionQueue<C>,
    before_flags: u32,
    cqes: Seq<sys::io_uring_cqe>,
    after: CompletionQueue<C>,
    after_flags: u32,
)
    requires
        before.wf(),
        cqes.len() + before@.len() <= before.spec_capacity(),
        spec_posts(before, before_flags, cqes, after, after_flags),
    ensures
        after@ == before@ + cqes.map_values(|c: sys::io_uring_cqe| C::spec_from_cqe(c)),
        after.spec_overflow() == before.spec_overflow(),
        after_flags == before_flags,
{
    assert(spec_fit(before, cqes.len()) == cqes.len());
    assert(cqes.take(cqes.len() as int) =~= cqes);
    vstd::arithmetic::div_mod::lemma_small_mod(before.spec_overflow() as nat, u32_period() as nat);
}

/// Overflowing from a zero counter raises the flag, however many completions are dropped.
proof fn lemma_flag_raised_from_zero(dropped: nat)
    requires
        dropped > 0,
    ensures
        spec_overflow_flag_raised(0, dropped),
    decreases dropped,
{
    if dropped > 1 {
        lemma_flag_raised_from_zero((dropped - 1) as nat);
    }
}

/// Posting more completions than there is room for fills the completion queue, counts the
/// rest as overflowed, and, when the overflow counter was zero, raises the CQ overflow flag
/// on the submission ring.
pub proof fn law_posts_overflow<C: cqueue::EntryMarker>(
    before: CompletionQueue<C>,
    before_flags: u32,
    cqes: Seq<sys::io_uring_cqe>,
    after: CompletionQueue<C>,
    after_flags: u32,
)
    requires
        before.wf(),
        cqes.len() + before@.len() > before.spec_capacity(),
        spec_posts(before, before_flags, cqes, after, after_flags),
    ensures
        after@.len() == before.spec_capacity(),
        after.spec_overflow() as int == (before.spec_overflow() + (cqes.len() + before@.len()
            - before.spec_capacity())) % u32_period(),
        before.spec_overflow() == 0 ==> after_flags & sys::IORING_SQ_CQ_OVERFLOW != 0,
{
    before.lemma_wf();
    let room = (before.spec_capacity() - before@.len()) as nat;
    assert(spec_fit(before, cqes.len()) == room);
    if before.spec_overflow() == 0 {
        lemma_flag_raised_from_zero((cqes.len() - room) as nat);
        assert((before_flags | 2u32) & 2u32 != 0) by (bit_vector);
    }
}

/// Submitting and waiting dispatches the queued entries as one batch: with nothing pending
/// and room for every completion, the completion queue gains exactly the completions of the
/// queued entries, in submission order, read with the iovecs of `table[0]` and the provided
/// buffers the ring holds, and the submission queue is left empty.
pub proof fn law_submit_and_wait_posts_batch<S: squeue::EntryMarker, C: cqueue::EntryMarker>(
    before: Submitter<S, C>,
    after: Submitter<S, C>,
    r: Result<usize, crate::Error>,
    table: Seq<Vec<Vec<UserIovec>>>,
)
    requires
        before.wf(),
        before.spec_pending() == Seq::<Seq<sys::io_uring_sqe>>::empty(),
        spec_submitted(before, after, r, true, table),
        spec_posted(
            spec_batch_results(
                before.spec_sq()@.map_values(|e: S| e.spec_sqe()),
                spec_table_at(table, 0),
                before.spec_pool(),
            ),
        ).len() + before.spec_cq()@.len() <= before.spec_cq().spec_capacity(),
    ensures
        after.spec_cq()@ == before.spec_cq()@ + spec_posted(
            spec_batch_results(
                before.spec_sq()@.map_values(|e: S| e.spec_sqe()),
                spec_table_at(table, 0),
                before.spec_pool(),
            ),
        ).map_values(|c: sys::io_uring_cqe| C::spec_from_cqe(c)),
        after.spec_sq()@ == Seq::<S>::empty(),
        after.spec_pending() == Seq::<Seq<sys::io_uring_sqe>>::empty(),
        r == Ok::<usize, crate::Error>(before.spec_sq()@.len() as usize),
{
    let taken = before.spec_sq()@.map_values(|e: S| e.spec_sqe());
    let empty = Seq::<Seq<sys::io_uring_sqe>>::empty();
    let pool = before.spec_pool();
    let batch = spec_posted(spec_batch_results(taken, spec_table_at(table, 0), pool));
    let queued = if taken.len() == 0 {
        empty
    } else {
        empty.push(taken)
    };
    if taken.len() == 0 {
        assert(spec_batch_results(taken, spec_table_at(table, 0), pool) =~= Seq::<CompletionData>::empty());
        assert(batch =~= Seq::<sys::io_uring_cqe>::empty());
        assert(spec_pending_cqes(queued, table, pool) =~= batch);
    } else {
        assert(queued.drop_last() =~= empty);
        assert(queued.last() == taken);
        assert(spec_pending_cqes(empty, table, pool) =~= Seq::<sys::io_uring_cqe>::empty());
        assert(spec_pending_pool(empty, table, pool) == pool);
        assert(spec_pending_cqes(queued, table, pool) =~= batch);
    }
    law_posts_fit(
        before.spec_cq(),
        before.spec_sq().spec_flags(),
        batch,
        after.spec_cq(),
        after.spec_sq().spec_flags(),
    );
}

/// A probe filled by `register_probe` from an empty one reports exactly the opcodes the
/// emulator implements: an entry whose opcode it reports as unsupported is answered with
/// `-ENOSYS`, and each opcode it reports as supported has an entry that is not.
pub proof fn law_probe_matches_dispatch(
    empty: Probe,
    filled: Probe,
    sqe: sys::io_uring_sqe,
    iovs: Seq<UserIovec>,
)
    requires
        forall|op: int| !empty.spec_supports(op),
        forall|op: int|
            #[trigger] filled.spec_supports(op) == (empty.spec_supports(op) || (0 <= op < 64
                && spec_handled(op as u32))),
    ensures
        !filled.spec_supports(sqe.opcode as int) ==> spec_dispatch(sqe, iovs) == enosys(),
        filled.spec_supports(sqe.opcode as int) ==> spec_dispatch(
            sys::io_uring_sqe { opcode: sqe.opcode, ..sys::sqe_zeroed() },
            iovs,
        ) != enosys(),
{
    assert(filled.spec_supports(sqe.opcode as int) == (0 <= sqe.opcode < 64 && spec_handled(sqe.opcode as u32)));
    if !filled.spec_supports(sqe.opcode as int) {
        if spec_handled(sqe.opcode as u32) {
            assert(!(sqe.opcode < 64));
        }
        super::dispatch::lemma_unhandled_is_enosys(sqe, iovs);
    } else {
        super::dispatch::lemma_handled_answers(sqe.opcode, iovs);
    }
}


/// A probe filled by `register_probe` from an empty one reports as supported exactly the
/// opcodes `0..63`, every opcode the emulator implements (`Fsync`, opcode `3`, among them),
/// and nothing from `IORING_OP_LAST` (63) on.
pub proof fn law_fresh_probe_reports_all_opcodes(empty: Probe, filled: Probe)
    requires
        forall|op: int| !empty.spec_supports(op),
        forall|op: int|
            #[trigger] filled.spec_supports(op) == (empty.spec_supports(op) || (0 <= op < 64
                && spec_handled(op as u32))),
    ensures
        forall|op: int| #[trigger] filled.spec_supports(op) == (0 <= op < 63),
{
    assert forall|op: int| #[trigger] filled.spec_supports(op) == (0 <= op < 63) by {
        if 0 <= op < 64 {
            super::dispatch::law_handled_opcodes(op as u32);
        }
    }
}

/// An entry that is a plain NOP: no flags, no injected result.
pub open spec fn spec_plain_nop(sqe: sys::io_uring_sqe) -> bool {
    &&& sqe.opcode as u32 == sys::IORING_OP_NOP
    &&& sqe.flags == 0
    &&& sqe.op_flags & sys::IORING_NOP_INJECT_RESULT == 0
}

/// The completion a plain NOP gets: its user data, result 0, no flags.
pub open spec fn spec_nop_cqe(sqe: sys::io_uring_sqe) -> sys::io_uring_cqe {
    sys::io_uring_cqe { user_data: sqe.user_data, res: 0, flags: 0 }
}

/// The completions of batches of plain NOPs, batch after batch, in order.
pub open spec fn spec_nop_cqes(batches: Seq<Seq<sys::io_uring_sqe>>) -> Seq<sys::io_uring_cqe>
    decreases batches.len(),
{
    if batches.len() == 0 {
        Seq::empty()
    } else {
        spec_nop_cqes(batches.drop_last()) + batches.last().map_values(|s: sys::io_uring_sqe| spec_nop_cqe(s))
    }
}

/// Posting results that are all posted gives their completions in order.
proof fn lemma_posted_all(results: Seq<CompletionData>)
    requires
        forall|k: int| 0 <= k < results.len() ==> spec_is_posted(#[trigger] results[k]),
    ensures
        spec_posted(results) == results.map_values(|cd: CompletionData| spec_completion_cqe(cd)),
    decreases results.len(),
{
    if results.len() > 0 {
        let rest = results.drop_last();
        assert forall|k: int| 0 <= k < rest.len() implies spec_is_posted(#[trigger] rest[k]) by {
            assert(rest[k] == results[k]);
        }
        lemma_posted_all(rest);
        assert(results.map_values(|cd: CompletionData| spec_completion_cqe(cd)) =~= rest.map_values(
            |cd: CompletionData| spec_completion_cqe(cd),
        ).push(spec_completion_cqe(results.last())));
    }
}

/// In a batch of plain NOPs no entry is cancelled and the provided buffers stay as they are.
proof fn lemma_nop_batch_state(
    sqes: Seq<sys::io_uring_sqe>,
    mems: Seq<Vec<UserIovec>>,
    pool: Seq<ProvidedBuffer>,
    i: nat,
)
    requires
        i <= sqes.len(),
        forall|k: int| 0 <= k < sqes.len() ==> spec_plain_nop(#[trigger] sqes[k]),
    ensures
        spec_state_before(sqes, mems, pool, i) == (false, pool),
    decreases i,
{
    if i > 0 {
        lemma_nop_batch_state(sqes, mems, pool, (i - 1) as nat);
        let sqe = sqes[i - 1];
        assert(spec_plain_nop(sqe));
        assert(0u8 & 4u8 == 0 && 0u8 & 8u8 == 0 && 0u8 & 32u8 == 0) by (bit_vector);
    }
}

/// Plain NOPs complete in submission order across batches: the completions of pending
/// batches of plain NOPs are, batch after batch, each entry's user data with result 0 and
/// no flags, and the provided buffers stay as they are.
pub proof fn law_plain_nops_complete_in_order(
    batches: Seq<Seq<sys::io_uring_sqe>>,
    table: Seq<Vec<Vec<UserIovec>>>,
    pool: Seq<ProvidedBuffer>,
)
    requires
        forall|b: int, k: int|
            0 <= b < batches.len() && 0 <= k < batches[b].len() ==> spec_plain_nop(#[trigger] batches[b][k]),
    ensures
        spec_pending_cqes(batches, table, pool) == spec_nop_cqes(batches),
        spec_pending_pool(batches, table, pool) == pool,
    decreases batches.len(),
{
    if batches.len() > 0 {
        let prior = batches.drop_last();
        let last = batches.last();
        assert forall|b: int, k: int| 0 <= b < prior.len() && 0 <= k < prior[b].len() implies spec_plain_nop(
            #[trigger] prior[b][k],
        ) by {
            assert(prior[b] == batches[b]);
        }
        law_plain_nops_complete_in_order(prior, table, pool);
        assert forall|k: int| 0 <= k < last.len() implies spec_plain_nop(#[trigger] last[k]) by {
            assert(batches[batches.len() - 1][k] == last[k]);
        }
        let mems = spec_table_at(table, prior.len() as int);
        let results = spec_batch_results(last, mems, pool);
        assert(0u8 & 64u8 == 0) by (bit_vector);
        assert forall|k: int| 0 <= k < results.len() implies #[trigger] results[k] == (CompletionData {
            user_data: last[k].user_data,
            result: 0,
            skip_success: false,
            dispatched: true,
            buffer: None,
        }) by {
            lemma_nop_batch_state(last, mems, pool, k as nat);
            assert(spec_plain_nop(last[k]));
            assert(0u8 & 32u8 == 0) by (bit_vector);
        }
        lemma_posted_all(results);
        lemma_nop_batch_state(last, mems, pool, last.len());
        assert(results.map_values(|cd: CompletionData| spec_completion_cqe(cd)) =~= last.map_values(
            |s: sys::io_uring_sqe| spec_nop_cqe(s),
        ));
    }
}

/// The setup parameters take no part in submission: two kernel sides that differ only in
/// their parameters, given the same submission, report the same count and end with the
/// same queues, pending batches, provided buffers, counters and flags.
pub proof fn law_setup_does_not_change_submission<S: squeue::EntryMarker, C: cqueue::EntryMarker>(
    b1: Submitter<S, C>,
    a1: Submitter<S, C>,
    r1: Result<usize, crate::Error>,
    b2: Submitter<S, C>,
    a2: Submitter<S, C>,
    r2: Result<usize, crate::Error>,
    flush: bool,
    table: Seq<Vec<Vec<UserIovec>>>,
)
    requires
        b1.wf(),
        b2.wf(),
        b1.spec_sq()@ == b2.spec_sq()@,
        b1.spec_sq().spec_flags() == b2.spec_sq().spec_flags(),
        b1.spec_sq().spec_capacity() == b2.spec_sq().spec_capacity(),
        b1.spec_cq()@ == b2.spec_cq()@,
        b1.spec_cq().spec_capacity() == b2.spec_cq().spec_capacity(),
        b1.spec_cq().spec_overflow() == b2.spec_cq().spec_overflow(),
        b1.spec_pending() == b2.spec_pending(),
        b1.spec_pool() == b2.spec_pool(),
        spec_submitted(b1, a1, r1, flush, table),
        spec_submitted(b2, a2, r2, flush, table),
    ensures
        r1 == r2,
        a1.spec_sq()@ == a2.spec_sq()@,
        a1.spec_sq().spec_flags() == a2.spec_sq().spec_flags(),
        a1.spec_cq()@ == a2.spec_cq()@,
        a1.spec_cq().spec_overflow() == a2.spec_cq().spec_overflow(),
        a1.spec_pending() == a2.spec_pending(),
        a1.spec_pool() == a2.spec_pool(),
{
}

/// Submitting keeps the ring's setup: the parameters and both queue capacities are as they
/// were; and without waiting, every queued entry becomes, in order, the newest pending batch.
pub proof fn law_submit_keeps_setup_and_entries<S: squeue::EntryMarker, C: cqueue::EntryMarker>(
    before: Submitter<S, C>,
    after: Submitter<S, C>,
    r: Result<usize, crate::Error>,
    flush: bool,
    table: Seq<Vec<Vec<UserIovec>>>,
)
    requires
        spec_submitted(before, after, r, flush, table),
    ensures
        spec_keeps_setup(before, after),
        after.spec_cq()@.len() <= after.spec_cq().spec_capacity(),
        !flush && before.spec_sq()@.len() > 0 ==> after.spec_pending() == before.spec_pending().push(
            before.spec_sq()@.map_values(|e: S| e.spec_sqe()),
        ),
{
    after.spec_cq().lemma_wf();
}


/// `after` has the setup of `before`: the same parameters and queue capacities.
pub open spec fn spec_keeps_setup<S: squeue::EntryMarker, C: cqueue::EntryMarker>(
    before: Submitter<S, C>,
    after: Submitter<S, C>,
) -> bool {
    &&& after.spec_params() == before.spec_params()
    &&& after.spec_sq().spec_capacity() == before.spec_sq().spec_capacity()
    &&& after.spec_cq().spec_capacity() == before.spec_cq().spec_capacity()
}

/// The reported sizes are the queue capacities.
pub open spec fn spec_sizes_match<S: squeue::EntryMarker, C: cqueue::EntryMarker>(s: Submitter<S, C>) -> bool {
    &&& s.spec_params()@.sq_entries == s.spec_sq().spec_capacity()
    &&& s.spec_params()@.cq_entries == s.spec_cq().spec_capacity()
}

/// Over any sequence of operations that each keep the setup (submitting, reaping, and
/// pushing or reaping through the queues do), the parameters and both capacities stay those
/// of the first state, and the reported sizes stay the capacities when they were at first.
pub proof fn law_setup_kept_over_operations<S: squeue::EntryMarker, C: cqueue::EntryMarker>(
    states: Seq<Submitter<S, C>>,
)
    requires
        states.len() > 0,
        forall|i: int| 0 <= i < states.len() - 1 ==> spec_keeps_setup(#[trigger] states[i], states[i + 1]),
    ensures
        forall|i: int| 0 <= i < states.len() ==> spec_keeps_setup(states[0], #[trigger] states[i]),
        spec_sizes_match(states[0]) ==> forall|i: int| 0 <= i < states.len() ==> spec_sizes_match(#[trigger] states[i]),
    decreases states.len(),
{
    if states.len() > 1 {
        let prior = states.drop_last();
        assert forall|i: int| 0 <= i < prior.len() - 1 implies spec_keeps_setup(#[trigger] prior[i], prior[i + 1]) by {
            assert(prior[i] == states[i] && prior[i + 1] == states[i + 1]);
        }
        law_setup_kept_over_operations(prior);
        assert forall|i: int| 0 <= i < states.len() implies spec_keeps_setup(states[0], #[trigger] states[i]) by {
            if i < states.len() - 1 {
                assert(prior[i] == states[i]);
            } else {
                assert(prior[i - 1] == states[i - 1]);
                assert(spec_keeps_setup(states[i - 1], states[i]));
            }
        }
    }
}

/// The batches a sequence of submissions queues, oldest first: the entries each one found
/// queued, leaving out submissions of nothing.
pub open spec fn spec_submitted_batches<S: squeue::EntryMarker, C: cqueue::EntryMarker>(
    befores: Seq<Submitter<S, C>>,
) -> Seq<Seq<sys::io_uring_sqe>>
    decreases befores.len(),
{
    if befores.len() == 0 {
        Seq::empty()
    } else {
        let taken = befores.last().spec_sq()@.map_values(|e: S| e.spec_sqe());
        let prior = spec_submitted_batches(befores.drop_last());
        if taken.len() == 0 {
            prior
        } else {
            prior.push(taken)
        }
    }
}

/// Submissions without waiting accumulate: after submissions `i` taking `befores[i]` to
/// `afters[i]`, with only the submission queue touched in between (pushes), the pending
/// batches are those pending at first followed by every submitted batch, in order; nothing
/// is lost or duplicated, and nothing is dispatched.
pub proof fn law_submissions_accumulate<S: squeue::EntryMarker, C: cqueue::EntryMarker>(
    befores: Seq<Submitter<S, C>>,
    afters: Seq<Submitter<S, C>>,
    rs: Seq<Result<usize, crate::Error>>,
)
    requires
        befores.len() > 0,
        afters.len() == befores.len(),
        rs.len() == befores.len(),
        forall|i: int| 0 <= i < befores.len() ==> spec_submitted(#[trigger] befores[i], afters[i], rs[i], false, Seq::empty()),
        forall|i: int|
            0 <= i < befores.len() - 1 ==> (#[trigger] afters[i]).spec_pending() == befores[i + 1].spec_pending()
                && afters[i].spec_cq()@ == befores[i + 1].spec_cq()@,
    ensures
        afters.last().spec_pending() == befores[0].spec_pending() + spec_submitted_batches(befores),
        afters.last().spec_cq()@ == befores[0].spec_cq()@,
    decreases befores.len(),
{
    let n = befores.len();
    let last = befores.last();
    assert(spec_submitted(befores[n - 1], afters[n - 1], rs[n - 1], false, Seq::empty()));
    if n == 1 {
        assert(befores.drop_last() =~= Seq::<Submitter<S, C>>::empty());
        assert(spec_submitted_batches(befores.drop_last()) =~= Seq::<Seq<sys::io_uring_sqe>>::empty());
        assert(befores[0].spec_pending() + Seq::<Seq<sys::io_uring_sqe>>::empty() =~= befores[0].spec_pending());
        let taken = last.spec_sq()@.map_values(|e: S| e.spec_sqe());
        assert(befores[0].spec_pending().push(taken) =~= befores[0].spec_pending() + seq![taken]);
        assert(Seq::<Seq<sys::io_uring_sqe>>::empty().push(taken) =~= seq![taken]);
    } else {
        let bp = befores.drop_last();
        let ap = afters.drop_last();
        let rp = rs.drop_last();
        assert forall|i: int| 0 <= i < bp.len() implies spec_submitted(#[trigger] bp[i], ap[i], rp[i], false, Seq::empty()) by {
            assert(bp[i] == befores[i] && ap[i] == afters[i] && rp[i] == rs[i]);
        }
        assert forall|i: int| 0 <= i < bp.len() - 1 implies (#[trigger] ap[i]).spec_pending() == bp[i + 1].spec_pending()
            && ap[i].spec_cq()@ == bp[i + 1].spec_cq()@ by {
            assert(bp[i + 1] == befores[i + 1] && ap[i] == afters[i]);
        }
        law_submissions_accumulate(bp, ap, rp);
        assert(ap.last() == afters[n - 2]);
        assert(afters[n - 2].spec_pending() == befores[n - 1].spec_pending());
        let prior = spec_submitted_batches(bp);
        let taken = last.spec_sq()@.map_values(|e: S| e.spec_sqe());
        assert(befores[0].spec_pending() + prior.push(taken) =~= (befores[0].spec_pending() + prior).push(taken));
    }
}


/// When every entry found queued is a plain NOP, so is every entry of the submitted batches.
proof fn lemma_submitted_batches_plain<S: squeue::EntryMarker, C: cqueue::EntryMarker>(
    befores: Seq<Submitter<S, C>>,
)
    requires
        forall|i: int, k: int|
            0 <= i < befores.len() && 0 <= k < befores[i].spec_sq()@.len() ==> spec_plain_nop(
                (#[trigger] befores[i].spec_sq()@[k]).spec_sqe(),
            ),
    ensures
        forall|b: int, k: int|
            0 <= b < spec_submitted_batches(befores).len() && 0 <= k < spec_submitted_batches(befores)[b].len()
                ==> spec_plain_nop(#[trigger] spec_submitted_batches(befores)[b][k]),
    decreases befores.len(),
{
    if befores.len() > 0 {
        let bp = befores.drop_last();
        assert forall|i: int, k: int|
            0 <= i < bp.len() && 0 <= k < bp[i].spec_sq()@.len() implies spec_plain_nop(
                (#[trigger] bp[i].spec_sq()@[k]).spec_sqe(),
            ) by {
            assert(bp[i] == befores[i]);
        }
        lemma_submitted_batches_plain(bp);
        let n = befores.len() - 1;
        let taken = befores.last().spec_sq()@.map_values(|e: S| e.spec_sqe());
        assert forall|k: int| 0 <= k < taken.len() implies spec_plain_nop(#[trigger] taken[k]) by {
            assert(spec_plain_nop(befores[n].spec_sq()@[k].spec_sqe()));
        }
        let prior = spec_submitted_batches(bp);
        let all = spec_submitted_batches(befores);
        assert forall|b: int, k: int| 0 <= b < all.len() && 0 <= k < all[b].len() implies spec_plain_nop(
            #[trigger] all[b][k],
        ) by {
            if b < prior.len() {
                assert(all[b] == prior[b]);
                assert(spec_plain_nop(prior[b][k]));
            } else {
                assert(all[b] == taken);
                assert(spec_plain_nop(taken[k]));
            }
        }
    }
}

/// Plain NOPs complete in push order across every submission: starting with nothing
/// pending, after submissions without waiting (only pushes in between), the completions the
/// pending batches get are, batch after batch, each NOP's user data with result 0 and no
/// flags.
pub proof fn law_plain_nop_history<S: squeue::EntryMarker, C: cqueue::EntryMarker>(
    befores: Seq<Submitter<S, C>>,
    afters: Seq<Submitter<S, C>>,
    rs: Seq<Result<usize, crate::Error>>,
    table: Seq<Vec<Vec<UserIovec>>>,
)
    requires
        befores.len() > 0,
        afters.len() == befores.len(),
        rs.len() == befores.len(),
        befores[0].spec_pending() == Seq::<Seq<sys::io_uring_sqe>>::empty(),
        forall|i: int| 0 <= i < befores.len() ==> spec_submitted(#[trigger] befores[i], afters[i], rs[i], false, Seq::empty()),
        forall|i: int|
            0 <= i < befores.len() - 1 ==> (#[trigger] afters[i]).spec_pending() == befores[i + 1].spec_pending()
                && afters[i].spec_cq()@ == befores[i + 1].spec_cq()@,
        forall|i: int, k: int|
            0 <= i < befores.len() && 0 <= k < befores[i].spec_sq()@.len() ==> spec_plain_nop(
                (#[trigger] befores[i].spec_sq()@[k]).spec_sqe(),
            ),
    ensures
        spec_pending_cqes(afters.last().spec_pending(), table, afters.last().spec_pool()) == spec_nop_cqes(
            spec_submitted_batches(befores),
        ),
{
    law_submissions_accumulate(befores, afters, rs);
    let batches = spec_submitted_batches(befores);
    assert(Seq::<Seq<sys::io_uring_sqe>>::empty() + batches =~= batches);
    lemma_submitted_batches_plain(befores);
    law_plain_nops_complete_in_order(batches, table, afters.last().spec_pool());
}


/// After an entry with `IO_LINK` that ran and succeeded (result `>= 0`), the chain goes
/// on: the next entry is not cancelled, it runs, and unless it selects a provided buffer its
/// result is its own dispatch result.
pub proof fn law_successful_link_continues(
    sqes: Seq<sys::io_uring_sqe>,
    mems: Seq<Vec<UserIovec>>,
    pool: Seq<ProvidedBuffer>,
    i: int,
)
    requires
        0 <= i,
        i + 1 < sqes.len(),
        sqes[i].flags & 4u8 != 0,
        !spec_cancel_before(sqes, mems, pool, i as nat),
        spec_batch_results(sqes, mems, pool)[i].result >= 0,
    ensures
        !spec_cancel_before(sqes, mems, pool, (i + 1) as nat),
        spec_batch_results(sqes, mems, pool)[i + 1].dispatched,
        !spec_selects_buffer(sqes[i + 1]) ==> spec_batch_results(sqes, mems, pool)[i + 1].result
            == spec_dispatch(sqes[i + 1], spec_mem_at(mems, i + 1)),
{
    assert(!spec_cancel_before(sqes, mems, pool, (i + 1) as nat));
    let st = spec_state_before(sqes, mems, pool, (i + 1) as nat);
    let cd = spec_batch_results(sqes, mems, pool)[i + 1];
    if spec_selects_buffer(sqes[i + 1]) {
        let k = spec_find_buffer(st.1, sqes[i + 1].buf_index, 0);
        if k >= 0 {
            lemma_find_buffer(st.1, sqes[i + 1].buf_index, 0);
        }
    }
}

/// Which entry of a batch is cancelled, in terms of the entry flags: entry `i + 1` is
/// cancelled exactly when entry `i` links on (`IO_LINK` or `IO_HARDLINK`) and either was
/// cancelled itself, or ran and failed (result `< 0`) without `IO_HARDLINK`.
pub proof fn law_cancellation_rule(
    sqes: Seq<sys::io_uring_sqe>,
    mems: Seq<Vec<UserIovec>>,
    pool: Seq<ProvidedBuffer>,
    i: int,
)
    requires
        0 <= i,
        i + 1 < sqes.len(),
    ensures
        spec_cancel_before(sqes, mems, pool, (i + 1) as nat) == ((sqes[i].flags & 4u8 != 0
            || sqes[i].flags & 8u8 != 0) && (spec_cancel_before(sqes, mems, pool, i as nat) || (
        spec_batch_results(sqes, mems, pool)[i].result < 0 && sqes[i].flags & 8u8 == 0))),
        !spec_cancel_before(sqes, mems, pool, 0),
{
}

/// `SKIP_SUCCESS` in terms of the entry flags: a result carries the flag exactly when its
/// entry has `SKIP_SUCCESS` (bit 6); the completions posted for a batch are, in order, those
/// of every result that failed (result `< 0`) or whose entry lacks the flag, each with the
/// entry's user data and result; every success (result `>= 0`, not only `0`) of a
/// `SKIP_SUCCESS` entry is left out.
pub proof fn law_skip_success_rule(
    sqes: Seq<sys::io_uring_sqe>,
    mems: Seq<Vec<UserIovec>>,
    pool: Seq<ProvidedBuffer>,
)
    ensures
        forall|i: int| 0 <= i < sqes.len() ==> (#[trigger] spec_batch_results(sqes, mems, pool)[i]).skip_success
            == (sqes[i].flags & 64u8 != 0),
        spec_posted(spec_batch_results(sqes, mems, pool)) == spec_batch_results(sqes, mems, pool).filter(
            |cd: CompletionData| !cd.skip_success || cd.result < 0,
        ).map_values(|cd: CompletionData| spec_completion_cqe(cd)),
        forall|cd: CompletionData| #[trigger] spec_completion_cqe(cd).user_data == cd.user_data
            && spec_completion_cqe(cd).res == cd.result,
{
    lemma_posted_keeps_failures_and_plain(spec_batch_results(sqes, mems, pool));
}

/// `spec_posted` as a filter over the results, with the predicate written on the fields.
proof fn lemma_posted_keeps_failures_and_plain(results: Seq<CompletionData>)
    ensures
        spec_posted(results) == results.filter(|cd: CompletionData| !cd.skip_success || cd.result < 0).map_values(
            |cd: CompletionData| spec_completion_cqe(cd),
        ),
    decreases results.len(),
{
    reveal(Seq::filter);
    let pred = |cd: CompletionData| !cd.skip_success || cd.result < 0;
    let f = |cd: CompletionData| spec_completion_cqe(cd);
    if results.len() == 0 {
        assert(results.filter(pred).map_values(f) =~= Seq::<sys::io_uring_cqe>::empty());
    } else {
        lemma_posted_keeps_failures_and_plain(results.drop_last());
        let sub = results.drop_last().filter(pred);
        assert(results.filter(pred) == if pred(results.last()) {
            sub.push(results.last())
        } else {
            sub
        });
        if pred(results.last()) {
            assert(sub.push(results.last()).map_values(f) =~= sub.map_values(f).push(f(results.last())));
        }
    }
}

} // verus!
