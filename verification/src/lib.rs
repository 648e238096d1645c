//! A userspace emulator of the io_uring submission and completion ring protocol.
//!
//! Instead of calling into the kernel, the ring protocol is carried out on heap-allocated
//! rings: entries pushed on the submission queue are consumed on submission, dispatched, and
//! their completions posted on the completion queue when completions are reaped.

pub mod cqueue;
pub mod opcode;
pub mod register;
pub mod squeue;
pub mod submit;
pub mod sys;
pub mod types;
mod util;

pub use cqueue::CompletionQueue;
pub use register::Probe;
pub use squeue::SubmissionQueue;
pub use submit::{EnterFlags, Submitter};

use core::marker::PhantomData;
use submit::dispatch::UserIovec;
use vstd::arithmetic::power2::pow2;
use vstd::prelude::*;

verus! {

/// Errors reported by the emulated ring.
#[derive(Debug, Clone, Copy, PartialEq, Eq, Structural)]
pub enum Error {
    /// An argument is out of the accepted range.
    InvalidInput,
}

/// The largest number of submission queue entries a ring can be built with.
pub open spec fn max_sq_entries() -> nat {
    0x8000
}

/// The largest completion queue a ring gets when its size is not given.
pub open spec fn max_default_cq_entries() -> nat {
    0x1_0000
}

/// Every feature the emulator reports.
pub open spec fn emulated_features() -> u32 {
    0x3fff
}

/// The least power of two that is at least `x`, searching from `2^k` (and stopping at `2^31`).
pub open spec fn spec_pow2_from(x: nat, k: nat) -> nat
    decreases 31 - k,
{
    if k >= 31 || pow2(k) >= x {
        pow2(k)
    } else {
        spec_pow2_from(x, k + 1)
    }
}

/// The least power of two that is at least `x` (for `x <= 2^31`).
pub open spec fn spec_round_up_pow2(x: nat) -> nat {
    spec_pow2_from(x, 0)
}

/// Searching up from `2^k`, past powers of two that are all below `x`, ends at the first
/// power of two that is at least `x`.
proof fn lemma_pow2_from(x: nat, k: nat) -> (m: nat)
    requires
        1 <= x <= 0x8000_0000,
        k <= 31,
        forall|j: nat| j < k ==> pow2(j) < x,
    ensures
        k <= m <= 31,
        spec_pow2_from(x, k) == pow2(m),
        pow2(m) >= x,
        forall|j: nat| j < m ==> pow2(j) < x,
    decreases 31 - k,
{
    if pow2(k) >= x {
        k
    } else {
        if k == 31 {
            vstd::arithmetic::power2::lemma2_to64();
        }
        lemma_pow2_from(x, k + 1)
    }
}

/// A ring's sizes are rounded up to powers of two: for `1 <= x <= 2^31`, the rounded size is
/// a power of two, at least `x`, and no larger than any power of two that is at least `x`.
pub proof fn law_round_up_is_least_power_of_two(x: nat)
    requires
        1 <= x <= 0x8000_0000,
    ensures
        exists|k: nat| k <= 31 && spec_round_up_pow2(x) == pow2(k),
        spec_round_up_pow2(x) >= x,
        forall|j: nat| #[trigger] pow2(j) >= x ==> spec_round_up_pow2(x) <= pow2(j),
{
    let m = lemma_pow2_from(x, 0);
    assert forall|j: nat| #[trigger] pow2(j) >= x implies spec_round_up_pow2(x) <= pow2(j) by {
        if j > m {
            vstd::arithmetic::power2::lemma_pow2_strictly_increases(m, j);
        }
    }
}

/// The least power of two that is at least `x`, with its exponent.
fn next_power_of_two(x: u32) -> (r: (u32, Ghost<nat>))
    requires
        1 <= x <= 0x8000_0000,
    ensures
        r.1@ <= 31,
        r.0 as int == pow2(r.1@),
        r.0 as nat == spec_round_up_pow2(x as nat),
        r.0 >= x,
        forall|j: nat| pow2(j) >= x ==> r.1@ <= j,
{
    let mut p: u32 = 1;
    let ghost mut k: nat = 0;
    proof {
        vstd::arithmetic::power2::lemma2_to64();
    }
    while p < x
        invariant
            k <= 31,
            p as int == pow2(k),
            1 <= x <= 0x8000_0000,
            spec_round_up_pow2(x as nat) == spec_pow2_from(x as nat, k),
            forall|j: nat| j < k ==> pow2(j) < x,
        decreases 31 - k,
    {
        proof {
            crate::util::lemma_pow2_u32(k);
            if k >= 31 {
                vstd::arithmetic::power2::lemma2_to64();
                assert(false);
            }
            vstd::arithmetic::power2::lemma_pow2_unfold(k + 1);
        }
        p = p * 2;
        proof {
            k = k + 1;
        }
    }
    (p, Ghost(k))
}

/// The parameters that were used to construct an [`IoUring`].
#[derive(Debug, Clone, Copy)]
pub struct Parameters(sys::io_uring_params);

impl View for Parameters {
    type V = sys::io_uring_params;

    /// The kernel's `io_uring_params` these parameters hold.
    closed spec fn view(&self) -> sys::io_uring_params {
        self.0
    }
}

impl Parameters {
    /// Whether a kernel thread is performing queue polling.
    pub fn is_setup_sqpoll(&self) -> (r: bool)
        ensures
            r == (self@.flags & sys::IORING_SETUP_SQPOLL != 0),
    {
        self.0.flags & sys::IORING_SETUP_SQPOLL != 0
    }

    /// Whether waiting for completion events is done with a busy loop.
    pub fn is_setup_iopoll(&self) -> (r: bool)
        ensures
            r == (self@.flags & sys::IORING_SETUP_IOPOLL != 0),
    {
        self.0.flags & sys::IORING_SETUP_IOPOLL != 0
    }

    /// Whether the single issuer hint is enabled.
    pub fn is_setup_single_issuer(&self) -> (r: bool)
        ensures
            r == (self@.flags & sys::IORING_SETUP_SINGLE_ISSUER != 0),
    {
        self.0.flags & sys::IORING_SETUP_SINGLE_ISSUER != 0
    }

    /// If this flag is set, the SQ and CQ rings were mapped with a single mmap call.
    pub fn is_feature_single_mmap(&self) -> (r: bool)
        ensures
            r == (self@.features & sys::IORING_FEAT_SINGLE_MMAP != 0),
    {
        self.0.features & sys::IORING_FEAT_SINGLE_MMAP != 0
    }

    /// If this flag is set, io_uring supports never dropping completion events.
    pub fn is_feature_nodrop(&self) -> (r: bool)
        ensures
            r == (self@.features & sys::IORING_FEAT_NODROP != 0),
    {
        self.0.features & sys::IORING_FEAT_NODROP != 0
    }

    /// If this flag is set, data for async offload has been consumed when the SQE is consumed.
    pub fn is_feature_submit_stable(&self) -> (r: bool)
        ensures
            r == (self@.features & sys::IORING_FEAT_SUBMIT_STABLE != 0),
    {
        self.0.features & sys::IORING_FEAT_SUBMIT_STABLE != 0
    }

    /// If this flag is set, applications can specify offset == -1 with read/write ops.
    pub fn is_feature_rw_cur_pos(&self) -> (r: bool)
        ensures
            r == (self@.features & sys::IORING_FEAT_RW_CUR_POS != 0),
    {
        self.0.features & sys::IORING_FEAT_RW_CUR_POS != 0
    }

    /// If this flag is set, sync and async execution assume the credentials of the calling task.
    pub fn is_feature_cur_personality(&self) -> (r: bool)
        ensures
            r == (self@.features & sys::IORING_FEAT_CUR_PERSONALITY != 0),
    {
        self.0.features & sys::IORING_FEAT_CUR_PERSONALITY != 0
    }

    /// Whether async pollable I/O is fast.
    pub fn is_feature_fast_poll(&self) -> (r: bool)
        ensures
            r == (self@.features & sys::IORING_FEAT_FAST_POLL != 0),
    {
        self.0.features & sys::IORING_FEAT_FAST_POLL != 0
    }

    /// Whether poll events are stored using 32 bits instead of 16.
    pub fn is_feature_poll_32bits(&self) -> (r: bool)
        ensures
            r == (self@.features & sys::IORING_FEAT_POLL_32BITS != 0),
    {
        self.0.features & sys::IORING_FEAT_POLL_32BITS != 0
    }

    /// Whether SQPOLL can use non-fixed files.
    pub fn is_feature_sqpoll_nonfixed(&self) -> (r: bool)
        ensures
            r == (self@.features & sys::IORING_FEAT_SQPOLL_NONFIXED != 0),
    {
        self.0.features & sys::IORING_FEAT_SQPOLL_NONFIXED != 0
    }

    /// Whether the extended argument to io_uring_enter is supported.
    pub fn is_feature_ext_arg(&self) -> (r: bool)
        ensures
            r == (self@.features & sys::IORING_FEAT_EXT_ARG != 0),
    {
        self.0.features & sys::IORING_FEAT_EXT_ARG != 0
    }

    /// Whether io_uring uses native workers.
    pub fn is_feature_native_workers(&self) -> (r: bool)
        ensures
            r == (self@.features & sys::IORING_FEAT_NATIVE_WORKERS != 0),
    {
        self.0.features & sys::IORING_FEAT_NATIVE_WORKERS != 0
    }

    /// Whether the kernel supports tagging resources.
    pub fn is_feature_resource_tagging(&self) -> (r: bool)
        ensures
            r == (self@.features & sys::IORING_FEAT_RSRC_TAGS != 0),
    {
        self.0.features & sys::IORING_FEAT_RSRC_TAGS != 0
    }

    /// Whether the kernel supports `IOSQE_CQE_SKIP_SUCCESS`.
    pub fn is_feature_skip_cqe_on_success(&self) -> (r: bool)
        ensures
            r == (self@.features & sys::IORING_FEAT_CQE_SKIP != 0),
    {
        self.0.features & sys::IORING_FEAT_CQE_SKIP != 0
    }

    /// Whether the kernel supports deferred file assignment.
    pub fn is_feature_linked_file(&self) -> (r: bool)
        ensures
            r == (self@.features & sys::IORING_FEAT_LINKED_FILE != 0),
    {
        self.0.features & sys::IORING_FEAT_LINKED_FILE != 0
    }

    /// Whether the kernel supports `IORING_RECVSEND_BUNDLE`.
    pub fn is_feature_recvsend_bundle(&self) -> (r: bool)
        ensures
            r == (self@.features & sys::IORING_FEAT_RECVSEND_BUNDLE != 0),
    {
        self.0.features & sys::IORING_FEAT_RECVSEND_BUNDLE != 0
    }

    /// Whether the kernel supports `min_wait_usec` in submit args.
    pub fn is_feature_min_timeout(&self) -> (r: bool)
        ensures
            r == (self@.features & sys::IORING_FEAT_MIN_TIMEOUT != 0),
    {
        self.0.features & sys::IORING_FEAT_MIN_TIMEOUT != 0
    }

    /// The number of submission queue entries allocated.
    pub fn sq_entries(&self) -> (r: u32)
        ensures
            r == self@.sq_entries,
    {
        self.0.sq_entries
    }

    /// The idle time of the SQ poll thread in milliseconds.
    pub fn sq_thread_idle(&self) -> (r: u32)
        ensures
            r == self@.sq_thread_idle,
    {
        self.0.sq_thread_idle
    }

    /// The number of completion queue entries allocated.
    pub fn cq_entries(&self) -> (r: u32)
        ensures
            r == self@.cq_entries,
    {
        self.0.cq_entries
    }
}

/// IoUring build params.
pub struct Builder<S = squeue::Entry, C = cqueue::Entry> {
    params: sys::io_uring_params,
    phantom: PhantomData<(S, C)>,
}

impl<S: squeue::EntryMarker, C: cqueue::EntryMarker> Builder<S, C> {
    /// The setup parameters collected so far.
    pub closed spec fn spec_params(&self) -> sys::io_uring_params {
        self.params
    }

    /// Perform busy-waiting for I/O completion events, as opposed to getting notifications via an
    /// asynchronous IRQ (Interrupt Request).
    pub fn setup_iopoll(&mut self) -> (r: &mut Self)
        ensures
            r.spec_params() == (sys::io_uring_params { flags: old(self).spec_params().flags | sys::IORING_SETUP_IOPOLL, ..old(self).spec_params() }),
            *final(self) == *final(r),
    {
        self.params.flags = self.params.flags | sys::IORING_SETUP_IOPOLL;
        self
    }

    /// Use a kernel thread to perform submission queue polling.
    pub fn setup_sqpoll(&mut self, idle: u32) -> (r: &mut Self)
        ensures
            r.spec_params() == (sys::io_uring_params { flags: old(self).spec_params().flags | sys::IORING_SETUP_SQPOLL, sq_thread_idle: idle, ..old(self).spec_params() }),
            *final(self) == *final(r),
    {
        self.params.flags = self.params.flags | sys::IORING_SETUP_SQPOLL;
        self.params.sq_thread_idle = idle;
        self
    }

    /// Bind the kernel's poll thread to the specified cpu.
    pub fn setup_sqpoll_cpu(&mut self, cpu: u32) -> (r: &mut Self)
        ensures
            r.spec_params() == (sys::io_uring_params { flags: old(self).spec_params().flags | sys::IORING_SETUP_SQ_AFF, sq_thread_cpu: cpu, ..old(self).spec_params() }),
            *final(self) == *final(r),
    {
        self.params.flags = self.params.flags | sys::IORING_SETUP_SQ_AFF;
        self.params.sq_thread_cpu = cpu;
        self
    }

    /// Create the completion queue with the specified number of entries.
    pub fn setup_cqsize(&mut self, entries: u32) -> (r: &mut Self)
        ensures
            r.spec_params() == (sys::io_uring_params { flags: old(self).spec_params().flags | sys::IORING_SETUP_CQSIZE, cq_entries: entries, ..old(self).spec_params() }),
            *final(self) == *final(r),
    {
        self.params.flags = self.params.flags | sys::IORING_SETUP_CQSIZE;
        self.params.cq_entries = entries;
        self
    }

    /// Clamp the sizes of the submission queue and completion queue at their maximum values.
    pub fn setup_clamp(&mut self) -> (r: &mut Self)
        ensures
            r.spec_params() == (sys::io_uring_params { flags: old(self).spec_params().flags | sys::IORING_SETUP_CLAMP, ..old(self).spec_params() }),
            *final(self) == *final(r),
    {
        self.params.flags = self.params.flags | sys::IORING_SETUP_CLAMP;
        self
    }

    /// Share the asynchronous worker thread backend of this io_uring with the specified io_uring
    /// file descriptor instead of creating a new thread pool.
    pub fn setup_attach_wq(&mut self, fd: i32) -> (r: &mut Self)
        ensures
            r.spec_params() == (sys::io_uring_params { flags: old(self).spec_params().flags | sys::IORING_SETUP_ATTACH_WQ, wq_fd: fd as u32, ..old(self).spec_params() }),
            *final(self) == *final(r),
    {
        self.params.flags = self.params.flags | sys::IORING_SETUP_ATTACH_WQ;
        self.params.wq_fd = fd as u32;
        self
    }

    /// Start the io_uring instance with all its rings disabled.
    pub fn setup_r_disabled(&mut self) -> (r: &mut Self)
        ensures
            r.spec_params() == (sys::io_uring_params { flags: old(self).spec_params().flags | sys::IORING_SETUP_R_DISABLED, ..old(self).spec_params() }),
            *final(self) == *final(r),
    {
        self.params.flags = self.params.flags | sys::IORING_SETUP_R_DISABLED;
        self
    }

    /// Continue submitting requests even if one results in an error.
    pub fn setup_submit_all(&mut self) -> (r: &mut Self)
        ensures
            r.spec_params() == (sys::io_uring_params { flags: old(self).spec_params().flags | sys::IORING_SETUP_SUBMIT_ALL, ..old(self).spec_params() }),
            *final(self) == *final(r),
    {
        self.params.flags = self.params.flags | sys::IORING_SETUP_SUBMIT_ALL;
        self
    }

    /// Reduce interrupt overhead from completion events.
    pub fn setup_coop_taskrun(&mut self) -> (r: &mut Self)
        ensures
            r.spec_params() == (sys::io_uring_params { flags: old(self).spec_params().flags | sys::IORING_SETUP_COOP_TASKRUN, ..old(self).spec_params() }),
            *final(self) == *final(r),
    {
        self.params.flags = self.params.flags | sys::IORING_SETUP_COOP_TASKRUN;
        self
    }

    /// Used in conjunction with `setup_coop_taskrun`, provides a flag for pending completions.
    pub fn setup_taskrun_flag(&mut self) -> (r: &mut Self)
        ensures
            r.spec_params() == (sys::io_uring_params { flags: old(self).spec_params().flags | sys::IORING_SETUP_TASKRUN_FLAG, ..old(self).spec_params() }),
            *final(self) == *final(r),
    {
        self.params.flags = self.params.flags | sys::IORING_SETUP_TASKRUN_FLAG;
        self
    }

    /// Defer work until an explicit enter call with `IORING_ENTER_GETEVENTS`.
    pub fn setup_defer_taskrun(&mut self) -> (r: &mut Self)
        ensures
            r.spec_params() == (sys::io_uring_params { flags: old(self).spec_params().flags | sys::IORING_SETUP_DEFER_TASKRUN, ..old(self).spec_params() }),
            *final(self) == *final(r),
    {
        self.params.flags = self.params.flags | sys::IORING_SETUP_DEFER_TASKRUN;
        self
    }

    /// Hint that a single task will submit requests.
    pub fn setup_single_issuer(&mut self) -> (r: &mut Self)
        ensures
            r.spec_params() == (sys::io_uring_params { flags: old(self).spec_params().flags | sys::IORING_SETUP_SINGLE_ISSUER, ..old(self).spec_params() }),
            *final(self) == *final(r),
    {
        self.params.flags = self.params.flags | sys::IORING_SETUP_SINGLE_ISSUER;
        self
    }

    /// Do not make this io_uring instance accessible by child processes after a fork.
    /// There is no shared mapping to protect, so nothing changes.
    pub fn dontfork(&mut self) -> (r: &mut Self)
        ensures
            r.spec_params() == old(self).spec_params(),
            *final(self) == *final(r),
    {
        self
    }

    /// Build an [`IoUring`], with the specified number of entries in the submission queue and
    /// completion queue unless [`setup_cqsize`](Self::setup_cqsize) has been called.
    ///
    /// The submission queue gets the least power of two at least `entries`; the completion
    /// queue gets the least power of two at least the requested size, or twice the submission
    /// queue capped at 65536 when no size was requested.
    pub fn build(&self, entries: u32) -> (r: Result<IoUring<S, C>, Error>)
        requires
            self.spec_params().flags & sys::IORING_SETUP_CQSIZE != 0 ==> self.spec_params().cq_entries
                <= 0x8000_0000,
        ensures
            (r is Err) == spec_build_rejects(self.spec_params(), entries),
            r is Err ==> r == Err::<IoUring<S, C>, Error>(Error::InvalidInput),
            r matches Ok(ring) ==> spec_built(ring, self.spec_params(), entries),
    {
        if entries == 0 || entries > 0x8000 {
            return Err(Error::InvalidInput);
        }
        let (sq_entries, Ghost(sq_log)) = next_power_of_two(entries);
        let (cq_entries, Ghost(cq_log)) = if self.params.flags & sys::IORING_SETUP_CQSIZE != 0 {
            let cq = self.params.cq_entries;
            if cq == 0 {
                return Err(Error::InvalidInput);
            }
            next_power_of_two(cq)
        } else {
            proof {
                vstd::arithmetic::power2::lemma2_to64();
                if sq_log >= 16 {
                    vstd::arithmetic::power2::lemma_pow2_strictly_increases(15, sq_log);
                }
                vstd::arithmetic::power2::lemma_pow2_unfold(sq_log + 1);
            }
            let doubled = sq_entries * 2;
            if doubled < 0x1_0000 {
                (doubled, Ghost(sq_log + 1))
            } else {
                (0x1_0000u32, Ghost(16nat))
            }
        };
        let features = sys::IORING_FEAT_SINGLE_MMAP | sys::IORING_FEAT_NODROP
            | sys::IORING_FEAT_SUBMIT_STABLE | sys::IORING_FEAT_RW_CUR_POS
            | sys::IORING_FEAT_CUR_PERSONALITY | sys::IORING_FEAT_FAST_POLL
            | sys::IORING_FEAT_POLL_32BITS | sys::IORING_FEAT_SQPOLL_NONFIXED
            | sys::IORING_FEAT_EXT_ARG | sys::IORING_FEAT_NATIVE_WORKERS
            | sys::IORING_FEAT_RSRC_TAGS | sys::IORING_FEAT_CQE_SKIP
            | sys::IORING_FEAT_LINKED_FILE | sys::IORING_FEAT_REG_REG_RING;
        assert(1u32 | 2u32 | 4u32 | 8u32 | 16u32 | 32u32 | 64u32 | 128u32 | 256u32 | 512u32 | 1024u32
            | 2048u32 | 4096u32 | 8192u32 == 0x3fffu32) by (bit_vector);
        let params = Parameters(
            sys::io_uring_params {
                sq_entries,
                cq_entries,
                flags: self.params.flags,
                sq_thread_cpu: self.params.sq_thread_cpu,
                sq_thread_idle: self.params.sq_thread_idle,
                features,
                wq_fd: self.params.wq_fd,
                resv: [0u32, 0u32, 0u32],
                sq_off: sys::io_sqring_offsets::zeroed(),
                cq_off: sys::io_cqring_offsets::zeroed(),
            },
        );
        let sq = SubmissionQueue::<S>::new(sq_entries, Ghost(sq_log));
        let cq = CompletionQueue::<C>::new(cq_entries, Ghost(cq_log));
        Ok(IoUring { submitter: Submitter::new(params, sq, cq) })
    }
}

impl<S: squeue::EntryMarker, C: cqueue::EntryMarker> Builder<S, C> {
    /// A builder holding the setup flags of the entry types and nothing else.
    pub fn new() -> (r: Self)
        ensures
            r.spec_params() == sys::params_with_flags(S::spec_build_flags() | C::spec_build_flags()),
    {
        Builder {
            params: sys::io_uring_params::with_flags(S::build_flags() | C::build_flags()),
            phantom: PhantomData,
        }
    }
}

impl<S: squeue::EntryMarker, C: cqueue::EntryMarker> Clone for Builder<S, C> {
    fn clone(&self) -> (r: Self)
        ensures
            r.spec_params() == self.spec_params(),
    {
        Builder { params: self.params, phantom: PhantomData }
    }
}

impl<S: squeue::EntryMarker, C: cqueue::EntryMarker> Default for Builder<S, C> {
    fn default() -> (r: Self)
        ensures
            r.spec_params() == sys::params_with_flags(S::spec_build_flags() | C::spec_build_flags()),
    {
        Builder::new()
    }
}

/// Whether building with these parameters and `entries` submission queue entries fails.
pub open spec fn spec_build_rejects(p: sys::io_uring_params, entries: u32) -> bool {
    ||| entries == 0
    ||| entries > max_sq_entries()
    ||| (p.flags & sys::IORING_SETUP_CQSIZE != 0 && p.cq_entries == 0)
}

/// The completion queue size a ring built with these parameters gets.
pub open spec fn spec_cq_entries(p: sys::io_uring_params, entries: u32) -> nat {
    if p.flags & sys::IORING_SETUP_CQSIZE != 0 {
        spec_round_up_pow2(p.cq_entries as nat)
    } else {
        let doubled = 2 * spec_round_up_pow2(entries as nat);
        if doubled < max_default_cq_entries() {
            doubled
        } else {
            max_default_cq_entries()
        }
    }
}

/// The parameters a ring built from setup parameters `p` and `entries` reports.
pub open spec fn spec_built_params(p: sys::io_uring_params, entries: u32) -> sys::io_uring_params {
    sys::io_uring_params {
        sq_entries: spec_round_up_pow2(entries as nat) as u32,
        cq_entries: spec_cq_entries(p, entries) as u32,
        flags: p.flags,
        sq_thread_cpu: p.sq_thread_cpu,
        sq_thread_idle: p.sq_thread_idle,
        features: emulated_features(),
        wq_fd: p.wq_fd,
        resv: [0u32, 0u32, 0u32],
        sq_off: sys::sq_offsets_zeroed(),
        cq_off: sys::cq_offsets_zeroed(),
    }
}

/// `ring` is a fresh ring built from setup parameters `p` and `entries`: empty queues of the
/// reported sizes, no flags, counters at zero and nothing pending.
pub open spec fn spec_built<S: squeue::EntryMarker, C: cqueue::EntryMarker>(
    ring: IoUring<S, C>,
    p: sys::io_uring_params,
    entries: u32,
) -> bool {
    let sub = ring.spec_submitter();
    &&& ring.wf()
    &&& sub.spec_params()@ == spec_built_params(p, entries)
    &&& sub.spec_sq()@ == Seq::<S>::empty()
    &&& sub.spec_sq().spec_capacity() == spec_round_up_pow2(entries as nat)
    &&& sub.spec_sq().spec_flags() == 0
    &&& sub.spec_sq().spec_dropped() == 0
    &&& sub.spec_cq()@ == Seq::<C>::empty()
    &&& sub.spec_cq().spec_capacity() == spec_cq_entries(p, entries)
    &&& sub.spec_cq().spec_overflow() == 0
    &&& sub.spec_cq().spec_flags() == 0
    &&& sub.spec_pending() == Seq::<Seq<sys::io_uring_sqe>>::empty()
    &&& sub.spec_pool() == Seq::<submit::dispatch::ProvidedBuffer>::empty()
}

/// Setup flags other than `IORING_SETUP_CQSIZE` change nothing but what the parameters
/// report: builds whose parameters agree on that flag and on the requested completion queue
/// size reject the same sizes and get the same queue sizes.
pub proof fn law_setup_flags_only_reported(p1: sys::io_uring_params, p2: sys::io_uring_params, entries: u32)
    requires
        p1.flags & sys::IORING_SETUP_CQSIZE == p2.flags & sys::IORING_SETUP_CQSIZE,
        p1.cq_entries == p2.cq_entries,
    ensures
        spec_build_rejects(p1, entries) == spec_build_rejects(p2, entries),
        spec_cq_entries(p1, entries) == spec_cq_entries(p2, entries),
        spec_built_params(p1, entries).sq_entries == spec_built_params(p2, entries).sq_entries,
        spec_built_params(p1, entries).cq_entries == spec_built_params(p2, entries).cq_entries,
{
}

/// A freshly built ring reports its queue sizes exactly: `sq_entries` is the submission
/// queue's capacity and `cq_entries` the completion queue's.
pub proof fn law_built_sizes_match_params<S: squeue::EntryMarker, C: cqueue::EntryMarker>(
    ring: IoUring<S, C>,
    p: sys::io_uring_params,
    entries: u32,
)
    requires
        !spec_build_rejects(p, entries),
        p.flags & sys::IORING_SETUP_CQSIZE != 0 ==> p.cq_entries <= 0x8000_0000,
        spec_built(ring, p, entries),
    ensures
        submit::properties::spec_sizes_match(ring.spec_submitter()),
{
    law_round_up_is_least_power_of_two(entries as nat);
    let k = choose|k: nat| k <= 31 && spec_round_up_pow2(entries as nat) == pow2(k);
    crate::util::lemma_pow2_u32(k);
    if p.flags & sys::IORING_SETUP_CQSIZE != 0 {
        law_round_up_is_least_power_of_two(p.cq_entries as nat);
        let j = choose|j: nat| j <= 31 && spec_round_up_pow2(p.cq_entries as nat) == pow2(j);
        crate::util::lemma_pow2_u32(j);
    }
}

/// IoUring instance.
///
/// - `S`: The ring's submission queue entry (SQE) type, either [`squeue::Entry`] or
///   [`squeue::Entry128`];
/// - `C`: The ring's completion queue entry (CQE) type, either [`cqueue::Entry`] or
///   [`cqueue::Entry32`].
pub struct IoUring<S = squeue::Entry, C = cqueue::Entry> {
    submitter: Submitter<S, C>,
}

impl IoUring<squeue::Entry, cqueue::Entry> {
    /// Create a new `IoUring` instance with default configuration parameters. See [`Builder`] to
    /// customize it further.
    ///
    /// The `entries` sets the size of queue, and its value should be the power of two.
    pub fn new(entries: u32) -> (r: Result<Self, Error>)
        ensures
            (r is Err) == spec_build_rejects(sys::params_with_flags(0), entries),
            r is Err ==> r == Err::<Self, Error>(Error::InvalidInput),
            r matches Ok(ring) ==> spec_built(ring, sys::params_with_flags(0), entries),
    {
        assert(0u32 | 0u32 == 0u32) by (bit_vector);
        assert(0u32 & sys::IORING_SETUP_CQSIZE == 0) by (bit_vector);
        Self::builder().build(entries)
    }
}

impl<S: squeue::EntryMarker, C: cqueue::EntryMarker> IoUring<S, C> {
    /// The kernel side of the ring, which owns both queues.
    pub closed spec fn spec_submitter(&self) -> Submitter<S, C> {
        self.submitter
    }

    /// Both rings keep their layout invariant.
    pub open spec fn wf(&self) -> bool {
        self.spec_submitter().wf()
    }

    /// Create a [`Builder`] for an `IoUring` instance.
    ///
    /// This allows for further customization than [`new`](Self::new).
    /// Unlike [`IoUring::new`], this function is available for any combination of
    /// submission queue entry (SQE) and completion queue entry (CQE) types.
    pub fn builder() -> (r: Builder<S, C>)
        ensures
            r.spec_params() == sys::params_with_flags(S::spec_build_flags() | C::spec_build_flags()),
    {
        Builder::new()
    }

    /// Get the submitter of this io_uring instance, which can be used to submit submission queue
    /// events for execution and to register files or buffers with it.
    pub fn submitter(&mut self) -> (r: &mut Submitter<S, C>)
        ensures
            *r == old(self).spec_submitter(),
            final(self).spec_submitter() == *final(r),
    {
        &mut self.submitter
    }

    /// Get the parameters that were used to construct this instance.
    pub fn params(&self) -> (r: &Parameters)
        ensures
            *r == self.spec_submitter().spec_params(),
    {
        self.submitter.params()
    }

    /// Initiate asynchronous I/O. See [`Submitter::submit`] for more details.
    pub fn submit(&mut self) -> (r: Result<usize, Error>)
        requires
            old(self).wf(),
        ensures
            submit::spec_submitted(old(self).spec_submitter(), final(self).spec_submitter(), r, false, Seq::empty()),
    {
        self.submitter.submit()
    }

    /// Initiate and/or complete asynchronous I/O. See [`Submitter::submit_and_wait`] for more
    /// details: `table[b]` holds the iovecs of pending batch `b` (the batch this call submits
    /// comes last) as read from user memory.
    pub fn submit_and_wait(&mut self, want: usize, table: &Vec<Vec<Vec<UserIovec>>>) -> (r: Result<usize, Error>)
        requires
            old(self).wf(),
        ensures
            submit::spec_submitted(old(self).spec_submitter(), final(self).spec_submitter(), r, want > 0, table@),
    {
        self.submitter.submit_and_wait(want, table)
    }

    /// Get the submission queue of the io_uring instance. This is used to send I/O requests to the
    /// kernel.
    pub fn submission(&mut self) -> (r: &mut SubmissionQueue<S>)
        requires
            old(self).wf(),
        ensures
            *r == old(self).spec_submitter().spec_sq(),
            r.wf(),
            final(self).spec_submitter().spec_sq() == *final(r),
            final(self).spec_submitter().spec_cq() == old(self).spec_submitter().spec_cq(),
            final(self).spec_submitter().spec_pending() == old(self).spec_submitter().spec_pending(),
            final(self).spec_submitter().spec_pool() == old(self).spec_submitter().spec_pool(),
            final(self).spec_submitter().spec_params() == old(self).spec_submitter().spec_params(),
    {
        self.submitter.sq_mut()
    }

    /// Get completion queue of the io_uring instance. This is used to receive I/O completion
    /// events from the kernel.
    ///
    /// Pending submissions are dispatched and their completions posted first; batch `b`
    /// reads the iovecs of its vectored and message operations from `table[b]`, which holds
    /// them as read from user memory.
    pub fn completion(&mut self, table: &Vec<Vec<Vec<UserIovec>>>) -> (r: &mut CompletionQueue<C>)
        requires
            old(self).wf(),
        ensures
            spec_reaping(old(self).spec_submitter(), final(self).spec_submitter(), *r, *final(r), table@),
    {
        self.submitter.flush_pending(table);
        self.submitter.cq_mut()
    }
}

/// Reaping through `cq` (ending as `cq_final`) after flushing `before` with `table` ends in `after`.
pub open spec fn spec_reaping<S: squeue::EntryMarker, C: cqueue::EntryMarker>(
    before: Submitter<S, C>,
    after: Submitter<S, C>,
    cq: CompletionQueue<C>,
    cq_final: CompletionQueue<C>,
    table: Seq<Vec<Vec<UserIovec>>>,
) -> bool {
    &&& cq.wf()
    &&& after.spec_params() == before.spec_params()
    &&& after.spec_pending() == Seq::<Seq<sys::io_uring_sqe>>::empty()
    &&& after.spec_sq()@ == before.spec_sq()@
    &&& after.spec_sq().spec_capacity() == before.spec_sq().spec_capacity()
    &&& after.spec_sq().spec_dropped() == before.spec_sq().spec_dropped()
    &&& after.spec_pool() == submit::spec_pending_pool(before.spec_pending(), table, before.spec_pool())
    &&& submit::spec_posts(
        before.spec_cq(),
        before.spec_sq().spec_flags(),
        submit::spec_pending_cqes(before.spec_pending(), table, before.spec_pool()),
        cq,
        after.spec_sq().spec_flags(),
    )
    &&& after.spec_cq() == cq_final
}

/// Reaping keeps the ring's setup: the parameters and both queue capacities are as they
/// were, and the completion queue never holds more entries than it has room for.
pub proof fn law_reaping_keeps_setup<S: squeue::EntryMarker, C: cqueue::EntryMarker>(
    before: Submitter<S, C>,
    after: Submitter<S, C>,
    cq: CompletionQueue<C>,
    cq_final: CompletionQueue<C>,
    table: Seq<Vec<Vec<UserIovec>>>,
)
    requires
        spec_reaping(before, after, cq, cq_final, table),
    ensures
        after.spec_params() == before.spec_params(),
        after.spec_sq().spec_capacity() == before.spec_sq().spec_capacity(),
        cq.spec_capacity() == before.spec_cq().spec_capacity(),
        cq@.len() <= cq.spec_capacity(),
        cq_final.spec_capacity() == cq.spec_capacity() ==> submit::properties::spec_keeps_setup(before, after),
{
    cq.lemma_wf();
}

} // verus!
