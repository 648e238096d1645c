//! Completion Queue

use crate::sys;
use crate::util::private;
use crate::util::{
    lemma_advance_slot, lemma_distance_advance, lemma_mask_selects_slot, lemma_pop_front,
    lemma_pow2_u32, lemma_push_back, lemma_slots_distinct, lemma_wrapping_add_is_advance,
    lemma_wrapping_sub_is_distance, ring_advance, ring_distance, ring_slot, u32_period,
};
use vstd::arithmetic::power2::pow2;
use vstd::bits::low_bits_mask;
use vstd::prelude::*;

verus! {

/// A completion queue entry (CQE), representing a complete I/O operation.
///
/// This is implemented for [`Entry`] and [`Entry32`].
pub trait EntryMarker: Sized + private::Sealed {
    /// The 16-byte CQE at the start of this entry.
    spec fn spec_cqe(&self) -> sys::io_uring_cqe;

    /// The entry a freshly allocated ring slot holds.
    spec fn spec_zeroed() -> Self;

    /// The entry the kernel side writes for a completion (extra words zeroed).
    spec fn spec_from_cqe(cqe: sys::io_uring_cqe) -> Self;

    /// Setup flags a ring using this entry type is built with.
    spec fn spec_build_flags() -> u32;

    fn zeroed() -> (r: Self)
        ensures
            r == Self::spec_zeroed(),
    ;

    fn from_cqe(cqe: sys::io_uring_cqe) -> (r: Self)
        ensures
            r == Self::spec_from_cqe(cqe),
            r.spec_cqe() == cqe,
    ;

    fn duplicate(&self) -> (r: Self)
        ensures
            r == *self,
    ;

    fn build_flags() -> (r: u32)
        ensures
            r == Self::spec_build_flags(),
    ;

    /// The 16-byte entry at the start of this entry.
    fn to_entry(self) -> (r: Entry)
        ensures
            r.0 == self.spec_cqe(),
    ;
}

/// A 16-byte completion queue entry (CQE), representing a complete I/O operation.
#[derive(Clone, Copy, Debug)]
pub struct Entry(pub sys::io_uring_cqe);

/// A 32-byte completion queue entry (CQE), representing a complete I/O operation.
#[derive(Clone, Copy, Debug)]
pub struct Entry32(pub Entry, pub [u64; 2]);

impl Entry {
    /// The operation-specific result code.
    pub fn result(&self) -> (r: i32)
        ensures
            r == self.0.res,
    {
        self.0.res
    }

    /// The user data of the request.
    pub fn user_data(&self) -> (r: u64)
        ensures
            r == self.0.user_data,
    {
        self.0.user_data
    }

    /// Metadata related to the operation.
    pub fn flags(&self) -> (r: u32)
        ensures
            r == self.0.flags,
    {
        self.0.flags
    }
}

impl private::Sealed for Entry {}

impl EntryMarker for Entry {
    open spec fn spec_cqe(&self) -> sys::io_uring_cqe {
        self.0
    }

    open spec fn spec_zeroed() -> Self {
        Entry(sys::io_uring_cqe { user_data: 0, res: 0, flags: 0 })
    }

    open spec fn spec_from_cqe(cqe: sys::io_uring_cqe) -> Self {
        Entry(cqe)
    }

    open spec fn spec_build_flags() -> u32 {
        0
    }

    fn zeroed() -> (r: Self) {
        Entry(sys::io_uring_cqe { user_data: 0, res: 0, flags: 0 })
    }

    fn from_cqe(cqe: sys::io_uring_cqe) -> (r: Self) {
        Entry(cqe)
    }

    fn duplicate(&self) -> (r: Self) {
        *self
    }

    fn build_flags() -> (r: u32) {
        0
    }

    fn to_entry(self) -> (r: Entry) {
        self
    }
}

impl Entry32 {
    /// The operation-specific result code.
    pub fn result(&self) -> (r: i32)
        ensures
            r == self.0.0.res,
    {
        self.0.0.res
    }

    /// The user data of the request.
    pub fn user_data(&self) -> (r: u64)
        ensures
            r == self.0.0.user_data,
    {
        self.0.0.user_data
    }

    /// Metadata related to the operation.
    pub fn flags(&self) -> (r: u32)
        ensures
            r == self.0.0.flags,
    {
        self.0.0.flags
    }

    /// Additional data available in 32-byte CQEs.
    pub fn big_cqe(&self) -> (r: &[u64; 2])
        ensures
            *r == self.1,
    {
        &self.1
    }
}

impl private::Sealed for Entry32 {}

impl EntryMarker for Entry32 {
    open spec fn spec_cqe(&self) -> sys::io_uring_cqe {
        self.0.0
    }

    open spec fn spec_zeroed() -> Self {
        Entry32(Entry(sys::io_uring_cqe { user_data: 0, res: 0, flags: 0 }), [0u64, 0u64])
    }

    open spec fn spec_from_cqe(cqe: sys::io_uring_cqe) -> Self {
        Entry32(Entry(cqe), [0u64, 0u64])
    }

    open spec fn spec_build_flags() -> u32 {
        sys::IORING_SETUP_CQE32
    }

    fn zeroed() -> (r: Self) {
        Entry32(Entry(sys::io_uring_cqe { user_data: 0, res: 0, flags: 0 }), [0u64, 0u64])
    }

    fn from_cqe(cqe: sys::io_uring_cqe) -> (r: Self) {
        Entry32(Entry(cqe), [0u64, 0u64])
    }

    fn duplicate(&self) -> (r: Self) {
        *self
    }

    fn build_flags() -> (r: u32) {
        sys::IORING_SETUP_CQE32
    }

    fn to_entry(self) -> (r: Entry) {
        self.0
    }
}

impl From<Entry32> for Entry {
    /// The 16-byte entry at the start of a 32-byte one.
    fn from(entry32: Entry32) -> (r: Entry) {
        entry32.0
    }
}

impl vstd::std_specs::convert::FromSpecImpl<Entry32> for Entry {
    open spec fn obeys_from_spec() -> bool {
        true
    }

    open spec fn from_spec(entry32: Entry32) -> Entry {
        entry32.0
    }
}

/// An io_uring instance's completion queue. This stores all the I/O operations that have
/// completed.
///
/// Entries between `head` and `tail` are ready to be reaped; positions wrap at `2^32` and
/// select a slot by masking with `ring_mask`, the ring having a power-of-two number of slots.
pub struct CompletionQueue<E> {
    head: u32,
    tail: u32,
    ring_mask: u32,
    ring_entries: u32,
    overflow: u32,
    flags: u32,
    cqes: Vec<E>,
    log_entries: Ghost<nat>,
}

impl<E> View for CompletionQueue<E> {
    type V = Seq<E>;

    /// The completions ready to be reaped, oldest first.
    closed spec fn view(&self) -> Seq<E> {
        Seq::new(
            ring_distance(self.head, self.tail),
            |i: int| self.cqes@[ring_slot(self.head as int + i, self.ring_entries as int)],
        )
    }
}

impl<E: EntryMarker> CompletionQueue<E> {
    /// The ring's layout invariant: a power-of-two number of slots, a matching mask, and no
    /// more ready completions than slots.
    pub closed spec fn wf(&self) -> bool {
        &&& self.log_entries@ <= 31
        &&& self.ring_entries as int == pow2(self.log_entries@)
        &&& self.ring_mask as int == low_bits_mask(self.log_entries@)
        &&& self.cqes@.len() == self.ring_entries
        &&& ring_distance(self.head, self.tail) <= self.ring_entries
    }

    /// The number of slots of the ring.
    pub closed spec fn spec_capacity(&self) -> nat {
        self.ring_entries as nat
    }

    /// The number of completions that did not fit in the ring.
    pub closed spec fn spec_overflow(&self) -> u32 {
        self.overflow
    }

    /// The ring flags word (`IORING_CQ_*`).
    pub closed spec fn spec_flags(&self) -> u32 {
        self.flags
    }

    /// Facts that follow from the layout invariant.
    pub proof fn lemma_wf(&self)
        requires
            self.wf(),
        ensures
            self@.len() <= self.spec_capacity(),
            1 <= self.spec_capacity() <= 0x8000_0000,
    {
        lemma_pow2_u32(self.log_entries@);
    }

    /// A ring of `pow2(log_entries)` empty slots.
    pub(crate) fn new(entries: u32, Ghost(log_entries): Ghost<nat>) -> (r: Self)
        requires
            log_entries <= 31,
            entries as int == pow2(log_entries),
        ensures
            r.wf(),
            r@ == Seq::<E>::empty(),
            r.spec_capacity() == entries,
            r.spec_overflow() == 0,
            r.spec_flags() == 0,
    {
        proof {
            lemma_pow2_u32(log_entries);
        }
        let mut cqes: Vec<E> = Vec::new();
        let mut i: u32 = 0;
        while i < entries
            invariant
                i <= entries,
                cqes@.len() == i,
            decreases entries - i,
        {
            cqes.push(E::zeroed());
            i = i + 1;
        }
        let r = CompletionQueue {
            head: 0,
            tail: 0,
            ring_mask: entries - 1,
            ring_entries: entries,
            overflow: 0,
            flags: 0,
            cqes,
            log_entries: Ghost(log_entries),
        };
        assert(r@ =~= Seq::<E>::empty());
        r
    }

    /// Synchronize this type with the real completion queue.
    ///
    /// Reaped entries are released as they are reaped, so this leaves the queue as it is.
    pub fn sync(&mut self)
        ensures
            *final(self) == *old(self),
    {
    }

    /// If queue is full and [`is_feature_nodrop`](crate::Parameters::is_feature_nodrop) is not set,
    /// new events may be dropped. This records the number of dropped events.
    pub fn overflow(&self) -> (r: u32)
        ensures
            r == self.spec_overflow(),
    {
        self.overflow
    }

    /// Whether eventfd notifications are disabled.
    pub fn eventfd_disabled(&self) -> (r: bool)
        ensures
            r == (self.spec_flags() & sys::IORING_CQ_EVENTFD_DISABLED != 0),
    {
        self.flags & sys::IORING_CQ_EVENTFD_DISABLED != 0
    }

    /// Get the total number of entries in the completion queue ring buffer.
    pub fn capacity(&self) -> (r: usize)
        ensures
            r == self.spec_capacity(),
    {
        self.ring_entries as usize
    }

    /// The number of completion queue events ready to be reaped.
    pub fn len(&self) -> (r: usize)
        requires
            self.wf(),
        ensures
            r == self@.len(),
    {
        proof {
            lemma_wrapping_sub_is_distance(self.head, self.tail);
            lemma_pow2_u32(self.log_entries@);
        }
        self.tail.wrapping_sub(self.head) as usize
    }

    /// Returns `true` if there are no completion queue events to be processed.
    pub fn is_empty(&self) -> (r: bool)
        requires
            self.wf(),
        ensures
            r == (self@.len() == 0),
    {
        self.len() == 0
    }

    /// Returns `true` if the completion queue is at maximum capacity.
    pub fn is_full(&self) -> (r: bool)
        requires
            self.wf(),
        ensures
            r == (self@.len() == self.spec_capacity()),
    {
        self.len() == self.capacity()
    }

    /// Bounds on the number of remaining completions, both equal to [`len`](Self::len).
    pub fn size_hint(&self) -> (r: (usize, Option<usize>))
        requires
            self.wf(),
        ensures
            r.0 == self@.len(),
            r.1 == Some(self@.len() as usize),
    {
        let n = self.len();
        (n, Some(n))
    }

    /// Reap the oldest ready completion, if any.
    pub fn next(&mut self) -> (r: Option<E>)
        requires
            old(self).wf(),
        ensures
            final(self).wf(),
            final(self).spec_capacity() == old(self).spec_capacity(),
            final(self).spec_overflow() == old(self).spec_overflow(),
            final(self).spec_flags() == old(self).spec_flags(),
            old(self)@.len() == 0 ==> r is None && final(self)@ == old(self)@,
            old(self)@.len() > 0 ==> r == Some(old(self)@[0]) && final(self)@ == old(self)@.drop_first(),
    {
        if self.head != self.tail {
            proof {
                if ring_distance(self.head, self.tail) == 0 {
                    lemma_distance_advance(self.head, self.tail);
                    vstd::arithmetic::div_mod::lemma_small_mod(self.head as nat, u32_period() as nat);
                }
            }
            Some(self.pop())
        } else {
            None
        }
    }

    /// Copy ready completions into `entries`, oldest first, as many as are ready and fit.
    /// Returns how many were copied; the rest of `entries` is left as it was.
    pub fn fill(&mut self, entries: &mut Vec<E>) -> (n: usize)
        requires
            old(self).wf(),
        ensures
            final(self).wf(),
            final(self).spec_capacity() == old(self).spec_capacity(),
            final(self).spec_overflow() == old(self).spec_overflow(),
            final(self).spec_flags() == old(self).spec_flags(),
            n == if old(self)@.len() < old(entries)@.len() { old(self)@.len() } else { old(entries)@.len() },
            final(self)@ == old(self)@.skip(n as int),
            final(entries)@ == old(self)@.take(n as int) + old(entries)@.skip(n as int),
    {
        let len = if self.len() < entries.len() { self.len() } else { entries.len() };
        let ghost start = self@;
        let ghost start_entries = entries@;
        let mut i: usize = 0;
        while i < len
            invariant
                self.wf(),
                self.spec_capacity() == old(self).spec_capacity(),
                self.spec_overflow() == old(self).spec_overflow(),
                self.spec_flags() == old(self).spec_flags(),
                start == old(self)@,
                start_entries == old(entries)@,
                len <= start.len(),
                len <= start_entries.len(),
                i <= len,
                entries@.len() == start_entries.len(),
                self@ == start.skip(i as int),
                entries@ == start.take(i as int) + start_entries.skip(i as int),
            decreases len - i,
        {
            assert(self@.len() == start.len() - i);
            proof {
                self.lemma_wf();
                lemma_pow2_u32(self.log_entries@);
                if ring_distance(self.head, self.tail) == 0 {
                    assert(false);
                }
            }
            let e = self.pop();
            entries.set(i, e);
            i = i + 1;
            assert(self@ =~= start.skip(i as int));
            assert(entries@ =~= start.take(i as int) + start_entries.skip(i as int));
        }
        len
    }

    fn pop(&mut self) -> (r: E)
        requires
            old(self).wf(),
            old(self)@.len() > 0,
        ensures
            final(self).wf(),
            final(self).spec_capacity() == old(self).spec_capacity(),
            final(self).spec_overflow() == old(self).spec_overflow(),
            final(self).spec_flags() == old(self).spec_flags(),
            r == old(self)@[0],
            final(self)@ == old(self)@.drop_first(),
    {
        let ghost len = ring_distance(self.head, self.tail);
        let ghost n = self.ring_entries as int;
        let ghost old_view = self@;
        let ghost old_head = self.head;
        proof {
            lemma_pow2_u32(self.log_entries@);
            lemma_mask_selects_slot(self.head, 0, self.log_entries@);
            vstd::arithmetic::div_mod::lemma_small_mod(self.head as nat, u32_period() as nat);
        }
        assert(ring_advance(self.head, 0) == self.head);
        let slot = (self.head & self.ring_mask) as usize;
        assert(slot == ring_slot(self.head as int + 0, n));
        let e = self.cqes[slot].duplicate();
        proof {
            lemma_wrapping_add_is_advance(self.head, 1);
            lemma_pop_front(self.head, self.tail);
        }
        self.head = self.head.wrapping_add(1);
        assert forall|j: int| 0 <= j < len - 1 implies #[trigger] self@[j] == old_view[j + 1] by {
            lemma_advance_slot(old_head, 1, j, self.log_entries@);
        }
        assert(self@ =~= old_view.drop_first());
        e
    }

    /// Write a completion at the tail of the ring if there is room; otherwise count it as
    /// overflowed. Returns whether it was written. This is the producing side of the ring.
    pub(crate) fn post(&mut self, cqe: sys::io_uring_cqe) -> (posted: bool)
        requires
            old(self).wf(),
        ensures
            final(self).wf(),
            final(self).spec_capacity() == old(self).spec_capacity(),
            final(self).spec_flags() == old(self).spec_flags(),
            posted == (old(self)@.len() < old(self).spec_capacity()),
            posted ==> final(self)@ == old(self)@.push(E::spec_from_cqe(cqe))
                && final(self).spec_overflow() == old(self).spec_overflow(),
            !posted ==> final(self)@ == old(self)@
                && final(self).spec_overflow() == old(self).spec_overflow().wrapping_add(1),
    {
        proof {
            lemma_wrapping_sub_is_distance(self.head, self.tail);
        }
        let cq_len = self.tail.wrapping_sub(self.head);
        if cq_len >= self.ring_entries {
            self.overflow = self.overflow.wrapping_add(1);
            return false;
        }
        let ghost len = ring_distance(self.head, self.tail);
        let ghost n = self.ring_entries as int;
        let ghost old_view = self@;
        proof {
            lemma_pow2_u32(self.log_entries@);
            lemma_distance_advance(self.head, self.tail);
            lemma_mask_selects_slot(self.head, len, self.log_entries@);
        }
        let slot = (self.tail & self.ring_mask) as usize;
        assert(slot == ring_slot(self.head as int + len, n));
        self.cqes.set(slot, E::from_cqe(cqe));
        proof {
            lemma_wrapping_add_is_advance(self.tail, 1);
            lemma_push_back(self.head, self.tail);
        }
        self.tail = self.tail.wrapping_add(1);
        assert forall|i: int| 0 <= i < len implies #[trigger] self@[i] == old_view[i] by {
            lemma_slots_distinct(self.head as int, i, len as int, n);
        }
        assert(self@ =~= old_view.push(E::spec_from_cqe(cqe)));
        true
    }
}

/// Return whether the buffer will be reused by future CQE completions.
pub fn buffer_more(flags: u32) -> (r: bool)
    ensures
        r == (flags & sys::IORING_CQE_F_BUF_MORE != 0),
{
    flags & sys::IORING_CQE_F_BUF_MORE != 0
}

/// Return which dynamic buffer was used by this operation.
pub fn buffer_select(flags: u32) -> (r: Option<u16>)
    ensures
        flags & sys::IORING_CQE_F_BUFFER != 0 ==> r == Some((flags >> sys::IORING_CQE_BUFFER_SHIFT) as u16),
        flags & sys::IORING_CQE_F_BUFFER == 0 ==> r is None,
{
    if flags & sys::IORING_CQE_F_BUFFER != 0 {
        let id = flags >> sys::IORING_CQE_BUFFER_SHIFT;
        Some(id as u16)
    } else {
        None
    }
}

/// Return whether further completion events will be submitted for this same operation.
pub fn more(flags: u32) -> (r: bool)
    ensures
        r == (flags & sys::IORING_CQE_F_MORE != 0),
{
    flags & sys::IORING_CQE_F_MORE != 0
}

/// Return whether socket has more data ready to read.
pub fn sock_nonempty(flags: u32) -> (r: bool)
    ensures
        r == (flags & sys::IORING_CQE_F_SOCK_NONEMPTY != 0),
{
    flags & sys::IORING_CQE_F_SOCK_NONEMPTY != 0
}

/// Returns whether this completion event is a notification.
pub fn notif(flags: u32) -> (r: bool)
    ensures
        r == (flags & sys::IORING_CQE_F_NOTIF != 0),
{
    flags & sys::IORING_CQE_F_NOTIF != 0
}

} // verus!
