//! Submission Queue

use crate::sys;
use crate::util::private;
use crate::util::{
    lemma_advance_advance, lemma_advance_distance, lemma_advance_slot, lemma_distance_advance,
    lemma_pop_front, lemma_push_back,
    lemma_mask_selects_slot, lemma_pow2_u32, lemma_slots_distinct, lemma_wrapping_add_is_advance,
    lemma_wrapping_sub_is_distance, ring_advance, ring_distance, ring_slot, u32_period,
};
use vstd::arithmetic::power2::pow2;
use vstd::bits::low_bits_mask;
use vstd::prelude::*;

verus! {

/// A submission queue entry (SQE), representing a request for an I/O operation.
///
/// This is implemented for [`Entry`] and [`Entry128`].
pub trait EntryMarker: Sized + private::Sealed {
    /// The 64-byte SQE at the start of this entry.
    spec fn spec_sqe(&self) -> sys::io_uring_sqe;

    /// The entry a freshly allocated ring slot holds.
    spec fn spec_zeroed() -> Self;

    /// Setup flags a ring using this entry type is built with.
    spec fn spec_build_flags() -> u32;

    /// Entry built from a 64-byte SQE.
    spec fn spec_from_entry(entry: Entry) -> Self;

    fn zeroed() -> (r: Self)
        ensures
            r == Self::spec_zeroed(),
    ;

    fn sqe(&self) -> (r: sys::io_uring_sqe)
        ensures
            r == self.spec_sqe(),
    ;

    fn duplicate(&self) -> (r: Self)
        ensures
            r == *self,
    ;

    fn build_flags() -> (r: u32)
        ensures
            r == Self::spec_build_flags(),
    ;

    fn from_entry(entry: Entry) -> (r: Self)
        ensures
            r == Self::spec_from_entry(entry),
            r.spec_sqe() == entry.0,
    ;
}

/// A 64-byte submission queue entry (SQE), representing a request for an I/O operation.
///
/// These can be created via opcodes in [`opcode`](crate::opcode).
#[derive(Clone, Copy, Debug)]
pub struct Entry(pub sys::io_uring_sqe);

/// A 128-byte submission queue entry (SQE), representing a request for an I/O operation.
///
/// These can be created via opcodes in [`opcode`](crate::opcode).
#[derive(Clone, Copy, Debug)]
pub struct Entry128(pub Entry, pub [u8; 64]);

/// Submission flags.
#[derive(Clone, Copy, Debug, PartialEq, Eq, Structural)]
pub struct Flags {
    bits: u8,
}

impl Flags {
    /// The raw flag bits.
    pub closed spec fn spec_bits(&self) -> u8 {
        self.bits
    }

    /// The raw flag bits.
    pub fn bits(&self) -> (r: u8)
        ensures
            r == self.spec_bits(),
    {
        self.bits
    }

    /// Flags holding exactly the given bits.
    pub fn from_bits_retain(bits: u8) -> (r: Flags)
        ensures
            r.spec_bits() == bits,
    {
        Flags { bits }
    }

    /// No flags.
    pub fn empty() -> (r: Flags)
        ensures
            r.spec_bits() == 0,
    {
        Flags { bits: 0 }
    }

    /// The union of two sets of flags.
    pub fn union(self, other: Flags) -> (r: Flags)
        ensures
            r.spec_bits() == self.spec_bits() | other.spec_bits(),
    {
        Flags { bits: self.bits | other.bits }
    }

    /// Whether every flag of `other` is set in `self`.
    pub fn contains(&self, other: Flags) -> (r: bool)
        ensures
            r == (self.spec_bits() & other.spec_bits() == other.spec_bits()),
    {
        self.bits & other.bits == other.bits
    }

    /// When this flag is specified, `fd` is an index into the files array registered with
    /// the io_uring instance.
    #[allow(non_snake_case)]
    pub fn FIXED_FILE() -> (r: Flags)
        ensures
            r.spec_bits() == 1,
    {
        Flags { bits: 1 }
    }

    /// The entry is started only after all previously submitted entries have completed.
    #[allow(non_snake_case)]
    pub fn IO_DRAIN() -> (r: Flags)
        ensures
            r.spec_bits() == 2,
    {
        Flags { bits: 2 }
    }

    /// The next entry in the submission ring depends on this one (soft link).
    #[allow(non_snake_case)]
    pub fn IO_LINK() -> (r: Flags)
        ensures
            r.spec_bits() == 4,
    {
        Flags { bits: 4 }
    }

    /// Like [`IO_LINK`](Self::IO_LINK), but the chain is not severed when this entry fails.
    #[allow(non_snake_case)]
    pub fn IO_HARDLINK() -> (r: Flags)
        ensures
            r.spec_bits() == 8,
    {
        Flags { bits: 8 }
    }

    /// Always issue the request asynchronously.
    #[allow(non_snake_case)]
    pub fn ASYNC() -> (r: Flags)
        ensures
            r.spec_bits() == 16,
    {
        Flags { bits: 16 }
    }

    /// Use a registered buffer group for this request.
    #[allow(non_snake_case)]
    pub fn BUFFER_SELECT() -> (r: Flags)
        ensures
            r.spec_bits() == 32,
    {
        Flags { bits: 32 }
    }

    /// Do not post a completion event when the request succeeds.
    #[allow(non_snake_case)]
    pub fn SKIP_SUCCESS() -> (r: Flags)
        ensures
            r.spec_bits() == 64,
    {
        Flags { bits: 64 }
    }
}

impl Entry {
    /// Set the submission event's [flags](Flags).
    pub fn flags(self, flags: Flags) -> (r: Entry)
        ensures
            r.0 == (sys::io_uring_sqe { flags: self.0.flags | flags.spec_bits(), ..self.0 }),
    {
        let mut e = self;
        e.0.flags = e.0.flags | flags.bits();
        e
    }

    /// Clear the submission event's [flags](Flags).
    pub fn clear_flags(self) -> (r: Entry)
        ensures
            r.0 == (sys::io_uring_sqe { flags: 0, ..self.0 }),
    {
        let mut e = self;
        e.0.flags = 0;
        e
    }

    /// Set the user data.
    pub fn user_data(self, user_data: u64) -> (r: Entry)
        ensures
            r.0 == (sys::io_uring_sqe { user_data: user_data, ..self.0 }),
    {
        let mut e = self;
        e.0.user_data = user_data;
        e
    }

    /// Set the user data without consuming the entry.
    pub fn set_user_data(&mut self, user_data: u64)
        ensures
            final(self).0 == (sys::io_uring_sqe { user_data: user_data, ..old(self).0 }),
    {
        self.0.user_data = user_data;
    }

    /// Get the previously application-supplied user data.
    pub fn get_user_data(&self) -> (r: u64)
        ensures
            r == self.0.user_data,
    {
        self.0.user_data
    }

    /// Get the opcode associated with this entry.
    pub fn get_opcode(&self) -> (r: u32)
        ensures
            r == self.0.opcode as u32,
    {
        self.0.opcode as u32
    }

    /// Set the personality of this event.
    pub fn personality(self, personality: u16) -> (r: Entry)
        ensures
            r.0 == (sys::io_uring_sqe { personality: personality, ..self.0 }),
    {
        let mut e = self;
        e.0.personality = personality;
        e
    }
}

impl private::Sealed for Entry {}

impl EntryMarker for Entry {
    open spec fn spec_sqe(&self) -> sys::io_uring_sqe {
        self.0
    }

    open spec fn spec_zeroed() -> Self {
        Entry(sys::sqe_zeroed())
    }

    open spec fn spec_build_flags() -> u32 {
        0
    }

    open spec fn spec_from_entry(entry: Entry) -> Self {
        entry
    }

    fn zeroed() -> (r: Self) {
        Entry(sys::io_uring_sqe::zeroed())
    }

    fn sqe(&self) -> (r: sys::io_uring_sqe) {
        self.0
    }

    fn duplicate(&self) -> (r: Self) {
        *self
    }

    fn build_flags() -> (r: u32) {
        0
    }

    fn from_entry(entry: Entry) -> (r: Self) {
        entry
    }
}

impl Entry128 {
    /// Set the submission event's [flags](Flags).
    pub fn flags(self, flags: Flags) -> (r: Entry128)
        ensures
            r.0.0 == (sys::io_uring_sqe { flags: self.0.0.flags | flags.spec_bits(), ..self.0.0 }),
            r.1 == self.1,
    {
        let mut e = self;
        e.0.0.flags = e.0.0.flags | flags.bits();
        e
    }

    /// Clear the submission event's [flags](Flags).
    pub fn clear_flags(self) -> (r: Entry128)
        ensures
            r.0.0 == (sys::io_uring_sqe { flags: 0, ..self.0.0 }),
            r.1 == self.1,
    {
        let mut e = self;
        e.0.0.flags = 0;
        e
    }

    /// Set the user data.
    pub fn user_data(self, user_data: u64) -> (r: Entry128)
        ensures
            r.0.0 == (sys::io_uring_sqe { user_data: user_data, ..self.0.0 }),
            r.1 == self.1,
    {
        let mut e = self;
        e.0.0.user_data = user_data;
        e
    }

    /// Set the user data without consuming the entry.
    pub fn set_user_data(&mut self, user_data: u64)
        ensures
            final(self).0.0 == (sys::io_uring_sqe { user_data: user_data, ..old(self).0.0 }),
            final(self).1 == old(self).1,
    {
        self.0.0.user_data = user_data;
    }

    /// Set the personality of this event.
    pub fn personality(self, personality: u16) -> (r: Entry128)
        ensures
            r.0.0 == (sys::io_uring_sqe { personality: personality, ..self.0.0 }),
            r.1 == self.1,
    {
        let mut e = self;
        e.0.0.personality = personality;
        e
    }

    /// Get the opcode associated with this entry.
    pub fn get_opcode(&self) -> (r: u32)
        ensures
            r == self.0.0.opcode as u32,
    {
        self.0.0.opcode as u32
    }
}

/// The all-zero upper half of a 128-byte entry.
pub open spec fn zero_tail() -> [u8; 64] {
    vstd::array::spec_array_fill_for_copy_type::<u8, 64>(0u8)
}

impl private::Sealed for Entry128 {}

impl EntryMarker for Entry128 {
    open spec fn spec_sqe(&self) -> sys::io_uring_sqe {
        self.0.0
    }

    open spec fn spec_zeroed() -> Self {
        Entry128(Entry(sys::sqe_zeroed()), zero_tail())
    }

    open spec fn spec_build_flags() -> u32 {
        sys::IORING_SETUP_SQE128
    }

    open spec fn spec_from_entry(entry: Entry) -> Self {
        Entry128(entry, zero_tail())
    }

    fn zeroed() -> (r: Self) {
        Entry128(Entry(sys::io_uring_sqe::zeroed()), [0u8; 64])
    }

    fn sqe(&self) -> (r: sys::io_uring_sqe) {
        self.0.0
    }

    fn duplicate(&self) -> (r: Self) {
        *self
    }

    fn build_flags() -> (r: u32) {
        sys::IORING_SETUP_SQE128
    }

    fn from_entry(entry: Entry) -> (r: Self) {
        Entry128(entry, [0u8; 64])
    }
}

impl From<Entry> for Entry128 {
    /// Widen a 64-byte entry, with the extra command bytes zeroed.
    fn from(entry: Entry) -> (r: Entry128) {
        Entry128(entry, [0u8; 64])
    }
}

impl vstd::std_specs::convert::FromSpecImpl<Entry> for Entry128 {
    open spec fn obeys_from_spec() -> bool {
        true
    }

    open spec fn from_spec(entry: Entry) -> Entry128 {
        Entry128(entry, zero_tail())
    }
}

/// An error pushing to the submission queue due to it being full.
#[derive(Debug, Clone, Copy, PartialEq, Eq, Structural)]
#[non_exhaustive]
pub struct PushError;

impl PushError {
    /// The message this error displays.
    pub fn message(&self) -> (r: &'static str)
        ensures
            r@ == "submission queue is full"@,
    {
        "submission queue is full"
    }
}


/// An io_uring instance's submission queue. This is used to send I/O requests to the kernel.
///
/// Entries between `head` and `tail` are queued; positions wrap at `2^32` and select a slot by
/// masking with `ring_mask`, the ring having a power-of-two number of slots.
pub struct SubmissionQueue<E> {
    head: u32,
    tail: u32,
    ring_mask: u32,
    ring_entries: u32,
    flags: u32,
    dropped: u32,
    sqes: Vec<E>,
    log_entries: Ghost<nat>,
}

impl<E> View for SubmissionQueue<E> {
    type V = Seq<E>;

    /// The queued entries, oldest first.
    closed spec fn view(&self) -> Seq<E> {
        Seq::new(
            ring_distance(self.head, self.tail),
            |i: int| self.sqes@[ring_slot(self.head as int + i, self.ring_entries as int)],
        )
    }
}

impl<E: EntryMarker> SubmissionQueue<E> {
    /// The ring's layout invariant: a power-of-two number of slots, a matching mask, and no
    /// more queued entries than slots.
    pub closed spec fn wf(&self) -> bool {
        &&& self.log_entries@ <= 31
        &&& self.ring_entries as int == pow2(self.log_entries@)
        &&& self.ring_mask as int == low_bits_mask(self.log_entries@)
        &&& self.sqes@.len() == self.ring_entries
        &&& ring_distance(self.head, self.tail) <= self.ring_entries
    }

    /// The number of slots of the ring.
    pub closed spec fn spec_capacity(&self) -> nat {
        self.ring_entries as nat
    }

    /// The ring flags word (`IORING_SQ_*`).
    pub closed spec fn spec_flags(&self) -> u32 {
        self.flags
    }

    /// The number of invalid entries the kernel side has dropped.
    pub closed spec fn spec_dropped(&self) -> u32 {
        self.dropped
    }

    /// The state of the ring apart from its queued entries.
    pub open spec fn same_setup(&self, other: &Self) -> bool {
        &&& self.spec_capacity() == other.spec_capacity()
        &&& self.spec_flags() == other.spec_flags()
        &&& self.spec_dropped() == other.spec_dropped()
    }

    /// Facts that follow from the layout invariant.
    pub proof fn lemma_wf(&self)
        requires
            self.wf(),
        ensures
            self@.len() <= self.spec_capacity(),
            1 <= self.spec_capacity() <= 0x8000_0000,
    {
        lemma_pow2_u32(self.log_entries@);
    }

    /// A ring of `pow2(log_entries)` empty slots.
    pub(crate) fn new(entries: u32, Ghost(log_entries): Ghost<nat>) -> (r: Self)
        requires
            log_entries <= 31,
            entries as int == pow2(log_entries),
        ensures
            r.wf(),
            r@ == Seq::<E>::empty(),
            r.spec_capacity() == entries,
            r.spec_flags() == 0,
            r.spec_dropped() == 0,
    {
        proof {
            lemma_pow2_u32(log_entries);
        }
        let mut sqes: Vec<E> = Vec::new();
        let mut i: u32 = 0;
        while i < entries
            invariant
                i <= entries,
                sqes@.len() == i,
            decreases entries - i,
        {
            sqes.push(E::zeroed());
            i = i + 1;
        }
        let r = SubmissionQueue {
            head: 0,
            tail: 0,
            ring_mask: entries - 1,
            ring_entries: entries,
            flags: 0,
            dropped: 0,
            sqes,
            log_entries: Ghost(log_entries),
        };
        assert(r@ =~= Seq::<E>::empty());
        r
    }

    /// Synchronize this type with the real submission queue.
    ///
    /// Pushed entries are published as they are pushed, so this leaves the queue as it is.
    pub fn sync(&mut self)
        ensures
            *final(self) == *old(self),
    {
    }

    /// When [`is_setup_sqpoll`](crate::Parameters::is_setup_sqpoll) is set, whether the kernel
    /// thread has gone to sleep and requires a system call to wake it up.
    pub fn need_wakeup(&self) -> (r: bool)
        ensures
            r == (self.spec_flags() & sys::IORING_SQ_NEED_WAKEUP != 0),
    {
        self.flags & sys::IORING_SQ_NEED_WAKEUP != 0
    }

    /// The effect of [`Self::need_wakeup`], after synchronization work performed by the caller.
    pub fn need_wakeup_after_intermittent_seqcst(&self) -> (r: bool)
        ensures
            r == (self.spec_flags() & sys::IORING_SQ_NEED_WAKEUP != 0),
    {
        self.flags & sys::IORING_SQ_NEED_WAKEUP != 0
    }

    /// The number of invalid submission queue entries that have been encountered.
    pub fn dropped(&self) -> (r: u32)
        ensures
            r == self.spec_dropped(),
    {
        self.dropped
    }

    /// Returns `true` if the completion queue ring is overflown.
    pub fn cq_overflow(&self) -> (r: bool)
        ensures
            r == (self.spec_flags() & sys::IORING_SQ_CQ_OVERFLOW != 0),
    {
        self.flags & sys::IORING_SQ_CQ_OVERFLOW != 0
    }

    /// Returns `true` if completions are pending that should be processed.
    pub fn taskrun(&self) -> (r: bool)
        ensures
            r == (self.spec_flags() & sys::IORING_SQ_TASKRUN != 0),
    {
        self.flags & sys::IORING_SQ_TASKRUN != 0
    }

    /// Get the total number of entries in the submission queue ring buffer.
    pub fn capacity(&self) -> (r: usize)
        ensures
            r == self.spec_capacity(),
    {
        self.ring_entries as usize
    }

    /// Get the number of submission queue events in the ring buffer.
    pub fn len(&self) -> (r: usize)
        requires
            self.wf(),
        ensures
            r == self@.len(),
    {
        proof {
            lemma_wrapping_sub_is_distance(self.head, self.tail);
            lemma_pow2_u32(self.log_entries@);
        }
        self.tail.wrapping_sub(self.head) as usize
    }

    /// Returns `true` if the submission queue ring buffer is empty.
    pub fn is_empty(&self) -> (r: bool)
        requires
            self.wf(),
        ensures
            r == (self@.len() == 0),
    {
        self.len() == 0
    }

    /// Returns `true` if the submission queue ring buffer has reached capacity.
    pub fn is_full(&self) -> (r: bool)
        requires
            self.wf(),
        ensures
            r == (self@.len() == self.spec_capacity()),
    {
        self.len() == self.capacity()
    }

    /// Attempts to push an entry into the queue.
    /// If the queue is full, an error is returned.
    pub fn push(&mut self, entry: &E) -> (r: Result<(), PushError>)
        requires
            old(self).wf(),
        ensures
            final(self).wf(),
            final(self).same_setup(old(self)),
            (r is Ok) == (old(self)@.len() < old(self).spec_capacity()),
            r is Ok ==> final(self)@ == old(self)@.push(*entry),
            r is Err ==> *final(self) == *old(self),
    {
        if !self.is_full() {
            self.push_unchecked(entry);
            Ok(())
        } else {
            Err(PushError)
        }
    }

    /// Attempts to push several entries into the queue.
    /// If they do not all fit, none is pushed and an error is returned.
    pub fn push_multiple(&mut self, entries: &[E]) -> (r: Result<(), PushError>)
        requires
            old(self).wf(),
        ensures
            final(self).wf(),
            final(self).same_setup(old(self)),
            (r is Ok) == (old(self)@.len() + entries@.len() <= old(self).spec_capacity()),
            r is Ok ==> final(self)@ == old(self)@ + entries@,
            r is Err ==> *final(self) == *old(self),
    {
        proof {
            self.lemma_wf();
        }
        if self.capacity() - self.len() < entries.len() {
            return Err(PushError);
        }
        let ghost start = self@;
        let mut i: usize = 0;
        while i < entries.len()
            invariant
                self.wf(),
                self.same_setup(old(self)),
                i <= entries@.len(),
                start == old(self)@,
                old(self)@.len() + entries@.len() <= self.spec_capacity(),
                self@ == start + entries@.subrange(0, i as int),
            decreases entries@.len() - i,
        {
            proof {
                self.lemma_wf();
            }
            self.push_unchecked(&entries[i]);
            i = i + 1;
            assert(self@ =~= start + entries@.subrange(0, i as int));
        }
        assert(entries@.subrange(0, entries@.len() as int) =~= entries@);
        Ok(())
    }

    fn push_unchecked(&mut self, entry: &E)
        requires
            old(self).wf(),
            old(self)@.len() < old(self).spec_capacity(),
        ensures
            final(self).wf(),
            final(self).same_setup(old(self)),
            final(self)@ == old(self)@.push(*entry),
    {
        let ghost len = ring_distance(self.head, self.tail);
        let ghost n = self.ring_entries as int;
        let ghost old_view = self@;
        proof {
            lemma_pow2_u32(self.log_entries@);
            lemma_distance_advance(self.head, self.tail);
            lemma_mask_selects_slot(self.head, len, self.log_entries@);
        }
        let slot = (self.tail & self.ring_mask) as usize;
        assert(slot == ring_slot(self.head as int + len, n));
        self.sqes.set(slot, entry.duplicate());
        proof {
            lemma_wrapping_add_is_advance(self.tail, 1);
            lemma_push_back(self.head, self.tail);
        }
        self.tail = self.tail.wrapping_add(1);
        assert forall|i: int| 0 <= i < len implies #[trigger] self@[i] == old_view[i] by {
            lemma_slots_distinct(self.head as int, i, len as int, n);
        }
        assert(self@ =~= old_view.push(*entry));
    }

    /// Removes up to `to_submit` entries from the front of the queue, returning their SQEs
    /// oldest first. This is the consuming side of the ring.
    pub(crate) fn take(&mut self, to_submit: u32) -> (r: Vec<sys::io_uring_sqe>)
        requires
            old(self).wf(),
        ensures
            final(self).wf(),
            final(self).same_setup(old(self)),
            r@.len() == if to_submit < old(self)@.len() { to_submit as nat } else { old(self)@.len() },
            final(self)@ == old(self)@.skip(r@.len() as int),
            r@ == old(self)@.take(r@.len() as int).map_values(|e: E| e.spec_sqe()),
    {
        proof {
            lemma_wrapping_sub_is_distance(self.head, self.tail);
            lemma_pow2_u32(self.log_entries@);
        }
        let pending = self.tail.wrapping_sub(self.head);
        let to_process = if to_submit < pending { to_submit } else { pending };
        let ghost start = self@;
        let mut out: Vec<sys::io_uring_sqe> = Vec::new();
        let mut i: u32 = 0;
        while i < to_process
            invariant
                self.wf(),
                self.same_setup(old(self)),
                start == old(self)@,
                to_process <= start.len(),
                i <= to_process,
                self@ == start.skip(i as int),
                out@ == start.take(i as int).map_values(|e: E| e.spec_sqe()),
            decreases to_process - i,
        {
            let ghost len = ring_distance(self.head, self.tail);
            let ghost n = self.ring_entries as int;
            let ghost old_view = self@;
            proof {
                lemma_pow2_u32(self.log_entries@);
                lemma_mask_selects_slot(self.head, 0, self.log_entries@);
                vstd::arithmetic::div_mod::lemma_small_mod(self.head as nat, u32_period() as nat);
            }
            assert(self@.len() == start.len() - i);
            assert(len >= 1);
            assert(ring_advance(self.head, 0) == self.head);
            let slot = (self.head & self.ring_mask) as usize;
            assert(slot == ring_slot(self.head as int + 0, n));
            assert(self@[0] == self.sqes@[slot as int]);
            assert(self@[0] == start[i as int]);
            let sqe = self.sqes[slot].sqe();
            assert(sqe == start[i as int].spec_sqe());
            out.push(sqe);
            let ghost old_head = self.head;
            proof {
                lemma_wrapping_add_is_advance(self.head, 1);
                lemma_pop_front(self.head, self.tail);
            }
            self.head = self.head.wrapping_add(1);
            assert forall|j: int| 0 <= j < len - 1 implies #[trigger] self@[j] == old_view[j + 1] by {
                lemma_advance_slot(old_head, 1, j, self.log_entries@);
            }
            assert(self@ =~= start.skip(i + 1));
            i = i + 1;
            assert(out@ =~= start.take(i as int).map_values(|e: E| e.spec_sqe()));
        }
        out
    }

    /// Sets bits in the ring flags word.
    pub(crate) fn raise_flags(&mut self, bits: u32)
        requires
            old(self).wf(),
        ensures
            final(self).wf(),
            final(self)@ == old(self)@,
            final(self).spec_capacity() == old(self).spec_capacity(),
            final(self).spec_dropped() == old(self).spec_dropped(),
            final(self).spec_flags() == old(self).spec_flags() | bits,
    {
        self.flags = self.flags | bits;
    }
}

} // verus!
