//! Probe support for querying supported operations.

use crate::sys;
use vstd::prelude::*;

verus! {

/// The number of opcodes a probe tracks.
pub open spec fn probe_count() -> nat {
    64
}

/// Probe structure for checking which opcodes are supported.
pub struct Probe {
    supported: [bool; 64],
}

impl Probe {
    /// Whether opcode `op` is marked as supported.
    pub closed spec fn spec_supports(&self, op: int) -> bool {
        0 <= op < 64 && self.supported@[op]
    }

    /// Create a new empty probe. Call [`Submitter::register_probe`](crate::Submitter::register_probe)
    /// to populate it.
    pub fn new() -> (r: Self)
        ensures
            forall|op: int| !r.spec_supports(op),
    {
        Probe { supported: [false; 64] }
    }

    /// Check if the given opcode is supported.
    pub fn is_supported(&self, opcode: u8) -> (r: bool)
        ensures
            r == self.spec_supports(opcode as int),
            opcode >= probe_count() ==> !r,
    {
        if (opcode as usize) < 64 {
            self.supported[opcode as usize]
        } else {
            false
        }
    }

    /// Mark all opcodes up to `last` as supported.
    pub(crate) fn set_supported_range(&mut self, last: u8)
        ensures
            forall|op: int| #[trigger] final(self).spec_supports(op) == (old(self).spec_supports(op) || (0 <= op <= last && op < 64)),
    {
        let top: u8 = if last < 63 { last } else { 63 };
        let mut i: u8 = 0;
        while i <= top
            invariant
                i <= top + 1,
                top < 64,
                top == (if last < 63 { last } else { 63u8 }),
                forall|op: int| #[trigger] self.spec_supports(op) == (old(self).spec_supports(op) || (0 <= op < i)),
            decreases top + 1 - i,
        {
            let ghost prev = *self;
            self.supported[i as usize] = true;
            assert forall|op: int| #[trigger] self.spec_supports(op) == (prev.spec_supports(op) || op == i) by {
                if 0 <= op < 64 && op != i {
                    assert(self.supported@[op] == prev.supported@[op]);
                }
            }
            i = i + 1;
        }
    }

    /// Mark a specific opcode as supported.
    pub(crate) fn set_supported(&mut self, opcode: u8)
        ensures
            forall|op: int| #[trigger] final(self).spec_supports(op) == (old(self).spec_supports(op) || (op == opcode && op < 64)),
    {
        if (opcode as usize) < 64 {
            self.supported[opcode as usize] = true;
        }
    }
}

impl Default for Probe {
    fn default() -> (r: Self)
        ensures
            forall|op: int| !r.spec_supports(op),
    {
        Probe::new()
    }
}

/// Restriction entry.
#[derive(Debug, Clone, Copy)]
pub struct Restriction(pub sys::io_uring_restriction);

impl Restriction {
    /// Restrict to allow only the given register opcode.
    pub fn register_op(op: u8) -> (r: Self)
        ensures
            r.0 == (sys::io_uring_restriction {
                opcode: 0,
                register_op: op,
                sqe_op: 0,
                sqe_flags: 0,
                resv: 0,
                resv2: [0u32, 0u32, 0u32],
            }),
    {
        Restriction(sys::io_uring_restriction {
            opcode: 0,
            register_op: op,
            sqe_op: 0,
            sqe_flags: 0,
            resv: 0,
            resv2: [0u32, 0u32, 0u32],
        })
    }

    /// Restrict to allow only the given SQE opcode.
    pub fn sqe_op(op: u8) -> (r: Self)
        ensures
            r.0 == (sys::io_uring_restriction {
                opcode: 1,
                register_op: 0,
                sqe_op: op,
                sqe_flags: 0,
                resv: 0,
                resv2: [0u32, 0u32, 0u32],
            }),
    {
        Restriction(sys::io_uring_restriction {
            opcode: 1,
            register_op: 0,
            sqe_op: op,
            sqe_flags: 0,
            resv: 0,
            resv2: [0u32, 0u32, 0u32],
        })
    }

    /// Restrict to allow only the given SQE flags.
    pub fn sqe_flags_allowed(flags: u8) -> (r: Self)
        ensures
            r.0 == (sys::io_uring_restriction {
                opcode: 2,
                register_op: 0,
                sqe_op: 0,
                sqe_flags: flags,
                resv: 0,
                resv2: [0u32, 0u32, 0u32],
            }),
    {
        Restriction(sys::io_uring_restriction {
            opcode: 2,
            register_op: 0,
            sqe_op: 0,
            sqe_flags: flags,
            resv: 0,
            resv2: [0u32, 0u32, 0u32],
        })
    }

    /// Restrict to require the given SQE flags.
    pub fn sqe_flags_required(flags: u8) -> (r: Self)
        ensures
            r.0 == (sys::io_uring_restriction {
                opcode: 3,
                register_op: 0,
                sqe_op: 0,
                sqe_flags: flags,
                resv: 0,
                resv2: [0u32, 0u32, 0u32],
            }),
    {
        Restriction(sys::io_uring_restriction {
            opcode: 3,
            register_op: 0,
            sqe_op: 0,
            sqe_flags: flags,
            resv: 0,
            resv2: [0u32, 0u32, 0u32],
        })
    }
}

} // verus!
