# miring

A userspace emulator of the io_uring submission/completion ring protocol, written in
Verus. Entries pushed on the submission queue are consumed on submission and kept as a
pending batch; reaping completions dispatches every pending batch in order and posts the
completions, following `IO_LINK`/`IO_HARDLINK` chains and `SKIP_SUCCESS`, and counting
completions that do not fit as overflowed.

Layout:

- `src/` — the verified library.
  - `squeue.rs`, `cqueue.rs`: the two rings, modelled as sequences of queued entries over a
    power-of-two array indexed by wrapping head/tail counters (`util.rs` holds the index
    arithmetic).
  - `submit.rs`: the kernel side; `submit/dispatch.rs` decides each operation's result,
    `submit/properties.rs` states and proves the properties of chains, completion posting
    and overflow.
  - `opcode.rs`: the operation builders and the entries they lay out.
  - `lib.rs`: `IoUring`, `Builder` and `Parameters`; `types.rs`, `register.rs`, `sys.rs`: the
    remaining API types and the kernel ABI structures.
- `app/` — what the library leaves to ordinary Rust: touching the user memory that entries
  point to (`app/memory.rs`), `bitflags` flag sets, and `std::io` errors.
- `tests/` — tests run against the compiled library.

Addresses that the kernel would dereference are carried as `u64`. Results that depend on
user memory (the iovec arrays of vectored and message operations) are computed from iovecs
handed in as plain values: `completion`, `submit_and_wait` and `enter` take a table of
them, batch by batch. `app::completion`, `app::submit_and_wait` and `app::enter` read that
table from memory and touch the buffers of every entry that runs; `app::Ring` does the same
for batches still pending when it is dropped.

Buffers handed over by `ProvideBuffers` are kept by the ring (`RemoveBuffers` takes out the
oldest of a group); a `Read`, `Recv` or
`ReadMulti` with `BUFFER_SELECT` takes the oldest buffer of its group and reports its id
in the completion flags (`IORING_CQE_F_BUFFER`), or completes with `-ENOBUFS`.
