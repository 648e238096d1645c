//! Behaviour of the library on chosen inputs: builders, queue edge cases, link chains,
//! completion suppression, overflow, and the entries each opcode builder lays out.

use miring::cqueue;
use miring::opcode;
use miring::squeue;
use miring::submit::dispatch::UserIovec;
use miring::sys;
use miring::types::{self, CancelBuilder, DestinationSlot, Fd, Fixed, RecvMsgOut, Timespec};
use miring::{Error, IoUring};

fn push_all(ring: &mut IoUring, entries: &[squeue::Entry]) {
    let sq = ring.submission();
    for e in entries {
        sq.push(e).unwrap();
    }
}

fn reap_all(ring: &mut IoUring) -> Vec<(u64, i32)> {
    let cq = ring.completion(&vec![]);
    let mut out = Vec::new();
    while let Some(cqe) = cq.next() {
        out.push((cqe.user_data(), cqe.result()));
    }
    out
}

fn failing_nop(user_data: u64) -> squeue::Entry {
    opcode::Nop::new().inject_result(-1i32 as u32).build().user_data(user_data)
}

// ---------------------------------------------------------------------------
// Building rings
// ---------------------------------------------------------------------------

#[test]
fn too_many_entries_is_error() {
    assert_eq!(IoUring::new(0x8001).err(), Some(Error::InvalidInput));
}

#[test]
fn largest_ring_caps_default_cq() {
    let ring = IoUring::new(0x8000).unwrap();
    assert_eq!(ring.params().sq_entries(), 0x8000);
    assert_eq!(ring.params().cq_entries(), 0x1_0000);
}

#[test]
fn single_entry_ring() {
    let ring = IoUring::new(1).unwrap();
    assert_eq!(ring.params().sq_entries(), 1);
    assert_eq!(ring.params().cq_entries(), 2);
}

#[test]
fn zero_cqsize_is_error() {
    let r: Result<IoUring, Error> = IoUring::builder().setup_cqsize(0).build(8);
    assert_eq!(r.err(), Some(Error::InvalidInput));
}

#[test]
fn cqsize_rounded_to_power_of_two() {
    let ring: IoUring = IoUring::builder().setup_cqsize(5).build(3).unwrap();
    assert_eq!(ring.params().sq_entries(), 4);
    assert_eq!(ring.params().cq_entries(), 8);
}

#[test]
fn setup_flags_are_reported() {
    let ring: IoUring = IoUring::builder().setup_sqpoll(1000).setup_single_issuer().build(8).unwrap();
    let p = ring.params();
    assert!(p.is_setup_sqpoll());
    assert!(p.is_setup_single_issuer());
    assert!(!p.is_setup_iopoll());
    assert_eq!(p.sq_thread_idle(), 1000);
}

// ---------------------------------------------------------------------------
// Queues
// ---------------------------------------------------------------------------

#[test]
fn push_multiple_is_all_or_nothing() {
    let mut ring = IoUring::new(4).unwrap();
    let nops: Vec<squeue::Entry> = (0..3u64).map(|i| opcode::Nop::new().build().user_data(i)).collect();
    let sq = ring.submission();
    sq.push_multiple(&nops).unwrap();
    assert_eq!(sq.len(), 3);
    assert!(sq.push_multiple(&nops).is_err());
    assert_eq!(sq.len(), 3);
    sq.push(&nops[0]).unwrap();
    assert!(sq.is_full());
}

#[test]
fn push_error_message() {
    let mut ring = IoUring::new(1).unwrap();
    let sq = ring.submission();
    let nop = opcode::Nop::new().build();
    sq.push(&nop).unwrap();
    let err = sq.push(&nop).unwrap_err();
    assert_eq!(err.message(), "submission queue is full");
}

#[test]
fn fill_copies_oldest_first() {
    let mut ring = IoUring::new(8).unwrap();
    let nops: Vec<squeue::Entry> = (10..15u64).map(|i| opcode::Nop::new().build().user_data(i)).collect();
    push_all(&mut ring, &nops);
    ring.submit().unwrap();
    let cq = ring.completion(&vec![]);
    assert_eq!(cq.len(), 5);
    let mut out = vec![cqueue::Entry(sys::io_uring_cqe { user_data: 0, res: 0, flags: 0 }); 3];
    assert_eq!(cq.fill(&mut out), 3);
    assert_eq!(out.iter().map(|e| e.user_data()).collect::<Vec<_>>(), vec![10, 11, 12]);
    assert_eq!(cq.len(), 2);
    assert_eq!(cq.next().unwrap().user_data(), 13);
}

#[test]
fn submit_without_wait_defers_dispatch() {
    let mut ring = IoUring::new(8).unwrap();
    push_all(&mut ring, &[opcode::Nop::new().build().user_data(1)]);
    assert_eq!(ring.submit().unwrap(), 1);
    assert!(ring.submission().is_empty());
    // Reaping dispatches the pending batch.
    assert_eq!(reap_all(&mut ring), vec![(1, 0)]);
}

#[test]
fn overflow_raises_sq_flag() {
    let mut ring: IoUring = IoUring::builder().setup_cqsize(4).build(8).unwrap();
    let nops: Vec<squeue::Entry> = (0..6u64).map(|i| opcode::Nop::new().build().user_data(i)).collect();
    push_all(&mut ring, &nops);
    ring.submit_and_wait(1, &vec![]).unwrap();
    assert!(ring.submission().cq_overflow());
    let cq = ring.completion(&vec![]);
    assert_eq!(cq.overflow(), 2);
    assert!(cq.is_full());
    assert_eq!(cq.next().unwrap().user_data(), 0);
}

// ---------------------------------------------------------------------------
// Link chains and completion suppression
// ---------------------------------------------------------------------------

#[test]
fn failure_without_link_does_not_cancel() {
    let mut ring = IoUring::new(8).unwrap();
    push_all(&mut ring, &[failing_nop(1), opcode::Nop::new().build().user_data(2)]);
    ring.submit().unwrap();
    assert_eq!(reap_all(&mut ring), vec![(1, -1), (2, 0)]);
}

#[test]
fn chain_ends_at_unlinked_entry() {
    let mut ring = IoUring::new(8).unwrap();
    push_all(
        &mut ring,
        &[
            failing_nop(1).flags(squeue::Flags::IO_LINK()),
            opcode::Nop::new().build().user_data(2),
            opcode::Nop::new().build().user_data(3),
        ],
    );
    ring.submit().unwrap();
    assert_eq!(reap_all(&mut ring), vec![(1, -1), (2, -125), (3, 0)]);
}

#[test]
fn cancellation_runs_through_hardlink() {
    let mut ring = IoUring::new(8).unwrap();
    push_all(
        &mut ring,
        &[
            failing_nop(1).flags(squeue::Flags::IO_LINK()),
            opcode::Nop::new().build().user_data(2).flags(squeue::Flags::IO_HARDLINK()),
            opcode::Nop::new().build().user_data(3),
        ],
    );
    ring.submit().unwrap();
    assert_eq!(reap_all(&mut ring), vec![(1, -1), (2, -125), (3, -125)]);
}

#[test]
fn chains_do_not_cross_batches() {
    let mut ring = IoUring::new(8).unwrap();
    push_all(&mut ring, &[failing_nop(1).flags(squeue::Flags::IO_LINK())]);
    ring.submit().unwrap();
    push_all(&mut ring, &[opcode::Nop::new().build().user_data(2)]);
    ring.submit().unwrap();
    assert_eq!(reap_all(&mut ring), vec![(1, -1), (2, 0)]);
}

#[test]
fn skip_success_keeps_order_of_posted() {
    let mut ring = IoUring::new(8).unwrap();
    let skip = squeue::Flags::SKIP_SUCCESS();
    push_all(
        &mut ring,
        &[
            opcode::Nop::new().build().user_data(1).flags(skip),
            failing_nop(2).flags(skip),
            opcode::Nop::new().build().user_data(3),
            opcode::Nop::new().build().user_data(4).flags(skip),
        ],
    );
    ring.submit().unwrap();
    assert_eq!(reap_all(&mut ring), vec![(2, -1), (3, 0)]);
}

#[test]
fn unsupported_opcode_is_enosys() {
    let mut ring = IoUring::new(8).unwrap();
    let mut probe = miring::Probe::new();
    ring.submitter().register_probe(&mut probe).unwrap();
    let mut entry = opcode::Nop::new().build().user_data(9);
    entry.0.opcode = sys::IORING_OP_LAST as u8;
    assert!(!probe.is_supported(entry.0.opcode));
    push_all(&mut ring, &[entry]);
    ring.submit().unwrap();
    assert_eq!(reap_all(&mut ring), vec![(9, -38)]);
}

// ---------------------------------------------------------------------------
// Dispatch results
// ---------------------------------------------------------------------------

#[test]
fn read_reports_length() {
    let mut ring = IoUring::new(8).unwrap();
    let buf = [0u8; 64];
    push_all(&mut ring, &[opcode::Read::new(Fd(0), buf.as_ptr() as u64, 64).build().user_data(1)]);
    ring.submit().unwrap();
    assert_eq!(reap_all(&mut ring), vec![(1, 64)]);
}

#[test]
fn read_into_null_buffer_reports_zero() {
    let mut ring = IoUring::new(8).unwrap();
    push_all(&mut ring, &[opcode::Read::new(Fd(0), 0, 64).build().user_data(1)]);
    ring.submit().unwrap();
    assert_eq!(reap_all(&mut ring), vec![(1, 0)]);
}

#[test]
fn readv_reports_iovec_bytes_per_batch() {
    let mut ring = IoUring::new(8).unwrap();
    push_all(&mut ring, &[opcode::Readv::new(Fd(0), 0x1000, 2).build().user_data(1)]);
    ring.submit().unwrap();
    push_all(&mut ring, &[opcode::Readv::new(Fd(0), 0x2000, 1).build().user_data(2)]);
    ring.submit().unwrap();
    let table = vec![
        vec![vec![UserIovec { base: 0x10, len: 16 }, UserIovec { base: 0x20, len: 32 }]],
        vec![vec![UserIovec { base: 0x30, len: 5 }, UserIovec { base: 0, len: 100 }]],
    ];
    let cq = ring.completion(&table);
    assert_eq!(cq.next().unwrap().result(), 48);
    assert_eq!(cq.next().unwrap().result(), 5);
}

#[test]
fn sendmsg_without_msghdr_is_efault() {
    let mut ring = IoUring::new(8).unwrap();
    push_all(&mut ring, &[opcode::SendMsg::new(Fd(3), 0).build().user_data(1)]);
    ring.submit().unwrap();
    assert_eq!(reap_all(&mut ring), vec![(1, -14)]);
}

#[test]
fn accept_and_getxattr_results() {
    let mut ring = IoUring::new(8).unwrap();
    push_all(
        &mut ring,
        &[
            opcode::Accept::new(Fd(3)).build().user_data(1),
            opcode::FGetXattr::new(Fd(3), 0x10, 0x20, 32).build().user_data(2),
            opcode::Pipe::new(0x40).build().user_data(3),
            opcode::Timeout::new(0).build().user_data(4),
        ],
    );
    ring.submit().unwrap();
    assert_eq!(reap_all(&mut ring), vec![(1, 42), (2, 32), (3, 0), (4, -14)]);
}

// ---------------------------------------------------------------------------
// Entries laid out by the builders
// ---------------------------------------------------------------------------

#[test]
fn readv_layout() {
    let e = opcode::Readv::new(Fixed(7), 0xABC, 3).offset(100).rw_flags(-1).buf_group(9).ioprio(2).build();
    let s = e.0;
    assert_eq!(s.opcode, opcode::Readv::CODE);
    assert_eq!(s.fd, 7);
    assert_eq!(s.flags, 1); // FIXED_FILE
    assert_eq!(s.addr, 0xABC);
    assert_eq!(s.len, 3);
    assert_eq!(s.off, 100);
    assert_eq!(s.op_flags, u32::MAX);
    assert_eq!(s.buf_index, 9);
    assert_eq!(s.ioprio, 2);
    assert_eq!(s.user_data, 0);
}

#[test]
fn accept_direct_slot_layout() {
    let e = opcode::Accept::new(Fd(3)).file_index(Some(4)).flags(8).build();
    assert_eq!(e.0.splice_fd_in, 5);
    assert_eq!(e.0.op_flags, 8);
    assert_eq!(opcode::Accept::new(Fd(3)).build().0.splice_fd_in, 0);
}

#[test]
fn splice_fixed_input_layout() {
    let e = opcode::Splice::new(Fixed(2), -1, Fd(9), 16, 100).flags(4).build();
    let s = e.0;
    assert_eq!(s.fd, 9);
    assert_eq!(s.flags, 0);
    assert_eq!(s.splice_fd_in, 2);
    assert_eq!(s.op_flags, 4 | sys::SPLICE_F_FD_IN_FIXED);
    assert_eq!(s.addr, u64::MAX);
    assert_eq!(s.off, 16);
    assert_eq!(s.len, 100);
}

#[test]
fn uring_cmd_layout() {
    let mut cmd = [0u8; 16];
    for (i, b) in cmd.iter_mut().enumerate() {
        *b = i as u8 + 1;
    }
    let e = opcode::UringCmd16::new(Fd(3), 7).cmd(cmd).buf_index(Some(5)).build();
    assert_eq!(e.0.addr3, u64::from_le_bytes([1, 2, 3, 4, 5, 6, 7, 8]));
    assert_eq!(e.0.__pad2[0], u64::from_le_bytes([9, 10, 11, 12, 13, 14, 15, 16]));
    assert_eq!(e.0.off, 7);
    assert_eq!(e.0.buf_index, 5);
    assert_eq!(e.0.op_flags, sys::IORING_URING_CMD_FIXED);

    let mut cmd80 = [0u8; 80];
    for (i, b) in cmd80.iter_mut().enumerate() {
        *b = i as u8;
    }
    let e = opcode::UringCmd80::new(Fd(3), 7).cmd(cmd80).build();
    assert_eq!(e.0 .0.addr3, u64::from_le_bytes([0, 1, 2, 3, 4, 5, 6, 7]));
    assert_eq!(e.1[0], 16);
    assert_eq!(e.1[63], 79);
    assert_eq!(e.0 .0.op_flags, 0);
}

#[test]
fn setsockopt_layout() {
    let e = opcode::SetSockOpt::new(Fd(3), 1, 2, 0x500, 4).build();
    assert_eq!(e.0.addr, (2u64 << 32) | 1);
    assert_eq!(e.0.splice_fd_in, 4);
    assert_eq!(e.0.addr3, 0x500);
}

#[test]
fn send_destination_layout() {
    let plain = opcode::Send::new(Fd(3), 0x10, 8).dest_addr_len(16).build();
    assert_eq!(plain.0.splice_fd_in, 0);
    assert_eq!(plain.0.addr3, 0);
    let to = opcode::Send::new(Fd(3), 0x10, 8).dest_addr(0x99).dest_addr_len(16).build();
    assert_eq!(to.0.splice_fd_in, 16);
    assert_eq!(to.0.addr3, 0x99);
}

#[test]
fn msg_ring_send_fd_layout() {
    let slot = DestinationSlot::try_from_slot_target(5).unwrap();
    let e = opcode::MsgRingSendFd::new(Fd(4), Fixed(6), slot, 77).build();
    assert_eq!(e.0.fd, 4);
    assert_eq!(e.0.addr, 6);
    assert_eq!(e.0.flags, 1);
    assert_eq!(e.0.addr3, 6);
    assert_eq!(e.0.off, 77);
    assert_eq!(e.0.splice_fd_in, sys::IORING_MSG_SEND_FD as i32);
    let e = opcode::MsgRingSendFd::new(Fd(4), Fd(-2), DestinationSlot::auto_target(), 0).build();
    assert_eq!(e.0.addr, u64::MAX - 1);
    assert_eq!(e.0.addr3, u32::MAX as u64);
}

#[test]
fn multishot_layouts() {
    let e = opcode::PollAdd::new(Fd(1), 4).multi(true).build();
    assert_eq!(e.0.len, sys::IORING_POLL_ADD_MULTI);
    let e = opcode::AcceptMulti::new(Fd(1)).allocate_file_index(true).build();
    assert_eq!(e.0.splice_fd_in, sys::IORING_FILE_INDEX_ALLOC);
    assert_eq!(e.0.ioprio, sys::IORING_ACCEPT_MULTISHOT as u16);
    let e = opcode::RecvMultiBundle::new(Fixed(1), 3).build();
    assert_eq!(e.0.flags, 1 | 32);
    assert_eq!(e.0.ioprio, (sys::IORING_RECV_MULTISHOT | sys::IORING_RECVSEND_BUNDLE) as u16);
    let e = opcode::ReadMulti::new(Fixed(1), 10, 3).build();
    assert_eq!(e.0.flags, 32);
}

#[test]
fn timeout_update_and_cancel_layouts() {
    let e = opcode::TimeoutUpdate::new(5, 0x40).flags(types::TimeoutFlags::ABS()).build();
    assert_eq!(e.0.op_flags, 1 | sys::IORING_TIMEOUT_UPDATE);
    assert_eq!(e.0.addr, 5);
    assert_eq!(e.0.off, 0x40);

    let e = opcode::AsyncCancel2::new(CancelBuilder::fd(Fixed(3)).all()).build();
    assert_eq!(e.0.fd, 3);
    assert_eq!(e.0.op_flags, 2 | 8 | 1);
    assert_eq!(e.0.addr, 0);
    let e = opcode::AsyncCancel2::new(CancelBuilder::user_data(0x1234)).build();
    assert_eq!(e.0.fd, -1);
    assert_eq!(e.0.addr, 0x1234);
}

#[test]
fn pipe_and_fixed_install_layouts() {
    let slot = DestinationSlot::try_from_slot_target(0).unwrap();
    let e = opcode::Pipe::new(0x10).file_index(Some(slot)).build();
    assert_eq!(e.0.splice_fd_in, 1);
    let e = opcode::FixedFdInstall::new(Fixed(3), 1).build();
    assert_eq!(e.0.fd, 3);
    assert_eq!(e.0.flags, 1);
    assert_eq!(e.0.op_flags, 1);
}

#[test]
fn openat2_layout() {
    let e = opcode::OpenAt2::new(Fd(-100), 0x10, 0x20).build();
    assert_eq!(e.0.len, 24);
    assert_eq!(e.0.fd, -100);
}

// ---------------------------------------------------------------------------
// Entries, flags and small types
// ---------------------------------------------------------------------------

#[test]
fn entry_flags_accumulate_and_clear() {
    let e = opcode::Nop::new().build().flags(squeue::Flags::IO_LINK()).flags(squeue::Flags::ASYNC());
    assert_eq!(e.0.flags, 4 | 16);
    let e = e.clear_flags().personality(3);
    assert_eq!(e.0.flags, 0);
    assert_eq!(e.0.personality, 3);
    let wide: squeue::Entry128 = e.into();
    assert_eq!(wide.1, [0u8; 64]);
    assert_eq!(wide.user_data(9).0 .0.user_data, 9);
}

#[test]
fn entry32_narrows() {
    let wide = cqueue::Entry32(cqueue::Entry(sys::io_uring_cqe { user_data: 5, res: -3, flags: 1 }), [7, 8]);
    let narrow: cqueue::Entry = wide.into();
    assert_eq!(narrow.user_data(), 5);
    assert_eq!(narrow.result(), -3);
    assert_eq!(narrow.flags(), 1);
}

#[test]
fn cqueue_other_flags() {
    assert!(cqueue::buffer_more(16));
    assert!(!cqueue::buffer_more(1));
    assert!(cqueue::notif(8));
    assert!(!cqueue::notif(4));
    assert_eq!(cqueue::buffer_select(1 | (0xFFFF << 16)), Some(0xFFFF));
}

#[test]
fn destination_slot_limits() {
    assert_eq!(DestinationSlot::try_from_slot_target(0xFFFF_FFFE).err(), Some(0xFFFF_FFFE));
    assert_eq!(DestinationSlot::try_from_slot_target(0xFFFF_FFFD).unwrap().kernel_index_arg(), 0xFFFF_FFFE);
    assert_eq!(DestinationSlot::auto_target().kernel_index_arg(), u32::MAX);
}

#[test]
fn timespec_parts() {
    let ts = Timespec::from_parts(3, 250);
    assert_eq!(ts.0.tv_sec, 3);
    assert_eq!(ts.0.tv_nsec, 250);
}

#[test]
fn timeout_flags_union() {
    let f = types::TimeoutFlags::ABS().union(types::TimeoutFlags::MULTISHOT());
    assert!(f.contains(types::TimeoutFlags::ABS()));
    assert!(!f.contains(types::TimeoutFlags::BOOTTIME()));
}

#[test]
fn recvmsg_out_with_control() {
    let mut buf = Vec::new();
    buf.extend_from_slice(&4u32.to_le_bytes()); // namelen
    buf.extend_from_slice(&3u32.to_le_bytes()); // controllen
    buf.extend_from_slice(&10u32.to_le_bytes()); // payloadlen, more than is left
    buf.extend_from_slice(&7u32.to_le_bytes()); // flags
    buf.extend_from_slice(&[1, 2, 3, 4, 0, 0]); // 6-byte name field
    buf.extend_from_slice(&[9, 9, 9, 0]); // 4-byte control field
    buf.extend_from_slice(b"abc");
    let msg = RecvMsgOut::parse(&buf, 6, 4).unwrap();
    assert_eq!(msg.name_data(), &[1, 2, 3, 4]);
    assert_eq!(msg.control_data(), &[9, 9, 9]);
    assert_eq!(msg.payload_data(), b"abc");
    assert_eq!(msg.incoming_payload_len(), 10);
    assert_eq!(msg.incoming_control_len(), 3);
    assert_eq!(msg.flags(), 7);
    assert!(RecvMsgOut::parse(&buf, 6, 100).is_err());
}

// ---------------------------------------------------------------------------
// Provided buffers and buffer selection
// ---------------------------------------------------------------------------

#[test]
fn buffer_select_reports_buffer_ids() {
    let mut ring = IoUring::new(8).unwrap();
    let bufs = [0u8; 256];
    let select = squeue::Flags::BUFFER_SELECT();
    push_all(
        &mut ring,
        &[
            opcode::ProvideBuffers::new(bufs.as_ptr() as u64, 64, 4, 1, 0).build().user_data(1),
            opcode::Recv::new(Fd(3), 0, 64).buf_group(1).build().flags(select).user_data(2),
            opcode::Recv::new(Fd(3), 0, 16).buf_group(1).build().flags(select).user_data(3),
            opcode::Read::new(Fd(3), 0, 0).buf_group(2).build().flags(select).user_data(4),
        ],
    );
    ring.submit().unwrap();
    let cq = ring.completion(&vec![]);
    let provide = cq.next().unwrap();
    assert_eq!((provide.user_data(), provide.result(), provide.flags()), (1, 0, 0));
    let first = cq.next().unwrap();
    assert_eq!(first.result(), 64);
    assert_eq!(cqueue::buffer_select(first.flags()), Some(0));
    let second = cq.next().unwrap();
    assert_eq!(second.result(), 16);
    assert_eq!(cqueue::buffer_select(second.flags()), Some(1));
    let empty_group = cq.next().unwrap();
    assert_eq!(empty_group.result(), -105); // -ENOBUFS
    assert_eq!(cqueue::buffer_select(empty_group.flags()), None);
}

#[test]
fn provided_buffers_last_across_batches() {
    let mut ring = IoUring::new(8).unwrap();
    let bufs = [0u8; 64];
    push_all(&mut ring, &[opcode::ProvideBuffers::new(bufs.as_ptr() as u64, 32, 2, 7, 10).build()]);
    ring.submit().unwrap();
    push_all(
        &mut ring,
        &[opcode::ReadMulti::new(Fd(0), 0, 7).build().user_data(5)],
    );
    ring.submit().unwrap();
    let results: Vec<(u64, i32, Option<u16>)> = {
        let cq = ring.completion(&vec![]);
        let mut out = Vec::new();
        while let Some(c) = cq.next() {
            out.push((c.user_data(), c.result(), cqueue::buffer_select(c.flags())));
        }
        out
    };
    assert_eq!(results, vec![(0, 0, None), (5, 32, Some(10))]);
    assert_eq!(ring.submitter().provided_buffers().len(), 1);
    assert_eq!(ring.submitter().provided_buffers()[0].bid, 11);
    assert_eq!(ring.submitter().provided_buffers()[0].addr, bufs.as_ptr() as u64 + 32);
}

#[test]
fn cancelled_read_keeps_its_buffer() {
    let mut ring = IoUring::new(8).unwrap();
    let bufs = [0u8; 64];
    push_all(
        &mut ring,
        &[
            opcode::ProvideBuffers::new(bufs.as_ptr() as u64, 64, 1, 1, 3).build().user_data(1),
            failing_nop(2).flags(squeue::Flags::IO_LINK()),
            opcode::Recv::new(Fd(3), 0, 8).buf_group(1).build().flags(squeue::Flags::BUFFER_SELECT()).user_data(3),
        ],
    );
    ring.submit().unwrap();
    assert_eq!(reap_all(&mut ring), vec![(1, 0), (2, -1), (3, -125)]);
    assert_eq!(ring.submitter().provided_buffers().len(), 1);
}

#[test]
fn capacities_match_params() {
    let mut ring: IoUring = IoUring::builder().setup_cqsize(10).build(5).unwrap();
    let (sq_entries, cq_entries) = (ring.params().sq_entries(), ring.params().cq_entries());
    assert_eq!(ring.submission().capacity(), sq_entries as usize);
    assert_eq!(ring.completion(&vec![]).capacity(), cq_entries as usize);
    assert_eq!((sq_entries, cq_entries), (8, 16));
}

#[test]
fn setup_flags_do_not_change_completions() {
    let mut plain: IoUring = IoUring::builder().build(4).unwrap();
    let mut polled: IoUring = IoUring::builder().setup_sqpoll(10).setup_coop_taskrun().build(4).unwrap();
    let entries = [failing_nop(1).flags(squeue::Flags::IO_LINK()), opcode::Nop::new().build().user_data(2)];
    push_all(&mut plain, &entries);
    push_all(&mut polled, &entries);
    assert_eq!(plain.submit().unwrap(), polled.submit().unwrap());
    assert_eq!(reap_all(&mut plain), reap_all(&mut polled));
}

#[test]
fn remove_buffers_takes_out_oldest() {
    let mut ring = IoUring::new(8).unwrap();
    let bufs = [0u8; 96];
    push_all(
        &mut ring,
        &[
            opcode::ProvideBuffers::new(bufs.as_ptr() as u64, 32, 3, 1, 0).build(),
            opcode::RemoveBuffers::new(2, 1).build(),
            opcode::Recv::new(Fd(3), 0, 8).buf_group(1).build().flags(squeue::Flags::BUFFER_SELECT()).user_data(3),
        ],
    );
    ring.submit().unwrap();
    let cq = ring.completion(&vec![]);
    cq.next().unwrap();
    cq.next().unwrap();
    let read = cq.next().unwrap();
    assert_eq!(read.result(), 8);
    assert_eq!(cqueue::buffer_select(read.flags()), Some(2));
    assert!(ring.submitter().provided_buffers().is_empty());
}
