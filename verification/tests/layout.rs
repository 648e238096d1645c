//! Sizes of the entry and kernel ABI structures.

use miring::cqueue;
use miring::squeue;
use miring::sys::{__kernel_timespec, io_uring_cqe, io_uring_params, io_uring_sqe, open_how};
use std::mem;

#[test]
fn cqueue_test_entry_sizes() {
    assert_eq!(mem::size_of::<cqueue::Entry>(), 16);
    assert_eq!(mem::size_of::<cqueue::Entry32>(), 32);
}

#[test]
fn squeue_test_entry_sizes() {
    assert_eq!(mem::size_of::<squeue::Entry>(), 64);
    assert_eq!(mem::size_of::<squeue::Entry128>(), 128);
}

#[test]
fn sqe_layout() {
    assert_eq!(mem::size_of::<io_uring_sqe>(), 64);
    assert_eq!(mem::align_of::<io_uring_sqe>(), 8);
}

#[test]
fn cqe_layout() {
    assert_eq!(mem::size_of::<io_uring_cqe>(), 16);
    assert_eq!(mem::align_of::<io_uring_cqe>(), 8);
}

#[test]
fn params_layout() {
    assert_eq!(mem::size_of::<io_uring_params>(), 120);
}

#[test]
fn timespec_layout() {
    assert_eq!(mem::size_of::<__kernel_timespec>(), 16);
}

#[test]
fn open_how_layout() {
    assert_eq!(mem::size_of::<open_how>(), 24);
}
