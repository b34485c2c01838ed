use std::cell::RefCell;

use fault_domains::error::AlienError;
use fault_domains::heap::{DBox, RRef, BLOCK_SIZE};
use fault_domains::once::Once;
use fault_domains::unwind::Outcome;

#[test]
fn new_cell_is_empty() {
    let cell: Once<u32> = Once::new();
    assert!(!cell.is_completed());
    assert!(cell.get().is_none());
}

#[test]
fn call_once_runs_initializer_exactly_once() {
    let runs = RefCell::new(0u32);
    let mut cell: Once<u32> = Once::new();
    for turn in 0..5u32 {
        cell.call_once(|| {
            *runs.borrow_mut() += 1;
            100 + turn
        });
        assert!(cell.is_completed());
        assert_eq!(*cell.get_must(), 100);
    }
    assert_eq!(*runs.borrow(), 1);
    assert_eq!(cell.get(), Some(&100));
}

#[test]
fn get_must_mut_changes_stored_value_in_place() {
    let mut cell: Once<Vec<u8>> = Once::new();
    cell.call_once(|| vec![1]);
    cell.get_must_mut().push(2);
    assert_eq!(*cell.get_must(), vec![1, 2]);
    cell.call_once(|| vec![9]);
    assert_eq!(*cell.get_must(), vec![1, 2]);
}

#[test]
fn fresh_buffer_is_all_zero() {
    let buffer = RRef::fresh();
    assert_eq!(BLOCK_SIZE, 512);
    assert_eq!(buffer.get().len(), BLOCK_SIZE);
    assert!(buffer.get().iter().all(|b| *b == 0));
}

#[test]
fn handles_keep_their_value() {
    let mut boxed = DBox::new(5u64);
    assert_eq!(*boxed.get(), 5);
    boxed.set(6);
    assert_eq!(boxed.into_inner(), 6);
    let mut buffer = RRef::new([1u8; 4]);
    assert_eq!(*buffer.get(), [1u8; 4]);
    buffer.set([2u8; 4]);
    assert_eq!(buffer.into_inner(), [2u8; 4]);
}

#[test]
fn fault_becomes_crash_signal() {
    let outcome: Outcome<u32> = Outcome::Faulted;
    assert!(outcome.is_fault());
    assert_eq!(outcome.into_result(), Err(AlienError::DomainCrash));
}

#[test]
fn returned_value_passes_unchanged() {
    let outcome: Outcome<u32> = Outcome::Returned(Ok(77));
    assert!(!outcome.is_fault());
    assert_eq!(outcome.into_result(), Ok(77));
}

#[test]
fn returned_error_passes_unchanged() {
    let outcome: Outcome<u32> = Outcome::Returned(Err(AlienError::Device(9)));
    assert_eq!(outcome.into_result(), Err(AlienError::Device(9)));
    let outcome: Outcome<u32> = Outcome::Returned(Err(AlienError::ContractViolation));
    assert_eq!(outcome.into_result(), Err(AlienError::ContractViolation));
    let outcome: Outcome<u32> = Outcome::Returned(Err(AlienError::DomainCrash));
    assert!(!outcome.is_fault());
    assert_eq!(outcome.into_result(), Err(AlienError::DomainCrash));
}

#[test]
fn boundary_keeps_domain_usable_after_fault() {
    let mut wrap = fault_domains::unwind::UnwindWrap::new(3u32);
    let first: Result<u32, AlienError> = wrap.conclude(Outcome::Faulted);
    assert_eq!(first, Err(AlienError::DomainCrash));
    assert_eq!(*wrap.domain(), 3);
    *wrap.domain_mut() += 1;
    let second = wrap.conclude(Outcome::Returned(Ok(*wrap.domain())));
    assert_eq!(second, Ok(4));
}
