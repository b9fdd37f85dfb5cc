use std::cell::Cell;
use std::io::ErrorKind;
use std::rc::Rc;

use winuds::{Setup, Step};

/// A stand-in for an OS handle that counts how often it is released.
struct Counted {
    id: u32,
    drops: Rc<Cell<u32>>,
}

impl Drop for Counted {
    fn drop(&mut self) {
        self.drops.set(self.drops.get() + 1);
    }
}

fn counted(id: u32, drops: &Rc<Cell<u32>>) -> Counted {
    Counted {
        id,
        drops: Rc::clone(drops),
    }
}

/// Drives a run: the open step answers `open`, the mode switches answer
/// `modes` in order, and every handle that was switched is recorded.
fn drive<H>(
    open: Result<Vec<H>, ErrorKind>,
    modes: &[Result<(), ErrorKind>],
    switched: &mut Vec<usize>,
) -> Result<Vec<H>, ErrorKind> {
    let mut s: Setup<H, ErrorKind> = Setup::new();
    let mut open = Some(open);
    let mut answers = modes.iter();
    loop {
        match s.next() {
            Step::Open => s.opened(open.take().unwrap()),
            Step::SetNonblocking(i) => {
                let _ = s.handle(i);
                switched.push(i);
                s.mode_set(*answers.next().unwrap());
            }
            Step::Finish => return s.finish(),
        }
    }
}

#[test]
fn first_step_is_open() {
    let s: Setup<u32, ErrorKind> = Setup::new();
    assert_eq!(s.next(), Step::Open);
}

#[test]
fn single_handle_is_switched_then_handed_out() {
    let mut s: Setup<u32, ErrorKind> = Setup::new();
    s.opened(Ok(vec![7]));
    assert_eq!(s.next(), Step::SetNonblocking(0));
    assert_eq!(*s.handle(0), 7);
    s.mode_set(Ok(()));
    assert_eq!(s.next(), Step::Finish);
    assert_eq!(s.finish(), Ok(vec![7]));
}

#[test]
fn pair_switches_both_in_order_and_keeps_order() {
    let mut switched = Vec::new();
    let r = drive(Ok(vec![10u32, 11]), &[Ok(()), Ok(())], &mut switched);
    assert_eq!(switched, vec![0, 1]);
    assert_eq!(r, Ok(vec![10, 11]));
}

#[test]
fn no_handle_is_handed_out_unswitched() {
    let mut switched = Vec::new();
    let r = drive(Ok(vec![1u32, 2, 3]), &[Ok(()), Ok(()), Ok(())], &mut switched);
    assert_eq!(r.unwrap().len(), switched.len());
}

#[test]
fn empty_open_finishes_at_once() {
    let mut switched = Vec::new();
    let r = drive::<u32>(Ok(Vec::new()), &[], &mut switched);
    assert!(switched.is_empty());
    assert_eq!(r, Ok(Vec::new()));
}

#[test]
fn would_block_on_accept_is_returned_unchanged() {
    let mut switched = Vec::new();
    let r = drive::<u32>(Err(ErrorKind::WouldBlock), &[], &mut switched);
    assert!(switched.is_empty());
    assert_eq!(r, Err(ErrorKind::WouldBlock));
}

#[test]
fn address_in_use_on_bind_is_returned_unchanged() {
    let mut switched = Vec::new();
    let r = drive::<u32>(Err(ErrorKind::AddrInUse), &[], &mut switched);
    assert_eq!(r, Err(ErrorKind::AddrInUse));
}

#[test]
fn invalid_path_on_bind_is_returned_unchanged() {
    let mut switched = Vec::new();
    let r = drive::<u32>(Err(ErrorKind::InvalidInput), &[], &mut switched);
    assert_eq!(r, Err(ErrorKind::InvalidInput));
    assert_ne!(r, Err(ErrorKind::AddrInUse));
}

#[test]
fn mode_failure_returns_that_error() {
    let mut switched = Vec::new();
    let r = drive(
        Ok(vec![4u32, 5]),
        &[Ok(()), Err(ErrorKind::PermissionDenied)],
        &mut switched,
    );
    assert_eq!(switched, vec![0, 1]);
    assert_eq!(r, Err(ErrorKind::PermissionDenied));
}

#[test]
fn mode_failure_on_first_handle_stops_the_run() {
    let mut switched = Vec::new();
    let r = drive(Ok(vec![4u32, 5]), &[Err(ErrorKind::Other)], &mut switched);
    assert_eq!(switched, vec![0]);
    assert_eq!(r, Err(ErrorKind::Other));
}

#[test]
fn mode_failure_releases_every_handle_once() {
    let drops = Rc::new(Cell::new(0));
    let mut switched = Vec::new();
    let r = drive(
        Ok(vec![counted(1, &drops), counted(2, &drops)]),
        &[Ok(()), Err(ErrorKind::Other)],
        &mut switched,
    );
    assert!(r.is_err());
    assert_eq!(drops.get(), 2);
}

#[test]
fn handed_out_handles_are_released_once_by_their_owner() {
    let drops = Rc::new(Cell::new(0));
    let mut switched = Vec::new();
    let r = drive(
        Ok(vec![counted(1, &drops), counted(2, &drops)]),
        &[Ok(()), Ok(())],
        &mut switched,
    );
    assert_eq!(drops.get(), 0);
    let hs = r.ok().unwrap();
    assert_eq!(hs.iter().map(|h| h.id).collect::<Vec<_>>(), vec![1, 2]);
    drop(hs);
    assert_eq!(drops.get(), 2);
}
