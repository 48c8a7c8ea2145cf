use std::sync::Arc;
use std::task::{Wake, Waker};

use pen::cps::{AsyncStack, AsyncStackAction, CpsError, StackEntry};

struct TestWaker;

impl Wake for TestWaker {
    fn wake(self: Arc<Self>) {}
}

fn create_waker() -> Waker {
    Waker::from(Arc::new(TestWaker))
}

const TEST_CAPACITY: usize = 1;

#[derive(Clone, Debug, PartialEq)]
enum Slot {
    Num(usize),
    Step,
    Continue,
    Pending(usize),
}

#[test]
fn push_f64() {
    let mut stack = AsyncStack::<f64, ()>::new(TEST_CAPACITY);

    stack.push(42.0f64);

    assert_eq!(stack.pop(), 42.0);
}

#[test]
fn wake() {
    let waker = create_waker();
    let mut stack = AsyncStack::<Slot, usize>::new(TEST_CAPACITY);

    stack.set_context(waker);
    stack.trampoline(Slot::Continue, Slot::Num(42)).unwrap();
    stack.clear_context();
}

#[test]
fn suspend() {
    let mut stack = AsyncStack::<Slot, ()>::new(TEST_CAPACITY);

    stack
        .suspend(Slot::Step, Slot::Continue, Slot::Pending(42))
        .unwrap();
}

#[test]
fn suspend_and_resume() {
    let mut stack = AsyncStack::<Slot, ()>::new(TEST_CAPACITY);

    stack
        .suspend(Slot::Step, Slot::Continue, Slot::Pending(42))
        .unwrap();
    stack.resume().unwrap();
    assert_eq!(stack.restore().unwrap(), Slot::Pending(42));
}

#[test]
fn fail_to_restore_before_resume() {
    let mut stack = AsyncStack::<Slot, ()>::new(TEST_CAPACITY);

    stack
        .suspend(Slot::Step, Slot::Continue, Slot::Pending(42))
        .unwrap();
    assert_eq!(
        stack.restore().unwrap_err(),
        CpsError::UnexpectedAsyncStackAction(Some(AsyncStackAction::Resume))
    );
}

#[test]
fn trampoline_and_resume() {
    let waker = create_waker();
    let mut stack = AsyncStack::<Slot, usize>::new(TEST_CAPACITY);

    stack.set_context(waker);
    stack.trampoline(Slot::Continue, Slot::Num(42)).unwrap();
    stack.clear_context();

    let (step, continuation) = stack.resume().unwrap();
    assert_eq!(step, StackEntry::Trampoline);
    assert_eq!(continuation, Slot::Continue);

    // The trivial step pops the trampolined value back and hands it to the
    // continuation; this continuation resolves the computation with it.
    match stack.pop() {
        Slot::Num(value) => stack.resolve(value),
        slot => panic!("a number was trampolined, not {:?}", slot),
    }

    assert_eq!(stack.resolved_value(), Some(42));
}

#[test]
fn trampoline_without_context() {
    let mut stack = AsyncStack::<Slot, usize>::new(TEST_CAPACITY);

    assert_eq!(
        stack.trampoline(Slot::Continue, Slot::Num(42)).unwrap_err(),
        CpsError::MissingContext
    );
}

#[test]
fn suspend_cycle_with_capacity_one() {
    let mut stack = AsyncStack::<Slot, ()>::new(1);

    stack
        .suspend(Slot::Step, Slot::Continue, Slot::Pending(7))
        .unwrap();
    assert_eq!(stack.next_action(), Some(AsyncStackAction::Resume));

    let _ = stack.resume().unwrap();
    assert_eq!(stack.next_action(), Some(AsyncStackAction::Restore));

    assert_eq!(stack.restore().unwrap(), Slot::Pending(7));
    assert_eq!(stack.next_action(), Some(AsyncStackAction::Suspend));
}

#[test]
fn fail_to_suspend_twice() {
    let mut stack = AsyncStack::<Slot, ()>::new(TEST_CAPACITY);

    stack
        .suspend(Slot::Step, Slot::Continue, Slot::Pending(1))
        .unwrap();
    assert_eq!(
        stack
            .suspend(Slot::Step, Slot::Continue, Slot::Pending(2))
            .unwrap_err(),
        CpsError::UnexpectedAsyncStackAction(Some(AsyncStackAction::Resume))
    );
}

#[test]
fn resolve_and_take_value_once() {
    let mut stack = AsyncStack::<Slot, usize>::new(TEST_CAPACITY);

    assert_eq!(stack.resolved_value(), None);
    stack.resolve(7);
    assert_eq!(stack.resolved_value(), Some(7));
    assert_eq!(stack.resolved_value(), None);
}
