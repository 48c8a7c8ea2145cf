//! The continuation trampoline: suspendable computation without native
//! call-stack switching.
//!
//! Generated code has no coroutine support, so every suspension point is
//! compiled into an explicit state capture: the pending operation, the step
//! function that resumes the computation, and the continuation to run with
//! the step's result are pushed onto an operand stack, and control returns
//! to an external scheduler. Resumption pops them back. A small state
//! machine over the three actions `Suspend`, `Resume` and `Restore` checks
//! at run time that the generated call sites are paired correctly; a call
//! out of phase is reported as a [`CpsError`], never as a crash.
//!
//! The stack erases the types of what it carries: the caller chooses one
//! slot type `E` for its operands, steps, continuations and pending
//! operations, and interprets the slots it pops. The one slot the library
//! itself puts on the stack is [`StackEntry::Trampoline`], the trivial step
//! pushed by [`AsyncStack::trampoline`] that stands for "pop the value back
//! and hand it to the continuation".

use vstd::prelude::*;

use crate::stack::Stack;

verus! {

/// The next operation the protocol expects.
#[derive(Clone, Copy, Debug, PartialEq, Eq, Structural)]
pub enum AsyncStackAction {
    Suspend,
    Resume,
    Restore,
}

/// A protocol violation observed by the trampoline.
///
/// Always a defect in the generated calling code, never a transient runtime
/// condition; it is surfaced as a value so the caller decides whether to
/// abort or report upward.
#[derive(Clone, Copy, Debug, PartialEq, Eq, Structural)]
pub enum CpsError {
    /// `trampoline` had to signal the scheduler but no completion notifier
    /// was bound.
    MissingContext,
    /// A protocol operation ran while the machine awaited the carried
    /// action (`None`: the machine awaited nothing at all).
    UnexpectedAsyncStackAction(Option<AsyncStackAction>),
}

/// One slot of the operand stack of an asynchronous computation.
#[derive(Clone, Copy, Debug, PartialEq, Eq, Structural)]
pub enum StackEntry<E> {
    /// A caller-supplied value: an operand, a pending operation, a step or
    /// a continuation; the stack does not tell them apart.
    Item(E),
    /// The trivial step recorded by [`AsyncStack::trampoline`]: on
    /// resumption, pop the stored value back and hand it to the
    /// continuation above it.
    Trampoline,
}

/// The abstract state of an [`AsyncStack`]: what the contracts of the
/// protocol operations speak about.
pub struct AsyncStackView<E, V> {
    /// The operand stack contents, bottom first.
    pub entries: Seq<StackEntry<E>>,
    /// The actions the protocol expects, most imminent last.
    pub actions: Seq<AsyncStackAction>,
    /// Whether a completion notifier is currently bound.
    pub has_context: bool,
    /// The final value of the computation, once resolved.
    pub resolved: Option<V>,
}

/// Whether the machine in state `s` accepts `action` next.
pub open spec fn action_expected<E, V>(s: AsyncStackView<E, V>, action: AsyncStackAction) -> bool {
    s.actions.len() > 0 && s.actions.last() == action
}

/// The awaited action that an out-of-phase call consumes and reports.
pub open spec fn awaited_action<E, V>(s: AsyncStackView<E, V>) -> Option<AsyncStackAction> {
    if s.actions.len() > 0 {
        Some(s.actions.last())
    } else {
        None
    }
}

/// The state after the machine consumed one expected action (a validation,
/// successful or not, always consumes).
pub open spec fn action_consumed<E, V>(s: AsyncStackView<E, V>) -> AsyncStackView<E, V> {
    if s.actions.len() > 0 {
        AsyncStackView { actions: s.actions.drop_last(), ..s }
    } else {
        s
    }
}

/// The state after a successful `suspend`: the pending operation, the step
/// and the continuation lie on the stack in that order, and the machine
/// expects `Resume`, then `Restore`, then `Suspend` again.
pub open spec fn suspended<E, V>(
    s: AsyncStackView<E, V>,
    step: E,
    continuation: E,
    pending_operation: E,
) -> AsyncStackView<E, V> {
    AsyncStackView {
        entries: s.entries
            .push(StackEntry::Item(pending_operation))
            .push(StackEntry::Item(step))
            .push(StackEntry::Item(continuation)),
        actions: action_consumed(s).actions
            .push(AsyncStackAction::Suspend)
            .push(AsyncStackAction::Restore)
            .push(AsyncStackAction::Resume),
        ..s
    }
}

/// The state after a successful `resume`: the continuation and the step are
/// popped; the pending operation stays for `restore`.
pub open spec fn resumed<E, V>(s: AsyncStackView<E, V>) -> AsyncStackView<E, V> {
    AsyncStackView {
        entries: s.entries.drop_last().drop_last(),
        actions: action_consumed(s).actions,
        ..s
    }
}

/// The state after a successful `restore`: the pending operation is popped.
pub open spec fn restored<E, V>(s: AsyncStackView<E, V>) -> AsyncStackView<E, V> {
    AsyncStackView { entries: s.entries.drop_last(), actions: action_consumed(s).actions, ..s }
}

/// The state after a successful `trampoline`: the value, the trivial re-pop
/// step and the continuation lie on the stack, and the machine expects
/// `Resume`, then `Suspend` again — no `Restore`, since nothing is pending.
pub open spec fn trampolined<E, V>(
    s: AsyncStackView<E, V>,
    continuation: E,
    value: E,
) -> AsyncStackView<E, V> {
    AsyncStackView {
        entries: s.entries
            .push(StackEntry::Item(value))
            .push(StackEntry::Trampoline)
            .push(StackEntry::Item(continuation)),
        actions: action_consumed(s).actions
            .push(AsyncStackAction::Suspend)
            .push(AsyncStackAction::Resume),
        ..s
    }
}

#[verifier::external_type_specification]
#[verifier::external_body]
pub struct ExWaker(core::task::Waker);

/// Relies on `core::task::Waker::wake_by_ref`: signals the scheduler that
/// owns the waker that the suspended computation is ready to run again. The
/// call returns nothing and is assumed not to panic.
#[verifier::external_body]
fn wake(context: &core::task::Waker) {
    context.wake_by_ref();
}

/// The state of one asynchronous computation: an operand stack, the
/// sequence of protocol actions the machine still expects (most imminent
/// last), an optional scheduler-owned completion notifier, and the final
/// value once the chain of continuations has terminated.
///
/// A trampoline is created once per independent computation and is mutated
/// by at most one worker at a time; independent trampolines share nothing.
pub struct AsyncStack<E, V> {
    stack: Stack<StackEntry<E>>,
    context: Option<core::task::Waker>,
    next_actions: Vec<AsyncStackAction>,
    resolved_value: Option<V>,
}

impl<E, V> View for AsyncStack<E, V> {
    type V = AsyncStackView<E, V>;

    closed spec fn view(&self) -> AsyncStackView<E, V> {
        AsyncStackView {
            entries: self.stack@,
            actions: self.next_actions@,
            has_context: self.context is Some,
            resolved: self.resolved_value,
        }
    }
}

impl<E, V> AsyncStack<E, V> {
    /// Creates the trampoline of a new computation: an empty operand stack
    /// with room for `capacity` slots, no notifier, no resolved value, and
    /// a machine that expects a first `Suspend`.
    pub fn new(capacity: usize) -> (stack: AsyncStack<E, V>)
        ensures
            stack@.entries == Seq::<StackEntry<E>>::empty(),
            stack@.actions == seq![AsyncStackAction::Suspend],
            !stack@.has_context,
            stack@.resolved is None,
    {
        let mut next_actions: Vec<AsyncStackAction> = Vec::with_capacity(1);
        next_actions.push(AsyncStackAction::Suspend);

        proof {
            assert(next_actions@ =~= seq![AsyncStackAction::Suspend]);
        }

        AsyncStack {
            stack: Stack::new(capacity),
            context: None,
            next_actions,
            resolved_value: None,
        }
    }

    /// Binds the completion notifier of the scheduler invocation that is
    /// about to drive this computation. The handle is only meaningful for
    /// the extent of that invocation: the driver clears it with
    /// [`Self::clear_context`] on every exit path.
    pub fn set_context(&mut self, context: core::task::Waker)
        ensures
            final(self)@ == (AsyncStackView { has_context: true, ..old(self)@ }),
    {
        self.context = Some(context);
    }

    /// Unbinds the completion notifier; see [`Self::set_context`].
    pub fn clear_context(&mut self)
        ensures
            final(self)@ == (AsyncStackView { has_context: false, ..old(self)@ }),
    {
        self.context = None;
    }

    /// Writes a caller value at the top of the operand stack.
    pub fn push(&mut self, value: E)
        ensures
            final(self)@ == (AsyncStackView {
                entries: old(self)@.entries.push(StackEntry::Item(value)),
                ..old(self)@
            }),
    {
        self.stack.push(StackEntry::Item(value));
    }

    /// Reads and removes the caller value at the top of the operand stack.
    ///
    /// As on [`Stack`], popping a value that was never pushed is a
    /// precondition violation of the generated code, not a checked error.
    pub fn pop(&mut self) -> (value: E)
        requires
            old(self)@.entries.len() > 0,
            old(self)@.entries.last() is Item,
        ensures
            StackEntry::Item(value) == old(self)@.entries.last(),
            final(self)@ == (AsyncStackView {
                entries: old(self)@.entries.drop_last(),
                ..old(self)@
            }),
    {
        match self.stack.pop() {
            StackEntry::Item(value) => value,
            StackEntry::Trampoline => unreached(),
        }
    }

    /// The action the machine expects next, if it expects any.
    pub fn next_action(&self) -> (action: Option<AsyncStackAction>)
        ensures
            action == awaited_action(self@),
    {
        if self.next_actions.len() > 0 {
            Some(self.next_actions[self.next_actions.len() - 1])
        } else {
            None
        }
    }

    /// Consumes the awaited action if it is `current_action`, and reports
    /// the awaited action otherwise. A failed validation still consumes.
    fn validate_action(&mut self, current_action: AsyncStackAction) -> (r: Result<(), CpsError>)
        ensures
            final(self)@ == action_consumed(old(self)@),
            r is Ok <==> action_expected(old(self)@, current_action),
            r is Err ==> r == Err::<(), CpsError>(
                CpsError::UnexpectedAsyncStackAction(awaited_action(old(self)@)),
            ),
    {
        let next_action = self.next_actions.pop();

        let matches_expected = match next_action {
            Some(action) => action == current_action,
            None => false,
        };

        if !matches_expected {
            return Err(CpsError::UnexpectedAsyncStackAction(next_action));
        }

        Ok(())
    }

    /// Captures a suspension point: pushes the pending operation, the step
    /// and the continuation, and arranges for the next calls to be
    /// `resume`, then `restore`, then `suspend` again. Valid only while the
    /// machine expects `Suspend`; out of phase it consumes the awaited
    /// action and reports it.
    pub fn suspend(&mut self, step: E, continuation: E, pending_operation: E) -> (r: Result<
        (),
        CpsError,
    >)
        ensures
            r is Ok <==> action_expected(old(self)@, AsyncStackAction::Suspend),
            r is Ok ==> final(self)@ == suspended(
                old(self)@,
                step,
                continuation,
                pending_operation,
            ),
            r is Err ==> final(self)@ == action_consumed(old(self)@) && r == Err::<(), CpsError>(
                CpsError::UnexpectedAsyncStackAction(awaited_action(old(self)@)),
            ),
    {
        self.validate_action(AsyncStackAction::Suspend)?;
        self.push_next_actions(
            AsyncStackAction::Resume,
            AsyncStackAction::Restore,
            AsyncStackAction::Suspend,
        );

        self.stack.push(StackEntry::Item(pending_operation));
        self.stack.push(StackEntry::Item(step));
        self.stack.push(StackEntry::Item(continuation));

        Ok(())
    }

    /// Dispatches a continuation call through the scheduler instead of
    /// calling it directly, so that a chain of continuations runs as a loop
    /// instead of growing the native call stack: pushes the value, the
    /// trivial re-pop step and the continuation, arranges for `resume` and
    /// then `suspend`, and signals the bound completion notifier.
    ///
    /// Valid only while the machine expects `Suspend`. When no notifier is
    /// bound the value, step and continuation remain pushed and the call
    /// reports [`CpsError::MissingContext`].
    pub fn trampoline(&mut self, continuation: E, value: E) -> (r: Result<(), CpsError>)
        ensures
            r is Ok <==> action_expected(old(self)@, AsyncStackAction::Suspend)
                && old(self)@.has_context,
            action_expected(old(self)@, AsyncStackAction::Suspend) ==> final(self)@ == trampolined(
                old(self)@,
                continuation,
                value,
            ),
            !action_expected(old(self)@, AsyncStackAction::Suspend) ==> final(self)@
                == action_consumed(old(self)@) && r == Err::<(), CpsError>(
                CpsError::UnexpectedAsyncStackAction(awaited_action(old(self)@)),
            ),
            action_expected(old(self)@, AsyncStackAction::Suspend) && !old(self)@.has_context
                ==> r == Err::<(), CpsError>(CpsError::MissingContext),
    {
        self.validate_action(AsyncStackAction::Suspend)?;
        self.push_next_actions_short(AsyncStackAction::Resume, AsyncStackAction::Suspend);

        self.stack.push(StackEntry::Item(value));
        self.stack.push(StackEntry::Trampoline);
        self.stack.push(StackEntry::Item(continuation));

        match &self.context {
            Some(context) => {
                wake(context);
                Ok(())
            },
            None => Err(CpsError::MissingContext),
        }
    }

    /// Pops and returns the step and the continuation of the most recent
    /// suspension, for the caller to invoke; the pending operation stays on
    /// the stack until `restore`. Valid only while the machine expects
    /// `Resume`.
    ///
    /// The top two slots belong to the protocol while `Resume` is awaited;
    /// popping them by hand first is a precondition violation of the
    /// generated code.
    pub fn resume(&mut self) -> (r: Result<(StackEntry<E>, E), CpsError>)
        requires
            action_expected(old(self)@, AsyncStackAction::Resume) ==> old(self)@.entries.len() >= 2
                && old(self)@.entries.last() is Item,
        ensures
            r is Ok <==> action_expected(old(self)@, AsyncStackAction::Resume),
            r is Ok ==> {
                let entries = old(self)@.entries;
                &&& r.unwrap().0 == entries[entries.len() - 2]
                &&& StackEntry::Item(r.unwrap().1) == entries.last()
                &&& final(self)@ == resumed(old(self)@)
            },
            r is Err ==> final(self)@ == action_consumed(old(self)@) && r == Err::<
                (StackEntry<E>, E),
                CpsError,
            >(CpsError::UnexpectedAsyncStackAction(awaited_action(old(self)@))),
    {
        self.validate_action(AsyncStackAction::Resume)?;

        let continuation = match self.stack.pop() {
            StackEntry::Item(continuation) => continuation,
            StackEntry::Trampoline => unreached(),
        };
        let step = self.stack.pop();

        Ok((step, continuation))
    }

    /// Pops and returns the pending operation of the most recent
    /// suspension, by move, for the caller to run to completion. Valid only
    /// while the machine expects `Restore`.
    ///
    /// The top slot belongs to the protocol while `Restore` is awaited;
    /// popping it by hand first is a precondition violation of the
    /// generated code.
    pub fn restore(&mut self) -> (r: Result<E, CpsError>)
        requires
            action_expected(old(self)@, AsyncStackAction::Restore) ==> old(self)@.entries.len() > 0
                && old(self)@.entries.last() is Item,
        ensures
            r is Ok <==> action_expected(old(self)@, AsyncStackAction::Restore),
            r is Ok ==> StackEntry::Item(r.unwrap()) == old(self)@.entries.last() && final(self)@
                == restored(old(self)@),
            r is Err ==> final(self)@ == action_consumed(old(self)@) && r == Err::<E, CpsError>(
                CpsError::UnexpectedAsyncStackAction(awaited_action(old(self)@)),
            ),
    {
        self.validate_action(AsyncStackAction::Restore)?;

        let pending_operation = match self.stack.pop() {
            StackEntry::Item(pending_operation) => pending_operation,
            StackEntry::Trampoline => unreached(),
        };

        Ok(pending_operation)
    }

    /// Records the final value of the whole computation; the generated
    /// top-level driver reads it with [`Self::resolved_value`] to learn
    /// that the chain of continuations has terminated.
    pub fn resolve(&mut self, value: V)
        ensures
            final(self)@ == (AsyncStackView { resolved: Some(value), ..old(self)@ }),
    {
        self.resolved_value = Some(value);
    }

    /// Takes the final value of the computation, once: a second read, or a
    /// read before the computation resolved, reports `None`.
    pub fn resolved_value(&mut self) -> (value: Option<V>)
        ensures
            value == old(self)@.resolved,
            final(self)@ == (AsyncStackView { resolved: None, ..old(self)@ }),
    {
        self.resolved_value.take()
    }

    /// Schedules `third`, then `second`, then `first`, in front of whatever
    /// the machine already expected.
    fn push_next_actions(
        &mut self,
        first: AsyncStackAction,
        second: AsyncStackAction,
        third: AsyncStackAction,
    )
        ensures
            final(self)@ == (AsyncStackView {
                actions: old(self)@.actions.push(third).push(second).push(first),
                ..old(self)@
            }),
    {
        self.next_actions.push(third);
        self.next_actions.push(second);
        self.next_actions.push(first);
    }

    /// Schedules `second`, then `first`, in front of whatever the machine
    /// already expected.
    fn push_next_actions_short(&mut self, first: AsyncStackAction, second: AsyncStackAction)
        ensures
            final(self)@ == (AsyncStackView {
                actions: old(self)@.actions.push(second).push(first),
                ..old(self)@
            }),
    {
        self.next_actions.push(second);
        self.next_actions.push(first);
    }
}

/// A fresh trampoline accepts exactly one `suspend` before requiring
/// `resume`: in the state [`AsyncStack::new`] establishes, `suspend` is the
/// one protocol operation accepted, and in the state it leaves behind a
/// second `suspend` — or a `restore` — is refused while the machine awaits
/// `Resume`.
pub proof fn lemma_fresh_stack_accepts_one_suspend<E, V>(
    s: AsyncStackView<E, V>,
    step: E,
    continuation: E,
    pending_operation: E,
)
    requires
        s.actions == seq![AsyncStackAction::Suspend],
    ensures
        action_expected(s, AsyncStackAction::Suspend),
        !action_expected(s, AsyncStackAction::Resume),
        !action_expected(s, AsyncStackAction::Restore),
        !action_expected(
            suspended(s, step, continuation, pending_operation),
            AsyncStackAction::Suspend,
        ),
        !action_expected(
            suspended(s, step, continuation, pending_operation),
            AsyncStackAction::Restore,
        ),
        awaited_action(suspended(s, step, continuation, pending_operation)) == Some(
            AsyncStackAction::Resume,
        ),
{
}

/// A `suspend` → `resume` → `restore` cycle is well phased and hands back,
/// in `restore`, exactly the pending operation that `suspend` captured: the
/// resumption returns the step and the continuation, and what then lies on
/// top of the stack — what `restore` pops — is the pending operation.
pub proof fn lemma_suspend_resume_restore_round_trip<E, V>(
    s: AsyncStackView<E, V>,
    step: E,
    continuation: E,
    pending_operation: E,
)
    requires
        action_expected(s, AsyncStackAction::Suspend),
    ensures
        ({
            let after_suspend = suspended(s, step, continuation, pending_operation);
            let after_resume = resumed(after_suspend);
            &&& action_expected(after_suspend, AsyncStackAction::Resume)
            &&& after_suspend.entries.last() == StackEntry::Item(continuation)
            &&& after_suspend.entries[after_suspend.entries.len() - 2] == StackEntry::Item(step)
            &&& action_expected(after_resume, AsyncStackAction::Restore)
            &&& after_resume.entries.last() == StackEntry::Item(pending_operation)
            &&& action_expected(restored(after_resume), AsyncStackAction::Suspend)
            &&& restored(after_resume).entries == s.entries
        }),
{
    let after_suspend = suspended(s, step, continuation, pending_operation);
    let after_resume = resumed(after_suspend);
    assert(after_resume.entries =~= s.entries.push(StackEntry::Item(pending_operation)));
    assert(restored(after_resume).entries =~= s.entries);
}

/// Tail dispatch through the trampoline keeps the value intact: after
/// `trampoline(continuation, value)` the machine expects `Resume`, the
/// resumption hands back the trivial re-pop step together with
/// `continuation`, and the value the re-pop step finds on top of the stack
/// — the value the continuation is then invoked with, and that resolving
/// reports — is exactly `value`.
pub proof fn lemma_trampoline_dispatch<E, V>(s: AsyncStackView<E, V>, continuation: E, value: E)
    requires
        action_expected(s, AsyncStackAction::Suspend),
    ensures
        ({
            let after_trampoline = trampolined(s, continuation, value);
            let after_resume = resumed(after_trampoline);
            &&& action_expected(after_trampoline, AsyncStackAction::Resume)
            &&& after_trampoline.entries.last() == StackEntry::Item(continuation)
            &&& after_trampoline.entries[after_trampoline.entries.len() - 2]
                == StackEntry::<E>::Trampoline
            &&& after_resume.entries.last() == StackEntry::Item(value)
            &&& action_expected(
                AsyncStackView { entries: after_resume.entries.drop_last(), ..after_resume },
                AsyncStackAction::Suspend,
            )
        }),
{
    let after_trampoline = trampolined(s, continuation, value);
    let after_resume = resumed(after_trampoline);
    assert(after_resume.entries =~= s.entries.push(StackEntry::Item(value)));
}

} // verus!
