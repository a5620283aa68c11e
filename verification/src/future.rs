//! Context bracketing around each resumption of a wrapped task.
//!
//! A context-carrying task wrapper owns a context in a local slot while the
//! task is suspended, and hands it to the resuming thread's stack only for
//! the duration of a single resumption. The two operations here are the
//! decision core of that protocol: the driver that owns the asynchronous
//! primitive calls [`resume_enter`] just before polling the inner task on
//! whatever thread resumes it, and [`resume_exit`] as soon as the poll
//! returns, whether the task suspended again or completed.

use vstd::prelude::*;

use crate::context::LogContext;
use crate::guard::LogContextGuard;
use crate::properties::PropertyView;
use crate::stack::ContextStack;

verus! {

/// Begins one resumption: takes the wrapper's context out of its local slot
/// and pushes it onto the resuming thread's stack.
///
/// The slot must still hold the context. An empty slot means the previous
/// resumption never returned it — the task unwound — and such a wrapper must
/// not be resumed again, so that state is ruled out.
pub fn resume_enter(slot: &mut Option<LogContext>, stack: &mut ContextStack) -> (guard:
    LogContextGuard)
    requires
        *old(slot) is Some,
    ensures
        *final(slot) is None,
        final(stack)@ == old(stack)@.push((*old(slot))->0@),
        guard.depth_below() == old(stack)@.len(),
{
    let mut taken: Option<LogContext> = None;
    core::mem::swap(slot, &mut taken);
    let context = taken.unwrap();
    context.enter(stack)
}

/// Ends one resumption: pops the wrapper's frame off the stack and stores
/// the context back into the wrapper's local slot — including whatever was
/// meanwhile added to the frame dynamically — ready for the next resumption
/// on whichever thread that happens.
pub fn resume_exit(slot: &mut Option<LogContext>, guard: LogContextGuard, stack: &mut ContextStack)
    requires
        old(stack)@.len() == guard.depth_below() + 1,
    ensures
        final(stack)@ == old(stack)@.drop_last(),
        (*final(slot)) matches Some(context) && context@ == old(stack)@.last(),
{
    let context = guard.exit(stack);
    *slot = Some(context);
}

/// Law: one whole resumption is a round trip. Pushing a frame and popping it
/// back restores the stack — whatever the frame holds — so wrapping a task
/// in a context, in particular an empty one, and running it to completion
/// leaves the thread's stack exactly as it was before.
pub proof fn lemma_resumption_round_trip(s: Seq<Seq<PropertyView>>, frame: Seq<PropertyView>)
    ensures
        s.push(frame).drop_last() == s,
{
    assert(s.push(frame).drop_last() =~= s);
}

} // verus!
