//! Scope guards that bracket the lifetime of a context frame.

use vstd::prelude::*;

use crate::context::LogContext;
use crate::stack::ContextStack;

verus! {

/// A scope token for one activated context frame.
///
/// Activating a [`LogContext`] pushes its properties onto a stack and hands
/// back a guard; the guard must later be spent through [`exit`](Self::exit)
/// on the same stack to pop the frame again. Pops therefore happen exactly
/// once per guard, in last-in-first-out order.
///
/// The guard records (as ghost state) how deep the stack was when its frame
/// was pushed, so nested guards can only be exited innermost first. The top
/// frame itself may meanwhile have grown through
/// [`LogContext::add_record`](crate::LogContext::add_record); whatever it
/// holds at exit time is what the exit returns.
pub struct LogContextGuard {
    below: Ghost<nat>,
}

impl LogContextGuard {
    /// The stack depth underneath this guard's frame: how many frames the
    /// stack held just before the frame was pushed.
    pub closed spec fn depth_below(&self) -> nat {
        self.below@
    }

    /// Pushes `context`'s properties as the new top frame of `stack`.
    pub(crate) fn enter(context: LogContext, stack: &mut ContextStack) -> (guard: Self)
        ensures
            final(stack)@ == old(stack)@.push(context@),
            guard.depth_below() == old(stack)@.len(),
    {
        let ghost below = stack@.len();
        stack.push(context.0);
        LogContextGuard { below: Ghost(below) }
    }

    /// Deactivates the guard's frame: pops the top of `stack` and returns
    /// its properties to the caller as a context that can be activated
    /// again.
    ///
    /// The guard's frame must still be the top of `stack`: frames are
    /// popped strictly in the reverse order of their activation, so the
    /// stack must be exactly one frame deeper than when this guard was
    /// created. A stack found shallower or deeper would mean that guards
    /// were dropped out of order or that the frame was popped by other
    /// means; those states are ruled out rather than handled.
    pub fn exit(self, stack: &mut ContextStack) -> (context: LogContext)
        requires
            old(stack)@.len() == self.depth_below() + 1,
        ensures
            final(stack)@ == old(stack)@.drop_last(),
            context@ == old(stack)@.last(),
    {
        let props = stack.pop().unwrap();
        LogContext(props)
    }
}

} // verus!
