//! The context builder: an immutable-until-activated set of properties.

use vstd::prelude::*;
use vstd::string::StringExecFns;

use crate::guard::LogContextGuard;
use crate::properties::ContextProperties;
use crate::properties::PropertyView;
use crate::stack::ContextStack;
use crate::value::ContextValue;

verus! {

/// A container for contextual properties to be attached to log records.
///
/// A `LogContext` accumulates key-value pairs through [`record`](Self::record)
/// and becomes a live frame when activated on a stack through
/// [`enter`](Self::enter). Its view is the sequence of property views, in
/// insertion order.
pub struct LogContext(pub(crate) ContextProperties);

impl View for LogContext {
    type V = Seq<PropertyView>;

    open(crate) spec fn view(&self) -> Seq<PropertyView> {
        self.0@
    }
}

impl LogContext {
    /// Creates a new, empty context.
    pub fn new() -> (r: Self)
        ensures
            r@ == Seq::<PropertyView>::empty(),
    {
        LogContext(ContextProperties::new())
    }

    /// Appends one property to this context, consuming and returning it for
    /// fluent chaining. Duplicate keys are kept as they come.
    #[must_use]
    pub fn record(self, key: &str, value: ContextValue) -> (r: Self)
        ensures
            r@ == self@.push((key@, value@)),
    {
        let LogContext(mut props) = self;
        props.properties.push((String::from_str(key), value));
        proof {
            assert(props@ =~= self@.push((key@, value@)));
        }
        LogContext(props)
    }

    /// Appends one property to the frame currently on top of `stack`.
    ///
    /// This is a free operation, tied to no particular builder: it enriches
    /// whatever frame is active. If no frame is active the stack is left
    /// unchanged and no error is raised.
    pub fn add_record(stack: &mut ContextStack, key: &str, value: ContextValue)
        ensures
            old(stack)@.len() == 0 ==> final(stack)@ == old(stack)@,
            old(stack)@.len() > 0 ==> final(stack)@ == old(stack)@.update(
                old(stack)@.len() - 1,
                old(stack)@.last().push((key@, value@)),
            ),
    {
        match stack.pop() {
            Some(mut top) => {
                top.properties.push((String::from_str(key), value));
                proof {
                    assert(top@ =~= old(stack)@.last().push((key@, value@)));
                }
                stack.push(top);
                proof {
                    assert(stack@ =~= old(stack)@.update(
                        old(stack)@.len() - 1,
                        old(stack)@.last().push((key@, value@)),
                    ));
                }
            },
            None => {},
        }
    }

    /// Activates this context: pushes its properties onto `stack` as the new
    /// top frame and returns the guard that will pop them again.
    #[must_use]
    pub fn enter(self, stack: &mut ContextStack) -> (guard: LogContextGuard)
        ensures
            final(stack)@ == old(stack)@.push(self@),
            guard.depth_below() == old(stack)@.len(),
    {
        LogContextGuard::enter(self, stack)
    }
}

impl Default for LogContext {
    fn default() -> (r: Self)
        ensures
            r@ == Seq::<PropertyView>::empty(),
    {
        LogContext(ContextProperties::new())
    }
}

} // verus!
