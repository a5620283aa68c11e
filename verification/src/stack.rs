//! The context stack: a last-in-first-out stack of property frames.
//!
//! Every execution thread is meant to own one stack of its own; the crate
//! never shares a stack across threads, so all operations take the stack by
//! explicit reference and no synchronization is involved.

use vstd::prelude::*;

use crate::properties::ContextProperties;
use crate::properties::PropertyView;

verus! {

/// The views of a sequence of frames, in order of pushing.
pub open spec fn frames_view(s: Seq<ContextProperties>) -> Seq<Seq<PropertyView>> {
    s.map_values(|f: ContextProperties| f@)
}

/// A stack of property frames. The last element of the view is the top
/// frame: the only frame visible to a log emission.
pub struct ContextStack {
    frames: Vec<ContextProperties>,
}

impl View for ContextStack {
    type V = Seq<Seq<PropertyView>>;

    closed spec fn view(&self) -> Seq<Seq<PropertyView>> {
        frames_view(self.frames@)
    }
}

impl ContextStack {
    /// Creates a new, empty context stack.
    pub fn new() -> (r: Self)
        ensures
            r@ == Seq::<Seq<PropertyView>>::empty(),
    {
        ContextStack { frames: Vec::new() }
    }

    /// Pushes a frame; it becomes the new top.
    pub fn push(&mut self, properties: ContextProperties)
        ensures
            final(self)@ == old(self)@.push(properties@),
    {
        self.frames.push(properties);
        proof {
            assert(self@ =~= old(self)@.push(properties@));
        }
    }

    /// Removes and returns the top frame, or `None` if the stack is empty.
    pub fn pop(&mut self) -> (r: Option<ContextProperties>)
        ensures
            old(self)@.len() == 0 ==> r is None && final(self)@ == old(self)@,
            old(self)@.len() > 0 ==> (r matches Some(f) && f@ == old(self)@.last()
                && final(self)@ == old(self)@.drop_last()),
    {
        let r = self.frames.pop();
        proof {
            if old(self)@.len() > 0 {
                assert(self@ =~= old(self)@.drop_last());
            }
        }
        r
    }

    /// Read access to the top frame, or `None` if the stack is empty.
    pub fn top(&self) -> (r: Option<&ContextProperties>)
        ensures
            self@.len() == 0 ==> r is None,
            self@.len() > 0 ==> (r matches Some(f) && f@ == self@.last()),
    {
        let n = self.frames.len();
        if n == 0 {
            None
        } else {
            Some(&self.frames[n - 1])
        }
    }

    /// The number of frames on the stack.
    pub fn len(&self) -> (n: usize)
        ensures
            n == self@.len(),
    {
        self.frames.len()
    }

    /// Whether no frame is on the stack.
    pub fn is_empty(&self) -> (b: bool)
        ensures
            b == (self@.len() == 0),
    {
        self.frames.len() == 0
    }
}

impl Default for ContextStack {
    fn default() -> (r: Self)
        ensures
            r@ == Seq::<Seq<PropertyView>>::empty(),
    {
        ContextStack { frames: Vec::new() }
    }
}

/// The result of pushing a sequence of frames, first element first.
pub open spec fn push_all(
    s: Seq<Seq<PropertyView>>,
    frames: Seq<Seq<PropertyView>>,
) -> Seq<Seq<PropertyView>>
    decreases frames.len(),
{
    if frames.len() == 0 {
        s
    } else {
        push_all(s.push(frames.first()), frames.drop_first())
    }
}

/// The result of popping the top frame `n` times.
pub open spec fn pop_n(s: Seq<Seq<PropertyView>>, n: nat) -> Seq<Seq<PropertyView>>
    decreases n,
{
    if n == 0 {
        s
    } else {
        pop_n(s.drop_last(), (n - 1) as nat)
    }
}

/// Pushing frames in order appends them to the stack.
pub proof fn lemma_push_all_appends(s: Seq<Seq<PropertyView>>, frames: Seq<Seq<PropertyView>>)
    ensures
        push_all(s, frames) == s + frames,
    decreases frames.len(),
{
    if frames.len() == 0 {
        assert(push_all(s, frames) =~= s + frames);
    } else {
        lemma_push_all_appends(s.push(frames.first()), frames.drop_first());
        assert(s.push(frames.first()) + frames.drop_first() =~= s + frames);
    }
}

/// Popping `n` times keeps exactly the stack's first `len - n` frames.
pub proof fn lemma_pop_n_takes_prefix(s: Seq<Seq<PropertyView>>, n: nat)
    requires
        n <= s.len(),
    ensures
        pop_n(s, n) == s.take(s.len() - n),
    decreases n,
{
    if n == 0 {
        assert(pop_n(s, n) =~= s.take(s.len() - n));
    } else {
        lemma_pop_n_takes_prefix(s.drop_last(), (n - 1) as nat);
        assert(s.drop_last().take(s.len() - n) =~= s.take(s.len() - n));
    }
}

/// Law: pushes and pops are balanced. Entering any sequence of nested frames
/// and then dropping each of them, innermost first, restores the stack — in
/// particular its depth — to exactly what it was before the first one was
/// entered.
pub proof fn lemma_balanced_nesting(s: Seq<Seq<PropertyView>>, frames: Seq<Seq<PropertyView>>)
    ensures
        pop_n(push_all(s, frames), frames.len()) == s,
{
    lemma_push_all_appends(s, frames);
    lemma_pop_n_takes_prefix(s + frames, frames.len());
    assert((s + frames).take(s.len() as int) =~= s);
}

} // verus!
