//! Ordered key-value property sets: one frame of logging context.

use vstd::prelude::*;

use crate::value::ContextValue;
use crate::value::ValueView;

verus! {

/// The mathematical content of one property: the key's characters paired
/// with the value's view.
pub type PropertyView = (Seq<char>, ValueView);

/// The views of a sequence of concrete properties, in order.
pub open spec fn properties_view(s: Seq<(String, ContextValue)>) -> Seq<PropertyView> {
    s.map_values(|p: (String, ContextValue)| (p.0@, p.1@))
}

/// An ordered sequence of properties, appended to while a frame is built.
///
/// Keys need not be unique: duplicates are preserved in insertion order and
/// left to the sink to resolve.
pub struct ContextProperties {
    pub properties: Vec<(String, ContextValue)>,
}

impl View for ContextProperties {
    type V = Seq<PropertyView>;

    open spec fn view(&self) -> Seq<PropertyView> {
        properties_view(self.properties@)
    }
}

impl ContextProperties {
    /// Creates an empty property set.
    pub fn new() -> (r: Self)
        ensures
            r@ == Seq::<PropertyView>::empty(),
    {
        ContextProperties { properties: Vec::new() }
    }
}

impl Default for ContextProperties {
    fn default() -> (r: Self)
        ensures
            r@ == Seq::<PropertyView>::empty(),
    {
        ContextProperties { properties: Vec::new() }
    }
}

} // verus!
