use vstd::prelude::*;

use crate::side_panel::SidePanelState;

verus! {

/// The field in which a label is typed for a new tag key.
#[derive(Debug)]
pub struct TagInputState {
    pub tag_input_value: String,
    pub tag: char,
}

impl TagInputState {
    /// An empty field for the label of `tag`.
    pub fn new(tag: char) -> (r: TagInputState)
        ensures
            r.tag == tag,
            r.tag_input_value@.len() == 0,
    {
        TagInputState { tag_input_value: String::new(), tag }
    }

    /// Replaces the text of the field.
    pub fn set(&mut self, value: String)
        ensures
            final(self).tag == old(self).tag,
            final(self).tag_input_value@ == value@,
    {
        self.tag_input_value = value;
    }

    /// Registers the typed text as the label of the field's key, and clears the field.
    pub fn commit(&mut self, registry: &mut SidePanelState)
        requires
            old(registry).wf(),
        ensures
            final(registry).wf(),
            final(registry).label@ == old(registry).label@,
            final(registry).spec_map() == old(registry).spec_map().insert(old(self).tag, old(self).tag_input_value@),
            final(self).tag == old(self).tag,
            final(self).tag_input_value@.len() == 0,
    {
        let value = self.tag_input_value.clone();
        self.tag_input_value = String::new();
        registry.insert(self.tag, value);
    }
}

} // verus!
