//! Model identity and the display-name fallback chain.

use vstd::prelude::*;

verus! {

/// The model identity as decoded from a session snapshot. Both fields
/// default to the empty string when the input does not supply them.
pub struct Model {
    pub id: String,
    pub display_name: String,
}

/// What `Model::name` returns: the display name when non-empty, else the id
/// when non-empty, else the `"?"` placeholder.
pub open spec fn spec_model_name(m: &Model) -> Seq<char> {
    if m.display_name@.len() > 0 {
        m.display_name@
    } else if m.id@.len() > 0 {
        m.id@
    } else {
        "?"@
    }
}

impl Model {
    /// The name to display: a three-way priority fallback, display name
    /// before id before the placeholder.
    pub fn name(&self) -> (r: &str)
        ensures
            r@ == spec_model_name(self),
    {
        if !self.display_name.as_str().is_empty() {
            self.display_name.as_str()
        } else if !self.id.as_str().is_empty() {
            self.id.as_str()
        } else {
            "?"
        }
    }
}

impl Default for Model {
    /// The default identity: both fields empty.
    fn default() -> (r: Model)
        ensures
            r.id@ == Seq::<char>::empty(),
            r.display_name@ == Seq::<char>::empty(),
    {
        Model { id: String::new(), display_name: String::new() }
    }
}

} // verus!
