//! Local-variable descriptors.

use vstd::prelude::*;

verus! {

/// The identity of a local-variable binding. The machine compares
/// descriptors verbatim — two descriptors name the same binding exactly when
/// their names agree character for character; it never deduplicates bindings
/// across scope frames.
#[derive(Debug)]
pub struct Local {
    pub name: String,
}

impl Local {
    /// The identity a descriptor is compared by.
    pub open spec fn key(&self) -> Seq<char> {
        self.name@
    }
}

impl Clone for Local {
    fn clone(&self) -> (res: Self)
        ensures
            res == *self,
    {
        Local { name: self.name.clone() }
    }
}

impl PartialEq for Local {
    fn eq(&self, other: &Local) -> (r: bool) {
        self.name == other.name
    }
}

impl vstd::std_specs::cmp::PartialEqSpecImpl for Local {
    open spec fn obeys_eq_spec() -> bool {
        true
    }

    open spec fn eq_spec(&self, other: &Local) -> bool {
        self.key() == other.key()
    }
}

} // verus!
