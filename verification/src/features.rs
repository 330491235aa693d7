//! The set of bytecode features under which a guest module is loaded.

use vstd::prelude::*;

verus! {

/// Toggles of optional bytecode features. A module loads only under a
/// feature set that covers every feature its bytecode relies on.
#[derive(Clone, Copy, Debug, PartialEq, Eq, Structural)]
pub struct FeatureSet {
    pub multi_memory: bool,
    pub tail_call: bool,
    pub reference_types: bool,
    pub module_linking: bool,
    pub threads: bool,
}

impl FeatureSet {
    /// The feature set with every toggle off.
    pub fn none() -> (set: Self)
        ensures
            set == (FeatureSet {
                multi_memory: false,
                tail_call: false,
                reference_types: false,
                module_linking: false,
                threads: false,
            }),
    {
        FeatureSet {
            multi_memory: false,
            tail_call: false,
            reference_types: false,
            module_linking: false,
            threads: false,
        }
    }

    /// The feature set with every toggle on.
    pub fn all() -> (set: Self)
        ensures
            set == (FeatureSet {
                multi_memory: true,
                tail_call: true,
                reference_types: true,
                module_linking: true,
                threads: true,
            }),
    {
        FeatureSet {
            multi_memory: true,
            tail_call: true,
            reference_types: true,
            module_linking: true,
            threads: true,
        }
    }

    /// Whether every feature that `required` turns on is on in `self`.
    pub open spec fn spec_covers(self, required: FeatureSet) -> bool {
        &&& required.multi_memory ==> self.multi_memory
        &&& required.tail_call ==> self.tail_call
        &&& required.reference_types ==> self.reference_types
        &&& required.module_linking ==> self.module_linking
        &&& required.threads ==> self.threads
    }

    /// Whether every feature that `required` turns on is on in `self`.
    #[verifier::when_used_as_spec(spec_covers)]
    pub fn covers(self, required: FeatureSet) -> (covered: bool)
        ensures
            covered == self.spec_covers(required),
    {
        (!required.multi_memory || self.multi_memory) && (!required.tail_call || self.tail_call)
            && (!required.reference_types || self.reference_types) && (!required.module_linking
            || self.module_linking) && (!required.threads || self.threads)
    }
}

} // verus!
