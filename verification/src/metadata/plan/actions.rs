use vstd::prelude::*;

verus! {

/// What a plan does to one group of metadata.
#[derive(Debug, Clone, Copy, PartialEq, Eq, Structural)]
pub enum MetadataAction {
    Preserve,
    Add,
    Modify,
    Remove,
}

} // verus!
