use vstd::prelude::*;
use super::MetadataAction;

verus! {

/// The action to take on each group of metadata.
#[derive(Debug, Clone, Copy, PartialEq, Eq, Structural)]
pub struct MetadataPlan {
    pub ai_software: MetadataAction,
    pub ai_model: MetadataAction,
    pub ai_license: MetadataAction,
    pub ai_source_url: MetadataAction,
    pub gps: MetadataAction,
    pub author: MetadataAction,
    pub copyright: MetadataAction,
    pub description: MetadataAction,
    pub alt_text: MetadataAction,
}

} // verus!
