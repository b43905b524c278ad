use vstd::prelude::*;
use crate::metadata::ImageMetadata;
use super::{MetadataAction, MetadataPlan};

verus! {

/// The plan that removes every AI field and keeps everything else.
pub open spec fn remove_ai_plan() -> MetadataPlan {
    MetadataPlan {
        ai_software: MetadataAction::Remove,
        ai_model: MetadataAction::Remove,
        ai_license: MetadataAction::Remove,
        ai_source_url: MetadataAction::Remove,
        gps: MetadataAction::Preserve,
        author: MetadataAction::Preserve,
        copyright: MetadataAction::Preserve,
        description: MetadataAction::Preserve,
        alt_text: MetadataAction::Preserve,
    }
}

/// Plan that removes the AI metadata and preserves GPS, rights and text.
pub fn build_remove_ai_plan(metadata: &ImageMetadata) -> (res: MetadataPlan)
    ensures
        res == remove_ai_plan(),
{
    MetadataPlan {
        ai_software: MetadataAction::Remove,
        ai_model: MetadataAction::Remove,
        ai_license: MetadataAction::Remove,
        ai_source_url: MetadataAction::Remove,
        gps: MetadataAction::Preserve,
        author: MetadataAction::Preserve,
        copyright: MetadataAction::Preserve,
        description: MetadataAction::Preserve,
        alt_text: MetadataAction::Preserve,
    }
}

} // verus!
