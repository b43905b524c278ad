use vstd::prelude::*;
use crate::metadata::image::ImageMetadata;
use crate::metadata::plan::MetadataPlan;
use super::ai::{planned_ai, removed_field};

verus! {

/// Applies `plan` to the metadata model.
pub fn apply(metadata: &mut ImageMetadata, plan: &MetadataPlan)
    ensures
        *final(metadata) == (ImageMetadata { ai: planned_ai(old(metadata).ai, *plan), ..*old(metadata) }),
{
    super::ai::apply(metadata, plan);
}

/// The remove-AI plan empties every AI field and marks it removed, keeps the
/// detection flag and every other group, and applying it again changes nothing.
pub proof fn removing_ai_clears_only_ai_fields(m: ImageMetadata)
    ensures
        ({
            let after = planned_ai(m.ai, crate::metadata::plan::remove_ai_plan());
            &&& after.software == removed_field::<String>()
            &&& after.model == removed_field::<String>()
            &&& after.license == removed_field::<String>()
            &&& after.source_url == removed_field::<String>()
            &&& after.detected == m.ai.detected
            &&& planned_ai(after, crate::metadata::plan::remove_ai_plan()) == after
        }),
{
}

} // verus!
