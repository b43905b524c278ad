use vstd::prelude::*;
use crate::metadata::image::{AiMetadata, ImageMetadata};
use crate::metadata::plan::{MetadataAction, MetadataPlan};
use crate::metadata::types::{MetadataField, MetadataStatus};

verus! {

/// A removed field: no value, status removed.
pub open spec fn removed_field<T>() -> MetadataField<T> {
    MetadataField { value: None, status: MetadataStatus::Removed }
}

/// The field after `action`: removed when the action is `Remove`, else kept.
pub open spec fn after_action<T>(field: MetadataField<T>, action: MetadataAction) -> MetadataField<T> {
    if action == MetadataAction::Remove {
        removed_field()
    } else {
        field
    }
}

/// The AI metadata after the plan: each AI field marked `Remove` is removed.
pub open spec fn planned_ai(ai: AiMetadata, plan: MetadataPlan) -> AiMetadata {
    AiMetadata {
        detected: ai.detected,
        software: after_action(ai.software, plan.ai_software),
        model: after_action(ai.model, plan.ai_model),
        license: after_action(ai.license, plan.ai_license),
        source_url: after_action(ai.source_url, plan.ai_source_url),
    }
}

/// Applies the AI part of `plan` to `metadata`.
pub fn apply(metadata: &mut ImageMetadata, plan: &MetadataPlan)
    ensures
        *final(metadata) == (ImageMetadata { ai: planned_ai(old(metadata).ai, *plan), ..*old(metadata) }),
{
    if plan.ai_software == MetadataAction::Remove {
        metadata.ai.software.value = None;
        metadata.ai.software.status = MetadataStatus::Removed;
    }
    if plan.ai_model == MetadataAction::Remove {
        metadata.ai.model.value = None;
        metadata.ai.model.status = MetadataStatus::Removed;
    }
    if plan.ai_license == MetadataAction::Remove {
        metadata.ai.license.value = None;
        metadata.ai.license.status = MetadataStatus::Removed;
    }
    if plan.ai_source_url == MetadataAction::Remove {
        metadata.ai.source_url.value = None;
        metadata.ai.source_url.status = MetadataStatus::Removed;
    }
}

} // verus!
