pub mod actions;
pub mod builder;
pub mod plan;

pub use actions::MetadataAction;
pub use builder::{build_remove_ai_plan, remove_ai_plan};
pub use plan::MetadataPlan;
