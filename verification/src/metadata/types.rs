use vstd::prelude::*;

verus! {

/// Where a metadata field stands.
#[derive(Debug, Clone, Copy, PartialEq, Eq, Structural)]
pub enum MetadataStatus {
    /// The field is not in the image.
    Missing,
    /// The field is in the image and unchanged.
    Present,
    /// The field was added by the tool.
    Added,
    /// The value was changed.
    Modified,
    /// The field was in the image and has been removed.
    Removed,
}

impl Default for MetadataStatus {
    fn default() -> (res: Self)
        ensures
            res == MetadataStatus::Missing,
    {
        MetadataStatus::Missing
    }
}

/// A metadata value and its status.
#[derive(Debug, Clone)]
pub struct MetadataField<T> {
    pub value: Option<T>,
    pub status: MetadataStatus,
}

/// A field that is not in the image.
pub open spec fn missing_field<T>() -> MetadataField<T> {
    MetadataField { value: None, status: MetadataStatus::Missing }
}

impl<T> MetadataField<T> {
    /// A field that is not in the image.
    pub fn missing() -> (res: Self)
        ensures
            res == missing_field::<T>(),
    {
        MetadataField { value: None, status: MetadataStatus::Missing }
    }
}

impl<T> Default for MetadataField<T> {
    fn default() -> (res: Self)
        ensures
            res == missing_field::<T>(),
    {
        MetadataField { value: None, status: MetadataStatus::Missing }
    }
}

} // verus!
