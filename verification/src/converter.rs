//! Result of re-encoding an image into another format.

use vstd::prelude::*;

verus! {

/// Quality used when converting from the terminal interface.
pub const CONVERT_QUALITY: u8 = 80;

/// A successful conversion: where the file went and its size in bytes.
#[derive(Debug, Clone)]
pub struct Conversion {
    pub output_path: String,
    pub size: u64,
}

} // verus!
