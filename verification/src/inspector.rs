//! Basic facts about an image file. Reading the file and decoding its
//! dimensions is the caller's.

use vstd::prelude::*;
use crate::paths::{file_name_of, opt_text, path_file_name};

verus! {

/// Basic facts about an image file.
#[derive(Debug, Clone)]
pub struct ImageInfo {
    pub path: String,
    pub filename: String,
    /// Size of the file in bytes.
    pub size: u64,
    pub width: u32,
    pub height: u32,
}

/// The facts about the image at `path`, of `size` bytes and `width` by
/// `height` pixels; its file name is the last component of the path. `None`
/// when the path has no file name.
pub fn image_info(path: &str, size: u64, width: u32, height: u32) -> (res: Option<ImageInfo>)
    ensures
        match path_file_name(path@) {
            Some(name) => res matches Some(info) && info.path@ == path@ && info.filename@ == name
                && info.size == size && info.width == width && info.height == height,
            None => res is None,
        },
{
    match file_name_of(path) {
        Some(filename) => Some(ImageInfo { path: path.to_string(), filename, size, width, height }),
        None => None,
    }
}

} // verus!
