//! Whether an image needs optimizing at all.

use vstd::prelude::*;
use crate::inspector::ImageInfo;
use crate::paths::{extension_of, path_extension};
use crate::text::{eq_ignore_ascii_case, eq_ignore_ascii_case_exec};
use crate::types::OutputFormat;

verus! {

#[derive(Debug, Clone, Copy, PartialEq, Eq, Structural)]
pub enum OptimizationDecision {
    Optimize,
    SkipAlreadyOptimized,
    SkipTooSmall,
    SkipSameFormat,
}

/// Whether the image already has the extension of `format`, in any ASCII case.
pub open spec fn has_format(image: Seq<char>, format: OutputFormat) -> bool {
    match path_extension(image) {
        Some(ext) => eq_ignore_ascii_case(ext, format.extension_text()),
        None => false,
    }
}

/// Whether the image already fits inside the requested bounds.
pub open spec fn fits_within(info: ImageInfo, width: Option<u32>, height: Option<u32>) -> bool {
    &&& (width matches Some(w) ==> info.width <= w)
    &&& (height matches Some(h) ==> info.height <= h)
}

/// The decision for an image, as `evaluate` makes it.
pub open spec fn evaluation(
    image: Seq<char>,
    format: OutputFormat,
    width: Option<u32>,
    height: Option<u32>,
    info: ImageInfo,
) -> OptimizationDecision {
    if has_format(image, format) && fits_within(info, width, height) {
        OptimizationDecision::SkipAlreadyOptimized
    } else {
        OptimizationDecision::Optimize
    }
}

/// An image is skipped as already optimized when it is in the target format
/// and fits the requested bounds; otherwise it is optimized. `info` describes
/// `image` as inspected.
pub fn evaluate(
    image: &str,
    format: OutputFormat,
    width: Option<u32>,
    height: Option<u32>,
    info: &ImageInfo,
) -> (res: OptimizationDecision)
    ensures
        res == evaluation(image@, format, width, height, *info),
{
    let same_format = match extension_of(image) {
        Some(ext) => eq_ignore_ascii_case_exec(ext.as_str(), format.extension()),
        None => false,
    };
    let width_ok = match width {
        Some(w) => info.width <= w,
        None => true,
    };
    let height_ok = match height {
        Some(h) => info.height <= h,
        None => true,
    };
    if same_format && width_ok && height_ok {
        OptimizationDecision::SkipAlreadyOptimized
    } else {
        OptimizationDecision::Optimize
    }
}


/// An image is skipped only when its extension names the target format, in
/// any ASCII case, and it lies within every bound given: an image wider or
/// taller than a bound given is optimized, whatever the other bound; the
/// decision is always to optimize or to skip it as already optimized.
pub proof fn skipped_only_within_every_bound(
    image: Seq<char>,
    format: OutputFormat,
    width: Option<u32>,
    height: Option<u32>,
    info: ImageInfo,
)
    ensures
        width is Some && info.width > width.unwrap() ==> evaluation(image, format, width, height, info)
            == OptimizationDecision::Optimize,
        height is Some && info.height > height.unwrap() ==> evaluation(image, format, width, height, info)
            == OptimizationDecision::Optimize,
        evaluation(image, format, width, height, info) == OptimizationDecision::SkipAlreadyOptimized ==> {
            &&& path_extension(image) is Some
            &&& eq_ignore_ascii_case(path_extension(image).unwrap(), format.extension_text())
            &&& (width is Some ==> info.width <= width.unwrap())
            &&& (height is Some ==> info.height <= height.unwrap())
        },
        path_extension(image) is Some && eq_ignore_ascii_case(path_extension(image).unwrap(), format.extension_text())
            && (width is Some ==> info.width <= width.unwrap()) && (height is Some ==> info.height <= height.unwrap())
            ==> evaluation(image, format, width, height, info) == OptimizationDecision::SkipAlreadyOptimized,
        evaluation(image, format, width, height, info) == OptimizationDecision::Optimize || evaluation(
            image,
            format,
            width,
            height,
            info,
        ) == OptimizationDecision::SkipAlreadyOptimized,
{
}

} // verus!
