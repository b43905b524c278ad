//! The metadata model of an image, grouped by purpose.

use vstd::prelude::*;
use crate::metadata::types::{missing_field, MetadataField};

verus! {

/// Text for the web: description, alt text, keywords.
#[derive(Debug, Clone)]
pub struct WebMetadata {
    pub description: MetadataField<String>,
    pub alt_text: MetadataField<String>,
    pub keywords: MetadataField<String>,
}

/// An unsigned rational as EXIF stores it.
#[derive(Debug, Clone, Copy, PartialEq, Eq, Structural)]
pub struct Rational {
    pub num: u32,
    pub denom: u32,
}

/// A GPS coordinate exactly as stored: degrees, minutes and seconds as
/// rationals, and whether it lies south or west.
#[derive(Debug, Clone, Copy, PartialEq, Eq, Structural)]
pub struct GpsCoordinate {
    pub degrees: Rational,
    pub minutes: Rational,
    pub seconds: Rational,
    pub negative: bool,
}

/// Location and SEO text.
#[derive(Debug, Clone)]
pub struct SeoMetadata {
    pub latitude: MetadataField<GpsCoordinate>,
    pub longitude: MetadataField<GpsCoordinate>,
    pub business_name: MetadataField<String>,
    pub location_name: MetadataField<String>,
    pub service_name: MetadataField<String>,
    pub ai_generated_alt: MetadataField<String>,
}

/// Text for social networks.
#[derive(Debug, Clone)]
pub struct SocialMetadata {
    pub og_title: MetadataField<String>,
    pub og_description: MetadataField<String>,
    pub campaign: MetadataField<String>,
}

/// What the image reveals about people and places.
#[derive(Debug, Clone, Copy, PartialEq, Eq, Structural)]
pub struct PrivacyMetadata {
    pub has_gps: bool,
    pub has_camera_serial: bool,
    pub has_personal_data: bool,
}

/// Traces of AI tools.
#[derive(Debug, Clone)]
pub struct AiMetadata {
    pub detected: bool,
    pub software: MetadataField<String>,
    pub model: MetadataField<String>,
    pub license: MetadataField<String>,
    pub source_url: MetadataField<String>,
}

/// Authorship and rights.
#[derive(Debug, Clone)]
pub struct RightsMetadata {
    pub author: MetadataField<String>,
    pub copyright: MetadataField<String>,
    pub license: MetadataField<String>,
    pub source_url: MetadataField<String>,
}

/// Technical facts about the picture.
#[derive(Debug, Clone)]
pub struct TechnicalMetadata {
    pub width: u32,
    pub height: u32,
    pub file_size: u64,
    pub orientation: MetadataField<String>,
    pub color_profile: MetadataField<String>,
}

/// All the metadata of an image.
#[derive(Debug, Clone)]
pub struct ImageMetadata {
    pub web: WebMetadata,
    pub seo: SeoMetadata,
    pub social: SocialMetadata,
    pub privacy: PrivacyMetadata,
    pub ai: AiMetadata,
    pub rights: RightsMetadata,
    pub technical: TechnicalMetadata,
}

/// Metadata with every field missing and every flag off.
pub open spec fn empty_metadata() -> ImageMetadata {
    ImageMetadata {
        web: WebMetadata {
            description: missing_field(),
            alt_text: missing_field(),
            keywords: missing_field(),
        },
        seo: SeoMetadata {
            latitude: missing_field(),
            longitude: missing_field(),
            business_name: missing_field(),
            location_name: missing_field(),
            service_name: missing_field(),
            ai_generated_alt: missing_field(),
        },
        social: SocialMetadata {
            og_title: missing_field(),
            og_description: missing_field(),
            campaign: missing_field(),
        },
        privacy: PrivacyMetadata { has_gps: false, has_camera_serial: false, has_personal_data: false },
        ai: AiMetadata {
            detected: false,
            software: missing_field(),
            model: missing_field(),
            license: missing_field(),
            source_url: missing_field(),
        },
        rights: RightsMetadata {
            author: missing_field(),
            copyright: missing_field(),
            license: missing_field(),
            source_url: missing_field(),
        },
        technical: TechnicalMetadata {
            width: 0,
            height: 0,
            file_size: 0,
            orientation: missing_field(),
            color_profile: missing_field(),
        },
    }
}

impl Default for ImageMetadata {
    fn default() -> (res: Self)
        ensures
            res == empty_metadata(),
    {
        ImageMetadata {
            web: WebMetadata {
                description: MetadataField::missing(),
                alt_text: MetadataField::missing(),
                keywords: MetadataField::missing(),
            },
            seo: SeoMetadata {
                latitude: MetadataField::missing(),
                longitude: MetadataField::missing(),
                business_name: MetadataField::missing(),
                location_name: MetadataField::missing(),
                service_name: MetadataField::missing(),
                ai_generated_alt: MetadataField::missing(),
            },
            social: SocialMetadata {
                og_title: MetadataField::missing(),
                og_description: MetadataField::missing(),
                campaign: MetadataField::missing(),
            },
            privacy: PrivacyMetadata {
                has_gps: false,
                has_camera_serial: false,
                has_personal_data: false,
            },
            ai: AiMetadata {
                detected: false,
                software: MetadataField::missing(),
                model: MetadataField::missing(),
                license: MetadataField::missing(),
                source_url: MetadataField::missing(),
            },
            rights: RightsMetadata {
                author: MetadataField::missing(),
                copyright: MetadataField::missing(),
                license: MetadataField::missing(),
                source_url: MetadataField::missing(),
            },
            technical: TechnicalMetadata {
                width: 0,
                height: 0,
                file_size: 0,
                orientation: MetadataField::missing(),
                color_profile: MetadataField::missing(),
            },
        }
    }
}

} // verus!
