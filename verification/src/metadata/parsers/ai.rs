use vstd::prelude::*;
use crate::metadata::exif::{entry_is, ExifEntry, ExifEntryView, ExifTagKind};
use crate::metadata::image::{AiMetadata, ImageMetadata};
use crate::metadata::parsers::{last_clean_text, store_tag_text, stores_text};
use crate::text::{chars_of, contains_exec, contains_text, lowercase, to_lowercase};

verus! {

/// Whether a lower-case software name mentions a known image generator.
pub open spec fn mentions_ai_tool(lower: Seq<char>) -> bool {
    ||| contains_text(lower, "midjourney"@)
    ||| contains_text(lower, "stable diffusion"@)
    ||| contains_text(lower, "comfyui"@)
    ||| contains_text(lower, "flux"@)
    ||| contains_text(lower, "dall"@)
    ||| contains_text(lower, "fooocus"@)
}

/// Whether some software field names a known image generator, in any case.
pub open spec fn ai_marker_in(es: Seq<ExifEntryView>) -> bool {
    exists|i: int|
        0 <= i < es.len() && entry_is(#[trigger] es[i], ExifTagKind::Software) && mentions_ai_tool(
            lowercase(es[i].text),
        )
}

/// AI use is detected once a software field names a known generator; the
/// software is the last non-empty software field.
pub open spec fn parsed_ai(old: ImageMetadata, new: ImageMetadata, es: Seq<ExifEntryView>) -> bool {
    &&& new.ai.detected == (old.ai.detected || ai_marker_in(es))
    &&& stores_text(old.ai.software, new.ai.software, last_clean_text(es, ExifTagKind::Software))
}

/// Whether the lower-case text `lower` mentions a known image generator.
pub fn mentions_ai_tool_exec(lower: &Vec<char>) -> (res: bool)
    ensures
        res == mentions_ai_tool(lower@),
{
    contains_exec(lower, &chars_of("midjourney")) || contains_exec(
        lower,
        &chars_of("stable diffusion"),
    ) || contains_exec(lower, &chars_of("comfyui")) || contains_exec(lower, &chars_of("flux"))
        || contains_exec(lower, &chars_of("dall")) || contains_exec(lower, &chars_of("fooocus"))
}

/// Reads the software field and flags known image generators.
pub fn parse(entries: &Vec<ExifEntry>, metadata: &mut ImageMetadata)
    ensures
        parsed_ai(*old(metadata), *final(metadata), entries@.map_values(|e: ExifEntry| e@)),
        *final(metadata) == (ImageMetadata {
            ai: AiMetadata {
                detected: final(metadata).ai.detected,
                software: final(metadata).ai.software,
                ..old(metadata).ai
            },
            ..*old(metadata)
        }),
{
    let ghost es = entries@.map_values(|e: ExifEntry| e@);
    let mut i: usize = 0;
    while i < entries.len()
        invariant
            i <= entries.len(),
            es == entries@.map_values(|e: ExifEntry| e@),
            metadata.ai.detected == (old(metadata).ai.detected || ai_marker_in(es.take(i as int))),
            *metadata == (ImageMetadata {
                ai: AiMetadata { detected: metadata.ai.detected, ..old(metadata).ai },
                ..*old(metadata)
            }),
        decreases entries.len() - i,
    {
        proof {
            assert(es.take(i + 1).drop_last() =~= es.take(i as int));
            assert(es.take(i + 1)[i as int] == entries@[i as int]@);
        }
        if entries[i].is(ExifTagKind::Software) {
            let lower = to_lowercase(entries[i].text.as_str());
            let lower_chars = chars_of(lower.as_str());
            if mentions_ai_tool_exec(&lower_chars) {
                metadata.ai.detected = true;
            }
        }
        proof {
            let p = es.take(i + 1);
            if ai_marker_in(p) {
                let k = choose|k: int|
                    0 <= k < p.len() && entry_is(#[trigger] p[k], ExifTagKind::Software)
                        && mentions_ai_tool(lowercase(p[k].text));
                if k < i {
                    assert(es.take(i as int)[k] == p[k]);
                }
            }
            if ai_marker_in(es.take(i as int)) {
                let k = choose|k: int|
                    0 <= k < i && entry_is(#[trigger] es.take(i as int)[k], ExifTagKind::Software)
                        && mentions_ai_tool(lowercase(es.take(i as int)[k].text));
                assert(p[k] == es.take(i as int)[k]);
            }
        }
        i += 1;
    }
    assert(es.take(entries.len() as int) =~= es);
    store_tag_text(entries, ExifTagKind::Software, &mut metadata.ai.software);
}

} // verus!
