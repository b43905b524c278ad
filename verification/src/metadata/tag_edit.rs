//! Applying the steps of an edit to the EXIF tags of an image, held by the
//! `little_exif` crate. The tags are read from and written back to the file
//! by the caller.

use vstd::prelude::*;
use little_exif::exif_tag::ExifTag;
use little_exif::ifd::ExifTagGroup;
use little_exif::metadata::Metadata;
use little_exif::rational::uR64;
use crate::metadata::editor::{edit_steps, EditStep, GpsPosition, MetadataEdit, StepView};
use crate::metadata::image::{GpsCoordinate, Rational};

verus! {

#[verifier::external_type_specification]
#[verifier::external_body]
pub struct ExMetadata(Metadata);

/// The groups of EXIF tags, each kept in IFDs of its own.
#[derive(Debug, Clone, Copy, PartialEq, Eq, Structural)]
pub enum TagGroup {
    Generic,
    Exif,
    Interop,
    Gps,
}

/// A number for each group, as the tag keys hold it.
pub open spec fn group_code(group: TagGroup) -> u8 {
    match group {
        TagGroup::Generic => 0,
        TagGroup::Exif => 1,
        TagGroup::Interop => 2,
        TagGroup::Gps => 3,
    }
}

/// A tag this library writes, with its value.
#[derive(Debug, Clone)]
pub enum TagValue {
    Description(String),
    LatitudeRef(String),
    Latitude(Vec<Rational>),
    LongitudeRef(String),
    Longitude(Vec<Rational>),
}

/// The value of a tag as plain data: the text of a text tag, the
/// (numerator, denominator) pairs of a tag of unsigned rationals, and the
/// bytes of the value of any other tag.
pub enum TagData {
    Text(Seq<char>),
    Rationals(Seq<(u32, u32)>),
    Bytes(Seq<u8>),
}

/// Key of a tag: (group code, number of the generic IFD whose IFDs hold it,
/// tag number).
pub type TagKey = (u8, u32, u16);

/// Name for the tags that a `Metadata` holds: the value held under each key.
pub uninterp spec fn exif_tags(meta: Metadata) -> Map<(u8, u32, u16), TagData>;

/// Name for the highest number of a generic IFD of a `Metadata` (0 when it
/// has none).
pub uninterp spec fn max_generic_ifd(meta: Metadata) -> u32;

/// Tag number of the image description, in the generic group.
pub open spec fn description_number() -> u16 {
    0x010e
}

/// Tag number of the software, in the generic group.
pub open spec fn software_number() -> u16 {
    0x0131
}

/// Tag number of the pointer to the GPS IFD, in the generic group.
pub open spec fn gps_info_number() -> u16 {
    0x8825
}

/// The highest GPS tag number: the GPS group holds tags 0 to 0x1f.
pub open spec fn last_gps_number() -> u16 {
    0x1f
}

/// The key under which a written tag is held: set tags go into the IFDs that
/// belong to IFD0.
pub open spec fn tag_key(tag: TagValue) -> TagKey {
    match tag {
        TagValue::Description(_) => (group_code(TagGroup::Generic), 0, description_number()),
        TagValue::LatitudeRef(_) => (group_code(TagGroup::Gps), 0, 1),
        TagValue::Latitude(_) => (group_code(TagGroup::Gps), 0, 2),
        TagValue::LongitudeRef(_) => (group_code(TagGroup::Gps), 0, 3),
        TagValue::Longitude(_) => (group_code(TagGroup::Gps), 0, 4),
    }
}

/// Rationals as (numerator, denominator) pairs.
pub open spec fn rational_pairs(v: Seq<Rational>) -> Seq<(u32, u32)> {
    v.map_values(|r: Rational| (r.num, r.denom))
}

/// The value a written tag holds.
pub open spec fn tag_data(tag: TagValue) -> TagData {
    match tag {
        TagValue::Description(t) => TagData::Text(t@),
        TagValue::LatitudeRef(t) => TagData::Text(t@),
        TagValue::Latitude(v) => TagData::Rationals(rational_pairs(v@)),
        TagValue::LongitudeRef(t) => TagData::Text(t@),
        TagValue::Longitude(v) => TagData::Rationals(rational_pairs(v@)),
    }
}

/// `tags` without the tag `number` of group `group` in the IFDs of the
/// generic IFDs up to `max`; every other tag keeps its value.
pub open spec fn without(tags: Map<TagKey, TagData>, group: u8, number: u16, max: u32) -> Map<TagKey, TagData> {
    tags.restrict(tags.dom().filter(|t: TagKey| !(t.0 == group && t.2 == number && t.1 <= max)))
}

/// `Metadata::set_tag`: the tag goes into the IFD of its group that belongs
/// to IFD0, created (empty, with its parent) when missing, and replaces the
/// tag of the same number there, holding the value given; no other tag and
/// no generic IFD number changes. The crate panics when two IFDs share a
/// group and a number, which no `Metadata` it decodes or builds has.
#[verifier::external_body]
fn set_tag(meta: &mut Metadata, tag: TagValue)
    ensures
        exif_tags(*final(meta)) == exif_tags(*old(meta)).insert(tag_key(tag), tag_data(tag)),
        max_generic_ifd(*final(meta)) == max_generic_ifd(*old(meta)),
{
    meta.set_tag(match tag {
        TagValue::Description(t) => ExifTag::ImageDescription(t),
        TagValue::LatitudeRef(t) => ExifTag::GPSLatitudeRef(t),
        TagValue::Latitude(v) => ExifTag::GPSLatitude(v.iter().map(|r| uR64 { nominator: r.num, denominator: r.denom }).collect()),
        TagValue::LongitudeRef(t) => ExifTag::GPSLongitudeRef(t),
        TagValue::Longitude(v) => ExifTag::GPSLongitude(v.iter().map(|r| uR64 { nominator: r.num, denominator: r.denom }).collect()),
    });
}

/// `Metadata::remove_tag_by_hex_group`: removes the tag `number` from every
/// IFD of `group` that belongs to a generic IFD numbered up to the highest
/// one; no other tag changes its value, and no generic IFD number changes.
#[verifier::external_body]
fn remove_tag(meta: &mut Metadata, group: TagGroup, number: u16)
    ensures
        exif_tags(*final(meta)) == without(
            exif_tags(*old(meta)),
            group_code(group),
            number,
            max_generic_ifd(*old(meta)),
        ),
        max_generic_ifd(*final(meta)) == max_generic_ifd(*old(meta)),
{
    meta.remove_tag_by_hex_group(number, match group {
        TagGroup::Generic => ExifTagGroup::GENERIC,
        TagGroup::Exif => ExifTagGroup::EXIF,
        TagGroup::Interop => ExifTagGroup::INTEROP,
        TagGroup::Gps => ExifTagGroup::GPS,
    });
}

/// Whether removing the GPS tags removes the tag with key `t`: every GPS tag
/// and the pointer to the GPS IFD, in the IFDs of the generic IFDs up to `max`.
pub open spec fn removed_by_gps_removal(t: TagKey, max: u32) -> bool {
    &&& t.1 <= max
    &&& ((t.0 == group_code(TagGroup::Gps) && t.2 <= last_gps_number()) || (t.0 == group_code(
        TagGroup::Generic,
    ) && t.2 == gps_info_number()))
}

/// The tags left after removing the GPS tags.
pub open spec fn without_gps(tags: Map<TagKey, TagData>, max: u32) -> Map<TagKey, TagData> {
    tags.restrict(tags.dom().filter(|t: TagKey| !removed_by_gps_removal(t, max)))
}

/// The hemisphere letter of a latitude: S south of the equator, else N.
pub open spec fn latitude_ref(c: GpsCoordinate) -> Seq<char> {
    if c.negative { "S"@ } else { "N"@ }
}

/// The hemisphere letter of a longitude: W west of Greenwich, else E.
pub open spec fn longitude_ref(c: GpsCoordinate) -> Seq<char> {
    if c.negative { "W"@ } else { "E"@ }
}

/// The degrees, minutes and seconds of a coordinate, as pairs.
pub open spec fn dms_pairs(c: GpsCoordinate) -> Seq<(u32, u32)> {
    seq![(c.degrees.num, c.degrees.denom), (c.minutes.num, c.minutes.denom), (c.seconds.num, c.seconds.denom)]
}

/// The tags after writing a position: the latitude's hemisphere and its
/// degrees, minutes and seconds under GPS tags 1 and 2, the longitude's under
/// 3 and 4.
pub open spec fn with_position(tags: Map<TagKey, TagData>, p: GpsPosition) -> Map<TagKey, TagData> {
    tags.insert((3, 0, 1), TagData::Text(latitude_ref(p.latitude)))
        .insert((3, 0, 2), TagData::Rationals(dms_pairs(p.latitude)))
        .insert((3, 0, 3), TagData::Text(longitude_ref(p.longitude)))
        .insert((3, 0, 4), TagData::Rationals(dms_pairs(p.longitude)))
}

/// The tags after one step, where `max` is the highest generic IFD number.
pub open spec fn after_step(tags: Map<TagKey, TagData>, max: u32, step: StepView) -> Map<TagKey, TagData> {
    match step {
        StepView::SetDescription(t) => tags.insert((0, 0, description_number()), TagData::Text(t)),
        StepView::RemoveDescription => without(tags, 0, description_number(), max),
        StepView::RemoveGps => without_gps(tags, max),
        StepView::SetGps(p) => with_position(tags, p),
        StepView::RemoveSoftware => without(tags, 0, software_number(), max),
    }
}

/// The tags after all the steps, in order.
pub open spec fn after_steps(tags: Map<TagKey, TagData>, max: u32, steps: Seq<StepView>) -> Map<TagKey, TagData>
    decreases steps.len(),
{
    if steps.len() == 0 {
        tags
    } else {
        after_step(after_steps(tags, max, steps.drop_last()), max, steps.last())
    }
}

/// Removes every GPS tag, and the pointer to the GPS IFD.
fn remove_gps(meta: &mut Metadata)
    ensures
        exif_tags(*final(meta)) == without_gps(exif_tags(*old(meta)), max_generic_ifd(*old(meta))),
        max_generic_ifd(*final(meta)) == max_generic_ifd(*old(meta)),
{
    let ghost tags0 = exif_tags(*meta);
    let ghost max = max_generic_ifd(*meta);
    let mut number: u16 = 0;
    while number <= 0x1f
        invariant
            number <= 0x20,
            max_generic_ifd(*meta) == max,
            exif_tags(*meta) == tags0.restrict(
                tags0.dom().filter(|t: TagKey| !(t.0 == 3 && t.2 < number && t.1 <= max)),
            ),
        decreases 0x20 - number,
    {
        remove_tag(meta, TagGroup::Gps, number);
        assert(exif_tags(*meta) =~= tags0.restrict(
            tags0.dom().filter(|t: TagKey| !(t.0 == 3 && t.2 < number + 1 && t.1 <= max)),
        ));
        number = number + 1;
    }
    remove_tag(meta, TagGroup::Generic, 0x8825);
    assert(exif_tags(*meta) =~= without_gps(tags0, max));
}

/// The degrees, minutes and seconds of a coordinate, as written.
fn dms(c: &GpsCoordinate) -> (res: Vec<Rational>)
    ensures
        res@ == seq![c.degrees, c.minutes, c.seconds],
        rational_pairs(res@) == dms_pairs(*c),
{
    let mut v: Vec<Rational> = Vec::new();
    v.push(c.degrees);
    v.push(c.minutes);
    v.push(c.seconds);
    assert(rational_pairs(v@) =~= dms_pairs(*c));
    v
}

/// Writes a position: the hemisphere of each coordinate (N or S, E or W)
/// and its degrees, minutes and seconds.
fn set_gps(meta: &mut Metadata, position: &GpsPosition)
    ensures
        exif_tags(*final(meta)) == with_position(exif_tags(*old(meta)), *position),
        max_generic_ifd(*final(meta)) == max_generic_ifd(*old(meta)),
{
    let lat_ref = if position.latitude.negative {
        "S"
    } else {
        "N"
    };
    let lon_ref = if position.longitude.negative {
        "W"
    } else {
        "E"
    };
    set_tag(meta, TagValue::LatitudeRef(lat_ref.to_string()));
    set_tag(meta, TagValue::Latitude(dms(&position.latitude)));
    set_tag(meta, TagValue::LongitudeRef(lon_ref.to_string()));
    set_tag(meta, TagValue::Longitude(dms(&position.longitude)));
    assert(exif_tags(*meta) =~= with_position(exif_tags(*old(meta)), *position));
}

/// Applies one step of an edit to the tags.
fn apply_step(meta: &mut Metadata, step: &EditStep)
    ensures
        exif_tags(*final(meta)) == after_step(exif_tags(*old(meta)), max_generic_ifd(*old(meta)), step@),
        max_generic_ifd(*final(meta)) == max_generic_ifd(*old(meta)),
{
    match step {
        EditStep::SetDescription(text) => set_tag(meta, TagValue::Description(text.clone())),
        EditStep::RemoveDescription => remove_tag(meta, TagGroup::Generic, 0x010e),
        EditStep::RemoveGps => remove_gps(meta),
        EditStep::SetGps(position) => set_gps(meta, position),
        EditStep::RemoveSoftware => remove_tag(meta, TagGroup::Generic, 0x0131),
    }
}

/// Applies the steps of an edit to the tags, in order: the description is
/// set to its text or removed, the GPS tags removed or the position written
/// (hemisphere letters and degrees, minutes and seconds), and the software
/// tag removed, as the steps say; every other tag keeps its value.
pub fn apply_steps(meta: &mut Metadata, steps: &Vec<EditStep>)
    ensures
        exif_tags(*final(meta)) == after_steps(
            exif_tags(*old(meta)),
            max_generic_ifd(*old(meta)),
            steps@.map_values(|s: EditStep| s@),
        ),
        max_generic_ifd(*final(meta)) == max_generic_ifd(*old(meta)),
{
    let ghost tags0 = exif_tags(*meta);
    let ghost max = max_generic_ifd(*meta);
    let ghost views = steps@.map_values(|s: EditStep| s@);
    let mut i: usize = 0;
    while i < steps.len()
        invariant
            i <= steps.len(),
            views == steps@.map_values(|s: EditStep| s@),
            max_generic_ifd(*meta) == max,
            exif_tags(*meta) == after_steps(tags0, max, views.take(i as int)),
        decreases steps.len() - i,
    {
        apply_step(meta, &steps[i]);
        assert(views.take(i + 1).drop_last() =~= views.take(i as int));
        i += 1;
    }
    assert(views.take(i as int) =~= views);
}

/// Whether a tag key is one that some step of an edit may change: the
/// description, the software, the pointer to the GPS IFD or a GPS tag.
pub open spec fn edited_key(t: TagKey) -> bool {
    ||| t.0 == group_code(TagGroup::Generic) && (t.2 == description_number() || t.2 == software_number()
        || t.2 == gps_info_number())
    ||| t.0 == group_code(TagGroup::Gps)
}

/// Whether a step may change the tag with key `k`.
pub open spec fn touches(step: StepView, k: TagKey) -> bool {
    match step {
        StepView::SetDescription(_) => k.0 == 0 && k.2 == description_number(),
        StepView::RemoveDescription => k.0 == 0 && k.2 == description_number(),
        StepView::RemoveGps => (k.0 == 3 && k.2 <= last_gps_number()) || (k.0 == 0 && k.2 == gps_info_number()),
        StepView::SetGps(_) => k.0 == 3 && 1 <= k.2 <= 4,
        StepView::RemoveSoftware => k.0 == 0 && k.2 == software_number(),
    }
}

/// A step leaves a tag it does not touch as it was, present or not.
proof fn lemma_step_keeps(tags: Map<TagKey, TagData>, max: u32, step: StepView, k: TagKey)
    requires
        !touches(step, k),
    ensures
        after_step(tags, max, step).dom().contains(k) == tags.dom().contains(k),
        tags.dom().contains(k) ==> after_step(tags, max, step)[k] == tags[k],
{
}

/// Every other tag of the image keeps its value, and stays absent when it
/// was absent, whatever the edit.
pub proof fn edits_keep_other_tags(tags: Map<TagKey, TagData>, max: u32, steps: Seq<StepView>)
    ensures
        forall|t: TagKey| !edited_key(t) ==> (#[trigger] after_steps(tags, max, steps).dom().contains(t)
            <==> tags.dom().contains(t)),
        forall|t: TagKey| !edited_key(t) && tags.dom().contains(t) ==> #[trigger] after_steps(tags, max, steps)[t]
            == tags[t],
    decreases steps.len(),
{
    if steps.len() > 0 {
        edits_keep_other_tags(tags, max, steps.drop_last());
        let prev = after_steps(tags, max, steps.drop_last());
        assert forall|t: TagKey| !edited_key(t) implies (after_steps(tags, max, steps).dom().contains(t)
            <==> prev.dom().contains(t)) && (prev.dom().contains(t) ==> after_steps(tags, max, steps)[t]
            == prev[t]) by {
            lemma_step_keeps(prev, max, steps.last(), t);
        }
    }
}

proof fn lemma_after_steps_append(tags: Map<TagKey, TagData>, max: u32, a: Seq<StepView>, b: Seq<StepView>)
    ensures
        after_steps(tags, max, a + b) == after_steps(after_steps(tags, max, a), max, b),
    decreases b.len(),
{
    if b.len() == 0 {
        assert(a + b =~= a);
    } else {
        assert((a + b).drop_last() =~= a + b.drop_last());
        assert((a + b).last() == b.last());
        lemma_after_steps_append(tags, max, a, b.drop_last());
    }
}

/// Steps that do not touch `k` leave its tag as it was.
proof fn lemma_steps_keep(tags: Map<TagKey, TagData>, max: u32, steps: Seq<StepView>, k: TagKey)
    requires
        forall|i: int| 0 <= i < steps.len() ==> !touches(#[trigger] steps[i], k),
    ensures
        after_steps(tags, max, steps).dom().contains(k) == tags.dom().contains(k),
        tags.dom().contains(k) ==> after_steps(tags, max, steps)[k] == tags[k],
    decreases steps.len(),
{
    if steps.len() > 0 {
        assert forall|i: int| 0 <= i < steps.drop_last().len() implies !touches(#[trigger] steps.drop_last()[i], k) by {
            assert(steps.drop_last()[i] == steps[i]);
        }
        lemma_steps_keep(tags, max, steps.drop_last(), k);
        lemma_step_keeps(after_steps(tags, max, steps.drop_last()), max, steps.last(), k);
    }
}

/// The steps of an edit in their three parts: the text, the GPS and the AI
/// step.
pub open spec fn text_part(edit: MetadataEdit) -> Seq<StepView> {
    match edit.alt_text {
        Some(t) => if crate::text::trim(t@).len() == 0 {
            seq![StepView::RemoveDescription]
        } else {
            seq![StepView::SetDescription(t@)]
        },
        None => Seq::empty(),
    }
}

pub open spec fn gps_part(edit: MetadataEdit) -> Seq<StepView> {
    if edit.remove_gps {
        seq![StepView::RemoveGps]
    } else if let Some(p) = edit.gps {
        seq![StepView::SetGps(p)]
    } else {
        Seq::empty()
    }
}

pub open spec fn ai_part(edit: MetadataEdit) -> Seq<StepView> {
    if edit.remove_ai {
        seq![StepView::RemoveSoftware]
    } else {
        Seq::empty()
    }
}

proof fn lemma_single_step(tags: Map<TagKey, TagData>, max: u32, step: StepView)
    ensures
        after_steps(tags, max, seq![step]) == after_step(tags, max, step),
{
    let s = seq![step];
    assert(s.drop_last() =~= Seq::<StepView>::empty());
    assert(s.last() == step);
    assert(after_steps(tags, max, s.drop_last()) == tags);
}

/// The tags after an edit, as the tags after its text part, then its GPS
/// part, then its AI part.
proof fn lemma_edit_parts(tags: Map<TagKey, TagData>, max: u32, edit: MetadataEdit)
    ensures
        edit_steps(edit) == text_part(edit) + gps_part(edit) + ai_part(edit),
        after_steps(tags, max, edit_steps(edit)) == after_steps(
            after_steps(after_steps(tags, max, text_part(edit)), max, gps_part(edit)),
            max,
            ai_part(edit),
        ),
{
    assert(edit_steps(edit) =~= text_part(edit) + gps_part(edit) + ai_part(edit));
    lemma_after_steps_append(tags, max, text_part(edit) + gps_part(edit), ai_part(edit));
    lemma_after_steps_append(tags, max, text_part(edit), gps_part(edit));
}

/// An edit that removes the GPS position leaves no GPS tag, and no pointer
/// to the GPS IFD, in the IFDs of the generic IFDs up to the highest one,
/// whatever else it does.
pub proof fn removing_gps_leaves_no_gps_tag(tags: Map<TagKey, TagData>, max: u32, edit: MetadataEdit)
    requires
        edit.remove_gps,
    ensures
        forall|t: TagKey| #[trigger] after_steps(tags, max, edit_steps(edit)).dom().contains(t)
            ==> !removed_by_gps_removal(t, max),
{
    lemma_edit_parts(tags, max, edit);
    let a = after_steps(tags, max, text_part(edit));
    lemma_single_step(a, max, StepView::RemoveGps);
    let cleared = after_steps(a, max, gps_part(edit));
    if edit.remove_ai {
        lemma_single_step(cleared, max, StepView::RemoveSoftware);
    } else {
        assert(after_steps(cleared, max, ai_part(edit)) == cleared);
    }
}

/// What an edit writes: the description holds the alt text, or is gone when
/// the text is blank; unless the GPS position is removed, a position given
/// is held as its hemisphere letters and its degrees, minutes and seconds;
/// the software tag is gone when AI markers are removed.
pub proof fn edit_writes_its_values(tags: Map<TagKey, TagData>, max: u32, edit: MetadataEdit)
    ensures
        ({
            let after = after_steps(tags, max, edit_steps(edit));
            &&& (edit.alt_text matches Some(t) && crate::text::trim(t@).len() > 0) ==> after.dom().contains(
                (0, 0, description_number()),
            ) && after[(0, 0, description_number())] == TagData::Text(edit.alt_text.unwrap()@)
            &&& (edit.alt_text matches Some(t) && crate::text::trim(t@).len() == 0) ==> !after.dom().contains(
                (0, 0, description_number()),
            )
            &&& (!edit.remove_gps && edit.gps is Some) ==> {
                let p = edit.gps.unwrap();
                &&& after.dom().contains((3, 0, 1)) && after[(3, 0, 1)] == TagData::Text(latitude_ref(p.latitude))
                &&& after.dom().contains((3, 0, 2)) && after[(3, 0, 2)] == TagData::Rationals(
                    dms_pairs(p.latitude),
                )
                &&& after.dom().contains((3, 0, 3)) && after[(3, 0, 3)] == TagData::Text(
                    longitude_ref(p.longitude),
                )
                &&& after.dom().contains((3, 0, 4)) && after[(3, 0, 4)] == TagData::Rationals(
                    dms_pairs(p.longitude),
                )
            }
            &&& edit.remove_ai ==> !after.dom().contains((0, 0, software_number()))
        }),
{
    lemma_edit_parts(tags, max, edit);
    let t0 = after_steps(tags, max, text_part(edit));
    let t1 = after_steps(t0, max, gps_part(edit));
    let t2 = after_steps(t1, max, ai_part(edit));
    let d: TagKey = (0, 0, description_number());
    if let Some(t) = edit.alt_text {
        lemma_single_step(tags, max, text_part(edit)[0]);
        assert(text_part(edit) =~= seq![text_part(edit)[0]]);
    }
    assert forall|i: int| 0 <= i < gps_part(edit).len() implies !touches(#[trigger] gps_part(edit)[i], d) by {}
    assert forall|i: int| 0 <= i < ai_part(edit).len() implies !touches(#[trigger] ai_part(edit)[i], d) by {}
    lemma_steps_keep(t0, max, gps_part(edit), d);
    lemma_steps_keep(t1, max, ai_part(edit), d);
    if !edit.remove_gps && edit.gps is Some {
        let p = edit.gps.unwrap();
        lemma_single_step(t0, max, StepView::SetGps(p));
        assert(gps_part(edit) =~= seq![StepView::SetGps(p)]);
        assert forall|i: int| 0 <= i < ai_part(edit).len() implies !touches(#[trigger] ai_part(edit)[i], (3, 0, 1)) by {}
        assert forall|i: int| 0 <= i < ai_part(edit).len() implies !touches(#[trigger] ai_part(edit)[i], (3, 0, 2)) by {}
        assert forall|i: int| 0 <= i < ai_part(edit).len() implies !touches(#[trigger] ai_part(edit)[i], (3, 0, 3)) by {}
        assert forall|i: int| 0 <= i < ai_part(edit).len() implies !touches(#[trigger] ai_part(edit)[i], (3, 0, 4)) by {}
        lemma_steps_keep(t1, max, ai_part(edit), (3, 0, 1));
        lemma_steps_keep(t1, max, ai_part(edit), (3, 0, 2));
        lemma_steps_keep(t1, max, ai_part(edit), (3, 0, 3));
        lemma_steps_keep(t1, max, ai_part(edit), (3, 0, 4));
    }
    if edit.remove_ai {
        lemma_single_step(t1, max, StepView::RemoveSoftware);
        assert(ai_part(edit) =~= seq![StepView::RemoveSoftware]);
    }
}

} // verus!
