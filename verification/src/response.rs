//! Extraction results and the wire-named response.
//!
//! Extraction resolves every catalog field once, in catalog order, and
//! assembly copies the resolved values into the response DTO unchanged:
//! no transformation, trimming or coercion, with the empty string for
//! absent fields. The wire names intentionally differ from the response
//! struct's internal field identifiers (dashes and colons against
//! underscores); the entries carry the wire names.

use vstd::prelude::*;

use crate::document::{Document, MetaTagView};
use crate::extract::lemma_absent_field_empty;
use crate::fields::{
    canonical_field_spec, field_selectors, field_specs, field_table, field_value, wire_keys,
    FieldSpec,
};

verus! {

/// The input DTO: the query naming the page to fetch.
pub struct OpenGraphQuery {
    pub url: String,
}

/// One resolved field: its wire name and its value (possibly empty).
pub struct WireEntry {
    pub wire_name: String,
    pub value: String,
}

/// The mathematical value of a `WireEntry`.
pub ghost struct WireEntryView {
    pub wire_name: Seq<char>,
    pub value: Seq<char>,
}

impl View for WireEntry {
    type V = WireEntryView;

    open spec fn view(&self) -> WireEntryView {
        WireEntryView { wire_name: self.wire_name@, value: self.value@ }
    }
}

/// The extraction result of one page: one entry per catalog field, in
/// catalog order, covering every field exactly once.
pub struct ExtractionResult {
    pub entries: Vec<WireEntry>,
}

impl View for ExtractionResult {
    type V = Seq<WireEntryView>;

    open spec fn view(&self) -> Seq<WireEntryView> {
        self.entries@.map_values(|e: WireEntry| e@)
    }
}

/// The extraction of a whole page model: every catalog field resolved,
/// in catalog order, under its wire name.
pub open spec fn extraction_of(metas: Seq<MetaTagView>) -> Seq<WireEntryView> {
    wire_keys().map_values(
        |k: Seq<char>| WireEntryView { wire_name: k, value: field_value(metas, k) },
    )
}

/// Resolves every catalog field against the document, in catalog order.
/// Field resolutions are independent: no field's value depends on
/// another's.
pub fn extract_all(doc: &Document) -> (r: ExtractionResult)
    ensures
        r@ == extraction_of(doc@),
{
    let specs = field_specs();
    let mut entries: Vec<WireEntry> = Vec::new();
    let mut i: usize = 0;
    proof {
        assert(specs@.map_values(|fs: FieldSpec| fs@).len() == specs@.len());
        assert(field_table().len() == wire_keys().len());
        assert(extraction_of(doc@).len() == wire_keys().len());
    }
    while i < specs.len()
        invariant
            0 <= i <= specs.len(),
            specs@.map_values(|fs: FieldSpec| fs@) == field_table(),
            specs@.len() == wire_keys().len(),
            entries@.map_values(|e: WireEntry| e@) == extraction_of(doc@).take(i as int),
        decreases specs.len() - i,
    {
        proof {
            assert(specs@.map_values(|fs: FieldSpec| fs@)[i as int] == specs@[i as int]@);
            assert(field_table()[i as int] == canonical_field_spec(wire_keys()[i as int]));
        }
        let fs = &specs[i];
        let value = doc.select_attr(&fs.selectors, &fs.attribute);
        proof {
            assert(fs@.selectors == field_selectors(wire_keys()[i as int]));
            assert(value@ == field_value(doc@, wire_keys()[i as int]));
        }
        let ghost prev = entries@;
        entries.push(WireEntry { wire_name: fs.wire_name.clone(), value });
        proof {
            assert(prev.map_values(|e: WireEntry| e@).len() == prev.len());
            assert(extraction_of(doc@).take(i as int).len() == i as int);
            assert(prev.len() == i as int);
            assert forall|k: int| 0 <= k < entries@.len() implies entries@.map_values(
                |e: WireEntry| e@,
            )[k] == #[trigger] extraction_of(doc@).take(i as int + 1)[k] by {
                if k < i as int {
                    assert(entries@[k] == prev[k]);
                    assert(prev.map_values(|e: WireEntry| e@)[k] == prev[k]@);
                } else {
                    assert(entries@[k]@.wire_name == wire_keys()[i as int]);
                    assert(extraction_of(doc@)[k] == (WireEntryView {
                        wire_name: wire_keys()[k],
                        value: field_value(doc@, wire_keys()[k]),
                    }));
                }
            }
            assert(entries@.map_values(|e: WireEntry| e@) =~= extraction_of(doc@).take(
                i as int + 1,
            ));
        }
        i += 1;
    }
    proof {
        assert(extraction_of(doc@).take(specs@.len() as int) =~= extraction_of(doc@));
    }
    ExtractionResult { entries }
}

/// The output DTO: one string field per catalog entry, default empty.
/// The field identifiers are internal; the external names the values are
/// emitted under are the catalog's wire names.
pub struct OpenGraphResponse {
    pub og_title: String,
    pub og_type: String,
    pub og_url: String,
    pub og_image: String,
    pub og_site_name: String,
    pub og_description: String,
    pub fb_page_id: String,
    pub application_name: String,
    pub og_email: String,
    pub og_phone_number: String,
    pub og_fax_number: String,
    pub og_latitude: String,
    pub og_longitude: String,
    pub og_street_address: String,
    pub og_locality: String,
    pub og_region: String,
    pub og_postal_code: String,
    pub og_country_name: String,
    pub fb_admins: String,
    pub og_points: String,
    pub og_video: String,
    pub og_video_height: String,
    pub og_video_width: String,
    pub og_video_type: String,
    pub og_audio: String,
    pub og_audio_title: String,
    pub og_audio_artist: String,
    pub og_audio_album: String,
    pub og_audio_type: String,
}

/// Whether a response carries, field by field, the values of a full
/// extraction: the entries in catalog order, copied unchanged.
pub open spec fn assembled_from(r: OpenGraphResponse, values: Seq<WireEntryView>) -> bool {
    &&& values.len() == 29
    &&& r.og_title@ == values[0].value
    &&& r.og_type@ == values[1].value
    &&& r.og_url@ == values[2].value
    &&& r.og_image@ == values[3].value
    &&& r.og_site_name@ == values[4].value
    &&& r.og_description@ == values[5].value
    &&& r.fb_page_id@ == values[6].value
    &&& r.application_name@ == values[7].value
    &&& r.og_email@ == values[8].value
    &&& r.og_phone_number@ == values[9].value
    &&& r.og_fax_number@ == values[10].value
    &&& r.og_latitude@ == values[11].value
    &&& r.og_longitude@ == values[12].value
    &&& r.og_street_address@ == values[13].value
    &&& r.og_locality@ == values[14].value
    &&& r.og_region@ == values[15].value
    &&& r.og_postal_code@ == values[16].value
    &&& r.og_country_name@ == values[17].value
    &&& r.fb_admins@ == values[18].value
    &&& r.og_points@ == values[19].value
    &&& r.og_video@ == values[20].value
    &&& r.og_video_height@ == values[21].value
    &&& r.og_video_width@ == values[22].value
    &&& r.og_video_type@ == values[23].value
    &&& r.og_audio@ == values[24].value
    &&& r.og_audio_title@ == values[25].value
    &&& r.og_audio_artist@ == values[26].value
    &&& r.og_audio_album@ == values[27].value
    &&& r.og_audio_type@ == values[28].value
}

/// Maps a full extraction into the response DTO: a pure copy of each
/// resolved value into the correspondingly-placed output field.
pub fn assemble(results: &ExtractionResult) -> (r: OpenGraphResponse)
    requires
        results@.len() == wire_keys().len(),
    ensures
        assembled_from(r, results@),
{
    proof {
        assert(results@.len() == results.entries@.len());
        assert(wire_keys().len() == 29);
        assert forall|k: int| 0 <= k < 29 implies #[trigger] results@[k]
            == results.entries@[k]@ by {}
    }
    OpenGraphResponse {
        og_title: results.entries[0].value.clone(),
        og_type: results.entries[1].value.clone(),
        og_url: results.entries[2].value.clone(),
        og_image: results.entries[3].value.clone(),
        og_site_name: results.entries[4].value.clone(),
        og_description: results.entries[5].value.clone(),
        fb_page_id: results.entries[6].value.clone(),
        application_name: results.entries[7].value.clone(),
        og_email: results.entries[8].value.clone(),
        og_phone_number: results.entries[9].value.clone(),
        og_fax_number: results.entries[10].value.clone(),
        og_latitude: results.entries[11].value.clone(),
        og_longitude: results.entries[12].value.clone(),
        og_street_address: results.entries[13].value.clone(),
        og_locality: results.entries[14].value.clone(),
        og_region: results.entries[15].value.clone(),
        og_postal_code: results.entries[16].value.clone(),
        og_country_name: results.entries[17].value.clone(),
        fb_admins: results.entries[18].value.clone(),
        og_points: results.entries[19].value.clone(),
        og_video: results.entries[20].value.clone(),
        og_video_height: results.entries[21].value.clone(),
        og_video_width: results.entries[22].value.clone(),
        og_video_type: results.entries[23].value.clone(),
        og_audio: results.entries[24].value.clone(),
        og_audio_title: results.entries[25].value.clone(),
        og_audio_artist: results.entries[26].value.clone(),
        og_audio_album: results.entries[27].value.clone(),
        og_audio_type: results.entries[28].value.clone(),
    }
}

/// Whether a response is exactly the extraction of a page model: every
/// output field equal to its field's resolved value.
pub open spec fn response_matches(r: OpenGraphResponse, metas: Seq<MetaTagView>) -> bool {
    assembled_from(r, extraction_of(metas))
}

/// The whole per-request pipeline past the fetch: parse the page into
/// the meta-tag model, resolve every catalog field, and assemble the
/// wire-named response. Never fails: absent metadata yields empty
/// fields.
pub fn extract_opengraph(html: &str) -> (r: OpenGraphResponse)
    ensures
        response_matches(r, crate::document::meta_tags_of(html@)),
{
    let document = Document::new(html);
    let results = extract_all(&document);
    assemble(&results)
}

/// Empty-page law: a page without meta elements — as lenient parsing
/// yields for non-HTML or metadata-free content — resolves every catalog
/// field to the empty string.
pub proof fn lemma_empty_page_all_fields_empty(metas: Seq<MetaTagView>)
    requires
        metas.len() == 0,
    ensures
        forall|i: int|
            0 <= i < extraction_of(metas).len() ==> #[trigger] extraction_of(metas)[i].value
                == Seq::<char>::empty(),
{
    assert forall|i: int| 0 <= i < extraction_of(metas).len() implies #[trigger] extraction_of(
        metas,
    )[i].value == Seq::<char>::empty() by {
        lemma_absent_field_empty(metas, field_selectors(wire_keys()[i]), "content"@);
    }
}

} // verus!
