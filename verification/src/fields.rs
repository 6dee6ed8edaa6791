//! The field catalog: the fixed schema of extractable OpenGraph fields.
//!
//! Every known field follows one canonical pattern: its wire name `k` is
//! looked up first as `meta[property="k"]`, then as `meta[name="k"]`,
//! and the `content` attribute of the winning element is read. The dual
//! lookup exists because sites inconsistently use `property` or `name`
//! for OpenGraph meta tags; `property` takes priority when both are
//! present.

use vstd::prelude::*;

use crate::document::MetaTagView;
use crate::extract::{
    attr_or_empty, first_match, lemma_absent_field_empty, lemma_fallback_selector,
    lemma_first_match_is_first, lemma_first_selector_wins, matches_selector, resolve,
    AttrSelector, AttrSelectorView,
};

verus! {

/// The selector pattern `meta[property="key"]`.
pub open spec fn property_selector(key: Seq<char>) -> AttrSelectorView {
    AttrSelectorView { attr: "property"@, value: key }
}

/// The selector pattern `meta[name="key"]`.
pub open spec fn name_selector(key: Seq<char>) -> AttrSelectorView {
    AttrSelectorView { attr: "name"@, value: key }
}

/// The selector fallback list of the field with wire name `key`: the
/// `property` variant is tried before the `name` variant.
pub open spec fn field_selectors(key: Seq<char>) -> Seq<AttrSelectorView> {
    seq![property_selector(key), name_selector(key)]
}

/// The resolved value of the field with wire name `key` on a page: its
/// selectors in fallback order, reading the `content` attribute.
pub open spec fn field_value(metas: Seq<MetaTagView>, key: Seq<char>) -> Seq<char> {
    resolve(metas, field_selectors(key), "content"@)
}

/// A static definition of one extractable field: the external name to
/// emit, the ordered selector variants to try, and the attribute read
/// from the matched element.
pub struct FieldSpec {
    pub wire_name: String,
    pub selectors: Vec<AttrSelector>,
    pub attribute: String,
}

/// The mathematical value of a `FieldSpec`.
pub ghost struct FieldSpecView {
    pub wire_name: Seq<char>,
    pub selectors: Seq<AttrSelectorView>,
    pub attribute: Seq<char>,
}

impl View for FieldSpec {
    type V = FieldSpecView;

    open spec fn view(&self) -> FieldSpecView {
        FieldSpecView {
            wire_name: self.wire_name@,
            selectors: self.selectors@.map_values(|s: AttrSelector| s@),
            attribute: self.attribute@,
        }
    }
}

/// The canonical catalog entry for wire name `key`.
pub open spec fn canonical_field_spec(key: Seq<char>) -> FieldSpecView {
    FieldSpecView { wire_name: key, selectors: field_selectors(key), attribute: "content"@ }
}

/// The wire names of the known OpenGraph fields, in catalog order.
pub open spec fn wire_keys() -> Seq<Seq<char>> {
    seq![
        "og:title"@,
        "og:type"@,
        "og:url"@,
        "og:image"@,
        "og:site_name"@,
        "og:description"@,
        "fb:page_id"@,
        "application-name"@,
        "og:email"@,
        "og:phone_number"@,
        "og:fax_number"@,
        "og:latitude"@,
        "og:longitude"@,
        "og:street-address"@,
        "og:locality"@,
        "og:region"@,
        "og:postal-code"@,
        "og:country-name"@,
        "fb:admins"@,
        "og:points"@,
        "og:video"@,
        "og:video:height"@,
        "og:video:width"@,
        "og:video:type"@,
        "og:audio"@,
        "og:audio:title"@,
        "og:audio:artist"@,
        "og:audio:album"@,
        "og:audio:type"@,
    ]
}

/// The full field catalog, as a mathematical table: one canonical entry
/// per wire key, in catalog order.
pub open spec fn field_table() -> Seq<FieldSpecView> {
    wire_keys().map_values(|k: Seq<char>| canonical_field_spec(k))
}

/// Builds the catalog entry for one wire key.
pub fn field_spec(key: &str) -> (r: FieldSpec)
    ensures
        r@ == canonical_field_spec(key@),
{
    let mut selectors: Vec<AttrSelector> = Vec::new();
    selectors.push(AttrSelector { attr: "property".to_owned(), value: key.to_owned() });
    selectors.push(AttrSelector { attr: "name".to_owned(), value: key.to_owned() });
    let r = FieldSpec {
        wire_name: key.to_owned(),
        selectors,
        attribute: "content".to_owned(),
    };
    proof {
        assert(r@.selectors =~= field_selectors(key@));
    }
    r
}

/// The wire names of the known fields, in catalog order, as owned
/// strings.
pub fn wire_field_names() -> (r: Vec<String>)
    ensures
        r@.map_values(|s: String| s@) == wire_keys(),
{
    let mut r: Vec<String> = Vec::new();
    r.push("og:title".to_owned());
    r.push("og:type".to_owned());
    r.push("og:url".to_owned());
    r.push("og:image".to_owned());
    r.push("og:site_name".to_owned());
    r.push("og:description".to_owned());
    r.push("fb:page_id".to_owned());
    r.push("application-name".to_owned());
    r.push("og:email".to_owned());
    r.push("og:phone_number".to_owned());
    r.push("og:fax_number".to_owned());
    r.push("og:latitude".to_owned());
    r.push("og:longitude".to_owned());
    r.push("og:street-address".to_owned());
    r.push("og:locality".to_owned());
    r.push("og:region".to_owned());
    r.push("og:postal-code".to_owned());
    r.push("og:country-name".to_owned());
    r.push("fb:admins".to_owned());
    r.push("og:points".to_owned());
    r.push("og:video".to_owned());
    r.push("og:video:height".to_owned());
    r.push("og:video:width".to_owned());
    r.push("og:video:type".to_owned());
    r.push("og:audio".to_owned());
    r.push("og:audio:title".to_owned());
    r.push("og:audio:artist".to_owned());
    r.push("og:audio:album".to_owned());
    r.push("og:audio:type".to_owned());
    proof {
        assert(r@.map_values(|s: String| s@) =~= wire_keys());
    }
    r
}

/// Builds the full field catalog: one entry per known wire key, in
/// catalog order.
pub fn field_specs() -> (r: Vec<FieldSpec>)
    ensures
        r@.map_values(|fs: FieldSpec| fs@) == field_table(),
{
    let names = wire_field_names();
    let mut r: Vec<FieldSpec> = Vec::new();
    let mut i: usize = 0;
    proof {
        assert(names@.map_values(|s: String| s@).len() == names@.len());
        assert(r@.map_values(|fs: FieldSpec| fs@) =~= field_table().take(0));
    }
    while i < names.len()
        invariant
            0 <= i <= names.len(),
            names@.map_values(|s: String| s@) == wire_keys(),
            r@.map_values(|fs: FieldSpec| fs@) == field_table().take(i as int),
        decreases names.len() - i,
    {
        proof {
            assert(names@.map_values(|s: String| s@)[i as int] == names@[i as int]@);
            assert(field_table()[i as int] == canonical_field_spec(wire_keys()[i as int]));
        }
        let fs = field_spec(names[i].as_str());
        let ghost prev = r@;
        r.push(fs);
        proof {
            assert(prev.map_values(|fs: FieldSpec| fs@).len() == prev.len());
            assert(names@.map_values(|s: String| s@).len() == names@.len());
            assert(field_table().take(i as int).len() == i as int);
            assert(prev.len() == i as int);
            assert(r@.len() == i as int + 1);
            assert forall|k: int| 0 <= k < r@.len() implies r@.map_values(|fs: FieldSpec| fs@)[k]
                == #[trigger] field_table().take(i as int + 1)[k] by {
                if k < i as int {
                    assert(r@[k] == prev[k]);
                    assert(prev.map_values(|fs: FieldSpec| fs@)[k] == prev[k]@);
                } else {
                    assert(r@[k] == fs);
                }
            }
            assert(r@.map_values(|fs: FieldSpec| fs@) =~= field_table().take(i as int + 1));
        }
        i += 1;
    }
    proof {
        assert(field_table().take(names@.len() as int) =~= field_table());
    }
    r
}

/// Catalog invariant: the wire names are pairwise distinct and every
/// entry carries both selector variants.
#[verifier::rlimit(60)]
pub proof fn lemma_catalog_well_formed()
    ensures
        forall|i: int, j: int|
            0 <= i < wire_keys().len() && 0 <= j < wire_keys().len() && i != j
                ==> #[trigger] wire_keys()[i] != #[trigger] wire_keys()[j],
        forall|i: int|
            0 <= i < field_table().len() ==> (#[trigger] field_table()[i]).selectors.len() == 2,
{
    reveal_strlit("og:title");
    reveal_strlit("og:type");
    reveal_strlit("og:url");
    reveal_strlit("og:image");
    reveal_strlit("og:site_name");
    reveal_strlit("og:description");
    reveal_strlit("fb:page_id");
    reveal_strlit("application-name");
    reveal_strlit("og:email");
    reveal_strlit("og:phone_number");
    reveal_strlit("og:fax_number");
    reveal_strlit("og:latitude");
    reveal_strlit("og:longitude");
    reveal_strlit("og:street-address");
    reveal_strlit("og:locality");
    reveal_strlit("og:region");
    reveal_strlit("og:postal-code");
    reveal_strlit("og:country-name");
    reveal_strlit("fb:admins");
    reveal_strlit("og:points");
    reveal_strlit("og:video");
    reveal_strlit("og:video:height");
    reveal_strlit("og:video:width");
    reveal_strlit("og:video:type");
    reveal_strlit("og:audio");
    reveal_strlit("og:audio:title");
    reveal_strlit("og:audio:artist");
    reveal_strlit("og:audio:album");
    reveal_strlit("og:audio:type");
    // Names of equal length are told apart by a character they differ in.
    assert("og:title"@[3] == 't');
    assert("og:type"@[3] == 't');
    assert("og:url"@[3] == 'u');
    assert("og:image"@[3] == 'i');
    assert("og:site_name"@[3] == 's');
    assert("og:description"@[3] == 'd');
    assert("fb:page_id"@[3] == 'p');
    assert("application-name"@[3] == 'l');
    assert("og:email"@[3] == 'e');
    assert("og:phone_number"@[3] == 'p');
    assert("og:fax_number"@[3] == 'f');
    assert("og:latitude"@[3] == 'l');
    assert("og:longitude"@[3] == 'l');
    assert("og:street-address"@[3] == 's');
    assert("og:locality"@[3] == 'l');
    assert("og:region"@[3] == 'r');
    assert("og:postal-code"@[3] == 'p');
    assert("og:country-name"@[3] == 'c');
    assert("fb:admins"@[3] == 'a');
    assert("og:points"@[3] == 'p');
    assert("og:video"@[3] == 'v');
    assert("og:video:height"@[3] == 'v');
    assert("og:video:width"@[3] == 'v');
    assert("og:video:type"@[3] == 'v');
    assert("og:audio"@[3] == 'a');
    assert("og:audio:title"@[3] == 'a');
    assert("og:audio:artist"@[3] == 'a');
    assert("og:audio:album"@[3] == 'a');
    assert("og:audio:type"@[3] == 'a');
    assert("og:latitude"@[4] == 'a');
    assert("og:locality"@[4] == 'o');
    assert("og:longitude"@[4] == 'o');
    assert("og:audio:title"@[9] == 't');
    assert("og:audio:album"@[9] == 'a');
    assert("og:audio:artist"@[9] == 'a');
    assert("og:audio:artist"@[10] == 'r');
    assert("og:audio:album"@[10] == 'l');
    // Names of different length are told apart by their length.
    assert("og:url"@.len() == 6);
    assert("og:type"@.len() == 7);
    assert("og:title"@.len() == 8);
    assert("og:image"@.len() == 8);
    assert("og:email"@.len() == 8);
    assert("og:video"@.len() == 8);
    assert("og:audio"@.len() == 8);
    assert("og:region"@.len() == 9);
    assert("fb:admins"@.len() == 9);
    assert("og:points"@.len() == 9);
    assert("fb:page_id"@.len() == 10);
    assert("og:latitude"@.len() == 11);
    assert("og:locality"@.len() == 11);
    assert("og:site_name"@.len() == 12);
    assert("og:longitude"@.len() == 12);
    assert("og:fax_number"@.len() == 13);
    assert("og:video:type"@.len() == 13);
    assert("og:audio:type"@.len() == 13);
    assert("og:description"@.len() == 14);
    assert("og:postal-code"@.len() == 14);
    assert("og:video:width"@.len() == 14);
    assert("og:audio:title"@.len() == 14);
    assert("og:audio:album"@.len() == 14);
    assert("og:phone_number"@.len() == 15);
    assert("og:country-name"@.len() == 15);
    assert("og:video:height"@.len() == 15);
    assert("og:audio:artist"@.len() == 15);
    assert("application-name"@.len() == 16);
    assert("og:street-address"@.len() == 17);
    assert("og:title"@ != "og:image"@);
    assert("og:title"@ != "og:email"@);
    assert("og:title"@ != "og:video"@);
    assert("og:title"@ != "og:audio"@);
    assert("og:image"@ != "og:email"@);
    assert("og:image"@ != "og:video"@);
    assert("og:image"@ != "og:audio"@);
    assert("og:email"@ != "og:video"@);
    assert("og:email"@ != "og:audio"@);
    assert("og:video"@ != "og:audio"@);
    assert("og:region"@ != "fb:admins"@);
    assert("og:region"@ != "og:points"@);
    assert("fb:admins"@ != "og:points"@);
    assert("og:latitude"@ != "og:locality"@);
    assert("og:site_name"@ != "og:longitude"@);
    assert("og:fax_number"@ != "og:video:type"@);
    assert("og:fax_number"@ != "og:audio:type"@);
    assert("og:video:type"@ != "og:audio:type"@);
    assert("og:description"@ != "og:postal-code"@);
    assert("og:description"@ != "og:video:width"@);
    assert("og:description"@ != "og:audio:title"@);
    assert("og:description"@ != "og:audio:album"@);
    assert("og:postal-code"@ != "og:video:width"@);
    assert("og:postal-code"@ != "og:audio:title"@);
    assert("og:postal-code"@ != "og:audio:album"@);
    assert("og:video:width"@ != "og:audio:title"@);
    assert("og:video:width"@ != "og:audio:album"@);
    assert("og:audio:title"@ != "og:audio:album"@);
    assert("og:phone_number"@ != "og:country-name"@);
    assert("og:phone_number"@ != "og:video:height"@);
    assert("og:phone_number"@ != "og:audio:artist"@);
    assert("og:country-name"@ != "og:video:height"@);
    assert("og:country-name"@ != "og:audio:artist"@);
    assert("og:video:height"@ != "og:audio:artist"@);
    assert forall|i: int|
        0 <= i < field_table().len() implies (#[trigger] field_table()[i]).selectors.len()
        == 2 by {
        assert(field_table()[i] == canonical_field_spec(wire_keys()[i]));
    }
}

/// Missing-field law: when no meta element carries the field's key under
/// `property` or `name`, the field resolves to the empty string.
pub proof fn lemma_missing_field_empty(metas: Seq<MetaTagView>, key: Seq<char>)
    requires
        forall|j: int|
            0 <= j < metas.len() ==> !matches_selector(metas[j], property_selector(key))
                && !matches_selector(metas[j], name_selector(key)),
    ensures
        field_value(metas, key) == Seq::<char>::empty(),
{
    let sels = field_selectors(key);
    assert forall|i: int, j: int|
        0 <= i < sels.len() && 0 <= j < metas.len() implies !matches_selector(
        metas[j],
        sels[i],
    ) by {
        assert(sels[0] == property_selector(key));
        assert(sels[1] == name_selector(key));
    }
    lemma_absent_field_empty(metas, sels, "content"@);
}

/// Priority law: when some meta element carries the field's key under
/// `property`, the first such element decides the field's value — the
/// `content` attribute of the first `property` match — whatever `name`
/// variants the page also carries.
pub proof fn lemma_property_wins(metas: Seq<MetaTagView>, key: Seq<char>, m: MetaTagView)
    requires
        first_match(metas, property_selector(key)) == Some(m),
    ensures
        field_value(metas, key) == attr_or_empty(m, "content"@),
{
    lemma_first_selector_wins(metas, field_selectors(key), "content"@, m);
}

/// Document-order law: when several meta elements carry the field's key
/// under `property`, the earliest of them decides the field's value;
/// later matches are ignored.
pub proof fn lemma_first_in_document_order_wins(metas: Seq<MetaTagView>, key: Seq<char>, i: int)
    requires
        0 <= i < metas.len(),
        matches_selector(metas[i], property_selector(key)),
        forall|j: int| 0 <= j < i ==> !matches_selector(metas[j], property_selector(key)),
    ensures
        field_value(metas, key) == attr_or_empty(metas[i], "content"@),
{
    lemma_first_match_is_first(metas, property_selector(key), i);
    lemma_first_selector_wins(metas, field_selectors(key), "content"@, metas[i]);
}

/// Fallback law: when no meta element carries the field's key under
/// `property` but some does under `name`, the first `name` match decides
/// the field's value.
pub proof fn lemma_name_fallback(metas: Seq<MetaTagView>, key: Seq<char>, m: MetaTagView)
    requires
        first_match(metas, property_selector(key)) is None,
        first_match(metas, name_selector(key)) == Some(m),
    ensures
        field_value(metas, key) == attr_or_empty(m, "content"@),
{
    lemma_fallback_selector(metas, field_selectors(key), "content"@, m);
}

} // verus!
