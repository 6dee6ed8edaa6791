//! Field extraction: attribute selectors and their resolution policy.
//!
//! A field is resolved by trying an ordered list of attribute selectors
//! against the page: the first selector that matches at least one
//! element wins, and within the winning selector the first element in
//! document order is used. Absent data — no match, or a matched element
//! without the requested attribute — yields the empty string, never an
//! error.

use vstd::prelude::*;

use crate::document::{AttrView, Document, MetaTag, MetaTagView};

verus! {

/// A CSS-style attribute selector over meta elements: the pattern
/// `meta[attr="value"]`, matching an element that carries attribute
/// `attr` with exactly the value `value`.
pub struct AttrSelector {
    pub attr: String,
    pub value: String,
}

/// The mathematical value of an `AttrSelector`.
pub ghost struct AttrSelectorView {
    pub attr: Seq<char>,
    pub value: Seq<char>,
}

impl View for AttrSelector {
    type V = AttrSelectorView;

    open spec fn view(&self) -> AttrSelectorView {
        AttrSelectorView { attr: self.attr@, value: self.value@ }
    }
}

/// The value of the first attribute named `name`, if the element has
/// one.
pub open spec fn attr_lookup(attrs: Seq<AttrView>, name: Seq<char>) -> Option<Seq<char>>
    decreases attrs.len(),
{
    if attrs.len() == 0 {
        None
    } else if attrs[0].name == name {
        Some(attrs[0].value)
    } else {
        attr_lookup(attrs.drop_first(), name)
    }
}

/// Whether a meta element matches a selector: it carries the selector's
/// attribute with exactly the selector's value.
pub open spec fn matches_selector(m: MetaTagView, s: AttrSelectorView) -> bool {
    attr_lookup(m.attrs, s.attr) == Some(s.value)
}

/// The first element, in document order, that matches the selector.
pub open spec fn first_match(metas: Seq<MetaTagView>, s: AttrSelectorView) -> Option<MetaTagView>
    decreases metas.len(),
{
    if metas.len() == 0 {
        None
    } else if matches_selector(metas[0], s) {
        Some(metas[0])
    } else {
        first_match(metas.drop_first(), s)
    }
}

/// The requested attribute of a matched element, or empty when the
/// element lacks it; that case is not distinguished from "no element
/// matched".
pub open spec fn attr_or_empty(m: MetaTagView, attribute: Seq<char>) -> Seq<char> {
    match attr_lookup(m.attrs, attribute) {
        Some(v) => v,
        None => Seq::empty(),
    }
}

/// The resolved value of a field: the first selector in the given order
/// with at least one matching element wins, and the winning element's
/// requested attribute is read; when no selector matches anything, the
/// value is empty.
pub open spec fn resolve(
    metas: Seq<MetaTagView>,
    selectors: Seq<AttrSelectorView>,
    attribute: Seq<char>,
) -> Seq<char>
    decreases selectors.len(),
{
    if selectors.len() == 0 {
        Seq::empty()
    } else {
        match first_match(metas, selectors[0]) {
            Some(m) => attr_or_empty(m, attribute),
            None => resolve(metas, selectors.drop_first(), attribute),
        }
    }
}

/// A selector's first match is the earliest matching element: when an
/// element matches a selector and no element before it in document
/// order does, that element is the selector's first match.
pub proof fn lemma_first_match_is_first(metas: Seq<MetaTagView>, s: AttrSelectorView, i: int)
    requires
        0 <= i < metas.len(),
        matches_selector(metas[i], s),
        forall|j: int| 0 <= j < i ==> !matches_selector(metas[j], s),
    ensures
        first_match(metas, s) == Some(metas[i]),
    decreases i,
{
    if i > 0 {
        assert(!matches_selector(metas[0], s));
        assert forall|j: int| 0 <= j < i - 1 implies !matches_selector(
            metas.drop_first()[j],
            s,
        ) by {
            assert(metas.drop_first()[j] == metas[j + 1]);
        }
        lemma_first_match_is_first(metas.drop_first(), s, i - 1);
        assert(metas.drop_first()[i - 1] == metas[i]);
    }
}

/// A selector has no match exactly when no element matches it.
pub proof fn lemma_first_match_none(metas: Seq<MetaTagView>, s: AttrSelectorView)
    ensures
        (first_match(metas, s) is None) <==> (forall|j: int|
            0 <= j < metas.len() ==> !matches_selector(metas[j], s)),
    decreases metas.len(),
{
    if metas.len() > 0 {
        lemma_first_match_none(metas.drop_first(), s);
        if matches_selector(metas[0], s) {
            assert(first_match(metas, s) is Some);
        } else if forall|j: int|
            0 <= j < metas.drop_first().len() ==> !matches_selector(metas.drop_first()[j], s) {
            assert forall|j: int| 0 <= j < metas.len() implies !matches_selector(metas[j], s) by {
                if j > 0 {
                    assert(metas.drop_first()[j - 1] == metas[j]);
                    assert(!matches_selector(metas.drop_first()[j - 1], s));
                }
            }
        } else {
            let j0 = choose|j: int|
                0 <= j < metas.drop_first().len() && matches_selector(metas.drop_first()[j], s);
            assert(metas.drop_first()[j0] == metas[j0 + 1]);
            assert(matches_selector(metas[j0 + 1], s));
        }
    }
}

/// Missing-data law: when no selector of the list matches any element,
/// the resolved value is the empty string.
pub proof fn lemma_absent_field_empty(
    metas: Seq<MetaTagView>,
    selectors: Seq<AttrSelectorView>,
    attribute: Seq<char>,
)
    requires
        forall|i: int, j: int|
            0 <= i < selectors.len() && 0 <= j < metas.len() ==> !matches_selector(
                metas[j],
                selectors[i],
            ),
    ensures
        resolve(metas, selectors, attribute) == Seq::<char>::empty(),
    decreases selectors.len(),
{
    if selectors.len() > 0 {
        lemma_first_match_none(metas, selectors[0]);
        assert forall|i: int, j: int|
            0 <= i < selectors.drop_first().len() && 0 <= j < metas.len() implies !matches_selector(
            metas[j],
            selectors.drop_first()[i],
        ) by {
            assert(selectors.drop_first()[i] == selectors[i + 1]);
        }
        lemma_absent_field_empty(metas, selectors.drop_first(), attribute);
    }
}

/// Priority law: when the first selector of the list has a match, that
/// match decides the value, whatever later selectors would have matched.
pub proof fn lemma_first_selector_wins(
    metas: Seq<MetaTagView>,
    selectors: Seq<AttrSelectorView>,
    attribute: Seq<char>,
    m: MetaTagView,
)
    requires
        selectors.len() >= 1,
        first_match(metas, selectors[0]) == Some(m),
    ensures
        resolve(metas, selectors, attribute) == attr_or_empty(m, attribute),
{
}

/// Fallback law: when the first of two selectors matches nothing and
/// the second has a match, the second selector's match decides the
/// value.
pub proof fn lemma_fallback_selector(
    metas: Seq<MetaTagView>,
    selectors: Seq<AttrSelectorView>,
    attribute: Seq<char>,
    m: MetaTagView,
)
    requires
        selectors.len() == 2,
        first_match(metas, selectors[0]) is None,
        first_match(metas, selectors[1]) == Some(m),
    ensures
        resolve(metas, selectors, attribute) == attr_or_empty(m, attribute),
{
    let tail = selectors.drop_first();
    assert(tail[0] == selectors[1]);
    assert(resolve(metas, selectors, attribute) == resolve(metas, tail, attribute));
    assert(resolve(metas, tail, attribute) == attr_or_empty(m, attribute));
}

impl MetaTag {
    /// The value of this element's first attribute named `name`, if any.
    pub fn get_attr(&self, name: &String) -> (r: Option<&String>)
        ensures
            (r is Some) == (attr_lookup(self@.attrs, name@) is Some),
            r is Some ==> r.unwrap()@ == attr_lookup(self@.attrs, name@).unwrap(),
    {
        let mut i: usize = 0;
        proof {
            assert(self@.attrs.skip(0) =~= self@.attrs);
        }
        while i < self.attrs.len()
            invariant
                0 <= i <= self.attrs.len(),
                attr_lookup(self@.attrs, name@) == attr_lookup(
                    self@.attrs.skip(i as int),
                    name@,
                ),
            decreases self.attrs.len() - i,
        {
            proof {
                assert(self@.attrs.skip(i as int)[0] == self@.attrs[i as int]);
            }
            if self.attrs[i].name == *name {
                return Some(&self.attrs[i].value);
            }
            proof {
                assert(self@.attrs.skip(i as int).drop_first() =~= self@.attrs.skip(
                    i as int + 1,
                ));
            }
            i += 1;
        }
        proof {
            assert(self@.attrs.skip(i as int) =~= Seq::<AttrView>::empty());
        }
        None
    }

    /// Whether this element matches the selector.
    pub fn is_match(&self, s: &AttrSelector) -> (r: bool)
        ensures
            r == matches_selector(self@, s@),
    {
        match self.get_attr(&s.attr) {
            Some(v) => *v == s.value,
            None => false,
        }
    }
}

impl Document {
    /// The first meta element, in document order, that matches the
    /// selector.
    fn find_first(&self, s: &AttrSelector) -> (r: Option<&MetaTag>)
        ensures
            (r is Some) == (first_match(self@, s@) is Some),
            r is Some ==> first_match(self@, s@) == Some(r.unwrap()@),
    {
        let mut i: usize = 0;
        proof {
            assert(self@.skip(0) =~= self@);
        }
        while i < self.metas.len()
            invariant
                0 <= i <= self.metas.len(),
                first_match(self@, s@) == first_match(self@.skip(i as int), s@),
            decreases self.metas.len() - i,
        {
            proof {
                assert(self@.skip(i as int)[0] == self@[i as int]);
            }
            if self.metas[i].is_match(s) {
                return Some(&self.metas[i]);
            }
            proof {
                assert(self@.skip(i as int).drop_first() =~= self@.skip(i as int + 1));
            }
            i += 1;
        }
        proof {
            assert(self@.skip(i as int) =~= Seq::<MetaTagView>::empty());
        }
        None
    }

    /// Resolves one field against the page: tries each selector in the
    /// given order, reads the requested attribute of the first element
    /// in document order that the winning selector matches, and yields
    /// the empty string when no selector matches anything or the matched
    /// element lacks the attribute.
    pub fn select_attr(&self, selectors: &Vec<AttrSelector>, attribute: &String) -> (r: String)
        ensures
            r@ == resolve(self@, selectors@.map_values(|s: AttrSelector| s@), attribute@),
    {
        let ghost sels = selectors@.map_values(|s: AttrSelector| s@);
        let mut i: usize = 0;
        proof {
            assert(sels.skip(0) =~= sels);
        }
        while i < selectors.len()
            invariant
                0 <= i <= selectors.len(),
                sels == selectors@.map_values(|s: AttrSelector| s@),
                resolve(self@, sels, attribute@) == resolve(self@, sels.skip(i as int), attribute@),
            decreases selectors.len() - i,
        {
            proof {
                assert(sels.skip(i as int)[0] == sels[i as int]);
            }
            match self.find_first(&selectors[i]) {
                Some(element) => {
                    let r = match element.get_attr(attribute) {
                        Some(v) => v.clone(),
                        None => String::new(),
                    };
                    proof {
                        assert(resolve(self@, sels.skip(i as int), attribute@) == attr_or_empty(
                            element@,
                            attribute@,
                        ));
                    }
                    return r;
                },
                None => {
                    proof {
                        assert(sels.skip(i as int).drop_first() =~= sels.skip(i as int + 1));
                    }
                },
            }
            i += 1;
        }
        proof {
            assert(sels.skip(i as int) =~= Seq::<AttrSelectorView>::empty());
        }
        String::new()
    }
}

} // verus!
