use vstd::prelude::*;
use crate::props::PageProperties;

verus! {

/// One markup element carrying the recognized micro-format attribute, as
/// plain values: the property name, the value of the element's "content"
/// attribute when present, whether any of its children is an element, and
/// its inner markup.
pub struct RawElement {
    pub prop: String,
    pub content: Option<String>,
    pub has_element_children: bool,
    pub inner: String,
}

/// The mathematical shape of one such element.
pub ghost struct ElemModel {
    pub prop: Seq<char>,
    pub content: Option<Seq<char>>,
    pub has_element_children: bool,
    pub inner: Seq<char>,
}

impl View for RawElement {
    type V = ElemModel;

    open spec fn view(&self) -> ElemModel {
        ElemModel {
            prop: self.prop@,
            content: match self.content {
                Some(c) => Some(c@),
                None => None,
            },
            has_element_children: self.has_element_children,
            inner: self.inner@,
        }
    }
}

/// The value extracted from one element: its "content" attribute when
/// present; else its inner markup when it has no element children; else
/// nothing (an element with only element children and no explicit content
/// yields no value).
pub open spec fn extracted_value(e: ElemModel) -> Option<Seq<char>> {
    if e.content is Some {
        e.content
    } else if !e.has_element_children {
        Some(e.inner)
    } else {
        None
    }
}

/// The property mapping of a sequence of elements, read in order, a later
/// occurrence of a name overriding an earlier one.
pub open spec fn props_of(elems: Seq<ElemModel>) -> Map<Seq<char>, Seq<char>>
    decreases elems.len(),
{
    if elems.len() == 0 {
        Map::empty()
    } else {
        match extracted_value(elems.last()) {
            Some(v) => props_of(elems.drop_last()).insert(elems.last().prop, v),
            None => props_of(elems.drop_last()),
        }
    }
}

/// A property stands in a page's mapping exactly when some element of the
/// page carries its name and yields a value under the extraction rules —
/// in particular, elements with element children and no "content"
/// attribute contribute nothing.
pub proof fn lemma_props_membership(elems: Seq<ElemModel>, k: Seq<char>)
    ensures
        props_of(elems).contains_key(k) <==> (exists|i: int|
            0 <= i < elems.len() && (#[trigger] elems[i]).prop == k && extracted_value(elems[i])
                is Some),
    decreases elems.len(),
{
    if elems.len() == 0 {
    } else {
        lemma_props_membership(elems.drop_last(), k);
        let last = elems.last();
        if last.prop == k && extracted_value(last) is Some {
            assert(elems[elems.len() - 1].prop == k && extracted_value(elems[elems.len() - 1])
                is Some);
        } else {
            if exists|i: int|
                0 <= i < elems.len() && (#[trigger] elems[i]).prop == k && extracted_value(
                    elems[i],
                ) is Some {
                let i = choose|i: int|
                    0 <= i < elems.len() && (#[trigger] elems[i]).prop == k && extracted_value(
                        elems[i],
                    ) is Some;
                assert(i < elems.len() - 1);
                assert(elems.drop_last()[i] == elems[i]);
            }
            if exists|i: int|
                0 <= i < elems.drop_last().len() && (#[trigger] elems.drop_last()[i]).prop == k
                    && extracted_value(elems.drop_last()[i]) is Some {
                let i = choose|i: int|
                    0 <= i < elems.drop_last().len() && (#[trigger] elems.drop_last()[i]).prop == k
                        && extracted_value(elems.drop_last()[i]) is Some;
                assert(elems.drop_last()[i] == elems[i]);
            }
        }
    }
}

/// Last wins: when an element yields a value for its name and no later
/// element yields a value for the same name, the page's mapping holds that
/// element's value.
pub proof fn lemma_props_last_wins(elems: Seq<ElemModel>, i: int)
    requires
        0 <= i < elems.len(),
        extracted_value(elems[i]) is Some,
        forall|j: int|
            i < j < elems.len() ==> !((#[trigger] elems[j]).prop == elems[i].prop
                && extracted_value(elems[j]) is Some),
    ensures
        props_of(elems).contains_key(elems[i].prop),
        props_of(elems)[elems[i].prop] == extracted_value(elems[i])->Some_0,
    decreases elems.len(),
{
    if i == elems.len() - 1 {
    } else {
        let last = elems.last();
        assert(elems.drop_last()[i] == elems[i]);
        assert forall|j: int| i < j < elems.drop_last().len() implies !((#[trigger] elems.drop_last()[j]).prop
            == elems.drop_last()[i].prop && extracted_value(elems.drop_last()[j]) is Some) by {
            assert(elems.drop_last()[j] == elems[j]);
        }
        lemma_props_last_wins(elems.drop_last(), i);
        if extracted_value(last) is Some {
            assert(!(elems[elems.len() - 1].prop == elems[i].prop && extracted_value(
                elems[elems.len() - 1],
            ) is Some));
        }
    }
}

/// The elements carrying an "itemprop" attribute that the markup parser
/// finds in the document text, in document order. A function of the text
/// alone.
pub uninterp spec fn itemprops_of(html: Seq<char>) -> Seq<ElemModel>;

/// The "src" attributes of the images directly under a gallery-strip
/// container in the document text, in document order. A function of the
/// text alone.
pub uninterp spec fn gallery_images_of(html: Seq<char>) -> Seq<Seq<char>>;

/// Relies on scraper's `Html::parse_document`, `Selector::parse` and
/// `Html::select`: every element matching the selector `[itemprop]`, in
/// document order, carrying its "itemprop" attribute, its "content"
/// attribute when present, whether any of its children is an element, and
/// its inner markup. The constant selector is valid, so `Selector::parse`
/// cannot fail here.
#[verifier::external_body]
fn select_itemprops(html: &str) -> (r: Vec<RawElement>)
    ensures
        r@.map_values(|e: RawElement| e@) == itemprops_of(html@),
{
    let doc = scraper::Html::parse_document(html);
    let sel = scraper::Selector::parse("[itemprop]").unwrap();
    doc.select(&sel)
        .map(|item| RawElement {
            prop: item.value().attr("itemprop").unwrap_or("").to_string(),
            content: item.value().attr("content").map(|c| c.to_string()),
            has_element_children: item.children().any(|c| c.value().is_element()),
            inner: item.inner_html(),
        })
        .collect()
}

/// Relies on scraper's `Html::parse_document`, `Selector::parse` and
/// `Html::select`: the "src" attribute of every image element directly
/// under the gallery-strip container, selector
/// `div.highlight_strip_screenshot > img[src]`, in document order. The
/// constant selector is valid, so `Selector::parse` cannot fail here.
#[verifier::external_body]
fn select_screenshots(html: &str) -> (r: Vec<String>)
    ensures
        r@.map_values(|s: String| s@) == gallery_images_of(html@),
{
    let doc = scraper::Html::parse_document(html);
    let sel = scraper::Selector::parse("div.highlight_strip_screenshot > img[src]").unwrap();
    doc.select(&sel)
        .map(|img| img.value().attr("src").unwrap_or("").to_string())
        .collect()
}

/// Extracts the value of one element by the priority rule: the "content"
/// attribute wins over the inner markup, and the inner markup is used only
/// when the element has no element children.
pub fn extract_value(e: &RawElement) -> (r: Option<&str>)
    ensures
        (match r {
            Some(v) => extracted_value(e@) == Some(v@),
            None => extracted_value(e@) is None,
        }),
{
    match &e.content {
        Some(c) => Some(c.as_str()),
        None => if !e.has_element_children {
            Some(e.inner.as_str())
        } else {
            None
        },
    }
}

/// Parses the document text and extracts its named micro-format
/// properties.
pub fn extract_properties(html: &str) -> (r: PageProperties)
    ensures
        r@ == props_of(itemprops_of(html@)),
{
    let elems = select_itemprops(html);
    PageProperties::from_elements(&elems)
}

/// Parses the document text and collects the gallery screenshot locators
/// in document order.
pub fn extract_screenshots(html: &str) -> (r: Vec<String>)
    ensures
        r@.map_values(|s: String| s@) == gallery_images_of(html@),
{
    select_screenshots(html)
}

} // verus!
