//! The icon links of a site's root document: which elements are read, and how
//! their references become addresses.

use scraper::{Html, Selector};
use vstd::prelude::*;

use crate::site::{join_url, url_join, Site};

verus! {

/// The selector that picks the icon links of a document.
pub const ICON_SELECTOR: &'static str = "link[rel=\"icon\"], link[rel=\"shortcut icon\"]";

/// The attribute that holds an icon link's reference.
pub const REFERENCE_ATTRIBUTE: &'static str = "href";

/// For each element of `document` that `selector` matches, in the order in
/// which the parsed document hands them out, the value of its attribute
/// `attribute`, or `None` where the element has no such attribute. `None` as a
/// whole where `selector` is no selector.
pub uninterp spec fn selected_attribute(
    document: Seq<char>,
    selector: Seq<char>,
    attribute: Seq<char>,
) -> Option<Seq<Option<Seq<char>>>>;

/// Calls `scraper::Selector::parse` on `selector`, `scraper::Html::parse_document`
/// on `document` and `scraper::Html::select` on the two, and copies out what
/// `attr` gives for each element that comes back. The contract names the
/// result `selected_attribute(document, selector, attribute)`, which is `None`
/// where the selector does not parse. Nothing is claimed about which elements
/// match.
#[verifier::external_body]
fn select_attribute(document: &str, selector: &str, attribute: &str) -> (values: Option<
    Vec<Option<String>>,
>)
    ensures
        values.deep_view() == selected_attribute(document@, selector@, attribute@),
{
    match Selector::parse(selector) {
        Ok(selector) => Some(
            Html::parse_document(document).select(&selector).map(
                |element| element.value().attr(attribute).map(String::from),
            ).collect(),
        ),
        Err(_) => None,
    }
}

/// The values that are there, in order.
pub open spec fn present(values: Seq<Option<Seq<char>>>) -> Seq<Seq<char>> {
    values.filter_map(|value: Option<Seq<char>>| value)
}

/// The addresses that `references` denote on `page`, in order, without those
/// that denote none.
pub open spec fn resolved(page: Seq<char>, references: Seq<Seq<char>>) -> Seq<Seq<char>> {
    references.filter_map(|reference: Seq<char>| url_join(page, reference))
}

/// The addresses of the icon links of `document`, read as the root document of
/// the site at `page`.
pub open spec fn icon_links_of(page: Seq<char>, document: Seq<char>) -> Seq<Seq<char>> {
    match selected_attribute(document, ICON_SELECTOR@, REFERENCE_ATTRIBUTE@) {
        Some(values) => resolved(page, present(values)),
        None => Seq::empty(),
    }
}

/// Drops the missing values and keeps the others in order.
pub fn references(values: &Vec<Option<String>>) -> (found: Vec<String>)
    ensures
        found.deep_view() == present(values.deep_view()),
{
    let ghost all = values.deep_view();
    let ghost keep = |value: Option<Seq<char>>| value;
    let mut found: Vec<String> = Vec::new();
    let mut i: usize = 0;
    assert(all.take(0).filter_map(keep) =~= Seq::<Seq<char>>::empty());
    while i < values.len()
        invariant
            i <= values.len(),
            all == values.deep_view(),
            keep == |value: Option<Seq<char>>| value,
            found.deep_view() == all.take(i as int).filter_map(keep),
        decreases values.len() - i,
    {
        let ghost kept = found.deep_view();
        proof {
            all.lemma_filter_map_take_succ(keep, i as int);
        }
        match &values[i] {
            Some(reference) => {
                found.push(reference.clone());
                assert(found.deep_view() =~= kept + seq![reference@]);
            },
            None => {
                assert(kept + Seq::<Seq<char>>::empty() =~= kept);
            },
        }
        i += 1;
    }
    assert(all.take(i as int) =~= all);
    found
}

/// Resolves each reference on the site's page, in order, and leaves out those
/// that denote no address.
pub fn resolve_references(site: &Site, references: &Vec<String>) -> (links: Vec<String>)
    ensures
        links.deep_view() == resolved(site@.page, references.deep_view()),
{
    let ghost all = references.deep_view();
    let ghost join = |reference: Seq<char>| url_join(site@.page, reference);
    let mut links: Vec<String> = Vec::new();
    let mut i: usize = 0;
    assert(all.take(0).filter_map(join) =~= Seq::<Seq<char>>::empty());
    while i < references.len()
        invariant
            i <= references.len(),
            all == references.deep_view(),
            join == |reference: Seq<char>| url_join(site@.page, reference),
            links.deep_view() == all.take(i as int).filter_map(join),
        decreases references.len() - i,
    {
        let ghost kept = links.deep_view();
        proof {
            all.lemma_filter_map_take_succ(join, i as int);
        }
        match join_url(site.page.as_str(), references[i].as_str()) {
            Some(link) => {
                links.push(link);
                assert(links.deep_view() =~= kept + seq![link@]);
            },
            None => {
                assert(kept + Seq::<Seq<char>>::empty() =~= kept);
            },
        }
        i += 1;
    }
    assert(all.take(i as int) =~= all);
    links
}

/// The addresses of the icon links of `document`, the root document of `site`.
pub fn icon_links(site: &Site, document: &str) -> (links: Vec<String>)
    ensures
        links.deep_view() == icon_links_of(site@.page, document@),
{
    match select_attribute(document, ICON_SELECTOR, REFERENCE_ATTRIBUTE) {
        Some(values) => {
            let found = references(&values);
            resolve_references(site, &found)
        },
        None => Vec::new(),
    }
}

} // verus!
