//! The ordered list of candidates: the well-known address first, then the
//! icon links in the order in which they were found, each address once.

use vstd::prelude::*;

use crate::links::{icon_links, icon_links_of};
use crate::site::{Site, SiteView};

verus! {

/// Where a candidate address comes from.
#[derive(Clone, Copy, Debug, PartialEq, Eq, Structural)]
pub enum CandidateSource {
    /// The well-known path on the site.
    WellKnownPath,
    /// An icon link in the site's root document.
    HtmlLink,
}

/// One address at which the icon may be.
#[derive(Clone, Debug, PartialEq, Eq)]
pub struct Candidate {
    pub url: String,
    pub source: CandidateSource,
}

/// The mathematical value of a [`Candidate`].
pub struct CandidateView {
    pub url: Seq<char>,
    pub source: CandidateSource,
}

impl View for Candidate {
    type V = CandidateView;

    open spec fn view(&self) -> CandidateView {
        CandidateView { url: self.url@, source: self.source }
    }
}

impl DeepView for Candidate {
    type V = CandidateView;

    open spec fn deep_view(&self) -> CandidateView {
        self@
    }
}

/// `items` without repetitions: each item stays where it first occurs.
pub open spec fn distinct<A>(items: Seq<A>) -> Seq<A>
    decreases items.len(),
{
    if items.len() == 0 {
        Seq::empty()
    } else {
        let earlier = distinct(items.drop_last());
        if earlier.contains(items.last()) {
            earlier
        } else {
            earlier.push(items.last())
        }
    }
}

/// The candidate addresses made of the well-known address and the links.
pub open spec fn candidate_urls(well_known: Seq<char>, links: Seq<Seq<char>>) -> Seq<Seq<char>> {
    distinct(seq![well_known] + links)
}

/// The candidates at the addresses `urls`: the first is the well-known one,
/// the others are links.
pub open spec fn sourced(urls: Seq<Seq<char>>) -> Seq<CandidateView> {
    Seq::new(
        urls.len(),
        |i: int|
            CandidateView {
                url: urls[i],
                source: if i == 0 {
                    CandidateSource::WellKnownPath
                } else {
                    CandidateSource::HtmlLink
                },
            },
    )
}

/// The candidates made of the well-known address and the links.
pub open spec fn candidates_of(well_known: Seq<char>, links: Seq<Seq<char>>) -> Seq<
    CandidateView,
> {
    sourced(candidate_urls(well_known, links))
}

/// The candidates of a site, given its root document or that there is none.
pub open spec fn site_candidates(site: SiteView, document: Option<Seq<char>>) -> Seq<
    CandidateView,
> {
    candidates_of(
        site.well_known,
        match document {
            Some(document) => icon_links_of(site.page, document),
            None => Seq::empty(),
        },
    )
}

/// What holds of every list of candidates: it is not empty, the well-known
/// candidate is first and the only one of its kind, and no address occurs
/// twice.
pub open spec fn well_formed(candidates: Seq<CandidateView>) -> bool {
    &&& candidates.len() >= 1
    &&& candidates[0].source == CandidateSource::WellKnownPath
    &&& forall|i: int|
        1 <= i < candidates.len() ==> (#[trigger] candidates[i]).source
            == CandidateSource::HtmlLink
    &&& forall|i: int, j: int|
        0 <= i < j < candidates.len() ==> (#[trigger] candidates[i]).url != (
        #[trigger] candidates[j]).url
}

/// An item is among the distinct items exactly when it is among the items.
pub proof fn lemma_distinct_keeps_items<A>(items: Seq<A>, item: A)
    ensures
        distinct(items).contains(item) <==> items.contains(item),
    decreases items.len(),
{
    if items.len() > 0 {
        let earlier = items.drop_last();
        lemma_distinct_keeps_items(earlier, item);
        if items.contains(item) {
            let at = choose|i: int| 0 <= i < items.len() && items[i] == item;
            if at < earlier.len() {
                assert(earlier[at] == item);
            }
        }
        if distinct(items).contains(item) {
            let at = choose|i: int| 0 <= i < distinct(items).len() && distinct(items)[i] == item;
            if at < distinct(earlier).len() {
                assert(distinct(earlier)[at] == item);
                let first = choose|i: int| 0 <= i < earlier.len() && earlier[i] == item;
                assert(items[first] == item);
            } else {
                assert(items[items.len() - 1] == item);
            }
        }
        if earlier.contains(item) {
            let at = choose|i: int|
                0 <= i < distinct(earlier).len() && distinct(earlier)[i] == item;
            assert(distinct(items)[at] == item);
        }
        if items.last() == item && !distinct(earlier).contains(item) {
            assert(distinct(items)[distinct(earlier).len() as int] == item);
        }
    }
}

/// No item occurs twice among the distinct items, and there are no more of
/// them than there were items.
pub proof fn lemma_distinct_has_no_duplicates<A>(items: Seq<A>)
    ensures
        distinct(items).no_duplicates(),
        distinct(items).len() <= items.len(),
    decreases items.len(),
{
    if items.len() > 0 {
        lemma_distinct_has_no_duplicates(items.drop_last());
    }
}

/// The distinct items of a prefix are a prefix of the distinct items: what
/// comes later never moves what came before.
pub proof fn lemma_distinct_grows<A>(items: Seq<A>, count: int)
    requires
        0 <= count <= items.len(),
    ensures
        distinct(items.take(count)).is_prefix_of(distinct(items)),
    decreases items.len(),
{
    if count == items.len() {
        assert(items.take(count) =~= items);
    } else {
        let earlier = items.drop_last();
        lemma_distinct_grows(earlier, count);
        assert(earlier.take(count) =~= items.take(count));
    }
}

/// The first item stays first.
pub proof fn lemma_distinct_keeps_first<A>(items: Seq<A>)
    requires
        items.len() >= 1,
    ensures
        distinct(items).len() >= 1,
        distinct(items)[0] == items[0],
{
    lemma_distinct_grows(items, 1);
    let head = items.take(1);
    assert(head.drop_last() =~= Seq::<A>::empty());
    assert(distinct(head.drop_last()) =~= Seq::<A>::empty());
    assert(distinct(head) =~= seq![items[0]]);
    assert(distinct(items).subrange(0, 1)[0] == distinct(head)[0]);
}

/// Items that are distinct already stay as they are.
pub proof fn lemma_distinct_of_distinct<A>(items: Seq<A>)
    requires
        items.no_duplicates(),
    ensures
        distinct(items) == items,
    decreases items.len(),
{
    if items.len() > 0 {
        let earlier = items.drop_last();
        lemma_distinct_of_distinct(earlier);
        lemma_distinct_keeps_items(earlier, items.last());
        if earlier.contains(items.last()) {
            let at = choose|i: int| 0 <= i < earlier.len() && earlier[i] == items.last();
            assert(items[at] == items[items.len() - 1]);
        }
        assert(distinct(items) =~= items);
    }
}

/// Items keep the order of their first occurrences: an item that occurs at
/// `earlier` stands before an item that first occurs at `later`.
pub proof fn lemma_distinct_keeps_order<A>(items: Seq<A>, earlier: int, later: int)
    requires
        0 <= earlier < later < items.len(),
        !items.take(later).contains(items[later]),
    ensures
        distinct(items).contains(items[earlier]),
        distinct(items).contains(items[later]),
        distinct(items).index_of(items[earlier]) < distinct(items).index_of(items[later]),
{
    let before = items.take(later);
    let all = distinct(items);
    lemma_distinct_grows(items, later);
    lemma_distinct_has_no_duplicates(items);
    assert(before[earlier] == items[earlier]);
    lemma_distinct_keeps_items(before, items[earlier]);
    lemma_distinct_keeps_items(before, items[later]);
    lemma_distinct_keeps_items(items, items[later]);
    let first = choose|i: int| 0 <= i < distinct(before).len() && distinct(before)[i] == items[earlier];
    assert(all[first] == items[earlier]);
    let second = all.index_of(items[later]);
    if second < distinct(before).len() {
        assert(distinct(before)[second] == items[later]);
    }
    assert(all.index_of(items[earlier]) == first);
}

/// The well-known candidate is there and comes first, whatever the links are.
pub proof fn lemma_well_known_is_first(well_known: Seq<char>, links: Seq<Seq<char>>)
    ensures
        candidates_of(well_known, links).len() >= 1,
        candidates_of(well_known, links)[0] == (CandidateView {
            url: well_known,
            source: CandidateSource::WellKnownPath,
        }),
{
    lemma_distinct_keeps_first(seq![well_known] + links);
}

/// The candidates of a site begin with its well-known address, whether its
/// root document could be had or not, and whatever it holds.
pub proof fn lemma_site_candidates_begin_well_known(site: SiteView, document: Option<Seq<char>>)
    ensures
        site_candidates(site, document).len() >= 1,
        site_candidates(site, document)[0] == (CandidateView {
            url: site.well_known,
            source: CandidateSource::WellKnownPath,
        }),
        site_candidates(site, document)[0] == site_candidates(site, None)[0],
{
    lemma_well_known_is_first(
        site.well_known,
        match document {
            Some(document) => icon_links_of(site.page, document),
            None => Seq::empty(),
        },
    );
    lemma_well_known_is_first(site.well_known, Seq::empty());
}

/// Without links the well-known candidate is the only one.
pub proof fn lemma_no_links_one_candidate(well_known: Seq<char>)
    ensures
        candidates_of(well_known, Seq::empty()) == seq![
            CandidateView { url: well_known, source: CandidateSource::WellKnownPath },
        ],
{
    let items = seq![well_known] + Seq::<Seq<char>>::empty();
    assert(items =~= seq![well_known]);
    assert(items.no_duplicates());
    lemma_distinct_of_distinct(items);
    assert(candidates_of(well_known, Seq::empty()) =~= seq![
        CandidateView { url: well_known, source: CandidateSource::WellKnownPath },
    ]);
}

/// Every list of candidates is well formed, and holds the well-known address
/// and each link.
pub proof fn lemma_candidates_well_formed(well_known: Seq<char>, links: Seq<Seq<char>>)
    ensures
        well_formed(candidates_of(well_known, links)),
        forall|i: int|
            0 <= i < links.len() ==> candidate_urls(well_known, links).contains(#[trigger] links[i]),
        forall|url: Seq<char>| #[trigger]
            candidate_urls(well_known, links).contains(url) ==> url == well_known
                || links.contains(url),
{
    let items = seq![well_known] + links;
    lemma_distinct_has_no_duplicates(items);
    lemma_distinct_keeps_first(items);
    assert forall|i: int| 0 <= i < links.len() implies candidate_urls(well_known, links).contains(
        #[trigger] links[i],
    ) by {
        assert(items[i + 1] == links[i]);
        lemma_distinct_keeps_items(items, links[i]);
    }
    assert forall|url: Seq<char>| #[trigger]
        candidate_urls(well_known, links).contains(url) implies url == well_known
        || links.contains(url) by {
        lemma_distinct_keeps_items(items, url);
        let at = choose|i: int| 0 <= i < items.len() && items[i] == url;
        if at > 0 {
            assert(links[at - 1] == url);
        }
    }
}

/// Links keep the order in which they were found: a link found at `earlier`
/// stands before one that is first found at `later` and is not the well-known
/// address.
pub proof fn lemma_links_keep_order(
    well_known: Seq<char>,
    links: Seq<Seq<char>>,
    earlier: int,
    later: int,
)
    requires
        0 <= earlier < later < links.len(),
        links[later] != well_known,
        !links.take(later).contains(links[later]),
    ensures
        candidate_urls(well_known, links).contains(links[earlier]),
        candidate_urls(well_known, links).contains(links[later]),
        0 < candidate_urls(well_known, links).index_of(links[later]),
        candidate_urls(well_known, links).index_of(links[earlier]) < candidate_urls(
            well_known,
            links,
        ).index_of(links[later]),
{
    let items = seq![well_known] + links;
    assert(items[earlier + 1] == links[earlier]);
    assert(items[later + 1] == links[later]);
    let before = items.take(later + 1);
    if before.contains(links[later]) {
        let at = choose|i: int| 0 <= i < before.len() && before[i] == links[later];
        assert(at > 0);
        assert(links.take(later)[at - 1] == links[later]);
    }
    lemma_distinct_keeps_order(items, earlier + 1, later + 1);
    lemma_distinct_keeps_order(items, 0, later + 1);
    lemma_distinct_keeps_first(items);
    lemma_distinct_has_no_duplicates(items);
    assert(distinct(items).index_of(items[0]) == 0);
}

/// Whether one of `candidates` has the address `url`.
fn holds(candidates: &Vec<Candidate>, url: &String) -> (found: bool)
    ensures
        found == exists|i: int| 0 <= i < candidates.len() && (#[trigger] candidates[i]).url@ == url@,
{
    let mut i: usize = 0;
    while i < candidates.len()
        invariant
            i <= candidates.len(),
            forall|k: int| 0 <= k < i ==> (#[trigger] candidates[k]).url@ != url@,
        decreases candidates.len() - i,
    {
        if candidates[i].url == *url {
            return true;
        }
        i += 1;
    }
    false
}

/// Makes the list of candidates: the well-known address, then each link that
/// has not occurred before.
pub fn merge(well_known: &str, links: &Vec<String>) -> (candidates: Vec<Candidate>)
    ensures
        candidates.deep_view() == candidates_of(well_known@, links.deep_view()),
        well_formed(candidates.deep_view()),
        candidates[0]@ == (CandidateView {
            url: well_known@,
            source: CandidateSource::WellKnownPath,
        }),
{
    let ghost items = seq![well_known@] + links.deep_view();
    let mut candidates: Vec<Candidate> = Vec::new();
    candidates.push(
        Candidate { url: well_known.to_owned(), source: CandidateSource::WellKnownPath },
    );
    proof {
        assert(items.take(1) =~= seq![well_known@]);
        lemma_distinct_of_distinct(items.take(1));
        assert(candidates.deep_view() =~= sourced(seq![well_known@]));
    }
    let mut i: usize = 0;
    while i < links.len()
        invariant
            i <= links.len(),
            items == seq![well_known@] + links.deep_view(),
            candidates.deep_view() == sourced(distinct(items.take(i + 1))),
        decreases links.len() - i,
    {
        let ghost found = distinct(items.take(i + 1));
        let ghost kept = candidates.deep_view();
        let ghost link = links[i as int]@;
        proof {
            lemma_distinct_keeps_first(items.take(i + 1));
            assert(items.take(i + 2).drop_last() =~= items.take(i + 1));
            assert(kept.len() == found.len());
            assert forall|k: int| 0 <= k < candidates.len() implies (#[trigger] candidates[k]).url@
                == found[k] by {
                assert(kept[k].url == found[k]);
            }
            if found.contains(link) {
                let at = choose|k: int| 0 <= k < found.len() && found[k] == link;
                assert(candidates[at].url@ == link);
            }
        }
        if !holds(&candidates, &links[i]) {
            candidates.push(Candidate { url: links[i].clone(), source: CandidateSource::HtmlLink });
            proof {
                assert(candidates.deep_view() =~= kept.push(
                    CandidateView { url: link, source: CandidateSource::HtmlLink },
                ));
                assert(candidates.deep_view() =~= sourced(found.push(link)));
            }
        }
        i += 1;
    }
    proof {
        assert(items.take(i + 1) =~= items);
        lemma_candidates_well_formed(well_known@, links.deep_view());
        lemma_well_known_is_first(well_known@, links.deep_view());
        assert(candidates[0]@ == candidates.deep_view()[0]);
    }
    candidates
}

/// The candidates of `site`, given the text of its root document, or `None`
/// where the document could not be had.
pub fn candidates(site: &Site, document: Option<&str>) -> (candidates: Vec<Candidate>)
    ensures
        candidates.deep_view() == site_candidates(site@, text_view(document)),
        well_formed(candidates.deep_view()),
        candidates[0]@ == (CandidateView {
            url: site@.well_known,
            source: CandidateSource::WellKnownPath,
        }),
{
    let links = match document {
        Some(document) => icon_links(site, document),
        None => Vec::new(),
    };
    assert(document is None ==> links.deep_view() =~= Seq::<Seq<char>>::empty());
    merge(site.well_known.as_str(), &links)
}

/// The view of an optional text.
pub open spec fn text_view(text: Option<&str>) -> Option<Seq<char>> {
    match text {
        Some(text) => Some(text@),
        None => None,
    }
}

} // verus!
