//! What holds of whole resolutions: of every state that a resolution can be
//! in, and of every sequence of events that it can be told.

use vstd::prelude::*;

use crate::cache::{cache_key_of, entry_path_of, lemma_entry_path_tells_keys_apart};
use crate::candidates::{
    lemma_candidates_well_formed, lemma_site_candidates_begin_well_known, CandidateSource,
    CandidateView,
};
use crate::links::icon_links_of;
use crate::resolution::{
    answers, begun, fetched_body, initial, next, outcome_of, pending, ActionView, EventView,
    PhaseView, ResolutionView,
};
use crate::site::{normalized, origin_of, site_of, url_parts, ResolveError, SiteView};

verus! {

/// The state that a resolution is in after it was told `events`, one after
/// the other, from `state` on.
pub open spec fn run(state: ResolutionView, events: Seq<EventView>) -> ResolutionView
    decreases events.len(),
{
    if events.len() == 0 {
        state
    } else {
        next(run(state, events.drop_last()), events.last())
    }
}

/// How far a resolution has come, as a number that every answer raises.
pub open spec fn progress(state: ResolutionView) -> nat {
    match state.phase {
        PhaseView::AwaitingDocument => 0,
        PhaseView::CheckingCache { index } => 1 + 3 * index,
        PhaseView::FetchingIcon { index } => 2 + 3 * index,
        PhaseView::Storing { index, body } => 3 + 3 * index,
        PhaseView::Found { index } => 1 + 3 * state.candidates.len(),
        PhaseView::Exhausted => 1 + 3 * state.candidates.len(),
    }
}

/// Whether `event` reports that a candidate was missing from the cache.
pub open spec fn is_miss(event: EventView) -> bool {
    event == (EventView::CacheChecked { present: false })
}

/// Whether `event` reports a request for an icon that gave none: no
/// response, a status that is not one of success, or a body that could not
/// be read.
pub open spec fn is_failed_fetch(event: EventView) -> bool {
    event matches EventView::IconFetched { response } && fetched_body(response) is None
}

/// Whether `events` tell of one miss and one failed request after the other.
pub open spec fn all_fail(events: Seq<EventView>) -> bool {
    forall|k: int|
        0 <= k < events.len() ==> if k % 2 == 0 {
            is_miss(#[trigger] events[k])
        } else {
            is_failed_fetch(events[k])
        }
}

/// Every step keeps a resolution well formed, and keeps its site, its cache
/// directory and its well-known candidate.
pub proof fn lemma_next_keeps_wf(state: ResolutionView, event: EventView)
    requires
        state.wf(),
    ensures
        next(state, event).wf(),
        next(state, event).site == state.site,
        next(state, event).directory == state.directory,
        next(state, event).candidates[0] == state.candidates[0],
        !(state.phase is AwaitingDocument) ==> next(state, event).candidates == state.candidates,
{
    if state.phase is AwaitingDocument {
        if let EventView::Document { text } = event {
            lemma_site_candidates_begin_well_known(state.site, text);
            lemma_candidates_well_formed(
                state.site.well_known,
                match text {
                    Some(document) => icon_links_of(state.site.page, document),
                    None => Seq::empty(),
                },
            );
        }
    }
}

/// An input whose normalized form does not parse as an address with a host
/// is refused at once, with `InvalidInput`: the resolution has no state, and
/// so asks for no request and no write.
pub proof fn lemma_malformed_input_is_refused(raw: Seq<char>, directory: Seq<char>)
    requires
        origin_of(url_parts(normalized(raw))) is None,
    ensures
        site_of(raw) is None,
        begun(raw, directory) == Err::<ResolutionView, ResolveError>(ResolveError::InvalidInput),
{
}

/// An input that names a site begins a resolution of that site, and is the
/// only kind of input that is not refused.
pub proof fn lemma_begun_iff_site(raw: Seq<char>, directory: Seq<char>)
    ensures
        begun(raw, directory) is Ok <==> site_of(raw) is Some,
        begun(raw, directory) is Err ==> begun(raw, directory) == Err::<
            ResolutionView,
            ResolveError,
        >(ResolveError::InvalidInput),
        begun(raw, directory) matches Ok(state) ==> state == initial(
            site_of(raw).unwrap(),
            directory,
        ) && state.site.page == normalized(raw),
{
}

/// A resolution starts well formed, with a request for the root document of
/// the site's origin as the action that is due.
pub proof fn lemma_initial_is_wf(site: SiteView, directory: Seq<char>)
    ensures
        initial(site, directory).wf(),
        pending(initial(site, directory)) == (ActionView::FetchDocument {
            url: site.origin.root(),
        }),
{
    lemma_site_candidates_begin_well_known(site, None);
    lemma_candidates_well_formed(site.well_known, Seq::empty());
}

/// Whatever a resolution is told, it stays well formed and its first candidate
/// is the well-known address of its site.
pub proof fn lemma_run_keeps_wf(state: ResolutionView, events: Seq<EventView>)
    requires
        state.wf(),
    ensures
        run(state, events).wf(),
        run(state, events).site == state.site,
        run(state, events).directory == state.directory,
        run(state, events).candidates.len() >= 1,
        run(state, events).candidates[0] == (CandidateView {
            url: state.site.well_known,
            source: CandidateSource::WellKnownPath,
        }),
    decreases events.len(),
{
    if events.len() > 0 {
        lemma_run_keeps_wf(state, events.drop_last());
        lemma_next_keeps_wf(run(state, events.drop_last()), events.last());
    }
}

/// The well-known candidate is the first that is tried, whether the root
/// document could be had or not, and whatever it holds.
pub proof fn lemma_well_known_is_tried_first(
    site: SiteView,
    directory: Seq<char>,
    document: Option<Seq<char>>,
)
    ensures
        ({
            let state = next(initial(site, directory), EventView::Document { text: document });
            &&& state.phase == (PhaseView::CheckingCache { index: 0 })
            &&& state.candidates[0].url == site.well_known
            &&& pending(state) == (ActionView::CheckCache {
                path: entry_path_of(directory, site.well_known),
            })
            &&& pending(next(state, EventView::CacheChecked { present: false })) == (
            ActionView::FetchIcon { url: site.well_known })
        }),
{
    lemma_initial_is_wf(site, directory);
    lemma_site_candidates_begin_well_known(site, document);
}

/// A candidate that is in the cache is not requested: the resolution ends at
/// once, with the path that was looked at.
pub proof fn lemma_cache_hit_ends_without_request(state: ResolutionView, index: nat)
    requires
        state.wf(),
        state.phase == (PhaseView::CheckingCache { index }),
    ensures
        ({
            let after = next(state, EventView::CacheChecked { present: true });
            &&& pending(state) == (ActionView::CheckCache { path: state.entry_path(index) })
            &&& after.phase == (PhaseView::Found { index })
            &&& pending(after) == (ActionView::Finish { outcome: Ok(state.entry_path(index)) })
            &&& outcome_of(after) == Some(Ok::<Seq<char>, ResolveError>(state.entry_path(index)))
            &&& !pending(after).is_request()
            &&& !pending(after).is_write()
        }),
{
}

/// A resolution that has ended stays as it is, whatever it is told: no
/// request and no write follow its end.
pub proof fn lemma_end_is_final(state: ResolutionView, events: Seq<EventView>)
    requires
        state.finished(),
    ensures
        run(state, events) == state,
        pending(run(state, events)) is Finish,
    decreases events.len(),
{
    if events.len() > 0 {
        lemma_end_is_final(state, events.drop_last());
    }
}

/// What one resolution stores for an address, a later resolution with the
/// same cache directory finds: it looks at the very path that was written,
/// and on finding the file there ends with that path, without a request.
pub proof fn lemma_stored_icon_is_found_again(
    first: ResolutionView,
    second: ResolutionView,
    stored: nat,
    body: Seq<u8>,
    tried: nat,
)
    requires
        first.wf(),
        second.wf(),
        first.directory == second.directory,
        first.phase == (PhaseView::Storing { index: stored, body }),
        second.phase == (PhaseView::CheckingCache { index: tried }),
        first.candidates[stored as int].url == second.candidates[tried as int].url,
    ensures
        ({
            let path = first.entry_path(stored);
            let again = next(second, EventView::CacheChecked { present: true });
            &&& pending(first) == (ActionView::Store { path, body })
            &&& outcome_of(next(first, EventView::Stored { written: true })) == Some(
                Ok::<Seq<char>, ResolveError>(path),
            )
            &&& pending(second) == (ActionView::CheckCache { path })
            &&& outcome_of(again) == Some(Ok::<Seq<char>, ResolveError>(path))
            &&& pending(again) == (ActionView::Finish { outcome: Ok(path) })
        }),
{
}

/// Two candidates of one resolution never share a cache file unless they
/// share a cache key: each candidate is looked for under its own key.
pub proof fn lemma_candidates_have_own_entries(state: ResolutionView, a: nat, b: nat)
    requires
        state.wf(),
        a < state.candidates.len(),
        b < state.candidates.len(),
    ensures
        state.entry_path(a) == state.entry_path(b) <==> cache_key_of(
            state.candidates[a as int].url,
        ) == cache_key_of(state.candidates[b as int].url),
{
    lemma_entry_path_tells_keys_apart(
        state.directory,
        state.candidates[a as int].url,
        state.candidates[b as int].url,
    );
}

/// An event that answers the action that is due brings the resolution
/// forward; any other event leaves it where it is.
pub proof fn lemma_answers_make_progress(state: ResolutionView, event: EventView)
    requires
        state.wf(),
    ensures
        answers(state, event) ==> progress(next(state, event)) > progress(state),
        !answers(state, event) ==> next(state, event) == state,
        progress(next(state, event)) <= 1 + 3 * next(state, event).candidates.len(),
{
    lemma_next_keeps_wf(state, event);
}

/// The state after `count` events of misses and failed requests, from the
/// candidate at `index` on: the candidates are passed one by one.
proof fn lemma_failures_pass_candidates(
    state: ResolutionView,
    index: nat,
    events: Seq<EventView>,
)
    requires
        state.wf(),
        state.phase == (PhaseView::CheckingCache { index }),
        all_fail(events),
        events.len() <= 2 * (state.candidates.len() - index),
    ensures
        run(state, events).candidates == state.candidates,
        run(state, events).phase == if events.len() % 2 == 1 {
            PhaseView::FetchingIcon { index: index + events.len() / 2 }
        } else if index + events.len() / 2 < state.candidates.len() {
            PhaseView::CheckingCache { index: index + events.len() / 2 }
        } else {
            PhaseView::Exhausted
        },
    decreases events.len(),
{
    if events.len() > 0 {
        let earlier = events.drop_last();
        assert forall|k: int| 0 <= k < earlier.len() implies if k % 2 == 0 {
            is_miss(#[trigger] earlier[k])
        } else {
            is_failed_fetch(earlier[k])
        } by {
            assert(earlier[k] == events[k]);
        }
        lemma_failures_pass_candidates(state, index, earlier);
        let last = events.len() - 1;
        assert(events.last() == events[last]);
        if last % 2 == 0 {
            assert(is_miss(events[last]));
        } else {
            assert(is_failed_fetch(events[last]));
        }
    }
}

/// Where every candidate is missing from the cache and every request for an
/// icon fails, the resolution ends with `ResolutionExhausted`, and on its way
/// there no action writes to the cache: the directory holds no new file.
pub proof fn lemma_failures_exhaust(state: ResolutionView, events: Seq<EventView>)
    requires
        state.wf(),
        state.phase == (PhaseView::CheckingCache { index: 0 }),
        all_fail(events),
        events.len() == 2 * state.candidates.len(),
    ensures
        run(state, events).phase == PhaseView::Exhausted,
        outcome_of(run(state, events)) == Some(
            Err::<Seq<char>, ResolveError>(ResolveError::ResolutionExhausted),
        ),
        forall|count: int|
            0 <= count <= events.len() ==> !pending(#[trigger] run(state, events.take(count))).is_write(),
{
    lemma_failures_pass_candidates(state, 0, events);
    assert forall|count: int| 0 <= count <= events.len() implies !pending(
        #[trigger] run(state, events.take(count)),
    ).is_write() by {
        let prefix = events.take(count);
        assert forall|k: int| 0 <= k < prefix.len() implies if k % 2 == 0 {
            is_miss(#[trigger] prefix[k])
        } else {
            is_failed_fetch(prefix[k])
        } by {
            assert(prefix[k] == events[k]);
        }
        lemma_failures_pass_candidates(state, 0, prefix);
    }
}

/// Without a request that brings an icon, nothing is written: as long as no
/// event reports a response that carries one, no action of the resolution
/// writes to the cache, and the resolution never ends with a path that it
/// did not find in the cache.
pub proof fn lemma_no_icon_no_write(state: ResolutionView, events: Seq<EventView>)
    requires
        state.wf(),
        !(state.phase is Storing),
        forall|k: int|
            0 <= k < events.len() ==> (#[trigger] events[k] matches EventView::IconFetched {
                response,
            } ==> fetched_body(response) is None),
    ensures
        !(run(state, events).phase is Storing),
        !pending(run(state, events)).is_write(),
    decreases events.len(),
{
    if events.len() > 0 {
        let earlier = events.drop_last();
        assert forall|k: int| 0 <= k < earlier.len() implies (
        #[trigger] earlier[k] matches EventView::IconFetched { response } ==> fetched_body(response)
            is None) by {
            assert(earlier[k] == events[k]);
        }
        lemma_no_icon_no_write(state, earlier);
        assert(events.last() == events[events.len() - 1]);
    }
}

} // verus!
