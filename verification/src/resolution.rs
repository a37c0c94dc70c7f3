//! One resolution, step by step.
//!
//! A [`Resolution`] never performs a request or touches a file. It says which
//! [`Action`] is due, and is told by an [`Event`] how that action went. The
//! caller carries the actions out, in a loop that ends with
//! [`Action::Finish`].

use vstd::prelude::*;

use crate::cache::{entry_path, entry_path_of};
use crate::candidates::{candidates, site_candidates, well_formed, Candidate, CandidateView};
use crate::site::{site_of, text_of, ResolveError, Site, SiteView};

verus! {

/// The client identifier that every request carries, in its `User-Agent`
/// header.
pub const USER_AGENT: &'static str = "Mozilla/5.0 (Tauri)";

/// How a request for an icon was answered.
#[derive(Clone, Debug, PartialEq, Eq)]
pub struct IconResponse {
    /// The status code of the response.
    pub status: u16,
    /// The whole body, or `None` where it could not be read to its end.
    pub body: Option<Vec<u8>>,
}

/// The mathematical value of an [`IconResponse`].
pub struct IconResponseView {
    pub status: int,
    pub body: Option<Seq<u8>>,
}

impl View for IconResponse {
    type V = IconResponseView;

    open spec fn view(&self) -> IconResponseView {
        IconResponseView {
            status: self.status as int,
            body: match self.body {
                Some(body) => Some(body@),
                None => None,
            },
        }
    }
}

/// What the caller reports after it has carried out an action.
#[derive(Clone, Debug, PartialEq, Eq)]
pub enum Event {
    /// The root document was asked for. `text` is its text, or `None` where
    /// the request failed or the response was no text.
    Document { text: Option<String> },
    /// The cache was looked at. `present` says whether the file is there.
    CacheChecked { present: bool },
    /// The icon was asked for. `response` is `None` where no response came.
    IconFetched { response: Option<IconResponse> },
    /// The body was written to the cache. `written` says whether all of it
    /// is in the file.
    Stored { written: bool },
}

/// The mathematical value of an [`Event`].
pub enum EventView {
    Document { text: Option<Seq<char>> },
    CacheChecked { present: bool },
    IconFetched { response: Option<IconResponseView> },
    Stored { written: bool },
}

impl View for Event {
    type V = EventView;

    open spec fn view(&self) -> EventView {
        match self {
            Event::Document { text } => EventView::Document { text: text_of(*text) },
            Event::CacheChecked { present } => EventView::CacheChecked { present: *present },
            Event::IconFetched { response } => EventView::IconFetched {
                response: match response {
                    Some(response) => Some(response@),
                    None => None,
                },
            },
            Event::Stored { written } => EventView::Stored { written: *written },
        }
    }
}

/// What the caller is asked to do next.
#[derive(Debug, PartialEq, Eq)]
pub enum Action {
    /// Request the document at `url` and report its text.
    FetchDocument { url: String },
    /// Report whether a file exists at `path`.
    CheckCache { path: String },
    /// Request the icon at `url` and report the response.
    FetchIcon { url: String },
    /// Write `body` to the file at `path`, replacing what is there.
    Store { path: String, body: Vec<u8> },
    /// Nothing more: the resolution has ended with `outcome`, the path of the
    /// cached icon or the reason why there is none.
    Finish { outcome: Result<String, ResolveError> },
}

/// The mathematical value of an [`Action`].
pub enum ActionView {
    FetchDocument { url: Seq<char> },
    CheckCache { path: Seq<char> },
    FetchIcon { url: Seq<char> },
    Store { path: Seq<char>, body: Seq<u8> },
    Finish { outcome: Result<Seq<char>, ResolveError> },
}

impl View for Action {
    type V = ActionView;

    open spec fn view(&self) -> ActionView {
        match self {
            Action::FetchDocument { url } => ActionView::FetchDocument { url: url@ },
            Action::CheckCache { path } => ActionView::CheckCache { path: path@ },
            Action::FetchIcon { url } => ActionView::FetchIcon { url: url@ },
            Action::Store { path, body } => ActionView::Store { path: path@, body: body@ },
            Action::Finish { outcome } => ActionView::Finish {
                outcome: match outcome {
                    Ok(path) => Ok(path@),
                    Err(error) => Err(*error),
                },
            },
        }
    }
}

impl ActionView {
    /// Whether the action sends a request over the network.
    pub open spec fn is_request(self) -> bool {
        self is FetchDocument || self is FetchIcon
    }

    /// Whether the action changes the cache directory.
    pub open spec fn is_write(self) -> bool {
        self is Store
    }
}

/// How far a resolution has come.
#[derive(Clone, Debug, PartialEq, Eq)]
pub enum Phase {
    /// The root document has been asked for.
    AwaitingDocument,
    /// The cache is being looked at for the candidate at `index`.
    CheckingCache { index: usize },
    /// The icon of the candidate at `index` has been asked for.
    FetchingIcon { index: usize },
    /// The icon of the candidate at `index` is being written to the cache.
    Storing { index: usize, body: Vec<u8> },
    /// The icon of the candidate at `index` is in the cache.
    Found { index: usize },
    /// Every candidate has failed.
    Exhausted,
}

/// The mathematical value of a [`Phase`].
pub enum PhaseView {
    AwaitingDocument,
    CheckingCache { index: nat },
    FetchingIcon { index: nat },
    Storing { index: nat, body: Seq<u8> },
    Found { index: nat },
    Exhausted,
}

impl View for Phase {
    type V = PhaseView;

    open spec fn view(&self) -> PhaseView {
        match self {
            Phase::AwaitingDocument => PhaseView::AwaitingDocument,
            Phase::CheckingCache { index } => PhaseView::CheckingCache { index: *index as nat },
            Phase::FetchingIcon { index } => PhaseView::FetchingIcon { index: *index as nat },
            Phase::Storing { index, body } => PhaseView::Storing {
                index: *index as nat,
                body: body@,
            },
            Phase::Found { index } => PhaseView::Found { index: *index as nat },
            Phase::Exhausted => PhaseView::Exhausted,
        }
    }
}

impl PhaseView {
    /// Whether the resolution has ended.
    pub open spec fn is_final(self) -> bool {
        self is Found || self is Exhausted
    }
}

/// A resolution in progress: the site, the cache directory, the candidates
/// known so far and the phase.
pub struct Resolution {
    directory: String,
    site: Site,
    candidates: Vec<Candidate>,
    phase: Phase,
}

/// The mathematical value of a [`Resolution`].
pub struct ResolutionView {
    pub directory: Seq<char>,
    pub site: SiteView,
    pub candidates: Seq<CandidateView>,
    pub phase: PhaseView,
}

/// Whether a response carries an icon: its status is one of success.
pub open spec fn is_success(status: int) -> bool {
    200 <= status < 300
}

/// The icon that `response` carries: the body of a response with a status of
/// success. No response, another status or a body that could not be read
/// carry none.
pub open spec fn fetched_body(response: Option<IconResponseView>) -> Option<Seq<u8>> {
    match response {
        Some(response) => if is_success(response.status) {
            response.body
        } else {
            None
        },
        None => None,
    }
}

impl ResolutionView {
    /// What holds of every resolution: its candidates are well formed and
    /// begin with the site's well-known address, and the candidate that the
    /// phase speaks of exists.
    pub open spec fn wf(self) -> bool {
        &&& well_formed(self.candidates)
        &&& self.candidates[0].url == self.site.well_known
        &&& match self.phase {
            PhaseView::AwaitingDocument => true,
            PhaseView::CheckingCache { index } => index < self.candidates.len(),
            PhaseView::FetchingIcon { index } => index < self.candidates.len(),
            PhaseView::Storing { index, body } => index < self.candidates.len(),
            PhaseView::Found { index } => index < self.candidates.len(),
            PhaseView::Exhausted => true,
        }
    }

    /// The same resolution in another phase.
    pub open spec fn at(self, phase: PhaseView) -> ResolutionView {
        ResolutionView { phase, ..self }
    }

    /// The path of the cache file of the candidate at `index`.
    pub open spec fn entry_path(self, index: nat) -> Seq<char> {
        entry_path_of(self.directory, self.candidates[index as int].url)
    }

    /// Where the resolution goes when the candidate at `index` has failed: to
    /// the next candidate, or to its end when there is none.
    pub open spec fn after_failure(self, index: nat) -> ResolutionView {
        if index + 1 < self.candidates.len() {
            self.at(PhaseView::CheckingCache { index: index + 1 })
        } else {
            self.at(PhaseView::Exhausted)
        }
    }

    /// Whether the resolution has ended.
    pub open spec fn finished(self) -> bool {
        self.phase.is_final()
    }
}

/// A resolution at its start: the document is asked for, and the well-known
/// candidate is the only one known.
pub open spec fn initial(site: SiteView, directory: Seq<char>) -> ResolutionView {
    ResolutionView {
        directory,
        site,
        candidates: site_candidates(site, None),
        phase: PhaseView::AwaitingDocument,
    }
}

/// How the resolution of `raw` begins: in its first state where `raw` names a
/// site, and with `InvalidInput` where it names none. In the second case
/// there is no state, and so no action that could be due.
pub open spec fn begun(raw: Seq<char>, directory: Seq<char>) -> Result<
    ResolutionView,
    ResolveError,
> {
    match site_of(raw) {
        Some(site) => Ok(initial(site, directory)),
        None => Err(ResolveError::InvalidInput),
    }
}

/// Whether `event` reports on the action that is due in `state`.
pub open spec fn answers(state: ResolutionView, event: EventView) -> bool {
    match state.phase {
        PhaseView::AwaitingDocument => event is Document,
        PhaseView::CheckingCache { index } => event is CacheChecked,
        PhaseView::FetchingIcon { index } => event is IconFetched,
        PhaseView::Storing { index, body } => event is Stored,
        PhaseView::Found { index } => false,
        PhaseView::Exhausted => false,
    }
}

/// The state that follows `state` on `event`. An event that does not answer
/// the action that is due changes nothing.
pub open spec fn next(state: ResolutionView, event: EventView) -> ResolutionView {
    match state.phase {
        PhaseView::AwaitingDocument => match event {
            EventView::Document { text } => ResolutionView {
                candidates: site_candidates(state.site, text),
                phase: PhaseView::CheckingCache { index: 0 },
                ..state
            },
            _ => state,
        },
        PhaseView::CheckingCache { index } => match event {
            EventView::CacheChecked { present } => if present {
                state.at(PhaseView::Found { index })
            } else {
                state.at(PhaseView::FetchingIcon { index })
            },
            _ => state,
        },
        PhaseView::FetchingIcon { index } => match event {
            EventView::IconFetched { response } => match fetched_body(response) {
                Some(body) => state.at(PhaseView::Storing { index, body }),
                None => state.after_failure(index),
            },
            _ => state,
        },
        PhaseView::Storing { index, body } => match event {
            EventView::Stored { written } => if written {
                state.at(PhaseView::Found { index })
            } else {
                state.after_failure(index)
            },
            _ => state,
        },
        PhaseView::Found { index } => state,
        PhaseView::Exhausted => state,
    }
}

/// The action that is due in `state`.
pub open spec fn pending(state: ResolutionView) -> ActionView {
    match state.phase {
        PhaseView::AwaitingDocument => ActionView::FetchDocument { url: state.site.origin.root() },
        PhaseView::CheckingCache { index } => ActionView::CheckCache {
            path: state.entry_path(index),
        },
        PhaseView::FetchingIcon { index } => ActionView::FetchIcon {
            url: state.candidates[index as int].url,
        },
        PhaseView::Storing { index, body } => ActionView::Store {
            path: state.entry_path(index),
            body,
        },
        PhaseView::Found { index } => ActionView::Finish { outcome: Ok(state.entry_path(index)) },
        PhaseView::Exhausted => ActionView::Finish {
            outcome: Err(ResolveError::ResolutionExhausted),
        },
    }
}

/// The outcome of a resolution that has ended, `None` while it goes on.
pub open spec fn outcome_of(state: ResolutionView) -> Option<Result<Seq<char>, ResolveError>> {
    match state.phase {
        PhaseView::Found { index } => Some(Ok(state.entry_path(index))),
        PhaseView::Exhausted => Some(Err(ResolveError::ResolutionExhausted)),
        _ => None,
    }
}

/// Whether a response with the status `status` carries an icon, so that its
/// body is worth reading.
pub fn carries_icon(status: u16) -> (wanted: bool)
    ensures
        wanted == is_success(status as int),
{
    200 <= status && status < 300
}

/// The icon that `response` carries, if it carries one.
pub fn icon_body(response: Option<IconResponse>) -> (body: Option<Vec<u8>>)
    ensures
        match body {
            Some(body) => fetched_body(response_view(response)) == Some(body@),
            None => fetched_body(response_view(response)) is None,
        },
{
    match response {
        Some(response) => if carries_icon(response.status) {
            response.body
        } else {
            None
        },
        None => None,
    }
}

/// The view of an optional response.
pub open spec fn response_view(response: Option<IconResponse>) -> Option<IconResponseView> {
    match response {
        Some(response) => Some(response@),
        None => None,
    }
}

impl View for Resolution {
    type V = ResolutionView;

    closed spec fn view(&self) -> ResolutionView {
        ResolutionView {
            directory: self.directory@,
            site: self.site@,
            candidates: self.candidates.deep_view(),
            phase: self.phase@,
        }
    }
}

impl Resolution {
    #[verifier::type_invariant]
    spec fn valid(self) -> bool {
        self@.wf()
    }

    /// Starts the resolution of `site` with the cache in `directory`.
    pub fn start(site: Site, directory: &str) -> (resolution: Resolution)
        ensures
            resolution@ == initial(site@, directory@),
            resolution@.wf(),
    {
        let found = candidates(&site, None);
        Resolution {
            directory: directory.to_owned(),
            site,
            candidates: found,
            phase: Phase::AwaitingDocument,
        }
    }

    /// Starts the resolution of the site that `raw` names, with the cache in
    /// `directory`. Where `raw` names no site the resolution ends here, with
    /// `InvalidInput` and before any action is due.
    pub fn begin(raw: &str, directory: &str) -> (resolution: Result<Resolution, ResolveError>)
        ensures
            match resolution {
                Ok(resolution) => begun(raw@, directory@) == Ok::<ResolutionView, ResolveError>(
                    resolution@,
                ) && resolution@.wf(),
                Err(error) => begun(raw@, directory@) == Err::<ResolutionView, ResolveError>(
                    error,
                ),
            },
    {
        match Site::resolve(raw) {
            Ok(site) => Ok(Resolution::start(site, directory)),
            Err(error) => Err(error),
        }
    }

    /// The site whose icon is wanted.
    pub fn site(&self) -> (site: &Site)
        ensures
            site@ == self@.site,
    {
        &self.site
    }

    /// The cache directory.
    pub fn directory(&self) -> (directory: &str)
        ensures
            directory@ == self@.directory,
    {
        self.directory.as_str()
    }

    /// The candidates known so far, in the order in which they are tried.
    pub fn candidates(&self) -> (candidates: &Vec<Candidate>)
        ensures
            candidates.deep_view() == self@.candidates,
            well_formed(self@.candidates),
    {
        proof {
            use_type_invariant(self);
        }
        &self.candidates
    }

    /// Whether the resolution has ended.
    pub fn is_finished(&self) -> (finished: bool)
        ensures
            finished == self@.finished(),
    {
        match &self.phase {
            Phase::Found { index } => true,
            Phase::Exhausted => true,
            _ => false,
        }
    }

    /// The path of the cache file of the candidate at `index`.
    fn path(&self, index: usize) -> (path: String)
        requires
            index < self@.candidates.len(),
        ensures
            path@ == self@.entry_path(index as nat),
    {
        assert(self.candidates[index as int].url@ == self.candidates.deep_view()[index as int].url);
        entry_path(self.directory.as_str(), self.candidates[index].url.as_str())
    }

    /// The action that is due.
    pub fn action(&self) -> (action: Action)
        ensures
            action@ == pending(self@),
    {
        proof {
            use_type_invariant(self);
        }
        match &self.phase {
            Phase::AwaitingDocument => Action::FetchDocument { url: self.site.origin.root_url() },
            Phase::CheckingCache { index } => Action::CheckCache { path: self.path(*index) },
            Phase::FetchingIcon { index } => {
                assert(self.candidates[*index as int].url@ == self.candidates.deep_view()[*index as int].url);
                Action::FetchIcon { url: self.candidates[*index].url.clone() }
            },
            Phase::Storing { index, body } => {
                let copy = body.clone();
                assert(copy@ =~= body@);
                Action::Store { path: self.path(*index), body: copy }
            },
            Phase::Found { index } => Action::Finish { outcome: Ok(self.path(*index)) },
            Phase::Exhausted => Action::Finish { outcome: Err(ResolveError::ResolutionExhausted) },
        }
    }

    /// The outcome of the resolution once it has ended, `None` while it goes
    /// on.
    pub fn outcome(&self) -> (outcome: Option<Result<String, ResolveError>>)
        ensures
            match outcome {
                Some(Ok(path)) => outcome_of(self@) == Some(
                    Ok::<Seq<char>, ResolveError>(path@),
                ),
                Some(Err(error)) => outcome_of(self@) == Some(
                    Err::<Seq<char>, ResolveError>(error),
                ),
                None => outcome_of(self@) is None,
            },
    {
        proof {
            use_type_invariant(self);
        }
        match &self.phase {
            Phase::Found { index } => Some(Ok(self.path(*index))),
            Phase::Exhausted => Some(Err(ResolveError::ResolutionExhausted)),
            _ => None,
        }
    }

    /// The phase after the candidate at `index` has failed.
    fn phase_after_failure(count: usize, index: usize) -> (phase: Phase)
        requires
            index < count,
        ensures
            phase@ == if index + 1 < count {
                PhaseView::CheckingCache { index: (index + 1) as nat }
            } else {
                PhaseView::Exhausted
            },
    {
        if index + 1 < count {
            Phase::CheckingCache { index: index + 1 }
        } else {
            Phase::Exhausted
        }
    }

    /// Takes the report on the action that was due and moves on. A report on
    /// anything else changes nothing.
    pub fn advance(self, event: Event) -> (after: Resolution)
        ensures
            after@ == next(self@, event@),
            after@.wf(),
    {
        proof {
            use_type_invariant(&self);
        }
        let Resolution { directory, site, candidates: known, phase } = self;
        let count = known.len();
        match phase {
            Phase::AwaitingDocument => match event {
                Event::Document { text } => {
                    let found = match &text {
                        Some(text) => candidates(&site, Some(text.as_str())),
                        None => candidates(&site, None),
                    };
                    Resolution {
                        directory,
                        site,
                        candidates: found,
                        phase: Phase::CheckingCache { index: 0 },
                    }
                },
                _ => Resolution { directory, site, candidates: known, phase: Phase::AwaitingDocument },
            },
            Phase::CheckingCache { index } => match event {
                Event::CacheChecked { present } => {
                    let phase = if present {
                        Phase::Found { index }
                    } else {
                        Phase::FetchingIcon { index }
                    };
                    Resolution { directory, site, candidates: known, phase }
                },
                _ => Resolution {
                    directory,
                    site,
                    candidates: known,
                    phase: Phase::CheckingCache { index },
                },
            },
            Phase::FetchingIcon { index } => match event {
                Event::IconFetched { response } => {
                    let phase = match icon_body(response) {
                        Some(body) => Phase::Storing { index, body },
                        None => Resolution::phase_after_failure(count, index),
                    };
                    Resolution { directory, site, candidates: known, phase }
                },
                _ => Resolution {
                    directory,
                    site,
                    candidates: known,
                    phase: Phase::FetchingIcon { index },
                },
            },
            Phase::Storing { index, body } => match event {
                Event::Stored { written } => {
                    let phase = if written {
                        Phase::Found { index }
                    } else {
                        Resolution::phase_after_failure(count, index)
                    };
                    Resolution { directory, site, candidates: known, phase }
                },
                _ => Resolution {
                    directory,
                    site,
                    candidates: known,
                    phase: Phase::Storing { index, body },
                },
            },
            Phase::Found { index } => Resolution {
                directory,
                site,
                candidates: known,
                phase: Phase::Found { index },
            },
            Phase::Exhausted => Resolution {
                directory,
                site,
                candidates: known,
                phase: Phase::Exhausted,
            },
        }
    }
}

} // verus!
