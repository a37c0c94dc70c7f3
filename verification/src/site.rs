//! From what a user typed to the site it names: the page address, its origin
//! and the address of the icon at the well-known path.

use url::Url;
use vstd::prelude::*;

verus! {

/// Why a resolution ended without an icon.
#[derive(Clone, Copy, Debug, PartialEq, Eq, Structural)]
pub enum ResolveError {
    /// The input is not the address of a site, even with a scheme put before it.
    InvalidInput,
    /// The input names a site, and none of its candidate addresses gave an icon.
    ResolutionExhausted,
}

/// What a caller may show for `error`.
pub open spec fn message_of(error: ResolveError) -> Seq<char> {
    match error {
        ResolveError::InvalidInput => "Not the address of a site"@,
        ResolveError::ResolutionExhausted => "Failed to fetch favicon"@,
    }
}

impl ResolveError {
    /// A short text that says what went wrong.
    pub fn message(self) -> (text: &'static str)
        ensures
            text@ == message_of(self),
    {
        match self {
            ResolveError::InvalidInput => "Not the address of a site",
            ResolveError::ResolutionExhausted => "Failed to fetch favicon",
        }
    }
}

/// The plain scheme with the mark of an authority behind it: `http://`.
pub open spec fn plain_prefix() -> Seq<char> {
    seq!['h', 't', 't', 'p', ':', '/', '/']
}

/// The secure scheme with the mark of an authority behind it: `https://`. It
/// is put before an input that carries no scheme.
pub open spec fn secure_prefix() -> Seq<char> {
    seq!['h', 't', 't', 'p', 's', ':', '/', '/']
}

/// What stands between scheme and host in an origin.
pub open spec fn authority_mark() -> Seq<char> {
    seq![':', '/', '/']
}

/// The path at which sites keep their icon by convention.
pub open spec fn well_known_path() -> Seq<char> {
    seq!['/', 'f', 'a', 'v', 'i', 'c', 'o', 'n', '.', 'i', 'c', 'o']
}

/// Whether `raw` carries a scheme already: it begins with `http://` or with
/// `https://`. A name that merely begins with the letters `http` carries
/// none.
pub open spec fn carries_scheme(raw: Seq<char>) -> bool {
    plain_prefix().is_prefix_of(raw) || secure_prefix().is_prefix_of(raw)
}

/// The page address that `raw` stands for: `raw` itself where it carries a
/// scheme, and `raw` behind the secure scheme where it does not.
pub open spec fn normalized(raw: Seq<char>) -> Seq<char> {
    if carries_scheme(raw) {
        raw
    } else {
        secure_prefix() + raw
    }
}

/// Whether `text` begins with `prefix`.
pub fn starts_with(text: &str, prefix: &str) -> (found: bool)
    ensures
        found == prefix@.is_prefix_of(text@),
{
    let wanted = prefix.unicode_len();
    if text.unicode_len() < wanted {
        return false;
    }
    let mut i: usize = 0;
    while i < wanted
        invariant
            i <= wanted,
            wanted == prefix@.len(),
            wanted <= text@.len(),
            forall|k: int| 0 <= k < i ==> text@[k] == prefix@[k],
        decreases wanted - i,
    {
        if text.get_char(i) != prefix.get_char(i) {
            assert(text@.subrange(0, wanted as int)[i as int] != prefix@[i as int]);
            return false;
        }
        i += 1;
    }
    assert(prefix@ =~= text@.subrange(0, wanted as int));
    true
}

/// Puts the secure scheme before `raw` unless it carries a scheme already.
pub fn normalize(raw: &str) -> (page: String)
    ensures
        page@ == normalized(raw@),
        carries_scheme(raw@) ==> page@ == raw@,
        !carries_scheme(raw@) ==> page@ == secure_prefix() + raw@,
{
    proof {
        reveal_strlit("http://");
        reveal_strlit("https://");
        assert("http://"@ =~= plain_prefix());
        assert("https://"@ =~= secure_prefix());
    }
    if starts_with(raw, "http://") || starts_with(raw, "https://") {
        raw.to_owned()
    } else {
        let mut page = "https://".to_owned();
        page.append(raw);
        page
    }
}

/// An input that carries no scheme is given the secure one, also where it
/// begins with the letters of a scheme.
pub proof fn lemma_scheme_is_prepended(raw: Seq<char>)
    requires
        !carries_scheme(raw),
    ensures
        normalized(raw) == secure_prefix() + raw,
        normalized(raw).len() == raw.len() + 8,
        normalized(raw).subrange(8, normalized(raw).len() as int) == raw,
{
    assert(normalized(raw).subrange(8, normalized(raw).len() as int) =~= raw);
}

/// An input that carries a scheme is left as it is.
pub proof fn lemma_scheme_is_preserved(raw: Seq<char>)
    requires
        carries_scheme(raw),
    ensures
        normalized(raw) == raw,
{
}

/// A normalized input carries a scheme, so that normalizing it again changes
/// nothing.
pub proof fn lemma_normalized_is_stable(raw: Seq<char>)
    ensures
        carries_scheme(normalized(raw)),
        normalized(normalized(raw)) == normalized(raw),
{
    if !carries_scheme(raw) {
        assert(secure_prefix() =~= (secure_prefix() + raw).subrange(0, 8));
    }
}

/// What decides is the whole prefix, not its first letters: an input without
/// `://` behind `http` or `https` carries no scheme.
pub proof fn lemma_letters_are_no_scheme(raw: Seq<char>)
    requires
        raw.len() < 7 || (raw[4] != ':' && raw[5] != ':'),
    ensures
        !carries_scheme(raw),
        normalized(raw) == secure_prefix() + raw,
{
    if plain_prefix().is_prefix_of(raw) {
        assert(raw.subrange(0, 7)[4] == plain_prefix()[4]);
    }
    if secure_prefix().is_prefix_of(raw) {
        assert(raw.subrange(0, 8)[5] == secure_prefix()[5]);
    }
}

/// What the logic reads of a parsed address.
#[derive(Clone, Debug, PartialEq, Eq)]
pub struct UrlParts {
    /// The scheme, without the colon behind it.
    pub scheme: String,
    /// The host as text, where the address has one.
    pub host: Option<String>,
}

/// The mathematical value of [`UrlParts`].
pub struct UrlPartsView {
    pub scheme: Seq<char>,
    pub host: Option<Seq<char>>,
}

impl View for UrlParts {
    type V = UrlPartsView;

    open spec fn view(&self) -> UrlPartsView {
        UrlPartsView {
            scheme: self.scheme@,
            host: match self.host {
                Some(host) => Some(host@),
                None => None,
            },
        }
    }
}

/// The view of an optional string.
pub open spec fn text_of(text: Option<String>) -> Option<Seq<char>> {
    match text {
        Some(text) => Some(text@),
        None => None,
    }
}

/// The view of optional parts.
pub open spec fn parts_of(parts: Option<UrlParts>) -> Option<UrlPartsView> {
    match parts {
        Some(parts) => Some(parts@),
        None => None,
    }
}

/// The scheme and host of `text` read as an absolute address, or `None` where
/// it cannot be read as one.
pub uninterp spec fn url_parts(text: Seq<char>) -> Option<UrlPartsView>;

/// The address that `reference` denotes on the page at `base`, or `None` where
/// `base` is no absolute address or `reference` cannot be read against it.
pub uninterp spec fn url_join(base: Seq<char>, reference: Seq<char>) -> Option<Seq<char>>;

/// Calls `url::Url::parse` on `text` and copies out the result of `scheme` and
/// of `host_str`. The contract names what comes back `url_parts(text)`: `None`
/// for an `Err`, the two components otherwise. Nothing is claimed about which
/// texts parse.
#[verifier::external_body]
fn parse_url(text: &str) -> (parts: Option<UrlParts>)
    ensures
        parts_of(parts) == url_parts(text@),
{
    match Url::parse(text) {
        Ok(url) => Some(
            UrlParts { scheme: url.scheme().to_string(), host: url.host_str().map(String::from) },
        ),
        Err(_) => None,
    }
}

/// Calls `url::Url::parse` on `base` and then `url::Url::join` on the parsed
/// address with `reference`. The contract names the text of the joined address
/// `url_join(base, reference)`, which is `None` where either call fails.
#[verifier::external_body]
pub(crate) fn join_url(base: &str, reference: &str) -> (joined: Option<String>)
    ensures
        text_of(joined) == url_join(base@, reference@),
{
    match Url::parse(base) {
        Ok(url) => match url.join(reference) {
            Ok(joined) => Some(String::from(joined)),
            Err(_) => None,
        },
        Err(_) => None,
    }
}

/// The scheme and host of a site.
#[derive(Clone, Debug, PartialEq, Eq)]
pub struct Origin {
    pub scheme: String,
    pub host: String,
}

/// The mathematical value of an [`Origin`].
pub struct OriginView {
    pub scheme: Seq<char>,
    pub host: Seq<char>,
}

impl OriginView {
    /// The address of the origin's root document: scheme, `://`, host.
    pub open spec fn root(self) -> Seq<char> {
        self.scheme + authority_mark() + self.host
    }
}

impl View for Origin {
    type V = OriginView;

    open spec fn view(&self) -> OriginView {
        OriginView { scheme: self.scheme@, host: self.host@ }
    }
}

/// The origin that `parts` describe, where there are parts and they have a
/// host.
pub open spec fn origin_of(parts: Option<UrlPartsView>) -> Option<OriginView> {
    match parts {
        Some(parts) => match parts.host {
            Some(host) => Some(OriginView { scheme: parts.scheme, host }),
            None => None,
        },
        None => None,
    }
}

impl Origin {
    /// The origin of a parsed address. An address that did not parse, or that
    /// has no host, is invalid input.
    pub fn from_parts(parts: Option<UrlParts>) -> (origin: Result<Origin, ResolveError>)
        ensures
            match origin {
                Ok(origin) => origin_of(parts_of(parts)) == Some(origin@),
                Err(error) => error == ResolveError::InvalidInput && origin_of(parts_of(parts))
                    is None,
            },
    {
        match parts {
            Some(parts) => match parts.host {
                Some(host) => Ok(Origin { scheme: parts.scheme, host }),
                None => Err(ResolveError::InvalidInput),
            },
            None => Err(ResolveError::InvalidInput),
        }
    }

    /// The address of the origin's root document.
    pub fn root_url(&self) -> (url: String)
        ensures
            url@ == self@.root(),
    {
        proof {
            reveal_strlit("://");
            assert("://"@ =~= authority_mark());
        }
        let mut url = self.scheme.clone();
        url.append("://");
        url.append(self.host.as_str());
        url
    }
}

/// A site whose icon is wanted.
#[derive(Clone, Debug, PartialEq, Eq)]
pub struct Site {
    /// The normalized input.
    pub page: String,
    /// Scheme and host of the page.
    pub origin: Origin,
    /// The address of the icon at the well-known path.
    pub well_known: String,
}

/// The mathematical value of a [`Site`].
pub struct SiteView {
    pub page: Seq<char>,
    pub origin: OriginView,
    pub well_known: Seq<char>,
}

impl View for Site {
    type V = SiteView;

    open spec fn view(&self) -> SiteView {
        SiteView { page: self.page@, origin: self.origin@, well_known: self.well_known@ }
    }
}

/// The site made of a page address, its origin and the well-known icon address
/// joined from it, where all three exist.
pub open spec fn assembled(
    page: Seq<char>,
    origin: Option<OriginView>,
    well_known: Option<Seq<char>>,
) -> Option<SiteView> {
    match (origin, well_known) {
        (Some(origin), Some(well_known)) => Some(SiteView { page, origin, well_known }),
        _ => None,
    }
}

/// The site that `raw` names: its normalized form must parse as an address
/// with a host, and the well-known path must join onto it.
pub open spec fn site_of(raw: Seq<char>) -> Option<SiteView> {
    let page = normalized(raw);
    assembled(page, origin_of(url_parts(page)), url_join(page, well_known_path()))
}

impl Site {
    /// Puts a site together from its page address, its origin and the result
    /// of joining the well-known path onto the page. A join that failed is
    /// invalid input.
    pub fn assemble(page: String, origin: Origin, well_known: Option<String>) -> (site: Result<
        Site,
        ResolveError,
    >)
        ensures
            match site {
                Ok(site) => assembled(page@, Some(origin@), text_of(well_known)) == Some(site@),
                Err(error) => error == ResolveError::InvalidInput && well_known is None,
            },
    {
        match well_known {
            Some(well_known) => Ok(Site { page, origin, well_known }),
            None => Err(ResolveError::InvalidInput),
        }
    }

    /// The site that `raw` names, or `InvalidInput` where it names none.
    pub fn resolve(raw: &str) -> (site: Result<Site, ResolveError>)
        ensures
            match site {
                Ok(site) => site_of(raw@) == Some(site@),
                Err(error) => error == ResolveError::InvalidInput && site_of(raw@) is None,
            },
    {
        proof {
            reveal_strlit("/favicon.ico");
            assert("/favicon.ico"@ =~= well_known_path());
        }
        let page = normalize(raw);
        match Origin::from_parts(parse_url(page.as_str())) {
            Ok(origin) => {
                let well_known = join_url(page.as_str(), "/favicon.ico");
                Site::assemble(page, origin, well_known)
            },
            Err(error) => Err(error),
        }
    }
}

} // verus!
