use std::collections::HashMap;

use favicon_resolver::candidates::CandidateSource;
use favicon_resolver::resolution::{
    carries_icon, icon_body, Action, Event, IconResponse, Resolution, USER_AGENT,
};
use favicon_resolver::site::{ResolveError, Site};

const EXAMPLE_ICON: &str = "https://example.com/favicon.ico";
const EXAMPLE_KEY: &str = "d3d39abc88b126ca1df72306e7d15dba35623cc2197ad321867ca4b200d98b02";

/// A network and a file system that hold what the test puts in them, and
/// remember what was asked of them.
struct World {
    documents: HashMap<String, String>,
    icons: HashMap<String, (u16, Option<Vec<u8>>)>,
    files: HashMap<String, Vec<u8>>,
    read_only: bool,
    requests: Vec<String>,
    writes: Vec<String>,
}

fn empty_world() -> World {
    World {
        documents: HashMap::new(),
        icons: HashMap::new(),
        files: HashMap::new(),
        read_only: false,
        requests: Vec::new(),
        writes: Vec::new(),
    }
}

fn perform(world: &mut World, action: Action) -> Result<Event, Result<String, ResolveError>> {
    match action {
        Action::FetchDocument { url } => {
            world.requests.push(url.clone());
            Ok(Event::Document { text: world.documents.get(&url).cloned() })
        }
        Action::CheckCache { path } => {
            Ok(Event::CacheChecked { present: world.files.contains_key(&path) })
        }
        Action::FetchIcon { url } => {
            world.requests.push(url.clone());
            let response = world
                .icons
                .get(&url)
                .map(|(status, body)| IconResponse { status: *status, body: body.clone() });
            Ok(Event::IconFetched { response })
        }
        Action::Store { path, body } => {
            if world.read_only {
                Ok(Event::Stored { written: false })
            } else {
                world.writes.push(path.clone());
                world.files.insert(path, body);
                Ok(Event::Stored { written: true })
            }
        }
        Action::Finish { outcome } => Err(outcome),
    }
}

fn resolve(world: &mut World, raw: &str, directory: &str) -> Result<String, ResolveError> {
    let mut resolution = Resolution::begin(raw, directory)?;
    for _ in 0..1000 {
        match perform(world, resolution.action()) {
            Ok(event) => resolution = resolution.advance(event),
            Err(outcome) => return outcome,
        }
    }
    panic!("the resolution did not end");
}

fn awaiting_candidates(document: Option<&str>) -> Resolution {
    let resolution = Resolution::begin("example.com", "/cache").unwrap();
    resolution.advance(Event::Document { text: document.map(|text| text.to_string()) })
}

#[test]
fn client_identifier_is_fixed() {
    assert_eq!(USER_AGENT, "Mozilla/5.0 (Tauri)");
}

#[test]
fn icon_body_needs_a_status_of_success() {
    let body = Some(vec![1u8, 2, 3]);
    assert_eq!(icon_body(Some(IconResponse { status: 200, body: body.clone() })), body);
    assert_eq!(icon_body(Some(IconResponse { status: 204, body: Some(Vec::new()) })), Some(Vec::new()));
    assert_eq!(icon_body(Some(IconResponse { status: 299, body: body.clone() })), body);
    assert_eq!(icon_body(Some(IconResponse { status: 199, body: body.clone() })), None);
    assert_eq!(icon_body(Some(IconResponse { status: 300, body: body.clone() })), None);
    assert_eq!(icon_body(Some(IconResponse { status: 404, body: body.clone() })), None);
    assert_eq!(icon_body(Some(IconResponse { status: 500, body })), None);
}

#[test]
fn only_a_status_of_success_carries_an_icon() {
    for status in [200u16, 201, 204, 299] {
        assert!(carries_icon(status));
    }
    for status in [0u16, 100, 199, 300, 301, 404, 500, 65535] {
        assert!(!carries_icon(status));
    }
}

#[test]
fn icon_body_needs_a_response_and_a_body() {
    assert_eq!(icon_body(None), None);
    assert_eq!(icon_body(Some(IconResponse { status: 200, body: None })), None);
}

#[test]
fn begin_rejects_malformed_input_before_any_action() {
    assert!(matches!(Resolution::begin("", "/cache"), Err(ResolveError::InvalidInput)));
    assert!(matches!(Resolution::begin("http://", "/cache"), Err(ResolveError::InvalidInput)));
    assert!(matches!(Resolution::begin("exa mple.com", "/cache"), Err(ResolveError::InvalidInput)));
}

#[test]
fn malformed_input_performs_no_network_call() {
    let mut world = empty_world();
    for raw in ["", "https://", "http://", "exa mple.com"] {
        assert_eq!(resolve(&mut world, raw, "/cache"), Err(ResolveError::InvalidInput));
    }
    assert!(world.requests.is_empty());
    assert!(world.files.is_empty());
}

#[test]
fn begin_asks_for_the_root_document_of_the_origin() {
    let resolution = Resolution::begin("example.com/deep/page", "/cache").unwrap();
    assert_eq!(
        resolution.action(),
        Action::FetchDocument { url: "https://example.com".to_string() }
    );
    assert!(!resolution.is_finished());
    assert_eq!(resolution.outcome(), None);
    assert_eq!(resolution.directory(), "/cache");
    assert_eq!(resolution.site().page, "https://example.com/deep/page");
    assert_eq!(resolution.candidates().len(), 1);
}

#[test]
fn start_takes_a_site() {
    let site = Site::resolve("example.com").unwrap();
    let resolution = Resolution::start(site.clone(), "/cache");
    assert_eq!(resolution.site(), &site);
    assert_eq!(
        resolution.action(),
        Action::FetchDocument { url: "https://example.com".to_string() }
    );
}

#[test]
fn well_known_candidate_is_first_without_a_document() {
    let resolution = awaiting_candidates(None);
    assert_eq!(resolution.candidates().len(), 1);
    assert_eq!(resolution.candidates()[0].url, EXAMPLE_ICON);
    assert_eq!(resolution.candidates()[0].source, CandidateSource::WellKnownPath);
    assert_eq!(
        resolution.action(),
        Action::CheckCache { path: format!("/cache/{}.ico", EXAMPLE_KEY) }
    );
}

#[test]
fn well_known_candidate_is_first_with_a_document() {
    let resolution = awaiting_candidates(Some(
        "<link rel=\"icon\" href=\"/a.png\"><link rel=\"shortcut icon\" href=\"/b.png\">",
    ));
    let urls: Vec<&str> =
        resolution.candidates().iter().map(|candidate| candidate.url.as_str()).collect();
    assert_eq!(
        urls,
        vec![EXAMPLE_ICON, "https://example.com/a.png", "https://example.com/b.png"]
    );
    assert_eq!(
        resolution.action(),
        Action::CheckCache { path: format!("/cache/{}.ico", EXAMPLE_KEY) }
    );
}

#[test]
fn cache_hit_ends_the_resolution_with_the_path() {
    let resolution = awaiting_candidates(None).advance(Event::CacheChecked { present: true });
    let path = format!("/cache/{}.ico", EXAMPLE_KEY);
    assert!(resolution.is_finished());
    assert_eq!(resolution.outcome(), Some(Ok(path.clone())));
    assert_eq!(resolution.action(), Action::Finish { outcome: Ok(path) });
}

#[test]
fn cache_miss_asks_for_the_icon() {
    let resolution = awaiting_candidates(None).advance(Event::CacheChecked { present: false });
    assert_eq!(resolution.action(), Action::FetchIcon { url: EXAMPLE_ICON.to_string() });
    assert_eq!(resolution.outcome(), None);
}

#[test]
fn fetched_icon_is_stored_under_its_key() {
    let body = vec![0xffu8, 0xd8, 0xff, 0xe0];
    let resolution = awaiting_candidates(None)
        .advance(Event::CacheChecked { present: false })
        .advance(Event::IconFetched {
            response: Some(IconResponse { status: 200, body: Some(body.clone()) }),
        });
    let path = format!("/cache/{}.ico", EXAMPLE_KEY);
    assert_eq!(resolution.action(), Action::Store { path: path.clone(), body });
    let resolution = resolution.advance(Event::Stored { written: true });
    assert_eq!(resolution.outcome(), Some(Ok(path)));
}

#[test]
fn failed_candidate_gives_way_to_the_next() {
    let resolution = awaiting_candidates(Some("<link rel=\"icon\" href=\"/a.png\">"))
        .advance(Event::CacheChecked { present: false })
        .advance(Event::IconFetched {
            response: Some(IconResponse { status: 404, body: Some(b"not found".to_vec()) }),
        });
    assert_eq!(
        resolution.action(),
        Action::CheckCache {
            path: "/cache/494a30704d4f32ac0b81739d18a66d3638d440cbc6f5669f6af66f840edee5ab.ico"
                .to_string()
        }
    );
    let resolution = resolution.advance(Event::CacheChecked { present: false });
    assert_eq!(
        resolution.action(),
        Action::FetchIcon { url: "https://example.com/a.png".to_string() }
    );
}

#[test]
fn failed_write_gives_way_to_the_next_candidate() {
    let resolution = awaiting_candidates(Some("<link rel=\"icon\" href=\"/a.png\">"))
        .advance(Event::CacheChecked { present: false })
        .advance(Event::IconFetched {
            response: Some(IconResponse { status: 200, body: Some(vec![1, 2]) }),
        })
        .advance(Event::Stored { written: false });
    assert!(matches!(resolution.action(), Action::CheckCache { .. }));
    assert_eq!(resolution.outcome(), None);
}

#[test]
fn last_failure_exhausts_the_resolution() {
    let resolution = awaiting_candidates(None)
        .advance(Event::CacheChecked { present: false })
        .advance(Event::IconFetched { response: None });
    assert!(resolution.is_finished());
    assert_eq!(resolution.outcome(), Some(Err(ResolveError::ResolutionExhausted)));
    assert_eq!(
        resolution.action(),
        Action::Finish { outcome: Err(ResolveError::ResolutionExhausted) }
    );
}

#[test]
fn event_that_answers_nothing_changes_nothing() {
    let resolution = Resolution::begin("example.com", "/cache").unwrap();
    let before = resolution.action();
    let resolution = resolution
        .advance(Event::CacheChecked { present: true })
        .advance(Event::Stored { written: true })
        .advance(Event::IconFetched { response: None });
    assert_eq!(resolution.action(), before);

    let checking = awaiting_candidates(None);
    let before = checking.action();
    let checking = checking
        .advance(Event::Document { text: Some("<link rel=\"icon\" href=\"/a.png\">".to_string()) })
        .advance(Event::Stored { written: true });
    assert_eq!(checking.action(), before);
    assert_eq!(checking.candidates().len(), 1);
}

#[test]
fn finished_resolution_stays_finished() {
    let resolution = awaiting_candidates(None).advance(Event::CacheChecked { present: true });
    let outcome = resolution.outcome();
    let resolution = resolution
        .advance(Event::CacheChecked { present: false })
        .advance(Event::IconFetched { response: None })
        .advance(Event::Document { text: None });
    assert_eq!(resolution.outcome(), outcome);
}

#[test]
fn all_candidates_failing_exhausts_and_writes_nothing() {
    let mut world = empty_world();
    world.documents.insert(
        "https://example.com".to_string(),
        "<link rel=\"icon\" href=\"/a.png\"><link rel=\"shortcut icon\" href=\"/b.png\">"
            .to_string(),
    );
    world.icons.insert(EXAMPLE_ICON.to_string(), (404, Some(b"gone".to_vec())));
    world.icons.insert("https://example.com/a.png".to_string(), (500, Some(Vec::new())));
    world.icons.insert("https://example.com/b.png".to_string(), (301, None));
    assert_eq!(
        resolve(&mut world, "example.com", "/cache"),
        Err(ResolveError::ResolutionExhausted)
    );
    assert!(world.files.is_empty());
    assert!(world.writes.is_empty());
    assert_eq!(
        world.requests,
        vec![
            "https://example.com",
            EXAMPLE_ICON,
            "https://example.com/a.png",
            "https://example.com/b.png",
        ]
    );
}

#[test]
fn total_network_failure_still_tries_the_well_known_path() {
    let mut world = empty_world();
    assert_eq!(
        resolve(&mut world, "example.com", "/cache"),
        Err(ResolveError::ResolutionExhausted)
    );
    assert_eq!(world.requests, vec!["https://example.com", EXAMPLE_ICON]);
}

#[test]
fn first_success_stops_the_search() {
    let mut world = empty_world();
    world.documents.insert(
        "https://example.com".to_string(),
        "<link rel=\"icon\" href=\"/a.png\"><link rel=\"shortcut icon\" href=\"/b.png\">"
            .to_string(),
    );
    world.icons.insert("https://example.com/a.png".to_string(), (200, Some(vec![7, 7, 7])));
    world.icons.insert("https://example.com/b.png".to_string(), (200, Some(vec![8, 8, 8])));
    let path = resolve(&mut world, "example.com", "/cache").unwrap();
    assert_eq!(
        path,
        "/cache/494a30704d4f32ac0b81739d18a66d3638d440cbc6f5669f6af66f840edee5ab.ico"
    );
    assert_eq!(world.files.get(&path), Some(&vec![7u8, 7, 7]));
    assert_eq!(world.files.len(), 1);
    assert!(!world.requests.contains(&"https://example.com/b.png".to_string()));
}

#[test]
fn storage_failure_falls_through_to_exhaustion() {
    let mut world = empty_world();
    world.read_only = true;
    world.icons.insert(EXAMPLE_ICON.to_string(), (200, Some(vec![1])));
    assert_eq!(
        resolve(&mut world, "example.com", "/cache"),
        Err(ResolveError::ResolutionExhausted)
    );
    assert!(world.files.is_empty());
}

#[test]
fn example_site_end_to_end() {
    let mut world = empty_world();
    let icon = vec![0xffu8, 0xd8, 0xff, 0xe0, 0x00, 0x10];
    world.icons.insert(EXAMPLE_ICON.to_string(), (200, Some(icon.clone())));

    let first = resolve(&mut world, "example.com", "/cache").unwrap();
    assert_eq!(first, format!("/cache/{}.ico", EXAMPLE_KEY));
    assert_eq!(world.files.get(&first), Some(&icon));
    assert_eq!(world.writes, vec![first.clone()]);
    assert_eq!(world.requests, vec!["https://example.com", EXAMPLE_ICON]);

    world.requests.clear();
    let second = resolve(&mut world, "example.com", "/cache").unwrap();
    assert_eq!(second, first);
    assert!(!world.requests.contains(&EXAMPLE_ICON.to_string()));
    assert_eq!(world.writes, vec![first]);
}

#[test]
fn cached_candidate_is_returned_without_a_fetch() {
    let mut world = empty_world();
    let path = format!("/cache/{}.ico", EXAMPLE_KEY);
    world.files.insert(path.clone(), vec![1, 2, 3]);
    world.icons.insert(EXAMPLE_ICON.to_string(), (200, Some(vec![9, 9, 9])));
    assert_eq!(resolve(&mut world, "https://example.com", "/cache"), Ok(path.clone()));
    assert_eq!(world.requests, vec!["https://example.com"]);
    assert_eq!(world.files.get(&path), Some(&vec![1u8, 2, 3]));
    assert!(world.writes.is_empty());
}

#[test]
fn site_whose_name_begins_with_http_is_fetched_securely() {
    let mut world = empty_world();
    let icon = "https://httpbin.org/favicon.ico";
    world.icons.insert(icon.to_string(), (200, Some(vec![1])));
    let path = resolve(&mut world, "httpbin.org", "/cache").unwrap();
    assert_eq!(path, format!("/cache/{}.ico", favicon_resolver::cache::cache_key(icon)));
    assert_eq!(
        path,
        format!(
            "/cache/{}.ico",
            hex::encode(<sha2::Sha256 as sha2::Digest>::digest(icon.as_bytes()))
        )
    );
    assert_eq!(world.files.get(&path), Some(&vec![1u8]));
    assert_eq!(world.requests, vec!["https://httpbin.org", icon]);
}
