use favicon_resolver::candidates::{candidates, merge, Candidate, CandidateSource};
use favicon_resolver::links::{
    icon_links, references, resolve_references, ICON_SELECTOR, REFERENCE_ATTRIBUTE,
};
use favicon_resolver::site::Site;

fn urls(candidates: &[Candidate]) -> Vec<String> {
    candidates.iter().map(|candidate| candidate.url.clone()).collect()
}

fn texts(items: &[&str]) -> Vec<String> {
    items.iter().map(|item| item.to_string()).collect()
}

#[test]
fn selector_and_attribute_are_fixed() {
    assert_eq!(ICON_SELECTOR, "link[rel=\"icon\"], link[rel=\"shortcut icon\"]");
    assert_eq!(REFERENCE_ATTRIBUTE, "href");
}

#[test]
fn references_drops_missing_values() {
    let values = vec![None, Some("/a.png".to_string()), None, Some("b.png".to_string())];
    assert_eq!(references(&values), texts(&["/a.png", "b.png"]));
    assert_eq!(references(&Vec::new()), Vec::<String>::new());
    assert_eq!(references(&vec![None, None]), Vec::<String>::new());
}

#[test]
fn resolve_references_makes_absolute_addresses() {
    let site = Site::resolve("example.com/blog/post").unwrap();
    let links = resolve_references(
        &site,
        &texts(&["/a.png", "b.png", "//cdn.example.net/c.png", "https://other.example/d.ico"]),
    );
    assert_eq!(
        links,
        texts(&[
            "https://example.com/a.png",
            "https://example.com/blog/b.png",
            "https://cdn.example.net/c.png",
            "https://other.example/d.ico",
        ])
    );
}

#[test]
fn resolve_references_skips_what_denotes_no_address() {
    let site = Site::resolve("example.com").unwrap();
    let links = resolve_references(&site, &texts(&["/a.png", "https://", "/b.png"]));
    assert_eq!(links, texts(&["https://example.com/a.png", "https://example.com/b.png"]));
}

#[test]
fn icon_links_come_in_document_order() {
    let site = Site::resolve("example.com").unwrap();
    let document = "<html><head>\
        <link rel=\"icon\" href=\"/a.png\">\
        <link rel=\"shortcut icon\" href=\"/b.png\">\
        </head><body></body></html>";
    assert_eq!(
        icon_links(&site, document),
        texts(&["https://example.com/a.png", "https://example.com/b.png"])
    );
}

#[test]
fn icon_links_ignore_other_links_and_missing_references() {
    let site = Site::resolve("example.com").unwrap();
    let document = "<html><head>\
        <link rel=\"stylesheet\" href=\"/style.css\">\
        <link rel=\"icon\">\
        <link rel=\"apple-touch-icon\" href=\"/touch.png\">\
        <link rel=\"icon\" href=\"/real.png\">\
        <a rel=\"icon\" href=\"/anchor.png\">x</a>\
        </head></html>";
    assert_eq!(icon_links(&site, document), texts(&["https://example.com/real.png"]));
}

#[test]
fn icon_links_of_text_without_links() {
    let site = Site::resolve("example.com").unwrap();
    assert_eq!(icon_links(&site, ""), Vec::<String>::new());
    assert_eq!(icon_links(&site, "not html at all"), Vec::<String>::new());
}

#[test]
fn one_malformed_link_does_not_stop_the_others() {
    let site = Site::resolve("example.com").unwrap();
    let document = "<link rel=\"icon\" href=\"https://\">\
        <link rel=\"icon\" href=\"/good.png\">";
    assert_eq!(icon_links(&site, document), texts(&["https://example.com/good.png"]));
}

#[test]
fn merge_puts_the_well_known_address_first() {
    let found = merge("https://example.com/favicon.ico", &texts(&["https://example.com/a.png"]));
    assert_eq!(
        found,
        vec![
            Candidate {
                url: "https://example.com/favicon.ico".to_string(),
                source: CandidateSource::WellKnownPath,
            },
            Candidate {
                url: "https://example.com/a.png".to_string(),
                source: CandidateSource::HtmlLink,
            },
        ]
    );
}

#[test]
fn merge_without_links_has_one_candidate() {
    let found = merge("https://example.com/favicon.ico", &Vec::new());
    assert_eq!(
        found,
        vec![Candidate {
            url: "https://example.com/favicon.ico".to_string(),
            source: CandidateSource::WellKnownPath,
        }]
    );
}

#[test]
fn merge_keeps_each_address_once() {
    let found = merge("w", &texts(&["a", "w", "b", "a", "c", "b"]));
    assert_eq!(urls(&found), texts(&["w", "a", "b", "c"]));
    assert_eq!(found[0].source, CandidateSource::WellKnownPath);
    for candidate in &found[1..] {
        assert_eq!(candidate.source, CandidateSource::HtmlLink);
    }
}

#[test]
fn candidates_without_a_document() {
    let site = Site::resolve("example.com").unwrap();
    let found = candidates(&site, None);
    assert_eq!(urls(&found), texts(&["https://example.com/favicon.ico"]));
}

#[test]
fn candidates_place_links_after_the_well_known_path() {
    let site = Site::resolve("example.com").unwrap();
    let document = "<link rel=\"icon\" href=\"/a.png\"><link rel=\"shortcut icon\" href=\"/b.png\">";
    let found = candidates(&site, Some(document));
    assert_eq!(
        urls(&found),
        texts(&[
            "https://example.com/favicon.ico",
            "https://example.com/a.png",
            "https://example.com/b.png",
        ])
    );
    assert_eq!(found[0].source, CandidateSource::WellKnownPath);
    assert_eq!(found[1].source, CandidateSource::HtmlLink);
    assert_eq!(found[2].source, CandidateSource::HtmlLink);
}

#[test]
fn candidates_do_not_repeat_the_well_known_path() {
    let site = Site::resolve("example.com").unwrap();
    let document = "<link rel=\"icon\" href=\"/favicon.ico\"><link rel=\"icon\" href=\"/a.png\">\
        <link rel=\"icon\" href=\"/a.png\">";
    let found = candidates(&site, Some(document));
    assert_eq!(
        urls(&found),
        texts(&["https://example.com/favicon.ico", "https://example.com/a.png"])
    );
}
