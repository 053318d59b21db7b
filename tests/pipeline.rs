use page_scraper::document::{few_tag_openings, Node, MAX_SELECTOR_LEN, MAX_TAG_OPENINGS};
use page_scraper::scraper::{
    check_response, http_status, starts_with_ignoring_case, text_content_type, FetchError, ParseError, Scraper, ScraperError, SelectorError, Stage,
};
use page_scraper::text::{concat_str, greeting, starts_with, str_eq};
use page_scraper::url::{
    check_parts, forbidden_host, trim_trailing_slash, validate, with_default_scheme, UriParts, ValidatedUrl,
    ValidationError,
};

fn url(raw: &str) -> ValidatedUrl {
    match validate(raw) {
        Ok(u) => u,
        Err(e) => panic!("{} refused: {:?}", raw, e),
    }
}

fn scrape(html: &str) -> Scraper {
    Scraper::init(url("example.com"), Ok(html.to_string())).unwrap()
}

fn texts(nodes: &[Node]) -> Vec<String> {
    nodes.iter().map(|n| n.text().to_string()).collect()
}

#[test]
fn localhost_targets_are_refused() {
    for raw in [
        "localhost",
        "localhost/",
        "http://localhost/admin",
        "https://localhost:3000/",
        "127.0.0.1",
        "http://127.0.0.1:8080/x",
        "http://[::1]/",
        "HTTP://localhost",
    ] {
        assert_eq!(validate(raw).err(), Some(ValidationError::ForbiddenHost), "{}", raw);
    }
}

#[test]
fn missing_scheme_gets_http() {
    let u = url("example.com/page");
    assert_eq!(u.scheme(), "http");
    assert_eq!(u.host(), "example.com");
    assert_eq!(u.path(), "/page");
    assert_eq!(u.port(), None);
    assert_eq!(u.as_str(), "http://example.com/page");
}

#[test]
fn scheme_is_recognised_in_any_case() {
    let u = url("HTTPS://example.com:8443/a");
    assert_eq!(u.scheme(), "https");
    assert_eq!(u.host(), "example.com");
    assert_eq!(u.port(), Some(8443));
    assert_eq!(u.path(), "/a");
    assert_eq!(u.as_str(), "HTTPS://example.com:8443/a");
}

#[test]
fn trailing_slash_trim_keeps_path() {
    let u = url("http://example.com/x/");
    assert_eq!(u.path(), "/x");
    assert_eq!(u.as_str(), "http://example.com/x");
    let root = url("http://example.com/");
    assert_eq!(root.host(), "example.com");
    assert_eq!(root.path(), "/");
    let plain = url("http://example.com/abc");
    assert_eq!(plain.path(), "/abc");
}

#[test]
fn trim_removes_one_slash_only() {
    assert_eq!(trim_trailing_slash("a//"), "a/");
    assert_eq!(trim_trailing_slash("abc"), "abc");
    assert_eq!(trim_trailing_slash("/"), "");
    assert_eq!(trim_trailing_slash(""), "");
}

#[test]
fn default_scheme_is_prefixed() {
    assert_eq!(with_default_scheme("example.com", false), "http://example.com");
    assert_eq!(with_default_scheme("https://example.com", true), "https://example.com");
}

#[test]
fn malformed_targets_are_refused() {
    assert_eq!(validate("http://exa mple.com").err(), Some(ValidationError::Malformed));
    assert_eq!(validate("").err(), Some(ValidationError::Malformed));
    assert_eq!(validate("http://[::1").err(), Some(ValidationError::Malformed));
    assert_eq!(validate("http://:80/x").err(), Some(ValidationError::Malformed));
}

#[test]
fn check_parts_judges_components() {
    let parts = |scheme: Option<&str>, host: Option<&str>| UriParts {
        scheme: scheme.map(|s| s.to_string()),
        host: host.map(|s| s.to_string()),
        port: Some(81),
        path: "/p".to_string(),
    };
    let ok = check_parts("t".to_string(), Some(parts(Some("https"), Some("a.org")))).unwrap();
    assert_eq!(ok.as_str(), "t");
    assert_eq!(ok.scheme(), "https");
    assert_eq!(ok.host(), "a.org");
    assert_eq!(ok.port(), Some(81));
    assert_eq!(ok.path(), "/p");
    assert_eq!(check_parts("t".to_string(), None).err(), Some(ValidationError::Malformed));
    assert_eq!(
        check_parts("t".to_string(), Some(parts(Some("ftp"), Some("a.org")))).err(),
        Some(ValidationError::Malformed)
    );
    assert_eq!(check_parts("t".to_string(), Some(parts(Some("http"), None))).err(), Some(ValidationError::Malformed));
    assert_eq!(check_parts("t".to_string(), Some(parts(None, Some("a.org")))).err(), Some(ValidationError::Malformed));
    assert_eq!(check_parts("t".to_string(), Some(parts(Some("http"), Some("")))).err(), Some(ValidationError::Malformed));
    assert_eq!(
        check_parts("t".to_string(), Some(parts(Some("ftp"), Some("[::1]")))).err(),
        Some(ValidationError::ForbiddenHost)
    );
}

#[test]
fn forbidden_hosts_are_exact() {
    assert!(forbidden_host("localhost"));
    assert!(forbidden_host("127.0.0.1"));
    assert!(forbidden_host("::1"));
    assert!(forbidden_host("[::1]"));
    assert!(!forbidden_host("localhost.example.com"));
    assert!(!forbidden_host("127.0.0.2"));
}

#[test]
fn title_text_is_found() {
    let s = scrape("<html><head><title>Hello</title></head><body></body></html>");
    let found = s.find("title").unwrap();
    assert_eq!(texts(&found), vec!["Hello".to_string()]);
    assert_eq!(s.first("title").unwrap().text(), "Hello");
}

#[test]
fn no_match_gives_empty_set() {
    let s = scrape("<div class=\"a\">x</div>");
    assert!(s.find(".nonexistent-class").unwrap().is_empty());
    assert_eq!(s.first(".nonexistent-class").err(), Some(ScraperError::Select(SelectorError::NoMatch)));
}

#[test]
fn all_matches_in_document_order() {
    let s = scrape("<ul><li>a</li><li class=\"x\">b</li><li>c</li></ul>");
    assert_eq!(texts(&s.find("li").unwrap()), vec!["a", "b", "c"]);
    assert_eq!(texts(&s.find(".x").unwrap()), vec!["b"]);
}

#[test]
fn attributes_are_read() {
    let s = scrape("<a href=\"/next\" data-x=\"1\" id=\"i\" title=\"t\" hidden>n</a><a>m</a>");
    assert_eq!(s.attribute("a", "href").unwrap(), vec![Some("/next".to_string()), None]);
    assert_eq!(s.attribute("a", "data-x").unwrap(), vec![Some("1".to_string()), None]);
    assert_eq!(s.attribute("a", "title").unwrap(), vec![Some("t".to_string()), None]);
    assert_eq!(s.attribute("a", "id").unwrap(), vec![Some("i".to_string()), None]);
    assert_eq!(s.attribute("a", "hidden").unwrap(), vec![None, None]);
    assert_eq!(s.attribute("a", "missing").unwrap(), vec![None, None]);
    assert!(s.attribute("p", "href").unwrap().is_empty());
}

#[test]
fn invalid_selector_is_reported() {
    let s = scrape("<p>x</p>");
    assert_eq!(s.attribute("", "href").err(), Some(ScraperError::Select(SelectorError::InvalidSyntax)));
    assert_eq!(s.find("").err(), Some(ScraperError::Select(SelectorError::InvalidSyntax)));
}

#[test]
fn target_tags_validation_failures() {
    assert_eq!(Scraper::target("localhost").err(), Some(ScraperError::Validation(ValidationError::ForbiddenHost)));
    assert_eq!(Scraper::target("localhost").err().unwrap().stage(), Stage::Validation);
    assert_eq!(Scraper::target("example.com/a").unwrap().as_str(), "http://example.com/a");
}

#[test]
fn fetch_failure_is_tagged_fetch() {
    let r = Scraper::init(url("unreachable.invalid"), Err(FetchError::Network));
    let e = r.err().unwrap();
    assert_eq!(e, ScraperError::Fetch(FetchError::Network));
    assert_eq!(e.stage(), Stage::Fetch);
    let t = Scraper::init(url("example.com"), Err(FetchError::Timeout)).err().unwrap();
    assert_eq!(t.stage(), Stage::Fetch);
}

#[test]
fn stages_of_errors() {
    assert_eq!(ScraperError::Validation(ValidationError::Malformed).stage(), Stage::Validation);
    assert_eq!(ScraperError::Parse(ParseError::TooLarge).stage(), Stage::Parse);
    assert_eq!(ScraperError::Select(SelectorError::InvalidSyntax).stage(), Stage::Select);
}

#[test]
fn metadata_is_extracted() {
    let s = scrape("<html><head><title>T</title><meta name=\"description\" content=\"D\"></head></html>");
    let m = s.metadata();
    assert_eq!(m.title, Some("T".to_string()));
    assert_eq!(m.description, Some("D".to_string()));
    assert_eq!(m.canonical_url, None);
}

#[test]
fn canonical_link_is_extracted() {
    let s = scrape("<head><link rel=\"canonical\" href=\"https://e.org/c\"></head>");
    let m = s.metadata();
    assert_eq!(m.title, None);
    assert_eq!(m.description, None);
    assert_eq!(m.canonical_url, Some("https://e.org/c".to_string()));
}

#[test]
fn scraper_keeps_url_and_html() {
    let s = scrape("<p>x</p>");
    assert_eq!(s.url().as_str(), "http://example.com");
    assert_eq!(s.html(), "<p>x</p>");
}

#[test]
fn responses_are_checked() {
    assert_eq!(check_response(200, Some("text/html; charset=utf-8"), "b".to_string()), Ok("b".to_string()));
    assert_eq!(check_response(204, None, "".to_string()), Ok("".to_string()));
    assert_eq!(check_response(299, Some("application/xhtml+xml"), "x".to_string()), Ok("x".to_string()));
    assert_eq!(check_response(404, Some("text/html"), "b".to_string()), Err(FetchError::HttpStatus(404)));
    assert_eq!(check_response(199, None, "b".to_string()), Err(FetchError::HttpStatus(199)));
    assert_eq!(check_response(300, None, "b".to_string()), Err(FetchError::HttpStatus(300)));
    assert_eq!(check_response(200, Some("image/png"), "b".to_string()), Err(FetchError::NonText));
}

#[test]
fn content_types() {
    assert!(text_content_type("text/plain"));
    assert!(text_content_type("application/xml"));
    assert!(!text_content_type("application/json"));
    assert!(!text_content_type("tex"));
}

#[test]
fn string_helpers() {
    assert!(starts_with("abc", "ab"));
    assert!(!starts_with("ab", "abc"));
    assert!(str_eq("ab", "ab"));
    assert!(!str_eq("ab", "abc"));
    assert_eq!(concat_str("ab", "cd"), "abcd");
    assert_eq!(greeting("Ann"), "Hello Ann!");
}

#[test]
fn content_types_ignore_case() {
    assert!(text_content_type("Text/HTML; charset=UTF-8"));
    assert!(text_content_type("APPLICATION/XHTML+XML"));
    assert!(!text_content_type("Image/PNG"));
    assert!(starts_with_ignoring_case("ABc", "ab"));
    assert!(!starts_with_ignoring_case("aXc", "ab"));
    assert_eq!(check_response(200, Some("TEXT/html"), "b".to_string()), Ok("b".to_string()));
}

#[test]
fn deeply_nested_pages_are_refused() {
    let deep = format!("<title>{}", "<b>".repeat(50_000));
    let e = Scraper::init(url("example.com"), Ok(deep)).err().unwrap();
    assert_eq!(e, ScraperError::Parse(ParseError::TooLarge));
    assert_eq!(e.stage(), Stage::Parse);
}

#[test]
fn tag_opening_limit_is_inclusive() {
    assert_eq!(MAX_TAG_OPENINGS, 4096);
    let at_limit = "<p>x</p>".repeat(MAX_TAG_OPENINGS / 2);
    assert!(few_tag_openings(&at_limit));
    let s = Scraper::init(url("example.com"), Ok(at_limit.clone())).unwrap();
    assert_eq!(s.find("p").unwrap().len(), MAX_TAG_OPENINGS / 2);
    let over = format!("{}<", at_limit);
    assert!(!few_tag_openings(&over));
    assert_eq!(Scraper::init(url("example.com"), Ok(over)).err(), Some(ScraperError::Parse(ParseError::TooLarge)));
    assert!(few_tag_openings("no markup"));
}

#[test]
fn long_selectors_are_refused() {
    let s = scrape("<p>x</p>");
    let long = format!("p{}", ", p".repeat(200));
    assert!(long.chars().count() > MAX_SELECTOR_LEN);
    assert_eq!(s.find(&long).err(), Some(ScraperError::Select(SelectorError::InvalidSyntax)));
    assert_eq!(s.attribute(&long, "a").err(), Some(ScraperError::Select(SelectorError::InvalidSyntax)));
    let short = format!("p{}", ", p".repeat(80));
    assert!(short.chars().count() <= MAX_SELECTOR_LEN);
    assert_eq!(texts(&s.find(&short).unwrap()), vec!["x"]);
}

#[test]
fn statuses_of_stages() {
    assert_eq!(http_status(Stage::Validation), 400);
    assert_eq!(http_status(Stage::Fetch), 502);
    assert_eq!(http_status(Stage::Parse), 500);
    assert_eq!(http_status(Stage::Select), 500);
}
