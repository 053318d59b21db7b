//! The scrape of one page: a validated URL together with the HTML fetched
//! from it, queried by CSS selectors.
//!
//! The document keeps the fetched text and each query parses it afresh, so
//! every node handed out is an owned copy that never refers back into it.
use vstd::prelude::*;
use vstd::string::StrSliceExecFns;
use crate::document::{
    few_tag_openings, node_texts, parses, select_attribute, select_texts, selected_attribute, selected_texts,
    selector_parses, value_chars, within_limits, Node, MAX_SELECTOR_LEN,
};
use crate::url::{opt_chars, validate, validation, UrlModel, ValidatedUrl, ValidationError};

verus! {

/// The step of the pipeline at which a scrape failed.
#[derive(Debug, Clone, Copy, PartialEq, Eq, Structural)]
pub enum Stage {
    Validation,
    Fetch,
    Parse,
    Select,
}

/// Why fetching the page failed.
#[derive(Debug, Clone, Copy, PartialEq, Eq, Structural)]
pub enum FetchError {
    /// The connection could not be made or broke off.
    Network,
    /// The server did not answer in time.
    Timeout,
    /// The server answered with a status outside 200..=299.
    HttpStatus(u16),
    /// The answer is not text.
    NonText,
}

/// Why the fetched text could not be parsed.
#[derive(Debug, Clone, Copy, PartialEq, Eq, Structural)]
pub enum ParseError {
    /// The text is longer than the parser can hold, or has more characters
    /// `<` (and so may nest deeper) than a page that is queried may have.
    TooLarge,
}

/// Why a selector query failed.
#[derive(Debug, Clone, Copy, PartialEq, Eq, Structural)]
pub enum SelectorError {
    /// The selector does not parse.
    InvalidSyntax,
    /// The selector is valid and matches nothing.
    NoMatch,
}

/// A failure of one stage of the pipeline, with its cause.
#[derive(Debug, Clone, Copy, PartialEq, Eq, Structural)]
pub enum ScraperError {
    Validation(ValidationError),
    Fetch(FetchError),
    Parse(ParseError),
    Select(SelectorError),
}

pub open spec fn stage_of(e: ScraperError) -> Stage {
    match e {
        ScraperError::Validation(_) => Stage::Validation,
        ScraperError::Fetch(_) => Stage::Fetch,
        ScraperError::Parse(_) => Stage::Parse,
        ScraperError::Select(_) => Stage::Select,
    }
}

/// The HTTP status that reports a failure of `stage`: 400 for validation,
/// 502 for the fetch, 500 for parsing and selecting.
pub open spec fn status_of(stage: Stage) -> u16 {
    match stage {
        Stage::Validation => 400,
        Stage::Fetch => 502,
        Stage::Parse => 500,
        Stage::Select => 500,
    }
}

/// The HTTP status that reports a failure of `stage`.
pub fn http_status(stage: Stage) -> (r: u16)
    ensures
        r == status_of(stage),
{
    match stage {
        Stage::Validation => 400,
        Stage::Fetch => 502,
        Stage::Parse => 500,
        Stage::Select => 500,
    }
}

/// A failed fetch surfaces from `Scraper::init` as `ScraperError::Fetch`,
/// whose stage is the fetch stage.
pub proof fn lemma_fetch_failure_is_fetch_stage(e: FetchError)
    ensures
        stage_of(ScraperError::Fetch(e)) == Stage::Fetch,
{
}

impl ScraperError {
    /// The stage that failed.
    pub fn stage(&self) -> (r: Stage)
        ensures
            r == stage_of(*self),
    {
        match self {
            ScraperError::Validation(_) => Stage::Validation,
            ScraperError::Fetch(_) => Stage::Fetch,
            ScraperError::Parse(_) => Stage::Parse,
            ScraperError::Select(_) => Stage::Select,
        }
    }
}

/// `c` in ASCII lower case.
pub open spec fn ascii_lower(c: char) -> char {
    if 'A' <= c <= 'Z' {
        ((c as u8) + 32) as char
    } else {
        c
    }
}

/// Whether `s` begins with the lower-case `p`, ignoring ASCII case.
pub open spec fn has_prefix_ignoring_case(s: Seq<char>, p: Seq<char>) -> bool {
    p.len() <= s.len() && forall|i: int| 0 <= i < p.len() ==> ascii_lower(#[trigger] s[i]) == p[i]
}

/// Content types that are read as text (media types ignore case).
pub open spec fn is_text_type(ct: Seq<char>) -> bool {
    has_prefix_ignoring_case(ct, "text/"@)
        || has_prefix_ignoring_case(ct, "application/xhtml+xml"@)
        || has_prefix_ignoring_case(ct, "application/xml"@)
}

fn lower_char(c: char) -> (r: char)
    ensures
        r == ascii_lower(c),
{
    if 'A' <= c && c <= 'Z' {
        ((c as u8) + 32) as char
    } else {
        c
    }
}

/// Whether `s` begins with the lower-case `p`, ignoring ASCII case.
pub fn starts_with_ignoring_case(s: &str, p: &str) -> (r: bool)
    ensures
        r == has_prefix_ignoring_case(s@, p@),
{
    let n = s.unicode_len();
    let m = p.unicode_len();
    if m > n {
        return false;
    }
    let mut i: usize = 0;
    while i < m
        invariant
            m == p@.len(),
            n == s@.len(),
            m <= n,
            i <= m,
            forall|j: int| 0 <= j < i ==> ascii_lower(#[trigger] s@[j]) == p@[j],
        decreases m - i,
    {
        if lower_char(s.get_char(i)) != p.get_char(i) {
            return false;
        }
        i = i + 1;
    }
    true
}

/// Whether a response with this content type is read as text.
pub fn text_content_type(ct: &str) -> (r: bool)
    ensures
        r == is_text_type(ct@),
{
    starts_with_ignoring_case(ct, "text/") || starts_with_ignoring_case(ct, "application/xhtml+xml")
        || starts_with_ignoring_case(ct, "application/xml")
}

/// Judges an HTTP answer: a status outside 200..=299 fails with that status,
/// a content type that is not text fails with `NonText` (no content type is
/// taken as text), and otherwise the body is the page.
pub fn check_response(status: u16, content_type: Option<&str>, body: String) -> (r: Result<String, FetchError>)
    ensures
        !(200 <= status <= 299) ==> r == Err::<String, FetchError>(FetchError::HttpStatus(status)),
        200 <= status <= 299 ==> match content_type {
            Some(ct) => if is_text_type(ct@) {
                r == Ok::<String, FetchError>(body)
            } else {
                r == Err::<String, FetchError>(FetchError::NonText)
            },
            None => r == Ok::<String, FetchError>(body),
        },
{
    if status < 200 || status > 299 {
        return Err(FetchError::HttpStatus(status));
    }
    match content_type {
        Some(ct) => {
            if !text_content_type(ct) {
                return Err(FetchError::NonText);
            }
        },
        None => {},
    }
    Ok(body)
}

/// Selects the `<title>` element.
pub const TITLE_SELECTOR: &'static str = "title";

/// Selects `<meta name="description">`.
pub const DESCRIPTION_SELECTOR: &'static str = "meta[name=description]";

/// Selects `<link rel="canonical">`.
pub const CANONICAL_SELECTOR: &'static str = "link[rel=canonical]";

/// The metadata read from a page: its title, its description and its
/// canonical URL, each absent where the page does not give it.
pub struct Metadata {
    pub title: Option<String>,
    pub description: Option<String>,
    pub canonical_url: Option<String>,
}

/// Whether `selector` is short enough to be parsed, and parses.
pub open spec fn selector_accepted(selector: Seq<char>) -> bool {
    selector.len() <= MAX_SELECTOR_LEN && selector_parses(selector)
}

/// The first of `found`, if any.
pub open spec fn first_of(found: Seq<Seq<char>>) -> Option<Seq<char>> {
    if found.len() == 0 {
        None
    } else {
        Some(found[0])
    }
}

/// The value on the first node, if any node was found.
pub open spec fn first_value(values: Seq<Option<Seq<char>>>) -> Option<Seq<char>> {
    if values.len() == 0 {
        None
    } else {
        values[0]
    }
}

/// One validated URL and the HTML fetched from it.
pub struct Scraper {
    url: ValidatedUrl,
    html: String,
}

impl View for Scraper {
    type V = (UrlModel, Seq<char>);

    closed spec fn view(&self) -> (UrlModel, Seq<char>) {
        (self.url@, self.html@)
    }
}

impl Scraper {
    pub closed spec fn wf(&self) -> bool {
        self.url.wf() && within_limits(self.html@)
    }

    /// Validates the raw target of a scrape; a refusal is a failure of the
    /// validation stage.
    pub fn target(raw: &str) -> (r: Result<ValidatedUrl, ScraperError>)
        ensures
            match validation(raw@) {
                Ok(m) => r is Ok && r->Ok_0@ == m && r->Ok_0.wf(),
                Err(e) => r == Err::<ValidatedUrl, ScraperError>(ScraperError::Validation(e)),
            },
    {
        match validate(raw) {
            Ok(u) => Ok(u),
            Err(e) => Err(ScraperError::Validation(e)),
        }
    }

    /// Builds the scrape of `url` from the outcome of fetching it: a fetch
    /// failure is passed on as a failure of the fetch stage; text too long for
    /// the parser, or with more than `MAX_TAG_OPENINGS` characters `<`, fails
    /// the parse stage.
    pub fn init(url: ValidatedUrl, fetched: Result<String, FetchError>) -> (r: Result<Scraper, ScraperError>)
        requires
            url.wf(),
        ensures
            match fetched {
                Err(e) => r == Err::<Scraper, ScraperError>(ScraperError::Fetch(e)),
                Ok(h) => if within_limits(h@) {
                    r is Ok && r->Ok_0@ == (url@, h@)
                } else {
                    r == Err::<Scraper, ScraperError>(ScraperError::Parse(ParseError::TooLarge))
                },
            },
            r matches Ok(s) ==> s.wf(),
    {
        match fetched {
            Err(e) => Err(ScraperError::Fetch(e)),
            Ok(html) => {
                if parses(html.as_str()) && few_tag_openings(html.as_str()) {
                    Ok(Scraper { url, html })
                } else {
                    Err(ScraperError::Parse(ParseError::TooLarge))
                }
            },
        }
    }

    /// The URL the page came from.
    pub fn url(&self) -> (r: &ValidatedUrl)
        ensures
            r@ == self@.0,
            self.wf() ==> r.wf(),
    {
        &self.url
    }

    /// The fetched HTML.
    pub fn html(&self) -> (r: &str)
        ensures
            r@ == self@.1,
    {
        self.html.as_str()
    }

    /// Every node that `selector` matches, in document order; an empty list
    /// where it matches nothing. A selector longer than `MAX_SELECTOR_LEN`
    /// characters is refused as invalid.
    ///
    /// Selectors are those that `tl` matches: a tag (`p`), `#id`, `.class`,
    /// `*`, attributes (`[a]`, `[a=v]`, `[a~=v]`, `[a^=v]`, `[a$=v]`,
    /// `[a*=v]`), compounds of these (`p.x`) and lists (`a, b`). Descendant
    /// (`a b`) and child (`a > b`) combinators parse but match nothing.
    pub fn find(&self, selector: &str) -> (r: Result<Vec<Node>, ScraperError>)
        requires
            self.wf(),
        ensures
            !selector_accepted(selector@)
                ==> r == Err::<Vec<Node>, ScraperError>(ScraperError::Select(SelectorError::InvalidSyntax)),
            selector_accepted(selector@)
                ==> (r is Ok && node_texts(r->Ok_0@) == selected_texts(self@.1, selector@)),
    {
        if selector.unicode_len() > MAX_SELECTOR_LEN {
            return Err(ScraperError::Select(SelectorError::InvalidSyntax));
        }
        match select_texts(self.html.as_str(), selector) {
            Some(texts) => {
                let mut nodes: Vec<Node> = Vec::new();
                let n = texts.len();
                let mut i: usize = 0;
                while i < n
                    invariant
                        n == texts@.len(),
                        i <= n,
                        nodes@.len() == i,
                        forall|j: int| 0 <= j < i ==> nodes@[j].text@ == texts@[j]@,
                    decreases n - i,
                {
                    nodes.push(Node { text: texts[i].clone() });
                    i = i + 1;
                }
                assert(node_texts(nodes@) =~= texts@.map_values(|s: String| s@));
                Ok(nodes)
            },
            None => Err(ScraperError::Select(SelectorError::InvalidSyntax)),
        }
    }

    /// The first node that `selector` matches, in document order.
    pub fn first(&self, selector: &str) -> (r: Result<Node, ScraperError>)
        requires
            self.wf(),
        ensures
            !selector_accepted(selector@)
                ==> r == Err::<Node, ScraperError>(ScraperError::Select(SelectorError::InvalidSyntax)),
            selector_accepted(selector@) && selected_texts(self@.1, selector@).len() == 0
                ==> r == Err::<Node, ScraperError>(ScraperError::Select(SelectorError::NoMatch)),
            selector_accepted(selector@) && selected_texts(self@.1, selector@).len() > 0
                ==> (r is Ok && r->Ok_0.text@ == selected_texts(self@.1, selector@)[0]),
    {
        let mut v = self.find(selector)?;
        if v.len() == 0 {
            Err(ScraperError::Select(SelectorError::NoMatch))
        } else {
            let ghost m = node_texts(v@);
            assert(m[0] == v@[0].text@);
            Ok(v.swap_remove(0))
        }
    }

    /// The value of attribute `name` on every node that `selector` matches, in
    /// document order: `None` where the node lacks the attribute or it has no
    /// value.
    pub fn attribute(&self, selector: &str, name: &str) -> (r: Result<Vec<Option<String>>, ScraperError>)
        requires
            self.wf(),
        ensures
            !selector_accepted(selector@)
                ==> r == Err::<Vec<Option<String>>, ScraperError>(ScraperError::Select(SelectorError::InvalidSyntax)),
            selector_accepted(selector@) ==> (r is Ok
                && value_chars(r->Ok_0@) == selected_attribute(self@.1, selector@, name@)
                && r->Ok_0@.len() == selected_texts(self@.1, selector@).len()),
    {
        if selector.unicode_len() > MAX_SELECTOR_LEN {
            return Err(ScraperError::Select(SelectorError::InvalidSyntax));
        }
        match select_attribute(self.html.as_str(), selector, name) {
            Some(v) => Ok(v),
            None => Err(ScraperError::Select(SelectorError::InvalidSyntax)),
        }
    }

    /// The title (text of the first `<title>`), the description (`content` of
    /// the first `<meta name=description>`) and the canonical URL (`href` of
    /// the first `<link rel=canonical>`).
    pub fn metadata(&self) -> (r: Metadata)
        requires
            self.wf(),
        ensures
            selector_accepted(TITLE_SELECTOR@)
                ==> opt_chars(r.title) == first_of(selected_texts(self@.1, TITLE_SELECTOR@)),
            selector_accepted(DESCRIPTION_SELECTOR@)
                ==> opt_chars(r.description) == first_value(selected_attribute(self@.1, DESCRIPTION_SELECTOR@, "content"@)),
            selector_accepted(CANONICAL_SELECTOR@)
                ==> opt_chars(r.canonical_url) == first_value(selected_attribute(self@.1, CANONICAL_SELECTOR@, "href"@)),
            !selector_accepted(TITLE_SELECTOR@) ==> r.title is None,
            !selector_accepted(DESCRIPTION_SELECTOR@) ==> r.description is None,
            !selector_accepted(CANONICAL_SELECTOR@) ==> r.canonical_url is None,
    {
        let title = match self.first(TITLE_SELECTOR) {
            Ok(n) => Some(n.text),
            Err(_) => None,
        };
        let description = first_found(self.attribute(DESCRIPTION_SELECTOR, "content"));
        let canonical_url = first_found(self.attribute(CANONICAL_SELECTOR, "href"));
        Metadata { title, description, canonical_url }
    }
}

/// The value on the first node of a successful attribute query.
fn first_found(r: Result<Vec<Option<String>>, ScraperError>) -> (o: Option<String>)
    ensures
        match r {
            Ok(v) => opt_chars(o) == first_value(value_chars(v@)),
            Err(_) => o is None,
        },
{
    match r {
        Ok(mut v) => {
            if v.len() == 0 {
                None
            } else {
                let ghost m = value_chars(v@);
                assert(m[0] == opt_chars(v@[0]));
                v.swap_remove(0)
            }
        },
        Err(_) => None,
    }
}

} // verus!
