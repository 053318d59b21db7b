//! Normalisation and validation of the URL that a scrape targets.
use vstd::prelude::*;
use vstd::string::StrSliceExecFns;
use crate::text::{concat_str, owned, str_eq};

verus! {

/// A target given without `http://` or `https://` (in any case) gets `http://`.
pub const SCHEME_PATTERN: &'static str = "(?i)^https?://";

/// The scheme put in front of a target that has none.
pub const DEFAULT_PREFIX: &'static str = "http://";

/// Why a raw target was refused.
#[derive(Debug, Clone, Copy, PartialEq, Eq, Structural)]
pub enum ValidationError {
    /// It does not parse as an absolute `http` or `https` URL with a
    /// non-empty host.
    Malformed,
    /// Its host names the local machine.
    ForbiddenHost,
}

/// What the `http` crate's URI parser reads out of a string.
pub struct UriParts {
    pub scheme: Option<String>,
    pub host: Option<String>,
    pub port: Option<u16>,
    pub path: String,
}

pub open spec fn opt_chars(o: Option<String>) -> Option<Seq<char>> {
    match o {
        Some(s) => Some(s@),
        None => None,
    }
}

impl UriParts {
    /// Scheme, host, port and path, as plain values.
    pub open spec fn model(&self) -> (Option<Seq<char>>, Option<Seq<char>>, Option<u16>, Seq<char>) {
        (opt_chars(self.scheme), opt_chars(self.host), self.port, self.path@)
    }
}

pub open spec fn parts_model(p: Option<UriParts>) -> Option<(Option<Seq<char>>, Option<Seq<char>>, Option<u16>, Seq<char>)> {
    match p {
        Some(q) => Some(q.model()),
        None => None,
    }
}

/// Whether `pattern` compiles (`Some`) and then whether it matches somewhere in `haystack`.
pub uninterp spec fn regex_finds(pattern: Seq<char>, haystack: Seq<char>) -> Option<bool>;

/// What `Uri::from_str` gives for `s`, read through `scheme_str`, `host`,
/// `port_u16` and `path`; `None` where `s` does not parse.
pub uninterp spec fn uri_components(s: Seq<char>) -> Option<(Option<Seq<char>>, Option<Seq<char>>, Option<u16>, Seq<char>)>;

/// Whether `c` equals the lower-case letter `lower` under the simple Unicode
/// case folding that `(?i)` applies (`s` also folds with `ſ`, U+017F).
pub open spec fn folds_to(c: char, lower: char) -> bool {
    c == lower
        || (lower == 'h' && c == 'H')
        || (lower == 't' && c == 'T')
        || (lower == 'p' && c == 'P')
        || (lower == 's' && (c == 'S' || c == '\u{17F}'))
}

/// Whether `s` begins with `p`, each character compared under `folds_to`.
pub open spec fn begins_folded(s: Seq<char>, p: Seq<char>) -> bool {
    p.len() <= s.len() && forall|i: int| 0 <= i < p.len() ==> folds_to(#[trigger] s[i], p[i])
}

/// Whether `s` begins with `http://` or `https://`, ignoring case.
pub open spec fn has_web_scheme_prefix(s: Seq<char>) -> bool {
    begins_folded(s, "http://"@) || begins_folded(s, "https://"@)
}

/// Relies on `regex::Regex::new` (which fails on a pattern that does not
/// compile) and `Regex::is_match` (a match anywhere in the haystack). For
/// `SCHEME_PATTERN` its syntax documentation gives the result: `(?i)` folds
/// case, `^` anchors at the start, `s?` is optional.
#[verifier::external_body]
fn pattern_matches(pattern: &str, haystack: &str) -> (r: Option<bool>)
    ensures
        r == regex_finds(pattern@, haystack@),
        pattern@ == SCHEME_PATTERN@ ==> r == Some(has_web_scheme_prefix(haystack@)),
{
    match regex::Regex::new(pattern) {
        Ok(re) => Some(re.is_match(haystack)),
        Err(_) => None,
    }
}

/// Relies on `http::Uri::from_str` and its accessors `scheme_str`, `host`,
/// `port_u16` and `path`, each copied out as it is.
#[verifier::external_body]
fn parse_uri(s: &str) -> (r: Option<UriParts>)
    ensures
        parts_model(r) == uri_components(s@),
{
    match <actix_web::http::Uri as std::str::FromStr>::from_str(s) {
        Ok(u) => Some(UriParts {
            scheme: u.scheme_str().map(|x| x.to_string()),
            host: u.host().map(|x| x.to_string()),
            port: u.port_u16(),
            path: u.path().to_string(),
        }),
        Err(_) => None,
    }
}

/// `s` without its last character where that character is `/`.
pub open spec fn trim_one_slash(s: Seq<char>) -> Seq<char> {
    if s.len() > 0 && s.last() == '/' {
        s.drop_last()
    } else {
        s
    }
}

/// `s` as it stands where it has a scheme, else with `http://` in front.
pub open spec fn with_scheme(s: Seq<char>, has_scheme: bool) -> Seq<char> {
    if has_scheme {
        s
    } else {
        DEFAULT_PREFIX@ + s
    }
}

/// Hosts that name the local machine.
pub open spec fn is_forbidden_host(h: Seq<char>) -> bool {
    h == "localhost"@ || h == "127.0.0.1"@ || h == "::1"@ || h == "[::1]"@
}

pub open spec fn is_web_scheme(s: Seq<char>) -> bool {
    s == "http"@ || s == "https"@
}

/// The parts of a validated URL as plain values.
pub struct UrlModel {
    pub text: Seq<char>,
    pub scheme: Seq<char>,
    pub host: Seq<char>,
    pub port: Option<u16>,
    pub path: Seq<char>,
}

/// The verdict on the normalised text `text`, whose parse gave `parts`.
pub open spec fn verdict(
    text: Seq<char>,
    parts: Option<(Option<Seq<char>>, Option<Seq<char>>, Option<u16>, Seq<char>)>,
) -> Result<UrlModel, ValidationError> {
    match parts {
        None => Err(ValidationError::Malformed),
        Some((scheme, host, port, path)) => {
            if host is Some && is_forbidden_host(host->0) {
                Err(ValidationError::ForbiddenHost)
            } else if host is None || host->0.len() == 0 || scheme is None || !is_web_scheme(scheme->0) {
                Err(ValidationError::Malformed)
            } else {
                Ok(UrlModel { text, scheme: scheme->0, host: host->0, port, path })
            }
        },
    }
}

/// What `validate` gives for `raw`.
pub open spec fn validation(raw: Seq<char>) -> Result<UrlModel, ValidationError> {
    let t = trim_one_slash(raw);
    let n = with_scheme(t, has_web_scheme_prefix(t));
    verdict(n, uri_components(n))
}

/// An absolute `http` or `https` URL whose host is not the local machine.
pub struct ValidatedUrl {
    text: String,
    scheme: String,
    host: String,
    port: Option<u16>,
    path: String,
}

impl View for ValidatedUrl {
    type V = UrlModel;

    closed spec fn view(&self) -> UrlModel {
        UrlModel {
            text: self.text@,
            scheme: self.scheme@,
            host: self.host@,
            port: self.port,
            path: self.path@,
        }
    }
}

pub open spec fn result_model(r: Result<ValidatedUrl, ValidationError>) -> Result<UrlModel, ValidationError> {
    match r {
        Ok(u) => Ok(u@),
        Err(e) => Err(e),
    }
}

impl ValidatedUrl {
    pub open spec fn wf(&self) -> bool {
        is_web_scheme(self@.scheme) && !is_forbidden_host(self@.host)
    }

    /// The whole URL, as it is fetched.
    pub fn as_str(&self) -> (r: &str)
        ensures
            r@ == self@.text,
    {
        self.text.as_str()
    }

    pub fn scheme(&self) -> (r: &str)
        ensures
            r@ == self@.scheme,
    {
        self.scheme.as_str()
    }

    pub fn host(&self) -> (r: &str)
        ensures
            r@ == self@.host,
    {
        self.host.as_str()
    }

    pub fn port(&self) -> (r: Option<u16>)
        ensures
            r == self@.port,
    {
        self.port
    }

    pub fn path(&self) -> (r: &str)
        ensures
            r@ == self@.path,
    {
        self.path.as_str()
    }
}

/// `s` with one trailing `/` removed, if it ends in one; a last character
/// other than `/` is never removed.
pub fn trim_trailing_slash(s: &str) -> (r: &str)
    ensures
        r@ == trim_one_slash(s@),
{
    let n = s.unicode_len();
    if n > 0 && s.get_char(n - 1) == '/' {
        let r = s.substring_char(0, n - 1);
        assert(r@ =~= s@.drop_last());
        r
    } else {
        s
    }
}

/// Trimming removes at most one character, and only a `/`: what is left is a
/// prefix of `raw`, and a target that does not end in `/` is left whole.
pub proof fn lemma_trim_removes_only_a_slash(raw: Seq<char>)
    ensures
        trim_one_slash(raw) == raw || (raw.len() > 0 && raw.last() == '/' && trim_one_slash(raw) == raw.drop_last()),
        trim_one_slash(raw).len() + 1 >= raw.len(),
        trim_one_slash(raw) == raw.subrange(0, trim_one_slash(raw).len() as int),
        (raw.len() == 0 || raw.last() != '/') ==> trim_one_slash(raw) == raw,
{
    if raw.len() > 0 && raw.last() == '/' {
        assert(raw.drop_last() =~= raw.subrange(0, raw.len() - 1));
    } else {
        assert(raw =~= raw.subrange(0, raw.len() as int));
    }
}

/// `s` with `http://` put in front unless `has_scheme`.
pub fn with_default_scheme(s: &str, has_scheme: bool) -> (r: String)
    ensures
        r@ == with_scheme(s@, has_scheme),
{
    if has_scheme {
        owned(s)
    } else {
        concat_str(DEFAULT_PREFIX, s)
    }
}

/// Whether `h` names the local machine.
pub fn forbidden_host(h: &str) -> (r: bool)
    ensures
        r == is_forbidden_host(h@),
{
    str_eq(h, "localhost") || str_eq(h, "127.0.0.1") || str_eq(h, "::1") || str_eq(h, "[::1]")
}

fn web_scheme(s: &str) -> (r: bool)
    ensures
        r == is_web_scheme(s@),
{
    str_eq(s, "http") || str_eq(s, "https")
}

/// Judges the normalised text `text` by what its parse gave.
pub fn check_parts(text: String, parts: Option<UriParts>) -> (r: Result<ValidatedUrl, ValidationError>)
    ensures
        result_model(r) == verdict(text@, parts_model(parts)),
        r is Ok ==> r->Ok_0.wf(),
{
    match parts {
        None => Err(ValidationError::Malformed),
        Some(p) => {
            let UriParts { scheme, host, port, path } = p;
            match host {
                None => Err(ValidationError::Malformed),
                Some(h) => {
                    if forbidden_host(h.as_str()) {
                        Err(ValidationError::ForbiddenHost)
                    } else if h.as_str().unicode_len() == 0 {
                        Err(ValidationError::Malformed)
                    } else {
                        match scheme {
                            None => Err(ValidationError::Malformed),
                            Some(s) => {
                                if web_scheme(s.as_str()) {
                                    let u = ValidatedUrl { text, scheme: s, host: h, port, path };
                                    assert(u@ == (UrlModel { text: text@, scheme: s@, host: h@, port, path: path@ }));
                                    Ok(u)
                                } else {
                                    Err(ValidationError::Malformed)
                                }
                            },
                        }
                    }
                },
            }
        },
    }
}

/// Normalises `raw` (one trailing `/` removed, `http://` added where no
/// `http://` or `https://` begins it) and accepts it only as an absolute
/// `http`/`https` URL whose host is not the local machine.
pub fn validate(raw: &str) -> (r: Result<ValidatedUrl, ValidationError>)
    ensures
        result_model(r) == validation(raw@),
        r is Ok ==> r->Ok_0.wf(),
        ({
            let t = trim_one_slash(raw@);
            uri_components(with_scheme(t, has_web_scheme_prefix(t))) matches Some(c)
                && c.1 matches Some(h)
                && is_forbidden_host(h)
        }) ==> r == Err::<ValidatedUrl, ValidationError>(ValidationError::ForbiddenHost),
{
    let t = trim_trailing_slash(raw);
    match pattern_matches(SCHEME_PATTERN, t) {
        None => Err(ValidationError::Malformed),
        Some(b) => {
            let text = with_default_scheme(t, b);
            let parts = parse_uri(text.as_str());
            check_parts(text, parts)
        },
    }
}

} // verus!
