//! What a CSS selector finds in a parsed HTML document, copied out as owned
//! values.
//!
//! Parsing and matching are `tl`'s. Two of its steps recurse: reading a
//! node's text (once per level of element nesting) and parsing a selector
//! (once per combinator or compound step). Queries are therefore made only on
//! pages with at most `MAX_TAG_OPENINGS` characters `<`, each level of
//! nesting taking one, and with selectors of at most `MAX_SELECTOR_LEN`
//! characters.
use vstd::prelude::*;
use vstd::string::StrSliceExecFns;
use vstd::utf8::encode_utf8;
use crate::url::opt_chars;

verus! {

/// The most characters `<` in a page that is queried.
pub const MAX_TAG_OPENINGS: usize = 4096;

/// The longest selector that is parsed.
pub const MAX_SELECTOR_LEN: usize = 256;

/// The number of characters `<` in `s`.
pub open spec fn tag_openings(s: Seq<char>) -> nat
    decreases s.len(),
{
    if s.len() == 0 {
        0
    } else {
        tag_openings(s.drop_last()) + if s.last() == '<' { 1nat } else { 0nat }
    }
}

/// Whether the page `html` is parsed and queried.
pub open spec fn within_limits(html: Seq<char>) -> bool {
    fits_parser(html) && tag_openings(html) <= MAX_TAG_OPENINGS
}

/// Whether `tag_openings(s) <= MAX_TAG_OPENINGS`.
pub fn few_tag_openings(s: &str) -> (r: bool)
    ensures
        r == (tag_openings(s@) <= MAX_TAG_OPENINGS),
{
    let n = s.unicode_len();
    let mut count: usize = 0;
    let mut i: usize = 0;
    while i < n
        invariant
            n == s@.len(),
            i <= n,
            count == tag_openings(s@.subrange(0, i as int)),
            count <= MAX_TAG_OPENINGS,
        decreases n - i,
    {
        assert(s@.subrange(0, i + 1).drop_last() =~= s@.subrange(0, i as int));
        if s.get_char(i) == '<' {
            if count == MAX_TAG_OPENINGS {
                proof { lemma_openings_prefix(s@, i as int + 1); }
                return false;
            }
            count = count + 1;
        }
        i = i + 1;
    }
    assert(s@.subrange(0, n as int) =~= s@);
    true
}

/// The count over a prefix never exceeds the count over the whole.
proof fn lemma_openings_prefix(s: Seq<char>, k: int)
    requires
        0 <= k <= s.len(),
    ensures
        tag_openings(s.subrange(0, k)) <= tag_openings(s),
    decreases s.len() - k,
{
    if k < s.len() {
        assert(s.subrange(0, k + 1).drop_last() =~= s.subrange(0, k));
        lemma_openings_prefix(s, k + 1);
    } else {
        assert(s.subrange(0, k) =~= s);
    }
}

/// A node that a selector found, as an owned copy of its text content.
pub struct Node {
    pub text: String,
}

impl Node {
    /// The text content of the node.
    pub fn text(&self) -> (r: &str)
        ensures
            r@ == self.text@,
    {
        self.text.as_str()
    }
}

/// The texts of `v`, in order.
pub open spec fn node_texts(v: Seq<Node>) -> Seq<Seq<char>> {
    v.map_values(|n: Node| n.text@)
}

/// The values of `v`, in order, as plain values.
pub open spec fn value_chars(v: Seq<Option<String>>) -> Seq<Option<Seq<char>>> {
    v.map_values(|o: Option<String>| opt_chars(o))
}

/// Whether `tl::parse` accepts `html`: its length in UTF-8 bytes fits in a `u32`.
pub open spec fn fits_parser(html: Seq<char>) -> bool {
    encode_utf8(html).len() <= u32::MAX
}

/// Whether `tl::parse_query_selector` accepts `selector`.
pub uninterp spec fn selector_parses(selector: Seq<char>) -> bool;

/// The text (`Node::inner_text`) of each node that `VDom::query_selector`
/// finds for `selector` in the document `tl::parse` makes of `html`, in
/// document order.
pub uninterp spec fn selected_texts(html: Seq<char>, selector: Seq<char>) -> Seq<Seq<char>>;

/// The value that `Attributes::get(name)` gives on each node that
/// `VDom::query_selector` finds for `selector` in the document `tl::parse`
/// makes of `html`, in document order: `None` where the node has no such
/// attribute, or the attribute has no value.
pub uninterp spec fn selected_attribute(html: Seq<char>, selector: Seq<char>, name: Seq<char>) -> Seq<Option<Seq<char>>>;

/// Relies on `tl::parse`, which refuses only an input whose length in bytes
/// does not fit in a `u32`.
#[verifier::external_body]
pub(crate) fn parses(html: &str) -> (r: bool)
    ensures
        r == fits_parser(html@),
{
    tl::parse(html, tl::ParserOptions::default()).is_ok()
}

/// Relies on `tl::parse`, `VDom::query_selector` (`None` where the selector
/// does not parse), `NodeHandle::get` and `Node::inner_text`. The `requires`
/// bounds the depth of `inner_text`'s recursion (each level of nesting opens
/// with a `<`) and of the selector parser's.
#[verifier::external_body]
pub(crate) fn select_texts(html: &str, selector: &str) -> (r: Option<Vec<String>>)
    requires
        tag_openings(html@) <= MAX_TAG_OPENINGS,
        selector@.len() <= MAX_SELECTOR_LEN,
    ensures
        !fits_parser(html@) ==> r is None,
        fits_parser(html@) ==> (r is Some <==> selector_parses(selector@)),
        r matches Some(v) ==> v@.map_values(|s: String| s@) == selected_texts(html@, selector@),
{
    let dom = tl::parse(html, tl::ParserOptions::default()).ok()?;
    let p = dom.parser();
    let found = dom.query_selector(selector)?;
    found.map(|h| h.get(p).map(|n| n.inner_text(p).into_owned())).collect()
}

/// Relies on `tl::parse`, `VDom::query_selector` (`None` where the selector
/// does not parse), `NodeHandle::get`, `Node::as_tag` and `Attributes::get`;
/// the query finds the same nodes as in `select_texts`. The `requires` bounds
/// the depth of the selector parser's recursion.
#[verifier::external_body]
pub(crate) fn select_attribute<'a>(html: &'a str, selector: &str, name: &'a str) -> (r: Option<Vec<Option<String>>>)
    requires
        selector@.len() <= MAX_SELECTOR_LEN,
    ensures
        !fits_parser(html@) ==> r is None,
        fits_parser(html@) ==> (r is Some <==> selector_parses(selector@)),
        r matches Some(v) ==> value_chars(v@) == selected_attribute(html@, selector@, name@),
        r matches Some(v) ==> v@.len() == selected_texts(html@, selector@).len(),
{
    let dom = tl::parse(html, tl::ParserOptions::default()).ok()?;
    let p = dom.parser();
    let found = dom.query_selector(selector)?;
    found.map(|h| h.get(p).map(|n| n.as_tag()
        .and_then(|t| t.attributes().get(name).flatten())
        .map(|b| b.as_utf8_str().into_owned()))).collect()
}

} // verus!
