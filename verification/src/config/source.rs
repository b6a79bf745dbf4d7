//! Which source URLs a deployment will fetch, and how a bare path becomes one.
//!
//! Entries of the allow list are compared against candidates as parsed URLs
//! rather than as text: the scheme, host, port, path and query that are
//! checked are the ones the fetch will use, so a host hidden behind userinfo,
//! a longer domain that starts the same way, or a path that escapes its prefix
//! with dot segments cannot pass.

use crate::text::{
    append_chars, ascii_lower, chars_eq, chars_of, contains_char, ends_with, find_str, occurrence,
    slice_chars, split_once_char, split_once_chars, starts_with, string_of, to_ascii_lower,
    trim_char_end,
};
use vstd::prelude::*;

verus! {

/// The parts of a URL that matching reads.
#[derive(Debug, Clone, PartialEq, Eq)]
pub struct UrlParts {
    pub scheme: String,
    pub host: Option<String>,
    pub port: Option<u16>,
    pub path: String,
    pub query: Option<String>,
}

/// A URL's scheme, host, explicit port, normalised path and query, as text.
pub type UrlView = (Seq<char>, Option<Seq<char>>, Option<u16>, Seq<char>, Option<Seq<char>>);

/// The characters of an optional string.
pub open spec fn opt_chars(s: Option<String>) -> Option<Seq<char>> {
    match s {
        Some(t) => Some(t@),
        None => None,
    }
}

/// The parts as text.
pub open spec fn url_view(p: UrlParts) -> UrlView {
    (p.scheme@, opt_chars(p.host), p.port, p.path@, opt_chars(p.query))
}

/// What the URL parser makes of some text: its scheme, host, explicit port,
/// path with dot segments resolved, and query; `None` when it is no URL.
pub uninterp spec fn url_components(text: Seq<char>) -> Option<UrlView>;

/// `url::Url::parse` (through `reqwest::Url`), with the parsed URL's
/// `scheme`, `host_str`, `port`, `path` and `query` read back. The result is
/// named rather than described: the WHATWG parsing rules are the crate's.
#[verifier::external_body]
fn parse_url(text: &str) -> (r: Option<UrlParts>)
    ensures
        match r {
            Some(p) => url_components(text@) == Some(url_view(p)),
            None => url_components(text@) is None,
        },
{
    let u = match reqwest::Url::parse(text) {
        Ok(u) => u,
        Err(_) => return None,
    };
    let host = match u.host_str() { Some(h) => Some(h.to_owned()), None => None };
    let query = match u.query() { Some(q) => Some(q.to_owned()), None => None };
    let (scheme, path) = (u.scheme().to_owned(), u.path().to_owned());
    Some(UrlParts { scheme, host, port: u.port(), path, query })
}

/// How an entry's host half is compared against a URL's host.
#[derive(Debug, Clone, PartialEq, Eq)]
pub enum HostMatch {
    /// The host must equal this, ignoring ASCII case.
    Exact(String),
    /// The host must end with this after exactly one further label.
    Suffix(String),
    /// The entry is no URL prefix, so it is compared as literal text.
    Unstructured,
}

/// An entry's host half, as text.
pub enum HostMatchView {
    Exact(Seq<char>),
    Suffix(Seq<char>),
    Unstructured,
}

/// One entry of the allowed-sources list.
///
/// A prefix of a URL, with `*` standing for one host label:
/// `https://*.example.com/` permits `images.example.com` but not
/// `example.com` or `a.b.example.com`.
#[derive(Debug, Clone, PartialEq, Eq)]
pub struct SourcePattern {
    scheme: String,
    host: HostMatch,
    /// Port the entry named, when it named one.
    port: Option<u16>,
    /// The path the entry restricts to, already normalised.
    path_prefix: String,
    /// The query the entry restricts to, when it named one: an entry with a
    /// query pins everything up to it.
    query_prefix: Option<String>,
}

/// What an entry holds, as text.
pub struct SourcePatternView {
    pub scheme: Seq<char>,
    pub host: HostMatchView,
    pub port: Option<u16>,
    pub path_prefix: Seq<char>,
    pub query_prefix: Option<Seq<char>>,
}

impl View for SourcePattern {
    type V = SourcePatternView;

    closed spec fn view(&self) -> SourcePatternView {
        SourcePatternView {
            scheme: self.scheme@,
            host: match self.host {
                HostMatch::Exact(h) => HostMatchView::Exact(h@),
                HostMatch::Suffix(h) => HostMatchView::Suffix(h@),
                HostMatch::Unstructured => HostMatchView::Unstructured,
            },
            port: self.port,
            path_prefix: self.path_prefix@,
            query_prefix: opt_chars(self.query_prefix),
        }
    }
}

/// The entry an unparsable pattern gives: its text, compared literally.
pub open spec fn unstructured_pattern(pattern: Seq<char>) -> SourcePatternView {
    SourcePatternView {
        scheme: pattern,
        host: HostMatchView::Unstructured,
        port: None,
        path_prefix: seq![],
        query_prefix: None,
    }
}

/// The path an entry restricts to. A bare host parses with the path `/`, which
/// as a prefix permits the whole host; that is what an entry naming no path
/// means, and the entry's own text says whether it named one.
pub open spec fn path_prefix_for(path: Seq<char>, pattern: Seq<char>) -> Seq<char> {
    let named_a_path = match occurrence(pattern, "://"@) {
        Some(k) => {
            let rest = pattern.skip(k + 3);
            rest.contains('/') && !(rest.len() >= 3 && rest.subrange(rest.len() - 3, rest.len() as int)
                == "://"@)
        },
        None => false,
    };
    if !named_a_path && path == "/"@ {
        seq![]
    } else {
        path
    }
}

/// The text the URL parser is given for an entry: a leading `*.` host label
/// is replaced by a placeholder label, since `*` is no legal host.
pub open spec fn probe_of(pattern: Seq<char>) -> Seq<char> {
    match occurrence(pattern, "://*."@) {
        Some(k) => pattern.take(k) + "://imgforge-wildcard."@ + pattern.skip(k + 5),
        None => pattern,
    }
}

/// What an allowed-sources entry means.
pub open spec fn pattern_of(pattern: Seq<char>) -> SourcePatternView {
    let wildcard = occurrence(pattern, "://*."@) is Some;
    match url_components(probe_of(pattern)) {
        None => unstructured_pattern(pattern),
        Some((scheme, host, port, path, query)) => match host {
            None => unstructured_pattern(pattern),
            Some(h) => {
                let host_match = if wildcard {
                    match split_once_char(h, '.') {
                        Some((_, suffix)) => Some(HostMatchView::Suffix(seq!['.'] + suffix)),
                        None => None,
                    }
                } else {
                    Some(HostMatchView::Exact(h))
                };
                match host_match {
                    None => unstructured_pattern(pattern),
                    Some(hm) => match query {
                        Some(q) => SourcePatternView {
                            scheme,
                            host: hm,
                            port,
                            path_prefix: path,
                            query_prefix: Some(q),
                        },
                        None => SourcePatternView {
                            scheme,
                            host: hm,
                            port,
                            path_prefix: path_prefix_for(path, pattern),
                            query_prefix: None,
                        },
                    },
                }
            },
        },
    }
}

/// Whether a URL's host satisfies an entry's host half.
pub open spec fn host_matches(expected: HostMatchView, host: Seq<char>) -> bool {
    match expected {
        HostMatchView::Exact(e) => ascii_lower(host) == ascii_lower(e),
        HostMatchView::Suffix(sfx) => {
            let l = ascii_lower(host);
            l.len() >= sfx.len() && l.subrange(l.len() - sfx.len(), l.len() as int) == sfx && {
                let label = l.take(l.len() - sfx.len());
                label.len() > 0 && !label.contains('.')
            }
        },
        HostMatchView::Unstructured => false,
    }
}

/// Whether an entry permits a URL: a literal entry as a prefix of the text;
/// otherwise the same scheme and port, a host the entry's host half accepts,
/// and a path under the entry's prefix, or, where the entry names a query,
/// the entry's exact path and a query it begins.
pub open spec fn pattern_matches(p: SourcePatternView, url: Seq<char>) -> bool {
    match p.host {
        HostMatchView::Unstructured => p.scheme.len() <= url.len() && url.take(p.scheme.len() as int)
            == p.scheme,
        _ => match url_components(url) {
            None => false,
            Some((scheme, host, port, path, query)) => scheme == p.scheme && port == p.port
                && match host {
                None => false,
                Some(h) => host_matches(p.host, h) && match p.query_prefix {
                    Some(q) => path == p.path_prefix && {
                        let actual = match query {
                            Some(x) => x,
                            None => seq![],
                        };
                        q.len() <= actual.len() && actual.take(q.len() as int) == q
                    },
                    None => p.path_prefix.len() <= path.len() && path.take(p.path_prefix.len() as int)
                        == p.path_prefix,
                },
            },
        },
    }
}

fn unstructured(pattern: &str) -> (r: SourcePattern)
    ensures
        r@ == unstructured_pattern(pattern@),
{
    let r = SourcePattern {
        scheme: pattern.to_owned(),
        host: HostMatch::Unstructured,
        port: None,
        path_prefix: String::new(),
        query_prefix: None,
    };
    assert(r@.path_prefix =~= Seq::<char>::empty());
    r
}

fn normalise_prefix(path: &str, pattern: &str) -> (r: String)
    ensures
        r@ == path_prefix_for(path@, pattern@),
{
    let p = chars_of(pattern);
    let sep = chars_of("://");
    proof {
        reveal_strlit("://");
    }
    let named_a_path = match find_str(p.as_slice(), sep.as_slice()) {
        Some(k) => {
            proof {
                crate::text::lemma_occurrence_found(pattern@, "://"@, 0);
            }
            let n = p.len();
            let rest = slice_chars(p.as_slice(), k + 3, n);
            assert(rest@ =~= p@.skip(k + 3));
            contains_char(rest.as_slice(), '/') && !ends_with(rest.as_slice(), sep.as_slice())
        },
        None => false,
    };
    let v = chars_of(path);
    if !named_a_path && crate::text::is(v.as_slice(), "/") {
        return String::new();
    }
    path.to_owned()
}

impl SourcePattern {
    /// Reads an allowed-sources entry.
    pub fn parse(pattern: &str) -> (r: Self)
        ensures
            r@ == pattern_of(pattern@),
    {
        let p = chars_of(pattern);
        let marker = chars_of("://*.");
        proof {
            reveal_strlit("://*.");
        }
        let (probe, wildcard) = match find_str(p.as_slice(), marker.as_slice()) {
            Some(k) => {
                proof {
                    crate::text::lemma_occurrence_found(pattern@, "://*."@, 0);
                }
                let mut probe = slice_chars(p.as_slice(), 0, k);
                let placeholder = chars_of("://imgforge-wildcard.");
                append_chars(&mut probe, placeholder.as_slice());
                let n = p.len();
                let rest = slice_chars(p.as_slice(), k + 5, n);
                append_chars(&mut probe, rest.as_slice());
                assert(probe@ =~= probe_of(pattern@));
                (string_of(probe.as_slice()), true)
            },
            None => (pattern.to_owned(), false),
        };
        let parsed = match parse_url(probe.as_str()) {
            Some(u) => u,
            None => {
                return unstructured(pattern);
            },
        };
        let host = match &parsed.host {
            Some(h) => h,
            None => {
                return unstructured(pattern);
            },
        };
        let host_match = if wildcard {
            let hv = chars_of(host.as_str());
            match split_once_chars(hv.as_slice(), '.') {
                Some((_, suffix)) => {
                    let mut s: Vec<char> = Vec::new();
                    s.push('.');
                    append_chars(&mut s, suffix.as_slice());
                    assert(s@ =~= seq!['.'] + suffix@);
                    HostMatch::Suffix(string_of(s.as_slice()))
                },
                None => {
                    return unstructured(pattern);
                },
            }
        } else {
            HostMatch::Exact(host.clone())
        };
        let r = match &parsed.query {
            Some(q) => SourcePattern {
                scheme: parsed.scheme.clone(),
                host: host_match,
                port: parsed.port,
                path_prefix: parsed.path.clone(),
                query_prefix: Some(q.clone()),
            },
            None => SourcePattern {
                scheme: parsed.scheme.clone(),
                host: host_match,
                port: parsed.port,
                path_prefix: normalise_prefix(parsed.path.as_str(), pattern),
                query_prefix: None,
            },
        };
        r
    }

    /// Whether this entry permits a URL.
    pub fn matches(&self, url: &str) -> (r: bool)
        ensures
            r == pattern_matches(self@, url@),
    {
        let u = chars_of(url);
        match &self.host {
            HostMatch::Unstructured => {
                let s = chars_of(self.scheme.as_str());
                return starts_with(u.as_slice(), s.as_slice());
            },
            _ => {},
        }
        let parsed = match parse_url(url) {
            Some(p) => p,
            None => {
                return false;
            },
        };
        let scheme_ok = {
            let a = chars_of(parsed.scheme.as_str());
            let b = chars_of(self.scheme.as_str());
            chars_eq(a.as_slice(), b.as_slice())
        };
        if !scheme_ok || parsed.port != self.port {
            return false;
        }
        let host = match &parsed.host {
            Some(h) => h,
            None => {
                return false;
            },
        };
        let h = chars_of(host.as_str());
        let lower = to_ascii_lower(h.as_slice());
        let host_ok = match &self.host {
            HostMatch::Exact(expected) => {
                let e = chars_of(expected.as_str());
                let el = to_ascii_lower(e.as_slice());
                chars_eq(lower.as_slice(), el.as_slice())
            },
            HostMatch::Suffix(suffix) => {
                let sfx = chars_of(suffix.as_str());
                if ends_with(lower.as_slice(), sfx.as_slice()) {
                    let label = slice_chars(lower.as_slice(), 0, lower.len() - sfx.len());
                    assert(label@ =~= lower@.take(lower@.len() - sfx@.len()));
                    label.len() > 0 && !contains_char(label.as_slice(), '.')
                } else {
                    false
                }
            },
            HostMatch::Unstructured => false,
        };
        let path = chars_of(parsed.path.as_str());
        let prefix = chars_of(self.path_prefix.as_str());
        let path_ok = match &self.query_prefix {
            Some(q) => {
                let qv = chars_of(q.as_str());
                let actual = match &parsed.query {
                    Some(x) => chars_of(x.as_str()),
                    None => Vec::new(),
                };
                chars_eq(path.as_slice(), prefix.as_slice()) && starts_with(
                    actual.as_slice(),
                    qv.as_slice(),
                )
            },
            None => starts_with(path.as_slice(), prefix.as_slice()),
        };
        host_ok && path_ok
    }
}

/// How source URLs are resolved and restricted.
#[derive(Debug, Clone)]
pub struct SourceRules {
    /// Prepended to every source URL, so URLs can carry only a path.
    pub base_url: Option<String>,
    /// When non-empty, a source URL must match one of these to be fetched.
    pub allowed: Vec<SourcePattern>,
}

impl Default for SourceRules {
    fn default() -> (r: Self)
        ensures
            r.base_url is None,
            r.allowed@.len() == 0,
    {
        SourceRules { base_url: None, allowed: Vec::new() }
    }
}

/// `path` with a `/` in front unless it has one.
pub open spec fn with_leading_slash(path: Seq<char>) -> Seq<char> {
    if path.len() > 0 && path[0] == '/' {
        path
    } else {
        seq!['/'] + path
    }
}

/// What a source reference resolves to: a URL naming a scheme is complete;
/// otherwise the base, without trailing slashes, is put in front of it.
pub open spec fn resolved(base: Option<Seq<char>>, url: Seq<char>) -> Seq<char> {
    match base {
        None => url,
        Some(b) => if occurrence(url, "://"@) is Some {
            url
        } else {
            trim_char_end(b, '/') + with_leading_slash(url)
        },
    }
}

fn ensure_leading_slash(path: &[char]) -> (r: Vec<char>)
    ensures
        r@ == with_leading_slash(path@),
{
    if path.len() > 0 && path[0] == '/' {
        slice_chars(path, 0, path.len())
    } else {
        let mut r: Vec<char> = Vec::new();
        r.push('/');
        append_chars(&mut r, path);
        assert(r@ =~= seq!['/'] + path@);
        r
    }
}

impl SourceRules {
    /// Applies the base URL to a decoded source reference.
    pub fn resolve(&self, url: &str) -> (r: String)
        ensures
            r@ == resolved(opt_chars(self.base_url), url@),
    {
        let base = match &self.base_url {
            Some(b) => b,
            None => {
                return url.to_owned();
            },
        };
        let u = chars_of(url);
        let sep = chars_of("://");
        if find_str(u.as_slice(), sep.as_slice()).is_some() {
            return url.to_owned();
        }
        let b = chars_of(base.as_str());
        let mut out = crate::text::trim_char_end_chars(b.as_slice(), '/');
        let tail = ensure_leading_slash(u.as_slice());
        append_chars(&mut out, tail.as_slice());
        string_of(out.as_slice())
    }

    /// Whether a resolved source URL may be fetched: anything, when the allow
    /// list is empty; otherwise a URL one of its entries permits.
    pub fn permits(&self, url: &str) -> (r: bool)
        ensures
            r == (self.allowed@.len() == 0 || exists|i: int|
                0 <= i < self.allowed@.len() && pattern_matches(#[trigger] self.allowed@[i]@, url@)),
    {
        if self.allowed.len() == 0 {
            return true;
        }
        let mut i: usize = 0;
        while i < self.allowed.len()
            invariant
                i <= self.allowed@.len(),
                forall|j: int| 0 <= j < i ==> !pattern_matches(#[trigger] self.allowed@[j]@, url@),
            decreases self.allowed@.len() - i,
        {
            if self.allowed[i].matches(url) {
                return true;
            }
            i = i + 1;
        }
        false
    }
}

} // verus!
