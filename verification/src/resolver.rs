//! Splitting a user-supplied key argument into a server origin and a document key.
//!
//! The argument is either a bare key, a document URL (`scheme://host/key`) or a
//! raw-document URL (`scheme://host/raw/key`), where the scheme is `http` or `https`
//! and the host holds a dot with something on either side of it. As a pattern,
//! the accepted shape is `^(?:(https?://[^\s/]+\.[^\s/]+)/(?:raw/)?)?(\S+)$`:
//! the first group is the origin, the second is the key.

use vstd::prelude::*;
use crate::text::{has_prefix, text_option};

verus! {

/// Whether `c` has the Unicode property `White_Space`.
pub open spec fn is_space(c: char) -> bool {
    ||| ('\u{9}' <= c && c <= '\u{d}')
    ||| c == ' '
    ||| c == '\u{85}'
    ||| c == '\u{a0}'
    ||| c == '\u{1680}'
    ||| ('\u{2000}' <= c && c <= '\u{200a}')
    ||| c == '\u{2028}'
    ||| c == '\u{2029}'
    ||| c == '\u{202f}'
    ||| c == '\u{205f}'
    ||| c == '\u{3000}'
}

/// A token is a non-empty text without white space.
pub open spec fn is_token(s: Seq<char>) -> bool {
    s.len() > 0 && forall|i: int| 0 <= i < s.len() ==> !is_space(#[trigger] s[i])
}

/// The text `http://`.
pub open spec fn http_scheme() -> Seq<char> {
    seq!['h', 't', 't', 'p', ':', '/', '/']
}

/// The text `https://`.
pub open spec fn https_scheme() -> Seq<char> {
    seq!['h', 't', 't', 'p', 's', ':', '/', '/']
}

/// The text `raw/`.
pub open spec fn raw_segment() -> Seq<char> {
    seq!['r', 'a', 'w', '/']
}

/// The length of the scheme that `s` starts with, or 0 where it starts with none.
pub open spec fn scheme_len(s: Seq<char>) -> int {
    if https_scheme().is_prefix_of(s) {
        8
    } else if http_scheme().is_prefix_of(s) {
        7
    } else {
        0
    }
}

/// The index of the first `/` of `s` at or after `from`, or the length of `s`
/// where there is none.
pub open spec fn slash_from(s: Seq<char>, from: int) -> int
    decreases s.len() - from,
{
    if from >= s.len() {
        s.len() as int
    } else if s[from] == '/' {
        from
    } else {
        slash_from(s, from + 1)
    }
}

/// Whether `h` holds a dot with at least one character on either side of it.
pub open spec fn has_inner_dot(h: Seq<char>) -> bool {
    exists|i: int| 0 < i < h.len() - 1 && #[trigger] h[i] == '.'
}

/// The key in what follows the host's slash: one leading `raw/` is dropped where
/// something is left after it.
pub open spec fn strip_raw(rest: Seq<char>) -> Seq<char> {
    if rest.len() > 4 && raw_segment().is_prefix_of(rest) {
        rest.subrange(4, rest.len() as int)
    } else {
        rest
    }
}

/// The origin and key that a token embeds, where it has the shape of a URL:
/// a scheme, a host with an inner dot that ends at the first `/`, and a
/// non-empty remainder.
pub open spec fn embedded(s: Seq<char>) -> Option<(Seq<char>, Seq<char>)> {
    let n = scheme_len(s);
    let e = slash_from(s, n);
    if n > 0 && e + 1 < s.len() && has_inner_dot(s.subrange(n, e)) {
        Some((s.subrange(0, e), strip_raw(s.subrange(e + 1, s.len() as int))))
    } else {
        None
    }
}

/// Why an argument could not be resolved.
#[derive(Debug, Clone, Copy, PartialEq, Eq, Structural)]
pub enum ResolveError {
    /// The argument is empty or holds white space.
    Malformed,
    /// The argument is a bare key and no server was given beside it.
    MissingServer,
}

/// A resolved argument: where the document lives and under which key.
#[derive(Debug, Clone, PartialEq, Eq)]
pub struct Resolved {
    /// The server origin, scheme and host.
    pub server: String,
    /// The document key, as it was written.
    pub key: String,
    /// Whether the origin was taken from the argument itself.
    pub embedded: bool,
}

/// The mathematical value of a [`Resolved`].
pub struct ResolvedView {
    pub server: Seq<char>,
    pub key: Seq<char>,
    pub embedded: bool,
}

impl View for Resolved {
    type V = ResolvedView;

    open spec fn view(&self) -> ResolvedView {
        ResolvedView { server: self.server@, key: self.key@, embedded: self.embedded }
    }
}

/// What resolving `arg` beside an optional explicit server gives.
pub open spec fn resolve_spec(arg: Seq<char>, explicit: Option<Seq<char>>) -> Result<
    ResolvedView,
    ResolveError,
> {
    if !is_token(arg) {
        Err(ResolveError::Malformed)
    } else {
        match embedded(arg) {
            Some((origin, key)) => Ok(ResolvedView { server: origin, key: key, embedded: true }),
            None => match explicit {
                Some(server) => Ok(ResolvedView { server: server, key: arg, embedded: false }),
                None => Err(ResolveError::MissingServer),
            },
        }
    }
}

/// Tells whether a character is white space.
pub fn char_is_space(c: char) -> (r: bool)
    ensures
        r == is_space(c),
{
    ('\u{9}' <= c && c <= '\u{d}') || c == ' ' || c == '\u{85}' || c == '\u{a0}' || c
        == '\u{1680}' || ('\u{2000}' <= c && c <= '\u{200a}') || c == '\u{2028}' || c
        == '\u{2029}' || c == '\u{202f}' || c == '\u{205f}' || c == '\u{3000}'
}

/// Tells whether a text is a token: non-empty and free of white space.
pub fn text_is_token(s: &str) -> (r: bool)
    ensures
        r == is_token(s@),
{
    let n: usize = s.unicode_len();
    if n == 0 {
        return false;
    }
    let mut i: usize = 0;
    while i < n
        invariant
            i <= n,
            n == s@.len(),
            forall|j: int| 0 <= j < i ==> !is_space(#[trigger] s@[j]),
        decreases n - i,
    {
        if char_is_space(s.get_char(i)) {
            return false;
        }
        i += 1;
    }
    true
}

/// Finds the first `/` of `s` at or after `from`.
pub fn find_slash(s: &str, from: usize) -> (e: usize)
    requires
        from <= s@.len(),
    ensures
        e == slash_from(s@, from as int),
        from <= e <= s@.len(),
{
    let n: usize = s.unicode_len();
    let mut i: usize = from;
    while i < n && s.get_char(i) != '/'
        invariant
            from <= i <= n,
            n == s@.len(),
            slash_from(s@, i as int) == slash_from(s@, from as int),
        decreases n - i,
    {
        i += 1;
    }
    i
}

/// Tells whether the characters of `s` from `a` up to `b` hold an inner dot.
pub fn range_has_inner_dot(s: &str, a: usize, b: usize) -> (r: bool)
    requires
        a <= b <= s@.len(),
    ensures
        r == has_inner_dot(s@.subrange(a as int, b as int)),
{
    let ghost h = s@.subrange(a as int, b as int);
    if b - a < 3 {
        return false;
    }
    let mut i: usize = a + 1;
    while i < b - 1
        invariant
            a < i <= b - 1,
            b <= s@.len(),
            h == s@.subrange(a as int, b as int),
            forall|j: int| 0 < j < i - a ==> #[trigger] h[j] != '.',
        decreases b - i,
    {
        if s.get_char(i) == '.' {
            assert(h[i - a] == '.');
            return true;
        }
        i += 1;
    }
    false
}

/// Resolves a key argument, beside the explicit server where one was given, to
/// the server origin and the document key.
///
/// An argument in the shape of a URL carries its own origin, and the explicit
/// server is then ignored. Any other token is a bare key and needs the explicit
/// server.
pub fn resolve(arg: &str, explicit: Option<&str>) -> (r: Result<Resolved, ResolveError>)
    ensures
        match resolve_spec(arg@, text_option(explicit)) {
            Ok(v) => r matches Ok(x) && x@ == v,
            Err(e) => r matches Err(f) && f == e,
        },
{
    if !text_is_token(arg) {
        return Err(ResolveError::Malformed);
    }
    proof {
        reveal_strlit("https://");
        reveal_strlit("http://");
        reveal_strlit("raw/");
        assert("https://"@ =~= https_scheme());
        assert("http://"@ =~= http_scheme());
        assert("raw/"@ =~= raw_segment());
    }
    let len: usize = arg.unicode_len();
    let n: usize = if has_prefix(arg, "https://") {
        8
    } else if has_prefix(arg, "http://") {
        7
    } else {
        0
    };
    if n > 0 {
        let e: usize = find_slash(arg, n);
        if e < len && e + 1 < len && range_has_inner_dot(arg, n, e) {
            let rest: &str = arg.substring_char(e + 1, len);
            let key: &str = if len - (e + 1) > 4 && has_prefix(rest, "raw/") {
                rest.substring_char(4, len - (e + 1))
            } else {
                rest
            };
            return Ok(
                Resolved {
                    server: arg.substring_char(0, e).to_owned(),
                    key: key.to_owned(),
                    embedded: true,
                },
            );
        }
    }
    match explicit {
        Some(server) => Ok(
            Resolved { server: server.to_owned(), key: arg.to_owned(), embedded: false },
        ),
        None => Err(ResolveError::MissingServer),
    }
}

/// Whether `p` is one of the two schemes, `http://` and `https://`.
pub open spec fn is_scheme(p: Seq<char>) -> bool {
    p == http_scheme() || p == https_scheme()
}

/// A host is a token without `/` that holds an inner dot.
pub open spec fn is_host(h: Seq<char>) -> bool {
    is_token(h) && has_inner_dot(h) && forall|i: int| 0 <= i < h.len() ==> #[trigger] h[i] != '/'
}

/// The URL made of a scheme, a host, a slash and what follows it.
pub open spec fn url_of(scheme: Seq<char>, host: Seq<char>, rest: Seq<char>) -> Seq<char> {
    scheme + host + seq!['/'] + rest
}

proof fn lemma_slash_found(s: Seq<char>, from: int, e: int)
    requires
        0 <= from <= e < s.len(),
        s[e] == '/',
        forall|j: int| from <= j < e ==> #[trigger] s[j] != '/',
    ensures
        slash_from(s, from) == e,
    decreases e - from,
{
    if from < e {
        lemma_slash_found(s, from + 1, e);
    }
}

/// A scheme, a host, a slash and a token after it always resolve to the origin
/// `scheme + host`, with the key that is left of the token once a leading `raw/`
/// is dropped, whatever explicit server stands beside the URL.
pub proof fn lemma_url_resolves(
    scheme: Seq<char>,
    host: Seq<char>,
    rest: Seq<char>,
    explicit: Option<Seq<char>>,
)
    requires
        is_scheme(scheme),
        is_host(host),
        is_token(rest),
    ensures
        resolve_spec(url_of(scheme, host, rest), explicit) == Ok::<ResolvedView, ResolveError>(
            ResolvedView { server: scheme + host, key: strip_raw(rest), embedded: true },
        ),
{
    let s = url_of(scheme, host, rest);
    let n = scheme.len() as int;
    let e = n + host.len();
    assert(s.len() == e + 1 + rest.len());
    assert forall|i: int| 0 <= i < s.len() implies !is_space(#[trigger] s[i]) by {
        if i < n {
            assert(s[i] == scheme[i]);
        } else if i < e {
            assert(s[i] == host[i - n]);
        } else if i == e {
            assert(s[i] == '/');
        } else {
            assert(s[i] == rest[i - e - 1]);
        }
    }
    assert(scheme =~= s.subrange(0, n));
    assert(scheme_len(s) == n) by {
        if scheme == http_scheme() {
            assert(s[4] == ':');
            assert(https_scheme()[4] == 's');
            if https_scheme().is_prefix_of(s) {
                assert(s.subrange(0, 8)[4] == s[4]);
            }
        }
    }
    assert(s[e] == '/');
    assert forall|j: int| n <= j < e implies #[trigger] s[j] != '/' by {
        assert(s[j] == host[j - n]);
    }
    lemma_slash_found(s, n, e);
    assert(s.subrange(n, e) =~= host);
    assert(s.subrange(0, e) =~= scheme + host);
    assert(s.subrange(e + 1, s.len() as int) =~= rest);
}

proof fn lemma_slash_from_bounds(s: Seq<char>, from: int)
    requires
        0 <= from <= s.len(),
    ensures
        from <= slash_from(s, from) <= s.len(),
        slash_from(s, from) < s.len() ==> s[slash_from(s, from)] == '/',
        forall|j: int| from <= j < slash_from(s, from) ==> #[trigger] s[j] != '/',
    decreases s.len() - from,
{
    if from < s.len() && s[from] != '/' {
        lemma_slash_from_bounds(s, from + 1);
    }
}

/// The converse: a token that carries an origin is a URL. It starts with a
/// scheme, a host follows up to the first `/`, the origin is the two together,
/// and after the slash stands the key, or `raw/` and the key.
pub proof fn law_embedded_is_url(s: Seq<char>)
    requires
        is_token(s),
        embedded(s) is Some,
    ensures
        ({
            let (origin, key) = embedded(s)->0;
            let scheme = s.subrange(0, scheme_len(s));
            let host = s.subrange(scheme_len(s), origin.len() as int);
            &&& is_scheme(scheme)
            &&& is_host(host)
            &&& is_token(key)
            &&& origin == scheme + host
            &&& (s == url_of(scheme, host, key) || s == url_of(scheme, host, raw_segment() + key))
        }),
{
    let n = scheme_len(s);
    let e = slash_from(s, n);
    lemma_slash_from_bounds(s, n);
    let (origin, key) = embedded(s)->0;
    let scheme = s.subrange(0, n);
    let host = s.subrange(n, e);
    let rest = s.subrange(e + 1, s.len() as int);
    assert(origin.len() == e);
    assert(scheme =~= if n == 8 {
        https_scheme()
    } else {
        http_scheme()
    });
    assert forall|i: int| 0 <= i < host.len() implies !is_space(#[trigger] host[i]) && host[i]
        != '/' by {
        assert(host[i] == s[n + i]);
    }
    assert forall|i: int| 0 <= i < key.len() implies !is_space(#[trigger] key[i]) by {
        if key == rest {
            assert(key[i] == s[e + 1 + i]);
        } else {
            assert(key[i] == s[e + 5 + i]);
        }
    }
    assert(origin =~= scheme + host);
    assert(s =~= url_of(scheme, host, rest));
    if rest.len() > 4 && raw_segment().is_prefix_of(rest) {
        assert(rest =~= raw_segment() + key);
    }
}

/// A bare key, a token that starts with no scheme, resolves to itself under the
/// explicit server, and to the missing-server error where none is given.
pub proof fn law_bare_key(key: Seq<char>, server: Seq<char>)
    requires
        is_token(key),
        scheme_len(key) == 0,
    ensures
        resolve_spec(key, None) == Err::<ResolvedView, ResolveError>(ResolveError::MissingServer),
        resolve_spec(key, Some(server)) == Ok::<ResolvedView, ResolveError>(
            ResolvedView { server: server, key: key, embedded: false },
        ),
{
}

/// A raw-document URL, `scheme + host + "/raw/" + key`, resolves to the origin
/// `scheme + host` and to `key`, whatever explicit server stands beside it.
pub proof fn law_raw_url(
    scheme: Seq<char>,
    host: Seq<char>,
    key: Seq<char>,
    explicit: Option<Seq<char>>,
)
    requires
        is_scheme(scheme),
        is_host(host),
        is_token(key),
    ensures
        resolve_spec(url_of(scheme, host, raw_segment() + key), explicit) == Ok::<
            ResolvedView,
            ResolveError,
        >(ResolvedView { server: scheme + host, key: key, embedded: true }),
{
    let rest = raw_segment() + key;
    assert forall|i: int| 0 <= i < rest.len() implies !is_space(#[trigger] rest[i]) by {
        if i >= 4 {
            assert(rest[i] == key[i - 4]);
        }
    }
    assert(raw_segment() =~= rest.subrange(0, 4));
    assert(rest.subrange(4, rest.len() as int) =~= key);
    lemma_url_resolves(scheme, host, rest, explicit);
}

/// A document URL, `scheme + host + "/" + key` where `key` is not itself `raw/`
/// and more, resolves to the origin `scheme + host` and to `key`, whatever
/// explicit server stands beside it.
pub proof fn law_document_url(
    scheme: Seq<char>,
    host: Seq<char>,
    key: Seq<char>,
    explicit: Option<Seq<char>>,
)
    requires
        is_scheme(scheme),
        is_host(host),
        is_token(key),
        !(key.len() > 4 && raw_segment().is_prefix_of(key)),
    ensures
        resolve_spec(url_of(scheme, host, key), explicit) == Ok::<ResolvedView, ResolveError>(
            ResolvedView { server: scheme + host, key: key, embedded: true },
        ),
{
    lemma_url_resolves(scheme, host, key, explicit);
}

} // verus!
