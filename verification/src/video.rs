//! A video request and the recognition of the YouTube URL shapes it is
//! created from: `watch?v=ID`, `/v/ID`, `/embed/ID`, `/e/ID`, `/shorts/ID`
//! on a youtube host, and `youtu.be/ID` short links, each with arbitrary
//! extra query parameters. Every other host or path shape is rejected.

use vstd::prelude::*;
use vstd::string::StringExecFns;
use vstd::string::StrSliceExecFns;
use crate::text::{ci_seq_eq, eq_str, lower_code};

verus! {

/// One requested video, identified by the id extracted from its URL.
/// Immutable once created; consumed exactly once by the request state
/// machine.
#[derive(Debug)]
pub struct VideoRequest {
    pub youtube_id: String,
}

impl View for VideoRequest {
    type V = Seq<char>;

    open spec fn view(&self) -> Seq<char> {
        self.youtube_id@
    }
}

/// The one way URL parsing fails: the URL is not a recognized YouTube
/// shape. Fatal for that request only.
#[derive(Clone, Copy, Debug, PartialEq, Eq, Structural)]
pub enum UrlParseError {
    UnknownUrlKind,
}

/// Index of the first occurrence of a character.
pub open spec fn first_of(s: Seq<char>, c: char) -> Option<int>
    decreases s.len(),
{
    if s.len() == 0 {
        None
    } else if s[0] == c {
        Some(0)
    } else {
        match first_of(s.drop_first(), c) {
            None => None,
            Some(i) => Some(i + 1),
        }
    }
}

/// Index of the first `/` or `?`: where the authority part ends.
pub open spec fn first_sep(s: Seq<char>) -> Option<int>
    decreases s.len(),
{
    if s.len() == 0 {
        None
    } else if s[0] == '/' || s[0] == '?' {
        Some(0)
    } else {
        match first_sep(s.drop_first()) {
            None => None,
            Some(i) => Some(i + 1),
        }
    }
}

/// Whether `s` ends with `suffix`, ASCII case ignored: hosts are
/// case-insensitive, so `WWW.YOUTUBE.COM` counts as a youtube host.
pub open spec fn ends_with_ci(s: Seq<char>, suffix: Seq<char>) -> bool {
    s.len() >= suffix.len() && ci_seq_eq(s.skip(s.len() - suffix.len()), suffix)
}

/// Length of the accepted scheme prefix, if the URL has one. The scheme is
/// case-insensitive, as an ordinary URL parser treats it.
pub open spec fn spec_scheme_len(s: Seq<char>) -> Option<int> {
    if s.len() >= 8 && ci_seq_eq(s.subrange(0, 8), "https://"@) {
        Some(8)
    } else if s.len() >= 7 && ci_seq_eq(s.subrange(0, 7), "http://"@) {
        Some(7)
    } else {
        None
    }
}

/// A query pair split at its first `=`: key and value. A pair without `=`
/// is a key with an empty value.
pub open spec fn spec_kv(p: Seq<char>) -> (Seq<char>, Seq<char>) {
    match first_of(p, '=') {
        None => (p, Seq::<char>::empty()),
        Some(i) => (p.subrange(0, i), p.skip(i + 1)),
    }
}

/// The value of the first `v` parameter of a query, pairs separated by `&`.
pub open spec fn spec_query_v(q: Seq<char>) -> Option<Seq<char>>
    decreases q.len(),
    via spec_query_v_dec
{
    match first_of(q, '&') {
        None => {
            if spec_kv(q).0 == "v"@ {
                Some(spec_kv(q).1)
            } else {
                None
            }
        },
        Some(i) => {
            if spec_kv(q.subrange(0, i)).0 == "v"@ {
                Some(spec_kv(q.subrange(0, i)).1)
            } else {
                spec_query_v(q.skip(i + 1))
            }
        },
    }
}

/// The host: the authority up to its port separator, if any.
pub open spec fn spec_host_of(auth: Seq<char>) -> Seq<char> {
    match first_of(auth, ':') {
        None => auth,
        Some(i) => auth.subrange(0, i),
    }
}

/// The path words that take the id as their second segment.
pub open spec fn is_two_segment_kind(s: Seq<char>) -> bool {
    s == "watch"@ || s == "v"@ || s == "embed"@ || s == "e"@ || s == "shorts"@
}

/// The id a URL names, if it has a recognized YouTube shape: on a host
/// ending in `youtube.com` or `youtube-nocookie.com`, either the single
/// path segment `watch` with a `v` query parameter, or one of the
/// two-segment shapes whose second segment is the id; on a host ending in
/// `youtu.be`, the single path segment is the id.
pub open spec fn spec_yt_id(url: Seq<char>) -> Option<Seq<char>> {
    match spec_scheme_len(url) {
        None => None,
        Some(n) => {
            let rest = url.skip(n);
            let ae = match first_sep(rest) {
                None => rest.len() as int,
                Some(i) => i,
            };
            let host = spec_host_of(rest.subrange(0, ae));
            let tail = rest.skip(ae);
            let raw_path = match first_of(tail, '?') {
                None => tail,
                Some(i) => tail.subrange(0, i),
            };
            let query = match first_of(tail, '?') {
                None => Seq::<char>::empty(),
                Some(i) => tail.skip(i + 1),
            };
            let path = if raw_path.len() == 0 {
                Seq::<char>::empty()
            } else {
                raw_path.skip(1)
            };
            if ends_with_ci(host, "youtube.com"@) || ends_with_ci(host, "youtube-nocookie.com"@) {
                match first_of(path, '/') {
                    None => {
                        if path == "watch"@ {
                            spec_query_v(query)
                        } else {
                            None
                        }
                    },
                    Some(i) => {
                        let seg0 = path.subrange(0, i);
                        let seg1 = path.skip(i + 1);
                        if first_of(seg1, '/') is None && is_two_segment_kind(seg0) {
                            Some(seg1)
                        } else {
                            None
                        }
                    },
                }
            } else if ends_with_ci(host, "youtu.be"@) {
                if first_of(path, '/') is None {
                    Some(path)
                } else {
                    None
                }
            } else {
                None
            }
        },
    }
}

/// Where `first_of` finds a character, that position is in range and holds
/// it.
proof fn lemma_first_of_bounds(s: Seq<char>, c: char)
    ensures
        match first_of(s, c) {
            Some(i) => 0 <= i < s.len() && s[i] == c,
            None => true,
        },
    decreases s.len(),
{
    if s.len() > 0 && s[0] != c {
        lemma_first_of_bounds(s.drop_first(), c);
    }
}

#[via_fn]
proof fn spec_query_v_dec(q: Seq<char>) {
    lemma_first_of_bounds(q, '&');
}

proof fn lemma_first_of_at(s: Seq<char>, c: char, i: int)
    requires
        0 <= i < s.len(),
        s[i] == c,
        forall|j: int| 0 <= j < i ==> s[j] != c,
    ensures
        first_of(s, c) == Some(i),
    decreases i,
{
    if i > 0 {
        lemma_first_of_at(s.drop_first(), c, i - 1);
    }
}

proof fn lemma_first_of_none(s: Seq<char>, c: char)
    requires
        forall|j: int| 0 <= j < s.len() ==> s[j] != c,
    ensures
        first_of(s, c) is None,
    decreases s.len(),
{
    if s.len() > 0 {
        lemma_first_of_none(s.drop_first(), c);
    }
}

proof fn lemma_first_sep_at(s: Seq<char>, i: int)
    requires
        0 <= i < s.len(),
        s[i] == '/' || s[i] == '?',
        forall|j: int| 0 <= j < i ==> s[j] != '/' && s[j] != '?',
    ensures
        first_sep(s) == Some(i),
    decreases i,
{
    if i > 0 {
        lemma_first_sep_at(s.drop_first(), i - 1);
    }
}

proof fn lemma_first_sep_none(s: Seq<char>)
    requires
        forall|j: int| 0 <= j < s.len() ==> s[j] != '/' && s[j] != '?',
    ensures
        first_sep(s) is None,
    decreases s.len(),
{
    if s.len() > 0 {
        lemma_first_sep_none(s.drop_first());
    }
}

/// Index of the first occurrence of `c`, scanning executable text.
fn find_char(s: &str, c: char) -> (r: Option<usize>)
    ensures
        r matches Some(i) ==> first_of(s@, c) == Some(i as int) && i < s@.len(),
        r is None ==> first_of(s@, c) is None,
{
    let n = s.unicode_len();
    let mut i: usize = 0;
    while i < n
        invariant
            n == s@.len(),
            0 <= i <= n,
            forall|j: int| 0 <= j < i ==> s@[j] != c,
        decreases n - i,
    {
        if s.get_char(i) == c {
            proof {
                lemma_first_of_at(s@, c, i as int);
            }
            return Some(i);
        }
        i += 1;
    }
    proof {
        lemma_first_of_none(s@, c);
    }
    None
}

/// Index of the first `/` or `?`.
fn find_sep(s: &str) -> (r: Option<usize>)
    ensures
        r matches Some(i) ==> first_sep(s@) == Some(i as int) && i < s@.len(),
        r is None ==> first_sep(s@) is None,
{
    let n = s.unicode_len();
    let mut i: usize = 0;
    while i < n
        invariant
            n == s@.len(),
            0 <= i <= n,
            forall|j: int| 0 <= j < i ==> s@[j] != '/' && s@[j] != '?',
        decreases n - i,
    {
        let ch = s.get_char(i);
        if ch == '/' || ch == '?' {
            proof {
                lemma_first_sep_at(s@, i as int);
            }
            return Some(i);
        }
        i += 1;
    }
    proof {
        lemma_first_sep_none(s@);
    }
    None
}

/// The folded code point of an executable character.
fn lowered(c: char) -> (r: u32)
    ensures
        r == lower_code(c),
{
    let cv = c as u32;
    if 65 <= cv && cv <= 90 {
        cv + 32
    } else {
        cv
    }
}

/// Whether `s` starts with `p`, ASCII case ignored.
fn has_prefix_ci(s: &str, p: &str) -> (r: bool)
    ensures
        r == (s@.len() >= p@.len() && ci_seq_eq(s@.subrange(0, p@.len() as int), p@)),
{
    let n = s.unicode_len();
    let m = p.unicode_len();
    if n < m {
        return false;
    }
    let mut i: usize = 0;
    while i < m
        invariant
            n == s@.len(),
            m == p@.len(),
            n >= m,
            0 <= i <= m,
            forall|j: int| 0 <= j < i ==> lower_code(s@[j]) == lower_code(p@[j]),
        decreases m - i,
    {
        if lowered(s.get_char(i)) != lowered(p.get_char(i)) {
            proof {
                assert(lower_code(s@.subrange(0, p@.len() as int)[i as int]) != lower_code(
                    p@[i as int],
                ));
            }
            return false;
        }
        i += 1;
    }
    proof {
        assert(forall|j: int|
            0 <= j < m ==> lower_code(s@.subrange(0, p@.len() as int)[j]) == lower_code(p@[j]));
    }
    true
}

/// Whether `s` ends with `p`, ASCII case ignored.
fn has_suffix_ci(s: &str, p: &str) -> (r: bool)
    ensures
        r == ends_with_ci(s@, p@),
{
    let n = s.unicode_len();
    let m = p.unicode_len();
    if n < m {
        return false;
    }
    let off = n - m;
    let mut i: usize = 0;
    while i < m
        invariant
            n == s@.len(),
            m == p@.len(),
            n >= m,
            off == n - m,
            0 <= i <= m,
            forall|j: int| 0 <= j < i ==> lower_code(s@[off + j]) == lower_code(p@[j]),
        decreases m - i,
    {
        if lowered(s.get_char(off + i)) != lowered(p.get_char(i)) {
            proof {
                assert(lower_code(s@.skip(s@.len() - p@.len())[i as int]) != lower_code(
                    p@[i as int],
                ));
            }
            return false;
        }
        i += 1;
    }
    proof {
        assert(forall|j: int|
            0 <= j < m ==> lower_code(s@.skip(s@.len() - p@.len())[j]) == lower_code(p@[j]));
    }
    true
}

/// The value of the first `v` parameter of a query string.
fn query_v(q: &str) -> (r: Option<String>)
    ensures
        match spec_query_v(q@) {
            Some(v) => r matches Some(s) && s@ == v,
            None => r is None,
        },
    decreases q@.len(),
{
    let qlen = q.unicode_len();
    let (pair, next) = match find_char(q, '&') {
        None => (q.substring_char(0, qlen), None),
        Some(i) => (q.substring_char(0, i), Some(q.substring_char(i + 1, qlen))),
    };
    let plen = pair.unicode_len();
    let (key, value) = match find_char(pair, '=') {
        None => (pair.substring_char(0, plen), pair.substring_char(plen, plen)),
        Some(i) => (pair.substring_char(0, i), pair.substring_char(i + 1, plen)),
    };
    proof {
        reveal_strlit("v");
        assert(match first_of(q@, '&') {
            None => pair@ =~= q@,
            Some(i) => pair@ =~= q@.subrange(0, i),
        });
        assert(match first_of(pair@, '=') {
            None => key@ =~= spec_kv(pair@).0 && value@ =~= spec_kv(pair@).1,
            Some(i) => key@ =~= spec_kv(pair@).0 && value@ =~= spec_kv(pair@).1,
        });
    }
    if eq_str(key, "v") {
        Some(String::from_str(value))
    } else {
        match next {
            None => None,
            Some(rest) => query_v(rest),
        }
    }
}

/// A host with no separator characters, as written in an ordinary URL.
pub open spec fn plain_host(host: Seq<char>) -> bool {
    forall|j: int|
        0 <= j < host.len() ==> #[trigger] host[j] != '/' && host[j] != '?' && host[j] != ':'
}

/// An id as it stands in a path segment: free of the path and query
/// separators.
pub open spec fn plain_segment(s: Seq<char>) -> bool {
    forall|j: int| 0 <= j < s.len() ==> #[trigger] s[j] != '/' && s[j] != '?'
}

/// An id as it stands in a query value: additionally free of the pair and
/// key separators.
pub open spec fn plain_param_value(s: Seq<char>) -> bool {
    plain_segment(s) && forall|j: int|
        0 <= j < s.len() ==> #[trigger] s[j] != '&' && s[j] != '='
}

/// A query suffix: absent, or introduced by `?`.
pub open spec fn query_suffix(q: Seq<char>) -> bool {
    q.len() == 0 || q[0] == '?'
}

/// Extra query pairs behind a first parameter: absent, or introduced by
/// `&`.
pub open spec fn extra_params(e: Seq<char>) -> bool {
    e.len() == 0 || e[0] == '&'
}

/// Decompose `https://host…`: where the scheme and authority end, and what
/// the host is, for any host free of separator characters followed by
/// nothing, a path or a query.
proof fn lemma_authority(host: Seq<char>, t: Seq<char>)
    requires
        plain_host(host),
        t.len() == 0 || t[0] == '/' || t[0] == '?',
    ensures
        spec_scheme_len("https://"@ + host + t) == Some(8int),
        ("https://"@ + host + t).skip(8) =~= host + t,
        first_sep(host + t) == (if t.len() == 0 {
            None::<int>
        } else {
            Some(host.len() as int)
        }),
        (host + t).subrange(0, host.len() as int) =~= host,
        spec_host_of(host) == host,
        (host + t).skip(host.len() as int) =~= t,
{
    reveal_strlit("https://");
    let url = "https://"@ + host + t;
    assert("https://"@.len() == 8);
    assert(url.subrange(0, 8) =~= "https://"@);
    assert(url.skip(8) =~= host + t);
    let rest = host + t;
    if t.len() == 0 {
        assert(rest =~= host);
        lemma_first_sep_none(host);
    } else {
        assert(rest[host.len() as int] == t[0]);
        lemma_first_sep_at(rest, host.len() as int);
    }
    lemma_first_of_none(host, ':');
}

/// Any URL `https://HOST/KIND/ID` with an optional query, where HOST ends
/// in `youtube.com` or `youtube-nocookie.com` and KIND is one of the
/// two-segment path words, names exactly ID.
pub proof fn lemma_two_segment_shape(
    host: Seq<char>,
    kind: Seq<char>,
    id: Seq<char>,
    q: Seq<char>,
)
    requires
        plain_host(host),
        ends_with_ci(host, "youtube.com"@) || ends_with_ci(host, "youtube-nocookie.com"@),
        is_two_segment_kind(kind),
        plain_segment(id),
        query_suffix(q),
    ensures
        spec_yt_id("https://"@ + host + (seq!['/'] + kind + seq!['/'] + id + q)) == Some(id),
{
    reveal_strlit("watch");
    reveal_strlit("v");
    reveal_strlit("embed");
    reveal_strlit("e");
    reveal_strlit("shorts");
    assert(plain_segment(kind)) by {
        if kind == "watch"@ {
            assert(forall|j: int|
                0 <= j < kind.len() ==> #[trigger] kind[j] != '/' && kind[j] != '?');
        } else if kind == "v"@ {
            assert(forall|j: int|
                0 <= j < kind.len() ==> #[trigger] kind[j] != '/' && kind[j] != '?');
        } else if kind == "embed"@ {
            assert(forall|j: int|
                0 <= j < kind.len() ==> #[trigger] kind[j] != '/' && kind[j] != '?');
        } else if kind == "e"@ {
            assert(forall|j: int|
                0 <= j < kind.len() ==> #[trigger] kind[j] != '/' && kind[j] != '?');
        } else {
            assert(forall|j: int|
                0 <= j < kind.len() ==> #[trigger] kind[j] != '/' && kind[j] != '?');
        }
    };
    let t = seq!['/'] + kind + seq!['/'] + id + q;
    lemma_authority(host, t);
    let url = "https://"@ + host + t;
    let tail = t;
    let qp: int = 1 + kind.len() as int + 1 + id.len() as int;
    if q.len() == 0 {
        lemma_first_of_none(tail, '?');
        assert(first_of(tail, '?') is None);
        let raw_path = tail;
        assert(raw_path.len() > 0);
        let path = raw_path.skip(1);
        assert(path =~= kind + seq!['/'] + id);
        assert(path[kind.len() as int] == '/');
        lemma_first_of_at(path, '/', kind.len() as int);
        assert(path.subrange(0, kind.len() as int) =~= kind);
        assert(path.skip(kind.len() as int + 1) =~= id);
        lemma_first_of_none(id, '/');
    } else {
        assert(tail[qp] == '?');
        lemma_first_of_at(tail, '?', qp);
        let raw_path = tail.subrange(0, qp);
        assert(raw_path =~= seq!['/'] + kind + seq!['/'] + id);
        assert(raw_path.len() > 0);
        let path = raw_path.skip(1);
        assert(path =~= kind + seq!['/'] + id);
        assert(path[kind.len() as int] == '/');
        lemma_first_of_at(path, '/', kind.len() as int);
        assert(path.subrange(0, kind.len() as int) =~= kind);
        assert(path.skip(kind.len() as int + 1) =~= id);
        lemma_first_of_none(id, '/');
    }
}

/// Any URL `https://HOST/watch?v=ID` with arbitrary extra query parameters,
/// where HOST ends in `youtube.com` or `youtube-nocookie.com`, names
/// exactly ID.
pub proof fn lemma_watch_shape(host: Seq<char>, id: Seq<char>, extra: Seq<char>)
    requires
        plain_host(host),
        ends_with_ci(host, "youtube.com"@) || ends_with_ci(host, "youtube-nocookie.com"@),
        plain_param_value(id),
        extra_params(extra),
    ensures
        spec_yt_id(
            "https://"@ + host + (seq!['/'] + "watch"@ + seq!['?', 'v', '='] + id + extra),
        ) == Some(id),
{
    reveal_strlit("watch");
    reveal_strlit("v");
    assert("watch"@.len() == 5);
    let t = seq!['/'] + "watch"@ + seq!['?', 'v', '='] + id + extra;
    lemma_authority(host, t);
    let tail = t;
    assert(tail[6] == '?');
    assert(forall|j: int| 0 <= j < 6 ==> #[trigger] tail[j] != '?');
    lemma_first_of_at(tail, '?', 6);
    let raw_path = tail.subrange(0, 6);
    assert(raw_path =~= seq!['/'] + "watch"@);
    let path = raw_path.skip(1);
    assert(path =~= "watch"@);
    lemma_first_of_none(path, '/');
    let query = tail.skip(7);
    assert(query =~= seq!['v', '='] + id + extra);
    if extra.len() == 0 {
        lemma_first_of_none(query, '&');
        assert(query[1] == '=');
        lemma_first_of_at(query, '=', 1);
        assert(spec_kv(query).0 =~= seq!['v']);
        assert(seq!['v'] =~= "v"@);
        assert(spec_kv(query).1 =~= id);
    } else {
        let ap: int = 2 + id.len() as int;
        assert(query[ap] == '&');
        lemma_first_of_at(query, '&', ap);
        let pair = query.subrange(0, ap);
        assert(pair =~= seq!['v', '='] + id);
        assert(pair[1] == '=');
        lemma_first_of_at(pair, '=', 1);
        assert(spec_kv(pair).0 =~= seq!['v']);
        assert(seq!['v'] =~= "v"@);
        assert(spec_kv(pair).1 =~= id);
    }
}

/// Any URL `https://HOST/ID` with an optional query, where HOST ends in
/// `youtu.be`, names exactly ID.
pub proof fn lemma_short_link_shape(host: Seq<char>, id: Seq<char>, q: Seq<char>)
    requires
        plain_host(host),
        ends_with_ci(host, "youtu.be"@),
        plain_segment(id),
        query_suffix(q),
    ensures
        spec_yt_id("https://"@ + host + (seq!['/'] + id + q)) == Some(id),
{
    reveal_strlit("youtu.be");
    reveal_strlit("youtube.com");
    reveal_strlit("youtube-nocookie.com");
    assert(!ends_with_ci(host, "youtube.com"@) && !ends_with_ci(host, "youtube-nocookie.com"@))
        by {
        assert(lower_code(host[host.len() - 1]) == lower_code('e')) by {
            assert(lower_code(host.skip(host.len() - 8)[7]) == lower_code("youtu.be"@[7]));
            assert(host.skip(host.len() - 8)[7] == host[host.len() - 1]);
            assert("youtu.be"@[7] == 'e');
        };
        if ends_with_ci(host, "youtube.com"@) {
            assert(lower_code(host[host.len() - 1]) == lower_code('m')) by {
                assert(lower_code(host.skip(host.len() - 11)[10]) == lower_code(
                    "youtube.com"@[10],
                ));
                assert(host.skip(host.len() - 11)[10] == host[host.len() - 1]);
                assert("youtube.com"@[10] == 'm');
            };
        }
        if ends_with_ci(host, "youtube-nocookie.com"@) {
            assert(lower_code(host[host.len() - 1]) == lower_code('m')) by {
                assert(lower_code(host.skip(host.len() - 20)[19]) == lower_code(
                    "youtube-nocookie.com"@[19],
                ));
                assert(host.skip(host.len() - 20)[19] == host[host.len() - 1]);
                assert("youtube-nocookie.com"@[19] == 'm');
            };
        }
    };
    let t = seq!['/'] + id + q;
    lemma_authority(host, t);
    let tail = t;
    if q.len() == 0 {
        lemma_first_of_none(tail, '?');
        let path = tail.skip(1);
        assert(path =~= id);
        lemma_first_of_none(id, '/');
    } else {
        let qp: int = 1 + id.len() as int;
        assert(tail[qp] == '?');
        lemma_first_of_at(tail, '?', qp);
        let raw_path = tail.subrange(0, qp);
        assert(raw_path =~= seq!['/'] + id);
        let path = raw_path.skip(1);
        assert(path =~= id);
        lemma_first_of_none(id, '/');
    }
}

/// A URL on any other host is rejected, whatever its path and query.
pub proof fn lemma_foreign_host_rejected(host: Seq<char>, t: Seq<char>)
    requires
        plain_host(host),
        t.len() == 0 || t[0] == '/' || t[0] == '?',
        !ends_with_ci(host, "youtube.com"@),
        !ends_with_ci(host, "youtube-nocookie.com"@),
        !ends_with_ci(host, "youtu.be"@),
    ensures
        spec_yt_id("https://"@ + host + t) is None,
{
    lemma_authority(host, t);
}

impl VideoRequest {
    /// Extract the video id from a YouTube URL, or reject the URL as an
    /// unknown kind. Accepts exactly the URLs for which `spec_yt_id` names
    /// an id, and returns exactly that id.
    pub fn from_yt_url(youtube_url: &str) -> (r: Result<VideoRequest, UrlParseError>)
        ensures
            match spec_yt_id(youtube_url@) {
                Some(id) => r matches Ok(v) && v@ == id,
                None => r == Err::<VideoRequest, UrlParseError>(UrlParseError::UnknownUrlKind),
            },
    {
        let s = youtube_url;
        let len = s.unicode_len();
        proof {
            reveal_strlit("https://");
            reveal_strlit("http://");
        }
        let n: usize = if has_prefix_ci(s, "https://") {
            8
        } else if has_prefix_ci(s, "http://") {
            7
        } else {
            return Err(UrlParseError::UnknownUrlKind);
        };
        let rest = s.substring_char(n, len);
        let rlen = rest.unicode_len();
        let ae = match find_sep(rest) {
            None => rlen,
            Some(i) => i,
        };
        let auth = rest.substring_char(0, ae);
        let alen = auth.unicode_len();
        let host = match find_char(auth, ':') {
            None => auth.substring_char(0, alen),
            Some(i) => auth.substring_char(0, i),
        };
        let tail = rest.substring_char(ae, rlen);
        let tlen = tail.unicode_len();
        let (raw_path, query) = match find_char(tail, '?') {
            None => (tail.substring_char(0, tlen), tail.substring_char(tlen, tlen)),
            Some(i) => (tail.substring_char(0, i), tail.substring_char(i + 1, tlen)),
        };
        let rplen = raw_path.unicode_len();
        let path = if rplen == 0 {
            raw_path.substring_char(0, 0)
        } else {
            raw_path.substring_char(1, rplen)
        };
        proof {
            assert(rest@ =~= s@.skip(n as int));
            let spec_ae: int = match first_sep(rest@) {
                None => rest@.len() as int,
                Some(i) => i,
            };
            assert(ae == spec_ae);
            assert(auth@ =~= rest@.subrange(0, spec_ae));
            assert(host@ =~= spec_host_of(auth@));
            assert(tail@ =~= rest@.skip(spec_ae));
            assert(match first_of(tail@, '?') {
                None => raw_path@ =~= tail@ && query@ =~= Seq::<char>::empty(),
                Some(i) => raw_path@ =~= tail@.subrange(0, i) && query@ =~= tail@.skip(i + 1),
            });
            assert(path@ =~= (if raw_path@.len() == 0 {
                Seq::<char>::empty()
            } else {
                raw_path@.skip(1)
            }));
            reveal_strlit("youtube.com");
            reveal_strlit("youtube-nocookie.com");
            reveal_strlit("youtu.be");
            reveal_strlit("watch");
            reveal_strlit("v");
            reveal_strlit("embed");
            reveal_strlit("e");
            reveal_strlit("shorts");
        }
        if has_suffix_ci(host, "youtube.com") || has_suffix_ci(host, "youtube-nocookie.com") {
            let plen = path.unicode_len();
            match find_char(path, '/') {
                None => {
                    if eq_str(path, "watch") {
                        match query_v(query) {
                            Some(v) => Ok(VideoRequest { youtube_id: v }),
                            None => Err(UrlParseError::UnknownUrlKind),
                        }
                    } else {
                        Err(UrlParseError::UnknownUrlKind)
                    }
                },
                Some(i) => {
                    let seg0 = path.substring_char(0, i);
                    let seg1 = path.substring_char(i + 1, plen);
                    proof {
                        assert(seg0@ =~= path@.subrange(0, i as int));
                        assert(seg1@ =~= path@.skip(i as int + 1));
                    }
                    let second_has_slash = match find_char(seg1, '/') {
                        Some(_) => true,
                        None => false,
                    };
                    let kind_ok = eq_str(seg0, "watch") || eq_str(seg0, "v") || eq_str(
                        seg0,
                        "embed",
                    ) || eq_str(seg0, "e") || eq_str(seg0, "shorts");
                    if !second_has_slash && kind_ok {
                        Ok(VideoRequest { youtube_id: String::from_str(seg1) })
                    } else {
                        Err(UrlParseError::UnknownUrlKind)
                    }
                },
            }
        } else if has_suffix_ci(host, "youtu.be") {
            let second_has_slash = match find_char(path, '/') {
                Some(_) => true,
                None => false,
            };
            if !second_has_slash {
                Ok(VideoRequest { youtube_id: String::from_str(path) })
            } else {
                Err(UrlParseError::UnknownUrlKind)
            }
        } else {
            Err(UrlParseError::UnknownUrlKind)
        }
    }
}

} // verus!
