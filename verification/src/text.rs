//! Text helpers: decimal rendering, whitespace trimming, percent-encoding and
//! the few standard-library string operations the library relies on.

use vstd::prelude::*;
use vstd::utf8::*;
use vstd::string::StringSliceAdditionalSpecFns;

verus! {

// ---------------------------------------------------------------------------
// Standard-library string operations.

/// The characters of `s`, in order.
pub(crate) fn chars_of(s: &str) -> (r: Vec<char>)
    ensures
        r@ == s@,
{
    broadcast use vstd::string::axiom_spec_iter, vstd::string::next_postcondition;

    let mut out: Vec<char> = Vec::new();
    for c in it: s.chars()
        invariant
            out@ == it.seq().take(it.index() as int),
            it.seq() == s@,
    {
        out.push(c);
        assert(out@ =~= it.seq().take(it.index() as int + 1));
    }
    assert(out@ =~= s@);
    out
}

/// A `String` holding exactly the characters of `v` (std's `FromIterator<char>`).
#[verifier::external_body]
pub(crate) fn string_from_chars(v: &Vec<char>) -> (r: String)
    ensures
        r@ == v@,
{
    v.iter().collect()
}

/// Whether two string slices hold the same characters.
pub(crate) fn str_eq(a: &str, b: &str) -> (r: bool)
    ensures
        r == (a@ == b@),
{
    let x = chars_of(a);
    let y = chars_of(b);
    if x.len() != y.len() {
        return false;
    }
    let n = x.len();
    let mut i: usize = 0;
    while i < n
        invariant
            0 <= i <= n,
            n == x@.len(),
            n == y@.len(),
            x@ == a@,
            y@ == b@,
            forall|j: int| 0 <= j < i ==> #[trigger] x@[j] == y@[j],
        decreases n - i,
    {
        if x[i] != y[i] {
            assert(a@[i as int] != b@[i as int]);
            return false;
        }
        i = i + 1;
    }
    assert(x@ =~= y@);
    true
}

/// The UTF-8 bytes of a string.
pub(crate) fn string_into_bytes(s: String) -> (r: Vec<u8>)
    ensures
        r@ == encode_utf8(s@),
{
    let b = s.as_str().as_bytes();
    let mut out: Vec<u8> = Vec::new();
    let n = b.len();
    let mut i: usize = 0;
    while i < n
        invariant
            0 <= i <= n,
            n == b@.len(),
            b@ == encode_utf8(s@),
            out@ == b@.subrange(0, i as int),
        decreases n - i,
    {
        out.push(b[i]);
        i = i + 1;
        assert(out@ =~= b@.subrange(0, i as int));
    }
    assert(out@ =~= b@);
    out
}

/// Whether `c` has the Unicode `White_Space` property, the test of std's
/// `char::is_whitespace`: tab through carriage return, space, U+0085,
/// U+00A0, U+1680, U+2000 through U+200A, U+2028, U+2029, U+202F, U+205F
/// and U+3000.
pub open spec fn is_white_space(c: char) -> bool {
    ||| c == ' '
    ||| ('\t' <= c && c <= '\r')
    ||| c == '\u{85}'
    ||| c == '\u{a0}'
    ||| c == '\u{1680}'
    ||| ('\u{2000}' <= c && c <= '\u{200a}')
    ||| c == '\u{2028}'
    ||| c == '\u{2029}'
    ||| c == '\u{202f}'
    ||| c == '\u{205f}'
    ||| c == '\u{3000}'
}

/// Whether `c` is whitespace, as std's `char::is_whitespace` decides.
pub(crate) fn char_is_whitespace(c: char) -> (r: bool)
    ensures
        r == is_white_space(c),
{
    c == ' ' || ('\t' <= c && c <= '\r') || c == '\u{85}' || c == '\u{a0}' || c == '\u{1680}'
        || ('\u{2000}' <= c && c <= '\u{200a}') || c == '\u{2028}' || c == '\u{2029}'
        || c == '\u{202f}' || c == '\u{205f}' || c == '\u{3000}'
}

/// The lowercase form of a string, as std's `str::to_lowercase` computes it
/// (Unicode case mapping, context-sensitive for final sigma).
pub uninterp spec fn lowercase(s: Seq<char>) -> Seq<char>;

/// Whether every character of `s` is ASCII.
pub open spec fn all_ascii(s: Seq<char>) -> bool {
    forall|i: int| 0 <= i < s.len() ==> (#[trigger] s[i] as u32) < 128
}

/// ASCII lowercasing of one character: `A`-`Z` become `a`-`z`, every other
/// character stays.
pub open spec fn ascii_lower(c: char) -> char {
    if 'A' <= c && c <= 'Z' {
        ((c as u32) + 32) as char
    } else {
        c
    }
}

/// The lowercase form of `s`: character by character for ASCII text, and
/// the name [`lowercase`] otherwise.
pub open spec fn lowered(s: Seq<char>) -> Seq<char> {
    if all_ascii(s) {
        Seq::new(s.len(), |i: int| ascii_lower(s[i]))
    } else {
        lowercase(s)
    }
}

/// std's `str::to_lowercase`. Its documentation maps each character by
/// Unicode case rules, which for ASCII text is `A`-`Z` to `a`-`z` with every
/// other character kept; that is stated. For other text the result is the
/// name [`lowercase`] applied to the input; the Unicode mapping itself is not
/// restated.
#[verifier::external_body]
pub(crate) fn to_lowercase(s: &str) -> (r: String)
    ensures
        r@ == lowered(s@),
        !all_ascii(s@) ==> r@ == lowercase(s@),
{
    s.to_lowercase()
}

/// The characters that std's `String::from_utf8_lossy` yields for `bytes`:
/// valid UTF-8 sequences decoded, invalid ones replaced by U+FFFD.
pub uninterp spec fn lossy_utf8(bytes: Seq<u8>) -> Seq<char>;

/// std's `String::from_utf8_lossy`, owned. Its documentation states that
/// valid UTF-8 input is decoded unchanged; that is the one fact stated
/// beside the name [`lossy_utf8`].
#[verifier::external_body]
pub(crate) fn utf8_lossy(bytes: &[u8]) -> (r: String)
    ensures
        r@ == lossy_utf8(bytes@),
        valid_utf8(bytes@) ==> r@ == decode_utf8(bytes@),
{
    String::from_utf8_lossy(bytes).into_owned()
}

// ---------------------------------------------------------------------------
// Decimal rendering.

pub open spec fn digit_char(d: nat) -> char {
    (48 + d) as char
}

/// Decimal digits of `n`, most significant first, no leading zeros.
pub open spec fn decimal(n: nat) -> Seq<char>
    decreases n,
{
    if n < 10 {
        seq![digit_char(n)]
    } else {
        decimal(n / 10).push(digit_char(n % 10))
    }
}

/// Decimal rendering of a signed integer (a leading `-` for negatives).
pub open spec fn signed_decimal(n: int) -> Seq<char> {
    if n < 0 {
        seq!['-'] + decimal((-n) as nat)
    } else {
        decimal(n as nat)
    }
}

fn push_decimal(out: &mut Vec<char>, n: u128)
    ensures
        final(out)@ == old(out)@ + decimal(n as nat),
    decreases n,
{
    if n >= 10 {
        push_decimal(out, n / 10);
    }
    let d: u8 = (n % 10) as u8;
    let c: char = (48u8 + d) as char;
    out.push(c);
    proof {
        assert(decimal(n as nat) == if n < 10 {
            seq![digit_char(n as nat)]
        } else {
            decimal((n / 10) as nat).push(digit_char((n % 10) as nat))
        });
    }
}

/// `n.to_string()` for unsigned integers.
pub fn u64_to_string(n: u64) -> (r: String)
    ensures
        r@ == decimal(n as nat),
{
    let mut v: Vec<char> = Vec::new();
    push_decimal(&mut v, n as u128);
    string_from_chars(&v)
}

/// `n.to_string()` for signed integers.
pub fn i128_to_string(n: i128) -> (r: String)
    ensures
        r@ == signed_decimal(n as int),
{
    let mut v: Vec<char> = Vec::new();
    if n < 0 {
        v.push('-');
        let m: u128 = if n == i128::MIN {
            0x8000_0000_0000_0000_0000_0000_0000_0000u128
        } else {
            (-n) as u128
        };
        push_decimal(&mut v, m);
    } else {
        push_decimal(&mut v, n as u128);
    }
    string_from_chars(&v)
}

// ---------------------------------------------------------------------------
// Trimming.

/// `s` without its leading characters that satisfy `p`.
pub open spec fn strip_start(s: Seq<char>, p: spec_fn(char) -> bool) -> Seq<char>
    decreases s.len(),
{
    if s.len() > 0 && p(s[0]) {
        strip_start(s.drop_first(), p)
    } else {
        s
    }
}

/// `s` without its trailing characters that satisfy `p`.
pub open spec fn strip_end(s: Seq<char>, p: spec_fn(char) -> bool) -> Seq<char>
    decreases s.len(),
{
    if s.len() > 0 && p(s.last()) {
        strip_end(s.drop_last(), p)
    } else {
        s
    }
}

/// `s` without leading and trailing characters that satisfy `p`.
pub open spec fn strip_both(s: Seq<char>, p: spec_fn(char) -> bool) -> Seq<char> {
    strip_end(strip_start(s, p), p)
}

pub open spec fn ws() -> spec_fn(char) -> bool {
    |c: char| is_white_space(c)
}

pub open spec fn is_char(x: char) -> spec_fn(char) -> bool {
    |c: char| c == x
}

proof fn lemma_strip_start_skip(s: Seq<char>, p: spec_fn(char) -> bool, i: int)
    requires
        0 <= i <= s.len(),
        forall|k: int| 0 <= k < i ==> #[trigger] p(s[k]),
    ensures
        strip_start(s, p) == strip_start(s.subrange(i, s.len() as int), p),
    decreases i,
{
    if i > 0 {
        assert(s.drop_first() == s.subrange(1, s.len() as int));
        lemma_strip_start_skip(s.drop_first(), p, i - 1);
        assert(s.drop_first().subrange(i - 1, s.drop_first().len() as int) == s.subrange(
            i,
            s.len() as int,
        ));
    } else {
        assert(s.subrange(0, s.len() as int) == s);
    }
}

proof fn lemma_strip_end_skip(s: Seq<char>, p: spec_fn(char) -> bool, j: int)
    requires
        0 <= j <= s.len(),
        forall|k: int| j <= k < s.len() ==> #[trigger] p(s[k]),
    ensures
        strip_end(s, p) == strip_end(s.subrange(0, j), p),
    decreases s.len() - j,
{
    if j < s.len() {
        lemma_strip_end_skip(s.drop_last(), p, j);
        assert(s.drop_last().subrange(0, j) == s.subrange(0, j));
    } else {
        assert(s.subrange(0, s.len() as int) == s);
    }
}

fn hits(target: Option<char>, c: char) -> (b: bool)
    ensures
        b == (match target {
            Some(x) => is_char(x),
            None => ws(),
        })(c),
{
    match target {
        Some(x) => c == x,
        None => char_is_whitespace(c),
    }
}

/// Removes leading and trailing characters of `s` that are `target`, or
/// whitespace when `target` is `None`.
pub fn strip_chars(s: &Vec<char>, target: Option<char>) -> (r: Vec<char>)
    ensures
        r@ == strip_both(
            s@,
            match target {
                Some(x) => is_char(x),
                None => ws(),
            },
        ),
{
    let ghost p = match target {
        Some(x) => is_char(x),
        None => ws(),
    };
    let n = s.len();
    let mut i: usize = 0;
    while i < n && hits(target, s[i])
        invariant
            0 <= i <= n,
            n == s@.len(),
            p == (match target {
                Some(x) => is_char(x),
                None => ws(),
            }),
            forall|k: int| 0 <= k < i ==> #[trigger] p(s@[k]),
        decreases n - i,
    {
        i = i + 1;
    }
    proof {
        lemma_strip_start_skip(s@, p, i as int);
    }
    let ghost mid = s@.subrange(i as int, n as int);
    assert(mid.len() > 0 ==> mid[0] == s@[i as int]);
    assert(strip_start(mid, p) == mid);
    let mut j: usize = n;
    while j > i && hits(target, s[j - 1])
        invariant
            i <= j <= n,
            n == s@.len(),
            mid == s@.subrange(i as int, n as int),
            p == (match target {
                Some(x) => is_char(x),
                None => ws(),
            }),
            forall|k: int| j <= k < n ==> #[trigger] p(s@[k]),
        decreases j,
    {
        j = j - 1;
    }
    proof {
        assert forall|k: int| (j - i) <= k < mid.len() implies #[trigger] p(mid[k]) by {
            assert(mid[k] == s@[k + i]);
        }
        lemma_strip_end_skip(mid, p, j - i);
        assert(mid.subrange(0, j - i) == s@.subrange(i as int, j as int));
        if j > i {
            assert(!p(s@[j - 1]));
        }
    }
    let mut r: Vec<char> = Vec::new();
    let mut k: usize = i;
    while k < j
        invariant
            i <= k <= j <= n,
            n == s@.len(),
            r@ == s@.subrange(i as int, k as int),
        decreases j - k,
    {
        r.push(s[k]);
        k = k + 1;
    }
    r
}

/// `s.trim()`: drops leading and trailing Unicode whitespace.
pub fn trim(s: &str) -> (r: String)
    ensures
        r@ == strip_both(s@, ws()),
{
    let v = chars_of(s);
    let t = strip_chars(&v, None);
    string_from_chars(&t)
}

/// `s.trim_start_matches(c)`.
pub fn trim_start_char(s: &str, c: char) -> (r: String)
    ensures
        r@ == strip_start(s@, is_char(c)),
{
    let v = chars_of(s);
    let n = v.len();
    let mut i: usize = 0;
    while i < n && v[i] == c
        invariant
            0 <= i <= n,
            n == v@.len(),
            forall|k: int| 0 <= k < i ==> #[trigger] is_char(c)(v@[k]),
        decreases n - i,
    {
        i = i + 1;
    }
    proof {
        lemma_strip_start_skip(v@, is_char(c), i as int);
    }
    let mut r: Vec<char> = Vec::new();
    let mut k: usize = i;
    while k < n
        invariant
            i <= k <= n,
            n == v@.len(),
            r@ == v@.subrange(i as int, k as int),
        decreases n - k,
    {
        r.push(v[k]);
        k = k + 1;
    }
    string_from_chars(&r)
}

/// `s.trim_end_matches(c)`.
pub fn trim_end_char(s: &str, c: char) -> (r: String)
    ensures
        r@ == strip_end(s@, is_char(c)),
{
    let v = chars_of(s);
    let n = v.len();
    let mut j: usize = n;
    while j > 0 && v[j - 1] == c
        invariant
            j <= n,
            n == v@.len(),
            forall|k: int| j <= k < n ==> #[trigger] is_char(c)(v@[k]),
        decreases j,
    {
        j = j - 1;
    }
    proof {
        lemma_strip_end_skip(v@, is_char(c), j as int);
    }
    let mut r: Vec<char> = Vec::new();
    let mut k: usize = 0;
    while k < j
        invariant
            k <= j <= n,
            n == v@.len(),
            r@ == v@.subrange(0, k as int),
        decreases j - k,
    {
        r.push(v[k]);
        k = k + 1;
    }
    string_from_chars(&r)
}

// ---------------------------------------------------------------------------
// Percent-encoding.

pub open spec fn unreserved_byte(b: u8) -> bool {
    (48 <= b <= 57) || (65 <= b <= 90) || (97 <= b <= 122) || b == 45 || b == 46 || b == 95
        || b == 126
}

pub open spec fn hex_digit(d: u8) -> char {
    if d < 10 {
        (48 + d) as char
    } else {
        (55 + d) as char
    }
}

/// Percent-encoding of one byte: unreserved bytes stand for themselves,
/// every other byte becomes `%` and two uppercase hex digits.
pub open spec fn pct_byte(b: u8) -> Seq<char> {
    if unreserved_byte(b) {
        seq![b as char]
    } else {
        seq!['%', hex_digit(b / 16), hex_digit(b % 16)]
    }
}

pub open spec fn pct_encode(bytes: Seq<u8>) -> Seq<char>
    decreases bytes.len(),
{
    if bytes.len() == 0 {
        seq![]
    } else {
        pct_encode(bytes.drop_last()) + pct_byte(bytes.last())
    }
}

/// `urlencoding::encode`: percent-encodes every UTF-8 byte of `s` except
/// ASCII alphanumerics and `-`, `.`, `_`, `~`, with uppercase hex digits.
#[verifier::external_body]
pub(crate) fn url_encode(s: &str) -> (r: String)
    ensures
        r@ == pct_encode(s.spec_bytes()),
{
    urlencoding::encode(s).into_owned()
}

/// The host that the `url` crate finds in `s`: `None` when `s` does not parse
/// as an absolute URL or the URL has no host.
pub uninterp spec fn url_host(s: Seq<char>) -> Option<Seq<char>>;

/// `url::Url::parse(s)` followed by `host_str()`, owned.
#[verifier::external_body]
pub(crate) fn parse_url_host(s: &str) -> (r: Option<String>)
    ensures
        match r {
            Some(h) => url_host(s@) == Some(h@),
            None => url_host(s@) is None,
        },
{
    match url::Url::parse(s) {
        Ok(u) => match u.host_str() {
            Some(h) => Some(h.to_owned()),
            None => None,
        },
        Err(_) => None,
    }
}

/// The error message of `url::Url::parse(s)`, or `None` when `s` parses.
pub uninterp spec fn url_parse_error(s: Seq<char>) -> Option<Seq<char>>;

/// `url::Url::parse(s)`, keeping only whether it parsed and, when not, the
/// error's display text.
#[verifier::external_body]
pub(crate) fn check_url(s: &str) -> (r: Result<(), String>)
    ensures
        match r {
            Ok(()) => url_parse_error(s@) is None,
            Err(m) => url_parse_error(s@) == Some(m@),
        },
{
    match url::Url::parse(s) {
        Ok(_) => Ok(()),
        Err(e) => Err(e.to_string()),
    }
}

/// The path of the URL that `url::Url::parse` finds in `s`.
pub uninterp spec fn url_path(s: Seq<char>) -> Seq<char>;

/// `url::Url::parse(s)` then `path()`, owned; the parse error's display
/// text when `s` does not parse.
#[verifier::external_body]
pub(crate) fn parsed_url_path(s: &str) -> (r: Result<String, String>)
    ensures
        match r {
            Ok(p) => url_parse_error(s@) is None && p@ == url_path(s@),
            Err(m) => url_parse_error(s@) == Some(m@),
        },
{
    match url::Url::parse(s) {
        Ok(u) => Ok(u.path().to_owned()),
        Err(e) => Err(e.to_string()),
    }
}

/// The serialization of the URL parsed from `s` after `set_path(path)`.
pub uninterp spec fn url_with_path(s: Seq<char>, path: Seq<char>) -> Seq<char>;

/// `url::Url::parse(s)`, then `set_path(path)`, serialized; the parse
/// error's display text when `s` does not parse.
#[verifier::external_body]
pub(crate) fn set_url_path(s: &str, path: &str) -> (r: Result<String, String>)
    ensures
        match r {
            Ok(u) => url_parse_error(s@) is None && u@ == url_with_path(s@, path@),
            Err(m) => url_parse_error(s@) == Some(m@),
        },
{
    match url::Url::parse(s) {
        Ok(mut u) => {
            u.set_path(path);
            Ok(u.to_string())
        },
        Err(e) => Err(e.to_string()),
    }
}

/// The serialization of the URL parsed from `s` after appending `pairs`,
/// in order, to its query with `query_pairs_mut()`.
pub uninterp spec fn url_with_pairs(s: Seq<char>, pairs: Seq<(Seq<char>, Seq<char>)>) -> Seq<char>;

/// `url::Url::parse(s)`, then `query_pairs_mut().extend_pairs(pairs)`,
/// serialized; the parse error's display text when `s` does not parse.
#[verifier::external_body]
pub(crate) fn append_url_pairs(s: &str, pairs: &Vec<(String, String)>) -> (r: Result<String, String>)
    ensures
        match r {
            Ok(u) => url_parse_error(s@) is None && u@ == url_with_pairs(
                s@,
                crate::transport::pairs_view(pairs@),
            ),
            Err(m) => url_parse_error(s@) == Some(m@),
        },
{
    match url::Url::parse(s) {
        Ok(mut u) => {
            u.query_pairs_mut().extend_pairs(pairs.iter());
            Ok(u.to_string())
        },
        Err(e) => Err(e.to_string()),
    }
}

} // verus!
