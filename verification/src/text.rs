//! Character-level helpers shared by the rest of the library: whitespace
//! trimming, ASCII case folding, substring search and number formatting,
//! each stated over the `Seq<char>` view of a string.

use vstd::prelude::*;

verus! {

// ---------------------------------------------------------------------------
// Building strings
// ---------------------------------------------------------------------------

/// Appends one character to a string (std `String::push`, which the std
/// documentation describes as appending the given char to the end).
#[verifier::external_body]
pub(crate) fn push_char(s: &mut String, c: char)
    ensures
        final(s)@ == old(s)@.push(c),
{
    s.push(c);
}

/// The characters of a string slice, in order.
pub fn chars_of(s: &str) -> (v: Vec<char>)
    ensures
        v@ == s@,
{
    let mut v: Vec<char> = Vec::new();
    for c in it: s.chars()
        invariant
            v@ == it.seq().take(it.index()),
    {
        v.push(c);
    }
    v
}

/// The string made of `v[lo..hi]`.
pub fn string_from_range(v: &Vec<char>, lo: usize, hi: usize) -> (s: String)
    requires
        lo <= hi <= v@.len(),
    ensures
        s@ == v@.subrange(lo as int, hi as int),
{
    let mut s = String::new();
    let mut i = lo;
    while i < hi
        invariant
            lo <= i <= hi <= v@.len(),
            s@ == v@.subrange(lo as int, i as int),
        decreases hi - i,
    {
        push_char(&mut s, v[i]);
        assert(v@.subrange(lo as int, i + 1) == v@.subrange(lo as int, i as int).push(v@[i as int]));
        i = i + 1;
    }
    s
}

/// The string made of all characters of `v`.
pub fn string_from_chars(v: &Vec<char>) -> (s: String)
    ensures
        s@ == v@,
{
    let s = string_from_range(v, 0, v.len());
    assert(v@.subrange(0, v@.len() as int) == v@);
    s
}

/// `a` followed by `b`.
pub fn concat(a: &str, b: &str) -> (s: String)
    ensures
        s@ == a@ + b@,
{
    let mut s = String::from_str(a);
    s.append(b);
    s
}

// ---------------------------------------------------------------------------
// Whitespace and trimming
// ---------------------------------------------------------------------------

/// The Unicode `White_Space` property, which std's `char::is_whitespace`
/// and `str::trim` go by.
pub open spec fn is_space(c: char) -> bool {
    ||| ('\t' <= c && c <= '\r')
    ||| c == ' '
    ||| c == '\u{85}'
    ||| c == '\u{a0}'
    ||| c == '\u{1680}'
    ||| ('\u{2000}' <= c && c <= '\u{200a}')
    ||| c == '\u{2028}'
    ||| c == '\u{2029}'
    ||| c == '\u{202f}'
    ||| c == '\u{205f}'
    ||| c == '\u{3000}'
}

/// A line break character: `'\n'` or `'\r'`.
pub open spec fn is_newline(c: char) -> bool {
    c == '\n' || c == '\r'
}

/// Every character of `s` is whitespace (so `s` trims to nothing).
pub open spec fn is_blank(s: Seq<char>) -> bool {
    forall|i: int| 0 <= i < s.len() ==> #[trigger] is_space(s[i])
}

/// `s` without its leading whitespace.
pub open spec fn trim_start(s: Seq<char>) -> Seq<char>
    decreases s.len(),
{
    if s.len() > 0 && is_space(s[0]) {
        trim_start(s.drop_first())
    } else {
        s
    }
}

/// `s` without its trailing whitespace.
pub open spec fn trim_end(s: Seq<char>) -> Seq<char>
    decreases s.len(),
{
    if s.len() > 0 && is_space(s.last()) {
        trim_end(s.drop_last())
    } else {
        s
    }
}

/// `s` without leading and trailing whitespace (std `str::trim`).
pub open spec fn trim(s: Seq<char>) -> Seq<char> {
    trim_end(trim_start(s))
}

/// `s` without its trailing `'\n'` and `'\r'` characters.
pub open spec fn strip_trailing_newlines(s: Seq<char>) -> Seq<char>
    decreases s.len(),
{
    if s.len() > 0 && is_newline(s.last()) {
        strip_trailing_newlines(s.drop_last())
    } else {
        s
    }
}

/// Whether `c` is whitespace (std `char::is_whitespace`).
pub fn is_space_char(c: char) -> (r: bool)
    ensures
        r == is_space(c),
{
    ('\t' <= c && c <= '\r') || c == ' ' || c == '\u{85}' || c == '\u{a0}' || c == '\u{1680}'
        || ('\u{2000}' <= c && c <= '\u{200a}') || c == '\u{2028}' || c == '\u{2029}'
        || c == '\u{202f}' || c == '\u{205f}' || c == '\u{3000}'
}

/// Trimming the start drops exactly the leading run of whitespace.
proof fn lemma_trim_start_at(s: Seq<char>, k: int)
    requires
        0 <= k <= s.len(),
        forall|i: int| 0 <= i < k ==> is_space(#[trigger] s[i]),
        k == s.len() || !is_space(s[k]),
    ensures
        trim_start(s) == s.subrange(k, s.len() as int),
    decreases k,
{
    if k == 0 {
        assert(s.subrange(0, s.len() as int) == s);
    } else {
        let t = s.drop_first();
        assert forall|i: int| 0 <= i < k - 1 implies is_space(#[trigger] t[i]) by {
            assert(t[i] == s[i + 1]);
        }
        lemma_trim_start_at(t, k - 1);
        assert(t.subrange(k - 1, t.len() as int) == s.subrange(k, s.len() as int));
    }
}

/// Trimming the end drops exactly the trailing run of whitespace.
proof fn lemma_trim_end_at(s: Seq<char>, j: int)
    requires
        0 <= j <= s.len(),
        forall|i: int| j <= i < s.len() ==> is_space(#[trigger] s[i]),
        j == 0 || !is_space(s[j - 1]),
    ensures
        trim_end(s) == s.subrange(0, j),
    decreases s.len() - j,
{
    if j == s.len() {
        assert(s.subrange(0, j) == s);
    } else {
        let t = s.drop_last();
        assert forall|i: int| j <= i < t.len() implies is_space(#[trigger] t[i]) by {
            assert(t[i] == s[i]);
        }
        lemma_trim_end_at(t, j);
        assert(t.subrange(0, j) == s.subrange(0, j));
    }
}

/// Stripping line breaks drops exactly the trailing run of them.
proof fn lemma_strip_newlines_at(s: Seq<char>, j: int)
    requires
        0 <= j <= s.len(),
        forall|i: int| j <= i < s.len() ==> is_newline(#[trigger] s[i]),
        j == 0 || !is_newline(s[j - 1]),
    ensures
        strip_trailing_newlines(s) == s.subrange(0, j),
    decreases s.len() - j,
{
    if j == s.len() {
        assert(s.subrange(0, j) == s);
    } else {
        let t = s.drop_last();
        assert forall|i: int| j <= i < t.len() implies is_newline(#[trigger] t[i]) by {
            assert(t[i] == s[i]);
        }
        lemma_strip_newlines_at(t, j);
        assert(t.subrange(0, j) == s.subrange(0, j));
    }
}

/// The bounds `(lo, hi)` of `trim(v)` inside `v`.
pub fn trim_bounds(v: &Vec<char>) -> (r: (usize, usize))
    ensures
        r.0 <= r.1 <= v@.len(),
        trim(v@) == v@.subrange(r.0 as int, r.1 as int),
        trim_start(v@) == v@.subrange(r.0 as int, v@.len() as int),
        forall|i: int| 0 <= i < r.0 ==> is_space(#[trigger] v@[i]),
{
    let n = v.len();
    let mut lo: usize = 0;
    while lo < n && is_space_char(v[lo])
        invariant
            lo <= n == v@.len(),
            forall|i: int| 0 <= i < lo ==> is_space(#[trigger] v@[i]),
        decreases n - lo,
    {
        lo = lo + 1;
    }
    proof {
        lemma_trim_start_at(v@, lo as int);
    }
    let ghost t = v@.subrange(lo as int, n as int);
    let mut hi: usize = n;
    while hi > lo && is_space_char(v[hi - 1])
        invariant
            lo <= hi <= n == v@.len(),
            t == v@.subrange(lo as int, n as int),
            forall|i: int| hi <= i < n ==> is_space(#[trigger] v@[i]),
        decreases hi,
    {
        hi = hi - 1;
    }
    proof {
        assert forall|i: int| hi - lo <= i < t.len() implies is_space(#[trigger] t[i]) by {
            assert(t[i] == v@[lo + i]);
        }
        if hi > lo {
            assert(t[hi - lo - 1] == v@[hi - 1]);
        }
        lemma_trim_end_at(t, hi - lo);
        assert(t.subrange(0, hi - lo) == v@.subrange(lo as int, hi as int));
    }
    (lo, hi)
}

/// `s` with leading and trailing whitespace removed.
pub fn trim_str(s: &str) -> (r: String)
    ensures
        r@ == trim(s@),
{
    let v = chars_of(s);
    let (lo, hi) = trim_bounds(&v);
    string_from_range(&v, lo, hi)
}

/// Whether `s` holds nothing but whitespace.
pub fn is_blank_str(s: &str) -> (r: bool)
    ensures
        r == is_blank(s@),
        r == (trim(s@).len() == 0),
{
    let v = chars_of(s);
    let (lo, hi) = trim_bounds(&v);
    proof {
        if lo == hi {
            assert forall|i: int| 0 <= i < v@.len() implies is_space(#[trigger] v@[i]) by {
                if i >= lo {
                    let ts = v@.subrange(lo as int, v@.len() as int);
                    lemma_trim_end_nonspace(ts, i - lo);
                    assert(ts[i - lo] == v@[i]);
                }
            }
        } else {
            if v@.len() > 0 && lo < v@.len() {
                lemma_trim_start_first(v@, lo as int);
            }
        }
    }
    lo == hi
}

/// When the trimmed text starts at `k`, the character at `k` is no space.
proof fn lemma_trim_start_first(s: Seq<char>, k: int)
    requires
        0 <= k < s.len(),
        trim_start(s) == s.subrange(k, s.len() as int),
        trim_start(s).len() > 0,
    ensures
        !is_space(s[k]),
    decreases s.len(),
{
    lemma_trim_start_head(s);
    assert(trim_start(s)[0] == s[k]);
}

/// A nonempty `trim_start` result starts with a non-space character.
proof fn lemma_trim_start_head(s: Seq<char>)
    ensures
        trim_start(s).len() > 0 ==> !is_space(trim_start(s)[0]),
    decreases s.len(),
{
    if s.len() > 0 && is_space(s[0]) {
        lemma_trim_start_head(s.drop_first());
    }
}

/// If `trim_end(s)` is empty, position `i` of `s` is whitespace.
proof fn lemma_trim_end_nonspace(s: Seq<char>, i: int)
    requires
        0 <= i < s.len(),
        trim_end(s).len() == 0,
    ensures
        is_space(s[i]),
    decreases s.len(),
{
    if s.len() > 0 && is_space(s.last()) {
        if i < s.len() - 1 {
            lemma_trim_end_nonspace(s.drop_last(), i);
        }
    }
}

/// `s` without its trailing line breaks (`'\n'` and `'\r'`); other
/// trailing whitespace is kept.
pub fn trim_trailing_newlines(s: String) -> (r: String)
    ensures
        r@ == strip_trailing_newlines(s@),
{
    let v = chars_of(s.as_str());
    let mut hi = v.len();
    while hi > 0 && (v[hi - 1] == '\n' || v[hi - 1] == '\r')
        invariant
            hi <= v@.len(),
            forall|i: int| hi <= i < v@.len() ==> is_newline(#[trigger] v@[i]),
        decreases hi,
    {
        hi = hi - 1;
    }
    proof {
        lemma_strip_newlines_at(v@, hi as int);
    }
    string_from_range(&v, 0, hi)
}

// ---------------------------------------------------------------------------
// ASCII case folding and substring search
// ---------------------------------------------------------------------------

/// `c` with an ASCII upper-case letter mapped to its lower-case form.
pub open spec fn ascii_lower(c: char) -> char {
    if 'A' <= c && c <= 'Z' {
        ((c as u32) + 32) as char
    } else {
        c
    }
}

/// `s` with every ASCII upper-case letter mapped to lower case.
pub open spec fn lower_seq(s: Seq<char>) -> Seq<char> {
    s.map_values(|c: char| ascii_lower(c))
}

/// `p` occurs in `s` starting at position `i`.
pub open spec fn occurs_at(s: Seq<char>, p: Seq<char>, i: int) -> bool {
    0 <= i && i + p.len() <= s.len() && s.subrange(i, i + p.len()) == p
}

/// `p` occurs somewhere in `s`.
pub open spec fn contains_seq(s: Seq<char>, p: Seq<char>) -> bool {
    exists|i: int| occurs_at(s, p, i)
}

/// `c` lower-cased if it is an ASCII capital.
pub fn ascii_lower_char(c: char) -> (r: char)
    ensures
        r == ascii_lower(c),
{
    if 'A' <= c && c <= 'Z' {
        let b: u8 = (c as u8) + 32;
        b as char
    } else {
        c
    }
}

/// Whether the ASCII-lower-cased `hay` contains `pat`.
pub fn contains_lowered(hay: &Vec<char>, pat: &Vec<char>) -> (r: bool)
    ensures
        r == contains_seq(lower_seq(hay@), pat@),
{
    let n = hay.len();
    let m = pat.len();
    let ghost low = lower_seq(hay@);
    if m > n {
        proof {
            assert forall|i: int| !occurs_at(low, pat@, i) by {}
        }
        return false;
    }
    let mut i: usize = 0;
    while i <= n - m
        invariant
            m <= n == hay@.len(),
            m == pat@.len(),
            low == lower_seq(hay@),
            forall|k: int| 0 <= k < i ==> !occurs_at(low, pat@, k),
        decreases n - m + 1 - i,
    {
        let mut j: usize = 0;
        let mut ok = true;
        while j < m
            invariant
                m <= n == hay@.len(),
                m == pat@.len(),
                i <= n - m,
                low == lower_seq(hay@),
                j <= m,
                ok == (forall|k: int| 0 <= k < j ==> low[i + k] == pat@[k]),
            decreases m - j,
        {
            let c = ascii_lower_char(hay[i + j]);
            if c != pat[j] {
                ok = false;
            }
            j = j + 1;
        }
        if ok {
            proof {
                assert(low.subrange(i as int, i + m) == pat@);
                assert(occurs_at(low, pat@, i as int));
            }
            return true;
        }
        proof {
            assert(!occurs_at(low, pat@, i as int)) by {
                if low.subrange(i as int, i + m) == pat@ {
                    let k = choose|k: int| 0 <= k < m && low[i + k] != pat@[k];
                    assert(low.subrange(i as int, i + m)[k] == low[i + k]);
                }
            }
        }
        i = i + 1;
    }
    proof {
        assert forall|k: int| !occurs_at(low, pat@, k) by {
            if 0 <= k && k + m <= n {
                assert(k < i);
            }
        }
    }
    false
}

// ---------------------------------------------------------------------------
// Number formatting
// ---------------------------------------------------------------------------

/// The character of digit `d` (`0`-`9`, then `A`-`F`).
pub open spec fn digit_char(d: nat) -> char {
    if d == 0 {
        '0'
    } else if d == 1 {
        '1'
    } else if d == 2 {
        '2'
    } else if d == 3 {
        '3'
    } else if d == 4 {
        '4'
    } else if d == 5 {
        '5'
    } else if d == 6 {
        '6'
    } else if d == 7 {
        '7'
    } else if d == 8 {
        '8'
    } else if d == 9 {
        '9'
    } else if d == 10 {
        'A'
    } else if d == 11 {
        'B'
    } else if d == 12 {
        'C'
    } else if d == 13 {
        'D'
    } else if d == 14 {
        'E'
    } else {
        'F'
    }
}

/// The decimal digits of `n`, most significant first, with no leading
/// zeros (`"0"` for zero).
pub open spec fn decimal(n: nat) -> Seq<char>
    decreases n,
{
    if n < 10 {
        seq![digit_char(n)]
    } else {
        decimal(n / 10).push(digit_char(n % 10))
    }
}

/// The upper-case hexadecimal digits of `n`, most significant first, with
/// no leading zeros (`"0"` for zero).
pub open spec fn hex(n: nat) -> Seq<char>
    decreases n,
{
    if n < 16 {
        seq![digit_char(n)]
    } else {
        hex(n / 16).push(digit_char(n % 16))
    }
}

/// `s` padded on the left with `'0'` up to `width` characters.
pub open spec fn zero_pad(s: Seq<char>, width: nat) -> Seq<char> {
    if s.len() < width {
        Seq::new((width - s.len()) as nat, |i: int| '0') + s
    } else {
        s
    }
}

/// The digit character for `d` (`0`-`9`, then `A`-`F`).
fn digit(d: u64) -> (c: char)
    requires
        d < 16,
    ensures
        c == digit_char(d as nat),
{
    if d == 0 {
        '0'
    } else if d == 1 {
        '1'
    } else if d == 2 {
        '2'
    } else if d == 3 {
        '3'
    } else if d == 4 {
        '4'
    } else if d == 5 {
        '5'
    } else if d == 6 {
        '6'
    } else if d == 7 {
        '7'
    } else if d == 8 {
        '8'
    } else if d == 9 {
        '9'
    } else if d == 10 {
        'A'
    } else if d == 11 {
        'B'
    } else if d == 12 {
        'C'
    } else if d == 13 {
        'D'
    } else if d == 14 {
        'E'
    } else {
        'F'
    }
}

/// Appends the decimal digits of `n` to `out`.
fn push_decimal(out: &mut String, n: u64)
    ensures
        final(out)@ == old(out)@ + decimal(n as nat),
    decreases n,
{
    if n >= 10 {
        push_decimal(out, n / 10);
    }
    push_char(out, digit(n % 10));
    proof {
        if n < 10 {
            assert(decimal(n as nat) == seq![digit_char(n as nat)]);
        }
    }
}

/// Appends the hexadecimal digits of `n` to `out`.
fn push_hex(out: &mut String, n: u64)
    ensures
        final(out)@ == old(out)@ + hex(n as nat),
    decreases n,
{
    if n >= 16 {
        push_hex(out, n / 16);
    }
    push_char(out, digit(n % 16));
    proof {
        if n < 16 {
            assert(hex(n as nat) == seq![digit_char(n as nat)]);
        }
    }
}

/// The decimal representation of `n`.
pub fn decimal_string(n: u64) -> (s: String)
    ensures
        s@ == decimal(n as nat),
{
    let mut s = String::new();
    push_decimal(&mut s, n);
    s
}

/// The upper-case hexadecimal representation of `n`, zero-padded to at
/// least `width` digits.
pub fn hex_string(n: u64, width: usize) -> (s: String)
    ensures
        s@ == zero_pad(hex(n as nat), width as nat),
{
    let mut body = String::new();
    push_hex(&mut body, n);
    let v = chars_of(body.as_str());
    let mut s = String::new();
    let mut k: usize = v.len();
    while k < width
        invariant
            v@ == hex(n as nat),
            v@.len() <= k,
            k <= width || k == v@.len(),
            s@ == Seq::new((k - v@.len()) as nat, |i: int| '0'),
        decreases width - k,
    {
        push_char(&mut s, '0');
        k = k + 1;
        assert(s@ == Seq::new((k - v@.len()) as nat, |i: int| '0'));
    }
    let ghost pad = s@;
    s.append(body.as_str());
    proof {
        if v@.len() >= width {
            assert(pad == Seq::<char>::empty());
            assert(s@ == hex(n as nat));
        }
    }
    s
}

/// Distinct digits have distinct characters.
proof fn lemma_digit_char_injective(a: nat, b: nat)
    requires
        a < 10,
        b < 10,
        digit_char(a) == digit_char(b),
    ensures
        a == b,
{
    assert(a == 0 || a == 1 || a == 2 || a == 3 || a == 4 || a == 5 || a == 6 || a == 7 || a == 8
        || a == 9);
}

/// Distinct numbers have distinct decimal representations.
pub proof fn lemma_decimal_injective(x: nat, y: nat)
    requires
        decimal(x) == decimal(y),
    ensures
        x == y,
    decreases x + y,
{
    let dx = decimal(x);
    let dy = decimal(y);
    if x < 10 && y < 10 {
        assert(dx[0] == digit_char(x));
        assert(dy[0] == digit_char(y));
        lemma_digit_char_injective(x, y);
    } else if x >= 10 && y >= 10 {
        assert(dx.last() == digit_char(x % 10));
        assert(dy.last() == digit_char(y % 10));
        lemma_digit_char_injective(x % 10, y % 10);
        assert(decimal(x / 10) == dx.drop_last());
        assert(decimal(y / 10) == dy.drop_last());
        lemma_decimal_injective(x / 10, y / 10);
        assert(x == 10 * (x / 10) + x % 10);
        assert(y == 10 * (y / 10) + y % 10);
    } else if x < 10 {
        lemma_decimal_nonempty(y / 10);
        assert(dx.len() == 1);
        assert(dy.len() == decimal(y / 10).len() + 1);
    } else {
        lemma_decimal_nonempty(x / 10);
        assert(dy.len() == 1);
        assert(dx.len() == decimal(x / 10).len() + 1);
    }
}

/// A decimal numeral has at least one digit.
pub(crate) proof fn lemma_decimal_nonempty(n: nat)
    ensures
        decimal(n).len() >= 1,
    decreases n,
{
    if n >= 10 {
        lemma_decimal_nonempty(n / 10);
    }
}

// ---------------------------------------------------------------------------
// Decoding bytes
// ---------------------------------------------------------------------------

/// What std's `String::from_utf8_lossy` makes of `bytes`.
pub uninterp spec fn utf8_lossy(bytes: Seq<u8>) -> Seq<char>;

/// Decodes bytes as UTF-8, replacing invalid sequences (std
/// `String::from_utf8_lossy`). Its documentation says valid UTF-8 is decoded
/// unchanged; that is stated. How invalid sequences are replaced by U+FFFD is
/// left to the name `utf8_lossy`.
#[verifier::external_body]
pub(crate) fn decode_lossy(bytes: &[u8]) -> (r: String)
    ensures
        r@ == utf8_lossy(bytes@),
        vstd::utf8::valid_utf8(bytes@) ==> r@ == vstd::utf8::decode_utf8(bytes@),
{
    String::from_utf8_lossy(bytes).into_owned()
}

// ---------------------------------------------------------------------------
// Character escapes
// ---------------------------------------------------------------------------

/// What std's `Debug` formatting of a `char` writes: the character in
/// single quotes, escaped where needed.
pub uninterp spec fn char_debug_text(c: char) -> Seq<char>;

/// The `Debug` text of `c` (std `<char as Debug>::fmt`). Only its name is
/// stated: the escaping rules are std's.
#[verifier::external_body]
pub(crate) fn char_debug(c: char) -> (r: String)
    ensures
        r@ == char_debug_text(c),
{
    format!("{c:?}")
}

// ---------------------------------------------------------------------------
// Laws of trimming
// ---------------------------------------------------------------------------

/// Removing trailing line breaks keeps a prefix of the text, removes only
/// `'\n'` and `'\r'` characters, and leaves no line break at the end; so
/// other trailing whitespace is kept.
pub proof fn lemma_strip_trailing_newlines(s: Seq<char>)
    ensures
        ({
            let r = strip_trailing_newlines(s);
            &&& r.len() <= s.len()
            &&& r == s.take(r.len() as int)
            &&& r.len() == 0 || !is_newline(r.last())
            &&& forall|i: int| r.len() <= i < s.len() ==> is_newline(#[trigger] s[i])
        }),
    decreases s.len(),
{
    if s.len() > 0 && is_newline(s.last()) {
        let t = s.drop_last();
        lemma_strip_trailing_newlines(t);
        let r = strip_trailing_newlines(t);
        assert(t.take(r.len() as int) == s.take(r.len() as int));
        assert forall|i: int| r.len() <= i < s.len() implies is_newline(#[trigger] s[i]) by {
            if i < t.len() {
                assert(t[i] == s[i]);
            }
        }
    } else {
        assert(s.take(s.len() as int) == s);
    }
}

/// Removing trailing line breaks twice is the same as once.
pub proof fn lemma_strip_trailing_newlines_idempotent(s: Seq<char>)
    ensures
        strip_trailing_newlines(strip_trailing_newlines(s)) == strip_trailing_newlines(s),
{
    lemma_strip_trailing_newlines(s);
}

/// ASCII lower-casing keeps the length.
pub proof fn lemma_lower_len(s: Seq<char>)
    ensures
        lower_seq(s).len() == s.len(),
{
}

} // verus!
