//! Character-level text helpers shared by the library: decimal formatting and
//! parsing, ASCII case folding, substring search and path-name splitting.
use vstd::prelude::*;

verus! {

// ---------------------------------------------------------------------------
// Conversions between `str` and character vectors
// ---------------------------------------------------------------------------

/// The characters of `s`.
pub fn chars_of(s: &str) -> (r: Vec<char>)
    ensures
        r@ == s@,
{
    let n = s.unicode_len();
    let mut v: Vec<char> = Vec::new();
    let mut i: usize = 0;
    while i < n
        invariant
            n == s@.len(),
            i <= n,
            v@ == s@.subrange(0, i as int),
        decreases n - i,
    {
        let c = s.get_char(i);
        v.push(c);
        i = i + 1;
    }
    v
}

/// Collects characters into a `String` (`String: FromIterator<char>`).
#[verifier::external_body]
pub(crate) fn string_from_chars(v: &[char]) -> (r: String)
    ensures
        r@ == v@,
{
    v.iter().collect()
}

/// Full Unicode lowercase mapping of a string, as `str::to_lowercase` computes it.
pub uninterp spec fn unicode_lowercase(s: Seq<char>) -> Seq<char>;

/// Every character of `s` is ASCII.
pub open spec fn all_ascii(s: Seq<char>) -> bool {
    forall|i: int| 0 <= i < s.len() ==> (#[trigger] s[i] as u32) < 128
}

/// `str::to_lowercase`: the Unicode lowercase mapping, named
/// `unicode_lowercase`; on ASCII text it maps `A` to `Z` to `a` to `z` and
/// leaves every other character as it is.
#[verifier::external_body]
pub(crate) fn to_lowercase(s: &str) -> (r: String)
    ensures
        r@ == unicode_lowercase(s@),
        all_ascii(s@) ==> r@ == s@.map_values(|c: char| ascii_lower(c)),
{
    s.to_lowercase()
}

// ---------------------------------------------------------------------------
// ASCII case folding and substring search
// ---------------------------------------------------------------------------

/// ASCII lowercase of one character (non-ASCII-uppercase characters unchanged).
pub open spec fn ascii_lower(c: char) -> char {
    if 'A' <= c && c <= 'Z' {
        ((c as u32) + 32) as char
    } else {
        c
    }
}

/// Equality of two character sequences ignoring ASCII case.
pub open spec fn eq_ignore_ascii_case(a: Seq<char>, b: Seq<char>) -> bool {
    a.len() == b.len() && forall|i: int| 0 <= i < a.len() ==> ascii_lower(a[i]) == ascii_lower(b[i])
}

fn lower_char(c: char) -> (r: char)
    ensures
        r == ascii_lower(c),
{
    if 'A' <= c && c <= 'Z' {
        let code: u8 = (c as u8) + 32;
        code as char
    } else {
        c
    }
}

/// `a.eq_ignore_ascii_case(b)` on character sequences.
pub fn chars_eq_ignore_ascii_case(a: &[char], b: &[char]) -> (r: bool)
    ensures
        r == eq_ignore_ascii_case(a@, b@),
{
    if a.len() != b.len() {
        return false;
    }
    let mut i: usize = 0;
    while i < a.len()
        invariant
            a@.len() == b@.len(),
            i <= a@.len(),
            forall|j: int| 0 <= j < i ==> ascii_lower(a@[j]) == ascii_lower(b@[j]),
        decreases a@.len() - i,
    {
        if lower_char(a[i]) != lower_char(b[i]) {
            return false;
        }
        i = i + 1;
    }
    true
}

/// `needle` occurs in `hay` starting at index `i`.
pub open spec fn occurs_at(hay: Seq<char>, needle: Seq<char>, i: int) -> bool {
    0 <= i && i + needle.len() <= hay.len() && hay.subrange(i, i + needle.len()) =~= needle
}

/// `needle` occurs somewhere in `hay` (as `str::contains` decides).
pub open spec fn contains_sub(hay: Seq<char>, needle: Seq<char>) -> bool {
    exists|i: int| #[trigger] occurs_at(hay, needle, i)
}

fn occurs_at_exec(hay: &[char], needle: &[char], i: usize) -> (r: bool)
    requires
        i + needle@.len() <= hay@.len(),
    ensures
        r == occurs_at(hay@, needle@, i as int),
{
    let hl = hay.len();
    let mut k: usize = 0;
    while k < needle.len()
        invariant
            hl == hay@.len(),
            i + needle@.len() <= hay@.len(),
            k <= needle@.len(),
            forall|j: int| 0 <= j < k ==> hay@[i + j] == needle@[j],
        decreases needle@.len() - k,
    {
        if hay[i + k] != needle[k] {
            proof {
                assert(hay@.subrange(i as int, i + needle@.len())[k as int] != needle@[k as int]);
            }
            return false;
        }
        k = k + 1;
    }
    proof {
        assert(hay@.subrange(i as int, i + needle@.len()) =~= needle@);
    }
    true
}

/// Substring search.
pub fn contains_chars(hay: &[char], needle: &[char]) -> (r: bool)
    ensures
        r == contains_sub(hay@, needle@),
{
    if needle.len() > hay.len() {
        proof {
            assert forall|i: int| !occurs_at(hay@, needle@, i) by {}
        }
        return false;
    }
    let last = hay.len() - needle.len();
    let mut i: usize = 0;
    loop
        invariant_except_break
            last == hay@.len() - needle@.len(),
            i <= last,
            forall|j: int| 0 <= j < i ==> !occurs_at(hay@, needle@, j),
        ensures
            forall|j: int| 0 <= j <= last ==> !occurs_at(hay@, needle@, j),
        decreases last - i,
    {
        if occurs_at_exec(hay, needle, i) {
            return true;
        }
        if i == last {
            break;
        }
        i = i + 1;
    }
    proof {
        assert forall|j: int| !occurs_at(hay@, needle@, j) by {
            if 0 <= j && j <= last {
            }
        }
    }
    false
}

/// Some keyword of `keywords` occurs in `hay`.
pub open spec fn contains_any(hay: Seq<char>, keywords: Seq<Seq<char>>) -> bool {
    exists|k: int| 0 <= k < keywords.len() && #[trigger] contains_sub(hay, keywords[k])
}

/// Whether any of `keywords` occurs in `hay`.
pub fn contains_any_keyword(hay: &[char], keywords: &[&str]) -> (r: bool)
    ensures
        r == contains_any(hay@, keywords@.map_values(|k: &str| k@)),
{
    let ghost kws = keywords@.map_values(|k: &str| k@);
    let mut i: usize = 0;
    while i < keywords.len()
        invariant
            kws == keywords@.map_values(|k: &str| k@),
            i <= keywords@.len(),
            forall|j: int| 0 <= j < i ==> !contains_sub(hay@, #[trigger] kws[j]),
        decreases keywords@.len() - i,
    {
        let kw = chars_of(keywords[i]);
        if contains_chars(hay, kw.as_slice()) {
            proof {
                assert(kws[i as int] == keywords@[i as int]@);
            }
            return true;
        }
        i = i + 1;
    }
    false
}

// ---------------------------------------------------------------------------
// Decimal numbers
// ---------------------------------------------------------------------------

/// `c` is an ASCII decimal digit.
pub open spec fn is_digit(c: char) -> bool {
    '0' <= c && c <= '9'
}

/// Numeric value of a decimal digit.
pub open spec fn digit_value(c: char) -> nat {
    (c as int - '0' as int) as nat
}

/// The decimal digit character for `d < 10`.
pub open spec fn digit_char(d: nat) -> char {
    if d == 0 {
        '0'
    } else if d == 1 {
        '1'
    } else if d == 2 {
        '2'
    } else if d == 3 {
        '3'
    } else if d == 4 {
        '4'
    } else if d == 5 {
        '5'
    } else if d == 6 {
        '6'
    } else if d == 7 {
        '7'
    } else if d == 8 {
        '8'
    } else {
        '9'
    }
}

/// All characters of `s` are decimal digits.
pub open spec fn all_digits(s: Seq<char>) -> bool {
    forall|i: int| 0 <= i < s.len() ==> is_digit(#[trigger] s[i])
}

/// Value of a digit string read in base ten (most significant first).
pub open spec fn digits_value(s: Seq<char>) -> nat
    decreases s.len(),
{
    if s.len() == 0 {
        0
    } else {
        digits_value(s.drop_last()) * 10 + digit_value(s.last())
    }
}

/// Canonical decimal rendering of `n` (no leading zeros, "0" for zero).
pub open spec fn decimal(n: nat) -> Seq<char>
    decreases n,
{
    if n < 10 {
        seq![digit_char(n)]
    } else {
        decimal(n / 10).push(digit_char(n % 10))
    }
}

fn digit_str(d: u64) -> (r: &'static str)
    requires
        d < 10,
    ensures
        r@ == seq![digit_char(d as nat)],
{
    proof {
        reveal_strlit("0");
        reveal_strlit("1");
        reveal_strlit("2");
        reveal_strlit("3");
        reveal_strlit("4");
        reveal_strlit("5");
        reveal_strlit("6");
        reveal_strlit("7");
        reveal_strlit("8");
        reveal_strlit("9");
    }
    if d == 0 {
        "0"
    } else if d == 1 {
        "1"
    } else if d == 2 {
        "2"
    } else if d == 3 {
        "3"
    } else if d == 4 {
        "4"
    } else if d == 5 {
        "5"
    } else if d == 6 {
        "6"
    } else if d == 7 {
        "7"
    } else if d == 8 {
        "8"
    } else {
        "9"
    }
}

/// Decimal rendering of `n` (what `n.to_string()` gives for an unsigned integer).
pub fn format_decimal(n: u64) -> (r: String)
    ensures
        r@ == decimal(n as nat),
    decreases n,
{
    if n < 10 {
        String::from_str(digit_str(n))
    } else {
        let head = format_decimal(n / 10);
        let tail = digit_str(n % 10);
        head.concat(tail)
    }
}

/// Value of the optional-`+`-prefixed digit string, as `str::parse` reads an
/// unsigned integer: `None` unless at least one digit follows the optional sign
/// and every remaining character is a digit.
pub open spec fn unsigned_digits(s: Seq<char>) -> Option<nat> {
    let t = if s.len() > 0 && s[0] == '+' {
        s.drop_first()
    } else {
        s
    };
    if t.len() > 0 && all_digits(t) {
        Some(digits_value(t))
    } else {
        None
    }
}

/// `str::parse::<u16>` on the characters `s`.
pub open spec fn parse_u16_spec(s: Seq<char>) -> Option<u16> {
    match unsigned_digits(s) {
        Some(v) => if v <= 0xFFFF {
            Some(v as u16)
        } else {
            None
        },
        None => None,
    }
}

proof fn lemma_digits_value_push(s: Seq<char>, c: char)
    ensures
        digits_value(s.push(c)) == digits_value(s) * 10 + digit_value(c),
{
    assert(s.push(c).drop_last() =~= s);
}

/// Parses an unsigned decimal number of at most `limit`, with `str::parse`
/// rules (optional leading `+`, digits only).
pub fn parse_unsigned(s: &[char], limit: u64) -> (r: Option<u64>)
    requires
        limit < 0x1000_0000_0000_0000,
    ensures
        match unsigned_digits(s@) {
            Some(v) => if v <= limit {
                r == Some(v as u64)
            } else {
                r is None
            },
            None => r is None,
        },
{
    let start: usize = if s.len() > 0 && s[0] == '+' {
        1
    } else {
        0
    };
    let ghost t = if s@.len() > 0 && s@[0] == '+' {
        s@.drop_first()
    } else {
        s@
    };
    proof {
        assert(t =~= s@.subrange(start as int, s@.len() as int));
    }
    if start >= s.len() {
        return None;
    }
    let mut value: u64 = 0;
    let mut overflow = false;
    let mut i: usize = start;
    while i < s.len()
        invariant
            start <= i <= s@.len(),
            t == (if s@.len() > 0 && s@[0] == '+' {
                s@.drop_first()
            } else {
                s@
            }),
            t =~= s@.subrange(start as int, s@.len() as int),
            limit < 0x1000_0000_0000_0000,
            all_digits(s@.subrange(start as int, i as int)),
            !overflow ==> value == digits_value(s@.subrange(start as int, i as int)),
            !overflow ==> value <= limit,
            overflow ==> digits_value(s@.subrange(start as int, i as int)) > limit,
        decreases s@.len() - i,
    {
        let c = s[i];
        if !('0' <= c && c <= '9') {
            proof {
                assert(t[i - start] == c);
                assert(!is_digit(t[i - start]));
            }
            return None;
        }
        let d = (c as u32 - '0' as u32) as u64;
        proof {
            assert(s@.subrange(start as int, i + 1) =~= s@.subrange(start as int, i as int).push(c));
            lemma_digits_value_push(s@.subrange(start as int, i as int), c);
        }
        if !overflow {
            let next = value * 10 + d;
            if next > limit {
                overflow = true;
            } else {
                value = next;
            }
        }
        i = i + 1;
    }
    proof {
        assert(s@.subrange(start as int, s@.len() as int) =~= t);
    }
    if overflow {
        None
    } else {
        Some(value)
    }
}

/// `str::parse::<u16>`.
pub fn parse_u16(s: &[char]) -> (r: Option<u16>)
    ensures
        r == parse_u16_spec(s@),
{
    match parse_unsigned(s, 0xFFFF) {
        Some(v) => Some(v as u16),
        None => None,
    }
}

// ---------------------------------------------------------------------------
// Trimming and path names
// ---------------------------------------------------------------------------

/// `s` with every leading and trailing `c` removed (`str::trim_matches(c)`).
pub open spec fn trim_char(s: Seq<char>, c: char) -> Seq<char>
    decreases s.len(),
{
    if s.len() == 0 {
        s
    } else if s[0] == c {
        trim_char(s.drop_first(), c)
    } else if s.last() == c {
        trim_char(s.drop_last(), c)
    } else {
        s
    }
}

proof fn lemma_trim_drop_last(s: Seq<char>, c: char)
    requires
        s.len() > 0,
        s[0] != c,
        s.last() == c,
    ensures
        trim_char(s, c) == trim_char(s.drop_last(), c),
{
}

/// Removes every leading and trailing `c`.
pub fn trim_matches(s: &[char], c: char) -> (r: Vec<char>)
    ensures
        r@ == trim_char(s@, c),
{
    let mut lo: usize = 0;
    let mut hi: usize = s.len();
    proof {
        assert(s@.subrange(0, s@.len() as int) =~= s@);
    }
    while lo < hi && s[lo] == c
        invariant
            lo <= hi == s@.len(),
            trim_char(s@, c) == trim_char(s@.subrange(lo as int, hi as int), c),
        decreases hi - lo,
    {
        proof {
            assert(s@.subrange(lo as int, hi as int).drop_first() =~= s@.subrange(lo + 1, hi as int));
        }
        lo = lo + 1;
    }
    while lo < hi && s[hi - 1] == c
        invariant
            lo <= hi <= s@.len(),
            lo < hi ==> s@[lo as int] != c,
            trim_char(s@, c) == trim_char(s@.subrange(lo as int, hi as int), c),
        decreases hi - lo,
    {
        proof {
            let sub = s@.subrange(lo as int, hi as int);
            assert(sub.drop_last() =~= s@.subrange(lo as int, hi - 1));
            lemma_trim_drop_last(sub, c);
        }
        hi = hi - 1;
    }
    let mut out: Vec<char> = Vec::new();
    let mut k: usize = lo;
    while k < hi
        invariant
            lo <= k <= hi <= s@.len(),
            out@ == s@.subrange(lo as int, k as int),
        decreases hi - k,
    {
        out.push(s[k]);
        k = k + 1;
    }
    proof {
        let sub = s@.subrange(lo as int, hi as int);
        if sub.len() > 0 {
            assert(sub[0] != c);
            assert(sub.last() != c);
        }
        assert(out@ =~= sub);
    }
    out
}

/// Index of the last occurrence of `c` in `s`, if any.
pub open spec fn last_index_of(s: Seq<char>, c: char) -> Option<int>
    decreases s.len(),
{
    if s.len() == 0 {
        None
    } else if s.last() == c {
        Some(s.len() - 1)
    } else {
        last_index_of(s.drop_last(), c)
    }
}

proof fn lemma_last_index_of(s: Seq<char>, c: char)
    ensures
        match last_index_of(s, c) {
            Some(i) => 0 <= i < s.len() && s[i] == c && forall|j: int| i < j < s.len() ==> s[j] != c,
            None => forall|j: int| 0 <= j < s.len() ==> s[j] != c,
        },
    decreases s.len(),
{
    if s.len() > 0 && s.last() != c {
        let t = s.drop_last();
        lemma_last_index_of(t, c);
        match last_index_of(t, c) {
            Some(i) => {
                assert(s[i] == t[i]);
                assert forall|j: int| i < j < s.len() implies s[j] != c by {
                    if j < s.len() - 1 {
                        assert(s[j] == t[j]);
                    }
                }
            },
            None => {
                assert forall|j: int| 0 <= j < s.len() implies s[j] != c by {
                    if j < s.len() - 1 {
                        assert(s[j] == t[j]);
                    }
                }
            },
        }
    }
}

/// A path separator: `/`, or `\` as on Windows.
pub open spec fn is_path_separator(c: char) -> bool {
    c == '/' || c == '\\'
}

/// The index of the last path separator in `s`.
pub open spec fn last_separator(s: Seq<char>) -> Option<int>
    decreases s.len(),
{
    if s.len() == 0 {
        None
    } else if is_path_separator(s.last()) {
        Some(s.len() - 1)
    } else {
        last_separator(s.drop_last())
    }
}

proof fn lemma_last_separator(s: Seq<char>)
    ensures
        match last_separator(s) {
            Some(i) => 0 <= i < s.len() && is_path_separator(s[i]) && forall|j: int|
                i < j < s.len() ==> !is_path_separator(s[j]),
            None => forall|j: int| 0 <= j < s.len() ==> !is_path_separator(s[j]),
        },
    decreases s.len(),
{
    if s.len() > 0 && !is_path_separator(s.last()) {
        let t = s.drop_last();
        lemma_last_separator(t);
        match last_separator(t) {
            Some(i) => {
                assert(s[i] == t[i]);
                assert forall|j: int| i < j < s.len() implies !is_path_separator(s[j]) by {
                    if j < s.len() - 1 {
                        assert(s[j] == t[j]);
                    }
                }
            },
            None => {
                assert forall|j: int| 0 <= j < s.len() implies !is_path_separator(s[j]) by {
                    if j < s.len() - 1 {
                        assert(s[j] == t[j]);
                    }
                }
            },
        }
    }
}

/// Finds the last path separator in `s[..end]`.
fn rfind_separator(s: &[char], end: usize) -> (r: Option<usize>)
    requires
        end <= s@.len(),
    ensures
        match r {
            Some(i) => i < end && last_separator(s@.subrange(0, end as int)) == Some(i as int),
            None => last_separator(s@.subrange(0, end as int)) is None,
        },
{
    let mut i: usize = end;
    while i > 0
        invariant
            i <= end <= s@.len(),
            last_separator(s@.subrange(0, end as int)) == last_separator(s@.subrange(0, i as int)),
        decreases i,
    {
        proof {
            assert(s@.subrange(0, i as int).drop_last() =~= s@.subrange(0, i - 1));
        }
        if s[i - 1] == '/' || s[i - 1] == '\\' {
            return Some(i - 1);
        }
        i = i - 1;
    }
    None
}

/// Finds the last occurrence of `c` in `s[..end]`.
pub fn rfind(s: &[char], end: usize, c: char) -> (r: Option<usize>)
    requires
        end <= s@.len(),
    ensures
        match r {
            Some(i) => i < end && last_index_of(s@.subrange(0, end as int), c) == Some(i as int),
            None => last_index_of(s@.subrange(0, end as int), c) is None,
        },
{
    proof {
        lemma_last_index_of(s@.subrange(0, end as int), c);
    }
    let mut i: usize = end;
    while i > 0
        invariant
            i <= end <= s@.len(),
            last_index_of(s@.subrange(0, end as int), c) == last_index_of(s@.subrange(0, i as int), c),
        decreases i,
    {
        proof {
            lemma_last_index_of(s@.subrange(0, i as int), c);
        }
        proof {
            assert(s@.subrange(0, i as int).drop_last() =~= s@.subrange(0, i - 1));
        }
        if s[i - 1] == c {
            return Some(i - 1);
        }
        i = i - 1;
    }
    None
}

/// The last path component of `p` that is neither empty nor `.`: the file name
/// when it is an ordinary name, `None` when it is `..` or the path has none
/// (the behaviour of `Path::file_name` on Windows, where `/` and `\` both
/// separate components).
pub open spec fn file_name(p: Seq<char>) -> Option<Seq<char>>
    decreases p.len(),
{
    match last_separator(p) {
        Some(j) => {
            let seg = p.subrange(j + 1, p.len() as int);
            if seg.len() == 0 || seg =~= seq!['.'] {
                if 0 <= j < p.len() {
                    file_name(p.subrange(0, j))
                } else {
                    None
                }
            } else if seg =~= seq!['.', '.'] {
                None
            } else {
                Some(seg)
            }
        },
        None => {
            if p.len() == 0 || p =~= seq!['.'] || p =~= seq!['.', '.'] {
                None
            } else {
                Some(p)
            }
        },
    }
}

/// The extension of a file name: the text after its last `.`, unless it has no
/// `.` or its only `.` is the leading one (`Path::extension`).
pub open spec fn name_extension(name: Seq<char>) -> Option<Seq<char>> {
    match last_index_of(name, '.') {
        Some(i) => if i == 0 {
            None
        } else {
            Some(name.subrange(i + 1, name.len() as int))
        },
        None => None,
    }
}

/// The extension of the file that path `p` names.
pub open spec fn path_extension(p: Seq<char>) -> Option<Seq<char>> {
    match file_name(p) {
        Some(name) => if name =~= seq!['.', '.'] {
            None
        } else {
            name_extension(name)
        },
        None => None,
    }
}

fn is_dot(s: &[char], lo: usize, hi: usize) -> (r: bool)
    requires
        lo <= hi <= s@.len(),
    ensures
        r == (s@.subrange(lo as int, hi as int) =~= seq!['.']),
{
    let r = hi - lo == 1 && s[lo] == '.';
    proof {
        if hi == lo + 1 && s@[lo as int] != '.' {
            assert(s@.subrange(lo as int, hi as int)[0] != '.');
        }
    }
    r
}

fn is_dot_dot(s: &[char], lo: usize, hi: usize) -> (r: bool)
    requires
        lo <= hi <= s@.len(),
    ensures
        r == (s@.subrange(lo as int, hi as int) =~= seq!['.', '.']),
{
    let r = hi - lo == 2 && s[lo] == '.' && s[lo + 1] == '.';
    proof {
        if hi == lo + 2 && !(s@[lo as int] == '.' && s@[lo + 1] == '.') {
            let sub = s@.subrange(lo as int, hi as int);
            assert(sub[0] == s@[lo as int] && sub[1] == s@[lo + 1]);
        }
    }
    r
}

fn copy_range(s: &[char], lo: usize, hi: usize) -> (r: Vec<char>)
    requires
        lo <= hi <= s@.len(),
    ensures
        r@ == s@.subrange(lo as int, hi as int),
{
    let mut out: Vec<char> = Vec::new();
    let mut k: usize = lo;
    while k < hi
        invariant
            lo <= k <= hi <= s@.len(),
            out@ == s@.subrange(lo as int, k as int),
        decreases hi - k,
    {
        out.push(s[k]);
        k = k + 1;
    }
    out
}

/// `Path::file_name` on a path separated by `/` or `\`.
pub fn path_file_name(p: &[char]) -> (r: Option<Vec<char>>)
    ensures
        match file_name(p@) {
            Some(n) => r.is_some() && r.unwrap()@ == n,
            None => r is None,
        },
{
    let mut end: usize = p.len();
    proof {
        assert(p@.subrange(0, p@.len() as int) =~= p@);
    }
    loop
        invariant
            end <= p@.len(),
            file_name(p@) == file_name(p@.subrange(0, end as int)),
        decreases end,
    {
        let ghost q = p@.subrange(0, end as int);
        match rfind_separator(p, end) {
            Some(j) => {
                proof {
                    assert(q.subrange(j + 1, q.len() as int) =~= p@.subrange(j + 1, end as int));
                    assert(q.subrange(0, j as int) =~= p@.subrange(0, j as int));
                }
                if j + 1 == end || is_dot(p, j + 1, end) {
                    end = j;
                } else if is_dot_dot(p, j + 1, end) {
                    return None;
                } else {
                    return Some(copy_range(p, j + 1, end));
                }
            },
            None => {
                if end == 0 || is_dot(p, 0, end) || is_dot_dot(p, 0, end) {
                    return None;
                } else {
                    return Some(copy_range(p, 0, end));
                }
            },
        }
    }
}

/// `Path::extension` on a path separated by `/` or `\`.
pub fn path_extension_of(p: &[char]) -> (r: Option<Vec<char>>)
    ensures
        match path_extension(p@) {
            Some(e) => r.is_some() && r.unwrap()@ == e,
            None => r is None,
        },
{
    match path_file_name(p) {
        Some(name) => {
            let n = name.len();
            if is_dot_dot(name.as_slice(), 0, n) {
                proof {
                    assert(name@.subrange(0, n as int) =~= name@);
                }
                return None;
            }
            proof {
                assert(name@.subrange(0, n as int) =~= name@);
            }
            match rfind(name.as_slice(), n, '.') {
                Some(i) => {
                    if i == 0 {
                        None
                    } else {
                        Some(copy_range(name.as_slice(), i + 1, n))
                    }
                },
                None => None,
            }
        },
        None => None,
    }
}

} // verus!
