//! Character-level text utilities used to assemble SQL, connection strings
//! and report messages, together with the standard-library string calls the
//! library relies on.
use vstd::prelude::*;

verus! {

/// Appends one character to a `String` (`String::push`).
#[verifier::external_body]
pub(crate) fn push_char(s: &mut String, c: char)
    ensures
        final(s)@ == old(s)@.push(c),
{
    s.push(c);
}

/// `s` with every occurrence of `c` replaced by `by`, which is what
/// `str::replace` does for a single-character pattern.
pub open spec fn replaced(s: Seq<char>, c: char, by: Seq<char>) -> Seq<char>
    decreases s.len(),
{
    if s.len() == 0 {
        Seq::empty()
    } else {
        replaced(s.drop_last(), c, by) + (if s.last() == c {
            by
        } else {
            seq![s.last()]
        })
    }
}

/// Replaces every occurrence of the character `c` in `s` by `by`.
pub fn replace_char(s: &str, c: char, by: &str) -> (r: String)
    ensures
        r@ == replaced(s@, c, by@),
{
    let mut out = String::new();
    let ghost whole = s@;
    for ch in it: s.chars()
        invariant
            it.seq() == whole,
            out@ == replaced(whole.take(it.index()), c, by@),
    {
        assert(whole.take(it.index() + 1).drop_last() == whole.take(it.index()));
        if ch == c {
            out.append(by);
        } else {
            push_char(&mut out, ch);
        }
    }
    assert(whole.take(whole.len() as int) == whole);
    out
}

} // verus!

verus! {

/// The character of a decimal digit.
pub open spec fn digit_char(d: nat) -> char
    recommends
        d < 10,
{
    ((d + 48) as u32) as char
}

/// Decimal digits of a natural number, most significant first, without
/// leading zeros (as `Display` prints an unsigned integer).
pub open spec fn digits_of(n: nat) -> Seq<char>
    decreases n,
{
    if n < 10 {
        seq![digit_char(n)]
    } else {
        digits_of(n / 10).push(digit_char(n % 10))
    }
}

/// The text `Display` gives an integer: its decimal digits, after a `-`
/// when it is negative.
pub open spec fn decimal(n: int) -> Seq<char> {
    if n < 0 {
        seq!['-'] + digits_of((-n) as nat)
    } else {
        digits_of(n as nat)
    }
}

fn digit(d: u64) -> (c: char)
    requires
        d < 10,
    ensures
        c == digit_char(d as nat),
{
    ((d as u8) + 48u8) as char
}

/// Decimal text of an unsigned integer (what `to_string` gives).
pub fn u64_to_decimal(n: u64) -> (r: String)
    ensures
        r@ == digits_of(n as nat),
    decreases n,
{
    if n < 10 {
        let mut s = String::new();
        push_char(&mut s, digit(n));
        s
    } else {
        let mut s = u64_to_decimal(n / 10);
        push_char(&mut s, digit(n % 10));
        s
    }
}

/// Decimal text of a signed integer (what `to_string` gives).
pub fn i64_to_decimal(n: i64) -> (r: String)
    ensures
        r@ == decimal(n as int),
{
    if n < 0 {
        let m: u64 = if n == i64::MIN {
            9223372036854775808u64
        } else {
            (-n) as u64
        };
        let mut s = String::new();
        push_char(&mut s, '-');
        let d = u64_to_decimal(m);
        s.append(d.as_str());
        s
    } else {
        u64_to_decimal(n as u64)
    }
}

} // verus!

verus! {

/// Whether `c` is one of the ASCII digits `0`..`9`.
pub open spec fn is_digit(c: char) -> bool {
    '0' <= c && c <= '9'
}

/// Whether `s` consists of ASCII digits only.
pub open spec fn all_digits(s: Seq<char>) -> bool {
    forall|i: int| 0 <= i < s.len() ==> is_digit(#[trigger] s[i])
}

/// The number that a run of decimal digits denotes.
pub open spec fn digits_value(s: Seq<char>) -> int
    decreases s.len(),
{
    if s.len() == 0 {
        0
    } else {
        digits_value(s.drop_last()) * 10 + (s.last() as int - 48)
    }
}

/// What `str::parse` reads as an integer: an optional `+` or `-` followed by
/// one or more ASCII digits, and nothing else; `None` for any other text.
pub open spec fn parse_int(s: Seq<char>) -> Option<int> {
    if s.len() > 0 && (s[0] == '-' || s[0] == '+') {
        let t = s.skip(1);
        if t.len() > 0 && all_digits(t) {
            Some(if s[0] == '-' { -digits_value(t) } else { digits_value(t) })
        } else {
            None
        }
    } else if s.len() > 0 && all_digits(s) {
        Some(digits_value(s))
    } else {
        None
    }
}

/// `parse_int` restricted to the range of a signed integer type: what
/// `str::parse::<i64>()` (or `i32`, with those bounds) returns as `Ok`.
pub open spec fn parse_in_range(s: Seq<char>, lo: int, hi: int) -> Option<int> {
    match parse_int(s) {
        Some(v) => if lo <= v <= hi { Some(v) } else { None },
        None => None,
    }
}

/// A bound above every value of the integer types read here; larger runs of
/// digits are only known to exceed it.
pub open spec fn parse_cap() -> int {
    10_000_000_000_000_000_000
}

proof fn lemma_digits_value_nonneg(s: Seq<char>)
    requires
        all_digits(s),
    ensures
        digits_value(s) >= 0,
    decreases s.len(),
{
    if s.len() > 0 {
        lemma_digits_value_nonneg(s.drop_last());
    }
}

/// Reads a decimal integer as `str::parse::<i64>()` does.
pub fn parse_i64(s: &str) -> (r: Option<i64>)
    ensures
        r matches Some(v) ==> parse_in_range(s@, i64::MIN as int, i64::MAX as int) == Some(v as int),
        r is None ==> parse_in_range(s@, i64::MIN as int, i64::MAX as int) is None,
{
    let n = s.unicode_len();
    if n == 0 {
        return None;
    }
    let first = s.get_char(0);
    let neg = first == '-';
    let start: usize = if first == '-' || first == '+' { 1 } else { 0 };
    if start == n {
        return None;
    }
    let ghost body = s@.skip(start as int);
    let cap: u128 = 10_000_000_000_000_000_000u128;
    let mut acc: u128 = 0;
    let mut i: usize = start;
    while i < n
        invariant
            start <= i <= n,
            n == s@.len(),
            start < n,
            start == 1 <==> (s@[0] == '-' || s@[0] == '+'),
            start == 0 || start == 1,
            neg <==> s@[0] == '-',
            body == s@.skip(start as int),
            cap == parse_cap(),
            all_digits(s@.subrange(start as int, i as int)),
            acc as int == if digits_value(s@.subrange(start as int, i as int)) < parse_cap() {
                digits_value(s@.subrange(start as int, i as int))
            } else {
                parse_cap()
            },
        decreases n - i,
    {
        let c = s.get_char(i);
        let ghost pre = s@.subrange(start as int, i as int);
        let ghost post = s@.subrange(start as int, i + 1);
        assert(post.drop_last() == pre);
        if !('0' <= c && c <= '9') {
            proof {
                if start == 1 {
                    assert(body[i - 1] == c);
                    assert(!is_digit(body[i - 1]));
                    assert(!all_digits(body));
                } else {
                    assert(s@[i as int] == c);
                    assert(!is_digit(s@[i as int]));
                    assert(!all_digits(s@));
                }
            }
            return None;
        }
        let d = (c as u32 - 48) as u128;
        acc = if acc >= cap { cap } else if acc * 10 + d >= cap { cap } else { acc * 10 + d };
        proof {
            lemma_digits_value_nonneg(pre);
            assert(all_digits(post)) by {
                assert forall|j: int| 0 <= j < post.len() implies is_digit(#[trigger] post[j]) by {
                    if j < pre.len() {
                        assert(post[j] == pre[j]);
                    }
                }
            }
        }
        i = i + 1;
    }
    proof {
        assert(s@.subrange(start as int, n as int) == body);
        lemma_digits_value_nonneg(body);
        if start == 0 {
            assert(body == s@);
        }
    }
    if neg {
        if acc <= 9223372036854775808u128 {
            if acc == 9223372036854775808u128 {
                Some(i64::MIN)
            } else {
                Some(-(acc as i64))
            }
        } else {
            None
        }
    } else if acc <= 9223372036854775807u128 {
        Some(acc as i64)
    } else {
        None
    }
}

/// Reads a decimal integer as `str::parse::<i32>()` does.
pub fn parse_i32(s: &str) -> (r: Option<i32>)
    ensures
        r matches Some(v) ==> parse_in_range(s@, i32::MIN as int, i32::MAX as int) == Some(v as int),
        r is None ==> parse_in_range(s@, i32::MIN as int, i32::MAX as int) is None,
{
    match parse_i64(s) {
        Some(v) => if i32::MIN as i64 <= v && v <= i32::MAX as i64 { Some(v as i32) } else { None },
        None => None,
    }
}

} // verus!

verus! {

/// What `str::strip_prefix` returns: the rest of `s` after `p` when `s`
/// begins with `p`.
pub open spec fn without_prefix(s: Seq<char>, p: Seq<char>) -> Option<Seq<char>> {
    if p.len() <= s.len() && s.take(p.len() as int) == p {
        Some(s.skip(p.len() as int))
    } else {
        None
    }
}

/// Removes the prefix `p` from `s` (`str::strip_prefix`).
pub fn strip_prefix<'a>(s: &'a str, p: &str) -> (r: Option<&'a str>)
    ensures
        r matches Some(t) ==> without_prefix(s@, p@) == Some(t@),
        r is None ==> without_prefix(s@, p@) is None,
{
    let n = s.unicode_len();
    let m = p.unicode_len();
    if m > n {
        return None;
    }
    let mut i: usize = 0;
    while i < m
        invariant
            i <= m <= n,
            n == s@.len(),
            m == p@.len(),
            s@.take(i as int) == p@.take(i as int),
        decreases m - i,
    {
        if s.get_char(i) != p.get_char(i) {
            assert(s@.take(m as int)[i as int] != p@[i as int]);
            return None;
        }
        assert(s@.take(i + 1) == s@.take(i as int).push(s@[i as int]));
        assert(p@.take(i + 1) == p@.take(i as int).push(p@[i as int]));
        i = i + 1;
    }
    assert(p@.take(m as int) == p@);
    Some(s.substring_char(m, n))
}

/// Whether `p` occurs in `s` as a run of consecutive characters
/// (`str::contains` with a string pattern).
pub open spec fn has_substring(s: Seq<char>, p: Seq<char>) -> bool {
    exists|i: int| 0 <= i && i + p.len() <= s.len() && #[trigger] s.subrange(i, i + p.len()) == p
}

/// Whether `p` occurs in `s` (`str::contains`).
pub fn contains_str(s: &str, p: &str) -> (r: bool)
    ensures
        r == has_substring(s@, p@),
{
    let n = s.unicode_len();
    let m = p.unicode_len();
    if m > n {
        proof {
            assert forall|i: int| 0 <= i && i + p@.len() <= s@.len() implies #[trigger] s@.subrange(i, i + p@.len()) != p@ by {}
        }
        return false;
    }
    if m == 0 {
        assert(s@.subrange(0int, 0int + p@.len()) == p@);
        return true;
    }
    let mut start: usize = 0;
    while start <= n - m
        invariant
            1 <= m <= n,
            n == s@.len(),
            m == p@.len(),
            start <= n - m + 1,
            forall|i: int| 0 <= i < start ==> #[trigger] s@.subrange(i, i + m) != p@,
        decreases n - m + 1 - start,
    {
        let mut j: usize = 0;
        let mut same = true;
        while j < m
            invariant
                j <= m,
                start + m <= n,
                n == s@.len(),
                m == p@.len(),
                same ==> s@.subrange(start as int, start + j) == p@.take(j as int),
                !same ==> s@.subrange(start as int, start + m) != p@,
            decreases m - j,
        {
            if same {
                if s.get_char(start + j) != p.get_char(j) {
                    assert(s@.subrange(start as int, start + m)[j as int] == s@[start + j]);
                    same = false;
                } else {
                    assert(s@.subrange(start as int, start + j + 1) == s@.subrange(start as int, start + j).push(s@[start + j]));
                    assert(p@.take(j + 1) == p@.take(j as int).push(p@[j as int]));
                }
            }
            j = j + 1;
        }
        if same {
            assert(p@.take(m as int) == p@);
            return true;
        }
        start = start + 1;
    }
    proof {
        assert forall|i: int| 0 <= i && i + p@.len() <= s@.len() implies #[trigger] s@.subrange(i, i + p@.len()) != p@ by {}
    }
    false
}

// ---------------------------------------------------------------------------
// Standard-library text functions whose results this library names.
// ---------------------------------------------------------------------------

/// The text `str::to_uppercase` gives (Unicode upper-casing).
pub uninterp spec fn uppercased(s: Seq<char>) -> Seq<char>;

/// The text `str::to_lowercase` gives (Unicode lower-casing).
pub uninterp spec fn lowercased(s: Seq<char>) -> Seq<char>;

/// The slice `str::trim` gives (leading and trailing Unicode white space removed).
pub uninterp spec fn trimmed(s: Seq<char>) -> Seq<char>;

/// The text `String::from_utf8_lossy` gives for a byte sequence.
pub uninterp spec fn utf8_lossy(b: Seq<u8>) -> Seq<char>;

/// Whether every character of `s` is ASCII.
pub open spec fn is_ascii_text(s: Seq<char>) -> bool {
    forall|i: int| 0 <= i < s.len() ==> (#[trigger] s[i] as u32) < 128
}

/// `c` upper-cased, for an ASCII character: `a`..`z` become `A`..`Z`.
pub open spec fn ascii_upper(c: char) -> char {
    if 'a' <= c && c <= 'z' {
        ((c as u32) - 32) as char
    } else {
        c
    }
}

/// `c` lower-cased, for an ASCII character: `A`..`Z` become `a`..`z`.
pub open spec fn ascii_lower(c: char) -> char {
    if 'A' <= c && c <= 'Z' {
        ((c as u32) + 32) as char
    } else {
        c
    }
}

/// What `str::to_uppercase` gives: on ASCII text each letter `a`..`z`
/// becomes `A`..`Z` and every other character stays; otherwise `uppercased`.
pub open spec fn upper_text(s: Seq<char>) -> Seq<char> {
    if is_ascii_text(s) {
        s.map_values(|c: char| ascii_upper(c))
    } else {
        uppercased(s)
    }
}

/// What `str::to_lowercase` gives: on ASCII text each letter `A`..`Z`
/// becomes `a`..`z` and every other character stays; otherwise `lowercased`.
pub open spec fn lower_text(s: Seq<char>) -> Seq<char> {
    if is_ascii_text(s) {
        s.map_values(|c: char| ascii_lower(c))
    } else {
        lowercased(s)
    }
}

/// Calls `str::to_uppercase`; the result is named `uppercased`. On ASCII text
/// Unicode upper-casing maps exactly the letters `a`..`z` to `A`..`Z`.
#[verifier::external_body]
pub(crate) fn to_upper(s: &str) -> (r: String)
    ensures
        r@ == uppercased(s@),
        is_ascii_text(s@) ==> r@ == s@.map_values(|c: char| ascii_upper(c)),
{
    s.to_uppercase()
}

/// Calls `str::to_lowercase`; the result is named `lowercased`. On ASCII text
/// Unicode lower-casing maps exactly the letters `A`..`Z` to `a`..`z`.
#[verifier::external_body]
pub(crate) fn to_lower(s: &str) -> (r: String)
    ensures
        r@ == lowercased(s@),
        is_ascii_text(s@) ==> r@ == s@.map_values(|c: char| ascii_lower(c)),
{
    s.to_lowercase()
}

/// `t` is a run of consecutive characters of `s`.
pub open spec fn is_slice_of(t: Seq<char>, s: Seq<char>) -> bool {
    exists|i: int, j: int| 0 <= i <= j <= s.len() && t == s.subrange(i, j)
}

/// Calls `str::trim`; the result is named `trimmed`. As documented, it is a
/// slice of `s`: a run of consecutive characters of it.
#[verifier::external_body]
pub(crate) fn trim<'a>(s: &'a str) -> (r: &'a str)
    ensures
        r@ == trimmed(s@),
        is_slice_of(r@, s@),
{
    s.trim()
}

/// Calls `String::from_utf8_lossy` and takes the text it gives as a `String`;
/// the result is named `utf8_lossy`.
/// Valid UTF-8 is decoded as it is, with nothing replaced.
#[verifier::external_body]
pub(crate) fn decode_lossy(b: &[u8]) -> (r: String)
    ensures
        r@ == utf8_lossy(b@),
        vstd::utf8::valid_utf8(b@) ==> r@ == vstd::utf8::decode_utf8(b@),
{
    String::from_utf8_lossy(b).into_owned()
}

} // verus!

verus! {

/// Whether two strings hold the same characters.
pub fn str_eq(a: &str, b: &str) -> (r: bool)
    ensures
        r == (a@ == b@),
{
    let n = a.unicode_len();
    if n != b.unicode_len() {
        return false;
    }
    let mut i: usize = 0;
    while i < n
        invariant
            i <= n,
            n == a@.len(),
            n == b@.len(),
            a@.take(i as int) == b@.take(i as int),
        decreases n - i,
    {
        if a.get_char(i) != b.get_char(i) {
            return false;
        }
        assert(a@.take(i + 1) == a@.take(i as int).push(a@[i as int]));
        assert(b@.take(i + 1) == b@.take(i as int).push(b@[i as int]));
        i = i + 1;
    }
    assert(a@.take(n as int) == a@);
    assert(b@.take(n as int) == b@);
    true
}

/// An identifier in double quotes, with every double quote inside it doubled.
pub open spec fn double_quoted(name: Seq<char>) -> Seq<char> {
    seq!['"'] + replaced(name, '"', seq!['"', '"']) + seq!['"']
}

/// Quotes an identifier for SQL: `"` + the name with `"` doubled + `"`.
pub fn quote_double(name: &str) -> (r: String)
    ensures
        r@ == double_quoted(name@),
{
    let mut out = String::new();
    push_char(&mut out, '"');
    let inner = replace_char(name, '"', "\"\"");
    proof {
        reveal_strlit("\"\"");
        assert("\"\""@ == seq!['"', '"']);
    }
    out.append(inner.as_str());
    push_char(&mut out, '"');
    out
}

/// Text with `'` doubled and then `\` doubled, as an SQL string literal's
/// body needs it.
pub open spec fn sql_escaped(s: Seq<char>) -> Seq<char> {
    replaced(replaced(s, '\'', seq!['\'', '\'']), '\\', seq!['\\', '\\'])
}

} // verus!

verus! {

/// The concatenation of two texts.
pub fn cat(a: &str, b: &str) -> (r: String)
    ensures
        r@ == a@ + b@,
{
    let mut s = String::from_str(a);
    s.append(b);
    s
}

} // verus!

verus! {

/// The digits of `n` are ASCII digits, at least one, and denote `n`.
pub proof fn lemma_digits_of(n: nat)
    ensures
        digits_of(n).len() > 0,
        all_digits(digits_of(n)),
        digits_value(digits_of(n)) == n,
    decreases n,
{
    if n < 10 {
        assert(digit_char(n) as int == n + 48);
        let s = digits_of(n);
        assert(s.drop_last() =~= Seq::<char>::empty());
        assert(digits_value(s.drop_last()) == 0);
        assert(digits_value(s) == n);
    } else {
        lemma_digits_of(n / 10);
        let s = digits_of(n / 10);
        let t = s.push(digit_char(n % 10));
        assert(t.drop_last() == s);
        assert(digit_char((n % 10) as nat) as int == n % 10 + 48);
        assert(digits_value(t) == digits_value(s) * 10 + (n % 10));
        assert(t == digits_of(n));
        assert((n / 10) * 10 + n % 10 == n);
        assert forall|i: int| 0 <= i < t.len() implies is_digit(#[trigger] t[i]) by {
            if i < s.len() {
                assert(t[i] == s[i]);
            }
        }
    }
}

/// Reading back the decimal text of an integer gives the integer:
/// `parse_int(decimal(n)) == Some(n)`.
pub proof fn lemma_parse_decimal(n: int)
    ensures
        parse_int(decimal(n)) == Some(n),
{
    if n < 0 {
        let d = digits_of((-n) as nat);
        lemma_digits_of((-n) as nat);
        let s = seq!['-'] + d;
        assert(s.skip(1) == d);
        assert(s[0] == '-');
    } else {
        let d = digits_of(n as nat);
        lemma_digits_of(n as nat);
        assert(is_digit(d[0]));
    }
}

/// Different integers have different decimal texts.
pub proof fn lemma_decimal_injective(a: int, b: int)
    requires
        a != b,
    ensures
        decimal(a) != decimal(b),
{
    lemma_parse_decimal(a);
    lemma_parse_decimal(b);
}

/// Doubling a character is injective: two texts that come out the same after
/// every `c` is doubled were the same text.
pub proof fn lemma_doubling_injective(a: Seq<char>, b: Seq<char>, c: char)
    requires
        replaced(a, c, seq![c, c]) == replaced(b, c, seq![c, c]),
    ensures
        a == b,
    decreases a.len() + b.len(),
{
    let ra = replaced(a, c, seq![c, c]);
    let rb = replaced(b, c, seq![c, c]);
    if a.len() == 0 || b.len() == 0 {
        if a.len() != 0 {
            assert(ra.len() >= 1);
            assert(rb.len() == 0);
        }
        if b.len() != 0 {
            assert(rb.len() >= 1);
            assert(ra.len() == 0);
        }
        assert(a =~= b);
    } else {
        let pa = replaced(a.drop_last(), c, seq![c, c]);
        let pb = replaced(b.drop_last(), c, seq![c, c]);
        if a.last() == c {
            assert(ra.last() == c);
            if b.last() != c {
                assert(ra == pb.push(b.last()));
                assert(false);
            }
            assert(ra == pa + seq![c, c]);
            assert(ra == pb + seq![c, c]);
            assert(pa =~= ra.subrange(0, ra.len() - 2));
            assert(pb =~= ra.subrange(0, ra.len() - 2));
        } else {
            assert(ra == pa.push(a.last()));
            if b.last() == c {
                assert(ra == pb + seq![c, c]);
                assert(ra.last() == c);
                assert(false);
            }
            assert(ra == pb.push(b.last()));
            assert(pa =~= ra.drop_last());
            assert(pb =~= ra.drop_last());
            assert(a.last() == ra.last());
            assert(b.last() == ra.last());
        }
        lemma_doubling_injective(a.drop_last(), b.drop_last(), c);
        assert(a.last() == b.last());
        assert(a =~= a.drop_last().push(a.last()));
        assert(b =~= b.drop_last().push(b.last()));
        assert(a =~= b);
    }
}

/// Quoting identifiers is injective: different names never quote the same.
pub proof fn lemma_double_quoted_injective(a: Seq<char>, b: Seq<char>)
    requires
        double_quoted(a) == double_quoted(b),
    ensures
        a == b,
{
    let ra = replaced(a, '"', seq!['"', '"']);
    let rb = replaced(b, '"', seq!['"', '"']);
    assert(ra =~= double_quoted(a).subrange(1, double_quoted(a).len() - 1));
    assert(rb =~= double_quoted(b).subrange(1, double_quoted(b).len() - 1));
    lemma_doubling_injective(a, b, '"');
}

/// Escaping for SQL string literals is injective: different texts never
/// escape to the same literal body.
pub proof fn lemma_sql_escaped_injective(a: Seq<char>, b: Seq<char>)
    requires
        sql_escaped(a) == sql_escaped(b),
    ensures
        a == b,
{
    lemma_doubling_injective(replaced(a, '\'', seq!['\'', '\'']), replaced(b, '\'', seq!['\'', '\'']), '\\');
    lemma_doubling_injective(a, b, '\'');
}

} // verus!

verus! {

/// How many times `c` occurs in `s`.
pub open spec fn count_char(s: Seq<char>, c: char) -> nat
    decreases s.len(),
{
    if s.len() == 0 {
        0
    } else {
        count_char(s.drop_last(), c) + (if s.last() == c { 1nat } else { 0nat })
    }
}

/// Reading from the end, every `'` is the second of two adjacent `'`: every
/// run of single quotes has even length, so the text can stand between two
/// single quotes as one SQL string literal.
pub open spec fn quotes_paired(t: Seq<char>) -> bool
    decreases t.len(),
{
    if t.len() == 0 {
        true
    } else if t.last() == '\'' {
        t.len() >= 2 && t[t.len() - 2] == '\'' && quotes_paired(t.take(t.len() - 2))
    } else {
        quotes_paired(t.drop_last())
    }
}

/// The escape of one character: `'` and `\` doubled, any other kept.
pub open spec fn escaped_char(c: char) -> Seq<char> {
    if c == '\'' {
        seq!['\'', '\'']
    } else if c == '\\' {
        seq!['\\', '\\']
    } else {
        seq![c]
    }
}

proof fn lemma_replaced_append(a: Seq<char>, b: Seq<char>, c: char, by: Seq<char>)
    ensures
        replaced(a + b, c, by) == replaced(a, c, by) + replaced(b, c, by),
    decreases b.len(),
{
    if b.len() == 0 {
        assert(a + b =~= a);
        assert(replaced(a, c, by) + replaced(b, c, by) =~= replaced(a, c, by));
    } else {
        lemma_replaced_append(a, b.drop_last(), c, by);
        assert((a + b).drop_last() =~= a + b.drop_last());
        assert((a + b).last() == b.last());
    }
}

proof fn lemma_replaced_one(x: char, c: char, by: Seq<char>)
    ensures
        replaced(seq![x], c, by) == (if x == c { by } else { seq![x] }),
{
    assert(seq![x].drop_last() =~= Seq::<char>::empty());
    assert(seq![x].last() == x);
    assert(replaced(Seq::<char>::empty(), c, by) =~= Seq::<char>::empty());
    assert(Seq::<char>::empty() + by =~= by);
    assert(Seq::<char>::empty() + seq![x] =~= seq![x]);
}

/// Escaping works character by character.
proof fn lemma_sql_escaped_push(s: Seq<char>, x: char)
    ensures
        sql_escaped(s.push(x)) == sql_escaped(s) + escaped_char(x),
{
    let q = '\'';
    let b = '\\';
    assert(s.push(x).drop_last() =~= s);
    let inner = replaced(s, q, seq![q, q]);
    let piece = if x == q { seq![q, q] } else { seq![x] };
    assert(replaced(s.push(x), q, seq![q, q]) == inner + piece);
    lemma_replaced_append(inner, piece, b, seq![b, b]);
    if x == q {
        lemma_replaced_append(seq![q], seq![q], b, seq![b, b]);
        assert(seq![q] + seq![q] =~= seq![q, q]);
        lemma_replaced_one(q, b, seq![b, b]);
        assert(seq![q] + seq![q] =~= seq![q, q]);
    } else {
        lemma_replaced_one(x, b, seq![b, b]);
    }
}

/// The escaped text is as long as the text plus one for each `'` and each `\`
/// in it, and its single quotes come in adjacent pairs.
pub proof fn law_sql_escaped_shape(s: Seq<char>)
    ensures
        sql_escaped(s).len() == s.len() + count_char(s, '\'') + count_char(s, '\\'),
        quotes_paired(sql_escaped(s)),
    decreases s.len(),
{
    if s.len() == 0 {
        assert(sql_escaped(s) =~= Seq::<char>::empty());
    } else {
        let p = s.drop_last();
        let x = s.last();
        law_sql_escaped_shape(p);
        assert(s =~= p.push(x));
        lemma_sql_escaped_push(p, x);
        let e = sql_escaped(p);
        let t = e + escaped_char(x);
        if x == '\'' {
            assert(t.last() == '\'');
            assert(t[t.len() - 2] == '\'');
            assert(t.take(t.len() - 2) =~= e);
        } else if x == '\\' {
            let d = t.drop_last();
            assert(t.last() == '\\');
            assert(d.drop_last() =~= e);
            assert(d.last() == '\\');
            assert(quotes_paired(d));
        } else {
            assert(t.last() == x);
            assert(t.drop_last() =~= e);
        }
    }
}

} // verus!

verus! {

/// Upper-casing ASCII text gives ASCII text that upper-casing leaves as it is.
pub proof fn law_upper_text_idempotent(s: Seq<char>)
    requires
        is_ascii_text(s),
    ensures
        is_ascii_text(upper_text(s)),
        upper_text(upper_text(s)) == upper_text(s),
{
    let u = s.map_values(|c: char| ascii_upper(c));
    assert forall|i: int| 0 <= i < u.len() implies (#[trigger] u[i] as u32) < 128 by {
        assert(u[i] == ascii_upper(s[i]));
        assert((s[i] as u32) < 128);
    }
    assert forall|i: int| 0 <= i < u.len() implies #[trigger] ascii_upper(u[i]) == u[i] by {
        assert(u[i] == ascii_upper(s[i]));
    }
    assert(u.map_values(|c: char| ascii_upper(c)) =~= u);
}

} // verus!
