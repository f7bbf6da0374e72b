//! Character-level text facts shared by the parsers and message builders:
//! decimal and hexadecimal numerals, and the `std` string functions they call.

use vstd::prelude::*;
use vstd::std_specs::iter::IteratorSpec;
use vstd::utf8::*;

verus! {

/// The value of `c` as a digit in `radix` (10 or 16), as `char::to_digit` gives it.
pub open spec fn digit_of(c: char, radix: nat) -> Option<nat> {
    if '0' <= c <= '9' && (c as int) - ('0' as int) < radix {
        Some(((c as int) - ('0' as int)) as nat)
    } else if radix == 16 && 'a' <= c <= 'f' {
        Some(((c as int) - ('a' as int) + 10) as nat)
    } else if radix == 16 && 'A' <= c <= 'F' {
        Some(((c as int) - ('A' as int) + 10) as nat)
    } else {
        None
    }
}

/// Whether every character of `s` is a digit in `radix`.
pub open spec fn all_digits(s: Seq<char>, radix: nat) -> bool {
    forall|i: int| 0 <= i < s.len() ==> (#[trigger] digit_of(s[i], radix)) is Some
}

/// The value of a string of digits in `radix`, most significant first.
pub open spec fn digits_value(s: Seq<char>, radix: nat) -> nat
    decreases s.len(),
{
    if s.len() == 0 {
        0
    } else {
        digits_value(s.drop_last(), radix) * radix + match digit_of(s.last(), radix) {
            Some(d) => d,
            None => 0,
        }
    }
}

/// What `u64::from_str_radix` (and `str::parse` for radix 10) accepts: an optional
/// leading `+`, then at least one digit, with a value not above `max`.
pub open spec fn parse_unsigned(s: Seq<char>, radix: nat, max: nat) -> Option<nat> {
    let digits = if s.len() > 0 && s[0] == '+' {
        s.drop_first()
    } else {
        s
    };
    if digits.len() > 0 && all_digits(digits, radix) && digits_value(digits, radix) <= max {
        Some(digits_value(digits, radix))
    } else {
        None
    }
}

/// `parse_unsigned` for `u64`.
pub open spec fn parse_u64_spec(s: Seq<char>, radix: nat) -> Option<u64> {
    match parse_unsigned(s, radix, u64::MAX as nat) {
        Some(v) => Some(v as u64),
        None => None,
    }
}

/// `parse_unsigned` for `u32`.
pub open spec fn parse_u32_spec(s: Seq<char>) -> Option<u32> {
    match parse_unsigned(s, 10, u32::MAX as nat) {
        Some(v) => Some(v as u32),
        None => None,
    }
}

/// `str::parse::<u64>`.
#[verifier::external_body]
pub(crate) fn parse_u64(s: &str) -> (r: Option<u64>)
    ensures
        r == parse_u64_spec(s@, 10),
{
    s.parse::<u64>().ok()
}

/// `str::parse::<u32>`.
#[verifier::external_body]
pub(crate) fn parse_u32(s: &str) -> (r: Option<u32>)
    ensures
        r == parse_u32_spec(s@),
{
    s.parse::<u32>().ok()
}

/// `u64::from_str_radix(s, 16)`.
#[verifier::external_body]
pub(crate) fn parse_hex_u64(s: &str) -> (r: Option<u64>)
    ensures
        r == parse_u64_spec(s@, 16),
{
    u64::from_str_radix(s, 16).ok()
}

/// The digit character for `d < 16` (lower-case letters above 9).
pub open spec fn digit_char(d: nat) -> char {
    if d < 10 {
        ((d + ('0' as int)) as u32) as char
    } else {
        ((d - 10 + ('a' as int)) as u32) as char
    }
}

/// The shortest numeral of `n` in `radix` (10 or 16), as `Display` / `{:x}` write it.
pub open spec fn numeral(n: nat, radix: nat) -> Seq<char>
    recommends
        radix >= 2,
    decreases n,
{
    if radix < 2 || n < radix {
        seq![digit_char(n)]
    } else {
        proof {
            assert(n / radix < n) by (nonlinear_arith)
                requires
                    radix >= 2,
                    n >= radix,
            ;
        }
        numeral(n / radix, radix) + seq![digit_char(n % radix)]
    }
}

/// The decimal numeral of `n`.
pub open spec fn decimal(n: nat) -> Seq<char> {
    numeral(n, 10)
}

/// `u64::to_string`: the decimal numeral.
#[verifier::external_body]
pub(crate) fn u64_to_decimal(x: u64) -> (r: String)
    ensures
        r@ == decimal(x as nat),
{
    x.to_string()
}

/// `format!("{:#x}", x)`: `0x` followed by the lower-case hexadecimal numeral.
#[verifier::external_body]
pub(crate) fn u64_to_hex_prefixed(x: u64) -> (r: String)
    ensures
        r@ == seq!['0', 'x'] + numeral(x as nat, 16),
{
    format!("{:#x}", x)
}

/// `s` padded on the left with `'0'` to at least `width` characters.
pub open spec fn zero_padded(s: Seq<char>, width: nat) -> Seq<char> {
    if s.len() < width {
        Seq::new((width - s.len()) as nat, |i: int| '0') + s
    } else {
        s
    }
}

/// `format!("{:#010x}", x)`: `0x` followed by the lower-case hexadecimal
/// numeral, zero-padded to eight digits.
#[verifier::external_body]
pub(crate) fn u32_to_hex_padded(x: u32) -> (r: String)
    ensures
        r@ == seq!['0', 'x'] + zero_padded(numeral(x as nat, 16), 8),
{
    format!("{:#010x}", x)
}

/// `format!("{:#018x}", x)`: `0x` followed by the lower-case hexadecimal
/// numeral, zero-padded to sixteen digits.
#[verifier::external_body]
pub(crate) fn u64_to_hex_padded(x: u64) -> (r: String)
    ensures
        r@ == seq!['0', 'x'] + zero_padded(numeral(x as nat, 16), 16),
{
    format!("{:#018x}", x)
}

/// `std::str::from_utf8`: the decoded text when the bytes are valid UTF-8.
#[verifier::external_body]
pub(crate) fn utf8_to_str(bytes: &[u8]) -> (r: Option<&str>)
    ensures
        r is Some <==> valid_utf8(bytes@),
        r matches Some(s) ==> s@ == decode_utf8(bytes@),
{
    std::str::from_utf8(bytes).ok()
}

/// What `format!("{:?}", s)` gives for a string slice: the quoted, escaped text.
pub uninterp spec fn debug_text_spec(s: Seq<char>) -> Seq<char>;

/// `format!("{:?}", s)` for a string slice.
#[verifier::external_body]
pub(crate) fn debug_text(s: &str) -> (r: String)
    ensures
        r@ == debug_text_spec(s@),
{
    format!("{:?}", s)
}

/// What the `Display` of `std::str::from_utf8`'s error says for invalid bytes.
pub uninterp spec fn utf8_error_text_spec(bytes: Seq<u8>) -> Seq<char>;

/// The message of `std::str::from_utf8`'s error for `bytes` (empty when they
/// are valid UTF-8).
#[verifier::external_body]
pub(crate) fn utf8_error_text(bytes: &[u8]) -> (r: String)
    ensures
        !valid_utf8(bytes@) ==> r@ == utf8_error_text_spec(bytes@),
{
    match std::str::from_utf8(bytes) {
        Err(e) => e.to_string(),
        Ok(_) => String::new(),
    }
}

/// The characters of `s`, in order.
pub fn chars_of(s: &str) -> (v: Vec<char>)
    ensures
        v@ == s@,
{
    let mut v: Vec<char> = Vec::new();
    for c in it: s.chars()
        invariant
            it.seq() == s@,
            v@ == it.seq().take(it.index() as int),
    {
        v.push(c);
        assert(v@ =~= it.seq().take(it.index() + 1));
    }
    assert(v@ =~= s@);
    v
}

/// Whether `c` is white space as `char::is_whitespace` defines it (the Unicode
/// `White_Space` property).
pub open spec fn is_whitespace(c: char) -> bool {
    ('\u{9}' <= c <= '\u{d}') || c == ' ' || c == '\u{85}' || c == '\u{a0}' || c == '\u{1680}'
        || ('\u{2000}' <= c <= '\u{200a}') || c == '\u{2028}' || c == '\u{2029}' || c
        == '\u{202f}' || c == '\u{205f}' || c == '\u{3000}'
}

/// `is_whitespace` as a predicate value.
pub open spec fn ws_pred() -> spec_fn(char) -> bool {
    |c: char| is_whitespace(c)
}

pub fn char_is_whitespace(c: char) -> (b: bool)
    ensures
        b == is_whitespace(c),
{
    ('\u{9}' <= c && c <= '\u{d}') || c == ' ' || c == '\u{85}' || c == '\u{a0}' || c
        == '\u{1680}' || ('\u{2000}' <= c && c <= '\u{200a}') || c == '\u{2028}' || c
        == '\u{2029}' || c == '\u{202f}' || c == '\u{205f}' || c == '\u{3000}'
}

/// The number of leading characters of `s` from `i` on that satisfy `p`.
pub open spec fn count_leading(s: Seq<char>, i: int, p: spec_fn(char) -> bool) -> nat
    decreases s.len() - i,
{
    if i < 0 || i >= s.len() || !p(s[i]) {
        0
    } else {
        1 + count_leading(s, i + 1, p)
    }
}

/// The number of trailing characters of `s.take(end)` that satisfy `p`.
pub open spec fn count_trailing(s: Seq<char>, end: int, p: spec_fn(char) -> bool) -> nat
    decreases end,
{
    if end <= 0 || end > s.len() || !p(s[end - 1]) {
        0
    } else {
        1 + count_trailing(s, end - 1, p)
    }
}

/// `s` without leading and trailing white space (`str::trim`).
pub open spec fn trim_spec(s: Seq<char>) -> Seq<char> {
    let a = count_leading(s, 0, ws_pred());
    if a == s.len() {
        Seq::empty()
    } else {
        let b = count_trailing(s, s.len() as int, ws_pred());
        s.subrange(a as int, s.len() - b)
    }
}

proof fn lemma_count_leading_bound(s: Seq<char>, i: int, p: spec_fn(char) -> bool)
    requires
        0 <= i <= s.len(),
    ensures
        i + count_leading(s, i, p) <= s.len(),
    decreases s.len() - i,
{
    if i < s.len() && p(s[i]) {
        lemma_count_leading_bound(s, i + 1, p);
    }
}

proof fn lemma_count_trailing_bound(s: Seq<char>, end: int, p: spec_fn(char) -> bool)
    requires
        0 <= end <= s.len(),
    ensures
        count_trailing(s, end, p) <= end,
    decreases end,
{
    if end > 0 && p(s[end - 1]) {
        lemma_count_trailing_bound(s, end - 1, p);
    }
}

/// Skip the characters from `i` on that satisfy `is_ws_like`: returns the index
/// of the first that does not (or the length).
pub fn skip_leading_whitespace(v: &Vec<char>, i: usize) -> (j: usize)
    requires
        i <= v@.len(),
    ensures
        j == i + count_leading(v@, i as int, ws_pred()),
        j <= v@.len(),
{
    let mut j = i;
    while j < v.len() && char_is_whitespace(v[j])
        invariant
            i <= j <= v@.len(),
            count_leading(v@, i as int, ws_pred()) == (j - i) + count_leading(
                v@,
                j as int,
                ws_pred(),
            ),
        decreases v@.len() - j,
    {
        j = j + 1;
    }
    j
}

proof fn lemma_count_leading_stop(s: Seq<char>, i: int, p: spec_fn(char) -> bool)
    requires
        0 <= i <= s.len(),
        i + count_leading(s, i, p) < s.len(),
    ensures
        !p(s[i + count_leading(s, i, p)]),
    decreases s.len() - i,
{
    if i < s.len() && p(s[i]) {
        lemma_count_leading_stop(s, i + 1, p);
    }
}

/// `str::trim`: `s` without leading and trailing white space.
pub fn trim(s: &str) -> (r: &str)
    ensures
        r@ == trim_spec(s@),
{
    let v = chars_of(s);
    let ghost p = ws_pred();
    let a = skip_leading_whitespace(&v, 0);
    if a == v.len() {
        return s.substring_char(0, 0);
    }
    proof {
        lemma_count_leading_stop(v@, 0, p);
    }
    let mut b = v.len();
    loop
        invariant
            a < b <= v@.len(),
            v@.len() == v.len(),
            p == ws_pred(),
            !is_whitespace(v@[a as int]),
            count_trailing(v@, v@.len() as int, p) == (v@.len() - b) + count_trailing(
                v@,
                b as int,
                p,
            ),
        ensures
            count_trailing(v@, v@.len() as int, p) == v@.len() - b,
            a < b,
        decreases b,
    {
        if !char_is_whitespace(v[b - 1]) {
            assert(!p(v@[b - 1]));
            break;
        }
        assert(p(v@[b - 1]));
        assert(count_trailing(v@, b as int, p) == 1 + count_trailing(v@, b - 1, p));
        b = b - 1;
    }
    s.substring_char(a, b)
}

/// The first index at or after `i` where `key` occurs in `s`.
pub open spec fn find_from(s: Seq<char>, key: Seq<char>, i: int) -> Option<int>
    decreases s.len() + 1 - i,
{
    if i < 0 || i + key.len() > s.len() {
        None
    } else if s.subrange(i, i + key.len()) == key {
        Some(i)
    } else {
        find_from(s, key, i + 1)
    }
}

/// `str::find`: the first index where `key` occurs in `s`.
pub open spec fn find_spec(s: Seq<char>, key: Seq<char>) -> Option<int> {
    find_from(s, key, 0)
}

pub proof fn lemma_find_from_bounds(s: Seq<char>, key: Seq<char>, i: int)
    ensures
        find_from(s, key, i) matches Some(k) ==> i <= k && k + key.len() <= s.len() && s.subrange(
            k,
            k + key.len(),
        ) == key,
    decreases s.len() + 1 - i,
{
    if !(i < 0 || i + key.len() > s.len()) && s.subrange(i, i + key.len()) != key {
        lemma_find_from_bounds(s, key, i + 1);
    }
}

fn occurs_at(v: &Vec<char>, key: &Vec<char>, i: usize) -> (b: bool)
    requires
        i + key@.len() <= v@.len(),
    ensures
        b == (v@.subrange(i as int, i + key@.len()) == key@),
{
    let mut k: usize = 0;
    while k < key.len()
        invariant
            i + key@.len() <= v@.len(),
            v@.len() == v.len(),
            key@.len() == key.len(),
            k <= key@.len(),
            forall|j: int| 0 <= j < k ==> v@[i + j] == key@[j],
        decreases key@.len() - k,
    {
        if v[i + k] != key[k] {
            assert(v@.subrange(i as int, i + key@.len())[k as int] != key@[k as int]);
            return false;
        }
        k = k + 1;
    }
    assert(v@.subrange(i as int, i + key@.len()) =~= key@);
    true
}

/// The first index at or after `i` where `key` occurs in `v`.
pub fn find_chars(v: &Vec<char>, key: &Vec<char>, i: usize) -> (r: Option<usize>)
    requires
        i <= v@.len(),
    ensures
        r matches Some(k) ==> find_from(v@, key@, i as int) == Some(k as int),
        r is None ==> find_from(v@, key@, i as int) is None,
{
    proof {
        lemma_find_from_bounds(v@, key@, i as int);
    }
    if key.len() > v.len() {
        return None;
    }
    if key.len() == 0 {
        assert(v@.subrange(i as int, i as int) =~= key@);
        return Some(i);
    }
    let last = v.len() - key.len();
    let mut j = i;
    while j <= last
        invariant
            i <= j,
            last + key@.len() == v@.len(),
            key@.len() > 0,
            v@.len() == v.len(),
            find_from(v@, key@, i as int) == find_from(v@, key@, j as int),
        decreases last + 1 - j,
    {
        if occurs_at(v, key, j) {
            return Some(j);
        }
        j = j + 1;
    }
    None
}

/// Whether two character lists are equal.
pub fn chars_eq(a: &Vec<char>, b: &Vec<char>) -> (r: bool)
    ensures
        r == (a@ == b@),
{
    if a.len() != b.len() {
        return false;
    }
    let mut i: usize = 0;
    while i < a.len()
        invariant
            a@.len() == b@.len(),
            i <= a@.len(),
            forall|j: int| 0 <= j < i ==> a@[j] == b@[j],
        decreases a@.len() - i,
    {
        if a[i] != b[i] {
            return false;
        }
        i = i + 1;
    }
    assert(a@ =~= b@);
    true
}

/// Whether two strings are equal.
pub fn str_eq(a: &str, b: &str) -> (r: bool)
    ensures
        r == (a@ == b@),
{
    chars_eq(&chars_of(a), &chars_of(b))
}

/// The pieces of `s` from `pos` on, split at `sep` into at most `n` pieces (the
/// last piece keeps any further separators), as `str::splitn` gives them.
pub open spec fn splitn_from(s: Seq<char>, pos: int, n: nat, sep: char) -> Seq<Seq<char>>
    decreases n,
{
    if n == 0 {
        Seq::empty()
    } else if n == 1 {
        seq![s.subrange(pos, s.len() as int)]
    } else {
        match find_from(s, seq![sep], pos) {
            Some(k) => seq![s.subrange(pos, k)] + splitn_from(s, k + 1, (n - 1) as nat, sep),
            None => seq![s.subrange(pos, s.len() as int)],
        }
    }
}

/// `str::splitn(n, sep)`.
pub open spec fn splitn_spec(s: Seq<char>, n: nat, sep: char) -> Seq<Seq<char>> {
    splitn_from(s, 0, n, sep)
}

/// `str::splitn(n, sep)`, collected.
pub fn splitn<'a>(s: &'a str, n: usize, sep: char) -> (r: Vec<&'a str>)
    ensures
        r@.map_values(|p: &str| p@) == splitn_spec(s@, n as nat, sep),
{
    let v = chars_of(s);
    let key = vec![sep];
    assert(key@ == seq![sep]);
    let mut out: Vec<&'a str> = Vec::new();
    if n == 0 {
        assert(out@.map_values(|p: &str| p@) =~= splitn_spec(s@, n as nat, sep));
        return out;
    }
    let mut pos: usize = 0;
    let mut left: usize = n;
    loop
        invariant_except_break
            out@.map_values(|p: &str| p@) + splitn_from(v@, pos as int, left as nat, sep)
                == splitn_from(v@, 0, n as nat, sep),
            left >= 1,
        invariant
            v@ == s@,
            v@.len() == v.len(),
            key@ == seq![sep],
            pos <= v@.len(),
        ensures
            out@.map_values(|p: &str| p@) == splitn_from(v@, 0, n as nat, sep),
        decreases left,
    {
        let ghost before = out@.map_values(|p: &str| p@);
        if left == 1 {
            out.push(s.substring_char(pos, v.len()));
            assert(out@.map_values(|p: &str| p@) =~= before + splitn_from(
                v@,
                pos as int,
                left as nat,
                sep,
            ));
            break;
        }
        match find_chars(&v, &key, pos) {
            Some(k) => {
                proof {
                    lemma_find_from_bounds(v@, key@, pos as int);
                }
                out.push(s.substring_char(pos, k));
                assert(out@.map_values(|p: &str| p@) =~= before.push(v@.subrange(pos as int, k as int)));
                assert(before.push(v@.subrange(pos as int, k as int)) + splitn_from(
                    v@,
                    k + 1,
                    (left - 1) as nat,
                    sep,
                ) =~= before + splitn_from(v@, pos as int, left as nat, sep));
                pos = k + 1;
                left = left - 1;
            },
            None => {
                out.push(s.substring_char(pos, v.len()));
                assert(out@.map_values(|p: &str| p@) =~= before + splitn_from(
                    v@,
                    pos as int,
                    left as nat,
                    sep,
                ));
                break;
            },
        }
    }
    out
}

proof fn lemma_find_char_at(s: Seq<char>, sep: char, pos: int, k: int)
    requires
        0 <= pos <= k < s.len(),
        s[k] == sep,
        forall|i: int| pos <= i < k ==> s[i] != sep,
    ensures
        find_from(s, seq![sep], pos) == Some(k),
    decreases k - pos,
{
    if pos == k {
        assert(s.subrange(pos, pos + 1) =~= seq![sep]);
    } else {
        assert(s.subrange(pos, pos + 1)[0] == s[pos]);
        assert(s.subrange(pos, pos + 1) != seq![sep]);
        lemma_find_char_at(s, sep, pos + 1, k);
    }
}

/// Splitting at a separator: when the first separator at or after `pos` is
/// at `k`, the first of at least two pieces is `s[pos..k]` and the rest are the
/// pieces after `k`.
pub proof fn lemma_splitn_word(s: Seq<char>, pos: int, k: int, n: nat, sep: char)
    requires
        0 <= pos <= k < s.len(),
        s[k] == sep,
        forall|i: int| pos <= i < k ==> s[i] != sep,
        n >= 2,
    ensures
        splitn_from(s, pos, n, sep) == seq![s.subrange(pos, k)] + splitn_from(s, k + 1, (n - 1) as nat, sep),
{
    lemma_find_char_at(s, sep, pos, k);
}

} // verus!
