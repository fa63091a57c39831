//! Character-level text utilities shared by the extractor, the session
//! sentinel check and the JSON encoders.
use vstd::prelude::*;

verus! {

/// The characters of `s`, in order, as a vector.
pub fn str_to_chars(s: &str) -> (r: Vec<char>)
    ensures
        r@ == s@,
{
    let n: usize = s.unicode_len();
    let mut r: Vec<char> = Vec::new();
    let mut i: usize = 0;
    while i < n
        invariant
            n == s@.len(),
            i <= n,
            r@ == s@.take(i as int),
        decreases n - i,
    {
        r.push(s.get_char(i));
        i = i + 1;
        proof {
            assert(r@ =~= s@.take(i as int));
        }
    }
    proof {
        assert(s@.take(n as int) =~= s@);
    }
    r
}

/// Appends every character of `src` to `dst`, in order.
pub fn append_chars(dst: &mut Vec<char>, src: &Vec<char>)
    ensures
        final(dst)@ == old(dst)@ + src@,
{
    let n: usize = src.len();
    let mut t: usize = 0;
    while t < n
        invariant
            t <= n == src@.len(),
            dst@ == old(dst)@ + src@.take(t as int),
        decreases n - t,
    {
        dst.push(src[t]);
        t = t + 1;
        proof {
            assert(old(dst)@ + src@.take(t as int) =~= (old(dst)@ + src@.take(
                t - 1,
            )).push(src@[t - 1]));
        }
    }
    proof {
        assert(src@.take(n as int) =~= src@);
    }
}

/// Relies on `String::from_iter` over `std::iter::Iterator::copied`: collecting
/// characters yields the string of exactly those characters in order.
#[verifier::external_body]
pub fn string_from_chars(v: &Vec<char>) -> (r: String)
    ensures
        r@ == v@,
{
    String::from_iter(v.iter().copied())
}

// ---------------------------------------------------------------------------
// Decimal digits
// ---------------------------------------------------------------------------
pub open spec fn spec_digit_char(d: nat) -> char {
    if d == 0 {
        '0'
    } else if d == 1 {
        '1'
    } else if d == 2 {
        '2'
    } else if d == 3 {
        '3'
    } else if d == 4 {
        '4'
    } else if d == 5 {
        '5'
    } else if d == 6 {
        '6'
    } else if d == 7 {
        '7'
    } else if d == 8 {
        '8'
    } else {
        '9'
    }
}

/// The decimal digits of `n`, most significant first, with no leading zero
/// except for `n == 0` itself.
pub open spec fn spec_decimal_digits(n: nat) -> Seq<char>
    decreases n,
{
    if n < 10 {
        seq![spec_digit_char(n)]
    } else {
        spec_decimal_digits(n / 10).push(spec_digit_char(n % 10))
    }
}

pub(crate) fn digit_to_char(d: u32) -> (c: char)
    requires
        d < 10,
    ensures
        c == spec_digit_char(d as nat),
{
    match d {
        0 => '0',
        1 => '1',
        2 => '2',
        3 => '3',
        4 => '4',
        5 => '5',
        6 => '6',
        7 => '7',
        8 => '8',
        _ => '9',
    }
}

/// The decimal digits of `n` as characters.
pub fn u32_to_chars(n: u32) -> (r: Vec<char>)
    ensures
        r@ == spec_decimal_digits(n as nat),
    decreases n,
{
    if n < 10 {
        let mut r: Vec<char> = Vec::new();
        r.push(digit_to_char(n));
        proof {
            assert(r@ =~= seq![spec_digit_char(n as nat)]);
        }
        r
    } else {
        let mut r = u32_to_chars(n / 10);
        r.push(digit_to_char(n % 10));
        r
    }
}

/// The decimal digits of `n` as a string.
pub fn u32_to_string(n: u32) -> (r: String)
    ensures
        r@ == spec_decimal_digits(n as nat),
{
    let chars = u32_to_chars(n);
    string_from_chars(&chars)
}

// ---------------------------------------------------------------------------
// The zero test on decimal number text
// ---------------------------------------------------------------------------
/// One or more characters, all `'0'`.
pub open spec fn spec_zero_frac(u: Seq<char>) -> bool
    decreases u.len(),
{
    if u.len() == 0 {
        false
    } else if u[0] != '0' {
        false
    } else if u.len() == 1 {
        true
    } else {
        spec_zero_frac(u.skip(1))
    }
}

/// One or more `'0'` digits, optionally followed by a point and one or more
/// `'0'` digits.
pub open spec fn spec_zero_mantissa(u: Seq<char>) -> bool
    decreases u.len(),
{
    if u.len() == 0 {
        false
    } else if u[0] != '0' {
        false
    } else if u.len() == 1 {
        true
    } else if u[1] == '.' {
        spec_zero_frac(u.skip(2))
    } else {
        spec_zero_mantissa(u.skip(1))
    }
}

/// Whether a decimal numeral denotes exactly zero: an optional sign, then all
/// `'0'` digits around at most one decimal point.
pub open spec fn spec_is_zero_decimal(s: Seq<char>) -> bool {
    if s.len() > 0 && (s[0] == '+' || s[0] == '-') {
        spec_zero_mantissa(s.skip(1))
    } else {
        spec_zero_mantissa(s)
    }
}

fn zero_frac_at(v: &Vec<char>, i: usize) -> (r: bool)
    requires
        i <= v@.len(),
    ensures
        r == spec_zero_frac(v@.skip(i as int)),
    decreases v@.len() - i,
{
    let n = v.len();
    if i == n {
        return false;
    }
    assert(v@.skip(i as int)[0] == v@[i as int]);
    if v[i] != '0' {
        return false;
    }
    if i + 1 == n {
        return true;
    }
    proof {
        assert(v@.skip(i as int).skip(1) =~= v@.skip(i + 1));
    }
    zero_frac_at(v, i + 1)
}

fn zero_mantissa_at(v: &Vec<char>, i: usize) -> (r: bool)
    requires
        i <= v@.len(),
    ensures
        r == spec_zero_mantissa(v@.skip(i as int)),
    decreases v@.len() - i,
{
    let n = v.len();
    if i == n {
        return false;
    }
    assert(v@.skip(i as int)[0] == v@[i as int]);
    if v[i] != '0' {
        return false;
    }
    if i + 1 == n {
        return true;
    }
    assert(v@.skip(i as int)[1] == v@[i + 1]);
    if v[i + 1] == '.' {
        proof {
            assert(v@.skip(i as int).skip(2) =~= v@.skip(i + 2));
        }
        zero_frac_at(v, i + 2)
    } else {
        proof {
            assert(v@.skip(i as int).skip(1) =~= v@.skip(i + 1));
        }
        zero_mantissa_at(v, i + 1)
    }
}

/// Whether the decimal numeral `s` denotes exactly zero.
pub fn is_zero_decimal(s: &str) -> (r: bool)
    ensures
        r == spec_is_zero_decimal(s@),
{
    let v = str_to_chars(s);
    if v.len() > 0 && (v[0] == '+' || v[0] == '-') {
        zero_mantissa_at(&v, 1)
    } else {
        proof {
            assert(v@.skip(0) =~= v@);
        }
        zero_mantissa_at(&v, 0)
    }
}

// ---------------------------------------------------------------------------
// Temperature text
// ---------------------------------------------------------------------------
/// The shortest decimal text of a fraction of `f` thousandths, `0 < f < 1000`:
/// three zero-padded digits with trailing zeros removed.
pub open spec fn spec_frac3(f: nat) -> Seq<char> {
    if f % 10 != 0 {
        seq![spec_digit_char(f / 100), spec_digit_char((f / 10) % 10), spec_digit_char(f % 10)]
    } else if f % 100 != 0 {
        seq![spec_digit_char(f / 100), spec_digit_char((f / 10) % 10)]
    } else {
        seq![spec_digit_char(f / 100)]
    }
}

/// The decimal text of a temperature of `m` thousandths: the whole part, then
/// a point and the shortest non-empty fraction when `m` is no whole number.
pub open spec fn spec_temperature_text(m: nat) -> Seq<char> {
    if m % 1000 == 0 {
        spec_decimal_digits(m / 1000)
    } else {
        spec_decimal_digits(m / 1000) + seq!['.'] + spec_frac3(m % 1000)
    }
}

/// The decimal text of a temperature of `m` thousandths.
pub fn temperature_chars(m: u32) -> (r: Vec<char>)
    ensures
        r@ == spec_temperature_text(m as nat),
{
    let whole = m / 1000;
    let f = m % 1000;
    let mut r = u32_to_chars(whole);
    if f == 0 {
        return r;
    }
    let ghost before = r@;
    r.push('.');
    r.push(digit_to_char(f / 100));
    if f % 10 != 0 {
        r.push(digit_to_char((f / 10) % 10));
        r.push(digit_to_char(f % 10));
        proof {
            assert(r@ =~= before + seq!['.'] + spec_frac3((f % 1000) as nat));
        }
    } else if f % 100 != 0 {
        r.push(digit_to_char((f / 10) % 10));
        proof {
            assert(r@ =~= before + seq!['.'] + spec_frac3((f % 1000) as nat));
        }
    } else {
        proof {
            assert(r@ =~= before + seq!['.'] + spec_frac3((f % 1000) as nat));
        }
    }
    r
}

// ---------------------------------------------------------------------------
// ASCII trimming and case-insensitive comparison
// ---------------------------------------------------------------------------
pub open spec fn is_ascii_ws(c: char) -> bool {
    c == ' ' || c == '\t' || c == '\r' || c == '\n'
}

pub open spec fn spec_trim_start(s: Seq<char>) -> Seq<char>
    decreases s.len(),
{
    if s.len() > 0 && is_ascii_ws(s[0]) {
        spec_trim_start(s.skip(1))
    } else {
        s
    }
}

pub open spec fn spec_trim_end(s: Seq<char>) -> Seq<char>
    decreases s.len(),
{
    if s.len() > 0 && is_ascii_ws(s[s.len() - 1]) {
        spec_trim_end(s.take(s.len() - 1))
    } else {
        s
    }
}

/// `s` without leading and trailing ASCII whitespace.
pub open spec fn spec_trim(s: Seq<char>) -> Seq<char> {
    spec_trim_end(spec_trim_start(s))
}

fn char_is_ws(c: char) -> (r: bool)
    ensures
        r == is_ascii_ws(c),
{
    c == ' ' || c == '\t' || c == '\r' || c == '\n'
}

/// The characters of `v` without leading and trailing ASCII whitespace.
pub fn trim_chars(v: &Vec<char>) -> (r: Vec<char>)
    ensures
        r@ == spec_trim(v@),
{
    let n = v.len();
    let mut start: usize = 0;
    proof {
        assert(v@.skip(0) =~= v@);
    }
    while start < n && char_is_ws(v[start])
        invariant
            start <= n == v@.len(),
            spec_trim_start(v@) == spec_trim_start(v@.skip(start as int)),
        decreases n - start,
    {
        proof {
            assert(v@.skip(start as int).skip(1) =~= v@.skip(start + 1));
        }
        start = start + 1;
    }
    let ghost u = v@.skip(start as int);
    proof {
        if start == n {
            assert(u =~= Seq::<char>::empty());
        }
        assert(spec_trim_start(v@) == u);
    }
    let mut end: usize = n;
    proof {
        assert(u.take(n - start) =~= u);
    }
    while end > start && char_is_ws(v[end - 1])
        invariant
            start <= end <= n == v@.len(),
            u == v@.skip(start as int),
            spec_trim_end(u) == spec_trim_end(u.take(end - start)),
        decreases end,
    {
        proof {
            assert(u.take(end - start)[end - start - 1] == v@[end - 1]);
            assert(u.take(end - start).take(end - start - 1) =~= u.take(end - 1 - start));
        }
        end = end - 1;
    }
    proof {
        if end == start {
            assert(u.take(0) =~= Seq::<char>::empty());
        } else {
            assert(u.take(end - start)[end - start - 1] == v@[end - 1]);
        }
        assert(spec_trim_end(u) == u.take(end - start));
    }
    let mut r: Vec<char> = Vec::new();
    let mut i: usize = start;
    while i < end
        invariant
            start <= i <= end <= v@.len(),
            r@ == v@.subrange(start as int, i as int),
        decreases end - i,
    {
        r.push(v[i]);
        i = i + 1;
        proof {
            assert(v@.subrange(start as int, i as int) =~= v@.subrange(start as int, i - 1).push(
                v@[i - 1],
            ));
        }
    }
    proof {
        assert(v@.subrange(start as int, end as int) =~= u.take(end - start));
    }
    r
}

// ---------------------------------------------------------------------------
// ASCII upper-casing
// ---------------------------------------------------------------------------
pub open spec fn spec_upper_char(c: char) -> char {
    if c == 'a' {
        'A'
    } else if c == 'b' {
        'B'
    } else if c == 'c' {
        'C'
    } else if c == 'd' {
        'D'
    } else if c == 'e' {
        'E'
    } else if c == 'f' {
        'F'
    } else if c == 'g' {
        'G'
    } else if c == 'h' {
        'H'
    } else if c == 'i' {
        'I'
    } else if c == 'j' {
        'J'
    } else if c == 'k' {
        'K'
    } else if c == 'l' {
        'L'
    } else if c == 'm' {
        'M'
    } else if c == 'n' {
        'N'
    } else if c == 'o' {
        'O'
    } else if c == 'p' {
        'P'
    } else if c == 'q' {
        'Q'
    } else if c == 'r' {
        'R'
    } else if c == 's' {
        'S'
    } else if c == 't' {
        'T'
    } else if c == 'u' {
        'U'
    } else if c == 'v' {
        'V'
    } else if c == 'w' {
        'W'
    } else if c == 'x' {
        'X'
    } else if c == 'y' {
        'Y'
    } else if c == 'z' {
        'Z'
    } else {
        c
    }
}

/// `s` with each lower-case ASCII letter replaced by its upper-case form.
pub open spec fn spec_ascii_upper(s: Seq<char>) -> Seq<char> {
    s.map_values(|c: char| spec_upper_char(c))
}

fn upper_char(c: char) -> (r: char)
    ensures
        r == spec_upper_char(c),
{
    match c {
        'a' => 'A',
        'b' => 'B',
        'c' => 'C',
        'd' => 'D',
        'e' => 'E',
        'f' => 'F',
        'g' => 'G',
        'h' => 'H',
        'i' => 'I',
        'j' => 'J',
        'k' => 'K',
        'l' => 'L',
        'm' => 'M',
        'n' => 'N',
        'o' => 'O',
        'p' => 'P',
        'q' => 'Q',
        'r' => 'R',
        's' => 'S',
        't' => 'T',
        'u' => 'U',
        'v' => 'V',
        'w' => 'W',
        'x' => 'X',
        'y' => 'Y',
        'z' => 'Z',
        _ => c,
    }
}

/// `s` with each lower-case ASCII letter upper-cased.
pub fn ascii_uppercase(s: &str) -> (r: String)
    ensures
        r@ == spec_ascii_upper(s@),
{
    let v = str_to_chars(s);
    let n = v.len();
    let mut out: Vec<char> = Vec::new();
    let mut i: usize = 0;
    proof {
        assert(out@ =~= spec_ascii_upper(v@.take(0)));
    }
    while i < n
        invariant
            i <= n == v@.len(),
            v@ == s@,
            out@ == spec_ascii_upper(v@.take(i as int)),
        decreases n - i,
    {
        out.push(upper_char(v[i]));
        i = i + 1;
        proof {
            assert(out@ =~= spec_ascii_upper(v@.take(i as int)));
        }
    }
    proof {
        assert(v@.take(n as int) =~= v@);
    }
    string_from_chars(&out)
}

// ---------------------------------------------------------------------------
// Joining words
// ---------------------------------------------------------------------------
/// The given words joined with single spaces.
pub open spec fn spec_join_words(ws: Seq<Seq<char>>) -> Seq<char>
    decreases ws.len(),
{
    if ws.len() == 0 {
        Seq::<char>::empty()
    } else if ws.len() == 1 {
        ws[0]
    } else {
        spec_join_words(ws.drop_last()) + seq![' '] + ws.last()
    }
}

/// Joins the given words with single spaces.
pub fn join_words(words: &Vec<String>) -> (r: String)
    ensures
        r@ == spec_join_words(words@.map_values(|w: String| w@)),
{
    let ghost ws = words@.map_values(|w: String| w@);
    let n = words.len();
    let mut out: Vec<char> = Vec::new();
    let mut i: usize = 0;
    proof {
        assert(out@ =~= spec_join_words(ws.take(0)));
    }
    while i < n
        invariant
            i <= n == words@.len(),
            ws == words@.map_values(|w: String| w@),
            out@ == spec_join_words(ws.take(i as int)),
        decreases n - i,
    {
        proof {
            assert(ws.take(i + 1).drop_last() =~= ws.take(i as int));
            assert(ws.take(i + 1).last() == ws[i as int]);
        }
        if i > 0 {
            out.push(' ');
        }
        let word = str_to_chars(words[i].as_str());
        append_chars(&mut out, &word);
        i = i + 1;
        proof {
            assert(out@ =~= spec_join_words(ws.take(i as int)));
        }
    }
    proof {
        assert(ws.take(n as int) =~= ws);
    }
    string_from_chars(&out)
}

/// Exact string equality.
pub fn str_eq(a: &str, b: &str) -> (r: bool)
    ensures
        r == (a@ == b@),
{
    let va = str_to_chars(a);
    let vb = str_to_chars(b);
    let n = va.len();
    if n != vb.len() {
        return false;
    }
    let mut i: usize = 0;
    while i < n
        invariant
            i <= n == va@.len() == vb@.len(),
            va@ == a@,
            vb@ == b@,
            forall|m: int| 0 <= m < i ==> va@[m] == vb@[m],
        decreases n - i,
    {
        if va[i] != vb[i] {
            return false;
        }
        i = i + 1;
    }
    proof {
        assert(a@ =~= b@);
    }
    true
}

/// Case-insensitive equality of ASCII characters: equal outright, or an
/// upper-case letter against its lower-case form.
pub open spec fn chars_ci_eq(a: char, b: char) -> bool {
    ||| a == b
    ||| ('A' <= a <= 'Z' && a as int + 32 == b as int)
    ||| ('A' <= b <= 'Z' && b as int + 32 == a as int)
}

pub open spec fn seq_ci_eq(a: Seq<char>, b: Seq<char>) -> bool {
    a.len() == b.len() && forall|i: int| 0 <= i < a.len() ==> chars_ci_eq(a[i], b[i])
}

fn char_ci_eq(a: char, b: char) -> (r: bool)
    ensures
        r == chars_ci_eq(a, b),
{
    if a == b {
        true
    } else if 'A' <= a && a <= 'Z' && (a as u32) + 32 == (b as u32) {
        true
    } else if 'A' <= b && b <= 'Z' && (b as u32) + 32 == (a as u32) {
        true
    } else {
        false
    }
}

/// Case-insensitive comparison of `v` against `pat`.
pub fn chars_ci_eq_str(v: &Vec<char>, pat: &str) -> (r: bool)
    ensures
        r == seq_ci_eq(v@, pat@),
{
    let p = str_to_chars(pat);
    let n = v.len();
    if n != p.len() {
        return false;
    }
    let mut i: usize = 0;
    while i < n
        invariant
            i <= n == v@.len() == p@.len(),
            p@ == pat@,
            forall|m: int| 0 <= m < i ==> chars_ci_eq(v@[m], p@[m]),
        decreases n - i,
    {
        if !char_ci_eq(v[i], p[i]) {
            return false;
        }
        i = i + 1;
    }
    true
}

} // verus!
