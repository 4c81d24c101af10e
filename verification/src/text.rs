//! Character-level helpers shared by the rest of the library.
//!
//! All of them are stated over `Seq<char>`, the view of `str` and `String`.
use vstd::prelude::*;
use vstd::string::*;

verus! {

/// The characters that carry the Unicode `White_Space` property.
pub open spec fn is_whitespace(c: char) -> bool {
    let n = c as u32;
    ||| 0x09 <= n <= 0x0D
    ||| n == 0x20
    ||| n == 0x85
    ||| n == 0xA0
    ||| n == 0x1680
    ||| 0x2000 <= n <= 0x200A
    ||| n == 0x2028
    ||| n == 0x2029
    ||| n == 0x202F
    ||| n == 0x205F
    ||| n == 0x3000
}

/// The first index at or after `i` that holds no white space (`s.len()` if there is none).
pub open spec fn skip_whitespace(s: Seq<char>, i: int) -> int
    decreases s.len() - i,
{
    if 0 <= i < s.len() && is_whitespace(s[i]) {
        skip_whitespace(s, i + 1)
    } else {
        i
    }
}

/// The end of `s[start..j]` once white space at its end is cut off.
pub open spec fn back_whitespace(s: Seq<char>, start: int, j: int) -> int
    decreases j,
{
    if 0 <= start < j <= s.len() && is_whitespace(s[j - 1]) {
        back_whitespace(s, start, j - 1)
    } else {
        j
    }
}

/// `s` without the white space at its two ends.
pub open spec fn trimmed(s: Seq<char>) -> Seq<char> {
    let a = skip_whitespace(s, 0);
    let b = back_whitespace(s, a, s.len() as int);
    s.subrange(a, b)
}

/// `s` with every `from` turned into `to`.
pub open spec fn replaced(s: Seq<char>, from: char, to: char) -> Seq<char> {
    Seq::new(s.len(), |i: int| if s[i] == from { to } else { s[i] })
}

/// The lower-case form of an ASCII capital; every other character is itself.
pub open spec fn ascii_lower(c: char) -> char {
    if 'A' <= c && c <= 'Z' {
        ((c as u8) + 32) as char
    } else {
        c
    }
}

/// `s` with every ASCII capital in lower case.
pub open spec fn lowercased(s: Seq<char>) -> Seq<char> {
    Seq::new(s.len(), |i: int| ascii_lower(s[i]))
}

/// The decimal digit for `d`.
pub open spec fn digit_char(d: nat) -> char
    recommends
        d < 10,
{
    ((48 + d) as u8) as char
}

/// The decimal numeral of `n`: no sign, no leading zero but for `0` itself.
pub open spec fn decimal(n: nat) -> Seq<char>
    decreases n,
{
    if n < 10 {
        seq![digit_char(n)]
    } else {
        decimal(n / 10).push(digit_char(n % 10))
    }
}

/// The decimal numeral of `i`, with a leading `-` below zero.
pub open spec fn signed_decimal(i: int) -> Seq<char> {
    if i < 0 {
        seq!['-'] + decimal((-i) as nat)
    } else {
        decimal(i as nat)
    }
}

pub open spec fn is_digit(c: char) -> bool {
    '0' <= c && c <= '9'
}

pub open spec fn digit_value(c: char) -> nat {
    (c as u32 - 48) as nat
}

pub open spec fn all_digits(s: Seq<char>) -> bool {
    forall|i: int| 0 <= i < s.len() ==> is_digit(#[trigger] s[i])
}

/// The number that a run of decimal digits denotes (`0` for the empty run).
pub open spec fn digits_value(s: Seq<char>) -> nat
    decreases s.len(),
{
    if s.len() == 0 {
        0
    } else {
        digits_value(s.drop_last()) * 10 + digit_value(s.last())
    }
}

/// What an unsigned decimal numeral denotes: an optional `+`, then one or more
/// digits. `None` for anything else.
pub open spec fn parse_unsigned(s: Seq<char>) -> Option<nat> {
    let body = if s.len() > 0 && s[0] == '+' { s.drop_first() } else { s };
    if body.len() > 0 && all_digits(body) {
        Some(digits_value(body))
    } else {
        None
    }
}

/// What `s` denotes as a `u32`: `None` where it is no numeral or does not fit.
pub open spec fn parse_u32_spec(s: Seq<char>) -> Option<u32> {
    match parse_unsigned(s) {
        Some(n) => if n <= u32::MAX { Some(n as u32) } else { None },
        None => None,
    }
}

/// What `s` denotes as a `u64`: `None` where it is no numeral or does not fit.
pub open spec fn parse_u64_spec(s: Seq<char>) -> Option<u64> {
    match parse_unsigned(s) {
        Some(n) => if n <= u64::MAX { Some(n as u64) } else { None },
        None => None,
    }
}

/// The strings of `parts` in a row with `sep` between neighbours.
pub open spec fn joined(parts: Seq<Seq<char>>, sep: Seq<char>) -> Seq<char>
    decreases parts.len(),
{
    if parts.len() == 0 {
        Seq::empty()
    } else if parts.len() == 1 {
        parts[0]
    } else {
        joined(parts.drop_last(), sep) + sep + parts.last()
    }
}

/// Whether `pat` stands in `s` at index `i`.
pub open spec fn matches_at(s: Seq<char>, i: int, pat: Seq<char>) -> bool {
    0 <= i && i + pat.len() <= s.len() && s.subrange(i, i + pat.len()) == pat
}

pub open spec fn ends_with(s: Seq<char>, pat: Seq<char>) -> bool {
    matches_at(s, s.len() - pat.len(), pat)
}

/// The fields of `s` between occurrences of `sep`: always at least one.
pub open spec fn split_fields(s: Seq<char>, sep: char) -> Seq<Seq<char>>
    decreases s.len(),
{
    if s.len() == 0 {
        seq![Seq::empty()]
    } else {
        let front = split_fields(s.drop_last(), sep);
        if s.last() == sep {
            front.push(Seq::empty())
        } else {
            front.drop_last().push(front.last().push(s.last()))
        }
    }
}

/// The views of a list of pairs of strings, in order.
pub open spec fn pairs_view(pairs: Seq<(String, String)>) -> Seq<(Seq<char>, Seq<char>)> {
    pairs.map_values(|p: (String, String)| (p.0@, p.1@))
}

/// The views of a list of strings, in order.
pub open spec fn strings_view(strings: Seq<String>) -> Seq<Seq<char>> {
    strings.map_values(|s: String| s@)
}

/// A pair of owned strings.
pub fn pair(key: &str, value: &str) -> (r: (String, String))
    ensures
        r.0@ == key@,
        r.1@ == value@,
{
    (key.to_owned(), value.to_owned())
}

/// Where skipping white space stops: within the text, and at a character
/// that is no white space unless the end is reached.
pub proof fn lemma_skip_whitespace(s: Seq<char>, i: int)
    requires
        0 <= i <= s.len(),
    ensures
        i <= skip_whitespace(s, i) <= s.len(),
        skip_whitespace(s, i) < s.len() ==> !is_whitespace(s[skip_whitespace(s, i)]),
    decreases s.len() - i,
{
    if i < s.len() && is_whitespace(s[i]) {
        lemma_skip_whitespace(s, i + 1);
    }
}

/// Where cutting white space off the end stops: not before the start, and
/// behind a character that is no white space unless the start is reached.
pub proof fn lemma_back_whitespace(s: Seq<char>, start: int, j: int)
    requires
        0 <= start <= j <= s.len(),
    ensures
        start <= back_whitespace(s, start, j) <= j,
        back_whitespace(s, start, j) > start ==> !is_whitespace(
            s[back_whitespace(s, start, j) - 1],
        ),
    decreases j,
{
    if start < j && is_whitespace(s[j - 1]) {
        lemma_back_whitespace(s, start, j - 1);
    }
}

/// A text without white space at its ends stays as it is when it is trimmed.
pub proof fn lemma_trimmed_fixed(s: Seq<char>)
    requires
        s.len() > 0 ==> !is_whitespace(s[0]) && !is_whitespace(s[s.len() - 1]),
    ensures
        trimmed(s) == s,
{
    assert(skip_whitespace(s, 0) == 0);
    assert(back_whitespace(s, 0, s.len() as int) == s.len());
    assert(s.subrange(0, s.len() as int) =~= s);
}

/// A trimmed text stays as it is when it is trimmed again.
pub proof fn lemma_trimmed_idempotent(s: Seq<char>)
    ensures
        trimmed(trimmed(s)) == trimmed(s),
{
    let a = skip_whitespace(s, 0);
    lemma_skip_whitespace(s, 0);
    let b = back_whitespace(s, a, s.len() as int);
    lemma_back_whitespace(s, a, s.len() as int);
    let t = s.subrange(a, b);
    if t.len() > 0 {
        assert(t[0] == s[a]);
        assert(t[t.len() - 1] == s[b - 1]);
    }
    lemma_trimmed_fixed(t);
}

/// Trimming brings in no character that was not there.
pub proof fn lemma_trimmed_contains(s: Seq<char>, c: char)
    requires
        trimmed(s).contains(c),
    ensures
        s.contains(c),
{
    let a = skip_whitespace(s, 0);
    lemma_skip_whitespace(s, 0);
    let b = back_whitespace(s, a, s.len() as int);
    lemma_back_whitespace(s, a, s.len() as int);
    let t = s.subrange(a, b);
    let k = choose|k: int| 0 <= k < t.len() && t[k] == c;
    assert(s[a + k] == c);
}

/// Replacing a character that does not occur changes nothing.
pub proof fn lemma_replaced_absent(s: Seq<char>, from: char, to: char)
    requires
        !s.contains(from),
    ensures
        replaced(s, from, to) == s,
{
    assert forall|i: int| 0 <= i < s.len() implies s[i] != from by {
        if s[i] == from {
            assert(s.contains(from));
        }
    }
    assert(replaced(s, from, to) =~= s);
}

/// After a character has been replaced by another one it no longer occurs.
pub proof fn lemma_replaced_gone(s: Seq<char>, from: char, to: char)
    requires
        from != to,
    ensures
        !replaced(s, from, to).contains(from),
{
    let r = replaced(s, from, to);
    if r.contains(from) {
        let k = choose|k: int| 0 <= k < r.len() && r[k] == from;
        assert(r[k] != from);
    }
}

/// A text always has at least one field.
pub proof fn lemma_split_fields_len(s: Seq<char>, sep: char)
    ensures
        split_fields(s, sep).len() >= 1,
    decreases s.len(),
{
    if s.len() > 0 {
        lemma_split_fields_len(s.drop_last(), sep);
    }
}

/// Putting strings in a row does not depend on the grouping.
pub proof fn lemma_concat_assoc(a: Seq<char>, b: Seq<char>, c: Seq<char>)
    ensures
        (a + b) + c == a + (b + c),
{
    assert((a + b) + c =~= a + (b + c));
}

/// The characters of a string slice.
pub fn to_chars(s: &str) -> (v: Vec<char>)
    ensures
        v@ == s@,
{
    let mut v: Vec<char> = Vec::new();
    for c in it: s.chars()
        invariant
            v@ == it.seq().take(it.index() as int),
            it.seq() == s@,
    {
        v.push(c);
    }
    v
}

/// `String::from_iter` over a slice of characters: the string made of them, in order.
#[verifier::external_body]
pub(crate) fn string_from_chars(v: &Vec<char>) -> (s: String)
    ensures
        s@ == v@,
{
    v.iter().collect()
}

pub fn str_eq(a: &str, b: &str) -> (r: bool)
    ensures
        r == (a@ == b@),
{
    let x = a.to_owned();
    let y = b.to_owned();
    x == y
}

pub fn char_is_whitespace(c: char) -> (r: bool)
    ensures
        r == is_whitespace(c),
{
    let n: u32 = c as u32;
    (0x09 <= n && n <= 0x0D) || n == 0x20 || n == 0x85 || n == 0xA0 || n == 0x1680 || (0x2000 <= n
        && n <= 0x200A) || n == 0x2028 || n == 0x2029 || n == 0x202F || n == 0x205F || n == 0x3000
}

/// `s` without leading and trailing white space.
pub fn trim(s: &str) -> (r: String)
    ensures
        r@ == trimmed(s@),
{
    let v = to_chars(s);
    let mut a: usize = 0;
    while a < v.len() && char_is_whitespace(v[a])
        invariant
            a <= v.len(),
            skip_whitespace(v@, 0) == skip_whitespace(v@, a as int),
        decreases v.len() - a,
    {
        a = a + 1;
    }
    let mut b: usize = v.len();
    while a < b && char_is_whitespace(v[b - 1])
        invariant
            a <= b <= v.len(),
            back_whitespace(v@, a as int, v.len() as int) == back_whitespace(v@, a as int, b as int),
        decreases b,
    {
        b = b - 1;
    }
    let mut out: Vec<char> = Vec::new();
    let mut i: usize = a;
    while i < b
        invariant
            a <= i <= b <= v.len(),
            out@ == v@.subrange(a as int, i as int),
        decreases b - i,
    {
        out.push(v[i]);
        i = i + 1;
    }
    string_from_chars(&out)
}

/// `s` with every `from` turned into `to`.
pub fn replace_char(s: &str, from: char, to: char) -> (r: String)
    ensures
        r@ == replaced(s@, from, to),
{
    let v = to_chars(s);
    let mut out: Vec<char> = Vec::new();
    let mut i: usize = 0;
    while i < v.len()
        invariant
            i <= v.len(),
            out@.len() == i,
            forall|k: int| 0 <= k < i ==> out@[k] == replaced(v@, from, to)[k],
        decreases v.len() - i,
    {
        let c = v[i];
        out.push(if c == from { to } else { c });
        i = i + 1;
    }
    assert(out@ =~= replaced(v@, from, to));
    string_from_chars(&out)
}

pub fn char_to_ascii_lower(c: char) -> (r: char)
    ensures
        r == ascii_lower(c),
{
    if 'A' <= c && c <= 'Z' {
        ((c as u8) + 32) as char
    } else {
        c
    }
}

/// `s` with every ASCII capital in lower case.
pub fn to_ascii_lowercase(s: &str) -> (r: String)
    ensures
        r@ == lowercased(s@),
{
    let v = to_chars(s);
    let mut out: Vec<char> = Vec::new();
    let mut i: usize = 0;
    while i < v.len()
        invariant
            i <= v.len(),
            out@.len() == i,
            forall|k: int| 0 <= k < i ==> out@[k] == ascii_lower(v@[k]),
        decreases v.len() - i,
    {
        out.push(char_to_ascii_lower(v[i]));
        i = i + 1;
    }
    assert(out@ =~= lowercased(v@));
    string_from_chars(&out)
}

fn decimal_chars(n: u64) -> (v: Vec<char>)
    ensures
        v@ == decimal(n as nat),
    decreases n,
{
    if n < 10 {
        let mut v: Vec<char> = Vec::new();
        v.push((48 + n as u8) as char);
        assert(v@ =~= seq![digit_char(n as nat)]);
        v
    } else {
        let mut v = decimal_chars(n / 10);
        v.push((48 + (n % 10) as u8) as char);
        v
    }
}

/// The decimal numeral of `n`.
pub fn u64_to_string(n: u64) -> (r: String)
    ensures
        r@ == decimal(n as nat),
{
    let v = decimal_chars(n);
    string_from_chars(&v)
}

/// The decimal numeral of `i`, with a leading `-` below zero.
pub fn i64_to_string(i: i64) -> (r: String)
    ensures
        r@ == signed_decimal(i as int),
{
    if i < 0 {
        let magnitude: u64 = if i == i64::MIN {
            9223372036854775808u64
        } else {
            (-i) as u64
        };
        let digits = decimal_chars(magnitude);
        let mut v: Vec<char> = Vec::new();
        v.push('-');
        let mut k: usize = 0;
        while k < digits.len()
            invariant
                k <= digits.len(),
                v@ == seq!['-'] + digits@.subrange(0, k as int),
            decreases digits.len() - k,
        {
            v.push(digits[k]);
            k = k + 1;
        }
        assert(digits@.subrange(0, digits.len() as int) =~= digits@);
        string_from_chars(&v)
    } else {
        let v = decimal_chars(i as u64);
        string_from_chars(&v)
    }
}

pub proof fn lemma_digits_value_prefix(s: Seq<char>, k: int)
    requires
        0 <= k <= s.len(),
    ensures
        digits_value(s.take(k)) <= digits_value(s),
    decreases s.len(),
{
    if k == s.len() {
        assert(s.take(k) =~= s);
    } else {
        lemma_digits_value_prefix(s.drop_last(), k);
        assert(s.drop_last().take(k) =~= s.take(k));
    }
}

/// Reads an unsigned decimal numeral: an optional `+`, then digits, nothing else.
pub fn parse_u64(s: &str) -> (r: Option<u64>)
    ensures
        r == parse_u64_spec(s@),
{
    let v = to_chars(s);
    let start: usize = if v.len() > 0 && v[0] == '+' { 1 } else { 0 };
    let ghost body = if v@.len() > 0 && v@[0] == '+' { v@.drop_first() } else { v@ };
    assert(body =~= v@.subrange(start as int, v@.len() as int));
    if start == v.len() {
        return None;
    }
    let mut acc: u64 = 0;
    let mut i: usize = start;
    while i < v.len()
        invariant
            start <= i <= v.len(),
            v@ == s@,
            body == (if v@.len() > 0 && v@[0] == '+' { v@.drop_first() } else { v@ }),
            body == v@.subrange(start as int, v@.len() as int),
            body.len() > 0,
            all_digits(body.take(i - start)),
            acc == digits_value(body.take(i - start)),
        decreases v.len() - i,
    {
        let c = v[i];
        assert(c == body[i - start]);
        if !('0' <= c && c <= '9') {
            assert(!is_digit(body[i - start]));
            return None;
        }
        let d: u64 = (c as u32 - 48) as u64;
        proof {
            let next = body.take(i - start + 1);
            assert(next.drop_last() =~= body.take(i - start));
            assert(next.last() == c);
            assert forall|k: int| 0 <= k < next.len() implies is_digit(#[trigger] next[k]) by {
                if k < i - start {
                    assert(next[k] == body.take(i - start)[k]);
                }
            }
            lemma_digits_value_prefix(body, i - start + 1);
        }
        if acc > (u64::MAX - d) / 10 {
            assert(digits_value(body.take(i - start + 1)) == acc * 10 + d);
            return None;
        }
        acc = acc * 10 + d;
        i = i + 1;
    }
    assert(body.take(i - start) =~= body);
    Some(acc)
}

/// Reads an unsigned decimal numeral that fits 32 bits.
pub fn parse_u32(s: &str) -> (r: Option<u32>)
    ensures
        r == parse_u32_spec(s@),
{
    match parse_u64(s) {
        Some(n) => if n <= 0xFFFF_FFFF { Some(n as u32) } else { None },
        None => None,
    }
}

/// The strings of `parts` in a row with `sep` between neighbours.
pub fn join(parts: &Vec<String>, sep: &str) -> (r: String)
    ensures
        r@ == joined(strings_view(parts@), sep@),
{
    let ghost views = strings_view(parts@);
    let mut out = String::new();
    let mut i: usize = 0;
    while i < parts.len()
        invariant
            i <= parts.len(),
            views == strings_view(parts@),
            out@ == joined(views.take(i as int), sep@),
        decreases parts.len() - i,
    {
        proof {
            let next = views.take(i + 1);
            assert(next.drop_last() =~= views.take(i as int));
            assert(next.last() == parts@[i as int]@);
            if i == 0 {
                assert(out@ =~= Seq::<char>::empty());
            }
        }
        if i > 0 {
            out.append(sep);
        }
        out.append(parts[i].as_str());
        i = i + 1;
    }
    assert(views.take(i as int) =~= views);
    out
}

/// The fields of `s` between occurrences of `sep`; an empty `s` has one empty field.
pub fn split_char(s: &str, sep: char) -> (r: Vec<String>)
    ensures
        strings_view(r@) == split_fields(s@, sep),
{
    let v = to_chars(s);
    let mut fields: Vec<String> = Vec::new();
    let mut current: Vec<char> = Vec::new();
    let mut i: usize = 0;
    assert(v@.take(0) =~= Seq::<char>::empty());
    assert(strings_view(fields@).push(current@) =~= seq![Seq::<char>::empty()]);
    while i < v.len()
        invariant
            i <= v.len(),
            strings_view(fields@).push(current@) == split_fields(v@.take(i as int), sep),
        decreases v.len() - i,
    {
        let c = v[i];
        proof {
            let next = v@.take(i + 1);
            assert(next.drop_last() =~= v@.take(i as int));
            assert(next.last() == c);
        }
        let ghost before = strings_view(fields@);
        let ghost field = current@;
        if c == sep {
            let done = string_from_chars(&current);
            fields.push(done);
            current = Vec::new();
            assert(strings_view(fields@) =~= before.push(field));
        } else {
            current.push(c);
            assert(before.push(field).drop_last() =~= before);
        }
        i = i + 1;
    }
    assert(v@.take(i as int) =~= v@);
    let ghost before = strings_view(fields@);
    let last = string_from_chars(&current);
    fields.push(last);
    assert(strings_view(fields@) =~= before.push(current@));
    fields
}

/// Whether `s` ends with `pat`.
pub fn str_ends_with(s: &Vec<char>, pat: &Vec<char>) -> (r: bool)
    ensures
        r == ends_with(s@, pat@),
{
    if pat.len() > s.len() {
        return false;
    }
    let off: usize = s.len() - pat.len();
    let mut k: usize = 0;
    while k < pat.len()
        invariant
            k <= pat.len(),
            off + pat.len() == s.len(),
            forall|j: int| 0 <= j < k ==> s@[off + j] == pat@[j],
        decreases pat.len() - k,
    {
        if s[off + k] != pat[k] {
            assert(s@.subrange(off as int, off + pat@.len())[k as int] == s@[off + k]);
            return false;
        }
        k = k + 1;
    }
    assert(s@.subrange(off as int, off + pat@.len()) =~= pat@);
    true
}

/// The characters `v[from..to]` as a string.
pub fn substring(v: &Vec<char>, from: usize, to: usize) -> (r: String)
    requires
        from <= to <= v.len(),
    ensures
        r@ == v@.subrange(from as int, to as int),
{
    let mut out: Vec<char> = Vec::new();
    let mut i: usize = from;
    while i < to
        invariant
            from <= i <= to <= v.len(),
            out@ == v@.subrange(from as int, i as int),
        decreases to - i,
    {
        out.push(v[i]);
        i = i + 1;
    }
    string_from_chars(&out)
}

/// What a signed decimal numeral denotes: a `-` and digits, or an unsigned
/// numeral. `None` for anything else.
pub open spec fn parse_signed(s: Seq<char>) -> Option<int> {
    if s.len() > 0 && s[0] == '-' {
        let body = s.drop_first();
        if body.len() > 0 && all_digits(body) {
            Some(-(digits_value(body) as int))
        } else {
            None
        }
    } else {
        match parse_unsigned(s) {
            Some(n) => Some(n as int),
            None => None,
        }
    }
}

/// What `s` denotes as an `i32`: `None` where it is no numeral or does not fit.
pub open spec fn parse_i32_spec(s: Seq<char>) -> Option<i32> {
    match parse_signed(s) {
        Some(n) => if i32::MIN <= n <= i32::MAX {
            Some(n as i32)
        } else {
            None
        },
        None => None,
    }
}

/// Reads a signed decimal numeral that fits 32 bits.
pub fn parse_i32(s: &str) -> (r: Option<i32>)
    ensures
        r == parse_i32_spec(s@),
{
    let v = to_chars(s);
    if v.len() > 0 && v[0] == '-' {
        if v.len() < 2 || v[1] == '+' {
            proof {
                if v.len() >= 2 {
                    assert(!is_digit(v@.drop_first()[0]));
                }
            }
            return None;
        }
        let body = substring(&v, 1, v.len());
        assert(body@ =~= v@.drop_first());
        assert(body@[0] != '+');
        match parse_u64(body.as_str()) {
            Some(n) => if n <= 2147483648 {
                Some((0 - (n as i64)) as i32)
            } else {
                None
            },
            None => None,
        }
    } else {
        match parse_u64(s) {
            Some(n) => if n <= 2147483647 {
                Some(n as i32)
            } else {
                None
            },
            None => None,
        }
    }
}

/// The first index at which `c` stands in `s`.
pub open spec fn first_index_of_char(s: Seq<char>, c: char) -> Option<int>
    decreases s.len(),
{
    if s.len() == 0 {
        None
    } else {
        match first_index_of_char(s.drop_last(), c) {
            Some(i) => Some(i),
            None => if s.last() == c {
                Some(s.len() - 1)
            } else {
                None
            },
        }
    }
}

/// The first index of a character is an index of it, and none comes before.
pub proof fn lemma_first_index_of_char(s: Seq<char>, c: char)
    ensures
        match first_index_of_char(s, c) {
            Some(i) => 0 <= i < s.len() && s[i] == c && forall|j: int| 0 <= j < i ==> s[j] != c,
            None => !s.contains(c),
        },
    decreases s.len(),
{
    if s.len() > 0 {
        let front = s.drop_last();
        lemma_first_index_of_char(front, c);
        match first_index_of_char(front, c) {
            Some(i) => {
                assert(front[i] == s[i]);
                assert forall|j: int| 0 <= j < i implies s[j] != c by {
                    assert(front[j] == s[j]);
                }
            },
            None => {
                assert forall|j: int| 0 <= j < s.len() - 1 implies s[j] != c by {
                    if s[j] == c {
                        assert(front[j] == c);
                        assert(front.contains(c));
                    }
                }
                if s.last() != c && s.contains(c) {
                    let k = choose|k: int| 0 <= k < s.len() && s[k] == c;
                    assert(k < s.len() - 1);
                }
            },
        }
    }
}

/// An index found in a prefix is the index found in the whole.
pub proof fn lemma_first_index_of_char_prefix(s: Seq<char>, c: char, n: int)
    requires
        0 <= n <= s.len(),
        first_index_of_char(s.take(n), c) is Some,
    ensures
        first_index_of_char(s, c) == first_index_of_char(s.take(n), c),
    decreases s.len() - n,
{
    if n < s.len() {
        assert(s.take(n + 1).drop_last() =~= s.take(n));
        lemma_first_index_of_char_prefix(s, c, n + 1);
    } else {
        assert(s.take(n) =~= s);
    }
}

/// The first index at which `c` stands in `v`.
pub fn find_char(v: &Vec<char>, c: char) -> (r: Option<usize>)
    ensures
        match r {
            Some(i) => first_index_of_char(v@, c) == Some(i as int),
            None => first_index_of_char(v@, c) is None,
        },
{
    let mut i: usize = 0;
    assert(v@.take(0) =~= Seq::<char>::empty());
    while i < v.len()
        invariant
            i <= v.len(),
            first_index_of_char(v@.take(i as int), c) is None,
        decreases v.len() - i,
    {
        assert(v@.take(i + 1).drop_last() =~= v@.take(i as int));
        assert(v@.take(i + 1).last() == v@[i as int]);
        if v[i] == c {
            proof {
                lemma_first_index_of_char_prefix(v@, c, i + 1);
            }
            return Some(i);
        }
        i = i + 1;
    }
    assert(v@.take(i as int) =~= v@);
    None
}

} // verus!
