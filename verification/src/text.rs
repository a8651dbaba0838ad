//! Text as sequences of characters: searching, splitting, replacing and
//! decimal numbers. Every function states its result over `Seq<char>`.

use vstd::prelude::*;
use vstd::utf8::{decode_utf8, valid_utf8};

verus! {

/// Index of the first occurrence of `x` in `s`, or `s.len()` when `s` does
/// not hold `x`.
pub open spec fn position<T>(s: Seq<T>, x: T) -> int
    decreases s.len(),
{
    if s.len() == 0 {
        0
    } else if s[0] == x {
        0
    } else {
        1 + position(s.drop_first(), x)
    }
}

/// `position` is the least index that holds `x`, and is within bounds.
pub proof fn lemma_position<T>(s: Seq<T>, x: T)
    ensures
        0 <= position(s, x) <= s.len(),
        forall|j: int| 0 <= j < position(s, x) ==> s[j] != x,
        position(s, x) < s.len() ==> s[position(s, x)] == x,
    decreases s.len(),
{
    if s.len() != 0 && s[0] != x {
        let t = s.drop_first();
        lemma_position(t, x);
        assert forall|j: int| 0 <= j < position(s, x) implies s[j] != x by {
            if j > 0 {
                assert(s[j] == t[j - 1]);
            }
        }
    }
}

/// An index with nothing equal to `x` before it, which holds `x` or is the
/// end, is the position of `x`.
pub proof fn lemma_position_is<T>(s: Seq<T>, x: T, i: int)
    requires
        0 <= i <= s.len(),
        forall|j: int| 0 <= j < i ==> s[j] != x,
        i < s.len() ==> s[i] == x,
    ensures
        position(s, x) == i,
{
    lemma_position(s, x);
}

/// The pieces of `s` between occurrences of the separator `c`. A text
/// without the separator is one piece; `n` separators give `n + 1` pieces,
/// some of which may be empty.
pub open spec fn split(s: Seq<char>, c: char) -> Seq<Seq<char>>
    decreases s.len(),
{
    let p = position(s, c);
    if 0 <= p < s.len() {
        seq![s.take(p)] + split(s.skip(p + 1), c)
    } else {
        seq![s]
    }
}

/// Whether `needle` occurs in `hay` at index `i`.
pub open spec fn occurs_at(hay: Seq<char>, needle: Seq<char>, i: int) -> bool {
    0 <= i && i + needle.len() <= hay.len() && hay.subrange(i, i + needle.len()) == needle
}

/// Whether `needle` occurs somewhere in `hay`.
pub open spec fn contains(hay: Seq<char>, needle: Seq<char>) -> bool {
    exists|i: int| occurs_at(hay, needle, i)
}

/// Whether `s` begins with `prefix`.
pub open spec fn starts_with(s: Seq<char>, prefix: Seq<char>) -> bool {
    occurs_at(s, prefix, 0)
}

/// `hay` with every occurrence of `from` replaced by `to`, scanning from the
/// left and never inside a replacement. An empty `from` changes nothing.
pub open spec fn replace(hay: Seq<char>, from: Seq<char>, to: Seq<char>) -> Seq<char>
    decreases hay.len(),
{
    if from.len() == 0 || hay.len() == 0 {
        hay
    } else if starts_with(hay, from) {
        to + replace(hay.skip(from.len() as int), from, to)
    } else {
        seq![hay[0]] + replace(hay.drop_first(), from, to)
    }
}

/// `s` without the run of `c` at its end.
pub open spec fn trim_end(s: Seq<char>, c: char) -> Seq<char>
    decreases s.len(),
{
    if s.len() > 0 && s.last() == c {
        trim_end(s.drop_last(), c)
    } else {
        s
    }
}

/// `s` without the repetitions of `prefix` at its start. An empty `prefix`
/// changes nothing.
pub open spec fn trim_start(s: Seq<char>, prefix: Seq<char>) -> Seq<char>
    decreases s.len(),
{
    if prefix.len() > 0 && starts_with(s, prefix) {
        trim_start(s.skip(prefix.len() as int), prefix)
    } else {
        s
    }
}

/// The pieces joined with `sep` between neighbours.
pub open spec fn join(pieces: Seq<Seq<char>>, sep: Seq<char>) -> Seq<char>
    decreases pieces.len(),
{
    if pieces.len() == 0 {
        Seq::empty()
    } else if pieces.len() == 1 {
        pieces[0]
    } else {
        join(pieces.drop_last(), sep) + sep + pieces.last()
    }
}

/// The character of a decimal digit.
pub open spec fn digit_char(d: int) -> char {
    if d == 0 {
        '0'
    } else if d == 1 {
        '1'
    } else if d == 2 {
        '2'
    } else if d == 3 {
        '3'
    } else if d == 4 {
        '4'
    } else if d == 5 {
        '5'
    } else if d == 6 {
        '6'
    } else if d == 7 {
        '7'
    } else if d == 8 {
        '8'
    } else {
        '9'
    }
}

/// The value of a decimal digit character, or -1 for any other character.
pub open spec fn digit_value(c: char) -> int {
    if c == '0' {
        0
    } else if c == '1' {
        1
    } else if c == '2' {
        2
    } else if c == '3' {
        3
    } else if c == '4' {
        4
    } else if c == '5' {
        5
    } else if c == '6' {
        6
    } else if c == '7' {
        7
    } else if c == '8' {
        8
    } else if c == '9' {
        9
    } else {
        -1
    }
}

/// The decimal numeral of `n`, without leading zeros.
pub open spec fn decimal(n: nat) -> Seq<char>
    decreases n,
{
    if n < 10 {
        seq![digit_char(n as int)]
    } else {
        decimal(n / 10).push(digit_char((n % 10) as int))
    }
}

/// Whether every character of `s` is a decimal digit.
pub open spec fn all_digits(s: Seq<char>) -> bool {
    forall|i: int| 0 <= i < s.len() ==> digit_value(#[trigger] s[i]) >= 0
}

/// The number that a run of decimal digits spells, leading zeros allowed.
pub open spec fn digits_value(s: Seq<char>) -> nat
    decreases s.len(),
{
    if s.len() == 0 {
        0
    } else {
        (digits_value(s.drop_last()) * 10 + digit_value(s.last())) as nat
    }
}

/// What an unsigned decimal numeral spells: an optional `+`, then one or
/// more digits. `None` for any other text.
pub open spec fn parse_unsigned(s: Seq<char>) -> Option<nat> {
    let body = if s.len() > 0 && s[0] == '+' {
        s.drop_first()
    } else {
        s
    };
    if body.len() > 0 && all_digits(body) {
        Some(digits_value(body))
    } else {
        None
    }
}

/// What a signed decimal numeral spells: an optional `+` or `-`, then one or
/// more digits. `None` for any other text.
pub open spec fn parse_signed(s: Seq<char>) -> Option<int> {
    if s.len() > 0 && s[0] == '-' {
        let body = s.drop_first();
        if body.len() > 0 && all_digits(body) {
            Some(-(digits_value(body) as int))
        } else {
            None
        }
    } else {
        match parse_unsigned(s) {
            Some(n) => Some(n as int),
            None => None,
        }
    }
}

/// Appends one character to a string.
///
/// Stands for `String::push` of the standard library, which appends the
/// given character to the end of the string.
#[verifier::external_body]
pub(crate) fn push_char(s: &mut String, c: char)
    ensures
        final(s)@ == old(s)@.push(c),
{
    s.push(c)
}

/// The characters of a text, in order.
pub fn chars_of(s: &str) -> (v: Vec<char>)
    ensures
        v@ == s@,
{
    let mut v: Vec<char> = Vec::new();
    for c in it: s.chars()
        invariant
            v@ == it.seq().take(it.index() as int),
            it.seq() == s@,
    {
        v.push(c);
    }
    v
}

/// The text made of the characters `v[from..to]`.
pub fn string_of_range(v: &Vec<char>, from: usize, to: usize) -> (s: String)
    requires
        from <= to <= v.len(),
    ensures
        s@ == v@.subrange(from as int, to as int),
{
    let mut s = String::new();
    let mut i: usize = from;
    while i < to
        invariant
            from <= i <= to <= v.len(),
            s@ == v@.subrange(from as int, i as int),
        decreases to - i,
    {
        push_char(&mut s, v[i]);
        i += 1;
    }
    s
}

/// The text made of the characters of `v`.
pub fn string_of(v: &Vec<char>) -> (s: String)
    ensures
        s@ == v@,
{
    let s = string_of_range(v, 0, v.len());
    s
}

/// A copy of a text.
pub fn copy_str(s: &str) -> (r: String)
    ensures
        r@ == s@,
{
    String::from_str(s)
}

/// Whether two texts hold the same characters.
pub fn text_eq(a: &str, b: &str) -> (r: bool)
    ensures
        r == (a@ == b@),
{
    let x = chars_of(a);
    let y = chars_of(b);
    chars_eq(&x, &y)
}

/// Whether two character vectors are equal.
pub fn chars_eq(x: &Vec<char>, y: &Vec<char>) -> (r: bool)
    ensures
        r == (x@ == y@),
{
    if x.len() != y.len() {
        return false;
    }
    let mut i: usize = 0;
    while i < x.len()
        invariant
            i <= x.len(),
            x.len() == y.len(),
            forall|j: int| 0 <= j < i ==> x@[j] == y@[j],
        decreases x.len() - i,
    {
        if x[i] != y[i] {
            return false;
        }
        i += 1;
    }
    assert(x@ =~= y@);
    true
}

/// Whether `needle` stands in `hay` at index `i`.
pub fn occurs_at_index(hay: &Vec<char>, needle: &Vec<char>, i: usize) -> (r: bool)
    ensures
        r == occurs_at(hay@, needle@, i as int),
{
    if needle.len() > hay.len() || i > hay.len() - needle.len() {
        return false;
    }
    let mut k: usize = 0;
    while k < needle.len()
        invariant
            k <= needle.len(),
            i + needle.len() <= hay.len(),
            forall|j: int| 0 <= j < k ==> hay@[i + j] == needle@[j],
        decreases needle.len() - k,
    {
        if hay[i + k] != needle[k] {
            return false;
        }
        k += 1;
    }
    assert(hay@.subrange(i as int, i + needle.len()) =~= needle@);
    true
}

/// Whether `needle` occurs somewhere in `hay`.
pub fn text_contains(hay: &str, needle: &str) -> (r: bool)
    ensures
        r == contains(hay@, needle@),
{
    let h = chars_of(hay);
    let n = chars_of(needle);
    let mut i: usize = 0;
    while i < h.len()
        invariant
            i <= h.len(),
            h@ == hay@,
            n@ == needle@,
            forall|j: int| 0 <= j < i ==> !occurs_at(h@, n@, j),
        decreases h.len() - i,
    {
        if occurs_at_index(&h, &n, i) {
            return true;
        }
        i += 1;
    }
    if occurs_at_index(&h, &n, i) {
        return true;
    }
    false
}

/// `s` without the run of `c` at its end.
pub fn trim_end_char(s: &str, c: char) -> (r: String)
    ensures
        r@ == trim_end(s@, c),
{
    let v = chars_of(s);
    let mut i: usize = v.len();
    assert(v@.take(i as int) == v@);
    while i > 0 && v[i - 1] == c
        invariant
            i <= v.len(),
            trim_end(v@, c) == trim_end(v@.take(i as int), c),
        decreases i,
    {
        assert(v@.take(i as int).drop_last() == v@.take(i as int - 1));
        i -= 1;
    }
    string_of_range(&v, 0, i)
}

/// The pieces of `s` between occurrences of the separator `c`.
pub fn split_text(s: &str, c: char) -> (r: Vec<String>)
    ensures
        r.deep_view() == split(s@, c),
        r.len() >= 1,
{
    let v = chars_of(s);
    let mut out: Vec<String> = Vec::new();
    let mut start: usize = 0;
    let mut i: usize = 0;
    assert(v@.skip(0) == v@);
    while i < v.len()
        invariant
            start <= i <= v.len(),
            forall|j: int| start <= j < i ==> v@[j] != c,
            split(v@, c) == out.deep_view() + split(v@.skip(start as int), c),
        decreases v.len() - i,
    {
        if v[i] == c {
            let piece = string_of_range(&v, start, i);
            proof {
                let rest = v@.skip(start as int);
                lemma_position_is(rest, c, i - start);
                assert(rest.take(i - start) == v@.subrange(start as int, i as int));
                assert(rest.skip(i - start + 1) == v@.skip(i + 1));
            }
            out.push(piece);
            start = i + 1;
        }
        i += 1;
    }
    let piece = string_of_range(&v, start, i);
    proof {
        let rest = v@.skip(start as int);
        lemma_position_is(rest, c, i - start);
    }
    out.push(piece);
    out
}

/// `hay` with every occurrence of `from` replaced by `to`.
pub fn replace_text(hay: &str, from: &str, to: &str) -> (r: String)
    ensures
        r@ == replace(hay@, from@, to@),
{
    let h = chars_of(hay);
    let f = chars_of(from);
    let t = chars_of(to);
    if f.len() == 0 {
        return copy_str(hay);
    }
    let mut out: Vec<char> = Vec::new();
    let mut i: usize = 0;
    assert(h@.skip(0) == h@);
    while i < h.len()
        invariant
            i <= h.len(),
            f.len() > 0,
            replace(h@, f@, t@) == out@ + replace(h@.skip(i as int), f@, t@),
        decreases h.len() - i,
    {
        let ghost rest = h@.skip(i as int);
        if occurs_at_index(&h, &f, i) {
            assert(rest.subrange(0, f.len() as int) == h@.subrange(i as int, i + f.len()));
            assert(rest.skip(f.len() as int) == h@.skip(i + f.len()));
            let ghost before = out@;
            let mut k: usize = 0;
            while k < t.len()
                invariant
                    k <= t.len(),
                    out@ == before + t@.take(k as int),
                decreases t.len() - k,
            {
                out.push(t[k]);
                k += 1;
            }
            i += f.len();
        } else {
            assert(!starts_with(rest, f@)) by {
                if starts_with(rest, f@) {
                    assert(rest.subrange(0, f.len() as int) == h@.subrange(
                        i as int,
                        i + f.len(),
                    ));
                }
            }
            assert(rest.drop_first() == h@.skip(i + 1));
            out.push(h[i]);
            i += 1;
        }
    }
    string_of(&out)
}

/// The texts joined with `sep` between neighbours.
pub fn join_texts(pieces: &Vec<String>, sep: &str) -> (r: String)
    ensures
        r@ == join(pieces.deep_view(), sep@),
{
    let mut out = String::new();
    let mut i: usize = 0;
    let ghost all = pieces.deep_view();
    while i < pieces.len()
        invariant
            i <= pieces.len(),
            all == pieces.deep_view(),
            out@ == join(all.take(i as int), sep@),
        decreases pieces.len() - i,
    {
        let ghost before = all.take(i as int);
        let ghost after = all.take(i + 1);
        assert(after.drop_last() == before);
        if i > 0 {
            out.append(sep);
        }
        out.append(pieces[i].as_str());
        i += 1;
    }
    assert(all.take(pieces.len() as int) == all);
    out
}

/// The character of a decimal digit.
pub fn digit_of(d: u64) -> (c: char)
    requires
        d < 10,
    ensures
        c == digit_char(d as int),
{
    match d {
        0 => '0',
        1 => '1',
        2 => '2',
        3 => '3',
        4 => '4',
        5 => '5',
        6 => '6',
        7 => '7',
        8 => '8',
        _ => '9',
    }
}

/// Appends the decimal numeral of `n` to `out`.
pub fn push_decimal(out: &mut String, n: u64)
    ensures
        final(out)@ == old(out)@ + decimal(n as nat),
    decreases n,
{
    if n >= 10 {
        push_decimal(out, n / 10);
    }
    push_char(out, digit_of(n % 10));
}

/// The decimal numeral of `n`.
pub fn decimal_text(n: u64) -> (r: String)
    ensures
        r@ == decimal(n as nat),
{
    let mut out = String::new();
    push_decimal(&mut out, n);
    out
}

/// The lower-case form of an ASCII capital letter; any other character is
/// unchanged.
pub open spec fn ascii_lower(c: char) -> char {
    if 'A' <= c && c <= 'Z' {
        ((c as u32) + 32) as char
    } else {
        c
    }
}

/// The lower-case form of an ASCII capital letter.
pub fn ascii_lower_of(c: char) -> (r: char)
    ensures
        r == ascii_lower(c),
{
    if 'A' <= c && c <= 'Z' {
        let b: u8 = c as u8;
        (b + 32) as char
    } else {
        c
    }
}

/// Whether a character is white space, as Unicode defines the property
/// `White_Space`.
pub open spec fn is_whitespace(c: char) -> bool {
    let u = c as u32;
    (0x09 <= u <= 0x0D) || u == 0x20 || u == 0x85 || u == 0xA0 || u == 0x1680 || (0x2000 <= u
        <= 0x200A) || u == 0x2028 || u == 0x2029 || u == 0x202F || u == 0x205F || u == 0x3000
}

/// Whether a character is white space.
pub fn is_whitespace_char(c: char) -> (r: bool)
    ensures
        r == is_whitespace(c),
{
    let u: u32 = c as u32;
    (0x09 <= u && u <= 0x0D) || u == 0x20 || u == 0x85 || u == 0xA0 || u == 0x1680 || (0x2000 <= u
        && u <= 0x200A) || u == 0x2028 || u == 0x2029 || u == 0x202F || u == 0x205F || u == 0x3000
}

/// `s` without the white space at its start.
pub open spec fn trim_ws_start(s: Seq<char>) -> Seq<char>
    decreases s.len(),
{
    if s.len() > 0 && is_whitespace(s[0]) {
        trim_ws_start(s.drop_first())
    } else {
        s
    }
}

/// `s` without the white space at its end.
pub open spec fn trim_ws_end(s: Seq<char>) -> Seq<char>
    decreases s.len(),
{
    if s.len() > 0 && is_whitespace(s.last()) {
        trim_ws_end(s.drop_last())
    } else {
        s
    }
}

/// `s` without the white space at either end.
pub open spec fn trim_ws(s: Seq<char>) -> Seq<char> {
    trim_ws_end(trim_ws_start(s))
}

/// The characters `v[from..]` without the white space at either end.
pub fn trimmed_from(v: &Vec<char>, from: usize) -> (r: String)
    requires
        from <= v.len(),
    ensures
        r@ == trim_ws(v@.skip(from as int)),
{
    let ghost whole = v@.skip(from as int);
    let mut a: usize = from;
    while a < v.len() && is_whitespace_char(v[a])
        invariant
            from <= a <= v.len(),
            trim_ws_start(whole) == trim_ws_start(v@.skip(a as int)),
        decreases v.len() - a,
    {
        assert(v@.skip(a as int).drop_first() == v@.skip(a + 1));
        a += 1;
    }
    let mut b: usize = v.len();
    while b > a && is_whitespace_char(v[b - 1])
        invariant
            a <= b <= v.len(),
            trim_ws(whole) == trim_ws_end(v@.subrange(a as int, b as int)),
        decreases b,
    {
        assert(v@.subrange(a as int, b as int).drop_last() == v@.subrange(a as int, b - 1));
        b -= 1;
    }
    string_of_range(v, a, b)
}

/// `s` without the white space at either end.
pub fn trim_text(s: &str) -> (r: String)
    ensures
        r@ == trim_ws(s@),
{
    let v = chars_of(s);
    assert(v@.skip(0) == v@);
    trimmed_from(&v, 0)
}

/// A parsed number where it is at most `max`.
pub open spec fn bounded(n: Option<nat>, max: u64) -> Option<u64> {
    match n {
        Some(v) => if v <= max {
            Some(v as u64)
        } else {
            None
        },
        None => None,
    }
}

/// The value of a run of digits is at least the value of each of its
/// beginnings.
pub proof fn lemma_digits_value_grows(s: Seq<char>, k: int)
    requires
        all_digits(s),
        0 <= k <= s.len(),
    ensures
        digits_value(s.take(k)) <= digits_value(s),
    decreases s.len() - k,
{
    if k < s.len() {
        lemma_digits_value_grows(s, k + 1);
        assert(s.take(k + 1).drop_last() == s.take(k));
    } else {
        assert(s.take(k) == s);
    }
}

/// The value of a decimal digit character.
pub fn digit_value_of(c: char) -> (r: Option<u64>)
    ensures
        match r {
            Some(d) => d == digit_value(c) && d < 10,
            None => digit_value(c) == -1,
        },
{
    match c {
        '0' => Some(0),
        '1' => Some(1),
        '2' => Some(2),
        '3' => Some(3),
        '4' => Some(4),
        '5' => Some(5),
        '6' => Some(6),
        '7' => Some(7),
        '8' => Some(8),
        '9' => Some(9),
        _ => None,
    }
}

/// The number that the digits `v[from..]` spell, where there is at least one
/// character, all are digits, and the number is at most `max`.
pub fn parse_digits_from(v: &Vec<char>, from: usize, max: u64) -> (r: Option<u64>)
    requires
        from <= v.len(),
    ensures
        r == if v@.skip(from as int).len() > 0 && all_digits(v@.skip(from as int)) {
            bounded(Some(digits_value(v@.skip(from as int))), max)
        } else {
            None
        },
{
    let ghost body = v@.skip(from as int);
    if from == v.len() {
        return None;
    }
    let mut acc: u64 = 0;
    let mut i: usize = from;
    while i < v.len()
        invariant
            from <= i <= v.len(),
            body == v@.skip(from as int),
            all_digits(body.take(i - from)),
            acc == digits_value(body.take(i - from)),
            acc <= max,
        decreases v.len() - i,
    {
        let ghost k = i - from;
        assert(body.take(k + 1).drop_last() == body.take(k));
        assert(body.take(k + 1).last() == v@[i as int]);
        match digit_value_of(v[i]) {
            None => {
                return None;
            },
            Some(d) => {
                let next: u128 = (acc as u128) * 10 + (d as u128);
                if next > max as u128 {
                    proof {
                        if all_digits(body) {
                            lemma_digits_value_grows(body, k + 1);
                        }
                    }
                    return None;
                }
                acc = next as u64;
            },
        }
        i += 1;
    }
    assert(body.take(i - from) == body);
    Some(acc)
}

/// The number that an unsigned decimal numeral spells, where it is at most
/// `max`.
pub fn parse_bounded(s: &str, max: u64) -> (r: Option<u64>)
    ensures
        r == bounded(parse_unsigned(s@), max),
{
    let v = chars_of(s);
    if v.len() > 0 && v[0] == '+' {
        parse_digits_from(&v, 1, max)
    } else {
        assert(v@ == v@.skip(0));
        parse_digits_from(&v, 0, max)
    }
}

/// The text that the standard library's lossy UTF-8 conversion makes of
/// bytes that are not valid UTF-8: the text of the well-formed parts, with
/// each ill-formed part replaced by the replacement character.
pub uninterp spec fn utf8_lossy(bytes: Seq<u8>) -> Seq<char>;

/// The text of bytes: the text that they encode where they are valid UTF-8,
/// else what the lossy conversion makes of them.
pub open spec fn text_of_utf8(bytes: Seq<u8>) -> Seq<char> {
    if valid_utf8(bytes) {
        decode_utf8(bytes)
    } else {
        utf8_lossy(bytes)
    }
}

/// Reads bytes as text with `String::from_utf8_lossy` of the standard
/// library.
///
/// The contract says what the documentation says of well-formed input, that
/// valid UTF-8 is returned as the text it encodes, and names the result for
/// any other input.
#[verifier::external_body]
pub(crate) fn text_of_bytes(bytes: &[u8]) -> (r: String)
    ensures
        valid_utf8(bytes@) ==> r@ == decode_utf8(bytes@),
        !valid_utf8(bytes@) ==> r@ == utf8_lossy(bytes@),
{
    String::from_utf8_lossy(bytes).into_owned()
}

/// A parsed integer where it fits 64 bits with a sign.
pub open spec fn bounded_signed(n: Option<int>) -> Option<i64> {
    match n {
        Some(v) => if i64::MIN <= v <= i64::MAX {
            Some(v as i64)
        } else {
            None
        },
        None => None,
    }
}

/// The integer that a signed decimal numeral spells, where it fits 64 bits
/// with a sign.
pub fn parse_i64(s: &str) -> (r: Option<i64>)
    ensures
        r == bounded_signed(parse_signed(s@)),
{
    let v = chars_of(s);
    if v.len() > 0 && v[0] == '-' {
        match parse_digits_from(&v, 1, 0x8000_0000_0000_0000) {
            Some(n) => {
                if n == 0x8000_0000_0000_0000 {
                    Some(i64::MIN)
                } else {
                    Some(-(n as i64))
                }
            },
            None => None,
        }
    } else if v.len() > 0 && v[0] == '+' {
        match parse_digits_from(&v, 1, 0x7FFF_FFFF_FFFF_FFFF) {
            Some(n) => Some(n as i64),
            None => None,
        }
    } else {
        assert(v@ == v@.skip(0));
        match parse_digits_from(&v, 0, 0x7FFF_FFFF_FFFF_FFFF) {
            Some(n) => Some(n as i64),
            None => None,
        }
    }
}

/// Trimming the end twice is trimming it once.
pub proof fn lemma_trim_end_twice(s: Seq<char>, c: char)
    ensures
        trim_end(trim_end(s, c), c) == trim_end(s, c),
    decreases s.len(),
{
    if s.len() > 0 && s.last() == c {
        lemma_trim_end_twice(s.drop_last(), c);
    }
}

/// Whether some text of `list` is `item`.
pub fn list_contains(list: &Vec<String>, item: &str) -> (r: bool)
    ensures
        r == list.deep_view().contains(item@),
{
    let mut i: usize = 0;
    while i < list.len()
        invariant
            i <= list.len(),
            forall|j: int| 0 <= j < i ==> list.deep_view()[j] != item@,
        decreases list.len() - i,
    {
        if text_eq(list[i].as_str(), item) {
            assert(list.deep_view()[i as int] == item@);
            return true;
        }
        i += 1;
    }
    false
}

/// `s` without the repetitions of `prefix` at its start.
pub fn trim_start_text(s: &str, prefix: &str) -> (r: String)
    ensures
        r@ == trim_start(s@, prefix@),
{
    let v = chars_of(s);
    let p = chars_of(prefix);
    if p.len() == 0 {
        return copy_str(s);
    }
    let mut i: usize = 0;
    assert(v@.skip(0) == v@);
    while occurs_at_index(&v, &p, i)
        invariant
            i <= v.len(),
            p.len() > 0,
            trim_start(v@, p@) == trim_start(v@.skip(i as int), p@),
        decreases v.len() - i,
    {
        let ghost rest = v@.skip(i as int);
        assert(rest.subrange(0, p.len() as int) == v@.subrange(i as int, i + p.len()));
        assert(rest.skip(p.len() as int) == v@.skip(i + p.len()));
        i += p.len();
    }
    proof {
        let rest = v@.skip(i as int);
        if starts_with(rest, p@) {
            assert(rest.subrange(0, p.len() as int) == v@.subrange(i as int, i + p.len()));
        }
    }
    string_of_range(&v, i, v.len())
}

/// Index after the last occurrence of `c` among the first `n` characters of
/// `s`, or 0 where `c` does not occur among them.
pub open spec fn after_last(s: Seq<char>, c: char, n: int) -> int
    decreases n,
{
    if n <= 0 {
        0
    } else if s[n - 1] == c {
        n
    } else {
        after_last(s, c, n - 1)
    }
}

/// The words of `s`: its maximal runs of characters that are not white
/// space, in order. `word` is the word that is being read, `s` what remains
/// to be read.
pub open spec fn words_from(s: Seq<char>, word: Seq<char>) -> Seq<Seq<char>>
    decreases s.len(),
{
    if s.len() == 0 {
        if word.len() > 0 {
            seq![word]
        } else {
            Seq::empty()
        }
    } else if is_whitespace(s[0]) {
        if word.len() > 0 {
            seq![word] + words_from(s.drop_first(), Seq::empty())
        } else {
            words_from(s.drop_first(), Seq::empty())
        }
    } else {
        words_from(s.drop_first(), word.push(s[0]))
    }
}

/// The words of `s`, split at white space.
pub open spec fn words(s: Seq<char>) -> Seq<Seq<char>> {
    words_from(s, Seq::empty())
}

/// The words of the characters `v[from..]`.
pub fn words_of(v: &Vec<char>, from: usize) -> (r: Vec<String>)
    requires
        from <= v.len(),
    ensures
        r.deep_view() == words(v@.skip(from as int)),
{
    let mut out: Vec<String> = Vec::new();
    let mut start: usize = from;
    let mut i: usize = from;
    let ghost whole = words(v@.skip(from as int));
    assert(v@.subrange(from as int, from as int) == Seq::<char>::empty());
    while i < v.len()
        invariant
            from <= start <= i <= v.len(),
            whole == out.deep_view() + words_from(
                v@.skip(i as int),
                v@.subrange(start as int, i as int),
            ),
        decreases v.len() - i,
    {
        let ghost rest = v@.skip(i as int);
        let ghost word = v@.subrange(start as int, i as int);
        assert(rest.drop_first() == v@.skip(i + 1));
        if is_whitespace_char(v[i]) {
            if i > start {
                let piece = string_of_range(v, start, i);
                out.push(piece);
            }
            start = i + 1;
            assert(v@.subrange(start as int, i + 1) == Seq::<char>::empty());
        } else {
            assert(v@.subrange(start as int, i + 1) == word.push(v@[i as int]));
        }
        i += 1;
    }
    if i > start {
        let piece = string_of_range(v, start, i);
        out.push(piece);
    }
    out
}

/// What the standard library's `Debug` formatting writes for a list of
/// strings.
pub uninterp spec fn debug_text(list: Seq<Seq<char>>) -> Seq<char>;

/// Formats a list of strings with `{:?}`, that is with the `Debug`
/// implementation of `Vec<String>` of the standard library.
///
/// The contract only names the result: the same list gives the same text.
#[verifier::external_body]
pub(crate) fn debug_of_list(list: &Vec<String>) -> (r: String)
    ensures
        r@ == debug_text(list.deep_view()),
{
    format!("{:?}", list)
}

/// Index after the run of decimal digits that begins at `from`.
pub open spec fn digit_run(s: Seq<char>, from: int) -> int
    decreases s.len() - from,
{
    if 0 <= from < s.len() && digit_value(s[from]) >= 0 {
        digit_run(s, from + 1)
    } else {
        from
    }
}

/// Whether `s` is an unsigned decimal number with an optional exponent:
/// digits, optionally a `.` and more digits, with at least one digit before
/// or after the `.`; then optionally `e` or `E`, an optional sign and at
/// least one digit.
pub open spec fn is_number_literal(s: Seq<char>) -> bool {
    let whole_end = digit_run(s, 0);
    let has_point = whole_end < s.len() && s[whole_end] == '.';
    let mantissa_end = if has_point {
        digit_run(s, whole_end + 1)
    } else {
        whole_end
    };
    let digits = if has_point {
        mantissa_end - 1
    } else {
        mantissa_end
    };
    if digits < 1 {
        false
    } else if mantissa_end == s.len() {
        true
    } else if s[mantissa_end] == 'e' || s[mantissa_end] == 'E' {
        let sign_at = mantissa_end + 1;
        let exponent_at = if sign_at < s.len() && (s[sign_at] == '+' || s[sign_at] == '-') {
            sign_at + 1
        } else {
            sign_at
        };
        let end = digit_run(s, exponent_at);
        end > exponent_at && end == s.len()
    } else {
        false
    }
}

/// Whether `s` spells a floating-point number as Rust reads one: an
/// optional sign, then a decimal number with an optional exponent, or one of
/// the words `inf`, `infinity` and `nan` in any mix of upper and lower case.
/// White space is not allowed anywhere.
pub open spec fn is_float_literal(s: Seq<char>) -> bool {
    let body = if s.len() > 0 && (s[0] == '+' || s[0] == '-') {
        s.skip(1)
    } else {
        s
    };
    let word = body.map_values(|c: char| ascii_lower(c));
    word == "inf"@ || word == "infinity"@ || word == "nan"@ || is_number_literal(body)
}

fn digits_end(v: &Vec<char>, from: usize) -> (r: usize)
    requires
        from <= v.len(),
    ensures
        r == digit_run(v@, from as int),
        from <= r <= v.len(),
{
    let mut i: usize = from;
    while i < v.len() && digit_value_of(v[i]).is_some()
        invariant
            from <= i <= v.len(),
            digit_run(v@, from as int) == digit_run(v@, i as int),
        decreases v.len() - i,
    {
        i += 1;
    }
    i
}

fn is_word(v: &Vec<char>, from: usize, word: &str) -> (r: bool)
    requires
        from <= v.len(),
    ensures
        r == (v@.skip(from as int).map_values(|c: char| ascii_lower(c)) == word@),
{
    let w = chars_of(word);
    let ghost low = v@.skip(from as int).map_values(|c: char| ascii_lower(c));
    if v.len() - from != w.len() {
        return false;
    }
    let mut i: usize = 0;
    while i < w.len()
        invariant
            i <= w.len(),
            from <= v.len(),
            v.len() - from == w.len(),
            w@ == word@,
            low == v@.skip(from as int).map_values(|c: char| ascii_lower(c)),
            forall|j: int| 0 <= j < i ==> low[j] == w@[j],
        decreases w.len() - i,
    {
        if ascii_lower_of(v[from + i]) != w[i] {
            return false;
        }
        i += 1;
    }
    assert(low =~= w@);
    true
}

fn is_number_from(v: &Vec<char>, from: usize) -> (r: bool)
    requires
        from <= v.len(),
    ensures
        r == is_number_literal(v@.skip(from as int)),
{
    proof {
        lemma_digit_run_shift(v@, from as int, from as int);
    }
    let whole_end = digits_end(v, from);
    let has_point = whole_end < v.len() && v[whole_end] == '.';
    let mantissa_end = if has_point {
        proof {
            lemma_digit_run_shift(v@, from as int, whole_end + 1);
        }
        digits_end(v, whole_end + 1)
    } else {
        whole_end
    };
    let digits = if has_point {
        mantissa_end - from - 1
    } else {
        mantissa_end - from
    };
    if digits < 1 {
        return false;
    }
    if mantissa_end == v.len() {
        return true;
    }
    if v[mantissa_end] == 'e' || v[mantissa_end] == 'E' {
        let sign_at = mantissa_end + 1;
        let exponent_at = if sign_at < v.len() && (v[sign_at] == '+' || v[sign_at] == '-') {
            sign_at + 1
        } else {
            sign_at
        };
        proof {
            lemma_digit_run_shift(v@, from as int, exponent_at as int);
        }
        let end = digits_end(v, exponent_at);
        end > exponent_at && end == v.len()
    } else {
        false
    }
}

/// A run of digits is found at the same place whether it is looked for in a
/// text or in what remains of the text after its first `k` characters.
pub proof fn lemma_digit_run_shift(s: Seq<char>, k: int, from: int)
    requires
        0 <= k <= from <= s.len(),
    ensures
        digit_run(s.skip(k), from - k) == digit_run(s, from) - k,
    decreases s.len() - from,
{
    if from < s.len() {
        if digit_value(s[from]) >= 0 {
            lemma_digit_run_shift(s, k, from + 1);
        }
    }
}

/// Whether a text spells a floating-point number.
pub fn reads_as_float(s: &str) -> (r: bool)
    ensures
        r == is_float_literal(s@),
{
    let v = chars_of(s);
    let from: usize = if v.len() > 0 && (v[0] == '+' || v[0] == '-') {
        1
    } else {
        0
    };
    assert(v@.skip(0) == v@);
    is_word(&v, from, "inf") || is_word(&v, from, "infinity") || is_word(&v, from, "nan")
        || is_number_from(&v, from)
}

/// The plain value of an optional text.
pub open spec fn opt_text(t: Option<String>) -> Option<Seq<char>> {
    match t {
        Some(s) => Some(s@),
        None => None,
    }
}

/// The plain values of an optional list of texts.
pub open spec fn opt_texts(t: Option<Vec<String>>) -> Option<Seq<Seq<char>>> {
    match t {
        Some(v) => Some(v.deep_view()),
        None => None,
    }
}

/// A copy of a list of texts.
pub fn copy_texts(v: &Vec<String>) -> (r: Vec<String>)
    ensures
        r.deep_view() == v.deep_view(),
{
    let mut out: Vec<String> = Vec::new();
    let mut i: usize = 0;
    while i < v.len()
        invariant
            i <= v.len(),
            out.deep_view() == v.deep_view().take(i as int),
        decreases v.len() - i,
    {
        let ghost before = out.deep_view();
        out.push(v[i].clone());
        assert(out.deep_view() == before.push(v@[i as int]@));
        i += 1;
    }
    out
}

/// A text that holds the separator at index `i` splits into the pieces of
/// what stands before that index and the pieces of what stands after it.
pub proof fn lemma_split_at_separator(s: Seq<char>, c: char, i: int)
    requires
        0 <= i < s.len(),
        s[i] == c,
    ensures
        split(s, c) == split(s.take(i), c) + split(s.skip(i + 1), c),
        split(s, c).len() >= 2,
    decreases s.len(),
{
    lemma_position(s, c);
    let p = position(s, c);
    let head = s.take(i);
    if p == i {
        lemma_position_is(head, c, i);
    } else {
        let rest = s.skip(p + 1);
        lemma_split_at_separator(rest, c, i - p - 1);
        lemma_position_is(head, c, p);
        assert(head.take(p) == s.take(p));
        assert(head.skip(p + 1) == rest.take(i - p - 1));
        assert(rest.skip(i - p) == s.skip(i + 1));
    }
}

} // verus!
