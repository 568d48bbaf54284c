//! Text operations on character sequences: trimming, searching, numbers.

use vstd::prelude::*;

verus! {

/// The characters with the Unicode `White_Space` property.
pub open spec fn is_whitespace(c: char) -> bool {
    ||| '\u{9}' <= c <= '\u{D}'
    ||| c == '\u{20}'
    ||| c == '\u{85}'
    ||| c == '\u{A0}'
    ||| c == '\u{1680}'
    ||| '\u{2000}' <= c <= '\u{200A}'
    ||| c == '\u{2028}'
    ||| c == '\u{2029}'
    ||| c == '\u{202F}'
    ||| c == '\u{205F}'
    ||| c == '\u{3000}'
}

/// Whether `c` is Unicode whitespace.
pub fn whitespace(c: char) -> (r: bool)
    ensures
        r == is_whitespace(c),
{
    ('\u{9}' <= c && c <= '\u{D}') || c == '\u{20}' || c == '\u{85}' || c == '\u{A0}' || c
        == '\u{1680}' || ('\u{2000}' <= c && c <= '\u{200A}') || c == '\u{2028}' || c == '\u{2029}'
        || c == '\u{202F}' || c == '\u{205F}' || c == '\u{3000}'
}

/// `s` without its leading whitespace.
pub open spec fn trim_start(s: Seq<char>) -> Seq<char>
    decreases s.len(),
{
    if s.len() > 0 && is_whitespace(s[0]) {
        trim_start(s.skip(1))
    } else {
        s
    }
}

/// `s` without its trailing whitespace.
pub open spec fn trim_end(s: Seq<char>) -> Seq<char>
    decreases s.len(),
{
    if s.len() > 0 && is_whitespace(s.last()) {
        trim_end(s.drop_last())
    } else {
        s
    }
}

/// `s` without whitespace at either end.
pub open spec fn trim(s: Seq<char>) -> Seq<char> {
    trim_end(trim_start(s))
}

/// The characters of `s`.
pub fn chars_of(s: &str) -> (r: Vec<char>)
    ensures
        r@ == s@,
{
    let mut r: Vec<char> = Vec::new();
    for c in it: s.chars()
        invariant
            r@ == it.seq().take(it.index()),
    {
        r.push(c);
    }
    r
}

/// Whether `a` and `b` hold the same characters.
pub fn same_text(a: &str, b: &str) -> (r: bool)
    ensures
        r == (a@ == b@),
{
    a.to_owned() == b.to_owned()
}

/// The part of `s` left after its leading whitespace.
pub fn trim_start_text(s: &str) -> (r: &str)
    ensures
        r@ == trim_start(s@),
{
    let chars: Vec<char> = chars_of(s);
    let n: usize = chars.len();
    let mut i: usize = 0;
    proof {
        assert(s@.skip(0) =~= s@);
    }
    while i < n && whitespace(chars[i])
        invariant
            i <= n,
            n == chars@.len(),
            chars@ == s@,
            trim_start(s@) == trim_start(s@.skip(i as int)),
        decreases n - i,
    {
        proof {
            assert(s@.skip(i as int).skip(1) =~= s@.skip(i + 1));
        }
        i = i + 1;
    }
    let r: &str = s.substring_char(i, n);
    proof {
        assert(r@ =~= s@.skip(i as int));
    }
    r
}

/// The part of `s` left before its trailing whitespace.
pub fn trim_end_text(s: &str) -> (r: &str)
    ensures
        r@ == trim_end(s@),
{
    let chars: Vec<char> = chars_of(s);
    let mut n: usize = chars.len();
    proof {
        assert(s@.take(n as int) =~= s@);
    }
    while n > 0 && whitespace(chars[n - 1])
        invariant
            n <= chars@.len(),
            chars@ == s@,
            trim_end(s@) == trim_end(s@.take(n as int)),
        decreases n,
    {
        proof {
            assert(s@.take(n as int).drop_last() =~= s@.take(n - 1));
        }
        n = n - 1;
    }
    let r: &str = s.substring_char(0, n);
    proof {
        assert(r@ =~= s@.take(n as int));
    }
    r
}

/// `s` without whitespace at either end.
pub fn trim_text(s: &str) -> (r: &str)
    ensures
        r@ == trim(s@),
{
    trim_end_text(trim_start_text(s))
}

/// Whether `needle` stands in `s` at position `i`.
pub open spec fn occurs_at(s: Seq<char>, needle: Seq<char>, i: int) -> bool {
    0 <= i && i + needle.len() <= s.len() && s.subrange(i, i + needle.len()) == needle
}

/// The first position of `needle` in `s` at or after `i`.
pub open spec fn find_from(s: Seq<char>, needle: Seq<char>, i: int) -> Option<int>
    decreases s.len() - i + 1,
{
    if i + needle.len() > s.len() {
        None
    } else if occurs_at(s, needle, i) {
        Some(i)
    } else {
        find_from(s, needle, i + 1)
    }
}

/// The first position of `needle` in `s`.
pub open spec fn find(s: Seq<char>, needle: Seq<char>) -> Option<int> {
    find_from(s, needle, 0)
}

/// What stands before and after the first `sep` in `s`.
pub open spec fn split_once(s: Seq<char>, sep: Seq<char>) -> Option<(Seq<char>, Seq<char>)> {
    match find(s, sep) {
        Some(i) => Some((s.take(i), s.skip(i + sep.len()))),
        None => None,
    }
}

/// What is left of `s` behind `prefix`, where `s` starts with it.
pub open spec fn strip_prefix(s: Seq<char>, prefix: Seq<char>) -> Option<Seq<char>> {
    if occurs_at(s, prefix, 0) {
        Some(s.skip(prefix.len() as int))
    } else {
        None
    }
}

/// A position that holds the needle, with none earlier, is the one found.
pub proof fn lemma_find_is(s: Seq<char>, needle: Seq<char>, from: int, at: int)
    requires
        0 <= from <= at,
        occurs_at(s, needle, at),
        forall|j: int| from <= j < at ==> !occurs_at(s, needle, j),
    ensures
        find_from(s, needle, from) == Some(at),
    decreases at - from,
{
    if from < at {
        lemma_find_is(s, needle, from + 1, at);
    }
}

/// Where no position holds the needle, none is found.
pub proof fn lemma_find_none(s: Seq<char>, needle: Seq<char>, from: int)
    requires
        0 <= from,
        forall|j: int| from <= j ==> !occurs_at(s, needle, j),
    ensures
        find_from(s, needle, from) is None,
    decreases s.len() - from + 1,
{
    if from + needle.len() <= s.len() {
        lemma_find_none(s, needle, from + 1);
    }
}

/// Whether `needle` stands in `hay` at position `i`.
fn holds_at(hay: &Vec<char>, needle: &Vec<char>, i: usize) -> (r: bool)
    requires
        i + needle@.len() <= hay@.len(),
    ensures
        r == occurs_at(hay@, needle@, i as int),
{
    let n: usize = needle.len();
    let total: usize = hay.len();
    let mut k: usize = 0;
    while k < n
        invariant
            k <= n,
            n == needle@.len(),
            total == hay@.len(),
            i + n <= total,
            forall|j: int| 0 <= j < k ==> hay@[i + j] == needle@[j],
        decreases n - k,
    {
        if hay[i + k] != needle[k] {
            proof {
                assert(hay@.subrange(i as int, i + n)[k as int] == hay@[i + k]);
            }
            return false;
        }
        k = k + 1;
    }
    proof {
        assert(hay@.subrange(i as int, i + n) =~= needle@);
    }
    true
}

/// The first position of `needle` in `hay`.
pub fn find_chars(hay: &Vec<char>, needle: &Vec<char>) -> (r: Option<usize>)
    ensures
        match r {
            Some(i) => find(hay@, needle@) == Some(i as int) && i + needle@.len() <= hay@.len(),
            None => find(hay@, needle@) is None,
        },
{
    let m: usize = needle.len();
    if hay.len() < m {
        return None;
    }
    let end: usize = hay.len() - m;
    let mut i: usize = 0;
    while i <= end
        invariant
            i <= end + 1,
            m == needle@.len(),
            end + m == hay@.len(),
            find(hay@, needle@) == find_from(hay@, needle@, i as int),
        decreases end + 1 - i,
    {
        if holds_at(hay, needle, i) {
            return Some(i);
        }
        if i == end {
            proof {
                assert(find_from(hay@, needle@, i + 1) is None);
            }
            return None;
        }
        i = i + 1;
    }
    None
}

/// What stands before and after the first `sep` in `s`.
pub fn split_once_text<'a>(s: &'a str, sep: &str) -> (r: Option<(&'a str, &'a str)>)
    ensures
        match r {
            Some((a, b)) => split_once(s@, sep@) == Some((a@, b@)),
            None => split_once(s@, sep@) is None,
        },
{
    let hay: Vec<char> = chars_of(s);
    let needle: Vec<char> = chars_of(sep);
    let total: usize = hay.len();
    match find_chars(&hay, &needle) {
        Some(i) => {
            let a: &'a str = s.substring_char(0, i);
            let b: &'a str = s.substring_char(i + needle.len(), total);
            proof {
                assert(a@ =~= s@.take(i as int));
                assert(b@ =~= s@.skip(i + sep@.len()));
            }
            Some((a, b))
        },
        None => None,
    }
}

/// What is left of `s` behind `prefix`, where `s` starts with it.
pub fn strip_prefix_text<'a>(s: &'a str, prefix: &str) -> (r: Option<&'a str>)
    ensures
        match r {
            Some(rest) => strip_prefix(s@, prefix@) == Some(rest@),
            None => strip_prefix(s@, prefix@) is None,
        },
{
    let hay: Vec<char> = chars_of(s);
    let needle: Vec<char> = chars_of(prefix);
    if needle.len() <= hay.len() && holds_at(&hay, &needle, 0) {
        let rest: &'a str = s.substring_char(needle.len(), hay.len());
        proof {
            assert(rest@ =~= s@.skip(prefix@.len() as int));
        }
        Some(rest)
    } else {
        None
    }
}

/// The character of the decimal digit `d`.
pub open spec fn digit_char(d: int) -> char {
    ('0' as int + d) as char
}

/// `n` in decimal, without leading zeros.
pub open spec fn decimal(n: nat) -> Seq<char>
    decreases n,
{
    if n < 10 {
        seq![digit_char(n as int)]
    } else {
        decimal(n / 10).push(digit_char((n % 10) as int))
    }
}

/// `n` in decimal, behind a minus sign where it is negative.
pub open spec fn signed_decimal(n: int) -> Seq<char> {
    if n < 0 {
        seq!['-'] + decimal((-n) as nat)
    } else {
        decimal(n as nat)
    }
}

/// Two numbers with the same decimal text are the same.
pub proof fn law_decimal_is_injective(a: nat, b: nat)
    ensures
        decimal(a) == decimal(b) ==> a == b,
    decreases a,
{
    if decimal(a) == decimal(b) {
        lemma_decimal_len(a);
        lemma_decimal_len(b);
        assert(decimal(a).last() == digit_char((a % 10) as int));
        assert(decimal(b).last() == digit_char((b % 10) as int));
        if a >= 10 {
            assert(b >= 10);
            assert(decimal(a).drop_last() =~= decimal(a / 10));
            assert(decimal(b).drop_last() =~= decimal(b / 10));
            law_decimal_is_injective(a / 10, b / 10);
        }
    }
}

proof fn lemma_decimal_len(n: nat)
    ensures
        decimal(n).len() >= 1,
        n >= 10 <==> decimal(n).len() >= 2,
    decreases n,
{
    if n >= 10 {
        lemma_decimal_len(n / 10);
    }
}

fn digit_text(d: u64) -> (r: &'static str)
    requires
        d < 10,
    ensures
        r@ == seq![digit_char(d as int)],
{
    proof {
        reveal_strlit("0");
        reveal_strlit("1");
        reveal_strlit("2");
        reveal_strlit("3");
        reveal_strlit("4");
        reveal_strlit("5");
        reveal_strlit("6");
        reveal_strlit("7");
        reveal_strlit("8");
        reveal_strlit("9");
    }
    let r: &'static str = match d {
        0 => "0",
        1 => "1",
        2 => "2",
        3 => "3",
        4 => "4",
        5 => "5",
        6 => "6",
        7 => "7",
        8 => "8",
        _ => "9",
    };
    proof {
        assert(r@ =~= seq![digit_char(d as int)]);
    }
    r
}

/// `n` in decimal.
pub fn decimal_text(n: u64) -> (r: String)
    ensures
        r@ == decimal(n as nat),
    decreases n,
{
    if n < 10 {
        digit_text(n).to_owned()
    } else {
        let mut r: String = decimal_text(n / 10);
        let ghost head = r@;
        r.append(digit_text(n % 10));
        proof {
            assert(r@ =~= head.push(digit_char((n % 10) as int)));
        }
        r
    }
}

/// `n` in decimal, signed.
pub fn signed_decimal_text(n: i64) -> (r: String)
    ensures
        r@ == signed_decimal(n as int),
{
    if n < 0 {
        let magnitude: u64 = if n == i64::MIN {
            9_223_372_036_854_775_808
        } else {
            (-n) as u64
        };
        let mut r: String = "-".to_owned();
        r.append(decimal_text(magnitude).as_str());
        proof {
            reveal_strlit("-");
            assert("-"@ =~= seq!['-']);
        }
        r
    } else {
        decimal_text(n as u64)
    }
}

/// Whether `c` is an ASCII decimal digit.
pub open spec fn is_digit(c: char) -> bool {
    '0' <= c <= '9'
}

/// The number that the digits of `s` spell, where it holds digits alone.
pub open spec fn digits_value(s: Seq<char>) -> Option<nat>
    decreases s.len(),
{
    if s.len() == 0 {
        Some(0)
    } else if !is_digit(s.last()) {
        None
    } else {
        match digits_value(s.drop_last()) {
            Some(v) => Some((v * 10 + (s.last() as int - '0' as int)) as nat),
            None => None,
        }
    }
}

/// The number that `s` spells: one or more digits, an optional plus sign
/// before them, at most `max`.
pub open spec fn parse_unsigned(s: Seq<char>, max: nat) -> Option<nat> {
    let body = if s.len() > 1 && s[0] == '+' {
        s.skip(1)
    } else {
        s
    };
    if body.len() == 0 {
        None
    } else {
        match digits_value(body) {
            Some(v) => if v <= max {
                Some(v)
            } else {
                None
            },
            None => None,
        }
    }
}

proof fn lemma_digits_value_prefix(s: Seq<char>, k: int)
    requires
        0 <= k <= s.len(),
    ensures
        digits_value(s) is Some ==> digits_value(s.take(k)) is Some && digits_value(s.take(k))->0
            <= digits_value(s)->0,
    decreases s.len() - k,
{
    if k == s.len() {
        assert(s.take(k) =~= s);
    } else {
        lemma_digits_value_prefix(s, k + 1);
        assert(s.take(k + 1).drop_last() =~= s.take(k));
    }
}

/// The number that `s` spells, where it is at most `max`.
pub fn parse_unsigned_text(s: &str, max: u64) -> (r: Option<u64>)
    ensures
        match r {
            Some(v) => parse_unsigned(s@, max as nat) == Some(v as nat),
            None => parse_unsigned(s@, max as nat) is None,
        },
{
    let chars: Vec<char> = chars_of(s);
    let n: usize = chars.len();
    let start: usize = if n > 1 && chars[0] == '+' {
        1
    } else {
        0
    };
    let ghost body = s@.skip(start as int);
    proof {
        assert(s@.skip(0) =~= s@);
    }
    if start == n {
        return None;
    }
    let mut i: usize = start;
    let mut value: u64 = 0;
    proof {
        assert(body.take(0) =~= Seq::<char>::empty());
    }
    while i < n
        invariant
            start <= i <= n,
            n == chars@.len(),
            chars@ == s@,
            body == s@.skip(start as int),
            value <= max,
            digits_value(body.take(i - start)) == Some(value as nat),
            start < n,
            body.len() > 0,
            parse_unsigned(s@, max as nat) == (match digits_value(body) {
                Some(v) => if v <= max {
                    Some(v)
                } else {
                    None
                },
                None => None,
            }),
        decreases n - i,
    {
        let c: char = chars[i];
        proof {
            let k = i - start;
            assert(body.take(k + 1).drop_last() =~= body.take(k));
            assert(body.take(k + 1).last() == c);
            lemma_digits_value_prefix(body, k + 1);
        }
        if c < '0' || c > '9' {
            return None;
        }
        let d: u64 = (c as u64) - ('0' as u64);
        if value > (u64::MAX - d) / 10 {
            return None;
        }
        let next: u64 = value * 10 + d;
        if next > max {
            return None;
        }
        value = next;
        i = i + 1;
    }
    proof {
        assert(body.take(n - start) =~= body);
    }
    Some(value)
}

/// The lower-case hexadecimal digit `d`.
pub open spec fn hex_char(d: int) -> char {
    if d < 10 {
        ('0' as int + d) as char
    } else {
        ('a' as int + d - 10) as char
    }
}

/// The last `width` hexadecimal digits of `v`, padded with zeros.
pub open spec fn hex(v: nat, width: nat) -> Seq<char>
    decreases width,
{
    if width == 0 {
        Seq::empty()
    } else {
        hex(v / 16, (width - 1) as nat).push(hex_char((v % 16) as int))
    }
}

fn hex_digit_text(d: u64) -> (r: &'static str)
    requires
        d < 16,
    ensures
        r@ == seq![hex_char(d as int)],
{
    if d < 10 {
        return digit_text(d);
    }
    proof {
        reveal_strlit("a");
        reveal_strlit("b");
        reveal_strlit("c");
        reveal_strlit("d");
        reveal_strlit("e");
        reveal_strlit("f");
    }
    let r: &'static str = match d {
        10 => "a",
        11 => "b",
        12 => "c",
        13 => "d",
        14 => "e",
        _ => "f",
    };
    proof {
        assert(r@ =~= seq![hex_char(d as int)]);
    }
    r
}

/// The last `width` hexadecimal digits of `v`.
pub fn hex_text(v: u64, width: u64) -> (r: String)
    ensures
        r@ == hex(v as nat, width as nat),
    decreases width,
{
    if width == 0 {
        return String::new();
    }
    let mut r: String = hex_text(v / 16, width - 1);
    let ghost head = r@;
    r.append(hex_digit_text(v % 16));
    proof {
        assert(r@ =~= head.push(hex_char((v % 16) as int)));
    }
    r
}

/// `c` in lower case, where it is an ASCII letter.
pub open spec fn ascii_lower_char(c: char) -> char {
    if 'A' <= c <= 'Z' {
        (c as int + 32) as char
    } else {
        c
    }
}

/// `s` with its ASCII letters in lower case.
pub open spec fn ascii_lower(s: Seq<char>) -> Seq<char> {
    s.map_values(|c: char| ascii_lower_char(c))
}

fn lower_char(c: char) -> (r: char)
    ensures
        r == ascii_lower_char(c),
{
    if 'A' <= c && c <= 'Z' {
        (c as u8 + 32) as char
    } else {
        c
    }
}

/// Whether `a` and `b` agree but for the case of ASCII letters.
pub fn same_ignoring_ascii_case(a: &str, b: &str) -> (r: bool)
    ensures
        r == (ascii_lower(a@) == ascii_lower(b@)),
{
    let x: Vec<char> = chars_of(a);
    let y: Vec<char> = chars_of(b);
    let n: usize = x.len();
    if n != y.len() {
        proof {
            assert(ascii_lower(a@).len() != ascii_lower(b@).len());
        }
        return false;
    }
    let mut i: usize = 0;
    while i < n
        invariant
            i <= n,
            n == x@.len(),
            n == y@.len(),
            x@ == a@,
            y@ == b@,
            forall|j: int| 0 <= j < i ==> ascii_lower_char(a@[j]) == ascii_lower_char(b@[j]),
        decreases n - i,
    {
        if lower_char(x[i]) != lower_char(y[i]) {
            proof {
                assert(ascii_lower(a@)[i as int] != ascii_lower(b@)[i as int]);
            }
            return false;
        }
        i = i + 1;
    }
    proof {
        assert(ascii_lower(a@) =~= ascii_lower(b@));
    }
    true
}

/// The whitespace characters, one by one.
pub proof fn law_whitespace_characters(c: char)
    ensures
        is_whitespace(c) <==> seq![
            0x9u32,
            0xA,
            0xB,
            0xC,
            0xD,
            0x20,
            0x85,
            0xA0,
            0x1680,
            0x2000,
            0x2001,
            0x2002,
            0x2003,
            0x2004,
            0x2005,
            0x2006,
            0x2007,
            0x2008,
            0x2009,
            0x200A,
            0x2028,
            0x2029,
            0x202F,
            0x205F,
            0x3000,
        ].contains(c as u32),
{
    let all = seq![
        0x9u32,
        0xA,
        0xB,
        0xC,
        0xD,
        0x20,
        0x85,
        0xA0,
        0x1680,
        0x2000,
        0x2001,
        0x2002,
        0x2003,
        0x2004,
        0x2005,
        0x2006,
        0x2007,
        0x2008,
        0x2009,
        0x200A,
        0x2028,
        0x2029,
        0x202F,
        0x205F,
        0x3000,
    ];
    if is_whitespace(c) {
        let i = if c as u32 <= 0xD {
            c as int - 9
        } else if c as u32 == 0x20 {
            5
        } else if c as u32 == 0x85 {
            6
        } else if c as u32 == 0xA0 {
            7
        } else if c as u32 == 0x1680 {
            8
        } else if c as u32 <= 0x200A {
            9 + (c as int - 0x2000)
        } else if c as u32 == 0x2028 {
            20
        } else if c as u32 == 0x2029 {
            21
        } else if c as u32 == 0x202F {
            22
        } else if c as u32 == 0x205F {
            23
        } else {
            24
        };
        assert(all[i] == c as u32);
    }
}

/// Trimming takes away the whitespace before and behind a text, all of it, and
/// nothing else.
pub proof fn law_trim_takes_only_outer_whitespace(
    before: Seq<char>,
    middle: Seq<char>,
    after: Seq<char>,
)
    requires
        forall|i: int| 0 <= i < before.len() ==> is_whitespace(#[trigger] before[i]),
        forall|i: int| 0 <= i < after.len() ==> is_whitespace(#[trigger] after[i]),
        middle.len() > 0 ==> !is_whitespace(middle[0]) && !is_whitespace(middle.last()),
    ensures
        middle.len() > 0 ==> trim_start(before + middle + after) == middle + after,
        middle.len() > 0 ==> trim_end(before + middle + after) == before + middle,
        middle.len() == 0 ==> trim_start(before + middle + after).len() == 0,
        middle.len() == 0 ==> trim_end(before + middle + after).len() == 0,
        trim(before + middle + after) == middle,
{
    if middle.len() > 0 {
        assert((middle + after)[0] == middle[0]);
        assert(before + middle + after =~= before + (middle + after));
        lemma_trim_start_of(before, middle + after);
        assert((before + middle).last() == middle.last());
        lemma_trim_end_of(before + middle, after);
        lemma_trim_end_of(middle, after);
    } else {
        let blank = before + middle + after;
        assert(blank =~= before + after);
        assert forall|i: int| 0 <= i < blank.len() implies is_whitespace(#[trigger] blank[i]) by {
            if i < before.len() {
                assert(blank[i] == before[i]);
            } else {
                assert(blank[i] == after[i - before.len()]);
            }
        }
        assert(blank =~= blank + Seq::<char>::empty());
        lemma_trim_start_of(blank, Seq::empty());
        assert(blank =~= Seq::<char>::empty() + blank);
        lemma_trim_end_of(Seq::empty(), blank);
    }
}

proof fn lemma_trim_start_of(before: Seq<char>, rest: Seq<char>)
    requires
        forall|i: int| 0 <= i < before.len() ==> is_whitespace(#[trigger] before[i]),
        rest.len() > 0 ==> !is_whitespace(rest[0]),
    ensures
        trim_start(before + rest) == rest,
    decreases before.len(),
{
    if before.len() > 0 {
        assert((before + rest)[0] == before[0]);
        assert((before + rest).skip(1) =~= before.skip(1) + rest);
        lemma_trim_start_of(before.skip(1), rest);
    } else {
        assert(before + rest =~= rest);
    }
}

proof fn lemma_trim_end_of(rest: Seq<char>, after: Seq<char>)
    requires
        forall|i: int| 0 <= i < after.len() ==> is_whitespace(#[trigger] after[i]),
        rest.len() > 0 ==> !is_whitespace(rest.last()),
    ensures
        trim_end(rest + after) == rest,
    decreases after.len(),
{
    if after.len() > 0 {
        assert((rest + after).last() == after[after.len() - 1]);
        assert((rest + after).drop_last() =~= rest + after.drop_last());
        lemma_trim_end_of(rest, after.drop_last());
    } else {
        assert(rest + after =~= rest);
    }
}

/// A text trims to nothing exactly where it holds nothing but whitespace.
pub proof fn law_only_whitespace_trims_to_nothing(s: Seq<char>)
    ensures
        trim(s).len() == 0 <==> forall|i: int|
            0 <= i < s.len() ==> is_whitespace(#[trigger] s[i]),
{
    if forall|i: int| 0 <= i < s.len() ==> is_whitespace(#[trigger] s[i]) {
        let none = Seq::<char>::empty();
        assert(s + none + none =~= s);
        law_trim_takes_only_outer_whitespace(s, none, none);
    } else {
        let i = choose|i: int| 0 <= i < s.len() && !is_whitespace(#[trigger] s[i]);
        lemma_trim_keeps_ink(s, i);
    }
}

proof fn lemma_trim_keeps_ink(s: Seq<char>, i: int)
    requires
        0 <= i < s.len(),
        !is_whitespace(s[i]),
    ensures
        trim(s).len() > 0,
    decreases s.len(),
{
    if is_whitespace(s[0]) {
        assert(s.skip(1)[i - 1] == s[i]);
        lemma_trim_keeps_ink(s.skip(1), i - 1);
    } else {
        lemma_trim_end_keeps_ink(s, i);
    }
}

proof fn lemma_trim_end_keeps_ink(s: Seq<char>, i: int)
    requires
        0 <= i < s.len(),
        !is_whitespace(s[i]),
    ensures
        trim_end(s).len() > 0,
    decreases s.len(),
{
    if is_whitespace(s.last()) {
        assert(s.drop_last()[i] == s[i]);
        lemma_trim_end_keeps_ink(s.drop_last(), i);
    }
}

/// What is found is the first place at which the text reads as the needle, and
/// nothing is found only where there is none.
pub proof fn law_find_gives_the_first_place(s: Seq<char>, needle: Seq<char>)
    ensures
        match find(s, needle) {
            Some(i) => {
                &&& 0 <= i <= s.len() - needle.len()
                &&& s.subrange(i, i + needle.len()) == needle
                &&& forall|j: int|
                    0 <= j < i ==> #[trigger] s.subrange(j, j + needle.len()) != needle
            },
            None => forall|j: int|
                0 <= j <= s.len() - needle.len() ==> #[trigger] s.subrange(j, j + needle.len())
                    != needle,
        },
{
    lemma_find_from_first(s, needle, 0);
}

proof fn lemma_find_from_first(s: Seq<char>, needle: Seq<char>, from: int)
    requires
        0 <= from,
    ensures
        match find_from(s, needle, from) {
            Some(i) => {
                &&& from <= i <= s.len() - needle.len()
                &&& s.subrange(i, i + needle.len()) == needle
                &&& forall|j: int|
                    from <= j < i ==> #[trigger] s.subrange(j, j + needle.len()) != needle
            },
            None => forall|j: int|
                from <= j <= s.len() - needle.len() ==> #[trigger] s.subrange(j, j + needle.len())
                    != needle,
        },
    decreases s.len() - from + 1,
{
    if from + needle.len() > s.len() || occurs_at(s, needle, from) {
    } else {
        lemma_find_from_first(s, needle, from + 1);
    }
}

/// Splitting at a separator gives back the two sides of its first place: put
/// together with it they make the text, and the separator stands nowhere before.
pub proof fn law_split_once_is_undone_by_joining(s: Seq<char>, sep: Seq<char>)
    ensures
        match split_once(s, sep) {
            Some((before, after)) => {
                &&& s == before + sep + after
                &&& forall|j: int|
                    0 <= j < before.len() ==> #[trigger] s.subrange(j, j + sep.len()) != sep
            },
            None => forall|j: int|
                0 <= j <= s.len() - sep.len() ==> #[trigger] s.subrange(j, j + sep.len()) != sep,
        },
{
    law_find_gives_the_first_place(s, sep);
    match find(s, sep) {
        Some(i) => {
            assert(s =~= s.take(i) + s.subrange(i, i + sep.len()) + s.skip(i + sep.len()));
        },
        None => {},
    }
}

/// A text splits into what was joined, where the separator is one character that
/// the first part does not hold.
pub proof fn law_joined_parts_split_again(before: Seq<char>, c: char, after: Seq<char>)
    requires
        !before.contains(c),
    ensures
        split_once(before + seq![c] + after, seq![c]) == Some((before, after)),
{
    let s = before + seq![c] + after;
    let sep = seq![c];
    let at = before.len() as int;
    assert(s.subrange(at, at + 1) =~= sep);
    assert forall|j: int| 0 <= j < at implies !occurs_at(s, sep, j) by {
        assert(s.subrange(j, j + 1)[0] == before[j]);
        assert(before.contains(before[j]));
        assert(sep[0] == c);
    }
    lemma_find_is(s, sep, 0, at);
    assert(s.take(at) =~= before);
    assert(s.skip(at + 1) =~= after);
}

/// A prefix that was put before a text comes off again, and comes off nothing
/// else.
pub proof fn law_strip_prefix_undoes_prefixing(s: Seq<char>, prefix: Seq<char>, rest: Seq<char>)
    ensures
        strip_prefix(prefix + rest, prefix) == Some(rest),
        strip_prefix(s, prefix) == Some(rest) ==> s == prefix + rest,
{
    let whole = prefix + rest;
    assert(whole.subrange(0, prefix.len() as int) =~= prefix);
    assert(whole.skip(prefix.len() as int) =~= rest);
    if strip_prefix(s, prefix) == Some(rest) {
        assert(s =~= s.subrange(0, prefix.len() as int) + s.skip(prefix.len() as int));
    }
}

/// A decimal text is read from its first digit to its last, each ten times the
/// next: one digit stands for a number below ten, and a further digit behind the
/// text of a number other than zero multiplies it by ten and counts up by itself.
pub proof fn law_decimal_digits_count_in_tens(n: nat, d: nat)
    requires
        d < 10,
    ensures
        decimal(d) == seq![(48 + d) as char],
        n > 0 ==> decimal(10 * n + d) == decimal(n) + seq![(48 + d) as char],
        signed_decimal(n as int) == decimal(n),
        n > 0 ==> signed_decimal(-n) == seq!['-'] + decimal(n),
{
    if n > 0 {
        assert((10 * n + d) / 10 == n);
        assert((10 * n + d) % 10 == d);
        assert(decimal(10 * n + d) =~= decimal(n) + seq![(48 + d) as char]);
    }
}

/// The decimal text of a number reads back as that number, with or without a plus
/// sign, wherever the number is within the bound.
pub proof fn law_decimal_reads_back(n: nat, max: nat)
    ensures
        parse_unsigned(decimal(n), max) == (if n <= max {
            Some(n)
        } else {
            None
        }),
        parse_unsigned(seq!['+'] + decimal(n), max) == parse_unsigned(decimal(n), max),
{
    lemma_digits_of_decimal(n);
    assert(decimal(n)[0] != '+') by {
        lemma_digits_are_digits(decimal(n));
        assert(is_digit(decimal(n)[0]));
    }
    assert((seq!['+'] + decimal(n)).skip(1) =~= decimal(n));
}

proof fn lemma_digits_of_decimal(n: nat)
    ensures
        decimal(n).len() > 0,
        digits_value(decimal(n)) == Some(n),
    decreases n,
{
    reveal_with_fuel(digits_value, 2);
    if n < 10 {
        assert(decimal(n).drop_last() =~= Seq::<char>::empty());
    } else {
        lemma_digits_of_decimal(n / 10);
        assert(decimal(n).drop_last() =~= decimal(n / 10));
        assert(decimal(n).last() == digit_char((n % 10) as int));
    }
}

proof fn lemma_digits_are_digits(s: Seq<char>)
    ensures
        digits_value(s) is Some <==> forall|i: int|
            0 <= i < s.len() ==> '0' <= #[trigger] s[i] && s[i] <= '9',
    decreases s.len(),
{
    if s.len() > 0 {
        lemma_digits_are_digits(s.drop_last());
        if digits_value(s) is Some {
            assert forall|i: int| 0 <= i < s.len() implies '0' <= #[trigger] s[i] && s[i] <= '9' by {
                if i < s.len() - 1 {
                    assert(s.drop_last()[i] == s[i]);
                }
            }
        } else if is_digit(s.last()) {
            let i = choose|i: int|
                0 <= i < s.len() - 1 && !('0' <= #[trigger] s.drop_last()[i] && s.drop_last()[i]
                    <= '9');
            assert(s[i] == s.drop_last()[i]);
        }
    }
}

/// A number is read from one or more digits, behind at most one plus sign, and
/// from nothing else; a further digit multiplies it by ten and adds its own value,
/// as far as the bound goes. Digits in front that are zero change nothing.
pub proof fn law_numbers_are_read_digit_by_digit(s: Seq<char>, d: nat, max: nat)
    requires
        d < 10,
    ensures
        parse_unsigned(s, max) is Some ==> s.len() > 0 && (s.len() == 1 ==> s[0] != '+') && (s[0]
            == '+' || ('0' <= s[0] && s[0] <= '9')) && forall|i: int|
            1 <= i < s.len() ==> '0' <= #[trigger] s[i] && s[i] <= '9',
        parse_unsigned(s, max) matches Some(v) ==> v <= max && parse_unsigned(
            s.push((48 + d) as char),
            max,
        ) == (if 10 * v + d <= max {
            Some((10 * v + d) as nat)
        } else {
            None
        }),
        parse_unsigned(seq![(48 + d) as char], max) == (if d <= max {
            Some(d)
        } else {
            None
        }),
        parse_unsigned(seq!['+', (48 + d) as char], max) == (if d <= max {
            Some(d)
        } else {
            None
        }),
{
    reveal_with_fuel(digits_value, 2);
    let c = (48 + d) as char;
    assert(is_digit(c));
    assert(seq![c].drop_last() =~= Seq::<char>::empty());
    assert(seq!['+', c].skip(1) =~= seq![c]);
    if parse_unsigned(s, max) is Some {
        let body = if s.len() > 1 && s[0] == '+' {
            s.skip(1)
        } else {
            s
        };
        lemma_digits_are_digits(body);
        if s.len() > 0 && s[0] == '+' {
            if s.len() == 1 {
                assert(is_digit(body[0]));
            }
            assert(s.push(c).skip(1) =~= s.skip(1).push(c));
        }
        assert forall|i: int| 1 <= i < s.len() implies '0' <= #[trigger] s[i] && s[i] <= '9' by {
            if s[0] == '+' {
                assert(body[i - 1] == s[i]);
            } else {
                assert(body[i] == s[i]);
            }
        }
        assert(body.push(c).drop_last() =~= body);
    }
}

/// A hexadecimal text ends in the digit of the number's last four bits, in lower
/// case, behind the text of the rest.
pub proof fn law_hex_digits_count_in_sixteens(v: nat, d: nat, width: nat)
    requires
        d < 16,
    ensures
        hex(v, width).len() == width,
        hex(16 * v + d, width + 1) == hex(v, width) + seq![
            seq![
                '0',
                '1',
                '2',
                '3',
                '4',
                '5',
                '6',
                '7',
                '8',
                '9',
                'a',
                'b',
                'c',
                'd',
                'e',
                'f',
            ][d as int],
        ],
{
    lemma_hex_length(v, width);
    assert((16 * v + d) / 16 == v);
    assert((16 * v + d) % 16 == d);
}

proof fn lemma_hex_length(v: nat, width: nat)
    ensures
        hex(v, width).len() == width,
    decreases width,
{
    if width > 0 {
        lemma_hex_length(v / 16, (width - 1) as nat);
    }
}

/// Lower case changes the letters from `A` to `Z`, each to its own small letter,
/// and leaves every other character alone.
pub proof fn law_lower_case_changes_capitals_only(s: Seq<char>, i: int)
    requires
        0 <= i < s.len(),
    ensures
        ascii_lower(s).len() == s.len(),
        65 <= s[i] as u32 <= 90 ==> ascii_lower(s)[i] as u32 == s[i] as u32 + 32,
        !(65 <= s[i] as u32 <= 90) ==> ascii_lower(s)[i] == s[i],
{
}

/// A bound keeps numbers out and changes none: what reads as a number within a
/// wider bound reads as the same number within a narrower one, or as none where it
/// is beyond that.
pub proof fn law_bound_only_keeps_numbers_out(s: Seq<char>, max: nat, wider: nat)
    requires
        max <= wider,
    ensures
        match parse_unsigned(s, wider) {
            Some(v) => v <= wider && parse_unsigned(s, max) == (if v <= max {
                Some(v)
            } else {
                None
            }),
            None => parse_unsigned(s, max) is None,
        },
        parse_unsigned(s, max) is Some ==> parse_unsigned(s, wider) == parse_unsigned(s, max),
{
}

/// Digits are a number, with or without a plus sign before them, wherever the
/// bound is wide enough.
pub proof fn law_all_digits_are_a_number(s: Seq<char>) -> (bound: nat)
    requires
        s.len() > 0,
        forall|i: int| 0 <= i < s.len() ==> '0' <= #[trigger] s[i] && s[i] <= '9',
    ensures
        parse_unsigned(s, bound) is Some,
        parse_unsigned(seq!['+'] + s, bound) == parse_unsigned(s, bound),
{
    lemma_digits_are_digits(s);
    assert('0' <= s[0]);
    assert((seq!['+'] + s).skip(1) =~= s);
    digits_value(s)->0
}

} // verus!
