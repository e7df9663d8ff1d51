//! Character-level helpers shared by the manifest modules: decimal
//! rendering and parsing of integers, suffix tests and string assembly.
use vstd::prelude::*;

verus! {

/// The character of the decimal digit `d` (`d < 10`).
pub open spec fn digit_char(d: nat) -> char {
    if d == 0 {
        '0'
    } else if d == 1 {
        '1'
    } else if d == 2 {
        '2'
    } else if d == 3 {
        '3'
    } else if d == 4 {
        '4'
    } else if d == 5 {
        '5'
    } else if d == 6 {
        '6'
    } else if d == 7 {
        '7'
    } else if d == 8 {
        '8'
    } else {
        '9'
    }
}

/// The value of a decimal digit character, `None` for any other character.
pub open spec fn digit_value(c: char) -> Option<nat> {
    if c == '0' {
        Some(0)
    } else if c == '1' {
        Some(1)
    } else if c == '2' {
        Some(2)
    } else if c == '3' {
        Some(3)
    } else if c == '4' {
        Some(4)
    } else if c == '5' {
        Some(5)
    } else if c == '6' {
        Some(6)
    } else if c == '7' {
        Some(7)
    } else if c == '8' {
        Some(8)
    } else if c == '9' {
        Some(9)
    } else {
        None
    }
}

/// The shortest decimal rendering of `n` (no sign, no leading zeros).
pub open spec fn decimal(n: nat) -> Seq<char>
    decreases n,
{
    if n < 10 {
        seq![digit_char(n)]
    } else {
        decimal(n / 10).push(digit_char(n % 10))
    }
}

/// The decimal rendering of a signed integer: a `-` in front of the
/// magnitude for negative values.
pub open spec fn signed_decimal(n: int) -> Seq<char> {
    if n < 0 {
        seq!['-'] + decimal((-n) as nat)
    } else {
        decimal(n as nat)
    }
}

/// Whether every character of `s` is a decimal digit.
pub open spec fn all_digits(s: Seq<char>) -> bool {
    forall|i: int| 0 <= i < s.len() ==> (#[trigger] digit_value(s[i])) is Some
}

/// The value of a sequence of decimal digits.
pub open spec fn digits_value(s: Seq<char>) -> nat
    decreases s.len(),
{
    if s.len() == 0 {
        0
    } else {
        digits_value(s.drop_last()) * 10 + digit_value(s.last()).unwrap_or(0)
    }
}

/// What `str::parse::<u32>` yields: an optional `+` followed by at least
/// one decimal digit, whose value fits in 32 bits.
pub open spec fn parse_u32(s: Seq<char>) -> Option<u32> {
    let digits = if s.len() > 0 && s[0] == '+' {
        s.drop_first()
    } else {
        s
    };
    if digits.len() > 0 && all_digits(digits) && digits_value(digits) <= u32::MAX {
        Some(digits_value(digits) as u32)
    } else {
        None
    }
}

/// Whether `s` ends with `suffix`.
pub open spec fn ends_with(s: Seq<char>, suffix: Seq<char>) -> bool {
    suffix.len() <= s.len() && s.subrange(s.len() - suffix.len(), s.len() as int) == suffix
}

/// Whether `s` begins with `prefix`.
pub open spec fn starts_with(s: Seq<char>, prefix: Seq<char>) -> bool {
    prefix.len() <= s.len() && s.subrange(0, prefix.len() as int) == prefix
}

/// The decimal rendering of `n` is a non-empty string of digits, led by a
/// digit, whose value is `n`.
pub proof fn lemma_decimal_digits(n: nat)
    ensures
        decimal(n).len() >= 1,
        all_digits(decimal(n)),
        digits_value(decimal(n)) == n,
        digit_value(decimal(n)[0]) is Some,
    decreases n,
{
    if n >= 10 {
        lemma_decimal_digits(n / 10);
        let d = decimal(n / 10);
        let c = digit_char(n % 10);
        assert(decimal(n) == d.push(c));
        assert(d.push(c).drop_last() =~= d);
        assert(digit_value(c) == Some((n % 10) as nat));
        assert(digits_value(d.push(c)) == digits_value(d) * 10 + (n % 10));
        assert((n / 10) * 10 + n % 10 == n);
        assert(digits_value(decimal(n)) == n);
        assert forall|i: int| 0 <= i < d.push(c).len() implies (#[trigger] digit_value(
            d.push(c)[i],
        )) is Some by {
            if i < d.len() {
                assert(d.push(c)[i] == d[i]);
            }
        }
    } else {
        assert(digit_value(digit_char(n)) == Some(n));
        assert(decimal(n).drop_last() =~= Seq::<char>::empty());
        assert(digits_value(Seq::<char>::empty()) == 0);
        assert(digits_value(decimal(n)) == n);
    }
}

/// Calls `String::from_iter` on the characters; claims that the string
/// holds exactly those characters, in order.
#[verifier::external_body]
pub(crate) fn string_from_chars(chars: &Vec<char>) -> (res: String)
    ensures
        res@ == chars@,
{
    chars.iter().collect::<String>()
}

/// A string of the first `n` characters of `chars`.
pub fn string_from_prefix(chars: &Vec<char>, n: usize) -> (res: String)
    requires
        n <= chars.len(),
    ensures
        res@ == chars@.subrange(0, n as int),
{
    let mut out: Vec<char> = Vec::new();
    let mut i: usize = 0;
    while i < n
        invariant
            n <= chars.len(),
            i <= n,
            out@ == chars@.subrange(0, i as int),
        decreases n - i,
    {
        out.push(chars[i]);
        i = i + 1;
        assert(out@ =~= chars@.subrange(0, i as int));
    }
    string_from_chars(&out)
}

/// The characters of `s`, in order.
pub fn chars_of(s: &str) -> (res: Vec<char>)
    ensures
        res@ == s@,
{
    let n = s.unicode_len();
    let mut out: Vec<char> = Vec::new();
    let mut i: usize = 0;
    while i < n
        invariant
            n == s@.len(),
            i <= n,
            out@ == s@.subrange(0, i as int),
        decreases n - i,
    {
        let c = s.get_char(i);
        out.push(c);
        i = i + 1;
        assert(out@ =~= s@.subrange(0, i as int));
    }
    assert(out@ =~= s@);
    out
}

fn digit_to_char(d: u64) -> (c: char)
    requires
        d < 10,
    ensures
        c == digit_char(d as nat),
{
    if d == 0 {
        '0'
    } else if d == 1 {
        '1'
    } else if d == 2 {
        '2'
    } else if d == 3 {
        '3'
    } else if d == 4 {
        '4'
    } else if d == 5 {
        '5'
    } else if d == 6 {
        '6'
    } else if d == 7 {
        '7'
    } else if d == 8 {
        '8'
    } else {
        '9'
    }
}

fn char_to_digit(c: char) -> (d: Option<u32>)
    ensures
        match d {
            Some(v) => digit_value(c) == Some(v as nat),
            None => digit_value(c) is None,
        },
{
    if c == '0' {
        Some(0)
    } else if c == '1' {
        Some(1)
    } else if c == '2' {
        Some(2)
    } else if c == '3' {
        Some(3)
    } else if c == '4' {
        Some(4)
    } else if c == '5' {
        Some(5)
    } else if c == '6' {
        Some(6)
    } else if c == '7' {
        Some(7)
    } else if c == '8' {
        Some(8)
    } else if c == '9' {
        Some(9)
    } else {
        None
    }
}

/// The decimal digits of `n`, most significant first.
fn decimal_chars(n: u64) -> (res: Vec<char>)
    ensures
        res@ == decimal(n as nat),
    decreases n,
{
    if n < 10 {
        let mut v: Vec<char> = Vec::new();
        v.push(digit_to_char(n));
        assert(v@ =~= decimal(n as nat));
        v
    } else {
        let mut v = decimal_chars(n / 10);
        v.push(digit_to_char(n % 10));
        v
    }
}

/// Renders an unsigned integer in decimal, as `to_string` does.
pub fn u64_to_decimal(n: u64) -> (res: String)
    ensures
        res@ == decimal(n as nat),
{
    let v = decimal_chars(n);
    string_from_chars(&v)
}

/// Renders a signed integer in decimal, as `to_string` does.
pub fn i64_to_decimal(n: i64) -> (res: String)
    ensures
        res@ == signed_decimal(n as int),
{
    if n < 0 {
        let magnitude: u64 = if n == i64::MIN {
            9223372036854775808u64
        } else {
            (-n) as u64
        };
        let mut v: Vec<char> = Vec::new();
        v.push('-');
        let digits = decimal_chars(magnitude);
        let mut i: usize = 0;
        while i < digits.len()
            invariant
                v@ == seq!['-'] + digits@.subrange(0, i as int),
                i <= digits.len(),
            decreases digits.len() - i,
        {
            v.push(digits[i]);
            i = i + 1;
            assert(v@ =~= seq!['-'] + digits@.subrange(0, i as int));
        }
        assert(digits@.subrange(0, digits.len() as int) =~= digits@);
        string_from_chars(&v)
    } else {
        u64_to_decimal(n as u64)
    }
}

proof fn lemma_digits_value_push(s: Seq<char>, c: char)
    ensures
        digits_value(s.push(c)) == digits_value(s) * 10 + digit_value(c).unwrap_or(0),
{
    assert(s.push(c).drop_last() =~= s);
}

/// Parses an unsigned 32-bit integer as `str::parse::<u32>` does.
pub fn parse_u32_text(s: &str) -> (res: Option<u32>)
    ensures
        res == parse_u32(s@),
{
    let chars = chars_of(s);
    let n = chars.len();
    let start: usize = if n > 0 && chars[0] == '+' {
        1
    } else {
        0
    };
    let ghost digits = if s@.len() > 0 && s@[0] == '+' {
        s@.drop_first()
    } else {
        s@
    };
    assert(digits =~= chars@.subrange(start as int, n as int));
    if start == n {
        return None;
    }
    let mut value: u64 = 0;
    let mut i: usize = start;
    while i < n
        invariant
            chars@ == s@,
            n == chars@.len(),
            start <= i <= n,
            digits == chars@.subrange(start as int, n as int),
            digits == (if s@.len() > 0 && s@[0] == '+' {
                s@.drop_first()
            } else {
                s@
            }),
            start < n,
            all_digits(chars@.subrange(start as int, i as int)),
            value == digits_value(chars@.subrange(start as int, i as int)),
            value <= u32::MAX,
        decreases n - i,
    {
        let c = chars[i];
        let ghost prefix = chars@.subrange(start as int, i as int);
        assert(chars@.subrange(start as int, i + 1) =~= prefix.push(c));
        proof {
            lemma_digits_value_push(prefix, c);
        }
        match char_to_digit(c) {
            None => {
                assert(digits[i - start] == c);
                assert(digit_value(digits[i - start]) is None);
                assert(!all_digits(digits));
                return None;
            },
            Some(d) => {
                let next: u64 = value * 10 + d as u64;
                assert(digits_value(chars@.subrange(start as int, i + 1)) == next);
                if next > 4294967295u64 {
                    proof {
                        lemma_digits_value_prefix_bound(digits, (i + 1 - start) as int);
                    }
                    assert(chars@.subrange(start as int, i + 1) =~= digits.subrange(
                        0,
                        (i + 1 - start) as int,
                    ));
                    assert(digits_value(digits) > u32::MAX);
                    return None;
                }
                value = next;
                i = i + 1;
            },
        }
    }
    assert(chars@.subrange(start as int, n as int) =~= digits);
    Some(value as u32)
}

/// The value of a digit sequence is at least the value of any of its prefixes.
proof fn lemma_digits_value_prefix_bound(s: Seq<char>, k: int)
    requires
        0 <= k <= s.len(),
    ensures
        digits_value(s.subrange(0, k)) <= digits_value(s),
    decreases s.len() - k,
{
    if k < s.len() {
        lemma_digits_value_prefix_bound(s, k + 1);
        let p = s.subrange(0, k + 1);
        assert(p.drop_last() =~= s.subrange(0, k));
    } else {
        assert(s.subrange(0, k) =~= s);
    }
}

/// Whether `s` ends with `suffix`.
pub fn str_ends_with(s: &str, suffix: &str) -> (res: bool)
    ensures
        res == ends_with(s@, suffix@),
{
    let a = chars_of(s);
    let b = chars_of(suffix);
    if b.len() > a.len() {
        return false;
    }
    let off = a.len() - b.len();
    let mut i: usize = 0;
    while i < b.len()
        invariant
            a@ == s@,
            b@ == suffix@,
            off == a.len() - b.len(),
            i <= b.len(),
            forall|j: int| 0 <= j < i ==> a@[off + j] == b@[j],
        decreases b.len() - i,
    {
        if a[off + i] != b[i] {
            assert(s@.subrange(off as int, s@.len() as int)[i as int] != suffix@[i as int]);
            return false;
        }
        i = i + 1;
    }
    assert(s@.subrange(off as int, s@.len() as int) =~= suffix@);
    true
}

/// Whether the two strings hold the same characters.
pub fn str_eq(a: &str, b: &str) -> (res: bool)
    ensures
        res == (a@ == b@),
{
    let x = chars_of(a);
    let y = chars_of(b);
    if x.len() != y.len() {
        return false;
    }
    let mut i: usize = 0;
    while i < x.len()
        invariant
            x@ == a@,
            y@ == b@,
            x.len() == y.len(),
            i <= x.len(),
            forall|j: int| 0 <= j < i ==> x@[j] == y@[j],
        decreases x.len() - i,
    {
        if x[i] != y[i] {
            return false;
        }
        i = i + 1;
    }
    assert(a@ =~= b@);
    true
}

/// `a` followed by `b`, as a new string.
pub fn concat2(a: &str, b: &str) -> (res: String)
    ensures
        res@ == a@ + b@,
{
    let mut s = String::from_str(a);
    s.append(b);
    s
}

/// The order of strings: lexicographic by code point, a proper prefix
/// first. This is the order of `String` (UTF-8 preserves code-point order).
pub open spec fn text_lt(a: Seq<char>, b: Seq<char>) -> bool
    decreases a.len(),
{
    if a.len() == 0 {
        b.len() > 0
    } else if b.len() == 0 {
        false
    } else if a[0] != b[0] {
        (a[0] as int) < (b[0] as int)
    } else {
        text_lt(a.drop_first(), b.drop_first())
    }
}

/// No string is before itself.
pub proof fn lemma_text_lt_irreflexive(a: Seq<char>)
    ensures
        !text_lt(a, a),
    decreases a.len(),
{
    if a.len() > 0 {
        lemma_text_lt_irreflexive(a.drop_first());
    }
}

/// The order is transitive.
pub proof fn lemma_text_lt_transitive(a: Seq<char>, b: Seq<char>, c: Seq<char>)
    requires
        text_lt(a, b),
        text_lt(b, c),
    ensures
        text_lt(a, c),
    decreases a.len(),
{
    if a.len() > 0 && b.len() > 0 && c.len() > 0 {
        if a[0] == b[0] && b[0] == c[0] {
            lemma_text_lt_transitive(a.drop_first(), b.drop_first(), c.drop_first());
        }
    }
}

/// Of two different strings, one is before the other, and not both.
pub proof fn lemma_text_lt_total(a: Seq<char>, b: Seq<char>)
    ensures
        a != b ==> (text_lt(a, b) || text_lt(b, a)),
        !(text_lt(a, b) && text_lt(b, a)),
    decreases a.len(),
{
    if a.len() > 0 && b.len() > 0 {
        lemma_text_lt_total(a.drop_first(), b.drop_first());
        if a[0] == b[0] && a != b {
            assert(a.drop_first() != b.drop_first()) by {
                if a.drop_first() == b.drop_first() {
                    assert(a =~= b) by {
                        assert forall|i: int| 0 <= i < a.len() implies a[i] == b[i] by {
                            if i > 0 {
                                assert(a[i] == a.drop_first()[i - 1]);
                                assert(b[i] == b.drop_first()[i - 1]);
                            }
                        }
                    }
                }
            }
        }
        if a[0] != b[0] {
            assert((a[0] as int) != (b[0] as int));
        }
    } else if a.len() == 0 && b.len() == 0 {
        assert(a =~= b);
    }
}

/// How two strings compare.
#[derive(Clone, Copy, Debug, PartialEq, Eq)]
pub enum TextOrder {
    Before,
    Same,
    After,
}

/// Compares two strings in the order of `text_lt`.
pub fn compare_text(a: &str, b: &str) -> (res: TextOrder)
    ensures
        res == TextOrder::Before <==> text_lt(a@, b@),
        res == TextOrder::Same <==> a@ == b@,
        res == TextOrder::After <==> text_lt(b@, a@),
{
    proof {
        lemma_text_lt_total(a@, b@);
        lemma_text_lt_irreflexive(a@);
    }
    let x = chars_of(a);
    let y = chars_of(b);
    let mut i: usize = 0;
    assert(x@.subrange(0, 0) =~= y@.subrange(0, 0));
    assert(x@.subrange(0, x.len() as int) =~= a@);
    assert(y@.subrange(0, y.len() as int) =~= b@);
    while i < x.len() && i < y.len() && x[i] == y[i]
        invariant
            x@ == a@,
            y@ == b@,
            i <= x.len(),
            i <= y.len(),
            x@.subrange(0, i as int) == y@.subrange(0, i as int),
            text_lt(a@, b@) == text_lt(x@.subrange(i as int, x.len() as int), y@.subrange(
                i as int,
                y.len() as int,
            )),
            text_lt(b@, a@) == text_lt(y@.subrange(i as int, y.len() as int), x@.subrange(
                i as int,
                x.len() as int,
            )),
        decreases x.len() - i,
    {
        let ghost xs = x@.subrange(i as int, x.len() as int);
        let ghost ys = y@.subrange(i as int, y.len() as int);
        assert(xs.drop_first() =~= x@.subrange(i + 1, x.len() as int));
        assert(ys.drop_first() =~= y@.subrange(i + 1, y.len() as int));
        assert(x@.subrange(0, i + 1) =~= x@.subrange(0, i as int).push(x@[i as int]));
        assert(y@.subrange(0, i + 1) =~= y@.subrange(0, i as int).push(y@[i as int]));
        i = i + 1;
    }
    let ghost xs = x@.subrange(i as int, x.len() as int);
    let ghost ys = y@.subrange(i as int, y.len() as int);
    if i == x.len() && i == y.len() {
        assert(x@ =~= x@.subrange(0, i as int));
        assert(y@ =~= y@.subrange(0, i as int));
        TextOrder::Same
    } else if i == x.len() {
        assert(xs.len() == 0 && ys.len() > 0);
        TextOrder::Before
    } else if i == y.len() {
        assert(ys.len() == 0 && xs.len() > 0);
        assert(a@ != b@) by {
            assert(a@.len() != b@.len());
        }
        TextOrder::After
    } else {
        assert(xs[0] == x@[i as int] && ys[0] == y@[i as int]);
        assert(a@ != b@) by {
            assert(a@[i as int] != b@[i as int]);
        }
        if x[i] < y[i] {
            assert(text_lt(xs, ys));
            TextOrder::Before
        } else {
            assert(text_lt(ys, xs));
            TextOrder::After
        }
    }
}

/// A copy of a list of strings.
pub fn copy_strings(v: &Vec<String>) -> (res: Vec<String>)
    ensures
        res.deep_view() == v.deep_view(),
{
    let mut out: Vec<String> = Vec::new();
    let mut i: usize = 0;
    while i < v.len()
        invariant
            i <= v.len(),
            out.deep_view() == v.deep_view().subrange(0, i as int),
        decreases v.len() - i,
    {
        let s = v[i].clone();
        let ghost prev = out@;
        out.push(s);
        assert(out.deep_view() =~= prev.map_values(|x: String| x@).push(s@));
        assert(v.deep_view().subrange(0, i + 1) =~= v.deep_view().subrange(0, i as int).push(s@));
        i = i + 1;
    }
    assert(v.deep_view().subrange(0, i as int) =~= v.deep_view());
    out
}

/// A copy of an optional list of strings.
pub fn copy_optional_strings(src: &Option<Vec<String>>) -> (res: Option<Vec<String>>)
    ensures
        res.deep_view() == src.deep_view(),
{
    match src {
        None => None,
        Some(v) => Some(copy_strings(v)),
    }
}

} // verus!
