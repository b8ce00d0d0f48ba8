//! Text helpers shared by the parsers and renderers: comparison, decimal
//! integers in both directions, and searching in character vectors.

use vstd::prelude::*;
use vstd::string::*;

verus! {

/// The character that stands for the decimal digit `d`.
pub open spec fn digit_char(d: int) -> char {
    if d == 0 {
        '0'
    } else if d == 1 {
        '1'
    } else if d == 2 {
        '2'
    } else if d == 3 {
        '3'
    } else if d == 4 {
        '4'
    } else if d == 5 {
        '5'
    } else if d == 6 {
        '6'
    } else if d == 7 {
        '7'
    } else if d == 8 {
        '8'
    } else {
        '9'
    }
}

/// Whether `c` is one of the ten ASCII digits.
pub open spec fn is_digit(c: char) -> bool {
    '0' <= c && c <= '9'
}

/// The value of the ASCII digit `c`.
pub open spec fn digit_value(c: char) -> int {
    c as int - '0' as int
}

/// The number that a run of ASCII digits denotes, most significant first.
pub open spec fn digits_value(s: Seq<char>) -> int
    decreases s.len(),
{
    if s.len() == 0 {
        0
    } else {
        digits_value(s.drop_last()) * 10 + digit_value(s.last())
    }
}

/// Whether `s` is a non-empty run of ASCII digits.
pub open spec fn is_digits(s: Seq<char>) -> bool {
    s.len() > 0 && forall|i: int| 0 <= i < s.len() ==> is_digit(#[trigger] s[i])
}

/// The integer that `s` denotes: an optional sign followed by one or more
/// ASCII digits. Anything else denotes no integer.
pub open spec fn parsed_int(s: Seq<char>) -> Option<int> {
    if s.len() > 0 && s[0] == '-' {
        if is_digits(s.skip(1)) {
            Some(-digits_value(s.skip(1)))
        } else {
            None
        }
    } else if s.len() > 0 && s[0] == '+' {
        if is_digits(s.skip(1)) {
            Some(digits_value(s.skip(1)))
        } else {
            None
        }
    } else if is_digits(s) {
        Some(digits_value(s))
    } else {
        None
    }
}

/// The 64-bit integer that `s` denotes, if it denotes one that fits.
pub open spec fn parsed_i64(s: Seq<char>) -> Option<i64> {
    match parsed_int(s) {
        Some(v) => if i64::MIN <= v <= i64::MAX {
            Some(v as i64)
        } else {
            None
        },
        None => None,
    }
}

/// The decimal digits of a natural number, without leading zeros.
pub open spec fn natural_digits(n: nat) -> Seq<char>
    decreases n,
{
    if n < 10 {
        seq![digit_char(n as int)]
    } else {
        natural_digits(n / 10).push(digit_char((n % 10) as int))
    }
}

/// The decimal text of an integer: a minus sign for a negative one, then its
/// digits.
pub open spec fn decimal(n: int) -> Seq<char> {
    if n < 0 {
        seq!['-'] + natural_digits((-n) as nat)
    } else {
        natural_digits(n as nat)
    }
}

/// Whether `k` is the place of the first `c` in `s`.
pub open spec fn is_first(s: Seq<char>, c: char, k: int) -> bool {
    0 <= k < s.len() && s[k] == c && forall|j: int| 0 <= j < k ==> s[j] != c
}

/// The place of the first `c` in `s`, where there is one.
pub open spec fn first_index(s: Seq<char>, c: char) -> int {
    choose|k: int| is_first(s, c, k)
}

/// The first place of a character is the only one that `is_first` holds of.
pub proof fn lemma_first_index(s: Seq<char>, c: char, k: int)
    requires
        is_first(s, c, k),
    ensures
        first_index(s, c) == k,
{
    let chosen = first_index(s, c);
    assert(is_first(s, c, chosen));
    if chosen < k {
        assert(s[chosen] != c);
    } else if k < chosen {
        assert(s[k] != c);
    }
}

/// Whether two texts hold the same characters.
pub fn str_eq(a: &str, b: &str) -> (same: bool)
    ensures
        same == (a@ == b@),
{
    String::from_str(a) == String::from_str(b)
}

/// The characters of `text`, in order.
pub fn chars_of(text: &str) -> (chars: Vec<char>)
    ensures
        chars@ == text@,
{
    let mut chars: Vec<char> = Vec::new();
    for c in it: text.chars()
        invariant
            chars@ == it.seq().take(it.index() as int),
            it.seq() == text@,
    {
        chars.push(c);
    }
    chars
}

/// Wraps `String::from_iter` on a slice of characters: the text made of
/// exactly those characters, in order.
#[verifier::external_body]
pub(crate) fn collect_chars(chars: &Vec<char>) -> (text: String)
    ensures
        text@ == chars@,
{
    String::from_iter(chars.iter())
}

/// The index of the first `needle` in `chars` at or after `from`.
pub fn find_char(chars: &Vec<char>, from: usize, needle: char) -> (found: Option<usize>)
    requires
        from <= chars.len(),
    ensures
        match found {
            Some(k) => from <= k < chars.len() && chars[k as int] == needle && forall|j: int|
                from <= j < k ==> chars[j] != needle,
            None => forall|j: int| from <= j < chars.len() ==> chars[j] != needle,
        },
{
    let mut i: usize = from;
    while i < chars.len()
        invariant
            from <= i <= chars.len(),
            forall|j: int| from <= j < i ==> chars[j] != needle,
        decreases chars.len() - i,
    {
        if chars[i] == needle {
            return Some(i);
        }
        i += 1;
    }
    None
}

/// A longer run of digits never denotes less than one of its prefixes.
pub proof fn lemma_digits_value_grows(s: Seq<char>, k: int)
    requires
        0 <= k <= s.len(),
        forall|i: int| 0 <= i < s.len() ==> is_digit(#[trigger] s[i]),
    ensures
        0 <= digits_value(s.take(k)) <= digits_value(s),
    decreases s.len(),
{
    if s.len() == 0 {
        assert(s.take(k) =~= s);
    } else if k == s.len() {
        assert(s.take(k) =~= s);
        lemma_digits_value_grows(s.drop_last(), k - 1);
    } else {
        lemma_digits_value_grows(s.drop_last(), k);
        assert(s.drop_last().take(k) =~= s.take(k));
    }
}

/// Reads the digit `c`, if it is one.
fn digit_of(c: char) -> (d: Option<u8>)
    ensures
        d is Some <==> is_digit(c),
        d matches Some(v) ==> v == digit_value(c) && v < 10,
{
    if '0' <= c && c <= '9' {
        Some((c as u32 - '0' as u32) as u8)
    } else {
        None
    }
}

/// Reads `chars[from..to]` as a run of digits and returns its value, negated
/// when `negative`, if it is a run of digits and the value fits.
fn parse_digits(chars: &Vec<char>, from: usize, to: usize, negative: bool) -> (value: Option<i64>)
    requires
        from <= to <= chars.len(),
    ensures
        ({
            let run = chars@.subrange(from as int, to as int);
            let signed = if negative {
                -digits_value(run)
            } else {
                digits_value(run)
            };
            match value {
                Some(v) => is_digits(run) && v == signed,
                None => !is_digits(run) || signed < i64::MIN || signed > i64::MAX,
            }
        }),
{
    let ghost run = chars@.subrange(from as int, to as int);
    if from == to {
        return None;
    }
    let mut acc: i128 = 0;
    let mut i: usize = from;
    let limit: i128 = 9_223_372_036_854_775_808;
    while i < to
        invariant
            from <= i <= to <= chars.len(),
            run == chars@.subrange(from as int, to as int),
            forall|j: int| 0 <= j < i - from ==> is_digit(#[trigger] run[j]),
            acc == digits_value(run.take(i - from)),
            0 <= acc <= limit,
            limit == 9_223_372_036_854_775_808,
        decreases to - i,
    {
        let d: u8 = match digit_of(chars[i]) {
            Some(d) => d,
            None => {
                assert(!is_digit(run[i - from]));
                return None;
            },
        };
        proof {
            assert(run.take(i - from + 1).drop_last() =~= run.take(i - from));
            assert(run.take(i - from + 1).last() == chars[i as int]);
        }
        acc = acc * 10 + d as i128;
        i += 1;
        if acc > limit {
            proof {
                let rest = chars@.subrange(from as int, to as int);
                if is_digits(rest) {
                    lemma_digits_value_grows(rest, i - from);
                }
            }
            return None;
        }
    }
    proof {
        assert(run.take(to - from) =~= run);
    }
    if negative {
        Some((-acc) as i64)
    } else if acc == limit {
        None
    } else {
        Some(acc as i64)
    }
}

/// Reads `chars[from..to]` as a decimal integer with an optional sign, as
/// `str::parse::<i64>` does.
pub fn parse_i64(chars: &Vec<char>, from: usize, to: usize) -> (value: Option<i64>)
    requires
        from <= to <= chars.len(),
    ensures
        value == parsed_i64(chars@.subrange(from as int, to as int)),
{
    let ghost s = chars@.subrange(from as int, to as int);
    if from < to && chars[from] == '-' {
        assert(s.skip(1) =~= chars@.subrange(from + 1, to as int));
        parse_digits(chars, from + 1, to, true)
    } else if from < to && chars[from] == '+' {
        assert(s.skip(1) =~= chars@.subrange(from + 1, to as int));
        parse_digits(chars, from + 1, to, false)
    } else {
        parse_digits(chars, from, to, false)
    }
}

/// The character of the decimal digit `d`.
fn char_of_digit(d: u64) -> (c: char)
    requires
        d < 10,
    ensures
        c == digit_char(d as int),
{
    if d == 0 {
        '0'
    } else if d == 1 {
        '1'
    } else if d == 2 {
        '2'
    } else if d == 3 {
        '3'
    } else if d == 4 {
        '4'
    } else if d == 5 {
        '5'
    } else if d == 6 {
        '6'
    } else if d == 7 {
        '7'
    } else if d == 8 {
        '8'
    } else {
        '9'
    }
}

/// Appends the decimal text of `n` to `out`.
pub fn push_decimal(out: &mut Vec<char>, n: i64)
    ensures
        final(out)@ == old(out)@ + decimal(n as int),
{
    let ghost before = out@;
    let mut rest: u64 = if n < 0 {
        out.push('-');
        (-(n as i128)) as u64
    } else {
        n as u64
    };
    let ghost magnitude = rest as nat;
    let ghost head = out@;
    let mut low: Vec<char> = Vec::new();
    while rest >= 10
        invariant
            natural_digits(magnitude) == natural_digits(rest as nat) + low@.reverse(),
        decreases rest,
    {
        let c: char = char_of_digit(rest % 10);
        proof {
            assert(low@.push(c).reverse() =~= seq![c] + low@.reverse());
            assert(natural_digits(rest as nat) == natural_digits((rest / 10) as nat).push(c));
            assert(natural_digits((rest / 10) as nat).push(c) + low@.reverse() =~= natural_digits(
                (rest / 10) as nat,
            ) + low@.push(c).reverse());
        }
        low.push(c);
        rest = rest / 10;
    }
    out.push(char_of_digit(rest));
    let ghost lead = out@;
    let ghost tail = low@.reverse();
    while low.len() > 0
        invariant
            out@ + low@.reverse() == lead + tail,
        decreases low.len(),
    {
        proof {
            assert(low@.reverse() =~= seq![low@.last()] + low@.drop_last().reverse());
            assert(out@.push(low@.last()) + low@.drop_last().reverse() =~= out@ + (seq![
                low@.last(),
            ] + low@.drop_last().reverse()));
        }
        let c: char = low.pop().unwrap();
        out.push(c);
    }
    proof {
        assert(low@.reverse() =~= Seq::<char>::empty());
        assert(out@ =~= lead + tail);
        assert(lead + tail =~= head + natural_digits(magnitude));
    }
}

/// The decimal text of `n`.
pub fn decimal_text(n: i64) -> (text: String)
    ensures
        text@ == decimal(n as int),
{
    let mut chars: Vec<char> = Vec::new();
    push_decimal(&mut chars, n);
    collect_chars(&chars)
}

} // verus!
