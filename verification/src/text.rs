//! Character-level text helpers with their specifications.
use vstd::prelude::*;

verus! {

broadcast use vstd::string::axiom_spec_iter, vstd::string::next_postcondition;

/// Unicode `White_Space`, the property behind `char::is_whitespace`.
pub open spec fn is_space(c: char) -> bool {
    ||| '\t' <= c <= '\r'
    ||| c == ' '
    ||| c == '\u{85}'
    ||| c == '\u{A0}'
    ||| c == '\u{1680}'
    ||| '\u{2000}' <= c <= '\u{200A}'
    ||| c == '\u{2028}'
    ||| c == '\u{2029}'
    ||| c == '\u{202F}'
    ||| c == '\u{205F}'
    ||| c == '\u{3000}'
}

/// `s` without its leading whitespace.
pub open spec fn trim_start(s: Seq<char>) -> Seq<char>
    decreases s.len(),
{
    if s.len() > 0 && is_space(s[0]) {
        trim_start(s.drop_first())
    } else {
        s
    }
}

/// `s` without its trailing whitespace.
pub open spec fn trim_end(s: Seq<char>) -> Seq<char>
    decreases s.len(),
{
    if s.len() > 0 && is_space(s.last()) {
        trim_end(s.drop_last())
    } else {
        s
    }
}

/// `s` without leading and trailing whitespace, as `str::trim`.
pub open spec fn trim(s: Seq<char>) -> Seq<char> {
    trim_end(trim_start(s))
}

/// The pieces of `s` between occurrences of `sep`, as `str::split`: one
/// more piece than there are separators, empty pieces included.
pub open spec fn split_on(s: Seq<char>, sep: char) -> Seq<Seq<char>>
    decreases s.len(),
{
    if s.len() == 0 {
        seq![Seq::<char>::empty()]
    } else {
        let init = split_on(s.drop_last(), sep);
        if s.last() == sep {
            init.push(Seq::<char>::empty())
        } else {
            init.update(init.len() - 1, init.last().push(s.last()))
        }
    }
}

/// Splitting always yields at least one piece.
pub proof fn lemma_split_nonempty(s: Seq<char>, sep: char)
    ensures
        split_on(s, sep).len() >= 1,
    decreases s.len(),
{
    if s.len() > 0 {
        lemma_split_nonempty(s.drop_last(), sep);
    }
}

/// Whether `c` is Unicode whitespace.
pub fn is_space_char(c: char) -> (b: bool)
    ensures
        b == is_space(c),
{
    ('\t' <= c && c <= '\r') || c == ' ' || c == '\u{85}' || c == '\u{A0}' || c == '\u{1680}' || (
    '\u{2000}' <= c && c <= '\u{200A}') || c == '\u{2028}' || c == '\u{2029}' || c == '\u{202F}'
        || c == '\u{205F}' || c == '\u{3000}'
}

/// The characters of `s`, in order.
pub fn chars_of(s: &str) -> (v: Vec<char>)
    ensures
        v@ == s@,
{
    let mut v: Vec<char> = Vec::new();
    for c in it: s.chars()
        invariant
            v@ == it.seq().take(it.index()),
            it.seq() == s@,
    {
        v.push(c);
    }
    v
}

/// The bounds of the trimmed part of `chars[start..end]`.
pub fn trim_range(chars: &Vec<char>, start: usize, end: usize) -> (r: (usize, usize))
    requires
        start <= end <= chars@.len(),
    ensures
        start <= r.0 <= r.1 <= end,
        chars@.subrange(r.0 as int, r.1 as int) == trim(chars@.subrange(start as int, end as int)),
{
    let ghost s = chars@;
    let mut a = start;
    while a < end && is_space_char(chars[a])
        invariant
            start <= a <= end <= s.len(),
            s == chars@,
            trim_start(s.subrange(start as int, end as int)) == trim_start(
                s.subrange(a as int, end as int),
            ),
        decreases end - a,
    {
        assert(s.subrange(a as int, end as int).drop_first() =~= s.subrange(a + 1, end as int));
        a = a + 1;
    }
    let mut b = end;
    while b > a && is_space_char(chars[b - 1])
        invariant
            start <= a <= b <= end <= s.len(),
            s == chars@,
            trim_end(s.subrange(a as int, end as int)) == trim_end(s.subrange(a as int, b as int)),
        decreases b - a,
    {
        assert(s.subrange(a as int, b as int).drop_last() =~= s.subrange(a as int, b - 1));
        b = b - 1;
    }
    (a, b)
}

/// The pieces `chars[start..end]` splits into at `sep`, as bounds.
pub open spec fn range_pieces(s: Seq<char>, ranges: Seq<(usize, usize)>) -> Seq<Seq<char>> {
    Seq::new(ranges.len(), |k: int| s.subrange(ranges[k].0 as int, ranges[k].1 as int))
}

/// Splits `chars[start..end]` at every `sep`, returning the bounds of the
/// pieces in order.
pub fn split_ranges(chars: &Vec<char>, start: usize, end: usize, sep: char) -> (r: Vec<
    (usize, usize),
>)
    requires
        start <= end <= chars@.len(),
    ensures
        range_pieces(chars@, r@) == split_on(chars@.subrange(start as int, end as int), sep),
        forall|k: int|
            0 <= k < r@.len() ==> start <= #[trigger] r@[k].0 <= r@[k].1 <= end,
{
    let ghost s = chars@;
    let mut ranges: Vec<(usize, usize)> = Vec::new();
    let mut piece_start = start;
    let mut i = start;
    assert(s.subrange(start as int, start as int) =~= Seq::<char>::empty());
    assert(range_pieces(s, ranges@).push(s.subrange(piece_start as int, i as int)) =~= seq![
        Seq::<char>::empty(),
    ]);
    while i < end
        invariant
            start <= piece_start <= i <= end <= s.len(),
            s == chars@,
            forall|k: int| 0 <= k < ranges@.len() ==> start <= #[trigger] ranges@[k].0 <= ranges@[k].1 <= piece_start,
            split_on(s.subrange(start as int, i as int), sep) == range_pieces(s, ranges@).push(
                s.subrange(piece_start as int, i as int),
            ),
        decreases end - i,
    {
        let ghost before = range_pieces(s, ranges@);
        assert(s.subrange(start as int, i + 1).drop_last() =~= s.subrange(start as int, i as int));
        assert(s.subrange(start as int, i + 1).last() == s[i as int]);
        if chars[i] == sep {
            ranges.push((piece_start, i));
            assert(range_pieces(s, ranges@) =~= before.push(s.subrange(piece_start as int, i as int)));
            piece_start = i + 1;
            i = i + 1;
            assert(s.subrange(piece_start as int, i as int) =~= Seq::<char>::empty());
        } else {
            assert(s.subrange(piece_start as int, i + 1) =~= s.subrange(piece_start as int, i as int).push(s[i as int]));
            i = i + 1;
            assert(split_on(s.subrange(start as int, i as int), sep) =~= range_pieces(s, ranges@).push(
                s.subrange(piece_start as int, i as int),
            ));
        }
    }
    let ghost before = range_pieces(s, ranges@);
    ranges.push((piece_start, end));
    assert(range_pieces(s, ranges@) =~= before.push(s.subrange(piece_start as int, end as int)));
    ranges
}

/// The value of a string of decimal digits.
pub open spec fn digits_value(d: Seq<char>) -> int
    decreases d.len(),
{
    if d.len() == 0 {
        0
    } else {
        digits_value(d.drop_last()) * 10 + (d.last() as int - '0' as int)
    }
}

/// Whether every character of `d` is an ASCII digit.
pub open spec fn all_digits(d: Seq<char>) -> bool {
    forall|i: int| 0 <= i < d.len() ==> '0' <= #[trigger] d[i] <= '9'
}

/// The integer written by `f` as `str::parse` reads it: an optional sign
/// (a `-` only where `allow_minus`), then at least one ASCII digit and
/// nothing else.
pub open spec fn decimal_spec(f: Seq<char>, allow_minus: bool) -> Option<int> {
    if f.len() == 0 {
        None
    } else {
        let negative = allow_minus && f[0] == '-';
        let digits = if f[0] == '+' || negative {
            f.drop_first()
        } else {
            f
        };
        if digits.len() == 0 || !all_digits(digits) {
            None
        } else if negative {
            Some(-digits_value(digits))
        } else {
            Some(digits_value(digits))
        }
    }
}

/// `f` read as an `i64`, as `str::parse::<i64>` reads it.
pub open spec fn parse_i64_spec(f: Seq<char>) -> Option<i64> {
    match decimal_spec(f, true) {
        Some(v) => if i64::MIN <= v <= i64::MAX {
            Some(v as i64)
        } else {
            None
        },
        None => None,
    }
}

/// `f` read as a `u32`, as `str::parse::<u32>` reads it.
pub open spec fn parse_u32_spec(f: Seq<char>) -> Option<u32> {
    match decimal_spec(f, false) {
        Some(v) => if 0 <= v <= u32::MAX {
            Some(v as u32)
        } else {
            None
        },
        None => None,
    }
}

proof fn lemma_digits_value_nonneg(d: Seq<char>)
    requires
        all_digits(d),
    ensures
        digits_value(d) >= 0,
    decreases d.len(),
{
    if d.len() > 0 {
        assert(all_digits(d.drop_last()));
        lemma_digits_value_nonneg(d.drop_last());
        assert('0' <= d[d.len() - 1] <= '9');
    }
}

const DIGITS_CAP: u128 = 0x1_0000_0000_0000_0000;

/// Reads the decimal number in `chars[start..end]`, with an optional sign,
/// returning `None` when it is malformed. Values whose magnitude reaches
/// 2^64 are reported as exactly 2^64.
#[verifier::loop_isolation(false)]
fn read_decimal(chars: &Vec<char>, start: usize, end: usize, allow_minus: bool) -> (r: Option<
    (bool, u128),
>)
    requires
        start <= end <= chars@.len(),
    ensures
        ({
            let f = chars@.subrange(start as int, end as int);
            match r {
                None => decimal_spec(f, allow_minus) is None,
                Some((negative, capped)) => {
                    let d = decimal_spec(f, allow_minus);
                    &&& d is Some
                    &&& (if negative {
                        -d->0
                    } else {
                        d->0
                    }) >= 0
                    &&& (negative ==> d->0 <= 0 && allow_minus)
                    &&& capped == (if (if negative {
                        -d->0
                    } else {
                        d->0
                    }) >= DIGITS_CAP {
                        DIGITS_CAP as int
                    } else if negative {
                        -d->0
                    } else {
                        d->0
                    })
                },
            }
        }),
{
    let ghost f = chars@.subrange(start as int, end as int);
    if start == end {
        return None;
    }
    let first = chars[start];
    let negative = allow_minus && first == '-';
    let digits_start = if first == '+' || negative {
        start + 1
    } else {
        start
    };
    let ghost digits = chars@.subrange(digits_start as int, end as int);
    assert(digits =~= (if first == '+' || negative {
        f.drop_first()
    } else {
        f
    }));
    if digits_start == end {
        return None;
    }
    let mut acc: u128 = 0;
    let mut i = digits_start;
    while i < end
        invariant
            digits_start <= i <= end <= chars@.len(),
            all_digits(chars@.subrange(digits_start as int, i as int)),
            acc == (if digits_value(chars@.subrange(digits_start as int, i as int)) >= DIGITS_CAP {
                DIGITS_CAP as int
            } else {
                digits_value(chars@.subrange(digits_start as int, i as int))
            }),
        decreases end - i,
    {
        let c = chars[i];
        let ghost prefix = chars@.subrange(digits_start as int, i as int);
        let ghost next = chars@.subrange(digits_start as int, i + 1);
        assert(next.drop_last() =~= prefix);
        if !('0' <= c && c <= '9') {
            assert(digits[i - digits_start] == c);
            return None;
        }
        let d = (c as u32 - '0' as u32) as u128;
        proof {
            lemma_digits_value_nonneg(prefix);
            assert(all_digits(next));
            assert(digits_value(next) == digits_value(prefix) * 10 + d);
        }
        if acc == DIGITS_CAP {
            proof {
                assert(digits_value(prefix) * 10 + d >= DIGITS_CAP) by (nonlinear_arith)
                    requires
                        digits_value(prefix) >= DIGITS_CAP,
                        d >= 0,
                ;
            }
        } else {
            let v = acc * 10 + d;
            acc = if v >= DIGITS_CAP {
                DIGITS_CAP
            } else {
                v
            };
        }
        i = i + 1;
    }
    proof {
        lemma_digits_value_nonneg(digits);
    }
    Some((negative, acc))
}

/// Parses `chars[start..end]` as `str::parse::<i64>` does.
pub fn parse_i64_range(chars: &Vec<char>, start: usize, end: usize) -> (r: Option<i64>)
    requires
        start <= end <= chars@.len(),
    ensures
        r == parse_i64_spec(chars@.subrange(start as int, end as int)),
{
    match read_decimal(chars, start, end, true) {
        None => None,
        Some((negative, magnitude)) => {
            if negative {
                if magnitude <= 0x8000_0000_0000_0000 {
                    Some((0 - magnitude as i128) as i64)
                } else {
                    None
                }
            } else if magnitude <= 0x7fff_ffff_ffff_ffff {
                Some(magnitude as i64)
            } else {
                None
            }
        },
    }
}

/// Parses `chars[start..end]` as `str::parse::<u32>` does.
pub fn parse_u32_range(chars: &Vec<char>, start: usize, end: usize) -> (r: Option<u32>)
    requires
        start <= end <= chars@.len(),
    ensures
        r == parse_u32_spec(chars@.subrange(start as int, end as int)),
{
    match read_decimal(chars, start, end, false) {
        None => None,
        Some((_, magnitude)) => {
            if magnitude <= 0xffff_ffff {
                Some(magnitude as u32)
            } else {
                None
            }
        },
    }
}

/// Appends a character to a string with `String::push`. Trusted, not
/// proved: the string afterwards holds its old characters followed by `c`,
/// as the standard library documents.
#[verifier::external_body]
pub(crate) fn push_char(s: &mut String, c: char)
    ensures
        final(s)@ == old(s)@.push(c),
{
    s.push(c);
}

/// The decimal digit character for `d` in `0..10`.
pub open spec fn digit_char(d: int) -> char {
    ('0' as int + d) as char
}

/// The decimal rendering of `n`, without leading zeros, as `Display` writes
/// unsigned integers.
pub open spec fn decimal_digits(n: nat) -> Seq<char>
    decreases n,
{
    if n < 10 {
        seq![digit_char(n as int)]
    } else {
        decimal_digits(n / 10).push(digit_char((n % 10) as int))
    }
}

/// Appends the decimal rendering of `n`.
pub fn push_decimal(s: &mut String, n: u64)
    ensures
        final(s)@ == old(s)@ + decimal_digits(n as nat),
    decreases n,
{
    if n >= 10 {
        push_decimal(s, n / 10);
    }
    let d = (n % 10) as u8;
    push_char(s, (48u8 + d) as char);
    proof {
        if n >= 10 {
            assert(decimal_digits(n as nat) == decimal_digits((n / 10) as nat).push(digit_char((n % 10) as int)));
        }
    }
    assert(final(s)@ =~= old(s)@ + decimal_digits(n as nat));
}

/// The characters `chars[start..end]` as a string.
pub fn string_of_range(chars: &Vec<char>, start: usize, end: usize) -> (s: String)
    requires
        start <= end <= chars@.len(),
    ensures
        s@ == chars@.subrange(start as int, end as int),
{
    let mut s = String::new();
    let mut i = start;
    while i < end
        invariant
            start <= i <= end <= chars@.len(),
            s@ == chars@.subrange(start as int, i as int),
        decreases end - i,
    {
        push_char(&mut s, chars[i]);
        assert(chars@.subrange(start as int, i + 1) =~= chars@.subrange(start as int, i as int).push(
            chars@[i as int],
        ));
        i = i + 1;
    }
    s
}

} // verus!
