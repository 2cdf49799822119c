//! Whole numbers written out in decimal digits, and read back.

use vstd::prelude::*;
use vstd::std_specs::iter::IteratorSpec;
use vstd::string::*;

verus! {

/// The character that stands for the digit `d`.
pub open spec fn digit_char(d: int) -> char {
    if d == 0 {
        '0'
    } else if d == 1 {
        '1'
    } else if d == 2 {
        '2'
    } else if d == 3 {
        '3'
    } else if d == 4 {
        '4'
    } else if d == 5 {
        '5'
    } else if d == 6 {
        '6'
    } else if d == 7 {
        '7'
    } else if d == 8 {
        '8'
    } else {
        '9'
    }
}

/// The digit that `c` stands for, if it stands for one.
pub open spec fn digit_value(c: char) -> Option<int> {
    if c == '0' {
        Some(0)
    } else if c == '1' {
        Some(1)
    } else if c == '2' {
        Some(2)
    } else if c == '3' {
        Some(3)
    } else if c == '4' {
        Some(4)
    } else if c == '5' {
        Some(5)
    } else if c == '6' {
        Some(6)
    } else if c == '7' {
        Some(7)
    } else if c == '8' {
        Some(8)
    } else if c == '9' {
        Some(9)
    } else {
        None
    }
}

/// The digits of `n`, the most significant first, without leading zeros.
pub open spec fn digits(n: nat) -> Seq<char>
    decreases n,
{
    if n < 10 {
        seq![digit_char(n as int)]
    } else {
        digits(n / 10).push(digit_char((n % 10) as int))
    }
}

/// How `n` is written: its digits, after a minus sign if it is negative.
pub open spec fn render(n: int) -> Seq<char> {
    if n < 0 {
        seq!['-'] + digits((-n) as nat)
    } else {
        digits(n as nat)
    }
}

/// Whether every character of `s` is a digit.
pub open spec fn all_digits(s: Seq<char>) -> bool {
    forall|i: int| 0 <= i < s.len() ==> (#[trigger] digit_value(s[i])) is Some
}

/// The number that a run of digits stands for. A character that is no digit
/// counts as zero.
pub open spec fn value_of(s: Seq<char>) -> nat
    decreases s.len(),
{
    if s.len() == 0 {
        0
    } else {
        let last: nat = match digit_value(s.last()) {
            Some(d) => d as nat,
            None => 0,
        };
        value_of(s.drop_last()) * 10 + last
    }
}

/// Whether `s` starts with a plus or a minus sign.
pub open spec fn is_signed(s: Seq<char>) -> bool {
    s.len() > 0 && (s[0] == '-' || s[0] == '+')
}

/// The number that `s` stands for: an optional sign, then one digit or more
/// and nothing else. Leading zeros are allowed.
pub open spec fn parse_int(s: Seq<char>) -> Option<int> {
    let body = if is_signed(s) {
        s.skip(1)
    } else {
        s
    };
    if body.len() > 0 && all_digits(body) {
        if s[0] == '-' {
            Some(-(value_of(body) as int))
        } else {
            Some(value_of(body) as int)
        }
    } else {
        None
    }
}

/// The number that `s` stands for, if it stands for one that an `i32` holds.
pub open spec fn parse_i32(s: Seq<char>) -> Option<i32> {
    match parse_int(s) {
        Some(n) => if i32::MIN <= n <= i32::MAX {
            Some(n as i32)
        } else {
            None
        },
        None => None,
    }
}

/// Each digit is read back from its character.
pub proof fn lemma_digit_char_value(d: int)
    requires
        0 <= d < 10,
    ensures
        digit_value(digit_char(d)) == Some(d),
{
}

/// The digits of a number are digits, and stand for that number.
pub proof fn lemma_digits_value(n: nat)
    ensures
        digits(n).len() > 0,
        all_digits(digits(n)),
        value_of(digits(n)) == n,
    decreases n,
{
    if n < 10 {
        let s = digits(n);
        lemma_digit_char_value(n as int);
        assert(s.drop_last() =~= Seq::<char>::empty());
        assert(value_of(s.drop_last()) == 0);
        assert(s.last() == digit_char(n as int));
    } else {
        let front = digits(n / 10);
        let s = digits(n);
        lemma_digits_value(n / 10);
        lemma_digit_char_value((n % 10) as int);
        assert(s.drop_last() =~= front);
        assert(s.last() == digit_char((n % 10) as int));
        assert forall|i: int| 0 <= i < s.len() implies (#[trigger] digit_value(s[i])) is Some by {
            if i < front.len() {
                assert(s[i] == front[i]);
            }
        }
    }
}

/// Reading a number that was written out gives the number back.
pub proof fn lemma_parse_inverts_render(n: int)
    ensures
        parse_int(render(n)) == Some(n),
{
    if n < 0 {
        let body = digits((-n) as nat);
        lemma_digits_value((-n) as nat);
        assert(render(n).skip(1) =~= body);
    } else {
        let body = digits(n as nat);
        lemma_digits_value(n as nat);
        assert(digit_value(body[0]) is Some);
    }
}

/// Reading an `i32` that was written out gives it back.
pub proof fn lemma_parse_i32_inverts_render(n: i32)
    ensures
        parse_i32(render(n as int)) == Some(n),
{
    lemma_parse_inverts_render(n as int);
}

/// Appending one more digit to a run of digits.
proof fn lemma_value_of_push(s: Seq<char>, c: char)
    ensures
        value_of(s.push(c)) == value_of(s) * 10 + match digit_value(c) {
            Some(d) => d as nat,
            None => 0,
        },
{
    assert(s.push(c).drop_last() =~= s);
}

/// The one-character string of the digit `d`.
fn digit_str(d: u32) -> (s: &'static str)
    requires
        d < 10,
    ensures
        s@ == seq![digit_char(d as int)],
{
    proof {
        reveal_strlit("0");
        reveal_strlit("1");
        reveal_strlit("2");
        reveal_strlit("3");
        reveal_strlit("4");
        reveal_strlit("5");
        reveal_strlit("6");
        reveal_strlit("7");
        reveal_strlit("8");
        reveal_strlit("9");
    }
    let s = if d == 0 {
        "0"
    } else if d == 1 {
        "1"
    } else if d == 2 {
        "2"
    } else if d == 3 {
        "3"
    } else if d == 4 {
        "4"
    } else if d == 5 {
        "5"
    } else if d == 6 {
        "6"
    } else if d == 7 {
        "7"
    } else if d == 8 {
        "8"
    } else {
        "9"
    };
    assert(s@ =~= seq![digit_char(d as int)]);
    s
}

/// Appends the digits of `n` to `out`.
fn push_digits(n: u32, out: &mut String)
    ensures
        final(out)@ == old(out)@ + digits(n as nat),
    decreases n,
{
    if n >= 10 {
        push_digits(n / 10, out);
    }
    out.append(digit_str(n % 10));
    assert(out@ =~= old(out)@ + digits(n as nat));
}

/// Writes `n` out in decimal.
pub fn to_string(n: i32) -> (s: String)
    ensures
        s@ == render(n as int),
{
    let mut s = String::new();
    if n < 0 {
        proof {
            reveal_strlit("-");
        }
        s.append("-");
        let magnitude: u32 = if n == i32::MIN {
            2147483648u32
        } else {
            (-n) as u32
        };
        push_digits(magnitude, &mut s);
        assert(s@ =~= render(n as int));
    } else {
        push_digits(n as u32, &mut s);
        assert(s@ =~= render(n as int));
    }
    s
}

/// The digit that `c` stands for, if it stands for one.
fn digit_of(c: char) -> (d: Option<u32>)
    ensures
        match d {
            Some(v) => digit_value(c) == Some(v as int),
            None => digit_value(c) is None,
        },
{
    if c == '0' {
        Some(0)
    } else if c == '1' {
        Some(1)
    } else if c == '2' {
        Some(2)
    } else if c == '3' {
        Some(3)
    } else if c == '4' {
        Some(4)
    } else if c == '5' {
        Some(5)
    } else if c == '6' {
        Some(6)
    } else if c == '7' {
        Some(7)
    } else if c == '8' {
        Some(8)
    } else if c == '9' {
        Some(9)
    } else {
        None
    }
}

/// Reads a number written in decimal: an optional sign, then one digit or
/// more. Anything else, and a number that an `i32` cannot hold, gives `None`.
pub fn parse(s: &str) -> (number: Option<i32>)
    ensures
        number == parse_i32(s@),
{
    broadcast use vstd::string::group_string_axioms;

    let mut chars = s.chars();
    let first = match chars.next() {
        Some(c) => c,
        None => {
            return None;
        },
    };
    let negative = first == '-';
    let signed = first == '-' || first == '+';
    let ghost body = if is_signed(s@) {
        s@.skip(1)
    } else {
        s@
    };
    let limit: u64 = 2147483648;
    let mut value: u64 = 0;
    let mut beyond = false;
    let mut any = false;
    let ghost mut seen: int = 0;
    if !signed {
        match digit_of(first) {
            Some(d) => {
                value = d as u64;
                any = true;
                proof {
                    seen = 1;
                    assert(body.take(1) =~= Seq::<char>::empty().push(first));
                    lemma_value_of_push(Seq::<char>::empty(), first);
                }
            },
            None => {
                assert(digit_value(body[0]) is None);
                return None;
            },
        }
    }
    assert(body.take(0) =~= Seq::<char>::empty());
    assert(chars.remaining() =~= body.skip(seen));
    loop
        invariant
            body == (if is_signed(s@) {
                s@.skip(1)
            } else {
                s@
            }),
            s@.len() > 0,
            negative <==> s@[0] == '-',
            limit == 2147483648,
            0 <= seen <= body.len(),
            any <==> seen > 0,
            chars.remaining() == body.skip(seen),
            all_digits(body.take(seen)),
            !beyond ==> value == value_of(body.take(seen)) && value <= limit,
            beyond ==> value_of(body.take(seen)) > limit,
        ensures
            seen == body.len(),
        decreases body.len() - seen,
    {
        let c = match chars.next() {
            Some(c) => c,
            None => {
                break ;
            },
        };
        let ghost read = body.take(seen);
        proof {
            assert(body[seen] == c);
            assert(body.take(seen + 1) =~= read.push(c));
            assert(body.skip(seen).drop_first() =~= body.skip(seen + 1));
            lemma_value_of_push(read, c);
        }
        match digit_of(c) {
            Some(d) => {
                any = true;
                if !beyond {
                    value = value * 10 + d as u64;
                    if value > limit {
                        beyond = true;
                    }
                }
                proof {
                    let next = read.push(c);
                    assert forall|k: int| 0 <= k < next.len() implies (#[trigger] digit_value(
                        next[k],
                    )) is Some by {
                        if k < read.len() {
                            assert(next[k] == read[k]);
                        }
                    }
                    seen = seen + 1;
                }
            },
            None => {
                assert(digit_value(body[seen]) is None);
                return None;
            },
        }
    }
    assert(body.take(seen) =~= body);
    if !any || beyond {
        None
    } else if negative {
        let signed: i64 = -(value as i64);
        Some(signed as i32)
    } else if value < limit {
        Some(value as i32)
    } else {
        None
    }
}

} // verus!
