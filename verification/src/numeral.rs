//! Decimal numerals: the text that `to_string` gives an integer, and the
//! integer that `str::parse::<i32>` reads back from a text.
use vstd::prelude::*;

verus! {

/// The character of a decimal digit below ten.
pub open spec fn digit_char(d: nat) -> char {
    if d == 0 {
        '0'
    } else if d == 1 {
        '1'
    } else if d == 2 {
        '2'
    } else if d == 3 {
        '3'
    } else if d == 4 {
        '4'
    } else if d == 5 {
        '5'
    } else if d == 6 {
        '6'
    } else if d == 7 {
        '7'
    } else if d == 8 {
        '8'
    } else {
        '9'
    }
}

/// Whether a character is an ASCII decimal digit.
pub open spec fn is_digit(c: char) -> bool {
    '0' <= c && c <= '9'
}

/// The value of a decimal digit character.
pub open spec fn digit_value(c: char) -> nat {
    (c as int - '0' as int) as nat
}

/// Whether every character of `s` is a decimal digit.
pub open spec fn all_digits(s: Seq<char>) -> bool {
    forall|i: int| 0 <= i < s.len() ==> is_digit(#[trigger] s[i])
}

/// The digits of `n` in base ten, most significant first, without leading zeros.
pub open spec fn digits_of(n: nat) -> Seq<char>
    decreases n,
{
    if n < 10 {
        seq![digit_char(n)]
    } else {
        digits_of(n / 10).push(digit_char(n % 10))
    }
}

/// The text that `to_string` gives an integer: a minus sign for a negative value,
/// then the digits of its magnitude.
pub open spec fn decimal_of(i: int) -> Seq<char> {
    if i < 0 {
        seq!['-'] + digits_of((-i) as nat)
    } else {
        digits_of(i as nat)
    }
}

/// The number that a sequence of decimal digits denotes.
pub open spec fn digits_value(s: Seq<char>) -> nat
    decreases s.len(),
{
    if s.len() == 0 {
        0
    } else {
        digits_value(s.drop_last()) * 10 + digit_value(s.last())
    }
}

/// What `str::parse::<i32>` reads from a text: an optional sign (`+` or `-`),
/// then at least one decimal digit and nothing else, denoting a value in range.
pub open spec fn parse_i32_spec(s: Seq<char>) -> Option<i32> {
    let signed = s.len() > 0 && (s[0] == '-' || s[0] == '+');
    let negative = s.len() > 0 && s[0] == '-';
    let body = if signed { s.skip(1) } else { s };
    if body.len() == 0 || !all_digits(body) {
        None
    } else {
        let v: int = if negative { -(digits_value(body) as int) } else { digits_value(body) as int };
        if i32::MIN <= v <= i32::MAX {
            Some(v as i32)
        } else {
            None
        }
    }
}

proof fn lemma_digit_char(d: nat)
    requires
        d < 10,
    ensures
        is_digit(digit_char(d)),
        digit_value(digit_char(d)) == d,
{
}

/// The digits of a number are digits, start with a digit and denote the number.
pub proof fn lemma_digits_of(n: nat)
    ensures
        digits_of(n).len() > 0,
        all_digits(digits_of(n)),
        digits_value(digits_of(n)) == n,
        n > 0 ==> digits_of(n)[0] != '0',
    decreases n,
{
    if n < 10 {
        lemma_digit_char(n);
        assert(digits_of(n).drop_last() =~= Seq::<char>::empty());
        assert(digits_value(Seq::<char>::empty()) == 0);
        assert(digits_of(n).last() == digit_char(n));
        assert(digits_value(digits_of(n)) == n);
    } else {
        lemma_digits_of(n / 10);
        lemma_digit_char(n % 10);
        let s = digits_of(n);
        assert(s[0] == digits_of(n / 10)[0]);
        assert(s.drop_last() =~= digits_of(n / 10));
        assert(s.last() == digit_char(n % 10));
        assert(digits_value(s) == digits_value(digits_of(n / 10)) * 10 + digit_value(digit_char(n % 10)));
        assert((n / 10) * 10 + n % 10 == n);
        assert forall|i: int| 0 <= i < s.len() implies is_digit(#[trigger] s[i]) by {
            if i < s.len() - 1 {
                assert(s[i] == digits_of(n / 10)[i]);
            }
        }
    }
}

/// Parsing the decimal text of an `i32` gives the same `i32` back.
pub proof fn lemma_parse_decimal(i: i32)
    ensures
        parse_i32_spec(decimal_of(i as int)) == Some(i),
{
    let s = decimal_of(i as int);
    if i < 0 {
        let m = (-(i as int)) as nat;
        lemma_digits_of(m);
        assert(s.skip(1) =~= digits_of(m));
    } else {
        lemma_digits_of(i as nat);
        assert(is_digit(s[0]));
    }
}

proof fn lemma_digits_value_step(s: Seq<char>, j: int)
    requires
        0 <= j < s.len(),
    ensures
        digits_value(s.take(j + 1)) == digits_value(s.take(j)) * 10 + digit_value(s[j]),
{
    assert(s.take(j + 1).drop_last() =~= s.take(j));
}

proof fn lemma_digits_value_prefix(s: Seq<char>, k: int)
    requires
        0 <= k <= s.len(),
    ensures
        digits_value(s.take(k)) <= digits_value(s),
    decreases s.len(),
{
    if k == s.len() {
        assert(s.take(k) =~= s);
    } else {
        lemma_digits_value_prefix(s.drop_last(), k);
        assert(s.drop_last().take(k) =~= s.take(k));
    }
}

fn push_digit(out: &mut String, d: u128)
    requires
        d < 10,
    ensures
        final(out)@ == old(out)@.push(digit_char(d as nat)),
{
    let t: &str = if d == 0 {
        proof { reveal_strlit("0"); }
        "0"
    } else if d == 1 {
        proof { reveal_strlit("1"); }
        "1"
    } else if d == 2 {
        proof { reveal_strlit("2"); }
        "2"
    } else if d == 3 {
        proof { reveal_strlit("3"); }
        "3"
    } else if d == 4 {
        proof { reveal_strlit("4"); }
        "4"
    } else if d == 5 {
        proof { reveal_strlit("5"); }
        "5"
    } else if d == 6 {
        proof { reveal_strlit("6"); }
        "6"
    } else if d == 7 {
        proof { reveal_strlit("7"); }
        "7"
    } else if d == 8 {
        proof { reveal_strlit("8"); }
        "8"
    } else {
        proof { reveal_strlit("9"); }
        "9"
    };
    assert(t@ =~= seq![digit_char(d as nat)]);
    out.append(t);
}

fn push_digits(out: &mut String, n: u128)
    ensures
        final(out)@ == old(out)@ + digits_of(n as nat),
    decreases n,
{
    if n >= 10 {
        push_digits(out, n / 10);
    }
    push_digit(out, n % 10);
    assert(out@ =~= old(out)@ + digits_of(n as nat));
}

/// The decimal text of an unsigned number, as `u128::to_string` writes it.
pub fn format_u128(n: u128) -> (r: String)
    ensures
        r@ == digits_of(n as nat),
        r@.len() > 0,
        all_digits(r@),
        digits_value(r@) == n,
        n > 0 ==> r@[0] != '0',
{
    proof {
        lemma_digits_of(n as nat);
    }
    let mut r = String::new();
    push_digits(&mut r, n);
    assert(r@ =~= digits_of(n as nat));
    r
}

/// The decimal text of a signed number, as `i32::to_string` writes it.
pub fn format_i32(n: i32) -> (r: String)
    ensures
        r@ == decimal_of(n as int),
        parse_i32_spec(r@) == Some(n),
        n >= 0 ==> all_digits(r@) && digits_value(r@) == n,
        n < 0 ==> r@[0] == '-' && all_digits(r@.skip(1)) && digits_value(r@.skip(1)) == -n,
{
    proof {
        lemma_parse_decimal(n);
        if n < 0 {
            lemma_digits_of((-(n as int)) as nat);
            assert(decimal_of(n as int).skip(1) =~= digits_of((-(n as int)) as nat));
        } else {
            lemma_digits_of(n as nat);
        }
    }
    let mut r = String::new();
    if n < 0 {
        proof { reveal_strlit("-"); }
        r.append("-");
        let m: u128 = (-(n as i64)) as u128;
        push_digits(&mut r, m);
    } else {
        push_digits(&mut r, n as u128);
    }
    assert(r@ =~= decimal_of(n as int));
    r
}

/// Reads an `i32` from a text as `str::parse::<i32>` does; `None` where it fails.
pub fn parse_i32(s: &str) -> (r: Option<i32>)
    ensures
        r == parse_i32_spec(s@),
        s@.len() > 0 && all_digits(s@) && digits_value(s@) <= i32::MAX ==> r == Some(
            digits_value(s@) as i32,
        ),
        s@.len() > 1 && s@[0] == '+' && all_digits(s@.skip(1)) && digits_value(s@.skip(1))
            <= i32::MAX ==> r == Some(digits_value(s@.skip(1)) as i32),
        s@.len() > 1 && s@[0] == '-' && all_digits(s@.skip(1)) && digits_value(s@.skip(1))
            <= 2147483648 ==> r == Some((-(digits_value(s@.skip(1)) as int)) as i32),
        r is Some ==> s@.len() > 0 && all_digits(
            if s@[0] == '-' || s@[0] == '+' {
                s@.skip(1)
            } else {
                s@
            },
        ),
{
    let len = s.unicode_len();
    if len == 0 {
        return None;
    }
    let first = s.get_char(0);
    let negative = first == '-';
    let start: usize = if first == '-' || first == '+' { 1 } else { 0 };
    let ghost body = if start == 1 { s@.skip(1) } else { s@ };
    assert(body =~= s@.skip(start as int));
    assert(body == (if s@.len() > 0 && (s@[0] == '-' || s@[0] == '+') { s@.skip(1) } else { s@ }));
    if start == len {
        return None;
    }
    let mut v: u64 = 0;
    let mut i: usize = start;
    assert(body.take(0) =~= Seq::<char>::empty());
    while i < len
        invariant
            start <= i <= len,
            len == s@.len(),
            start < len,
            body == s@.skip(start as int),
            body == (if s@.len() > 0 && (s@[0] == '-' || s@[0] == '+') { s@.skip(1) } else { s@ }),
            negative == (s@.len() > 0 && s@[0] == '-'),
            all_digits(body.take(i - start)),
            v == digits_value(body.take(i - start)),
            v <= 2147483648,
        decreases len - i,
    {
        let c = s.get_char(i);
        assert(body[i - start] == c);
        if !('0' <= c && c <= '9') {
            assert(!all_digits(body)) by {
                assert(!is_digit(body[i - start]));
            }
            assert(parse_i32_spec(s@) is None);
            return None;
        }
        let d: u64 = (c as u32 - '0' as u32) as u64;
        proof {
            lemma_digits_value_step(body, i - start);
            assert(all_digits(body.take(i - start + 1))) by {
                assert forall|j: int| 0 <= j < body.take(i - start + 1).len() implies is_digit(
                    #[trigger] body.take(i - start + 1)[j],
                ) by {
                    if j < i - start {
                        assert(body.take(i - start + 1)[j] == body.take(i - start)[j]);
                    }
                }
            }
        }
        v = v * 10 + d;
        if v > 2147483648 {
            proof {
                if all_digits(body) {
                    lemma_digits_value_prefix(body, i - start + 1);
                    assert(digits_value(body) > 2147483648);
                }
                assert(parse_i32_spec(s@) is None);
            }
            return None;
        }
        i = i + 1;
    }
    assert(body.take(len - start) =~= body);
    if negative {
        Some((-(v as i64)) as i32)
    } else if v <= 2147483647 {
        Some(v as i32)
    } else {
        None
    }
}

} // verus!
