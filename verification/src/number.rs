//! Decimal integers: reading an `i64` as `str::parse` does, and writing one
//! as `Display` does.

use vstd::prelude::*;

verus! {

pub open spec fn is_digit(c: char) -> bool {
    '0' <= c && c <= '9'
}

pub open spec fn digit_value(c: char) -> int {
    c as int - '0' as int
}

pub open spec fn all_digits(s: Seq<char>) -> bool {
    forall|i: int| 0 <= i < s.len() ==> #[trigger] is_digit(s[i])
}

/// The number that the decimal digits `s` write.
pub open spec fn digits_value(s: Seq<char>) -> int
    decreases s.len(),
{
    if s.len() == 0 {
        0
    } else {
        digits_value(s.drop_last()) * 10 + digit_value(s.last())
    }
}

/// Whether a leading `-` makes the number negative.
pub open spec fn has_minus(s: Seq<char>) -> bool {
    s.len() > 0 && s[0] == '-'
}

/// The digits after an optional leading sign.
pub open spec fn unsigned_part(s: Seq<char>) -> Seq<char> {
    if s.len() > 0 && (s[0] == '-' || s[0] == '+') {
        s.drop_first()
    } else {
        s
    }
}

/// What `s.parse::<i64>()` gives: an optional `+` or `-` followed by at
/// least one ASCII digit and nothing else, whose value fits in an `i64`.
pub open spec fn parsed_i64(s: Seq<char>) -> Option<i64> {
    let body = unsigned_part(s);
    let v = if has_minus(s) {
        -digits_value(body)
    } else {
        digits_value(body)
    };
    if body.len() == 0 || !all_digits(body) {
        None
    } else if i64::MIN <= v <= i64::MAX {
        Some(v as i64)
    } else {
        None
    }
}

pub open spec fn digit_char(d: int) -> char {
    ('0' as int + d) as char
}

/// The decimal digits of `n`, without leading zeros.
pub open spec fn nat_text(n: nat) -> Seq<char>
    decreases n,
{
    if n < 10 {
        seq![digit_char(n as int)]
    } else {
        nat_text(n / 10).push(digit_char((n % 10) as int))
    }
}

/// How `Display` writes an integer: a `-` before the digits of a negative one.
pub open spec fn int_text(v: int) -> Seq<char> {
    if v < 0 {
        seq!['-'] + nat_text((-v) as nat)
    } else {
        nat_text(v as nat)
    }
}

proof fn lemma_digit_char(d: int)
    requires
        0 <= d < 10,
    ensures
        is_digit(digit_char(d)),
        digit_value(digit_char(d)) == d,
{
    assert(('0' as int + d) as char as int == '0' as int + d);
}

proof fn lemma_all_digits_drop_last(s: Seq<char>)
    requires
        all_digits(s),
        s.len() > 0,
    ensures
        all_digits(s.drop_last()),
        is_digit(s.last()),
{
    assert forall|i: int| 0 <= i < s.drop_last().len() implies #[trigger] is_digit(
        s.drop_last()[i],
    ) by {
        assert(s.drop_last()[i] == s[i]);
    }
    assert(is_digit(s[s.len() - 1]));
}

proof fn lemma_digits_prefix_monotone(s: Seq<char>, k: int)
    requires
        all_digits(s),
        0 <= k <= s.len(),
    ensures
        0 <= digits_value(s.take(k)) <= digits_value(s),
    decreases s.len(),
{
    if s.len() > 0 {
        lemma_all_digits_drop_last(s);
        if k == s.len() {
            assert(s.take(k) =~= s);
            lemma_digits_prefix_monotone(s.drop_last(), k - 1);
        } else {
            assert(s.drop_last().take(k) =~= s.take(k));
            lemma_digits_prefix_monotone(s.drop_last(), k);
        }
    } else {
        assert(s.take(k) =~= s);
    }
}

pub proof fn lemma_nat_text(n: nat)
    ensures
        nat_text(n).len() > 0,
        all_digits(nat_text(n)),
        digits_value(nat_text(n)) == n,
        is_digit(nat_text(n)[0]),
    decreases n,
{
    let t = nat_text(n);
    if n >= 10 {
        lemma_nat_text(n / 10);
        lemma_digit_char((n % 10) as int);
        assert(t.drop_last() =~= nat_text(n / 10));
        assert(t.last() == digit_char((n % 10) as int));
        assert(digits_value(t) == digits_value(t.drop_last()) * 10 + digit_value(t.last()));
        assert forall|i: int| 0 <= i < t.len() implies #[trigger] is_digit(t[i]) by {
            if i < t.len() - 1 {
                assert(t[i] == nat_text(n / 10)[i]);
            }
        }
        assert(t[0] == nat_text(n / 10)[0]);
    } else {
        lemma_digit_char(n as int);
        assert(t.drop_last() =~= Seq::<char>::empty());
        assert(digits_value(t.drop_last()) == 0);
        assert(t.last() == digit_char(n as int));
    }
}

/// Reads `s` as `s.parse::<i64>()` does; `None` where that gives an error.
pub fn parse_i64(s: &[char]) -> (r: Option<i64>)
    ensures
        r == parsed_i64(s@),
{
    let n = s.len();
    let negative = n > 0 && s[0] == '-';
    let start: usize = if n > 0 && (s[0] == '-' || s[0] == '+') {
        1
    } else {
        0
    };
    let ghost body = unsigned_part(s@);
    assert(body =~= s@.subrange(start as int, n as int));
    if start == n {
        return None;
    }
    let limit: i128 = 9223372036854775808;
    let mut acc: i128 = 0;
    let mut i = start;
    while i < n
        invariant
            n == s@.len(),
            start <= i <= n,
            body == s@.subrange(start as int, n as int),
            body == unsigned_part(s@),
            all_digits(body.take(i - start)),
            acc == digits_value(body.take(i - start)),
            0 <= acc <= limit,
            limit == 9223372036854775808,
        decreases n - i,
    {
        let c = s[i];
        if !('0' <= c && c <= '9') {
            assert(body[i - start] == c);
            assert(!is_digit(body[i - start]));
            assert(!all_digits(body));
            assert(body.len() != 0);
            return None;
        }
        let d = (c as u32 - '0' as u32) as i128;
        let ghost t = body.take(i + 1 - start);
        proof {
            assert(t.drop_last() =~= body.take(i - start));
            assert(t.last() == c);
            assert(digits_value(t) == digits_value(body.take(i - start)) * 10 + digit_value(c));
            assert forall|j: int| 0 <= j < t.len() implies #[trigger] is_digit(t[j]) by {
                if j < t.len() - 1 {
                    assert(t[j] == body.take(i - start)[j]);
                }
            }
        }
        acc = acc * 10 + d;
        i = i + 1;
        assert(acc == digits_value(t));
        if acc > limit {
            proof {
                if all_digits(body) {
                    lemma_digits_prefix_monotone(body, i - start);
                    assert(digits_value(body) > limit);
                }
            }
            return None;
        }
        assert(all_digits(body.take(i - start)));
    }
    assert(body.take(n - start) =~= body);
    let v: i128 = if negative {
        -acc
    } else {
        acc
    };
    if v > 9223372036854775807 {
        None
    } else {
        Some(v as i64)
    }
}

/// Appends the decimal digits of `n` to `out`.
fn push_digits(n: u64, out: &mut Vec<char>)
    ensures
        final(out)@ == old(out)@ + nat_text(n as nat),
    decreases n,
{
    if n >= 10 {
        push_digits(n / 10, out);
    }
    let d = (n % 10) as u32;
    let c = if d == 0 { '0' } else if d == 1 { '1' } else if d == 2 { '2' } else if d == 3 {
        '3'
    } else if d == 4 { '4' } else if d == 5 { '5' } else if d == 6 { '6' } else if d == 7 {
        '7'
    } else if d == 8 { '8' } else { '9' };
    proof {
        assert(c == digit_char(d as int));
    }
    out.push(c);
    proof {
        if n >= 10 {
            assert(out@ =~= old(out)@ + nat_text((n / 10) as nat).push(c));
        } else {
            assert(out@ =~= old(out)@ + seq![c]);
        }
    }
}

/// The decimal text of `v`, as `v.to_string()` writes it.
pub fn i64_text(v: i64) -> (r: Vec<char>)
    ensures
        r@ == int_text(v as int),
{
    let mut out: Vec<char> = Vec::new();
    if v < 0 {
        out.push('-');
        let m: u64 = if v == i64::MIN {
            9223372036854775808
        } else {
            (-v) as u64
        };
        push_digits(m, &mut out);
    } else {
        push_digits(v as u64, &mut out);
    }
    assert(out@ =~= int_text(v as int));
    out
}

/// Reading back the decimal text of an `i64` gives that `i64`.
pub proof fn lemma_parse_text_roundtrip(v: i64)
    ensures
        parsed_i64(int_text(v as int)) == Some(v),
{
    let t = int_text(v as int);
    if v < 0 {
        let m = (-v) as nat;
        lemma_nat_text(m);
        assert(t.drop_first() =~= nat_text(m));
        assert(t[0] == '-');
        assert(unsigned_part(t) == nat_text(m));
    } else {
        lemma_nat_text(v as nat);
        assert(unsigned_part(t) == t);
    }
}

} // verus!
