use vstd::prelude::*;
use vstd::string::*;

verus! {

pub open spec fn is_digit(c: char) -> bool {
    '0' <= c && c <= '9'
}

pub open spec fn all_digits(s: Seq<char>) -> bool {
    forall|i: int| 0 <= i < s.len() ==> is_digit(#[trigger] s[i])
}

/// The value of a string of decimal digits, most significant first.
pub open spec fn digits_value(s: Seq<char>) -> int
    decreases s.len(),
{
    if s.len() == 0 {
        0
    } else {
        digits_value(s.drop_last()) * 10 + (s.last() as int - '0' as int)
    }
}

/// The integer that a text spells: an optional `+` or `-`, then one or more decimal
/// digits and nothing else. `None` for any other text.
pub open spec fn integer_text_value(s: Seq<char>) -> Option<int> {
    if s.len() > 0 && (s[0] == '+' || s[0] == '-') {
        let d = s.subrange(1, s.len() as int);
        if d.len() > 0 && all_digits(d) {
            Some(if s[0] == '-' { -digits_value(d) } else { digits_value(d) })
        } else {
            None
        }
    } else if s.len() > 0 && all_digits(s) {
        Some(digits_value(s))
    } else {
        None
    }
}

/// The number that a numeric input holds: its text read as an `i32`, and 0 where the
/// text is no integer or lies outside the range of `i32`.
pub open spec fn number_input_value(s: Seq<char>) -> i32 {
    match integer_text_value(s) {
        Some(v) => if i32::MIN <= v <= i32::MAX { v as i32 } else { 0 },
        None => 0,
    }
}

proof fn lemma_digits_value_nonneg(s: Seq<char>)
    requires
        all_digits(s),
    ensures
        digits_value(s) >= 0,
    decreases s.len(),
{
    if s.len() > 0 {
        assert(all_digits(s.drop_last()));
        lemma_digits_value_nonneg(s.drop_last());
    }
}

/// Reads the text of a numeric input control as an `i32`, falling back to 0.
pub fn parse_number_input(text: &str) -> (r: i32)
    ensures
        r == number_input_value(text@),
{
    let n = text.unicode_len();
    if n == 0 {
        return 0;
    }
    let first = text.get_char(0);
    let negative = first == '-';
    let start: usize = if first == '-' || first == '+' { 1 } else { 0 };
    if start == n {
        return 0;
    }
    let ghost s = text@;
    let ghost d = s.subrange(start as int, s.len() as int);
    proof {
        if start == 0 {
            assert(d =~= s);
        }
    }
    // Magnitudes past this bound lie outside `i32` whatever the sign.
    let bound: i64 = 2147483648;
    let mut mag: i64 = 0;
    let mut over = false;
    let mut i: usize = start;
    while i < n
        invariant
            n == s.len(),
            s == text@,
            start <= i <= n,
            start < n,
            first == s[0],
            negative == (first == '-'),
            (start == 1) == (first == '-' || first == '+'),
            start == 0 ==> d == s,
            d == s.subrange(start as int, s.len() as int),
            all_digits(s.subrange(start as int, i as int)),
            bound == 2147483648,
            0 <= mag <= bound,
            !over ==> mag == digits_value(s.subrange(start as int, i as int)),
            over ==> digits_value(s.subrange(start as int, i as int)) > bound,
        decreases n - i,
    {
        let c = text.get_char(i);
        if !('0' <= c && c <= '9') {
            proof {
                assert(d[i - start] == c);
                assert(!all_digits(d));
            }
            return 0;
        }
        let ghost prev = s.subrange(start as int, i as int);
        let ghost next = s.subrange(start as int, i + 1);
        proof {
            assert(next.drop_last() =~= prev);
            assert(next.last() == c);
            assert(all_digits(next)) by {
                assert forall|j: int| 0 <= j < next.len() implies is_digit(#[trigger] next[j]) by {
                    if j < prev.len() {
                        assert(next[j] == prev[j]);
                    }
                }
            }
        }
        let digit = (c as u32 - '0' as u32) as i64;
        proof {
            assert(digits_value(next) == digits_value(prev) * 10 + digit);
            if over {
                let p = digits_value(prev);
                assert(p * 10 >= p) by (nonlinear_arith)
                    requires
                        p > 0,
                ;
            }
        }
        if !over {
            assert(mag * 10 <= 21474836480) by (nonlinear_arith)
                requires
                    0 <= mag <= 2147483648,
            ;
            let v = mag * 10 + digit;
            if v > bound {
                over = true;
                mag = bound;
            } else {
                mag = v;
            }
        }
        i = i + 1;
    }
    proof {
        assert(s.subrange(start as int, n as int) =~= d);
        lemma_digits_value_nonneg(d);
        if start == 0 {
            assert(d =~= s);
            assert(!(s[0] == '+' || s[0] == '-')) by {
                assert(is_digit(d[0]));
            }
        }
    }
    if over {
        return 0;
    }
    if negative {
        (0 - mag) as i32
    } else if mag > 2147483647 {
        0
    } else {
        mag as i32
    }
}

} // verus!
