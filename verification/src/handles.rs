//! Handles on the wire: a handle travels as decimal text in request paths
//! and responses. Rendering and parsing are verified against one decimal
//! model, so a rendered handle always parses back to itself and a poll for
//! arbitrary text never hits the wrong job.

use vstd::prelude::*;

verus! {

/// Whether `c` is a decimal digit.
pub open spec fn is_digit(c: char) -> bool {
    48 <= c as u32 <= 57
}

/// The numeric value of a digit character.
pub open spec fn digit_val(c: char) -> int {
    c as u32 - 48
}

/// Whether every character of `s` is a decimal digit.
pub open spec fn all_digits(s: Seq<char>) -> bool {
    forall|i: int| 0 <= i < s.len() ==> is_digit(s[i])
}

/// The number the digit string `s` denotes, most significant digit first.
pub open spec fn decimal_value(s: Seq<char>) -> int
    decreases s.len(),
{
    if s.len() == 0 {
        0
    } else {
        decimal_value(s.drop_last()) * 10 + digit_val(s.last())
    }
}

/// The digit character for a value below ten.
pub open spec fn digit_char(d: int) -> char {
    if d == 0 {
        '0'
    } else if d == 1 {
        '1'
    } else if d == 2 {
        '2'
    } else if d == 3 {
        '3'
    } else if d == 4 {
        '4'
    } else if d == 5 {
        '5'
    } else if d == 6 {
        '6'
    } else if d == 7 {
        '7'
    } else if d == 8 {
        '8'
    } else {
        '9'
    }
}

/// The decimal text of `n`, without leading zeros (`0` for zero).
pub open spec fn decimal_repr(n: nat) -> Seq<char>
    decreases n,
{
    if n < 10 {
        seq![digit_char(n as int)]
    } else {
        decimal_repr(n / 10).push(digit_char((n % 10) as int))
    }
}

proof fn lemma_digit_char_val(d: int)
    requires
        0 <= d < 10,
    ensures
        is_digit(digit_char(d)),
        digit_val(digit_char(d)) == d,
{
}

proof fn lemma_all_digits_drop_last(s: Seq<char>)
    requires
        s.len() > 0,
        all_digits(s),
    ensures
        all_digits(s.drop_last()),
{
}

/// A digit string denotes a non-negative number.
pub proof fn lemma_decimal_value_nonneg(s: Seq<char>)
    requires
        all_digits(s),
    ensures
        decimal_value(s) >= 0,
    decreases s.len(),
{
    if s.len() > 0 {
        lemma_all_digits_drop_last(s);
        lemma_decimal_value_nonneg(s.drop_last());
    }
}

/// A digit string denotes at least as much as any of its prefixes.
pub proof fn lemma_decimal_value_prefix(s: Seq<char>, i: int)
    requires
        all_digits(s),
        0 <= i <= s.len(),
    ensures
        decimal_value(s.take(i)) <= decimal_value(s),
    decreases s.len() - i,
{
    if i < s.len() {
        assert(s.take(i + 1).drop_last() =~= s.take(i));
        assert(all_digits(s.take(i + 1)));
        lemma_decimal_value_nonneg(s.take(i));
        assert(decimal_value(s.take(i + 1)) == decimal_value(s.take(i)) * 10 + digit_val(
            s.take(i + 1).last(),
        ));
        lemma_decimal_value_prefix(s, i + 1);
    } else {
        assert(s.take(i) =~= s);
    }
}

/// The decimal text of a number is all digits and denotes that number.
pub proof fn lemma_decimal_repr_value(n: nat)
    ensures
        decimal_repr(n).len() > 0,
        all_digits(decimal_repr(n)),
        decimal_value(decimal_repr(n)) == n,
    decreases n,
{
    if n < 10 {
        lemma_digit_char_val(n as int);
        let r = decimal_repr(n);
        assert(r.drop_last() =~= Seq::<char>::empty());
        assert(decimal_value(Seq::<char>::empty()) == 0);
        assert(r.last() == digit_char(n as int));
    } else {
        lemma_digit_char_val((n % 10) as int);
        lemma_decimal_repr_value(n / 10);
        let r = decimal_repr(n);
        assert(r.drop_last() =~= decimal_repr(n / 10));
        assert(r.last() == digit_char((n % 10) as int));
        assert(decimal_value(r) == decimal_value(decimal_repr(n / 10)) * 10 + digit_val(r.last()));
        assert(digit_val(r.last()) == n % 10);
    }
}

/// Law: a handle rendered as decimal text parses back to the same handle:
/// the text is non-empty, all digits, and denotes exactly that handle.
pub proof fn lemma_handle_text_round_trip(h: u64)
    ensures
        decimal_repr(h as nat).len() > 0,
        all_digits(decimal_repr(h as nat)),
        decimal_value(decimal_repr(h as nat)) == h,
{
    lemma_decimal_repr_value(h as nat);
}

pub(crate) fn digit_str(d: u8) -> (r: &'static str)
    requires
        d < 10,
    ensures
        r@ == seq![digit_char(d as int)],
{
    if d == 0 {
        proof {
            reveal_strlit("0");
            assert("0"@ =~= seq![digit_char(d as int)]);
        }
        "0"
    } else if d == 1 {
        proof {
            reveal_strlit("1");
            assert("1"@ =~= seq![digit_char(d as int)]);
        }
        "1"
    } else if d == 2 {
        proof {
            reveal_strlit("2");
            assert("2"@ =~= seq![digit_char(d as int)]);
        }
        "2"
    } else if d == 3 {
        proof {
            reveal_strlit("3");
            assert("3"@ =~= seq![digit_char(d as int)]);
        }
        "3"
    } else if d == 4 {
        proof {
            reveal_strlit("4");
            assert("4"@ =~= seq![digit_char(d as int)]);
        }
        "4"
    } else if d == 5 {
        proof {
            reveal_strlit("5");
            assert("5"@ =~= seq![digit_char(d as int)]);
        }
        "5"
    } else if d == 6 {
        proof {
            reveal_strlit("6");
            assert("6"@ =~= seq![digit_char(d as int)]);
        }
        "6"
    } else if d == 7 {
        proof {
            reveal_strlit("7");
            assert("7"@ =~= seq![digit_char(d as int)]);
        }
        "7"
    } else if d == 8 {
        proof {
            reveal_strlit("8");
            assert("8"@ =~= seq![digit_char(d as int)]);
        }
        "8"
    } else {
        proof {
            reveal_strlit("9");
            assert("9"@ =~= seq![digit_char(d as int)]);
        }
        "9"
    }
}

/// The decimal text of handle `h`, as returned to the client that
/// submitted the job.
pub fn handle_to_string(h: u64) -> (r: String)
    ensures
        r@ == decimal_repr(h as nat),
    decreases h,
{
    if h < 10 {
        String::from_str(digit_str(h as u8))
    } else {
        let mut r = handle_to_string(h / 10);
        r.append(digit_str((h % 10) as u8));
        proof {
            assert(r@ =~= decimal_repr(h as nat));
        }
        r
    }
}

/// Reads a handle from client-supplied text: `Some` exactly when the text
/// is a non-empty digit string whose value fits a handle, and then the
/// value denoted. Any other text is no handle at all.
pub fn parse_handle(s: &str) -> (r: Option<u64>)
    ensures
        r is Some <==> (s@.len() > 0 && all_digits(s@) && decimal_value(s@) <= u64::MAX),
        r matches Some(h) ==> h == decimal_value(s@),
{
    let n = s.unicode_len();
    if n == 0 {
        return None;
    }
    let mut acc: u64 = 0;
    let mut i: usize = 0;
    while i < n
        invariant
            0 <= i <= n,
            n == s@.len(),
            all_digits(s@.take(i as int)),
            acc == decimal_value(s@.take(i as int)),
        decreases n - i,
    {
        let c = s.get_char(i);
        let u = c as u32;
        if u < 48 || u > 57 {
            proof {
                assert(!is_digit(s@[i as int]));
            }
            return None;
        }
        let d = (u - 48) as u64;
        proof {
            assert(s@.take(i as int + 1).drop_last() =~= s@.take(i as int));
            assert(all_digits(s@.take(i as int + 1)));
        }
        if acc > (u64::MAX - d) / 10 {
            proof {
                let q = (u64::MAX - d) as int / 10;
                assert((u64::MAX - d) as int == 10 * q + (u64::MAX - d) as int % 10);
                assert(acc * 10 + d > u64::MAX);
                assert(decimal_value(s@.take(i as int + 1)) == acc * 10 + d);
                if all_digits(s@) {
                    lemma_decimal_value_prefix(s@, i as int + 1);
                }
            }
            return None;
        }
        proof {
            let q = (u64::MAX - d) as int / 10;
            assert((u64::MAX - d) as int == 10 * q + (u64::MAX - d) as int % 10);
            assert(acc * 10 + d <= u64::MAX);
        }
        acc = acc * 10 + d;
        i += 1;
    }
    proof {
        assert(s@.take(n as int) =~= s@);
    }
    Some(acc)
}

} // verus!
