//! Rendering of line numbers: a count printed right-aligned in a
//! six-character, space-padded field.

use vstd::prelude::*;
use vstd::string::StringExecFns;

verus! {

/// The character for a single decimal digit value.
pub open spec fn digit_char(d: nat) -> char {
    if d == 0 {
        '0'
    } else if d == 1 {
        '1'
    } else if d == 2 {
        '2'
    } else if d == 3 {
        '3'
    } else if d == 4 {
        '4'
    } else if d == 5 {
        '5'
    } else if d == 6 {
        '6'
    } else if d == 7 {
        '7'
    } else if d == 8 {
        '8'
    } else {
        '9'
    }
}

/// The decimal digits of `n`, most significant first, without leading
/// zeros (zero itself is the single digit `0`).
pub open spec fn decimal_rep(n: nat) -> Seq<char>
    decreases n,
{
    if n < 10 {
        seq![digit_char(n)]
    } else {
        decimal_rep(n / 10) + seq![digit_char(n % 10)]
    }
}

/// `k` space characters.
pub open spec fn spaces(k: nat) -> Seq<char> {
    Seq::new(k, |i: int| ' ')
}

/// The decimal digits of `n`, padded on the left with spaces to the
/// six-character number field, or unpadded once they outgrow the field.
pub open spec fn padded_decimal(n: nat) -> Seq<char> {
    let digits = decimal_rep(n);
    if digits.len() >= 6 {
        digits
    } else {
        spaces((6 - digits.len()) as nat) + digits
    }
}

/// The digit values of `ds` as characters.
pub open spec fn digit_chars(ds: Seq<usize>) -> Seq<char> {
    ds.map_values(|d: usize| digit_char(d as nat))
}

/// What is still to be rendered while digits of a count are peeled off:
/// nothing once the remaining value reaches zero.
spec fn pending_rep(cur: nat) -> Seq<char> {
    if cur == 0 {
        Seq::<char>::empty()
    } else {
        decimal_rep(cur)
    }
}

/// Appends the character for the single decimal digit `d` to `s`.
fn append_digit(s: &mut String, d: usize)
    requires
        d < 10,
    ensures
        final(s)@ == old(s)@ + seq![digit_char(d as nat)],
{
    if d == 0 {
        proof {
            reveal_strlit("0");
        }
        s.append("0");
        assert(final(s)@ =~= old(s)@ + seq![digit_char(d as nat)]);
    } else if d == 1 {
        proof {
            reveal_strlit("1");
        }
        s.append("1");
        assert(final(s)@ =~= old(s)@ + seq![digit_char(d as nat)]);
    } else if d == 2 {
        proof {
            reveal_strlit("2");
        }
        s.append("2");
        assert(final(s)@ =~= old(s)@ + seq![digit_char(d as nat)]);
    } else if d == 3 {
        proof {
            reveal_strlit("3");
        }
        s.append("3");
        assert(final(s)@ =~= old(s)@ + seq![digit_char(d as nat)]);
    } else if d == 4 {
        proof {
            reveal_strlit("4");
        }
        s.append("4");
        assert(final(s)@ =~= old(s)@ + seq![digit_char(d as nat)]);
    } else if d == 5 {
        proof {
            reveal_strlit("5");
        }
        s.append("5");
        assert(final(s)@ =~= old(s)@ + seq![digit_char(d as nat)]);
    } else if d == 6 {
        proof {
            reveal_strlit("6");
        }
        s.append("6");
        assert(final(s)@ =~= old(s)@ + seq![digit_char(d as nat)]);
    } else if d == 7 {
        proof {
            reveal_strlit("7");
        }
        s.append("7");
        assert(final(s)@ =~= old(s)@ + seq![digit_char(d as nat)]);
    } else if d == 8 {
        proof {
            reveal_strlit("8");
        }
        s.append("8");
        assert(final(s)@ =~= old(s)@ + seq![digit_char(d as nat)]);
    } else {
        proof {
            reveal_strlit("9");
        }
        s.append("9");
        assert(final(s)@ =~= old(s)@ + seq![digit_char(d as nat)]);
    }
}

/// Renders `n` right-aligned in a six-character, space-padded field, as
/// every numbered output line prints its count.
pub fn format_count(n: usize) -> (s: String)
    ensures
        s@ == padded_decimal(n as nat),
{
    let mut digits: Vec<usize> = Vec::new();
    let mut cur: usize = n;
    digits.push(cur % 10);
    proof {
        assert(digit_chars(digits@) =~= seq![digit_char((n % 10) as nat)]);
        if n < 10 {
            assert(n % 10 == n);
        }
        assert(pending_rep((n / 10) as nat) + digit_chars(digits@) =~= decimal_rep(n as nat));
    }
    cur = cur / 10;
    while cur > 0
        invariant
            digits@.len() >= 1,
            forall|j: int| 0 <= j < digits@.len() ==> digits@[j] < 10,
            pending_rep(cur as nat) + digit_chars(digits@) == decimal_rep(n as nat),
        decreases cur,
    {
        let d = cur % 10;
        let ghost before = digits@;
        digits.insert(0, d);
        proof {
            assert(digit_chars(digits@) =~= seq![digit_char(d as nat)] + digit_chars(before));
            if cur < 10 {
                assert(cur % 10 == cur);
                assert(decimal_rep(cur as nat) =~= seq![digit_char(d as nat)]);
            }
            assert(pending_rep((cur / 10) as nat) + digit_chars(digits@) =~= decimal_rep(
                n as nat,
            ));
        }
        cur = cur / 10;
    }
    proof {
        assert(digit_chars(digits@) =~= decimal_rep(n as nat));
        assert(digit_chars(digits@).len() == digits@.len());
    }
    let dlen = digits.len();
    let target: usize = if dlen >= 6 {
        0
    } else {
        6 - dlen
    };
    let mut s = String::new();
    let mut pad: usize = 0;
    while pad < target
        invariant
            pad <= target,
            s@ == spaces(pad as nat),
        decreases target - pad,
    {
        proof {
            reveal_strlit(" ");
        }
        s.append(" ");
        pad = pad + 1;
        proof {
            assert(s@ =~= spaces(pad as nat));
        }
    }
    let mut j: usize = 0;
    while j < dlen
        invariant
            j <= dlen,
            dlen == digits@.len(),
            forall|k: int| 0 <= k < digits@.len() ==> digits@[k] < 10,
            s@ == spaces(target as nat) + digit_chars(digits@.take(j as int)),
        decreases dlen - j,
    {
        let d = digits[j];
        append_digit(&mut s, d);
        proof {
            assert(digits@.take(j + 1) =~= digits@.take(j as int).push(digits@[j as int]));
            assert(digit_chars(digits@.take(j + 1)) =~= digit_chars(digits@.take(j as int)).push(
                digit_char(d as nat),
            ));
            assert(s@ =~= spaces(target as nat) + digit_chars(digits@.take(j + 1)));
        }
        j = j + 1;
    }
    proof {
        assert(digits@.take(dlen as int) =~= digits@);
        if dlen >= 6 {
            assert(s@ =~= padded_decimal(n as nat));
        } else {
            assert(spaces(target as nat) + decimal_rep(n as nat) =~= padded_decimal(n as nat));
        }
    }
    s
}

} // verus!
