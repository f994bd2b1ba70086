//! Decimal rendering of message unique ids, used when a store command
//! addresses messages by uid on the wire.

use vstd::prelude::*;

verus! {

use vstd::string::StringExecFns;

broadcast use vstd::string::group_string_axioms;

/// The character for one decimal digit.
pub open spec fn digit_char(d: nat) -> char
    recommends
        d < 10,
{
    if d == 0 {
        '0'
    } else if d == 1 {
        '1'
    } else if d == 2 {
        '2'
    } else if d == 3 {
        '3'
    } else if d == 4 {
        '4'
    } else if d == 5 {
        '5'
    } else if d == 6 {
        '6'
    } else if d == 7 {
        '7'
    } else if d == 8 {
        '8'
    } else {
        '9'
    }
}

/// The decimal numeral of `n`, most significant digit first, without leading
/// zeros; the numeral of zero is the single digit zero.
pub open spec fn dec_rep(n: nat) -> Seq<char>
    decreases n,
{
    if n < 10 {
        seq![digit_char(n)]
    } else {
        dec_rep(n / 10).push(digit_char(n % 10))
    }
}

/// The digits of `ds`, least significant first, rendered most significant
/// first.
spec fn rev_digits(ds: Seq<u8>) -> Seq<char> {
    Seq::new(ds.len(), |i: int| digit_char(ds[ds.len() - 1 - i] as nat))
}

proof fn lemma_rev_digits_push(ds: Seq<u8>, d: u8)
    ensures
        rev_digits(ds.push(d)) == seq![digit_char(d as nat)] + rev_digits(ds),
{
    assert(rev_digits(ds.push(d)) =~= seq![digit_char(d as nat)] + rev_digits(ds));
}

fn digit_str(d: u8) -> (r: &'static str)
    requires
        d < 10,
    ensures
        r@ == seq![digit_char(d as nat)],
{
    if d == 0 {
        proof {
            reveal_strlit("0");
            assert("0"@ =~= seq![digit_char(0)]);
        }
        "0"
    } else if d == 1 {
        proof {
            reveal_strlit("1");
            assert("1"@ =~= seq![digit_char(1)]);
        }
        "1"
    } else if d == 2 {
        proof {
            reveal_strlit("2");
            assert("2"@ =~= seq![digit_char(2)]);
        }
        "2"
    } else if d == 3 {
        proof {
            reveal_strlit("3");
            assert("3"@ =~= seq![digit_char(3)]);
        }
        "3"
    } else if d == 4 {
        proof {
            reveal_strlit("4");
            assert("4"@ =~= seq![digit_char(4)]);
        }
        "4"
    } else if d == 5 {
        proof {
            reveal_strlit("5");
            assert("5"@ =~= seq![digit_char(5)]);
        }
        "5"
    } else if d == 6 {
        proof {
            reveal_strlit("6");
            assert("6"@ =~= seq![digit_char(6)]);
        }
        "6"
    } else if d == 7 {
        proof {
            reveal_strlit("7");
            assert("7"@ =~= seq![digit_char(7)]);
        }
        "7"
    } else if d == 8 {
        proof {
            reveal_strlit("8");
            assert("8"@ =~= seq![digit_char(8)]);
        }
        "8"
    } else {
        proof {
            reveal_strlit("9");
            assert("9"@ =~= seq![digit_char(9)]);
        }
        "9"
    }
}

/// Renders `n` as its decimal numeral.
pub fn u32_to_dec(n: u32) -> (s: String)
    ensures
        s@ == dec_rep(n as nat),
{
    let mut digits: Vec<u8> = Vec::new();
    let mut m: u32 = n;
    while m >= 10
        invariant
            forall|j: int| 0 <= j < digits@.len() ==> digits@[j] < 10,
            dec_rep(n as nat) == dec_rep(m as nat) + rev_digits(digits@),
        decreases m,
    {
        let d: u8 = (m % 10) as u8;
        proof {
            lemma_rev_digits_push(digits@, d);
            assert(dec_rep(m as nat) == dec_rep((m / 10) as nat).push(digit_char((m % 10) as nat)));
            assert(dec_rep((m / 10) as nat).push(digit_char(d as nat)) + rev_digits(digits@)
                =~= dec_rep((m / 10) as nat) + rev_digits(digits@.push(d)));
        }
        digits.push(d);
        m = m / 10;
    }
    let mut s = String::from_str(digit_str((m % 10) as u8));
    proof {
        assert(dec_rep(m as nat) =~= seq![digit_char((m % 10) as nat)]);
    }
    let mut i: usize = digits.len();
    while i > 0
        invariant
            i <= digits@.len(),
            forall|j: int| 0 <= j < digits@.len() ==> digits@[j] < 10,
            dec_rep(n as nat) == seq![digit_char((m % 10) as nat)] + rev_digits(digits@),
            s@ == seq![digit_char((m % 10) as nat)] + rev_digits(digits@).take(
                digits@.len() - i,
            ),
        decreases i,
    {
        let d = digits[i - 1];
        s.append(digit_str(d));
        proof {
            let rd = rev_digits(digits@);
            assert(rd[digits@.len() - i] == digit_char(d as nat));
            assert(rd.take(digits@.len() - (i - 1)) =~= rd.take(digits@.len() - i).push(
                rd[digits@.len() - i],
            ));
        }
        i = i - 1;
    }
    proof {
        assert(rev_digits(digits@).take(digits@.len() - 0) =~= rev_digits(digits@));
    }
    s
}

} // verus!
