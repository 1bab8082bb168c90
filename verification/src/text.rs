use vstd::prelude::*;

verus! {

/// The character of a decimal digit.
pub open spec fn digit_char(d: nat) -> char {
    (48 + d) as char
}

/// The decimal numeral of a natural number, most significant digit first,
/// without leading zeros.
pub open spec fn nat_digits(n: nat) -> Seq<char>
    decreases n,
{
    if n < 10 {
        seq![digit_char(n)]
    } else {
        nat_digits(n / 10) + seq![digit_char(n % 10)]
    }
}

/// The decimal numeral of an integer, with a leading minus sign when negative.
pub open spec fn int_decimal(n: int) -> Seq<char> {
    if n < 0 {
        seq!['-'] + nat_digits((-n) as nat)
    } else {
        nat_digits(n as nat)
    }
}

/// The number that a string of decimal digits denotes.
pub open spec fn digits_value(s: Seq<char>) -> int
    decreases s.len(),
{
    if s.len() == 0 {
        0
    } else {
        digits_value(s.drop_last()) * 10 + (s.last() as int - 48)
    }
}

/// Two decimal digits, with a leading zero below ten.
pub open spec fn two_digits(n: nat) -> Seq<char> {
    seq![digit_char(n / 10), digit_char(n % 10)]
}

/// The one-character string of a decimal digit.
pub fn digit_str(d: u64) -> (s: &'static str)
    requires
        d < 10,
    ensures
        s@ == seq![digit_char(d as nat)],
{
    proof {
        reveal_strlit("0");
        reveal_strlit("1");
        reveal_strlit("2");
        reveal_strlit("3");
        reveal_strlit("4");
        reveal_strlit("5");
        reveal_strlit("6");
        reveal_strlit("7");
        reveal_strlit("8");
        reveal_strlit("9");
    }
    if d == 0 {
        "0"
    } else if d == 1 {
        "1"
    } else if d == 2 {
        "2"
    } else if d == 3 {
        "3"
    } else if d == 4 {
        "4"
    } else if d == 5 {
        "5"
    } else if d == 6 {
        "6"
    } else if d == 7 {
        "7"
    } else if d == 8 {
        "8"
    } else {
        "9"
    }
}

/// Appends the decimal numeral of `n` to `out`.
pub fn push_digits(n: u64, out: &mut String)
    ensures
        final(out)@ == old(out)@ + nat_digits(n as nat),
    decreases n,
{
    if n >= 10 {
        push_digits(n / 10, out);
        out.append(digit_str(n % 10));
    } else {
        out.append(digit_str(n));
    }
    proof {
        assert(old(out)@ + nat_digits(n as nat) =~= final(out)@) by {
            if n >= 10 {
                assert(nat_digits(n as nat) == nat_digits((n / 10) as nat) + seq![digit_char((n % 10) as nat)]);
            }
        }
    }
}

/// The decimal numeral of `n`, as `i64`'s `Display` writes it.
pub fn decimal(n: i64) -> (s: String)
    ensures
        s@ == int_decimal(n as int),
{
    let mut out = String::new();
    if n < 0 {
        out.append("-");
        let wide: i128 = 0i128 - (n as i128);
        let magnitude: u64 = wide as u64;
        push_digits(magnitude, &mut out);
        proof {
            reveal_strlit("-");
            assert(out@ =~= int_decimal(n as int));
        }
    } else {
        push_digits(n as u64, &mut out);
        proof {
            assert(out@ =~= int_decimal(n as int));
        }
    }
    out
}

/// The two-digit label of a number below one hundred, as `format!("{:02}", n)` writes it.
pub fn two_digit_label(n: u64) -> (s: String)
    requires
        n < 100,
    ensures
        s@ == two_digits(n as nat),
{
    let mut out = String::new();
    out.append(digit_str(n / 10));
    out.append(digit_str(n % 10));
    proof {
        assert(out@ =~= two_digits(n as nat));
    }
    out
}

/// Every numeral that `nat_digits` writes is made of decimal digits only.
pub proof fn lemma_digits_are_decimal(n: nat)
    ensures
        forall|i: int| 0 <= i < nat_digits(n).len() ==> 48 <= (#[trigger] nat_digits(n)[i]) as int <= 57,
        nat_digits(n).len() >= 1,
    decreases n,
{
    if n >= 10 {
        lemma_digits_are_decimal(n / 10);
    }
}

/// Reading back the numeral of a natural number gives the number itself.
pub proof fn lemma_decimal_round_trip(n: nat)
    ensures
        digits_value(nat_digits(n)) == n,
    decreases n,
{
    if n >= 10 {
        lemma_decimal_round_trip(n / 10);
        let pre = nat_digits(n / 10);
        let s = nat_digits(n);
        assert(s.drop_last() =~= pre);
        assert(s.last() == digit_char(n % 10));
        assert(digit_char(n % 10) as int == 48 + n % 10);
        assert(n == (n / 10) * 10 + n % 10);
        assert(digits_value(s) == digits_value(pre) * 10 + (s.last() as int - 48));
    } else {
        let s = nat_digits(n);
        assert(s.drop_last() =~= Seq::<char>::empty());
        assert(digit_char(n) as int == 48 + n);
        assert(digits_value(s) == digits_value(s.drop_last()) * 10 + (s.last() as int - 48));
    }
}

/// Distinct integers have distinct numerals, so an id written into an
/// address names exactly one object.
pub proof fn lemma_decimal_injective(a: int, b: int)
    requires
        int_decimal(a) == int_decimal(b),
    ensures
        a == b,
{
    if a >= 0 && b >= 0 {
        lemma_decimal_round_trip(a as nat);
        lemma_decimal_round_trip(b as nat);
    } else if a < 0 && b < 0 {
        let da = nat_digits((-a) as nat);
        let db = nat_digits((-b) as nat);
        assert(int_decimal(a).drop_first() =~= da);
        assert(int_decimal(b).drop_first() =~= db);
        lemma_decimal_round_trip((-a) as nat);
        lemma_decimal_round_trip((-b) as nat);
    } else if a < 0 {
        lemma_digits_are_decimal(b as nat);
        assert(int_decimal(a)[0] == '-');
        assert(int_decimal(b)[0] == nat_digits(b as nat)[0]);
    } else {
        lemma_digits_are_decimal(a as nat);
        assert(int_decimal(b)[0] == '-');
        assert(int_decimal(a)[0] == nat_digits(a as nat)[0]);
    }
}

} // verus!
