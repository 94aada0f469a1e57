use vstd::prelude::*;

verus! {

/// The character of a decimal digit.
pub open spec fn digit_char(d: nat) -> char {
    seq!['0', '1', '2', '3', '4', '5', '6', '7', '8', '9'][d as int]
}

/// The decimal representation of `n`, without leading zeros.
pub open spec fn decimal(n: nat) -> Seq<char>
    decreases n,
{
    if n < 10 {
        seq![digit_char(n)]
    } else {
        decimal(n / 10).push(digit_char(n % 10))
    }
}

fn digit_str(d: u8) -> (r: &'static str)
    requires
        d < 10,
    ensures
        r@ == seq![digit_char(d as nat)],
{
    proof {
        reveal_strlit("0");
        reveal_strlit("1");
        reveal_strlit("2");
        reveal_strlit("3");
        reveal_strlit("4");
        reveal_strlit("5");
        reveal_strlit("6");
        reveal_strlit("7");
        reveal_strlit("8");
        reveal_strlit("9");
    }
    match d {
        0 => "0",
        1 => "1",
        2 => "2",
        3 => "3",
        4 => "4",
        5 => "5",
        6 => "6",
        7 => "7",
        8 => "8",
        _ => "9",
    }
}

/// Appends the decimal representation of `n` to `s`.
pub fn push_decimal(s: &mut String, n: u8)
    ensures
        final(s)@ == old(s)@ + decimal(n as nat),
{
    let ghost m = n as nat;
    if n >= 100 {
        s.append(digit_str(n / 100));
        s.append(digit_str((n / 10) % 10));
        s.append(digit_str(n % 10));
        assert(decimal(m / 100) == seq![digit_char(m / 100)]);
        assert(decimal(m / 10) == decimal(m / 100).push(digit_char((m / 10) % 10)));
        assert(decimal(m) == decimal(m / 10).push(digit_char(m % 10)));
    } else if n >= 10 {
        s.append(digit_str(n / 10));
        s.append(digit_str(n % 10));
        assert(decimal(m / 10) == seq![digit_char(m / 10)]);
        assert(decimal(m) == decimal(m / 10).push(digit_char(m % 10)));
    } else {
        s.append(digit_str(n));
    }
    assert(s@ =~= old(s)@ + decimal(m));
}

/// `prefix` followed by the decimal representation of `n`.
pub fn prefixed_number(prefix: &str, n: u8) -> (r: String)
    ensures
        r@ == prefix@ + decimal(n as nat),
{
    let mut s = String::from_str(prefix);
    push_decimal(&mut s, n);
    s
}

} // verus!
