use vstd::prelude::*;
use vstd::string::StringExecFns;

verus! {

pub open spec fn digit_char(d: nat) -> char {
    if d == 0 {
        '0'
    } else if d == 1 {
        '1'
    } else if d == 2 {
        '2'
    } else if d == 3 {
        '3'
    } else if d == 4 {
        '4'
    } else if d == 5 {
        '5'
    } else if d == 6 {
        '6'
    } else if d == 7 {
        '7'
    } else if d == 8 {
        '8'
    } else {
        '9'
    }
}

/// Decimal digits of `n`, without leading zeros.
pub open spec fn decimal(n: nat) -> Seq<char>
    decreases n,
{
    if n < 10 {
        seq![digit_char(n)]
    } else {
        decimal(n / 10) + seq![digit_char(n % 10)]
    }
}

/// Decimal digits of `n`, padded with a zero to at least two digits.
pub open spec fn decimal2(n: nat) -> Seq<char> {
    if n < 10 {
        seq!['0', digit_char(n)]
    } else {
        decimal(n)
    }
}

/// Folder or file prefix for a pad or key index: two digits and `_`.
pub open spec fn spec_index_prefix(index: nat) -> Seq<char> {
    decimal2(index) + seq!['_']
}

/// `minutes:seconds` for a duration in milliseconds, both parts padded to
/// two digits.
pub open spec fn spec_format_time(milliseconds: nat) -> Seq<char> {
    let total = milliseconds / 1000;
    decimal2(total / 60) + seq![':'] + decimal2(total % 60)
}

fn digit_str(d: u64) -> (r: &'static str)
    requires
        d < 10,
    ensures
        r@ == seq![digit_char(d as nat)],
{
    proof {
        reveal_strlit("0");
        reveal_strlit("1");
        reveal_strlit("2");
        reveal_strlit("3");
        reveal_strlit("4");
        reveal_strlit("5");
        reveal_strlit("6");
        reveal_strlit("7");
        reveal_strlit("8");
        reveal_strlit("9");
    }
    if d == 0 {
        "0"
    } else if d == 1 {
        "1"
    } else if d == 2 {
        "2"
    } else if d == 3 {
        "3"
    } else if d == 4 {
        "4"
    } else if d == 5 {
        "5"
    } else if d == 6 {
        "6"
    } else if d == 7 {
        "7"
    } else if d == 8 {
        "8"
    } else {
        "9"
    }
}

fn push_decimal(s: &mut String, n: u64)
    ensures
        final(s)@ == old(s)@ + decimal(n as nat),
    decreases n,
{
    if n < 10 {
        s.append(digit_str(n));
    } else {
        push_decimal(s, n / 10);
        s.append(digit_str(n % 10));
        assert(final(s)@ =~= old(s)@ + decimal(n as nat));
    }
}

fn push_decimal2(s: &mut String, n: u64)
    ensures
        final(s)@ == old(s)@ + decimal2(n as nat),
{
    if n < 10 {
        s.append(digit_str(0));
        s.append(digit_str(n));
        assert(final(s)@ =~= old(s)@ + decimal2(n as nat));
    } else {
        push_decimal(s, n);
    }
}

/// The two-digit prefix (`"05_"`) under which the folder or file of a pad
/// or key index is found.
pub fn index_prefix(index: u8) -> (r: String)
    ensures
        r@ == spec_index_prefix(index as nat),
{
    let mut s = String::new();
    push_decimal2(&mut s, index as u64);
    proof {
        reveal_strlit("_");
    }
    s.append("_");
    assert(s@ =~= spec_index_prefix(index as nat));
    s
}

/// Formats a duration in milliseconds as `MM:SS`.
pub fn format_time(milliseconds: u64) -> (r: String)
    ensures
        r@ == spec_format_time(milliseconds as nat),
{
    let total_seconds = milliseconds / 1000;
    let minutes = total_seconds / 60;
    let seconds = total_seconds % 60;
    let mut s = String::new();
    push_decimal2(&mut s, minutes);
    proof {
        reveal_strlit(":");
    }
    s.append(":");
    push_decimal2(&mut s, seconds);
    assert(s@ =~= spec_format_time(milliseconds as nat));
    s
}

} // verus!
