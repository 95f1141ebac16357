//! Cell texts of the process table.
//!
//! The table shows each process id in decimal and each CPU usage as a
//! percentage with one decimal digit, rounded half up, with a trailing
//! percent sign.

use vstd::prelude::*;
use vstd::string::StringExecFns;

verus! {

/// The decimal digit character for a value below ten.
pub open spec fn digit_char(d: int) -> char {
    if d == 0 {
        '0'
    } else if d == 1 {
        '1'
    } else if d == 2 {
        '2'
    } else if d == 3 {
        '3'
    } else if d == 4 {
        '4'
    } else if d == 5 {
        '5'
    } else if d == 6 {
        '6'
    } else if d == 7 {
        '7'
    } else if d == 8 {
        '8'
    } else {
        '9'
    }
}

/// The decimal writing of a number: most significant digit first, no
/// leading zeros, a single `0` for zero.
pub open spec fn spec_decimal(n: nat) -> Seq<char>
    decreases n,
{
    if n < 10 {
        seq![digit_char(n as int)]
    } else {
        spec_decimal(n / 10).push(digit_char((n % 10) as int))
    }
}

/// The value of a decimal digit character; meaningful only on digits.
pub open spec fn digit_value(c: char) -> int {
    if c == '0' {
        0
    } else if c == '1' {
        1
    } else if c == '2' {
        2
    } else if c == '3' {
        3
    } else if c == '4' {
        4
    } else if c == '5' {
        5
    } else if c == '6' {
        6
    } else if c == '7' {
        7
    } else if c == '8' {
        8
    } else {
        9
    }
}

/// The number a sequence of decimal digit characters names.
pub open spec fn spec_parse_decimal(s: Seq<char>) -> int
    decreases s.len(),
{
    if s.len() == 0 {
        0
    } else {
        spec_parse_decimal(s.drop_last()) * 10 + digit_value(s.last())
    }
}

proof fn lemma_digit_value_inverse(d: int)
    requires
        0 <= d < 10,
    ensures
        digit_value(digit_char(d)) == d,
{
}

/// The decimal writing names the number it was written from: reading
/// the digits back yields the same value, so no two numbers share a
/// text.
pub proof fn lemma_decimal_round_trip(n: nat)
    ensures
        spec_parse_decimal(spec_decimal(n)) == n,
    decreases n,
{
    if n < 10 {
        lemma_digit_value_inverse(n as int);
        assert(spec_decimal(n).last() == digit_char(n as int));
        assert(spec_decimal(n).drop_last() =~= Seq::<char>::empty());
        assert(spec_parse_decimal(Seq::<char>::empty()) == 0);
    } else {
        lemma_decimal_round_trip(n / 10);
        lemma_digit_value_inverse((n % 10) as int);
        assert(spec_decimal(n).last() == digit_char((n % 10) as int));
        assert(spec_decimal(n).drop_last() =~= spec_decimal(n / 10));
        vstd::arithmetic::div_mod::lemma_fundamental_div_mod(n as int, 10);
    }
}

fn digit_str(d: u64) -> (s: &'static str)
    requires
        d < 10,
    ensures
        s@ == seq![digit_char(d as int)],
{
    proof {
        reveal_strlit("0");
        reveal_strlit("1");
        reveal_strlit("2");
        reveal_strlit("3");
        reveal_strlit("4");
        reveal_strlit("5");
        reveal_strlit("6");
        reveal_strlit("7");
        reveal_strlit("8");
        reveal_strlit("9");
    }
    match d {
        0 => "0",
        1 => "1",
        2 => "2",
        3 => "3",
        4 => "4",
        5 => "5",
        6 => "6",
        7 => "7",
        8 => "8",
        _ => "9",
    }
}

/// The decimal text of a number, as a process id cell shows it.
pub fn decimal_text(n: u64) -> (s: String)
    ensures
        s@ == spec_decimal(n as nat),
    decreases n,
{
    if n < 10 {
        String::from_str(digit_str(n))
    } else {
        let mut s = decimal_text(n / 10);
        s.append(digit_str(n % 10));
        proof {
            assert(s@ =~= spec_decimal((n / 10) as nat).push(digit_char((n % 10) as int)));
        }
        s
    }
}

/// A milli-percent value rounded half up to tenths of a percent.
pub open spec fn spec_tenths(milli_percent: u64) -> int {
    milli_percent / 100 + if milli_percent % 100 >= 50 {
        1int
    } else {
        0int
    }
}

/// The CPU usage cell for a milli-percent value: the percentage with
/// one decimal digit and a percent sign, e.g. `12.3%`.
pub open spec fn spec_cpu_cell(milli_percent: u64) -> Seq<char> {
    spec_decimal((spec_tenths(milli_percent) / 10) as nat) + seq![
        '.',
        digit_char(spec_tenths(milli_percent) % 10),
        '%',
    ]
}

/// Writes a CPU usage in milli-percent as the table shows it.
pub fn cpu_cell_text(milli_percent: u64) -> (s: String)
    ensures
        s@ == spec_cpu_cell(milli_percent),
{
    let tenths: u64 = milli_percent / 100 + if milli_percent % 100 >= 50 {
        1
    } else {
        0
    };
    let mut s = decimal_text(tenths / 10);
    s.append(".");
    s.append(digit_str(tenths % 10));
    s.append("%");
    proof {
        reveal_strlit(".");
        reveal_strlit("%");
        assert(s@ =~= spec_cpu_cell(milli_percent));
    }
    s
}

} // verus!
