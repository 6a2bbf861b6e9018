use vstd::prelude::*;

verus! {

/// A day to ask about: the current one, or an explicit calendar date.
///
/// The fields of an explicit date are not checked against the calendar.
#[derive(Debug, Clone, Copy, PartialEq, Eq, Structural)]
pub enum Date {
    Today,
    Date { day: u8, month: u8, year: u16 },
}

/// The character of a decimal digit.
pub open spec fn digit_char(d: nat) -> char
    recommends
        d < 10,
{
    (d + 48) as char
}

/// The decimal digits of `n`, without leading zeros.
pub open spec fn decimal(n: nat) -> Seq<char>
    decreases n,
{
    if n < 10 {
        seq![digit_char(n)]
    } else {
        decimal(n / 10).push(digit_char(n % 10))
    }
}

/// The decimal digits of `n`, padded with a zero to at least two.
pub open spec fn padded2(n: nat) -> Seq<char> {
    if n < 10 {
        seq!['0', digit_char(n)]
    } else {
        decimal(n)
    }
}

/// `YYYY-MM-DD`: the year as it is, month and day padded to two digits.
pub open spec fn date_text(day: u8, month: u8, year: u16) -> Seq<char> {
    decimal(year as nat) + seq!['-'] + padded2(month as nat) + seq!['-'] + padded2(day as nat)
}

impl Date {
    /// The value of the `date` query parameter, if any.
    pub open spec fn param_spec(self) -> Option<Seq<char>> {
        match self {
            Date::Today => None,
            Date::Date { day, month, year } => Some(date_text(day, month, year)),
        }
    }

    /// The `date` query parameter: none for today, `YYYY-MM-DD` otherwise.
    pub fn as_param(&self) -> (r: Option<String>)
        ensures
            r matches Some(s) ==> self.param_spec() == Some(s@),
            r is None ==> self.param_spec() is None,
    {
        match self {
            Date::Today => None,
            Date::Date { day, month, year } => {
                let mut s = String::new();
                push_decimal(&mut s, *year);
                s.append("-");
                push_padded2(&mut s, *month);
                s.append("-");
                push_padded2(&mut s, *day);
                proof {
                    reveal_strlit("-");
                    assert(s@ =~= date_text(*day, *month, *year));
                }
                Some(s)
            },
        }
    }
}

/// The one-character string of a decimal digit.
fn digit_str(d: u16) -> (r: &'static str)
    requires
        d < 10,
    ensures
        r@ == seq![digit_char(d as nat)],
{
    proof {
        reveal_strlit("0");
        reveal_strlit("1");
        reveal_strlit("2");
        reveal_strlit("3");
        reveal_strlit("4");
        reveal_strlit("5");
        reveal_strlit("6");
        reveal_strlit("7");
        reveal_strlit("8");
        reveal_strlit("9");
    }
    match d {
        0 => "0",
        1 => "1",
        2 => "2",
        3 => "3",
        4 => "4",
        5 => "5",
        6 => "6",
        7 => "7",
        8 => "8",
        _ => "9",
    }
}

/// Appends the decimal digits of `n`.
fn push_decimal(s: &mut String, n: u16)
    ensures
        final(s)@ == old(s)@ + decimal(n as nat),
    decreases n,
{
    if n >= 10 {
        push_decimal(s, n / 10);
    }
    s.append(digit_str(n % 10));
    assert(s@ =~= old(s)@ + decimal(n as nat));
}

/// Appends the decimal digits of `n`, padded with a zero to at least two.
fn push_padded2(s: &mut String, n: u8)
    ensures
        final(s)@ == old(s)@ + padded2(n as nat),
{
    if n < 10 {
        s.append("0");
        s.append(digit_str(n as u16));
        proof {
            reveal_strlit("0");
            assert(s@ =~= old(s)@ + padded2(n as nat));
        }
    } else {
        push_decimal(s, n as u16);
    }
}

} // verus!
