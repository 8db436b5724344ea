//! Points in time as civil UTC fields, and their decimal text forms.

use vstd::prelude::*;
use vstd::string::*;

verus! {

/// A UTC instant, held as the fields of its civil date and time.
///
/// `nanosecond` counts from the start of `second`; a value of one thousand
/// million or more marks a leap second, shown as second 60.
#[derive(Clone, Copy, Debug, PartialEq, Eq, Structural)]
pub struct Instant {
    pub year: i32,
    pub month: u32,
    pub day: u32,
    pub hour: u32,
    pub minute: u32,
    pub second: u32,
    pub nanosecond: u32,
}

/// The civil fields that a calendar timestamp shows, to the second.
pub struct Civil {
    pub year: int,
    pub month: int,
    pub day: int,
    pub hour: int,
    pub minute: int,
    pub second: int,
}

impl Instant {
    /// Every field lies in the range of a calendar date and a clock time.
    pub open spec fn wf(self) -> bool {
        &&& 1 <= self.month <= 12
        &&& 1 <= self.day <= 31
        &&& self.hour < 24
        &&& self.minute < 60
        &&& self.second < 60
        &&& self.nanosecond < 2_000_000_000
    }

    /// Tells whether every field lies in its range.
    pub fn is_valid(&self) -> (r: bool)
        ensures
            r == self.wf(),
    {
        1 <= self.month && self.month <= 12 && 1 <= self.day && self.day <= 31 && self.hour < 24
            && self.minute < 60 && self.second < 60 && self.nanosecond < 2_000_000_000
    }

    /// The second as a clock shows it: 60 during a leap second.
    pub open spec fn shown_second(self) -> int {
        if self.nanosecond >= 1_000_000_000 {
            self.second + 1
        } else {
            self.second as int
        }
    }

    /// The instant cut to whole seconds.
    pub open spec fn civil(self) -> Civil {
        Civil {
            year: self.year as int,
            month: self.month as int,
            day: self.day as int,
            hour: self.hour as int,
            minute: self.minute as int,
            second: self.shown_second(),
        }
    }
}

/// The character of a decimal digit.
pub open spec fn digit_char(d: int) -> char {
    if d == 0 {
        '0'
    } else if d == 1 {
        '1'
    } else if d == 2 {
        '2'
    } else if d == 3 {
        '3'
    } else if d == 4 {
        '4'
    } else if d == 5 {
        '5'
    } else if d == 6 {
        '6'
    } else if d == 7 {
        '7'
    } else if d == 8 {
        '8'
    } else {
        '9'
    }
}

/// The digit that a character stands for, if it is a decimal digit.
pub open spec fn digit_of(c: char) -> Option<int> {
    if c == '0' {
        Some(0)
    } else if c == '1' {
        Some(1)
    } else if c == '2' {
        Some(2)
    } else if c == '3' {
        Some(3)
    } else if c == '4' {
        Some(4)
    } else if c == '5' {
        Some(5)
    } else if c == '6' {
        Some(6)
    } else if c == '7' {
        Some(7)
    } else if c == '8' {
        Some(8)
    } else if c == '9' {
        Some(9)
    } else {
        None
    }
}

/// The number that a run of decimal digits writes; `None` where the run is
/// empty or holds anything but digits.
pub open spec fn digits_value(s: Seq<char>) -> Option<nat>
    decreases s.len(),
{
    if s.len() == 0 {
        None
    } else {
        match digit_of(s.last()) {
            None => None,
            Some(d) => if s.len() == 1 {
                Some(d as nat)
            } else {
                match digits_value(s.drop_last()) {
                    None => None,
                    Some(v) => Some((v * 10 + d) as nat),
                }
            },
        }
    }
}

/// A number in decimal, without padding.
pub open spec fn decimal(n: nat) -> Seq<char>
    decreases n,
{
    if n < 10 {
        seq![digit_char(n as int)]
    } else {
        decimal(n / 10).push(digit_char((n % 10) as int))
    }
}

/// A number below one hundred as two digits.
pub open spec fn two_digits(n: int) -> Seq<char> {
    seq![digit_char(n / 10), digit_char(n % 10)]
}

/// A number in decimal, padded with zeros to four digits.
pub open spec fn four_digits(n: nat) -> Seq<char> {
    if n < 10_000 {
        seq![
            digit_char((n / 1000) as int),
            digit_char((n / 100 % 10) as int),
            digit_char((n / 10 % 10) as int),
            digit_char((n % 10) as int),
        ]
    } else {
        decimal(n)
    }
}

/// A year as calendars write it: four digits from 0 to 9999, and a sign
/// before at least four digits outside that span.
pub open spec fn year_text(y: int) -> Seq<char> {
    if 0 <= y <= 9999 {
        four_digits(y as nat)
    } else if y < 0 {
        seq!['-'] + four_digits((-y) as nat)
    } else {
        seq!['+'] + four_digits(y as nat)
    }
}

/// The basic calendar timestamp of a UTC instant: date, `T`, time, `Z`.
pub open spec fn ical_text(t: Instant) -> Seq<char> {
    year_text(t.year as int) + two_digits(t.month as int) + two_digits(t.day as int) + seq!['T']
        + two_digits(t.hour as int) + two_digits(t.minute as int) + two_digits(t.shown_second())
        + seq!['Z']
}

fn digit_str(d: u32) -> (r: &'static str)
    requires
        d < 10,
    ensures
        r@ == seq![digit_char(d as int)],
{
    let r = match d {
        0 => "0",
        1 => "1",
        2 => "2",
        3 => "3",
        4 => "4",
        5 => "5",
        6 => "6",
        7 => "7",
        8 => "8",
        _ => "9",
    };
    proof {
        reveal_strlit("0");
        reveal_strlit("1");
        reveal_strlit("2");
        reveal_strlit("3");
        reveal_strlit("4");
        reveal_strlit("5");
        reveal_strlit("6");
        reveal_strlit("7");
        reveal_strlit("8");
        reveal_strlit("9");
        assert(r@ =~= seq![digit_char(d as int)]);
    }
    r
}

/// Appends a number in decimal, without padding.
pub fn push_decimal(out: &mut String, n: u32)
    ensures
        final(out)@ == old(out)@ + decimal(n as nat),
    decreases n,
{
    if n >= 10 {
        push_decimal(out, n / 10);
    }
    out.append(digit_str(n % 10));
    proof {
        assert(final(out)@ =~= old(out)@ + decimal(n as nat));
    }
}

fn push_two(out: &mut String, n: u32)
    requires
        n < 100,
    ensures
        final(out)@ == old(out)@ + two_digits(n as int),
{
    out.append(digit_str(n / 10));
    out.append(digit_str(n % 10));
    proof {
        assert(final(out)@ =~= old(out)@ + two_digits(n as int));
    }
}

fn push_four(out: &mut String, n: u32)
    ensures
        final(out)@ == old(out)@ + four_digits(n as nat),
{
    if n < 10_000 {
        out.append(digit_str(n / 1000));
        out.append(digit_str(n / 100 % 10));
        out.append(digit_str(n / 10 % 10));
        out.append(digit_str(n % 10));
        proof {
            assert(final(out)@ =~= old(out)@ + four_digits(n as nat));
        }
    } else {
        push_decimal(out, n);
    }
}

fn push_year(out: &mut String, y: i32)
    ensures
        final(out)@ == old(out)@ + year_text(y as int),
{
    proof {
        reveal_strlit("-");
        reveal_strlit("+");
    }
    if 0 <= y && y <= 9999 {
        push_four(out, y as u32);
    } else if y < 0 {
        let wide: i64 = -(y as i64);
        out.append("-");
        push_four(out, wide as u32);
        proof {
            assert(final(out)@ =~= old(out)@ + year_text(y as int));
        }
    } else {
        out.append("+");
        push_four(out, y as u32);
        proof {
            assert(final(out)@ =~= old(out)@ + year_text(y as int));
        }
    }
}

/// Writes a UTC instant as a basic calendar timestamp, such as
/// `20240710T160000Z`.
pub fn instant_to_icalstr(t: &Instant) -> (r: String)
    requires
        t.wf(),
    ensures
        r@ == ical_text(*t),
{
    proof {
        reveal_strlit("T");
        reveal_strlit("Z");
    }
    let mut out = String::new();
    push_year(&mut out, t.year);
    push_two(&mut out, t.month);
    push_two(&mut out, t.day);
    out.append("T");
    push_two(&mut out, t.hour);
    push_two(&mut out, t.minute);
    let shown: u32 = if t.nanosecond >= 1_000_000_000 {
        t.second + 1
    } else {
        t.second
    };
    push_two(&mut out, shown);
    out.append("Z");
    proof {
        assert(out@ =~= ical_text(*t));
    }
    out
}

/// The year that a year text writes.
pub open spec fn year_of_text(s: Seq<char>) -> Option<int> {
    if s.len() > 0 && s[0] == '-' {
        match digits_value(s.skip(1)) {
            Some(v) => Some(-(v as int)),
            None => None,
        }
    } else if s.len() > 0 && s[0] == '+' {
        match digits_value(s.skip(1)) {
            Some(v) => Some(v as int),
            None => None,
        }
    } else {
        match digits_value(s) {
            Some(v) => Some(v as int),
            None => None,
        }
    }
}

/// The civil fields that a basic calendar timestamp writes: the last twelve
/// characters are month, day, `T`, hour, minute, second and `Z`, and what
/// stands before them is the year.
pub open spec fn ical_civil(s: Seq<char>) -> Option<Civil> {
    let p = s.len() - 12;
    if p < 1 || s[p + 4] != 'T' || s[p + 11] != 'Z' {
        None
    } else {
        match (
            year_of_text(s.subrange(0, p)),
            digits_value(s.subrange(p, p + 2)),
            digits_value(s.subrange(p + 2, p + 4)),
            digits_value(s.subrange(p + 5, p + 7)),
            digits_value(s.subrange(p + 7, p + 9)),
            digits_value(s.subrange(p + 9, p + 11)),
        ) {
            (Some(year), Some(month), Some(day), Some(hour), Some(minute), Some(second)) => Some(
                Civil {
                    year,
                    month: month as int,
                    day: day as int,
                    hour: hour as int,
                    minute: minute as int,
                    second: second as int,
                },
            ),
            _ => None,
        }
    }
}

/// A digit's character stands for that digit.
pub proof fn lemma_digit_round_trip(d: int)
    requires
        0 <= d < 10,
    ensures
        digit_of(digit_char(d)) == Some(d),
        digits_value(seq![digit_char(d)]) == Some(d as nat),
        digit_char(d) != '-',
        digit_char(d) != '+',
{
    assert(seq![digit_char(d)].last() == digit_char(d));
}

/// One more digit at the end multiplies the value by ten and adds the digit.
pub proof fn lemma_value_push(s: Seq<char>, d: int)
    requires
        0 <= d < 10,
        s.len() > 0,
    ensures
        digits_value(s.push(digit_char(d))) == match digits_value(s) {
            Some(v) => Some((v * 10 + d) as nat),
            None => None::<nat>,
        },
{
    let t = s.push(digit_char(d));
    assert(t.last() == digit_char(d));
    assert(t.drop_last() =~= s);
    lemma_digit_round_trip(d);
}

/// Reading a number's decimal form gives the number back.
pub proof fn lemma_decimal_round_trip(n: nat)
    ensures
        digits_value(decimal(n)) == Some(n),
        decimal(n).len() > 0,
        n >= 10 ==> decimal(n).len() >= 2,
        n >= 100 ==> decimal(n).len() >= 3,
        n >= 1000 ==> decimal(n).len() >= 4,
        digit_of(decimal(n)[0]) is Some,
    decreases n,
{
    if n < 10 {
        lemma_digit_round_trip(n as int);
    } else {
        lemma_decimal_round_trip(n / 10);
        lemma_value_push(decimal(n / 10), (n % 10) as int);
        lemma_digit_round_trip((n % 10) as int);
        assert(decimal(n)[0] == decimal(n / 10)[0]);
    }
}

/// Reading two digits gives the number back.
pub proof fn lemma_two_digits_round_trip(n: int)
    requires
        0 <= n < 100,
    ensures
        digits_value(two_digits(n)) == Some(n as nat),
        two_digits(n).len() == 2,
{
    lemma_digit_round_trip(n / 10);
    lemma_value_push(seq![digit_char(n / 10)], n % 10);
    assert(two_digits(n) =~= seq![digit_char(n / 10)].push(digit_char(n % 10)));
}

/// Reading a padded number gives the number back.
pub proof fn lemma_four_digits_round_trip(n: nat)
    ensures
        digits_value(four_digits(n)) == Some(n),
        four_digits(n).len() >= 4,
        digit_of(four_digits(n)[0]) is Some,
{
    if n < 10_000 {
        let a = (n / 1000) as int;
        let b = (n / 100 % 10) as int;
        let c = (n / 10 % 10) as int;
        let d = (n % 10) as int;
        let s1 = seq![digit_char(a)];
        let s2 = s1.push(digit_char(b));
        let s3 = s2.push(digit_char(c));
        lemma_digit_round_trip(a);
        lemma_value_push(s1, b);
        lemma_value_push(s2, c);
        lemma_value_push(s3, d);
        assert(four_digits(n) =~= s3.push(digit_char(d)));
        assert(((a * 10 + b) * 10 + c) * 10 + d == n);
    } else {
        lemma_decimal_round_trip(n);
    }
}

/// Reading a year text gives the year back.
pub proof fn lemma_year_round_trip(y: int)
    ensures
        year_of_text(year_text(y)) == Some(y),
        year_text(y).len() >= 4,
{
    let s = year_text(y);
    if 0 <= y <= 9999 {
        lemma_four_digits_round_trip(y as nat);
        assert(s[0] != '-' && s[0] != '+');
    } else if y < 0 {
        lemma_four_digits_round_trip((-y) as nat);
        assert(s.skip(1) =~= four_digits((-y) as nat));
    } else {
        lemma_four_digits_round_trip(y as nat);
        assert(s.skip(1) =~= four_digits(y as nat));
    }
}

/// Writing an instant as a calendar timestamp and reading the timestamp back
/// gives the same instant, to the second.
pub proof fn lemma_ical_round_trip(t: Instant)
    requires
        t.wf(),
    ensures
        ical_civil(ical_text(t)) == Some(t.civil()),
{
    let s = ical_text(t);
    let y = year_text(t.year as int);
    let p = y.len() as int;
    lemma_year_round_trip(t.year as int);
    lemma_two_digits_round_trip(t.month as int);
    lemma_two_digits_round_trip(t.day as int);
    lemma_two_digits_round_trip(t.hour as int);
    lemma_two_digits_round_trip(t.minute as int);
    lemma_two_digits_round_trip(t.shown_second());
    assert(s.len() == p + 12);
    assert(s.subrange(0, p) =~= y);
    assert(s.subrange(p, p + 2) =~= two_digits(t.month as int));
    assert(s.subrange(p + 2, p + 4) =~= two_digits(t.day as int));
    assert(s[p + 4] == 'T');
    assert(s.subrange(p + 5, p + 7) =~= two_digits(t.hour as int));
    assert(s.subrange(p + 7, p + 9) =~= two_digits(t.minute as int));
    assert(s.subrange(p + 9, p + 11) =~= two_digits(t.shown_second()));
    assert(s[p + 11] == 'Z');
}

} // verus!
