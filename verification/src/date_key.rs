//! Text keys of dates, "YYYY-MM-DD": the year zero-padded to four
//! characters and month and day to two, a minus sign counting towards the
//! width, as Rust's `{:04}` and `{:02}` print integers.

use vstd::prelude::*;

verus! {

/// The character of a decimal digit.
pub open spec fn digit_char(d: int) -> char {
    if d == 0 {
        '0'
    } else if d == 1 {
        '1'
    } else if d == 2 {
        '2'
    } else if d == 3 {
        '3'
    } else if d == 4 {
        '4'
    } else if d == 5 {
        '5'
    } else if d == 6 {
        '6'
    } else if d == 7 {
        '7'
    } else if d == 8 {
        '8'
    } else {
        '9'
    }
}

/// Decimal digits of `n`, most significant first, without leading zeros.
pub open spec fn decimal_digits(n: nat) -> Seq<char>
    decreases n,
{
    if n < 10 {
        seq![digit_char(n as int)]
    } else {
        decimal_digits(n / 10).push(digit_char((n % 10) as int))
    }
}

/// `s` with zeros in front up to `width` characters.
pub open spec fn pad_zeros(s: Seq<char>, width: int) -> Seq<char> {
    if s.len() >= width {
        s
    } else {
        Seq::new((width - s.len()) as nat, |i: int| '0') + s
    }
}

/// An integer printed with a minimum width, zero-padded after the sign.
pub open spec fn padded_decimal(n: int, width: int) -> Seq<char> {
    if n < 0 {
        seq!['-'] + pad_zeros(decimal_digits((-n) as nat), width - 1)
    } else {
        pad_zeros(decimal_digits(n as nat), width)
    }
}

/// The key "YYYY-MM-DD" of a date.
pub open spec fn date_key_text(year: int, month: int, day: int) -> Seq<char> {
    padded_decimal(year, 4) + seq!['-'] + padded_decimal(month, 2) + seq!['-'] + padded_decimal(
        day,
        2,
    )
}

/// The four characters of a number below 10000, zero-padded.
pub open spec fn four_digits(n: int) -> Seq<char> {
    seq![
        digit_char(n / 1000),
        digit_char((n / 100) % 10),
        digit_char((n / 10) % 10),
        digit_char(n % 10),
    ]
}

/// The two characters of a number below 100, zero-padded.
pub open spec fn two_digits(n: int) -> Seq<char> {
    seq![digit_char(n / 10), digit_char(n % 10)]
}

proof fn lemma_digit_char_injective(a: int, b: int)
    requires
        0 <= a < 10,
        0 <= b < 10,
        digit_char(a) == digit_char(b),
    ensures
        a == b,
{
}

proof fn lemma_four_digits(n: int)
    requires
        0 <= n < 10000,
    ensures
        padded_decimal(n, 4) == four_digits(n),
{
    let n = n as nat;
    reveal_with_fuel(decimal_digits, 4);
    if n < 10 {
        assert(pad_zeros(decimal_digits(n), 4) =~= four_digits(n as int));
    } else if n < 100 {
        assert(decimal_digits(n) == seq![digit_char((n / 10) as int), digit_char((n % 10) as int)]);
        assert(pad_zeros(decimal_digits(n), 4) =~= four_digits(n as int));
    } else if n < 1000 {
        assert(decimal_digits(n / 10) == seq![
            digit_char((n / 100) as int),
            digit_char(((n / 10) % 10) as int),
        ]);
        assert(pad_zeros(decimal_digits(n), 4) =~= four_digits(n as int));
    } else {
        assert(decimal_digits(n / 100) == seq![
            digit_char((n / 1000) as int),
            digit_char(((n / 100) % 10) as int),
        ]);
        assert(decimal_digits(n / 10) == seq![
            digit_char((n / 1000) as int),
            digit_char(((n / 100) % 10) as int),
            digit_char(((n / 10) % 10) as int),
        ]);
        assert(pad_zeros(decimal_digits(n), 4) =~= four_digits(n as int));
    }
}

proof fn lemma_two_digits(n: int)
    requires
        0 <= n < 100,
    ensures
        padded_decimal(n, 2) == two_digits(n),
{
    let n = n as nat;
    reveal_with_fuel(decimal_digits, 2);
    assert(pad_zeros(decimal_digits(n), 2) =~= two_digits(n as int));
}

/// For years 0 to 9999 and months and days 0 to 99 a key is ten characters
/// long, "YYYY-MM-DD": the four digits of the year, a hyphen, the two digits
/// of the month, a hyphen and the two digits of the day. It tells the date:
/// two dates have the same key exactly when they are the same date.
pub proof fn lemma_date_key_identifies_date(y1: int, m1: int, d1: int, y2: int, m2: int, d2: int)
    requires
        0 <= y1 < 10000,
        0 <= m1 < 100,
        0 <= d1 < 100,
        0 <= y2 < 10000,
        0 <= m2 < 100,
        0 <= d2 < 100,
    ensures
        date_key_text(y1, m1, d1).len() == 10,
        date_key_text(y1, m1, d1) == four_digits(y1) + seq!['-'] + two_digits(m1) + seq!['-']
            + two_digits(d1),
        (date_key_text(y1, m1, d1) == date_key_text(y2, m2, d2)) <==> (y1 == y2 && m1 == m2 && d1
            == d2),
{
    lemma_four_digits(y1);
    lemma_four_digits(y2);
    lemma_two_digits(m1);
    lemma_two_digits(m2);
    lemma_two_digits(d1);
    lemma_two_digits(d2);
    let k1 = date_key_text(y1, m1, d1);
    let k2 = date_key_text(y2, m2, d2);
    assert(k1 =~= four_digits(y1) + seq!['-'] + two_digits(m1) + seq!['-'] + two_digits(d1));
    assert(k2 =~= four_digits(y2) + seq!['-'] + two_digits(m2) + seq!['-'] + two_digits(d2));
    if k1 == k2 {
        assert(k1[0] == k2[0] && k1[1] == k2[1] && k1[2] == k2[2] && k1[3] == k2[3]);
        lemma_digit_char_injective(y1 / 1000, y2 / 1000);
        lemma_digit_char_injective((y1 / 100) % 10, (y2 / 100) % 10);
        lemma_digit_char_injective((y1 / 10) % 10, (y2 / 10) % 10);
        lemma_digit_char_injective(y1 % 10, y2 % 10);
        assert(k1[5] == k2[5] && k1[6] == k2[6]);
        lemma_digit_char_injective(m1 / 10, m2 / 10);
        lemma_digit_char_injective(m1 % 10, m2 % 10);
        assert(k1[8] == k2[8] && k1[9] == k2[9]);
        lemma_digit_char_injective(d1 / 10, d2 / 10);
        lemma_digit_char_injective(d1 % 10, d2 % 10);
    }
}

/// `String::push`: appends the character `c` to `s`.
#[verifier::external_body]
fn push_char(s: &mut String, c: char)
    ensures
        final(s)@ == old(s)@.push(c),
{
    s.push(c);
}

fn digit(d: u64) -> (r: char)
    requires
        d < 10,
    ensures
        r == digit_char(d as int),
{
    match d {
        0 => '0',
        1 => '1',
        2 => '2',
        3 => '3',
        4 => '4',
        5 => '5',
        6 => '6',
        7 => '7',
        8 => '8',
        _ => '9',
    }
}

fn decimal(n: u64) -> (r: Vec<char>)
    ensures
        r@ == decimal_digits(n as nat),
{
    let mut rest = n;
    let mut low: Vec<char> = Vec::new();
    while rest >= 10
        invariant
            decimal_digits(n as nat) == decimal_digits(rest as nat) + low@,
        decreases rest,
    {
        let ghost before = low@;
        low.insert(0, digit(rest % 10));
        assert(decimal_digits(rest as nat) == decimal_digits((rest / 10) as nat).push(
            digit_char((rest % 10) as int),
        ));
        assert(decimal_digits((rest / 10) as nat).push(digit_char((rest % 10) as int)) + before
            =~= decimal_digits((rest / 10) as nat) + low@);
        rest = rest / 10;
    }
    let mut r: Vec<char> = Vec::new();
    r.push(digit(rest));
    let mut i: usize = 0;
    while i < low.len()
        invariant
            0 <= i <= low@.len(),
            r@ == seq![digit_char(rest as int)] + low@.subrange(0, i as int),
            decimal_digits(n as nat) == decimal_digits(rest as nat) + low@,
            rest < 10,
        decreases low@.len() - i,
    {
        r.push(low[i]);
        assert(low@.subrange(0, i as int + 1) =~= low@.subrange(0, i as int).push(low@[i as int]));
        i = i + 1;
    }
    assert(low@.subrange(0, low@.len() as int) =~= low@);
    r
}

fn push_chars(out: &mut String, s: &Vec<char>)
    ensures
        final(out)@ == old(out)@ + s@,
{
    let mut i: usize = 0;
    while i < s.len()
        invariant
            0 <= i <= s@.len(),
            out@ == old(out)@ + s@.subrange(0, i as int),
        decreases s@.len() - i,
    {
        push_char(out, s[i]);
        assert(s@.subrange(0, i as int + 1) =~= s@.subrange(0, i as int).push(s@[i as int]));
        i = i + 1;
    }
    assert(s@.subrange(0, s@.len() as int) =~= s@);
}

fn push_padded_unsigned(out: &mut String, n: u64, width: usize)
    ensures
        final(out)@ == old(out)@ + pad_zeros(decimal_digits(n as nat), width as int),
{
    let digits = decimal(n);
    let mut zeros: usize = 0;
    if digits.len() < width {
        while zeros < width - digits.len()
            invariant
                digits.len() < width,
                zeros <= width - digits@.len(),
                out@ == old(out)@ + Seq::new(zeros as nat, |i: int| '0'),
            decreases width - digits@.len() - zeros,
        {
            push_char(out, '0');
            assert(Seq::new((zeros + 1) as nat, |i: int| '0') =~= Seq::new(
                zeros as nat,
                |i: int| '0',
            ).push('0'));
            zeros = zeros + 1;
        }
    }
    let ghost before = out@;
    push_chars(out, &digits);
    if digits.len() < width {
        assert(out@ =~= old(out)@ + pad_zeros(decimal_digits(n as nat), width as int));
    } else {
        assert(Seq::new(0, |i: int| '0') =~= Seq::<char>::empty());
        assert(out@ =~= old(out)@ + pad_zeros(decimal_digits(n as nat), width as int));
    }
}

fn push_padded_signed(out: &mut String, n: i64, width: usize)
    requires
        width >= 1,
    ensures
        final(out)@ == old(out)@ + padded_decimal(n as int, width as int),
{
    if n < 0 {
        push_char(out, '-');
        let magnitude: u64 = (-(n + 1)) as u64 + 1;
        push_padded_unsigned(out, magnitude, width - 1);
        assert(out@ =~= old(out)@ + padded_decimal(n as int, width as int));
    } else {
        push_padded_unsigned(out, n as u64, width);
    }
}

/// The key "YYYY-MM-DD" of a date, as `format!("{:04}-{:02}-{:02}", year, month, day)`
/// prints it.
pub fn date_key(year: isize, month: usize, day: usize) -> (r: String)
    ensures
        r@ == date_key_text(year as int, month as int, day as int),
{
    let mut s = String::new();
    push_padded_signed(&mut s, year as i64, 4);
    push_char(&mut s, '-');
    push_padded_unsigned(&mut s, month as u64, 2);
    push_char(&mut s, '-');
    push_padded_unsigned(&mut s, day as u64, 2);
    s
}

/// The key "YYYY-MM-DD" of a date given as the interface's 32-bit integers,
/// as `format!("{:04}-{:02}-{:02}", year, month, day)` prints them.
pub fn date_key_i32(year: i32, month: i32, day: i32) -> (r: String)
    ensures
        r@ == date_key_text(year as int, month as int, day as int),
{
    let mut s = String::new();
    push_padded_signed(&mut s, year as i64, 4);
    push_char(&mut s, '-');
    push_padded_signed(&mut s, month as i64, 2);
    push_char(&mut s, '-');
    push_padded_signed(&mut s, day as i64, 2);
    s
}

} // verus!
