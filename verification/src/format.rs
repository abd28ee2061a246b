use vstd::prelude::*;

verus! {

/// The ASCII digit for `d` (0 to 9).
pub open spec fn digit_char(d: int) -> char {
    (48 + d) as char
}

/// The decimal notation of `n`, most significant digit first, without
/// leading zeros ("0" for zero).
pub open spec fn decimal(n: nat) -> Seq<char>
    decreases n,
{
    if n < 10 {
        seq![digit_char(n as int)]
    } else {
        decimal(n / 10).push(digit_char((n % 10) as int))
    }
}

/// The decimal notation of `n` with a leading '-' when it is negative.
pub open spec fn signed_decimal(n: int) -> Seq<char> {
    if n < 0 {
        seq!['-'] + decimal((-n) as nat)
    } else {
        decimal(n as nat)
    }
}

/// `s` preceded by as many `fill` characters as make it `width` long;
/// `s` itself when it is already that long.
pub open spec fn pad_left(s: Seq<char>, width: nat, fill: char) -> Seq<char> {
    if s.len() < width {
        Seq::new((width - s.len()) as nat, |i: int| fill) + s
    } else {
        s
    }
}

/// `s` followed by as many `fill` characters as make it `width` long;
/// `s` itself when it is already that long.
pub open spec fn pad_right(s: Seq<char>, width: nat, fill: char) -> Seq<char> {
    if s.len() < width {
        s + Seq::new((width - s.len()) as nat, |i: int| fill)
    } else {
        s
    }
}

/// The one-character text of the digit `d`.
fn digit_str(d: u64) -> (s: &'static str)
    requires
        d < 10,
    ensures
        s@ == seq![digit_char(d as int)],
{
    proof {
        reveal_strlit("0");
        reveal_strlit("1");
        reveal_strlit("2");
        reveal_strlit("3");
        reveal_strlit("4");
        reveal_strlit("5");
        reveal_strlit("6");
        reveal_strlit("7");
        reveal_strlit("8");
        reveal_strlit("9");
    }
    match d {
        0 => "0",
        1 => "1",
        2 => "2",
        3 => "3",
        4 => "4",
        5 => "5",
        6 => "6",
        7 => "7",
        8 => "8",
        _ => "9",
    }
}

/// Appends the decimal notation of `n` to `s`.
fn append_decimal(s: &mut String, n: u64)
    ensures
        final(s)@ == old(s)@ + decimal(n as nat),
    decreases n,
{
    if n >= 10 {
        append_decimal(s, n / 10);
    }
    s.append(digit_str(n % 10));
    assert(final(s)@ =~= old(s)@ + decimal(n as nat));
}

/// Appends `count` copies of the one-character text `fill` to `s`.
fn append_fill(s: &mut String, fill: &str, count: usize)
    requires
        fill@.len() == 1,
    ensures
        final(s)@ == old(s)@ + Seq::new(count as nat, |i: int| fill@[0]),
{
    let ghost start = s@;
    let mut i: usize = 0;
    while i < count
        invariant
            i <= count,
            fill@.len() == 1,
            s@ == start + Seq::new(i as nat, |j: int| fill@[0]),
        decreases count - i,
    {
        s.append(fill);
        i = i + 1;
        assert(s@ =~= start + Seq::new(i as nat, |j: int| fill@[0]));
    }
}

/// Appends `body` to `s`, preceded by `fill` characters up to `width`.
fn append_padded_left(s: &mut String, body: &str, width: usize, fill: &str)
    requires
        fill@.len() == 1,
    ensures
        final(s)@ == old(s)@ + pad_left(body@, width as nat, fill@[0]),
{
    let len = body.unicode_len();
    if len < width {
        append_fill(s, fill, width - len);
    }
    s.append(body);
    assert(final(s)@ =~= old(s)@ + pad_left(body@, width as nat, fill@[0]));
}

/// Appends `body` to `s`, followed by `fill` characters up to `width`.
fn append_padded_right(s: &mut String, body: &str, width: usize, fill: &str)
    requires
        fill@.len() == 1,
    ensures
        final(s)@ == old(s)@ + pad_right(body@, width as nat, fill@[0]),
{
    let len = body.unicode_len();
    s.append(body);
    if len < width {
        append_fill(s, fill, width - len);
    }
    assert(final(s)@ =~= old(s)@ + pad_right(body@, width as nat, fill@[0]));
}

/// The decimal notation of `n`.
pub fn decimal_string(n: u64) -> (s: String)
    ensures
        s@ == decimal(n as nat),
{
    let mut s = String::new();
    append_decimal(&mut s, n);
    assert(s@ =~= decimal(n as nat));
    s
}

/// The decimal notation of `n`, with a leading '-' when it is negative.
pub fn signed_decimal_string(n: i64) -> (s: String)
    ensures
        s@ == signed_decimal(n as int),
{
    let mut s = String::new();
    if n < 0 {
        proof {
            reveal_strlit("-");
        }
        s.append("-");
        let magnitude: u64 = (0 - (n as i128)) as u64;
        append_decimal(&mut s, magnitude);
    } else {
        append_decimal(&mut s, n as u64);
    }
    assert(s@ =~= signed_decimal(n as int));
    s
}

/// `n` formatted right-aligned in a field of `width` characters, as `{:width$}`
/// formats an unsigned integer; with `zero`, padded with '0' as `{:0width$}` does.
pub fn format_unsigned(n: u64, width: usize, zero: bool) -> (s: String)
    ensures
        s@ == pad_left(decimal(n as nat), width as nat, if zero { '0' } else { ' ' }),
{
    let body = decimal_string(n);
    let mut s = String::new();
    proof {
        reveal_strlit("0");
        reveal_strlit(" ");
    }
    if zero {
        append_padded_left(&mut s, body.as_str(), width, "0");
    } else {
        append_padded_left(&mut s, body.as_str(), width, " ");
    }
    assert(s@ =~= pad_left(decimal(n as nat), width as nat, if zero { '0' } else { ' ' }));
    s
}

/// `n` formatted right-aligned in a field of `width` characters, as `{:width$}`
/// formats a signed integer.
pub fn format_signed(n: i64, width: usize) -> (s: String)
    ensures
        s@ == pad_left(signed_decimal(n as int), width as nat, ' '),
{
    let body = signed_decimal_string(n);
    let mut s = String::new();
    proof {
        reveal_strlit(" ");
    }
    append_padded_left(&mut s, body.as_str(), width, " ");
    assert(s@ =~= pad_left(signed_decimal(n as int), width as nat, ' '));
    s
}

/// `text` left-aligned in a field of `width` characters, as `{:width$}`
/// formats a string.
pub fn format_str(text: &str, width: usize) -> (s: String)
    ensures
        s@ == pad_right(text@, width as nat, ' '),
{
    let mut s = String::new();
    proof {
        reveal_strlit(" ");
    }
    append_padded_right(&mut s, text, width, " ");
    assert(s@ =~= pad_right(text@, width as nat, ' '));
    s
}

/// Numbers below 100 have at most two decimal digits.
pub proof fn lemma_decimal_below_100(n: nat)
    requires
        n < 100,
    ensures
        1 <= decimal(n).len() <= 2,
{
    if n >= 10 {
        assert(decimal(n / 10).len() == 1);
    }
}

/// Padding on the left to `width` gives exactly `width` characters when the
/// text is not longer.
pub proof fn lemma_pad_left_len(s: Seq<char>, width: nat, fill: char)
    requires
        s.len() <= width,
    ensures
        pad_left(s, width, fill).len() == width,
        pad_left(s, width, fill).subrange((width - s.len()) as int, width as int) == s,
{
    assert(pad_left(s, width, fill).subrange((width - s.len()) as int, width as int) =~= s);
}

} // verus!
