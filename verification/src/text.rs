//! Decimal rendering of numbers and of IPv4 addresses.
use vstd::prelude::*;
use vstd::string::*;
use crate::debug_format::Ipv4Address;

verus! {

/// The character of a decimal digit.
pub open spec fn digit_char(d: nat) -> char {
    (('0' as int) + d) as char
}

/// The decimal digits of a number, most significant first, without leading
/// zeros (zero is `0`).
pub open spec fn decimal(n: nat) -> Seq<char>
    decreases n,
{
    if n < 10 {
        seq![digit_char(n)]
    } else {
        decimal(n / 10).push(digit_char(n % 10))
    }
}

fn digit_str(d: u64) -> (r: &'static str)
    requires
        d < 10,
    ensures
        r@ == seq![digit_char(d as nat)],
{
    proof {
        reveal_strlit("0");
        reveal_strlit("1");
        reveal_strlit("2");
        reveal_strlit("3");
        reveal_strlit("4");
        reveal_strlit("5");
        reveal_strlit("6");
        reveal_strlit("7");
        reveal_strlit("8");
        reveal_strlit("9");
    }
    if d == 0 {
        "0"
    } else if d == 1 {
        "1"
    } else if d == 2 {
        "2"
    } else if d == 3 {
        "3"
    } else if d == 4 {
        "4"
    } else if d == 5 {
        "5"
    } else if d == 6 {
        "6"
    } else if d == 7 {
        "7"
    } else if d == 8 {
        "8"
    } else {
        "9"
    }
}

/// Appends the decimal digits of `n` to `out`.
fn push_decimal(out: &mut String, n: u64)
    ensures
        final(out)@ == old(out)@ + decimal(n as nat),
    decreases n,
{
    if n < 10 {
        out.append(digit_str(n));
    } else {
        push_decimal(out, n / 10);
        out.append(digit_str(n % 10));
        assert(old(out)@ + decimal(n as nat) =~= old(out)@ + decimal((n / 10) as nat) + seq![
            digit_char((n % 10) as nat),
        ]);
    }
}

/// The decimal rendering of a number.
pub fn decimal_string(n: u64) -> (r: String)
    ensures
        r@ == decimal(n as nat),
{
    let mut out = String::new();
    push_decimal(&mut out, n);
    assert(out@ =~= decimal(n as nat));
    out
}

/// An IPv4 address in dotted decimal form.
pub open spec fn dotted(a: Ipv4Address) -> Seq<char> {
    decimal(a.a as nat) + "."@ + decimal(a.b as nat) + "."@ + decimal(a.c as nat) + "."@ + decimal(
        a.d as nat,
    )
}

/// Renders an IPv4 address in dotted decimal form.
pub fn dotted_string(a: Ipv4Address) -> (r: String)
    ensures
        r@ == dotted(a),
{
    let mut out = String::new();
    push_decimal(&mut out, a.a as u64);
    out.append(".");
    push_decimal(&mut out, a.b as u64);
    out.append(".");
    push_decimal(&mut out, a.c as u64);
    out.append(".");
    push_decimal(&mut out, a.d as u64);
    assert(out@ =~= dotted(a));
    out
}

/// Whether a character is white space, as `char::is_whitespace` says: it
/// has Unicode's `White_Space` property.
pub open spec fn is_whitespace(c: char) -> bool {
    let n = c as u32;
    (0x9 <= n && n <= 0xD) || n == 0x20 || n == 0x85 || n == 0xA0 || n == 0x1680 || (0x2000 <= n && n <= 0x200A)
        || n == 0x2028 || n == 0x2029 || n == 0x202F || n == 0x205F || n == 0x3000
}

/// Whether a character is white space.
pub fn is_whitespace_exec(c: char) -> (r: bool)
    ensures
        r == is_whitespace(c),
{
    let n = c as u32;
    (0x9 <= n && n <= 0xD) || n == 0x20 || n == 0x85 || n == 0xA0 || n == 0x1680 || (0x2000 <= n && n <= 0x200A)
        || n == 0x2028 || n == 0x2029 || n == 0x202F || n == 0x205F || n == 0x3000
}

/// A text without its trailing white space, as `str::trim_end` gives it.
pub open spec fn without_trailing_space(s: Seq<char>) -> Seq<char>
    decreases s.len(),
{
    if s.len() > 0 && is_whitespace(s.last()) {
        without_trailing_space(s.drop_last())
    } else {
        s
    }
}

/// A text without its leading white space, as `str::trim_start` gives it.
pub open spec fn without_leading_space(s: Seq<char>) -> Seq<char>
    decreases s.len(),
{
    if s.len() > 0 && is_whitespace(s[0]) {
        without_leading_space(s.drop_first())
    } else {
        s
    }
}

/// Where the text ends once its trailing white space is left out.
pub fn trailing_space_start(s: &str) -> (end: usize)
    ensures
        end <= s@.len(),
        s@.subrange(0, end as int) == without_trailing_space(s@),
{
    let n = s.unicode_len();
    let mut end = n;
    assert(s@.subrange(0, n as int) =~= s@);
    while end > 0 && is_whitespace_exec(s.get_char(end - 1))
        invariant
            end <= n,
            n == s@.len(),
            without_trailing_space(s@.subrange(0, end as int)) == without_trailing_space(s@),
        decreases end,
    {
        assert(s@.subrange(0, end as int).drop_last() =~= s@.subrange(0, end as int - 1));
        end -= 1;
    }
    end
}

/// Where the text starts once its leading white space, before `end`, is left
/// out.
pub fn leading_space_end(s: &str, end: usize) -> (start: usize)
    requires
        end <= s@.len(),
    ensures
        start <= end,
        s@.subrange(start as int, end as int) == without_leading_space(s@.subrange(0, end as int)),
{
    let mut start: usize = 0;
    assert(s@.subrange(0, end as int) =~= s@.subrange(0, end as int));
    while start < end && is_whitespace_exec(s.get_char(start))
        invariant
            start <= end <= s@.len(),
            without_leading_space(s@.subrange(start as int, end as int)) == without_leading_space(
                s@.subrange(0, end as int),
            ),
        decreases end - start,
    {
        assert(s@.subrange(start as int, end as int).drop_first() =~= s@.subrange(start as int + 1, end as int));
        start += 1;
    }
    start
}

} // verus!
