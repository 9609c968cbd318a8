//! Numbers as text: decimal rendering and the reading of a port number.

use vstd::prelude::*;

use crate::text::chars_of;

verus! {

/// The character of a decimal digit.
pub open spec fn digit(d: nat) -> char {
    (48 + d) as char
}

/// A number in decimal, without leading zeros.
pub open spec fn decimal(n: nat) -> Seq<char>
    decreases n,
{
    if n < 10 {
        seq![digit(n)]
    } else {
        decimal(n / 10).push(digit(n % 10))
    }
}

pub open spec fn is_digit(c: char) -> bool {
    '0' <= c <= '9'
}

pub open spec fn all_digits(s: Seq<char>) -> bool {
    forall|i: int| 0 <= i < s.len() ==> is_digit(#[trigger] s[i])
}

/// The number that a sequence of digits writes in decimal.
pub open spec fn digits_value(s: Seq<char>) -> nat
    decreases s.len(),
{
    if s.len() == 0 {
        0
    } else {
        10 * digits_value(s.drop_last()) + (s.last() as nat - 48) as nat
    }
}

/// The text after one optional leading plus sign.
pub open spec fn unsigned_part(s: Seq<char>) -> Seq<char> {
    if s.len() > 0 && s[0] == '+' {
        s.drop_first()
    } else {
        s
    }
}

/// The port that a text names: an optional plus sign, then at least one digit
/// and nothing else, with a value of at most 65535.
pub open spec fn port_value(s: Seq<char>) -> Option<u16> {
    let d = unsigned_part(s);
    if d.len() > 0 && all_digits(d) && digits_value(d) <= u16::MAX {
        Some(digits_value(d) as u16)
    } else {
        None
    }
}

/// Renders a number in decimal.
pub fn decimal_text(n: u128) -> (r: String)
    ensures
        r@ == decimal(n as nat),
    decreases n,
{
    let last: char = (48u8 + (n % 10) as u8) as char;
    if n < 10 {
        let mut s = String::new();
        s.push(last);
        assert(s@ =~= seq![digit(n as nat)]);
        s
    } else {
        let mut s = decimal_text(n / 10);
        s.push(last);
        s
    }
}

proof fn lemma_prefix_value(s: Seq<char>, i: int)
    requires
        0 <= i <= s.len(),
    ensures
        digits_value(s.take(i)) <= digits_value(s),
    decreases s.len(),
{
    if i < s.len() {
        lemma_prefix_value(s.drop_last(), i);
        assert(s.drop_last().take(i) == s.take(i));
    } else {
        assert(s.take(i) == s);
    }
}

/// Reads a port number.
pub fn parse_port(s: &str) -> (r: Option<u16>)
    ensures
        r == port_value(s@),
{
    let v = chars_of(s);
    let start: usize = if v.len() > 0 && v[0] == '+' {
        1
    } else {
        0
    };
    let ghost d = unsigned_part(s@);
    proof {
        assert(d == s@.skip(start as int));
    }
    if v.len() == start {
        return None;
    }
    let mut value: u32 = 0;
    let mut i: usize = start;
    while i < v.len()
        invariant
            v@ == s@,
            start <= i <= v@.len(),
            start <= 1,
            d == s@.skip(start as int),
            d == unsigned_part(s@),
            all_digits(d.take(i - start)),
            value == digits_value(d.take(i - start)),
            value <= u16::MAX,
        decreases v@.len() - i,
    {
        let c = v[i];
        proof {
            assert(c == d[i - start]);
            assert(d.take(i - start + 1).drop_last() == d.take(i - start));
        }
        if c < '0' || c > '9' {
            proof {
                assert(!is_digit(d[i - start]));
            }
            return None;
        }
        value = value * 10 + (c as u32 - 48);
        proof {
            assert(d.take(i - start + 1) == d.take(i - start).push(c));
            lemma_prefix_value(d, i - start + 1);
        }
        if value > 65535 {
            return None;
        }
        i = i + 1;
    }
    proof {
        assert(d.take(d.len() as int) == d);
    }
    Some(value as u16)
}

proof fn lemma_decimal_value(n: nat)
    ensures
        all_digits(decimal(n)),
        decimal(n).len() > 0,
        digits_value(decimal(n)) == n,
    decreases n,
{
    if n < 10 {
        let s = decimal(n);
        assert(s.drop_last() == Seq::<char>::empty());
        assert(digits_value(s.drop_last()) == 0);
    } else {
        lemma_decimal_value(n / 10);
        let s = decimal(n);
        assert(s.drop_last() == decimal(n / 10));
    }
}

/// The decimal text of a number is made of digits.
pub proof fn decimal_is_digits(n: nat)
    ensures
        all_digits(decimal(n)),
        decimal(n).len() > 0,
{
    lemma_decimal_value(n);
}

/// Two numbers have the same decimal text only if they are equal.
pub proof fn decimal_is_injective(a: nat, b: nat)
    requires
        decimal(a) == decimal(b),
    ensures
        a == b,
{
    lemma_decimal_value(a);
    lemma_decimal_value(b);
}

/// A port read back from its decimal text is that port.
pub proof fn port_reads_back(port: u16)
    ensures
        port_value(decimal(port as nat)) == Some(port),
{
    lemma_decimal_value(port as nat);
    let s = decimal(port as nat);
    assert(is_digit(s[0]));
}

/// The decimal text of a number is that of its tens with its ones behind; a
/// number below ten is one character, as far from '0' as the number is from
/// zero.
pub proof fn decimal_is_positional(tens: nat, ones: nat)
    requires
        ones < 10,
    ensures
        tens == 0 ==> decimal(ones).len() == 1 && decimal(ones)[0] as int == '0' as int + ones,
        tens > 0 ==> decimal(10 * tens + ones).drop_last() == decimal(tens) && decimal(
            10 * tens + ones,
        ).last() as int == '0' as int + ones,
{
    if tens > 0 {
        let n = 10 * tens + ones;
        assert(n / 10 == tens && n % 10 == ones);
        assert(decimal(n).drop_last() =~= decimal(tens));
    }
}

/// A port is read from digits that write a number up to 65535, with or without a
/// plus sign in front; a text with any other character in it names no port.
pub proof fn ports_are_read_from_digits(s: Seq<char>, n: nat)
    ensures
        n <= 65535 ==> port_value(decimal(n)) == Some(n as u16) && port_value(
            seq!['+'] + decimal(n),
        ) == Some(n as u16),
        n > 65535 ==> port_value(decimal(n)) is None,
        (exists|i: int|
            0 <= i < s.len() && !('0' <= #[trigger] s[i] <= '9') && (i > 0 || s[i] != '+'))
            ==> port_value(s) is None,
        port_value(Seq::empty()) is None,
        port_value(seq!['+']) is None,
{
    lemma_decimal_value(n);
    let d = decimal(n);
    assert(is_digit(d[0]));
    assert(unsigned_part(d) == d);
    let signed = seq!['+'] + d;
    assert(signed[0] == '+');
    assert(signed.drop_first() =~= d);
    assert(seq!['+'].drop_first() =~= Seq::<char>::empty());
    if exists|i: int|
        0 <= i < s.len() && !('0' <= #[trigger] s[i] <= '9') && (i > 0 || s[i] != '+') {
        let i = choose|i: int|
            0 <= i < s.len() && !('0' <= #[trigger] s[i] <= '9') && (i > 0 || s[i] != '+');
        let u = unsigned_part(s);
        if s[0] == '+' {
            assert(u[i - 1] == s[i]);
            assert(!is_digit(u[i - 1]));
        } else {
            assert(!is_digit(u[i]));
        }
    }
}

} // verus!
