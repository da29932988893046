//! Plain text: decimal numbers and the names that are built from them.

use vstd::arithmetic::div_mod::lemma_div_denominator;
use vstd::arithmetic::power::{lemma_pow_positive, pow};
use vstd::prelude::*;

verus! {

/// The character of a decimal digit.
pub open spec fn digit(d: nat) -> char
    recommends
        d < 10,
{
    (48 + d) as char
}

/// A natural number in decimal notation, without leading zeros.
pub open spec fn decimal(n: nat) -> Seq<char>
    decreases n,
{
    if n < 10 {
        seq![digit(n)]
    } else {
        decimal(n / 10).push(digit(n % 10))
    }
}

/// The prefix, then the two numbers in decimal, with an underscore between them.
pub open spec fn numbered(prefix: Seq<char>, pid: nat, nanos: nat) -> Seq<char> {
    prefix + decimal(pid) + seq!['_'] + decimal(nanos)
}

/// The text of one decimal digit.
fn digit_text(d: u128) -> (text: &'static str)
    requires
        d < 10,
    ensures
        text@ == seq![digit(d as nat)],
{
    proof {
        reveal_strlit("0");
        reveal_strlit("1");
        reveal_strlit("2");
        reveal_strlit("3");
        reveal_strlit("4");
        reveal_strlit("5");
        reveal_strlit("6");
        reveal_strlit("7");
        reveal_strlit("8");
        reveal_strlit("9");
    }
    if d == 0 {
        "0"
    } else if d == 1 {
        "1"
    } else if d == 2 {
        "2"
    } else if d == 3 {
        "3"
    } else if d == 4 {
        "4"
    } else if d == 5 {
        "5"
    } else if d == 6 {
        "6"
    } else if d == 7 {
        "7"
    } else if d == 8 {
        "8"
    } else {
        "9"
    }
}

/// Appends a number in decimal.
pub fn append_decimal(out: &mut String, n: u128)
    ensures
        final(out)@ == old(out)@ + decimal(n as nat),
    decreases n,
{
    if n >= 10 {
        append_decimal(out, n / 10);
    }
    out.append(digit_text(n % 10));
}

/// A name that tells one process and one moment from all others.
pub fn numbered_name(prefix: &str, pid: u32, nanos: u128) -> (name: String)
    ensures
        name@ == numbered(prefix@, pid as nat, nanos as nat),
        name@ == prefix@ + decimal(pid as nat) + "_"@ + decimal(nanos as nat),
{
    let mut name = String::new();
    name.append(prefix);
    append_decimal(&mut name, pid as u128);
    proof {
        reveal_strlit("_");
    }
    name.append("_");
    append_decimal(&mut name, nanos);
    name
}

/// Every character of a decimal number is a digit.
pub proof fn decimal_is_digits(n: nat)
    ensures
        decimal(n).len() > 0,
        forall|i: int| 0 <= i < decimal(n).len() ==> '0' <= #[trigger] decimal(n)[i] <= '9',
    decreases n,
{
    if n >= 10 {
        decimal_is_digits(n / 10);
    }
}

/// The digits of a number are its decimal places, the last digit being that of
/// the ones.
pub proof fn digits_are_the_decimal_places(n: nat, place: nat)
    requires
        place < decimal(n).len(),
    ensures
        decimal(n)[decimal(n).len() - 1 - place] as int == '0' as int + (n as int / pow(10, place))
            % 10,
    decreases n,
{
    reveal(pow);
    decimal_is_digits(n);
    if place > 0 {
        let tens = n / 10;
        let k = (place - 1) as nat;
        decimal_is_digits(tens);
        digits_are_the_decimal_places(tens, k);
        lemma_pow_positive(10, k);
        lemma_div_denominator(n as int, 10, pow(10, k));
        assert(pow(10, place) == 10 * pow(10, k));
        assert(decimal(n)[decimal(n).len() - 1 - place] == decimal(tens)[decimal(tens).len() - 1
            - k]);
    } else {
        assert(pow(10, 0) == 1);
    }
}

/// A number has as many digits as it needs, and no more.
pub proof fn there_are_as_many_digits_as_needed(n: nat)
    ensures
        n < pow(10, decimal(n).len()),
        decimal(n).len() > 1 ==> pow(10, (decimal(n).len() - 1) as nat) <= n,
        decimal(n).len() >= 1,
    decreases n,
{
    reveal_with_fuel(pow, 3);
    if n >= 10 {
        let len = decimal(n / 10).len();
        there_are_as_many_digits_as_needed(n / 10);
        assert(decimal(n).len() == len + 1);
        assert(pow(10, len + 1) == 10 * pow(10, len));
        if len > 1 {
            assert(pow(10, len) == 10 * pow(10, (len - 1) as nat));
        } else {
            assert(pow(10, 1) == 10);
        }
    } else {
        assert(pow(10, 1) == 10);
    }
}

/// Two numbers that are written alike are the same number.
pub proof fn decimal_is_injective(m: nat, n: nat)
    requires
        decimal(m) == decimal(n),
    ensures
        m == n,
    decreases m,
{
    decimal_is_digits(m / 10);
    decimal_is_digits(n / 10);
    assert(decimal(m).last() == digit(m % 10));
    assert(decimal(n).last() == digit(n % 10));
    assert(digit(m % 10) as nat == 48 + m % 10);
    assert(digit(n % 10) as nat == 48 + n % 10);
    if m >= 10 && n >= 10 {
        assert(decimal(m).drop_last() =~= decimal(m / 10));
        assert(decimal(n).drop_last() =~= decimal(n / 10));
        decimal_is_injective(m / 10, n / 10);
    }
}

/// A name is its prefix, the first number, an underscore and the second number,
/// each of them whole.
pub proof fn numbered_holds_all_its_parts(prefix: Seq<char>, pid: nat, nanos: nat)
    ensures
        ({
            let name = numbered(prefix, pid, nanos);
            let start = prefix.len() as int;
            let middle = start + decimal(pid).len();
            &&& name.len() == middle + 1 + decimal(nanos).len()
            &&& name.take(start) == prefix
            &&& name.subrange(start, middle) == decimal(pid)
            &&& name[middle] == '_'
            &&& name.skip(middle + 1) == decimal(nanos)
        }),
{
}

/// Names with the same prefix are alike only where both their numbers are.
pub proof fn numbered_is_injective(
    prefix: Seq<char>,
    pid1: nat,
    nanos1: nat,
    pid2: nat,
    nanos2: nat,
)
    requires
        numbered(prefix, pid1, nanos1) == numbered(prefix, pid2, nanos2),
    ensures
        pid1 == pid2,
        nanos1 == nanos2,
{
    let name1 = numbered(prefix, pid1, nanos1);
    let name2 = numbered(prefix, pid2, nanos2);
    let start = prefix.len() as int;
    let end1 = start + decimal(pid1).len();
    let end2 = start + decimal(pid2).len();
    decimal_is_digits(pid1);
    decimal_is_digits(pid2);
    assert(name1[end1] == '_');
    assert(name2[end2] == '_');
    if end1 < end2 {
        assert(name2[end1] == decimal(pid2)[end1 - start]);
    }
    if end2 < end1 {
        assert(name1[end2] == decimal(pid1)[end2 - start]);
    }
    assert(decimal(pid1) =~= name1.subrange(start, end1));
    assert(decimal(pid2) =~= name2.subrange(start, end2));
    assert(decimal(nanos1) =~= name1.skip(end1 + 1));
    assert(decimal(nanos2) =~= name2.skip(end2 + 1));
    decimal_is_injective(pid1, pid2);
    decimal_is_injective(nanos1, nanos2);
}

} // verus!
