//! Decimal text of unsigned numbers, as bytes and as characters.

use vstd::prelude::*;

verus! {

/// The ASCII code of the decimal digit `d`.
pub open spec fn digit_byte(d: nat) -> u8
    recommends
        d < 10,
{
    (48 + d) as u8
}

/// The decimal digits of `n` in ASCII, most significant first, without
/// leading zeros.
pub open spec fn decimal_bytes(n: nat) -> Seq<u8>
    decreases n,
{
    if n < 10 {
        seq![digit_byte(n)]
    } else {
        decimal_bytes(n / 10).push(digit_byte(n % 10))
    }
}

/// The decimal digits of `n` as characters.
pub open spec fn decimal_text(n: nat) -> Seq<char> {
    decimal_bytes(n).map_values(|b: u8| b as char)
}

/// Ten to the power `k`.
pub open spec fn pow10(k: nat) -> nat
    decreases k,
{
    if k == 0 {
        1
    } else {
        10 * pow10((k - 1) as nat)
    }
}

/// Every number has at least one decimal digit, each digit is an ASCII
/// digit, and a number below ten to the `k` has at most `k` of them.
pub proof fn decimal_bytes_length(n: nat, k: nat)
    requires
        k >= 1,
        n < pow10(k),
    ensures
        1 <= decimal_bytes(n).len() <= k,
        forall|i: int| 0 <= i < decimal_bytes(n).len() ==> 48 <= #[trigger] decimal_bytes(n)[i] <= 57,
    decreases k,
{
    reveal_with_fuel(pow10, 2);
    if n >= 10 {
        decimal_bytes_length(n / 10, (k - 1) as nat);
    }
}

/// A 32-bit number has at most ten decimal digits.
pub proof fn decimal_bytes_of_word(n: u32)
    ensures
        1 <= decimal_bytes(n as nat).len() <= 10,
        forall|i: int|
            0 <= i < decimal_bytes(n as nat).len() ==> 48 <= #[trigger] decimal_bytes(n as nat)[i]
                <= 57,
{
    assert(pow10(10) == 10_000_000_000) by {
        reveal_with_fuel(pow10, 11);
    }
    decimal_bytes_length(n as nat, 10);
}

/// The decimal digits of `n` in ASCII.
pub fn decimal_ascii(n: u32) -> (digits: Vec<u8>)
    ensures
        digits@ == decimal_bytes(n as nat),
{
    let mut buffer: [u8; 10] = [0u8;10];
    let mut start: usize = 10;
    let mut rest: u32 = n;
    proof {
        decimal_bytes_of_word(n);
    }
    while rest >= 10
        invariant
            start <= 10,
            decimal_bytes(n as nat) == decimal_bytes(rest as nat) + buffer@.subrange(
                start as int,
                10,
            ),
            decimal_bytes(n as nat).len() <= 10,
        decreases rest,
    {
        proof {
            decimal_bytes_of_word(rest / 10);
        }
        let digit: u8 = 48 + (rest % 10) as u8;
        start = start - 1;
        buffer[start] = digit;
        proof {
            assert(buffer@.subrange(start as int, 10) =~= seq![digit] + buffer@.subrange(
                start + 1,
                10,
            ));
            assert(decimal_bytes(rest as nat) == decimal_bytes((rest / 10) as nat).push(digit));
            assert(decimal_bytes((rest / 10) as nat).push(digit) + buffer@.subrange(
                start + 1,
                10,
            ) =~= decimal_bytes((rest / 10) as nat) + buffer@.subrange(start as int, 10));
        }
        rest = rest / 10;
    }
    let mut digits: Vec<u8> = Vec::new();
    digits.push(48 + rest as u8);
    assert(digits@ =~= decimal_bytes(rest as nat));
    let mut i: usize = start;
    while i < 10
        invariant
            start <= i <= 10,
            digits@ == decimal_bytes(rest as nat) + buffer@.subrange(start as int, i as int),
        decreases 10 - i,
    {
        digits.push(buffer[i]);
        assert(buffer@.subrange(start as int, i + 1) =~= buffer@.subrange(
            start as int,
            i as int,
        ).push(buffer@[i as int]));
        i += 1;
    }
    digits
}

/// The text of one decimal digit given by its ASCII code.
fn digit_text(code: u8) -> (text: &'static str)
    requires
        48 <= code <= 57,
    ensures
        text@ == seq![code as char],
{
    proof {
        reveal_strlit("0");
        reveal_strlit("1");
        reveal_strlit("2");
        reveal_strlit("3");
        reveal_strlit("4");
        reveal_strlit("5");
        reveal_strlit("6");
        reveal_strlit("7");
        reveal_strlit("8");
        reveal_strlit("9");
    }
    let text = if code == 48 {
        "0"
    } else if code == 49 {
        "1"
    } else if code == 50 {
        "2"
    } else if code == 51 {
        "3"
    } else if code == 52 {
        "4"
    } else if code == 53 {
        "5"
    } else if code == 54 {
        "6"
    } else if code == 55 {
        "7"
    } else if code == 56 {
        "8"
    } else {
        "9"
    };
    assert(text@ =~= seq![code as char]);
    text
}

/// Appends the decimal text of `n` to `out`.
pub fn append_decimal(out: &mut String, n: u32)
    ensures
        final(out)@ == old(out)@ + decimal_text(n as nat),
{
    let digits = decimal_ascii(n);
    proof {
        decimal_bytes_of_word(n);
    }
    let mut i: usize = 0;
    while i < digits.len()
        invariant
            i <= digits.len(),
            digits@ == decimal_bytes(n as nat),
            forall|k: int| 0 <= k < digits@.len() ==> 48 <= #[trigger] digits@[k] <= 57,
            out@ == old(out)@ + decimal_text(n as nat).take(i as int),
        decreases digits.len() - i,
    {
        let code: u8 = digits[i];
        out.append(digit_text(code));
        assert(decimal_text(n as nat).take(i + 1) =~= decimal_text(n as nat).take(i as int).push(
            code as char,
        ));
        assert(old(out)@ + decimal_text(n as nat).take(i as int) + seq![code as char] =~= old(out)@
            + decimal_text(n as nat).take(i + 1));
        i += 1;
    }
    assert(decimal_text(n as nat).take(i as int) =~= decimal_text(n as nat));
}

} // verus!
