//! Decimal rendering of unsigned integers, as WAT integer literals need it.
use vstd::prelude::*;

verus! {

/// The ASCII code of the decimal digit `d` (`d < 10`).
pub open spec fn ascii_digit(d: nat) -> u8
    recommends
        d < 10,
{
    ('0' as nat + d) as u8
}

/// Whether `b` is the ASCII code of a decimal digit.
pub open spec fn is_ascii_digit(b: u8) -> bool {
    '0' as u8 <= b <= '9' as u8
}

/// The shortest decimal representation of `n`, most significant digit first,
/// as ASCII bytes: `0` is written `"0"`, and no other number has a leading zero.
pub open spec fn decimal(n: nat) -> Seq<u8>
    decreases n,
{
    if n < 10 {
        seq![ascii_digit(n)]
    } else {
        decimal(n / 10).push(ascii_digit(n % 10))
    }
}

/// The number that a string of ASCII decimal digits denotes.
pub open spec fn decimal_value(digits: Seq<u8>) -> nat
    decreases digits.len(),
{
    if digits.len() == 0 {
        0
    } else {
        decimal_value(digits.drop_last()) * 10 + (digits.last() - '0' as u8) as nat
    }
}

/// Reading back what [`decimal`] writes: the rendering of `n` is a non-empty
/// string of decimal digits, without a leading zero unless `n` is zero, that
/// denotes `n` again.
pub proof fn lemma_decimal_reads_back(n: nat)
    ensures
        decimal(n).len() >= 1,
        forall|i: int| 0 <= i < decimal(n).len() ==> is_ascii_digit(#[trigger] decimal(n)[i]),
        decimal(n)[0] == '0' as u8 <==> n == 0,
        decimal_value(decimal(n)) == n,
    decreases n,
{
    if n >= 10 {
        lemma_decimal_reads_back(n / 10);
        let prefix = decimal(n / 10);
        assert(decimal(n).drop_last() =~= prefix);
        assert forall|i: int| 0 <= i < decimal(n).len() implies is_ascii_digit(
            #[trigger] decimal(n)[i],
        ) by {
            if i < prefix.len() {
                assert(decimal(n)[i] == prefix[i]);
            }
        }
        assert((n / 10) * 10 + n % 10 == n) by (nonlinear_arith);
        assert(decimal(n).last() == ascii_digit(n % 10));
        assert(ascii_digit(n % 10) - '0' as u8 == n % 10);
        assert(decimal_value(decimal(n)) == decimal_value(prefix) * 10 + n % 10);
    } else {
        assert(decimal(n).drop_last() =~= Seq::<u8>::empty());
        assert('0' as u8 == 48u8);
        assert(ascii_digit(n) - '0' as u8 == n);
        assert(decimal_value(decimal(n)) == decimal_value(Seq::<u8>::empty()) * 10 + n);
    }
}

/// Appends the decimal representation of `n` to `out`.
pub fn append_decimal(out: &mut Vec<u8>, n: usize)
    ensures
        final(out)@ == old(out)@ + decimal(n as nat),
    decreases n,
{
    if n >= 10 {
        append_decimal(out, n / 10);
    }
    let digit: u8 = (n % 10) as u8;
    out.push(('0' as u8) + digit);
    assert(final(out)@ =~= old(out)@ + decimal(n as nat));
}

/// The decimal representation of `n`, as `format!("{}", n)` writes it.
pub fn usize_to_decimal(n: usize) -> (digits: Vec<u8>)
    ensures
        digits@ == decimal(n as nat),
{
    let mut digits: Vec<u8> = Vec::new();
    append_decimal(&mut digits, n);
    assert(digits@ =~= decimal(n as nat));
    digits
}

} // verus!
