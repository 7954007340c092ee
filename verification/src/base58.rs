//! Base58 text of byte strings (the Bitcoin alphabet), as addresses are
//! written.

use vstd::prelude::*;

verus! {

/// The base58 digit `k` (`0 <= k < 58`): `1`-`9`, `A`-`Z` without `I` and
/// `O`, `a`-`z` without `l`, as bytes.
pub open spec fn base58_char(k: int) -> u8 {
    if k < 9 {
        (49 + k) as u8
    } else if k < 17 {
        (56 + k) as u8
    } else if k < 22 {
        (57 + k) as u8
    } else if k < 33 {
        (58 + k) as u8
    } else if k < 44 {
        (64 + k) as u8
    } else {
        (65 + k) as u8
    }
}

/// The value of a base58 digit character.
pub open spec fn base58_char_value(c: u8) -> int {
    if c <= 57 {
        c - 49
    } else if c <= 72 {
        c - 56
    } else if c <= 78 {
        c - 57
    } else if c <= 90 {
        c - 58
    } else if c <= 107 {
        c - 64
    } else {
        c - 65
    }
}

/// The number that bytes denote read big endian.
pub open spec fn big_endian_value(bytes: Seq<u8>) -> nat
    decreases bytes.len(),
{
    if bytes.len() == 0 {
        0
    } else {
        big_endian_value(bytes.drop_last()) * 256 + bytes.last() as nat
    }
}

/// The number of zero bytes that `bytes` starts with.
pub open spec fn leading_zeros(bytes: Seq<u8>) -> nat
    decreases bytes.len(),
{
    if bytes.len() > 0 && bytes[0] == 0 {
        1 + leading_zeros(bytes.drop_first())
    } else {
        0
    }
}

/// The base-58 digits of `n`, most significant first, with no leading
/// zero digit (none at all for zero).
pub open spec fn base58_digits(n: nat) -> Seq<u8>
    decreases n,
{
    if n == 0 {
        seq![]
    } else {
        base58_digits(n / 58).push(base58_char((n % 58) as int))
    }
}

/// The base58 text of `bytes`: a '1' for each leading zero byte, then the
/// digits of the big-endian value.
pub open spec fn base58(bytes: Seq<u8>) -> Seq<u8> {
    Seq::new(leading_zeros(bytes), |_i: int| base58_char(0)) + base58_digits(big_endian_value(bytes))
}

/// The characters of an address in base58.
pub open spec fn spec_address_text(address: Seq<u8>) -> Seq<char> {
    base58(address).map_values(|b: u8| b as char)
}

/// The number that base58 digits denote.
pub open spec fn base58_value(text: Seq<u8>) -> int
    decreases text.len(),
{
    if text.len() == 0 {
        0
    } else {
        base58_value(text.drop_last()) * 58 + base58_char_value(text.last())
    }
}

/// The number of '1' characters that `text` starts with.
pub open spec fn leading_ones(text: Seq<u8>) -> nat
    decreases text.len(),
{
    if text.len() > 0 && text[0] == base58_char(0) {
        1 + leading_ones(text.drop_first())
    } else {
        0
    }
}

proof fn lemma_digits_value(n: nat)
    ensures
        base58_value(base58_digits(n)) == n,
        n > 0 ==> base58_digits(n).len() > 0 && base58_digits(n)[0] != base58_char(0),
    decreases n,
{
    if n > 0 {
        lemma_digits_value(n / 58);
        let d = base58_digits(n);
        assert(d.drop_last() =~= base58_digits(n / 58));
        assert(base58_char_value(base58_char((n % 58) as int)) == n % 58);
        if n / 58 == 0 {
            assert(d[0] == base58_char((n % 58) as int));
        } else {
            assert(d[0] == base58_digits(n / 58)[0]);
        }
    }
}

proof fn lemma_leading_ones(z: nat, d: Seq<u8>)
    requires
        d.len() > 0 ==> d[0] != base58_char(0),
    ensures
        leading_ones(Seq::new(z, |_i: int| base58_char(0)) + d) == z,
    decreases z,
{
    let t = Seq::new(z, |_i: int| base58_char(0)) + d;
    if z == 0 {
        assert(t =~= d);
    } else {
        assert(t.drop_first() =~= Seq::new((z - 1) as nat, |_i: int| base58_char(0)) + d);
        lemma_leading_ones((z - 1) as nat, d);
    }
}

proof fn lemma_big_endian_injective(a: Seq<u8>, b: Seq<u8>)
    requires
        a.len() == b.len(),
        big_endian_value(a) == big_endian_value(b),
    ensures
        a == b,
    decreases a.len(),
{
    if a.len() > 0 {
        let x = big_endian_value(a.drop_last());
        let y = big_endian_value(b.drop_last());
        assert(x * 256 + a.last() == y * 256 + b.last());
        assert(a.last() == b.last() && x == y) by (nonlinear_arith)
            requires
                x * 256 + a.last() == y * 256 + b.last(),
                0 <= a.last() < 256,
                0 <= b.last() < 256,
                x >= 0,
                y >= 0,
        ;
        lemma_big_endian_injective(a.drop_last(), b.drop_last());
        assert(a =~= a.drop_last().push(a.last()));
        assert(b =~= b.drop_last().push(b.last()));
    } else {
        assert(a =~= b);
    }
}

/// Base58 text determines the bytes it was made from: two byte strings of
/// one length with the same text are equal.
pub proof fn lemma_base58_injective(a: Seq<u8>, b: Seq<u8>)
    requires
        a.len() == b.len(),
        base58(a) == base58(b),
    ensures
        a == b,
{
    let va = big_endian_value(a);
    let vb = big_endian_value(b);
    lemma_digits_value(va);
    lemma_digits_value(vb);
    lemma_leading_ones(leading_zeros(a), base58_digits(va));
    lemma_leading_ones(leading_zeros(b), base58_digits(vb));
    let za = leading_zeros(a);
    assert(leading_zeros(a) == leading_zeros(b));
    assert(base58(a).subrange(za as int, base58(a).len() as int) =~= base58_digits(va));
    assert(base58(b).subrange(za as int, base58(b).len() as int) =~= base58_digits(vb));
    lemma_big_endian_injective(a, b);
}

/// The base58 text of an address determines the address: two addresses
/// with the same text are the same.
pub proof fn lemma_address_text_injective(a: Seq<u8>, b: Seq<u8>)
    requires
        a.len() == b.len(),
        spec_address_text(a) == spec_address_text(b),
    ensures
        a == b,
{
    let ta = base58(a);
    let tb = base58(b);
    assert(ta.len() == spec_address_text(a).len());
    assert forall|i: int| 0 <= i < ta.len() implies ta[i] == tb[i] by {
        assert(spec_address_text(a)[i] == ta[i] as char);
        assert(spec_address_text(b)[i] == tb[i] as char);
    }
    assert(ta =~= tb);
    lemma_base58_injective(a, b);
}

} // verus!
