//! Natural numbers spelled as bytes, most significant byte first.
//!
//! A key's numbers are far too large for a machine integer, so they are
//! held as byte strings. Leading zero bytes do not change the number that
//! a string spells: contracts speak of the number, never of the spelling.

use vstd::prelude::*;

verus! {

/// The number that `s` spells, most significant byte first. The empty
/// string spells zero.
pub open spec fn be_value(s: Seq<u8>) -> nat
    decreases s.len(),
{
    if s.len() == 0 {
        0
    } else {
        be_value(s.drop_last()) * 256 + s.last() as nat
    }
}

/// The number of bytes in the shortest spelling of `n`. Zero takes none.
pub open spec fn byte_len(n: nat) -> nat
    decreases n,
{
    if n == 0 {
        0
    } else {
        1 + byte_len(n / 256)
    }
}

/// The number of bits in the shortest binary spelling of `n`. Zero takes
/// none.
pub open spec fn bit_len(n: nat) -> nat
    decreases n,
{
    if n == 0 {
        0
    } else {
        1 + bit_len(n / 2)
    }
}

/// A spelling is minimal when it does not start with a zero byte.
pub open spec fn is_minimal(s: Seq<u8>) -> bool {
    s.len() > 0 ==> s[0] != 0
}

/// A leading zero byte can be dropped without changing the number.
pub proof fn lemma_leading_zero(s: Seq<u8>)
    requires
        s.len() > 0,
        s[0] == 0,
    ensures
        be_value(s) == be_value(s.skip(1)),
    decreases s.len(),
{
    if s.len() == 1 {
        assert(be_value(s.drop_last()) == 0);
    } else {
        lemma_leading_zero(s.drop_last());
        assert(s.skip(1).drop_last() =~= s.drop_last().skip(1));
    }
}

/// A minimal spelling is as long as the number it spells says.
pub proof fn lemma_minimal_len(s: Seq<u8>)
    requires
        is_minimal(s),
    ensures
        byte_len(be_value(s)) == s.len(),
    decreases s.len(),
{
    if s.len() == 0 {
    } else if s.len() == 1 {
        assert(be_value(s.drop_last()) == 0);
        assert(byte_len(0) == 0);
    } else {
        lemma_minimal_len(s.drop_last());
    }
}

/// Two spellings of one length spell the same number only if they are the
/// same string.
pub proof fn lemma_same_len_same_value(a: Seq<u8>, b: Seq<u8>)
    requires
        a.len() == b.len(),
        be_value(a) == be_value(b),
    ensures
        a == b,
    decreases a.len(),
{
    if a.len() > 0 {
        lemma_same_len_same_value(a.drop_last(), b.drop_last());
        assert(a =~= a.drop_last().push(a.last()));
        assert(b =~= b.drop_last().push(b.last()));
    }
}

/// Two minimal spellings spell the same number exactly when they are the
/// same string.
pub proof fn lemma_minimal_unique(a: Seq<u8>, b: Seq<u8>)
    requires
        is_minimal(a),
        is_minimal(b),
    ensures
        be_value(a) == be_value(b) <==> a == b,
{
    if be_value(a) == be_value(b) {
        lemma_minimal_len(a);
        lemma_minimal_len(b);
        lemma_same_len_same_value(a, b);
    }
}

/// A number below 256 that is not zero has from one to eight bits.
proof fn lemma_bit_len_of_a_byte(n: nat)
    requires
        0 < n < 256,
    ensures
        1 <= bit_len(n) <= 8,
{
    reveal_with_fuel(bit_len, 10);
}

/// Eight bits more make one byte more.
proof fn lemma_bit_len_shift_byte(n: nat)
    requires
        n >= 256,
    ensures
        bit_len(n) == 8 + bit_len(n / 256),
{
    reveal_with_fuel(bit_len, 9);
}

/// Bits are counted in whole bytes, rounded up: the `(bits + 7) / 8` of
/// the usual definition of a modulus' size.
pub proof fn lemma_byte_len_from_bits(n: nat)
    ensures
        byte_len(n) == (bit_len(n) + 7) / 8,
    decreases n,
{
    if n == 0 {
    } else if n < 256 {
        lemma_bit_len_of_a_byte(n);
        assert(byte_len(n / 256) == 0);
    } else {
        lemma_bit_len_shift_byte(n);
        lemma_byte_len_from_bits(n / 256);
    }
}

/// The number of zero bytes that `a` starts with.
fn leading_zeros(a: &[u8]) -> (k: usize)
    ensures
        k <= a@.len(),
        is_minimal(a@.skip(k as int)),
        be_value(a@.skip(k as int)) == be_value(a@),
{
    let mut k: usize = 0;
    assert(a@.skip(0) =~= a@);
    while k < a.len() && a[k] == 0
        invariant
            k <= a@.len(),
            be_value(a@.skip(k as int)) == be_value(a@),
        decreases a@.len() - k,
    {
        proof {
            lemma_leading_zero(a@.skip(k as int));
            assert(a@.skip(k as int).skip(1) =~= a@.skip(k + 1));
        }
        k += 1;
    }
    k
}

/// The number of bytes that the number spelled by `a` takes at least:
/// the length of `a` without its leading zero bytes.
pub fn significant_len(a: &[u8]) -> (r: usize)
    ensures
        r == byte_len(be_value(a@)),
{
    let k = leading_zeros(a);
    proof {
        lemma_minimal_len(a@.skip(k as int));
    }
    a.len() - k
}

/// Whether `a` and `b` spell the same number. Leading zero bytes on
/// either side make no difference.
#[verifier::loop_isolation(false)]
pub fn same_number(a: &[u8], b: &[u8]) -> (r: bool)
    ensures
        r == (be_value(a@) == be_value(b@)),
{
    let i = leading_zeros(a);
    let j = leading_zeros(b);
    let ghost ta = a@.skip(i as int);
    let ghost tb = b@.skip(j as int);
    proof {
        lemma_minimal_unique(ta, tb);
    }
    if a.len() - i != b.len() - j {
        return false;
    }
    let n = a.len() - i;
    let mut k: usize = 0;
    while k < n
        invariant
            k <= n,
            forall|m: int| 0 <= m < k ==> ta[m] == tb[m],
        decreases n - k,
    {
        if a[i + k] != b[j + k] {
            assert(ta[k as int] != tb[k as int]);
            return false;
        }
        k += 1;
    }
    assert(ta =~= tb);
    true
}

} // verus!
