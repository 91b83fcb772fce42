//! RSA keys as plain numbers.

use vstd::prelude::*;
use crate::numbers::{be_value, byte_len, same_number, significant_len};

verus! {

/// The public half of an RSA key. Each number is spelled in bytes, most
/// significant byte first.
#[derive(Clone, Debug)]
pub struct PublicKey {
    /// The modulus.
    pub n: Vec<u8>,
    /// The public exponent.
    pub e: Vec<u8>,
}

/// A whole RSA key. Each number is spelled in bytes, most significant byte
/// first.
#[derive(Clone, Debug)]
pub struct PrivateKey {
    /// The modulus.
    pub n: Vec<u8>,
    /// The public exponent.
    pub e: Vec<u8>,
    /// The private exponent.
    pub d: Vec<u8>,
    /// The prime factors of the modulus.
    pub primes: Vec<Vec<u8>>,
}

/// What a public key is: its two numbers.
pub ghost struct PublicKeyView {
    pub n: nat,
    pub e: nat,
}

/// What a private key is: its numbers, the primes in the order given.
pub ghost struct PrivateKeyView {
    pub n: nat,
    pub e: nat,
    pub d: nat,
    pub primes: Seq<nat>,
}

/// The product of the numbers in `s`; one where there is none.
pub open spec fn product(s: Seq<nat>) -> nat
    decreases s.len(),
{
    if s.len() == 0 {
        1
    } else {
        product(s.drop_last()) * s.last()
    }
}

/// Whether `p` can stand among the primes of a key with the exponents `e`
/// and `d`: it is more than one, and `e * d` leaves one when divided by
/// `p - 1`.
pub open spec fn prime_fits(e: nat, d: nat, p: nat) -> bool {
    p > 1 && (e * d) % ((p - 1) as nat) == 1
}

impl PublicKeyView {
    /// What the `rsa` crate asks of a public key before it works with it:
    /// an odd exponent from 2 to 2^33 - 1, below an odd modulus.
    pub open spec fn accepted(self) -> bool {
        &&& 2 <= self.e <= 0x1_ffff_ffff
        &&& self.e % 2 == 1
        &&& self.e < self.n
        &&& self.n % 2 == 1
    }
}

impl PrivateKeyView {
    /// The public half: the modulus and the public exponent.
    pub open spec fn public_part(self) -> PublicKeyView {
        PublicKeyView { n: self.n, e: self.e }
    }

    /// What the `rsa` crate asks of a private key before it works with
    /// it: at least two primes, a public half that it accepts, primes
    /// that fit the exponents, and the modulus their product. Whether the
    /// primes are prime is not part of it.
    pub open spec fn accepted(self) -> bool {
        &&& self.primes.len() >= 2
        &&& self.public_part().accepted()
        &&& forall|i: int|
            0 <= i < self.primes.len() ==> prime_fits(self.e, self.d, #[trigger] self.primes[i])
        &&& product(self.primes) == self.n
    }
}

impl PrivateKeyView {
    /// Whether the second prime takes over a byte more than the first.
    pub open spec fn second_prime_far_longer(self) -> bool {
        self.primes.len() >= 2 && byte_len(self.primes[1]) > byte_len(self.primes[0]) + 1
    }

    /// The key with its first two primes in each other's place.
    pub open spec fn first_two_swapped(self) -> PrivateKeyView
        recommends
            self.primes.len() >= 2,
    {
        PrivateKeyView {
            n: self.n,
            e: self.e,
            d: self.d,
            primes: self.primes.update(0, self.primes[1]).update(1, self.primes[0]),
        }
    }

    /// The key as it is handed over for decryption: as it stands, but
    /// with the first two primes in each other's place where the second
    /// takes over a byte more than the first. The `rsa` crate's
    /// decryption takes a step for each time that the first prime goes
    /// into the second, and this keeps the steps few.
    pub open spec fn for_decryption(self) -> PrivateKeyView {
        if self.second_prime_far_longer() {
            self.first_two_swapped()
        } else {
            self
        }
    }
}

/// The product of a list does not change when its first two numbers
/// change places.
pub proof fn lemma_product_swap(s: Seq<nat>)
    requires
        s.len() >= 2,
    ensures
        product(s.update(0, s[1]).update(1, s[0])) == product(s),
    decreases s.len(),
{
    let t = s.update(0, s[1]).update(1, s[0]);
    if s.len() == 2 {
        let a = s.drop_last();
        let b = t.drop_last();
        assert(product(a.drop_last()) == 1);
        assert(product(b.drop_last()) == 1);
        assert(a.last() == s[0] && b.last() == s[1]);
        assert(product(a) == product(a.drop_last()) * a.last());
        assert(product(b) == product(b.drop_last()) * b.last());
        assert(product(a) == s[0]) by (nonlinear_arith)
            requires
                product(a) == product(a.drop_last()) * a.last(),
                product(a.drop_last()) == 1,
                a.last() == s[0],
        ;
        assert(product(b) == s[1]) by (nonlinear_arith)
            requires
                product(b) == product(b.drop_last()) * b.last(),
                product(b.drop_last()) == 1,
                b.last() == s[1],
        ;
        assert(s.last() == s[1] && t.last() == s[0]);
        assert(product(s) == s[0] * s[1]);
        assert(product(t) == s[1] * s[0]);
        assert(s[0] * s[1] == s[1] * s[0]) by (nonlinear_arith);
    } else {
        let init = s.drop_last();
        lemma_product_swap(init);
        assert(t.drop_last() =~= init.update(0, init[1]).update(1, init[0]));
    }
}

/// A key is accepted with its first two primes in either order.
pub proof fn lemma_swap_keeps_accepted(key: PrivateKeyView)
    requires
        key.primes.len() >= 2,
    ensures
        key.first_two_swapped().accepted() == key.accepted(),
{
    let swapped = key.first_two_swapped();
    lemma_product_swap(key.primes);
    if key.accepted() {
        assert forall|i: int| 0 <= i < swapped.primes.len() implies prime_fits(
            swapped.e,
            swapped.d,
            #[trigger] swapped.primes[i],
        ) by {
            if i == 0 {
                assert(swapped.primes[i] == key.primes[1]);
            } else if i == 1 {
                assert(swapped.primes[i] == key.primes[0]);
            } else {
                assert(swapped.primes[i] == key.primes[i]);
            }
        }
    }
    if swapped.accepted() {
        assert forall|i: int| 0 <= i < key.primes.len() implies prime_fits(
            key.e,
            key.d,
            #[trigger] key.primes[i],
        ) by {
            if i == 0 {
                assert(key.primes[i] == swapped.primes[1]);
            } else if i == 1 {
                assert(key.primes[i] == swapped.primes[0]);
            } else {
                assert(key.primes[i] == swapped.primes[i]);
            }
        }
    }
}

impl View for PublicKey {
    type V = PublicKeyView;

    open spec fn view(&self) -> PublicKeyView {
        PublicKeyView { n: be_value(self.n@), e: be_value(self.e@) }
    }
}

impl View for PrivateKey {
    type V = PrivateKeyView;

    open spec fn view(&self) -> PrivateKeyView {
        PrivateKeyView {
            n: be_value(self.n@),
            e: be_value(self.e@),
            d: be_value(self.d@),
            primes: Seq::new(self.primes@.len(), |i: int| be_value(self.primes@[i]@)),
        }
    }
}

impl PrivateKey {
    /// The public half of this key.
    pub fn public_key(&self) -> (r: PublicKey)
        ensures
            r@ == self@.public_part(),
    {
        PublicKey { n: self.n.clone(), e: self.e.clone() }
    }

    /// The key as it is handed over for decryption: a copy, with the
    /// first two primes in each other's place where the second takes over
    /// a byte more than the first.
    pub fn for_decryption(&self) -> (r: PrivateKey)
        ensures
            r@ == self@.for_decryption(),
    {
        let swap = self.primes.len() >= 2 && {
            let first = significant_len(self.primes[0].as_slice());
            let second = significant_len(self.primes[1].as_slice());
            second > first && second - first > 1
        };
        let mut primes: Vec<Vec<u8>> = Vec::new();
        let mut i: usize = 0;
        while i < self.primes.len()
            invariant
                i <= self.primes@.len(),
                primes@.len() == i,
                swap ==> self.primes@.len() >= 2,
                forall|j: int|
                    0 <= j < i ==> (#[trigger] primes@[j])@ == self.primes@[if swap && j == 0 {
                        1
                    } else if swap && j == 1 {
                        0
                    } else {
                        j
                    }]@,
            decreases self.primes@.len() - i,
        {
            let from = if swap && i == 0 {
                1
            } else if swap && i == 1 {
                0
            } else {
                i
            };
            primes.push(self.primes[from].clone());
            i += 1;
        }
        let r = PrivateKey { n: self.n.clone(), e: self.e.clone(), d: self.d.clone(), primes };
        assert(r@.primes =~= self@.for_decryption().primes);
        r
    }

    /// Whether `other` is the same key: the same modulus, exponents and
    /// primes, the primes in the same order. How a number is spelled makes
    /// no difference.
    pub fn same_as(&self, other: &PrivateKey) -> (r: bool)
        ensures
            r == (self@ == other@),
    {
        if !same_number(self.n.as_slice(), other.n.as_slice()) {
            return false;
        }
        if !same_number(self.e.as_slice(), other.e.as_slice()) {
            return false;
        }
        if !same_number(self.d.as_slice(), other.d.as_slice()) {
            return false;
        }
        if self.primes.len() != other.primes.len() {
            assert(self@.primes.len() != other@.primes.len());
            return false;
        }
        let mut i: usize = 0;
        while i < self.primes.len()
            invariant
                i <= self.primes@.len(),
                self.primes@.len() == other.primes@.len(),
                forall|j: int| 0 <= j < i ==> self@.primes[j] == other@.primes[j],
            decreases self.primes@.len() - i,
        {
            if !same_number(self.primes[i].as_slice(), other.primes[i].as_slice()) {
                assert(self@.primes[i as int] != other@.primes[i as int]);
                return false;
            }
            i += 1;
        }
        assert(self@.primes =~= other@.primes);
        true
    }
}

} // verus!
