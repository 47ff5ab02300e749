use vstd::prelude::*;

use crate::bytes::copy_bytes;

verus! {

/// Value of a big-endian byte string read as an unsigned number.
pub open spec fn be_value(s: Seq<u8>) -> nat
    decreases s.len(),
{
    if s.len() == 0 {
        0
    } else {
        be_value(s.drop_last()) * 256 + s.last() as nat
    }
}

/// Value of the first `k` digits of `s` once it is padded on the left with
/// zeros to `n` digits.
pub open spec fn padded_prefix_value(s: Seq<u8>, n: nat, k: nat) -> nat {
    if k + s.len() <= n {
        0
    } else {
        be_value(s.subrange(0, (k + s.len() - n) as int))
    }
}

/// Digit `k` of `s` once it is padded on the left with zeros to `n` digits.
pub open spec fn padded_digit(s: Seq<u8>, n: nat, k: nat) -> u8 {
    if k + s.len() < n {
        0
    } else {
        s[(k + s.len() - n) as int]
    }
}

proof fn lemma_padded_step(s: Seq<u8>, n: nat, k: nat)
    requires
        s.len() <= n,
        k < n,
    ensures
        padded_prefix_value(s, n, k + 1) == padded_prefix_value(s, n, k) * 256 + padded_digit(
            s,
            n,
            k,
        ) as nat,
{
    if k + 1 + s.len() > n {
        let j = (k + 1 + s.len() - n) as int;
        let p = s.subrange(0, j);
        assert(p.drop_last() =~= s.subrange(0, j - 1));
        assert(be_value(p) == be_value(s.subrange(0, j - 1)) * 256 + s[j - 1] as nat);
        if j == 1 {
            assert(be_value(s.subrange(0, 0)) == 0);
        }
    }
}

/// An unsigned integer of arbitrary precision, held as its big-endian bytes.
#[derive(Debug)]
pub struct BigUint {
    pub bytes: Vec<u8>,
}

impl BigUint {
    pub open spec fn value(&self) -> nat {
        be_value(self.bytes@)
    }

    pub fn zero() -> (r: BigUint)
        ensures
            r.value() == 0,
    {
        BigUint { bytes: Vec::new() }
    }

    /// The number whose big-endian bytes are `bytes`; leading zero bytes are allowed.
    pub fn from_bytes_be(bytes: Vec<u8>) -> (r: BigUint)
        ensures
            r.value() == be_value(bytes@),
    {
        BigUint { bytes }
    }

    /// A copy of this number.
    pub fn duplicate(&self) -> (r: BigUint)
        ensures
            r.bytes@ == self.bytes@,
            r.value() == self.value(),
    {
        BigUint { bytes: copy_bytes(&self.bytes) }
    }

    /// Whether this number is at least `other`.
    pub fn ge(&self, other: &BigUint) -> (r: bool)
        ensures
            r == (self.value() >= other.value()),
    {
        let a = &self.bytes;
        let b = &other.bytes;
        let n: usize = if a.len() >= b.len() { a.len() } else { b.len() };
        let pad_a: usize = n - a.len();
        let pad_b: usize = n - b.len();
        // -1, 0 or 1 as the digits read so far compare
        let mut ord: i8 = 0;
        let mut k: usize = 0;
        while k < n
            invariant
                n == if a@.len() >= b@.len() { a@.len() } else { b@.len() },
                pad_a == n - a@.len(),
                pad_b == n - b@.len(),
                0 <= k <= n,
                ord == 0 ==> padded_prefix_value(a@, n as nat, k as nat) == padded_prefix_value(
                    b@,
                    n as nat,
                    k as nat,
                ),
                ord == -1 ==> padded_prefix_value(a@, n as nat, k as nat) < padded_prefix_value(
                    b@,
                    n as nat,
                    k as nat,
                ),
                ord == 1 ==> padded_prefix_value(a@, n as nat, k as nat) > padded_prefix_value(
                    b@,
                    n as nat,
                    k as nat,
                ),
                ord == -1 || ord == 0 || ord == 1,
            decreases n - k,
        {
            let da: u8 = if k < pad_a { 0 } else { a[k - pad_a] };
            let db: u8 = if k < pad_b { 0 } else { b[k - pad_b] };
            proof {
                lemma_padded_step(a@, n as nat, k as nat);
                lemma_padded_step(b@, n as nat, k as nat);
                let va = padded_prefix_value(a@, n as nat, k as nat);
                let vb = padded_prefix_value(b@, n as nat, k as nat);
                if va < vb {
                    assert(va * 256 + da < vb * 256 + db) by (nonlinear_arith)
                        requires
                            va < vb,
                            da < 256,
                    ;
                }
                if va > vb {
                    assert(va * 256 + da > vb * 256 + db) by (nonlinear_arith)
                        requires
                            va > vb,
                            db < 256,
                    ;
                }
            }
            if ord == 0 {
                if da < db {
                    ord = -1;
                } else if da > db {
                    ord = 1;
                }
            }
            k = k + 1;
        }
        proof {
            assert(a@.subrange(0, a@.len() as int) =~= a@);
            assert(b@.subrange(0, b@.len() as int) =~= b@);
            if a@.len() == 0 {
                assert(padded_prefix_value(a@, n as nat, n as nat) == 0);
            }
            if b@.len() == 0 {
                assert(padded_prefix_value(b@, n as nat, n as nat) == 0);
            }
        }
        ord >= 0
    }
}

} // verus!
