use vstd::prelude::*;
use crate::errors::AuctionError;

verus! {

/// A 32-byte account identity (public key or derived address).
#[derive(Clone, Copy, Debug)]
pub struct Address(pub [u8; 32]);

impl View for Address {
    type V = Seq<u8>;

    open spec fn view(&self) -> Seq<u8> {
        self.0@
    }
}

/// The all-zero identity (the system program's), used as the "no bidder" sentinel.
pub open spec fn zero_key() -> Seq<u8> {
    Seq::new(32, |i: int| 0u8)
}

impl Address {
    /// The all-zero identity, which the record uses as "nobody has bid yet".
    pub fn zero() -> (r: Address)
        ensures
            r@ == zero_key(),
    {
        let r = Address([0u8; 32]);
        assert(r@ =~= zero_key());
        r
    }

    /// The 32 bytes as a vector.
    pub fn to_bytes_vec(&self) -> (r: Vec<u8>)
        ensures
            r@ == self@,
    {
        let mut r: Vec<u8> = Vec::new();
        let mut i: usize = 0;
        while i < 32
            invariant
                0 <= i <= 32,
                self@.len() == 32,
                r@ == self@.subrange(0, i as int),
            decreases 32 - i,
        {
            r.push(self.0[i]);
            i = i + 1;
            assert(r@ =~= self@.subrange(0, i as int));
        }
        assert(self@.subrange(0, 32) =~= self@);
        r
    }

    /// Byte-wise comparison of two identities.
    pub fn same_as(&self, other: &Address) -> (r: bool)
        ensures
            r == (self@ == other@),
    {
        let mut i: usize = 0;
        while i < 32
            invariant
                0 <= i <= 32,
                self@.len() == 32,
                other@.len() == 32,
                forall|j: int| 0 <= j < i ==> self@[j] == other@[j],
            decreases 32 - i,
        {
            if self.0[i] != other.0[i] {
                return false;
            }
            i = i + 1;
        }
        assert(self@ =~= other@);
        true
    }
}

/// Little-endian encoding of a signed 64-bit value, as it appears in seeds.
pub open spec fn le_bytes(x: i64) -> Seq<u8> {
    le_digits(x as u64 as nat, 8)
}

/// The low `n` base-256 digits of `v`, least significant first.
pub open spec fn le_digits(v: nat, n: nat) -> Seq<u8>
    decreases n,
{
    if n == 0 {
        Seq::empty()
    } else {
        seq![(v % 256) as u8].add(le_digits(v / 256, (n - 1) as nat))
    }
}

/// `le_digits` yields exactly `n` digits.
pub proof fn lemma_le_digits_len(v: nat, n: nat)
    ensures
        le_digits(v, n).len() == n,
    decreases n,
{
    if n > 0 {
        lemma_le_digits_len(v / 256, (n - 1) as nat);
    }
}

/// Big-endian encoding of a signed 64-bit value.
pub open spec fn be_bytes(x: i64) -> Seq<u8> {
    le_bytes(x).reverse()
}

/// The eight bytes of `x`, least significant first.
pub fn i64_le_bytes(x: i64) -> (r: Vec<u8>)
    ensures
        r@ == le_bytes(x),
        r@.len() == 8,
{
    proof {
        lemma_le_digits_len(x as u64 as nat, 8);
    }
    let mut rest: u64 = x as u64;
    let mut out: Vec<u8> = Vec::new();
    let mut k: usize = 0;
    while k < 8
        invariant
            0 <= k <= 8,
            out@.add(le_digits(rest as nat, (8 - k) as nat)) == le_bytes(x),
        decreases 8 - k,
    {
        proof {
            let tail = le_digits((rest / 256) as nat, (8 - k - 1) as nat);
            assert(le_digits(rest as nat, (8 - k) as nat) == seq![(rest % 256) as u8].add(tail));
            assert(out@.push((rest % 256) as u8).add(tail) =~= out@.add(
                seq![(rest % 256) as u8].add(tail),
            ));
        }
        out.push((rest % 256) as u8);
        rest = rest / 256;
        k = k + 1;
    }
    assert(out@.add(le_digits(rest as nat, 0)) =~= out@);
    out
}

/// The eight bytes of `x`, most significant first.
pub fn i64_be_bytes(x: i64) -> (r: Vec<u8>)
    ensures
        r@ == be_bytes(x),
        r@.len() == 8,
{
    let le = i64_le_bytes(x);
    let mut out: Vec<u8> = Vec::new();
    let mut k: usize = 8;
    while k > 0
        invariant
            0 <= k <= 8,
            le@ == le_bytes(x),
            le@.len() == 8,
            out@ =~= le@.subrange(k as int, 8).reverse(),
        decreases k,
    {
        k = k - 1;
        out.push(le[k]);
        assert(le@.subrange(k as int, 8).reverse() =~= le@.subrange(k as int + 1, 8).reverse().push(
            le@[k as int],
        ));
    }
    assert(le@.subrange(0, 8) =~= le@);
    assert(out@ =~= be_bytes(x));
    out
}

/// Equality of two identities as a `Result`, failing with `PublicKeyMismatch`.
pub fn assert_keys_equal(key1: Address, key2: Address) -> (r: Result<(), AuctionError>)
    ensures
        r is Ok <==> key1@ == key2@,
        r is Err ==> r == Err::<(), AuctionError>(AuctionError::PublicKeyMismatch),
{
    if key1.same_as(&key2) {
        Ok(())
    } else {
        Err(AuctionError::PublicKeyMismatch)
    }
}

} // verus!
