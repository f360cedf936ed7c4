//! Account addresses.

use vstd::prelude::*;

verus! {

/// A 32-byte account address.  It is held as four 64-bit words; word `k`
/// holds bytes `8k .. 8k + 8` in little-endian order.
#[derive(Clone, Copy, PartialEq, Eq, Structural, Debug, Hash)]
pub struct Pubkey {
    pub w0: u64,
    pub w1: u64,
    pub w2: u64,
    pub w3: u64,
}

impl Pubkey {
    pub open spec fn word(self, k: int) -> u64 {
        if k == 0 {
            self.w0
        } else if k == 1 {
            self.w1
        } else if k == 2 {
            self.w2
        } else {
            self.w3
        }
    }

    /// Byte `i` of the address.
    pub open spec fn byte(self, i: int) -> u8 {
        (self.word(i / 8) >> ((8 * (i % 8)) as u64)) as u8
    }

    /// The 32 bytes of the address.
    pub open spec fn bytes(self) -> Seq<u8> {
        Seq::new(32, |i: int| self.byte(i))
    }

    /// The address all of whose bytes are zero (the system program).
    pub open spec fn spec_zero() -> Pubkey {
        Pubkey { w0: 0, w1: 0, w2: 0, w3: 0 }
    }

    pub fn zero() -> (r: Pubkey)
        ensures
            r == Pubkey::spec_zero(),
    {
        Pubkey { w0: 0, w1: 0, w2: 0, w3: 0 }
    }

    /// The 32 bytes of the address, in order.
    pub fn to_bytes(&self) -> (r: Vec<u8>)
        ensures
            r@ == self.bytes(),
    {
        let mut r: Vec<u8> = Vec::new();
        let mut k: usize = 0;
        while k < 4
            invariant
                0 <= k <= 4,
                r@.len() == 8 * k,
                forall|i: int| 0 <= i < r@.len() ==> r@[i] == self.byte(i),
            decreases 4 - k,
        {
            let w: u64 = if k == 0 {
                self.w0
            } else if k == 1 {
                self.w1
            } else if k == 2 {
                self.w2
            } else {
                self.w3
            };
            let mut j: u64 = 0;
            while j < 8
                invariant
                    0 <= k < 4,
                    0 <= j <= 8,
                    w == self.word(k as int),
                    r@.len() == 8 * k + j,
                    forall|i: int| 0 <= i < r@.len() ==> r@[i] == self.byte(i),
                decreases 8 - j,
            {
                let ghost i: int = 8 * k + j;
                assert(i / 8 == k && i % 8 == j) by (nonlinear_arith)
                    requires
                        i == 8 * k + j,
                        0 <= j < 8,
                        0 <= k,
                ;
                r.push((w >> (8 * j)) as u8);
                j = j + 1;
            }
            k = k + 1;
        }
        assert(r@ =~= self.bytes());
        r
    }

    /// The 32 bytes of the address, as an array.
    pub fn to_array(&self) -> (r: [u8; 32])
        ensures
            r@ == self.bytes(),
    {
        let v = self.to_bytes();
        let r = [v[0], v[1], v[2], v[3], v[4], v[5], v[6], v[7], v[8], v[9], v[10], v[11], v[12], v[13], v[14], v[15], v[16], v[17], v[18], v[19], v[20], v[21], v[22], v[23], v[24], v[25], v[26], v[27], v[28], v[29], v[30], v[31]];
        assert(r@ =~= v@);
        r
    }

    /// The address whose bytes are `b`.
    pub fn from_bytes(b: &[u8]) -> (r: Pubkey)
        requires
            b@.len() == 32,
        ensures
            r.bytes() == b@,
    {
        let w0 = word_from_bytes(b[0], b[1], b[2], b[3], b[4], b[5], b[6], b[7]);
        let w1 = word_from_bytes(b[8], b[9], b[10], b[11], b[12], b[13], b[14], b[15]);
        let w2 = word_from_bytes(b[16], b[17], b[18], b[19], b[20], b[21], b[22], b[23]);
        let w3 = word_from_bytes(b[24], b[25], b[26], b[27], b[28], b[29], b[30], b[31]);
        let r = Pubkey { w0, w1, w2, w3 };
        assert forall|i: int| 0 <= i < 32 implies r.byte(i) == b@[i] by {
            let k = i / 8;
            let j = i % 8;
            assert(0 <= k < 4 && 0 <= j < 8 && i == 8 * k + j);
        }
        assert(r.bytes() =~= b@);
        r
    }
}

/// The little-endian word whose bytes are `b0 .. b7`.
fn word_from_bytes(b0: u8, b1: u8, b2: u8, b3: u8, b4: u8, b5: u8, b6: u8, b7: u8) -> (w: u64)
    ensures
        (w >> 0u64) as u8 == b0,
        (w >> 8u64) as u8 == b1,
        (w >> 16u64) as u8 == b2,
        (w >> 24u64) as u8 == b3,
        (w >> 32u64) as u8 == b4,
        (w >> 40u64) as u8 == b5,
        (w >> 48u64) as u8 == b6,
        (w >> 56u64) as u8 == b7,
{
    let w: u64 = (b0 as u64) | ((b1 as u64) << 8u64) | ((b2 as u64) << 16u64) | ((b3 as u64) << 24u64)
        | ((b4 as u64) << 32u64) | ((b5 as u64) << 40u64) | ((b6 as u64) << 48u64) | ((b7 as u64)
        << 56u64);
    assert((w >> 0u64) as u8 == b0 && (w >> 8u64) as u8 == b1 && (w >> 16u64) as u8 == b2 && (w
        >> 24u64) as u8 == b3 && (w >> 32u64) as u8 == b4 && (w >> 40u64) as u8 == b5 && (w
        >> 48u64) as u8 == b6 && (w >> 56u64) as u8 == b7) by (bit_vector)
        requires
            w == (b0 as u64) | ((b1 as u64) << 8u64) | ((b2 as u64) << 16u64) | ((b3 as u64)
                << 24u64) | ((b4 as u64) << 32u64) | ((b5 as u64) << 40u64) | ((b6 as u64)
                << 48u64) | ((b7 as u64) << 56u64),
    ;
    w
}

proof fn lemma_word_from_bytes(a: Pubkey, b: Pubkey, k: int)
    requires
        0 <= k < 4,
        forall|i: int| 8 * k <= i < 8 * k + 8 ==> #[trigger] a.byte(i) == b.byte(i),
    ensures
        a.word(k) == b.word(k),
{
    let w = a.word(k);
    let v = b.word(k);
    assert((w >> 0u64) as u8 == (v >> 0u64) as u8) by {
        let i = 8 * k + 0;
        assert(i / 8 == k && i % 8 == 0);
        assert(a.byte(i) == b.byte(i));
    }
    assert((w >> 8u64) as u8 == (v >> 8u64) as u8) by {
        let i = 8 * k + 1;
        assert(i / 8 == k && i % 8 == 1);
        assert(a.byte(i) == b.byte(i));
    }
    assert((w >> 16u64) as u8 == (v >> 16u64) as u8) by {
        let i = 8 * k + 2;
        assert(i / 8 == k && i % 8 == 2);
        assert(a.byte(i) == b.byte(i));
    }
    assert((w >> 24u64) as u8 == (v >> 24u64) as u8) by {
        let i = 8 * k + 3;
        assert(i / 8 == k && i % 8 == 3);
        assert(a.byte(i) == b.byte(i));
    }
    assert((w >> 32u64) as u8 == (v >> 32u64) as u8) by {
        let i = 8 * k + 4;
        assert(i / 8 == k && i % 8 == 4);
        assert(a.byte(i) == b.byte(i));
    }
    assert((w >> 40u64) as u8 == (v >> 40u64) as u8) by {
        let i = 8 * k + 5;
        assert(i / 8 == k && i % 8 == 5);
        assert(a.byte(i) == b.byte(i));
    }
    assert((w >> 48u64) as u8 == (v >> 48u64) as u8) by {
        let i = 8 * k + 6;
        assert(i / 8 == k && i % 8 == 6);
        assert(a.byte(i) == b.byte(i));
    }
    assert((w >> 56u64) as u8 == (v >> 56u64) as u8) by {
        let i = 8 * k + 7;
        assert(i / 8 == k && i % 8 == 7);
        assert(a.byte(i) == b.byte(i));
    }
    assert(w == v) by (bit_vector)
        requires
            (w >> 0u64) as u8 == (v >> 0u64) as u8,
            (w >> 8u64) as u8 == (v >> 8u64) as u8,
            (w >> 16u64) as u8 == (v >> 16u64) as u8,
            (w >> 24u64) as u8 == (v >> 24u64) as u8,
            (w >> 32u64) as u8 == (v >> 32u64) as u8,
            (w >> 40u64) as u8 == (v >> 40u64) as u8,
            (w >> 48u64) as u8 == (v >> 48u64) as u8,
            (w >> 56u64) as u8 == (v >> 56u64) as u8,
    ;
}

/// An address is its bytes: two addresses with the same bytes are the same,
/// so `from_bytes` gives back the address that `to_bytes` took apart.
pub proof fn law_bytes_determine_key(a: Pubkey, b: Pubkey)
    requires
        a.bytes() == b.bytes(),
    ensures
        a == b,
{
    assert forall|i: int| 0 <= i < 32 implies #[trigger] a.byte(i) == b.byte(i) by {
        assert(a.bytes()[i] == a.byte(i));
        assert(b.bytes()[i] == b.byte(i));
        assert(a.bytes()[i] == b.bytes()[i]);
    }
    lemma_word_from_bytes(a, b, 0);
    lemma_word_from_bytes(a, b, 1);
    lemma_word_from_bytes(a, b, 2);
    lemma_word_from_bytes(a, b, 3);
}

} // verus!
