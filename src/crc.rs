use vstd::prelude::*;

verus! {

/// The initial value for the CRC calculation
pub const CRC8_AUTOSAR_INIT: u8 = 0xff;

/// The polynomial for computing the CRC checksum
pub const CRC8_AUTOSAR_POLY: u8 = 0x2f;

/// The value to XOR the final result with
pub const CRC8_AUTOSAR_XOROUT: u8 = 0xff;

/// One shift/reduce step of the MSB-first register.
pub open spec fn crc8_shift(r: u8) -> u8 {
    if r & 0x80 != 0 {
        ((r << 1u8) ^ CRC8_AUTOSAR_POLY) as u8
    } else {
        (r << 1u8) as u8
    }
}

/// `n` shift/reduce steps applied to the register.
pub open spec fn crc8_shifts(r: u8, n: nat) -> u8
    decreases n,
{
    if n == 0 {
        r
    } else {
        crc8_shift(crc8_shifts(r, (n - 1) as nat))
    }
}

/// The register after folding one byte into it.
pub open spec fn crc8_byte(r: u8, b: u8) -> u8 {
    crc8_shifts(r ^ b, 8)
}

/// The register after folding a byte sequence into it, first byte first.
pub open spec fn crc8_fold(r: u8, data: Seq<u8>) -> u8
    decreases data.len(),
{
    if data.len() == 0 {
        r
    } else {
        crc8_byte(crc8_fold(r, data.drop_last()), data.last())
    }
}

/// The AUTOSAR CRC8 checksum of a byte sequence.
pub open spec fn crc8_autosar(data: Seq<u8>) -> u8 {
    crc8_fold(CRC8_AUTOSAR_INIT, data) ^ CRC8_AUTOSAR_XOROUT
}

/// An incremental checksum engine.
///
/// Its state is described by three spec functions: the state of a fresh
/// instance, the state after absorbing bytes, and the checksum of a state.
pub trait CRC<T>: Sized {
    spec fn initial() -> Self;

    spec fn absorb(&self, data: Seq<u8>) -> Self;

    spec fn checksum(&self) -> T;

    /// Creates a new CRC algorithm and computing instance
    fn new() -> (r: Self)
        ensures
            r == Self::initial(),
    ;

    /// Resets the CRC computing instance as if it were recreated
    fn reset(&mut self)
        ensures
            *final(self) == Self::initial(),
    ;

    /// Update the CRC computing instance with the supplied bytes
    fn update(&mut self, data: &[u8])
        ensures
            *final(self) == old(self).absorb(data@),
    ;

    /// Non-destructively finalize the CRC, apply the last XOR and return
    /// the result; this alters nothing and can be called any number of times
    fn finalize(&self) -> (r: T)
        ensures
            r == self.checksum(),
    ;
}

/// An implementation of the AUTOSAR CRC8 algorithm
pub struct CRC8Autosar {
    pub crc: u8,
}

impl CRC<u8> for CRC8Autosar {
    open spec fn initial() -> Self {
        CRC8Autosar { crc: CRC8_AUTOSAR_INIT }
    }

    open spec fn absorb(&self, data: Seq<u8>) -> Self {
        CRC8Autosar { crc: crc8_fold(self.crc, data) }
    }

    open spec fn checksum(&self) -> u8 {
        self.crc ^ CRC8_AUTOSAR_XOROUT
    }

    fn new() -> (r: Self) {
        CRC8Autosar { crc: CRC8_AUTOSAR_INIT }
    }

    fn reset(&mut self) {
        self.crc = CRC8_AUTOSAR_INIT;
    }

    fn update(&mut self, data: &[u8]) {
        let ghost start = self.crc;
        let mut i: usize = 0;
        while i < data.len()
            invariant
                i <= data@.len(),
                self.crc == crc8_fold(start, data@.subrange(0, i as int)),
            decreases data@.len() - i,
        {
            let ghost before = self.crc;
            self.crc = self.crc ^ data[i];
            let mut k: u8 = 0;
            while k < 8
                invariant
                    k <= 8,
                    self.crc == crc8_shifts(before ^ data@[i as int], k as nat),
                decreases 8 - k,
            {
                if self.crc & 0x80 != 0 {
                    self.crc = (self.crc << 1u8) ^ CRC8_AUTOSAR_POLY;
                } else {
                    self.crc = self.crc << 1u8;
                }
                k = k + 1;
            }
            proof {
                let next = data@.subrange(0, i + 1);
                assert(next.drop_last() =~= data@.subrange(0, i as int));
            }
            i = i + 1;
        }
        proof {
            assert(data@.subrange(0, data@.len() as int) =~= data@);
        }
    }

    fn finalize(&self) -> (r: u8) {
        self.crc ^ CRC8_AUTOSAR_XOROUT
    }
}

/// Feeding bytes in two chunks gives the same register as feeding them in one
/// call: `update(a)` followed by `update(b)` equals `update(a + b)`.
pub proof fn lemma_update_chunked(s: CRC8Autosar, a: Seq<u8>, b: Seq<u8>)
    ensures
        s.absorb(a).absorb(b) == s.absorb(a + b),
{
    lemma_fold_concat(s.crc, a, b);
}

proof fn lemma_fold_concat(r: u8, a: Seq<u8>, b: Seq<u8>)
    ensures
        crc8_fold(crc8_fold(r, a), b) == crc8_fold(r, a + b),
    decreases b.len(),
{
    if b.len() == 0 {
        assert(a + b =~= a);
    } else {
        lemma_fold_concat(r, a, b.drop_last());
        assert((a + b).drop_last() =~= a + b.drop_last());
        assert((a + b).last() == b.last());
    }
}

proof fn lemma_shift_injective(r1: u8, r2: u8)
    requires
        r1 != r2,
    ensures
        crc8_shift(r1) != crc8_shift(r2),
{
    assert(r1 != r2 ==> (if r1 & 0x80 != 0 {
        ((r1 << 1u8) ^ 0x2fu8) as u8
    } else {
        (r1 << 1u8) as u8
    }) != (if r2 & 0x80 != 0 {
        ((r2 << 1u8) ^ 0x2fu8) as u8
    } else {
        (r2 << 1u8) as u8
    })) by (bit_vector);
}

proof fn lemma_shifts_injective(r1: u8, r2: u8, n: nat)
    requires
        r1 != r2,
    ensures
        crc8_shifts(r1, n) != crc8_shifts(r2, n),
    decreases n,
{
    if n > 0 {
        lemma_shifts_injective(r1, r2, (n - 1) as nat);
        lemma_shift_injective(crc8_shifts(r1, (n - 1) as nat), crc8_shifts(r2, (n - 1) as nat));
    }
}

proof fn lemma_byte_injective(r1: u8, b1: u8, r2: u8, b2: u8)
    requires
        r1 ^ b1 != r2 ^ b2,
    ensures
        crc8_byte(r1, b1) != crc8_byte(r2, b2),
{
    lemma_shifts_injective(r1 ^ b1, r2 ^ b2, 8);
}

proof fn lemma_fold_one_change(r: u8, m1: Seq<u8>, m2: Seq<u8>, i: int)
    requires
        m1.len() == m2.len(),
        0 <= i < m1.len(),
        m1[i] != m2[i],
        forall|j: int| 0 <= j < m1.len() && j != i ==> m1[j] == m2[j],
    ensures
        crc8_fold(r, m1) != crc8_fold(r, m2),
    decreases m1.len(),
{
    let x1 = crc8_fold(r, m1.drop_last());
    let x2 = crc8_fold(r, m2.drop_last());
    if i == m1.len() - 1 {
        assert(m1.drop_last() =~= m2.drop_last());
        let (a, b) = (m1.last(), m2.last());
        assert(a != b ==> x1 ^ a != x1 ^ b) by (bit_vector);
        lemma_byte_injective(x1, a, x2, b);
    } else {
        lemma_fold_one_change(r, m1.drop_last(), m2.drop_last(), i);
        let c = m1.last();
        assert(x1 != x2 ==> x1 ^ c != x2 ^ c) by (bit_vector);
        lemma_byte_injective(x1, c, x2, c);
    }
}

/// Changing a message in one byte, in particular flipping any one of its bits,
/// always changes its AUTOSAR CRC8 checksum.
pub proof fn lemma_single_byte_change_detected(m1: Seq<u8>, m2: Seq<u8>, i: int)
    requires
        m1.len() == m2.len(),
        0 <= i < m1.len(),
        m1[i] != m2[i],
        forall|j: int| 0 <= j < m1.len() && j != i ==> m1[j] == m2[j],
    ensures
        crc8_autosar(m1) != crc8_autosar(m2),
{
    lemma_fold_one_change(CRC8_AUTOSAR_INIT, m1, m2, i);
    let (x1, x2) = (crc8_fold(CRC8_AUTOSAR_INIT, m1), crc8_fold(CRC8_AUTOSAR_INIT, m2));
    assert(x1 != x2 ==> x1 ^ 0xffu8 != x2 ^ 0xffu8) by (bit_vector);
}

} // verus!
