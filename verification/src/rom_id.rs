//! The address of a 1-wire device: a family code, six bytes of serial
//! number, and a check byte over the first seven.

use vstd::prelude::*;

verus! {

/// The check value after one more bit: the register moves one place to the
/// right, and the generator is mixed in where the bit that leaves differs
/// from the lowest bit of `byte`.
pub open spec fn crc8_shift(crc: u8, byte: u8) -> u8 {
    if (crc ^ byte) & 0x01 != 0 {
        (crc >> 1) ^ 0x8C
    } else {
        crc >> 1
    }
}

/// The check value after the lowest `n` bits of `byte`, lowest first.
pub open spec fn crc8_bits(crc: u8, byte: u8, n: nat) -> u8
    decreases n,
{
    if n == 0 {
        crc
    } else {
        crc8_bits(crc8_shift(crc, byte), byte >> 1, (n - 1) as nat)
    }
}

/// The check value of a byte string: the Dallas/Maxim CRC-8, with the
/// generator x^8 + x^5 + x^4 + 1 taken lowest bit first, starting from zero.
pub open spec fn crc8_of(bytes: Seq<u8>) -> u8
    decreases bytes.len(),
{
    if bytes.len() == 0 {
        0
    } else {
        crc8_bits(crc8_of(bytes.drop_last()), bytes.last(), 8)
    }
}

/// Computes the check value of a byte string.
pub fn crc8(bytes: &[u8]) -> (crc: u8)
    ensures
        crc == crc8_of(bytes@),
{
    let mut crc: u8 = 0;
    let mut i: usize = 0;
    while i < bytes.len()
        invariant
            i <= bytes@.len(),
            crc == crc8_of(bytes@.take(i as int)),
        decreases bytes@.len() - i,
    {
        let byte: u8 = bytes[i];
        let ghost start = crc;
        let mut temp_byte: u8 = byte;
        let mut bit: u8 = 0;
        while bit < 8
            invariant
                bit <= 8,
                crc8_bits(start, byte, 8) == crc8_bits(crc, temp_byte, (8 - bit) as nat),
            decreases 8 - bit,
        {
            let mix: u8 = (crc ^ temp_byte) & 0x01;
            crc = crc >> 1;
            if mix != 0 {
                crc = crc ^ 0x8C;
            }
            temp_byte = temp_byte >> 1;
            bit = bit + 1;
        }
        proof {
            let upto = bytes@.take(i + 1);
            assert(upto.drop_last() =~= bytes@.take(i as int));
            assert(upto.last() == byte);
        }
        i = i + 1;
    }
    assert(bytes@.take(i as int) =~= bytes@);
    crc
}

/// A byte string followed by its check value has the check value zero.
pub proof fn lemma_crc8_closes(bytes: Seq<u8>)
    ensures
        crc8_of(bytes.push(crc8_of(bytes))) == 0,
{
    let c = crc8_of(bytes);
    let all = bytes.push(c);
    assert(all.drop_last() =~= bytes);
    assert(all.last() == c);
    lemma_crc8_same(c);
}

/// A register that holds the byte to come ends at zero.
pub proof fn lemma_crc8_same(c: u8)
    ensures
        crc8_bits(c, c, 8) == 0,
{
    reveal_with_fuel(crc8_bits, 9);
    assert(forall|x: u8| (x ^ x) & 0x01 == 0) by (bit_vector);
    assert(((((((((c >> 1) >> 1) >> 1) >> 1) >> 1) >> 1) >> 1) >> 1) == 0) by (bit_vector);
}

/// The eight bytes of a device address.
#[derive(Clone, Copy, Debug, PartialEq, Eq)]
pub struct RomId(pub [u8; 8]);

/// The eight bytes that `RomId::new` makes of `data`: its first eight bytes;
/// seven bytes with their check value behind them; for anything shorter,
/// zeros.
pub open spec fn rom_bytes(data: Seq<u8>) -> Seq<u8> {
    if data.len() > 7 {
        data.take(8)
    } else if data.len() == 7 {
        data.push(crc8_of(data))
    } else {
        Seq::new(8, |i: int| 0u8)
    }
}

impl RomId {
    /// Makes an address of the first eight bytes of `data`, or of seven
    /// bytes and their check value. Shorter data gives the blank address,
    /// all zeros, which does not pass the check.
    pub fn new(data: &[u8]) -> (rom: RomId)
        ensures
            rom.0@ == rom_bytes(data@),
    {
        let mut rom: [u8; 8] = [0u8; 8];
        if data.len() >= 7 {
            let mut i: usize = 0;
            while i < 7
                invariant
                    i <= 7,
                    data@.len() >= 7,
                    forall|k: int| 0 <= k < i ==> rom@[k] == data@[k],
                decreases 7 - i,
            {
                rom[i] = data[i];
                i = i + 1;
            }
            if data.len() > 7 {
                rom[7] = data[7];
            } else {
                rom[7] = crc8(data);
            }
        }
        assert(rom@ =~= rom_bytes(data@));
        RomId(rom)
    }

    /// The family code: the first byte, which names the kind of chip.
    pub fn family(&self) -> (b: u8)
        ensures
            b == self.0@[0],
    {
        self.0[0]
    }

    /// The serial number: the six bytes between family code and check byte.
    pub fn id(&self) -> (id: [u8; 6])
        ensures
            id@ == self.0@.subrange(1, 7),
    {
        let id: [u8; 6] = [self.0[1], self.0[2], self.0[3], self.0[4], self.0[5], self.0[6]];
        assert(id@ =~= self.0@.subrange(1, 7));
        id
    }

    /// The check byte: the last byte.
    pub fn crc8(&self) -> (b: u8)
        ensures
            b == self.0@[7],
    {
        self.0[7]
    }

    /// True if the check byte fits the seven bytes before it, which is when
    /// the check value of all eight bytes is zero.
    pub fn test_crc8(&self) -> (ok: bool)
        ensures
            ok == (crc8_of(self.0@) == 0),
    {
        crc8(self.0.as_slice()) == 0u8
    }

    /// The check value of the first seven bytes: what the check byte ought
    /// to be.
    pub fn make_crc8(&self) -> (b: u8)
        ensures
            b == crc8_of(self.0@.take(7)),
    {
        let head = vstd::slice::slice_subrange(self.0.as_slice(), 0, 7);
        assert(head@ =~= self.0@.take(7));
        crc8(head)
    }
}

/// An address made of seven bytes passes the check.
pub proof fn lemma_made_rom_passes(data: Seq<u8>)
    requires
        data.len() == 7,
    ensures
        crc8_of(rom_bytes(data)) == 0,
{
    lemma_crc8_closes(data);
}

} // verus!
