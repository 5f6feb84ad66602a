//! The CRC-8 checksum that protects every 16-bit word on the bus.
use vstd::prelude::*;

verus! {

/// The polynomial of Sensirion's CRC-8: x^8 + x^5 + x^4 + 1.
pub const CRC8_POLYNOMIAL: u8 = 0x31;

/// The value the checksum starts from.
pub const CRC8_INIT: u8 = 0xff;

/// One bit of the checksum: shift left, and fold in the polynomial when the
/// top bit falls out.
pub open spec fn crc8_shift(crc: u8) -> u8 {
    if crc & 0x80 != 0 {
        (crc << 1u8) ^ CRC8_POLYNOMIAL
    } else {
        crc << 1u8
    }
}

/// The checksum after one more byte: the byte is xored in and eight bits
/// are shifted through.
pub open spec fn crc8_byte(crc: u8, byte: u8) -> u8 {
    let c = crc ^ byte;
    crc8_shift(crc8_shift(crc8_shift(crc8_shift(crc8_shift(crc8_shift(crc8_shift(crc8_shift(c))))))))
}

/// Sensirion's CRC-8 of `data`: polynomial 0x31, initial value 0xff, bytes
/// taken most significant bit first, no final xor.
pub open spec fn crc8_spec(data: Seq<u8>) -> u8
    decreases data.len(),
{
    if data.len() == 0 {
        CRC8_INIT
    } else {
        crc8_byte(crc8_spec(data.drop_last()), data.last())
    }
}

/// Calls `sensirion_i2c::crc8::calculate`. Trusted: its result is taken to be
/// `crc8_spec` of the bytes passed in, which is what its source computes
/// (start at 0xff; per byte, xor it in and shift eight times, xoring 0x31
/// whenever the top bit was set).
#[verifier::external_body]
pub(crate) fn crc8(data: &[u8]) -> (crc: u8)
    ensures
        crc == crc8_spec(data@),
{
    sensirion_i2c::crc8::calculate(data)
}

/// Whether `word` (two data bytes followed by a checksum byte) carries the
/// checksum of its data bytes.
pub open spec fn word_is_valid(word: Seq<u8>) -> bool {
    word[2] == crc8_spec(word.subrange(0, 2))
}

/// Checks a three-byte word against the checksum `computed` of its first two
/// bytes.
pub fn word_matches(word: &[u8; 3], computed: u8) -> (ok: bool)
    ensures
        ok == (word@[2] == computed),
{
    word[2] == computed
}

/// Checks the CRC byte of a word read from the sensor.
pub fn check_word(word: &[u8; 3]) -> (ok: bool)
    ensures
        ok == word_is_valid(word@),
{
    let data: [u8; 2] = [word[0], word[1]];
    assert(data@ =~= word@.subrange(0, 2));
    let computed = crc8(&data);
    word_matches(word, computed)
}

/// The checksum example of Sensirion's datasheets: the bytes 0xBE 0xEF have
/// checksum 0x92, so the word BE EF 92 passes the check.
pub proof fn lemma_crc8_datasheet_example()
    ensures
        crc8_spec(seq![0xbeu8, 0xefu8]) == 0x92,
        word_is_valid(seq![0xbeu8, 0xefu8, 0x92u8]),
{
    assert(crc8_byte(0xff, 0xbe) == 0x0c) by (bit_vector);
    assert(crc8_byte(0x0c, 0xef) == 0x92) by (bit_vector);
    let one = seq![0xbeu8];
    let two = seq![0xbeu8, 0xefu8];
    assert(one.drop_last() =~= Seq::<u8>::empty());
    assert(crc8_spec(one.drop_last()) == 0xff);
    assert(crc8_spec(one) == 0x0c);
    assert(two.drop_last() =~= one);
    assert(crc8_spec(two) == 0x92);
    assert(seq![0xbeu8, 0xefu8, 0x92u8].subrange(0, 2) =~= seq![0xbeu8, 0xefu8]);
}

} // verus!
