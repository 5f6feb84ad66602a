//! The bytes that the driver writes to the sensor for a command.
use vstd::prelude::*;
use crate::Command;
use crate::crc::{crc8, crc8_spec, word_is_valid};

verus! {

/// The most argument bytes a command may carry: the transmit buffer holds the
/// two command bytes and four argument words with their checksums.
pub const MAX_ARGS: usize = 8;

/// A 16-bit value in big-endian byte order.
pub open spec fn be_bytes(v: u16) -> Seq<u8> {
    seq![(v / 256) as u8, (v % 256) as u8]
}

/// The value of a big-endian byte pair.
pub open spec fn be_value(hi: u8, lo: u8) -> u16 {
    (hi * 256 + lo) as u16
}

/// Argument bytes as sent on the bus: every pair of bytes followed by its
/// CRC-8 checksum.
pub open spec fn framed_args(args: Seq<u8>) -> Seq<u8>
    decreases args.len(),
{
    if args.len() < 2 {
        seq![]
    } else {
        let n = args.len() as int;
        framed_args(args.subrange(0, n - 2)) + seq![
            args[n - 2],
            args[n - 1],
            crc8_spec(args.subrange(n - 2, n)),
        ]
    }
}

/// The whole frame for `cmd` with argument bytes `args`.
pub open spec fn frame_of(cmd: Command, args: Seq<u8>) -> Seq<u8> {
    be_bytes(cmd.code()) + framed_args(args)
}

/// The big-endian bytes of a 16-bit value (`u16::to_be_bytes`).
pub fn u16_to_be_bytes(v: u16) -> (bytes: [u8; 2])
    ensures
        bytes@ == be_bytes(v),
{
    let hi = (v >> 8u16) as u8;
    let lo = (v & 0xffu16) as u8;
    assert(hi == v / 256) by (bit_vector)
        requires
            hi == (v >> 8u16) as u8,
    ;
    assert(lo == v % 256) by (bit_vector)
        requires
            lo == (v & 0xffu16) as u8,
    ;
    let bytes: [u8; 2] = [hi, lo];
    assert(bytes@ =~= be_bytes(v));
    bytes
}

/// The value of two big-endian bytes (`u16::from_be_bytes`).
pub fn u16_from_be_bytes(hi: u8, lo: u8) -> (v: u16)
    ensures
        v == be_value(hi, lo),
        v == hi * 256 + lo,
{
    assert(hi * 256 + lo <= 0xffff) by (nonlinear_arith)
        requires
            hi <= 0xff,
            lo <= 0xff,
    ;
    let v: u16 = (hi as u16) * 256 + (lo as u16);
    v
}

/// The frame of a command without arguments: its code in big-endian order.
pub fn command_frame(cmd: Command) -> (frame: Vec<u8>)
    ensures
        frame@ == frame_of(cmd, seq![]),
{
    let (code, _delay) = cmd.as_tuple();
    let bytes = u16_to_be_bytes(code);
    let mut frame: Vec<u8> = Vec::new();
    frame.push(bytes[0]);
    frame.push(bytes[1]);
    assert(frame@ =~= frame_of(cmd, seq![]));
    frame
}

/// The frame of a command with arguments: its code in big-endian order, then
/// each pair of argument bytes followed by its CRC-8 checksum.
pub fn command_frame_with_args(cmd: Command, args: &[u8]) -> (frame: Vec<u8>)
    requires
        args@.len() % 2 == 0,
        args@.len() <= MAX_ARGS,
    ensures
        frame@ == frame_of(cmd, args@),
        frame@.len() == 2 + 3 * (args@.len() / 2),
{
    let mut frame = command_frame(cmd);
    let n = args.len();
    let mut i: usize = 0;
    while i < n
        invariant
            n == args@.len(),
            n % 2 == 0,
            n <= MAX_ARGS,
            i % 2 == 0,
            i <= n,
            frame@ == be_bytes(cmd.code()) + framed_args(args@.subrange(0, i as int)),
            frame@.len() == 2 + 3 * (i / 2),
        decreases n - i,
    {
        let pair: [u8; 2] = [args[i], args[i + 1]];
        assert(pair@ =~= args@.subrange(i as int, i + 2));
        let crc = crc8(&pair);
        let ghost prev = frame@;
        frame.push(args[i]);
        frame.push(args[i + 1]);
        frame.push(crc);
        proof {
            let s = args@.subrange(0, i + 2);
            assert(s.subrange(0, i as int) =~= args@.subrange(0, i as int));
            assert(s.subrange(i as int, i + 2) =~= args@.subrange(i as int, i + 2));
            assert(framed_args(s) == framed_args(args@.subrange(0, i as int)) + seq![
                args@[i as int],
                args@[i + 1],
                crc,
            ]);
            assert(frame@ =~= be_bytes(cmd.code()) + framed_args(s));
        }
        i = i + 2;
    }
    assert(args@.subrange(0, n as int) =~= args@);
    frame
}

/// The argument part of a frame is made of three-byte words: the `k`-th
/// carries argument bytes `2k` and `2k + 1` and a checksum that the check
/// applied to words read from the sensor accepts.
pub proof fn law_framed_args_are_valid_words(args: Seq<u8>)
    requires
        args.len() % 2 == 0,
    ensures
        framed_args(args).len() == 3 * (args.len() / 2),
        forall|k: int|
            0 <= k < args.len() / 2 ==> {
                &&& #[trigger] framed_args(args)[3 * k] == args[2 * k]
                &&& framed_args(args)[3 * k + 1] == args[2 * k + 1]
                &&& word_is_valid(framed_args(args).subrange(3 * k, 3 * k + 3))
            },
        forall|k: int|
            0 <= k < args.len() / 2 ==> #[trigger] framed_args(args)[3 * k + 2] == crc8_spec(
                args.subrange(2 * k, 2 * k + 2),
            ),
    decreases args.len(),
{
    if args.len() >= 2 {
        let n = args.len() as int;
        let prefix = args.subrange(0, n - 2);
        law_framed_args_are_valid_words(prefix);
        let f = framed_args(args);
        let fp = framed_args(prefix);
        assert forall|k: int| 0 <= k < args.len() / 2 implies {
            &&& #[trigger] f[3 * k] == args[2 * k]
            &&& f[3 * k + 1] == args[2 * k + 1]
            &&& word_is_valid(f.subrange(3 * k, 3 * k + 3))
        } by {
            if k < n / 2 - 1 {
                assert(fp[3 * k] == prefix[2 * k]);
                assert(f.subrange(3 * k, 3 * k + 3) =~= fp.subrange(3 * k, 3 * k + 3));
            } else {
                assert(3 * k == fp.len());
                assert(f.subrange(3 * k, 3 * k + 3).subrange(0, 2) =~= args.subrange(n - 2, n));
            }
        }
        assert forall|k: int| 0 <= k < args.len() / 2 implies #[trigger] f[3 * k + 2] == crc8_spec(
            args.subrange(2 * k, 2 * k + 2),
        ) by {
            if k < n / 2 - 1 {
                assert(fp[3 * k + 2] == crc8_spec(prefix.subrange(2 * k, 2 * k + 2)));
                assert(prefix.subrange(2 * k, 2 * k + 2) =~= args.subrange(2 * k, 2 * k + 2));
            } else {
                assert(3 * k == fp.len());
            }
        }
    }
}

/// Big-endian order: the first byte is the high byte and the second the low
/// byte, for every 16-bit value; reading them back gives the value again.
pub proof fn law_big_endian_round_trip(v: u16, hi: u8, lo: u8)
    ensures
        be_bytes(v).len() == 2,
        be_bytes(v)[0] * 256 + be_bytes(v)[1] == v,
        be_value(be_bytes(v)[0], be_bytes(v)[1]) == v,
        be_value(hi, lo) as int == hi * 256 + lo,
{
    assert(hi * 256 + lo <= 0xffff) by (nonlinear_arith)
        requires
            hi <= 0xff,
            lo <= 0xff,
    ;
}

} // verus!
