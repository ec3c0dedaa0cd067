//! CRC-32/MPEG-2 and the frame integrity predicate.
//!
//! Polynomial `0x04C11DB7`, seed `0xFFFFFFFF`, no input or output
//! reflection, no final XOR.  The accumulator is updated one byte at a
//! time: the byte is zero-extended and XOR-ed into the accumulator, then
//! the accumulator is shifted 32 times through the polynomial.  This is
//! bit-identical to the STM32 hardware CRC unit fed one byte per word.

use vstd::prelude::*;

verus! {

pub const CRC_INIT: u32 = 0xFFFF_FFFF;
pub const CRC_POLY: u32 = 0x04C1_1DB7;

/// One shift step of the CRC register.
pub open spec fn spec_crc_shift(acc: u32) -> u32 {
    if acc & 0x8000_0000 != 0 {
        (acc << 1) ^ CRC_POLY
    } else {
        acc << 1
    }
}

/// `n` shift steps of the CRC register.
pub open spec fn spec_crc_shift_n(acc: u32, n: nat) -> u32
    decreases n,
{
    if n == 0 {
        acc
    } else {
        spec_crc_shift_n(spec_crc_shift(acc), (n - 1) as nat)
    }
}

/// Absorb one 32-bit word into the accumulator: XOR it in, then shift the
/// register 32 times.
pub open spec fn spec_crc_update(acc: u32, data: u32) -> u32 {
    spec_crc_shift_n(acc ^ data, 32)
}

/// Absorb a byte sequence, starting from accumulator `acc`.
pub open spec fn spec_crc32_from(acc: u32, data: Seq<u8>) -> u32
    decreases data.len(),
{
    if data.len() == 0 {
        acc
    } else {
        spec_crc32_from(spec_crc_update(acc, data[0] as u32), data.drop_first())
    }
}

/// CRC-32/MPEG-2 of a byte sequence.
pub open spec fn spec_crc32(data: Seq<u8>) -> u32 {
    spec_crc32_from(CRC_INIT, data)
}

/// A 32-bit word assembled from four little-endian bytes.
pub open spec fn spec_word_from_le_bytes(b0: u8, b1: u8, b2: u8, b3: u8) -> u32 {
    (b0 as u32) | ((b1 as u32) << 8) | ((b2 as u32) << 16) | ((b3 as u32) << 24)
}

/// The four little-endian bytes of a 32-bit word.
pub open spec fn spec_le_bytes(w: u32) -> Seq<u8> {
    seq![
        (w & 0xff) as u8,
        ((w >> 8) & 0xff) as u8,
        ((w >> 16) & 0xff) as u8,
        ((w >> 24) & 0xff) as u8,
    ]
}

/// A frame passes the integrity check when it is at least six bytes long
/// and the CRC of everything before the trailing four bytes equals those
/// four bytes read little-endian.
pub open spec fn spec_frame_crc_ok(f: Seq<u8>) -> bool {
    &&& f.len() >= 6
    &&& spec_crc32(f.take(f.len() - 4)) == spec_word_from_le_bytes(
        f[f.len() - 4],
        f[f.len() - 3],
        f[f.len() - 2],
        f[f.len() - 1],
    )
}

/// Appending one shift step commutes with the iterated shift.
proof fn lemma_crc_shift_n_snoc(acc: u32, n: nat)
    ensures
        spec_crc_shift_n(acc, n + 1) == spec_crc_shift(spec_crc_shift_n(acc, n)),
    decreases n,
{
    assert(spec_crc_shift_n(acc, n + 1) == spec_crc_shift_n(spec_crc_shift(acc), n));
    if n == 0 {
        assert(spec_crc_shift_n(spec_crc_shift(acc), 0) == spec_crc_shift(acc));
    } else {
        lemma_crc_shift_n_snoc(spec_crc_shift(acc), (n - 1) as nat);
        assert(spec_crc_shift_n(acc, n) == spec_crc_shift_n(spec_crc_shift(acc), (n - 1) as nat));
    }
}

/// Assemble a 32-bit word from four little-endian bytes.
pub fn word_from_le_bytes(b0: u8, b1: u8, b2: u8, b3: u8) -> (r: u32)
    ensures
        r == spec_word_from_le_bytes(b0, b1, b2, b3),
{
    (b0 as u32) | ((b1 as u32) << 8u32) | ((b2 as u32) << 16u32) | ((b3 as u32) << 24u32)
}

/// Absorb one word into the CRC accumulator.
pub fn accumulate_word_crc(crc: u32, data: u32) -> (r: u32)
    ensures
        r == spec_crc_update(crc, data),
{
    let start: u32 = crc ^ data;
    let mut acc: u32 = start;
    let mut i: u32 = 0;
    while i < 32
        invariant
            i <= 32,
            acc == spec_crc_shift_n(start, i as nat),
        decreases 32 - i,
    {
        proof {
            lemma_crc_shift_n_snoc(start, i as nat);
        }
        if acc & 0x8000_0000 != 0 {
            acc = (acc << 1u32) ^ CRC_POLY;
        } else {
            acc = acc << 1u32;
        }
        i = i + 1;
    }
    acc
}

/// CRC-32/MPEG-2 over a byte slice, fed one byte at a time.
pub fn calculate_crc(data: &[u8]) -> (r: u32)
    ensures
        r == spec_crc32(data@),
{
    let ghost whole: Seq<u8> = data@;
    let mut crc_value: u32 = CRC_INIT;
    let mut i: usize = 0;
    proof {
        assert(whole.skip(0) =~= whole);
    }
    while i < data.len()
        invariant
            i <= data.len(),
            whole == data@,
            spec_crc32_from(crc_value, whole.skip(i as int)) == spec_crc32(whole),
        decreases data.len() - i,
    {
        proof {
            let rest = whole.skip(i as int);
            assert(rest[0] == whole[i as int]);
            assert(rest.drop_first() =~= whole.skip(i as int + 1));
        }
        crc_value = accumulate_word_crc(crc_value, data[i] as u32);
        i = i + 1;
    }
    proof {
        assert(whole.skip(data.len() as int) =~= Seq::<u8>::empty());
    }
    crc_value
}

/// Verify the CRC of a full protocol frame; any frame shorter than six
/// bytes fails.
pub fn verify_frame_crc(frame: &[u8]) -> (r: bool)
    ensures
        r == spec_frame_crc_ok(frame@),
{
    if frame.len() < 6 {
        return false;
    }
    let data_len: usize = frame.len() - 4;
    let expected = word_from_le_bytes(
        frame[data_len],
        frame[data_len + 1],
        frame[data_len + 2],
        frame[data_len + 3],
    );
    let data = vstd::slice::slice_subrange(frame, 0, data_len);
    proof {
        assert(data@ =~= frame@.take(frame@.len() - 4));
    }
    let computed = calculate_crc(data);
    computed == expected
}

/// A complete frame as the host builds it: a length byte counting
/// everything after itself, the command byte, the payload, and the CRC of
/// all preceding bytes appended little-endian.
pub open spec fn spec_build_frame(command: u8, payload: Seq<u8>) -> Seq<u8> {
    let body = seq![(payload.len() + 5) as u8, command] + payload;
    body + spec_le_bytes(spec_crc32(body))
}

/// Build a frame around `payload` the way the host tool does.  The payload
/// is capped at 194 bytes so that the whole frame stays within the 200-byte
/// frame limit.
pub fn build_frame(command: u8, payload: &[u8]) -> (r: Vec<u8>)
    requires
        payload@.len() <= 194,
    ensures
        r@ == spec_build_frame(command, payload@),
{
    let mut v: Vec<u8> = Vec::new();
    v.push((payload.len() + 5) as u8);
    v.push(command);
    let mut i: usize = 0;
    while i < payload.len()
        invariant
            i <= payload.len(),
            payload@.len() <= 194,
            v@ == seq![(payload@.len() + 5) as u8, command] + payload@.take(i as int),
        decreases payload.len() - i,
    {
        v.push(payload[i]);
        proof {
            assert(seq![(payload@.len() + 5) as u8, command] + payload@.take(i as int + 1)
                =~= (seq![(payload@.len() + 5) as u8, command] + payload@.take(i as int)).push(
                payload@[i as int]));
        }
        i = i + 1;
    }
    proof {
        assert(payload@.take(payload@.len() as int) =~= payload@);
    }
    let crc = calculate_crc(v.as_slice());
    v.push((crc & 0xff) as u8);
    v.push(((crc >> 8u32) & 0xff) as u8);
    v.push(((crc >> 16u32) & 0xff) as u8);
    v.push(((crc >> 24u32) & 0xff) as u8);
    proof {
        let body = seq![(payload@.len() + 5) as u8, command] + payload@;
        assert(v@ =~= body + spec_le_bytes(spec_crc32(body)));
    }
    v
}

/// Splitting the input anywhere and feeding the two halves in turn gives
/// the same CRC as feeding the whole input at once.
pub proof fn lemma_crc32_streaming(acc: u32, a: Seq<u8>, b: Seq<u8>)
    ensures
        spec_crc32_from(acc, a + b) == spec_crc32_from(spec_crc32_from(acc, a), b),
    decreases a.len(),
{
    if a.len() == 0 {
        assert(a + b =~= b);
    } else {
        assert((a + b)[0] == a[0]);
        assert((a + b).drop_first() =~= a.drop_first() + b);
        lemma_crc32_streaming(spec_crc_update(acc, a[0] as u32), a.drop_first(), b);
    }
}

/// A frame assembled by `spec_build_frame` always passes the integrity
/// check.
pub proof fn lemma_build_frame_verifies(command: u8, payload: Seq<u8>)
    requires
        payload.len() <= 194,
    ensures
        spec_frame_crc_ok(spec_build_frame(command, payload)),
{
    let body = seq![(payload.len() + 5) as u8, command] + payload;
    let w = spec_crc32(body);
    let f = spec_build_frame(command, payload);
    assert(f.len() == body.len() + 4);
    assert(f.take(f.len() - 4) =~= body);
    assert(f[f.len() - 4] == (w & 0xff) as u8);
    assert(f[f.len() - 3] == ((w >> 8) & 0xff) as u8);
    assert(f[f.len() - 2] == ((w >> 16) & 0xff) as u8);
    assert(f[f.len() - 1] == ((w >> 24) & 0xff) as u8);
    assert(spec_word_from_le_bytes(
        (w & 0xff) as u8,
        ((w >> 8) & 0xff) as u8,
        ((w >> 16) & 0xff) as u8,
        ((w >> 24) & 0xff) as u8,
    ) == w) by (bit_vector);
}

/// One shift step of the CRC register is injective: the polynomial is odd,
/// so the dropped high bit survives as the low bit of the result.
proof fn lemma_crc_shift_injective(a: u32, b: u32)
    requires
        spec_crc_shift(a) == spec_crc_shift(b),
    ensures
        a == b,
{
    let ma = a & 0x8000_0000 != 0;
    let mb = b & 0x8000_0000 != 0;
    if ma && mb {
        assert((a << 1) ^ CRC_POLY == (b << 1) ^ CRC_POLY && a & 0x8000_0000 != 0 && b
            & 0x8000_0000 != 0 ==> a == b) by (bit_vector);
    } else if !ma && !mb {
        assert(a << 1 == b << 1 && a & 0x8000_0000 == 0 && b & 0x8000_0000 == 0 ==> a == b)
            by (bit_vector);
    } else if ma && !mb {
        assert(((a << 1) ^ CRC_POLY) != (b << 1)) by (bit_vector);
    } else {
        assert(((b << 1) ^ CRC_POLY) != (a << 1)) by (bit_vector);
    }
}

/// Iterating an injective step stays injective.
proof fn lemma_crc_shift_n_injective(a: u32, b: u32, n: nat)
    requires
        spec_crc_shift_n(a, n) == spec_crc_shift_n(b, n),
    ensures
        a == b,
    decreases n,
{
    if n > 0 {
        lemma_crc_shift_n_injective(spec_crc_shift(a), spec_crc_shift(b), (n - 1) as nat);
        lemma_crc_shift_injective(a, b);
    }
}

/// Two absorptions whose XOR-ed inputs differ produce different
/// accumulators.
proof fn lemma_crc_update_injective(a1: u32, d1: u32, a2: u32, d2: u32)
    requires
        a1 ^ d1 != a2 ^ d2,
    ensures
        spec_crc_update(a1, d1) != spec_crc_update(a2, d2),
{
    if spec_crc_update(a1, d1) == spec_crc_update(a2, d2) {
        lemma_crc_shift_n_injective(a1 ^ d1, a2 ^ d2, 32);
    }
}

/// Different accumulators stay different through any common tail.
proof fn lemma_crc32_from_injective_acc(a1: u32, a2: u32, s: Seq<u8>)
    requires
        a1 != a2,
    ensures
        spec_crc32_from(a1, s) != spec_crc32_from(a2, s),
    decreases s.len(),
{
    if s.len() > 0 {
        let d = s[0] as u32;
        assert(a1 ^ d != a2 ^ d) by (bit_vector)
            requires
                a1 != a2,
        ;
        lemma_crc_update_injective(a1, d, a2, d);
        lemma_crc32_from_injective_acc(
            spec_crc_update(a1, d),
            spec_crc_update(a2, d),
            s.drop_first(),
        );
    }
}

/// Changing exactly one input byte changes the CRC.
proof fn lemma_crc32_single_change(acc: u32, s1: Seq<u8>, s2: Seq<u8>, i: int)
    requires
        s1.len() == s2.len(),
        0 <= i < s1.len(),
        s1[i] != s2[i],
        forall|j: int| 0 <= j < s1.len() && j != i ==> s1[j] == s2[j],
    ensures
        spec_crc32_from(acc, s1) != spec_crc32_from(acc, s2),
    decreases i,
{
    if i == 0 {
        let d1 = s1[0] as u32;
        let d2 = s2[0] as u32;
        assert(acc ^ d1 != acc ^ d2) by (bit_vector)
            requires
                d1 != d2,
        ;
        lemma_crc_update_injective(acc, d1, acc, d2);
        assert(s1.drop_first() =~= s2.drop_first());
        lemma_crc32_from_injective_acc(
            spec_crc_update(acc, d1),
            spec_crc_update(acc, d2),
            s1.drop_first(),
        );
    } else {
        let t1 = s1.drop_first();
        let t2 = s2.drop_first();
        assert(t1[i - 1] != t2[i - 1]);
        assert(forall|j: int| 0 <= j < t1.len() && j != i - 1 ==> t1[j] == t2[j]);
        lemma_crc32_single_change(spec_crc_update(acc, s1[0] as u32), t1, t2, i - 1);
    }
}

/// Corrupting any single byte of a frame that passes the integrity check
/// makes the check fail.  A flip in the data part changes the computed
/// CRC while the stored one stays put; a flip in the CRC field changes
/// the stored value while the computed one stays put.
pub proof fn lemma_single_flip_fails(f: Seq<u8>, i: int, x: u8)
    requires
        spec_frame_crc_ok(f),
        0 <= i < f.len(),
        x != f[i],
    ensures
        !spec_frame_crc_ok(f.update(i, x)),
{
    let g = f.update(i, x);
    let n = f.len() as int;
    let df = f.take(n - 4);
    let dg = g.take(n - 4);
    if i < n - 4 {
        assert(dg[i] == x && df[i] == f[i]);
        assert(forall|j: int| 0 <= j < df.len() && j != i ==> df[j] == dg[j]);
        lemma_crc32_single_change(CRC_INIT, df, dg, i);
        assert(g[n - 4] == f[n - 4] && g[n - 3] == f[n - 3] && g[n - 2] == f[n - 2] && g[n - 1]
            == f[n - 1]);
    } else {
        assert(df =~= dg);
        let b0 = f[n - 4];
        let b1 = f[n - 3];
        let b2 = f[n - 2];
        let b3 = f[n - 1];
        if i == n - 4 {
            assert(spec_word_from_le_bytes(x, b1, b2, b3) != spec_word_from_le_bytes(
                b0,
                b1,
                b2,
                b3,
            )) by (bit_vector)
                requires
                    x != b0,
            ;
        } else if i == n - 3 {
            assert(spec_word_from_le_bytes(b0, x, b2, b3) != spec_word_from_le_bytes(
                b0,
                b1,
                b2,
                b3,
            )) by (bit_vector)
                requires
                    x != b1,
            ;
        } else if i == n - 2 {
            assert(spec_word_from_le_bytes(b0, b1, x, b3) != spec_word_from_le_bytes(
                b0,
                b1,
                b2,
                b3,
            )) by (bit_vector)
                requires
                    x != b2,
            ;
        } else {
            assert(spec_word_from_le_bytes(b0, b1, b2, x) != spec_word_from_le_bytes(
                b0,
                b1,
                b2,
                b3,
            )) by (bit_vector)
                requires
                    x != b3,
            ;
        }
    }
}

} // verus!
