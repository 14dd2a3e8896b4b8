use vstd::prelude::*;

use crate::errors::PipelineError;

verus! {

/// Whether a 32-bit value is the bit pattern of an IEEE 754 single-precision
/// not-a-number: exponent all ones and a nonzero mantissa, i.e. the magnitude
/// bits (the value with the sign bit cleared) exceed those of infinity.
pub open spec fn is_nan_bits(bits: u32) -> bool {
    bits % 0x8000_0000 > 0x7f80_0000
}

/// The ordering key of an output element, given as the bit pattern of a
/// 32-bit float.
///
/// The selector compares elements by one explicit total order: every
/// not-a-number sorts below every number (key 0, which no numeric pattern
/// reaches), and numeric patterns are ordered as the usual sign-magnitude
/// transform orders them — negative values (sign bit set) map to
/// `0xffff_ffff - bits`, which reverses them below the non-negative values,
/// and non-negative values map to `bits + 0x8000_0000`, keeping their order.
/// Under this key, `-0.0` sorts just below `+0.0`.
pub open spec fn key_of(bits: u32) -> u32 {
    if is_nan_bits(bits) {
        0u32
    } else if bits >= 0x8000_0000 {
        (0xffff_ffffu32 - bits) as u32
    } else {
        (bits + 0x8000_0000) as u32
    }
}

/// Computes the ordering key of one output element.
pub fn total_order_key(bits: u32) -> (k: u32)
    ensures
        k == key_of(bits),
{
    let magnitude: u32 = bits % 0x8000_0000;
    if magnitude > 0x7f80_0000 {
        0
    } else if bits >= 0x8000_0000 {
        0xffff_ffff - bits
    } else {
        bits + 0x8000_0000
    }
}

/// Position `i` holds the maximum of `s` under the selector's total order,
/// and is the first position to hold it.
pub open spec fn is_first_max_key(s: Seq<u32>, i: int) -> bool {
    &&& 0 <= i < s.len()
    &&& forall|j: int| 0 <= j < s.len() ==> key_of(s[j]) <= key_of(s[i])
    &&& forall|j: int| 0 <= j < i ==> key_of(s[j]) < key_of(s[i])
}

/// Law: the selector's order sorts every not-a-number strictly below every
/// number, so a not-a-number element can win the selection only when the
/// whole output vector holds nothing but not-a-numbers.
pub proof fn lemma_nan_sorts_lowest(a: u32, b: u32)
    requires
        is_nan_bits(a),
        !is_nan_bits(b),
    ensures
        key_of(a) < key_of(b),
{
}

/// Law: at most one position is the first maximum, so the selector's
/// contract pins its result down completely.
pub proof fn lemma_first_max_unique(s: Seq<u32>, i: int, j: int)
    requires
        is_first_max_key(s, i),
        is_first_max_key(s, j),
    ensures
        i == j,
{
    if i < j {
        assert(key_of(s[i]) < key_of(s[j]));
        assert(key_of(s[j]) <= key_of(s[i]));
    }
    if j < i {
        assert(key_of(s[j]) < key_of(s[i]));
        assert(key_of(s[i]) <= key_of(s[j]));
    }
}

/// Scans the output vector, each element the bit pattern of a 32-bit float,
/// and selects the position and bit pattern of its maximum under the
/// selector's total order, ties broken by first occurrence.
///
/// An empty vector fails with `EmptyOutput`; a nonempty vector always
/// succeeds.
pub fn select_result(output: &Vec<u32>) -> (r: Result<(usize, u32), PipelineError>)
    ensures
        r is Ok <==> output@.len() > 0,
        r is Err ==> r->Err_0 == PipelineError::EmptyOutput,
        r is Ok ==> is_first_max_key(output@, r->Ok_0.0 as int),
        r is Ok ==> r->Ok_0.1 == output@[r->Ok_0.0 as int],
{
    if output.len() == 0 {
        return Err(PipelineError::EmptyOutput);
    }
    let mut best: usize = 0;
    let mut best_key: u32 = total_order_key(output[0]);
    let mut j: usize = 1;
    while j < output.len()
        invariant
            0 <= best < j <= output@.len(),
            best_key == key_of(output@[best as int]),
            forall|k: int| 0 <= k < j ==> key_of(output@[k]) <= best_key,
            forall|k: int| 0 <= k < best ==> key_of(output@[k]) < best_key,
        decreases output@.len() - j,
    {
        let key = total_order_key(output[j]);
        if key > best_key {
            best = j;
            best_key = key;
        }
        j += 1;
    }
    Ok((best, output[best]))
}

/// The 32-bit value read little-endian from four consecutive bytes.
pub open spec fn le_u32(b0: u8, b1: u8, b2: u8, b3: u8) -> u32 {
    (b0 + 0x100 * b1 + 0x1_0000 * b2 + 0x100_0000 * b3) as u32
}

/// Reads one 32-bit value little-endian from four bytes.
pub fn u32_from_le(b0: u8, b1: u8, b2: u8, b3: u8) -> (r: u32)
    ensures
        r == le_u32(b0, b1, b2, b3),
{
    (b0 as u32) + 0x100 * (b1 as u32) + 0x1_0000 * (b2 as u32) + 0x100_0000 * (b3 as u32)
}

/// Reassembles the output vector from the raw bytes read out of the
/// engine's output buffer: each group of four little-endian bytes becomes
/// the bit pattern of one 32-bit float element.
///
/// Succeeds exactly when the byte count is a multiple of four; any other
/// length fails with `OutputRead`.
pub fn output_vector_from_bytes(bytes: &Vec<u8>) -> (r: Result<Vec<u32>, PipelineError>)
    ensures
        r is Ok <==> bytes@.len() % 4 == 0,
        r is Err ==> r->Err_0 == PipelineError::OutputRead,
        r is Ok ==> r->Ok_0@.len() == bytes@.len() / 4,
        r is Ok ==> forall|k: int|
            0 <= k < r->Ok_0@.len() ==> r->Ok_0@[k] == le_u32(
                bytes@[4 * k],
                bytes@[4 * k + 1],
                bytes@[4 * k + 2],
                bytes@[4 * k + 3],
            ),
{
    if bytes.len() % 4 != 0 {
        return Err(PipelineError::OutputRead);
    }
    let n: usize = bytes.len() / 4;
    let mut out: Vec<u32> = Vec::new();
    let mut k: usize = 0;
    while k < n
        invariant
            0 <= k <= n,
            n == bytes@.len() / 4,
            bytes@.len() % 4 == 0,
            bytes@.len() <= usize::MAX,
            out@.len() == k,
            forall|m: int| 0 <= m < k ==> out@[m] == le_u32(
                bytes@[4 * m],
                bytes@[4 * m + 1],
                bytes@[4 * m + 2],
                bytes@[4 * m + 3],
            ),
        decreases n - k,
    {
        proof {
            assert(4 * (k as int) + 3 < bytes@.len());
        }
        let v = u32_from_le(bytes[4 * k], bytes[4 * k + 1], bytes[4 * k + 2], bytes[4 * k + 3]);
        out.push(v);
        k += 1;
    }
    Ok(out)
}

} // verus!
