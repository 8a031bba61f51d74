//! The variable-length operand encoding.
//!
//! An operand is a non-negative integer spread over one or more bytes of the
//! instruction stream, least-significant group first: each byte carries
//! seven bits of magnitude, and its high bit says whether another byte
//! follows. Decoding consumes bytes strictly forward, never backtracking,
//! and a stream that ends while the high bit still asks for more is a
//! decode fault, not a read past the end.

use vstd::prelude::*;
use crate::fault::Fault;

verus! {

/// What decoding at position `i` of `code` yields: the decoded value and
/// the position of the first byte after the encoding, or nothing when the
/// stream ends before the encoding is complete.
pub open spec fn decode_at(code: Seq<u8>, i: int) -> Option<(nat, int)>
    decreases code.len() - i,
{
    if i < 0 || i >= code.len() {
        None
    } else if code[i] < 128 {
        Some((code[i] as nat, i + 1))
    } else {
        match decode_at(code, i + 1) {
            None => None,
            Some((rest, end)) => Some((((code[i] - 128) + rest * 128) as nat, end)),
        }
    }
}

/// A complete encoding sits strictly inside the stream: it consumes at
/// least one byte and ends no later than the stream does.
pub proof fn lemma_decode_bounds(code: Seq<u8>, i: int)
    requires
        decode_at(code, i) is Some,
    ensures
        i < decode_at(code, i)->Some_0.1 <= code.len(),
    decreases code.len() - i,
{
    if 0 <= i < code.len() && code[i] >= 128 {
        lemma_decode_bounds(code, i + 1);
    }
}

/// The encoding of `n`: magnitude bytes of seven bits each, least
/// significant first, the high bit set on every byte but the last.
pub open spec fn encode_of(n: nat) -> Seq<u8>
    decreases n,
{
    if n < 128 {
        seq![n as u8]
    } else {
        seq![((n % 128) + 128) as u8] + encode_of(n / 128)
    }
}

/// Encode and decode round-trip: decoding an encoding placed anywhere in an
/// instruction stream yields the encoded value back and stops at the first
/// byte after it, whatever follows.
pub proof fn lemma_decode_encode(n: nat, before: Seq<u8>, after: Seq<u8>)
    ensures
        decode_at(before + encode_of(n) + after, before.len() as int) == Some(
            (n, before.len() + encode_of(n).len() as int),
        ),
    decreases n,
{
    let code = before + encode_of(n) + after;
    let i = before.len() as int;
    if n < 128 {
        assert(code[i] == n as u8);
    } else {
        lemma_decode_encode(n / 128, before + seq![((n % 128) + 128) as u8], after);
        assert(before + seq![((n % 128) + 128) as u8] + encode_of(n / 128) + after =~= code);
        assert(code[i] == ((n % 128) + 128) as u8);
        assert((code[i] - 128) + (n / 128) * 128 == n) by {
            assert(n % 128 + (n / 128) * 128 == n) by (nonlinear_arith);
        };
    }
}

/// Reads one operand beginning at position `i` of `code`.
///
/// Returns the decoded value and the position of the first byte after its
/// encoding. A truncated encoding is a decode fault; so is a value too
/// large for the machine word, which no table in a chunk could be indexed
/// by anyway.
pub fn decode_operand(code: &Vec<u8>, i: usize) -> (r: Result<(usize, usize), Fault>)
    ensures
        code@.len() <= usize::MAX,
        match decode_at(code@, i as int) {
            None => r == Err::<(usize, usize), Fault>(Fault::Decode),
            Some((value, end)) => if value <= usize::MAX {
                r == Ok::<(usize, usize), Fault>((value as usize, end as usize))
            } else {
                r == Err::<(usize, usize), Fault>(Fault::Decode)
            },
        },
    decreases code@.len() - i,
{
    if i >= code.len() {
        return Err(Fault::Decode);
    }
    let byte = code[i];
    if byte < 128 {
        proof {
            lemma_decode_bounds(code@, i as int);
        }
        Ok((byte as usize, i + 1))
    } else {
        match decode_operand(code, i + 1) {
            Err(fault) => Err(fault),
            Ok((rest, end)) => match rest.checked_mul(128) {
                None => Err(Fault::Decode),
                Some(shifted) => match shifted.checked_add((byte - 128) as usize) {
                    None => Err(Fault::Decode),
                    Some(value) => Ok((value, end)),
                },
            },
        }
    }
}

} // verus!
