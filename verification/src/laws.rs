//! Decoder-wide laws: what decoding guarantees across whole buffers.
//!
//! The central fact is [`lemma_decode_agree`]: the decoder reads nothing
//! past the bytes it reports as consumed. Truncating a buffer below the
//! consumed length always surfaces as `OutOfBuffer`, and re-decoding
//! exactly the consumed bytes reproduces the instruction.

use vstd::prelude::*;

use crate::context::{spec_no_prefixes, MachineMode};
use crate::cursor::lemma_read_byte;
use crate::decode_error::DecodeError;
use crate::decoder::{lemma_decode_bounds, spec_decode, SpecInstr};
use crate::operand::{lemma_operands_agree, lemma_operands_bounds, spec_needs_modrm, spec_operands};
use crate::prefix::{lemma_scan_agree, lemma_scan_bounds, spec_scan, spec_scan_cut};
use crate::walker::{lemma_select_agree, lemma_select_bounds, spec_select};

verus! {

/// The decoder depends only on the bytes it consumes. For a buffer that
/// decodes successfully, any prefix of it that still covers the consumed
/// length decodes to the very same instruction, and any shorter prefix
/// fails with `OutOfBuffer`.
#[verifier::rlimit(100)]
#[verifier::spinoff_prover]
pub proof fn lemma_decode_agree(s1: Seq<u8>, s2: Seq<u8>, mode: MachineMode)
    requires
        s2.len() <= s1.len(),
        forall|i: int| 0 <= i < s2.len() ==> s1[i] == s2[i],
    ensures
        spec_decode(s1, mode) matches Ok(i) ==> {
            &&& s2.len() >= i.len ==> spec_decode(s2, mode) == spec_decode(s1, mode)
            &&& s2.len() < i.len ==> spec_decode(s2, mode) == Err::<SpecInstr, DecodeError>(
                DecodeError::OutOfBuffer,
            )
        },
{
    if spec_decode(s1, mode) is Ok {
        let init = spec_no_prefixes();
        lemma_scan_agree(s1, s2, mode, 0, init);
        lemma_scan_bounds(s1, mode, 0, init);
        lemma_scan_bounds(s2, mode, 0, init);
        let (ctx, p_op) = spec_scan(s1, mode, 0, init)->Ok_0;
        lemma_select_agree(s1, s2, ctx, p_op);
        lemma_select_bounds(s1, ctx, p_op);
        let (t, oplow, p_args) = spec_select(s1, ctx, p_op)->Ok_0;
        lemma_operands_agree(s1, s2, ctx, t, oplow, p_args);
        lemma_operands_bounds(s1, ctx, t, oplow, p_args);
        let (ops, p_end) = spec_operands(s1, ctx, t, oplow, p_args)->Ok_0;
        if s2.len() <= p_op {
            // The scan itself may hit the cut: either it runs out of
            // buffer, or it stops at a position from which the first
            // following read is bound to.
            let r2 = spec_scan(s2, mode, 0, init);
            if r2 is Ok {
                let (c2, q2) = r2->Ok_0;
                assert(spec_scan_cut(s2, mode, c2, q2));
                lemma_read_byte(s2, q2);
                if q2 == s2.len() - 1 && c2.vex == crate::context::VexClass::NoVex
                    && c2.pfx.rex == 0 {
                    lemma_read_byte(s1, p_op);
                }
            }
        }
    }
}

/// Truncating below the consumed length of a successful decode always
/// reports `OutOfBuffer`: the decoder never reads out of bounds and
/// never turns missing bytes into a different answer.
pub proof fn lemma_decode_truncated(s: Seq<u8>, n: int, mode: MachineMode)
    requires
        spec_decode(s, mode) matches Ok(i) && 0 <= n < i.len,
    ensures
        spec_decode(s.take(n), mode) == Err::<SpecInstr, DecodeError>(DecodeError::OutOfBuffer),
{
    lemma_decode_bounds(s, mode);
    lemma_decode_agree(s, s.take(n), mode);
}

/// Idempotence: feeding exactly the consumed bytes of a successful decode
/// back in yields the identical instruction.
pub proof fn lemma_decode_idempotent(s: Seq<u8>, mode: MachineMode)
    ensures
        spec_decode(s, mode) matches Ok(i) ==> spec_decode(s.take(i.len), mode) == Ok::<
            SpecInstr,
            DecodeError,
        >(i),
{
    lemma_decode_bounds(s, mode);
    if spec_decode(s, mode) is Ok {
        let i = spec_decode(s, mode)->Ok_0;
        lemma_decode_agree(s, s.take(i.len), mode);
    }
}

/// An empty buffer fails with `OutOfBuffer` in every mode, before any
/// prefix classification.
pub proof fn lemma_decode_empty(mode: MachineMode)
    ensures
        spec_decode(Seq::<u8>::empty(), mode) == Err::<SpecInstr, DecodeError>(
            DecodeError::OutOfBuffer,
        ),
{
}

/// A REX prefix followed immediately by the `0xC4` VEX prefix byte in
/// long mode is an invalid prefix sequence, whatever follows.
pub proof fn lemma_rex_then_vex_invalid(s: Seq<u8>)
    requires
        s.len() >= 2,
        0x40 <= s[0] <= 0x4F,
        s[1] == 0xC4,
    ensures
        spec_decode(s, MachineMode::Bits64) == Err::<SpecInstr, DecodeError>(
            DecodeError::InvalidPrefixSequence,
        ),
{
    lemma_read_byte(s, 0);
    lemma_read_byte(s, 1);
}

} // verus!
