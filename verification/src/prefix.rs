//! The prefix scanner.
//!
//! Legacy prefixes may appear any number of times in any order, each class
//! keeping its last occurrence. After them comes at most one of REX (long
//! mode only) or a VEX/XOP/EVEX vector prefix; the first byte that cannot
//! extend the prefix sequence is the opcode candidate and is left for the
//! opcode walker. Outside long mode the `0xC4`/`0xC5`/`0x62` bytes are
//! opcodes unless the byte after them has both top bits set, and `0x8F`
//! introduces XOP only when the map field of the byte after it is 8 or
//! more; when too little buffer is left to look ahead, the byte counts as
//! an opcode and the failure surfaces at the first following read.

use vstd::prelude::*;

use crate::context::{
    ctx_from, no_prefixes, spec_ctx_from, spec_no_prefixes, Ctx, MachineMode, Prefixes, VexClass,
};
use crate::cursor::{lemma_read_agree, lemma_read_byte, spec_read, Cursor};
use crate::decode_error::DecodeError;

verus! {

/// Whether `b` is a segment-override prefix.
pub open spec fn spec_is_seg_prefix(b: u8) -> bool {
    b == 0x26 || b == 0x2E || b == 0x36 || b == 0x3E || b == 0x64 || b == 0x65
}

/// Whether `b` is a legacy prefix.
pub open spec fn spec_is_legacy_prefix(b: u8) -> bool {
    b == 0x66 || b == 0x67 || b == 0xF0 || b == 0xF2 || b == 0xF3 || spec_is_seg_prefix(b)
}

/// The prefix state after one more legacy prefix byte: its class keeps the
/// new occurrence.
pub open spec fn spec_apply_legacy(pfx: Prefixes, b: u8) -> Prefixes {
    if b == 0x66 {
        Prefixes { opsize: true, ..pfx }
    } else if b == 0x67 {
        Prefixes { addrsize: true, ..pfx }
    } else if b == 0xF0 || b == 0xF2 || b == 0xF3 {
        Prefixes { rep_lock: b, ..pfx }
    } else {
        Prefixes { seg: b, ..pfx }
    }
}

/// A vector prefix may not follow an operand-size or repeat/lock prefix.
pub open spec fn spec_vex_blocked(pfx: Prefixes) -> bool {
    pfx.opsize || pfx.rep_lock != 0
}

/// Whether the byte at `pos` commits `0xC4`/`0xC5`/`0x62` to a vector
/// prefix outside long mode: both top bits set. An unreadable byte does
/// not.
pub open spec fn spec_vex_escape(s: Seq<u8>, pos: int) -> bool {
    match spec_read(s, pos, 1) {
        Ok(v) => (v as u8) / 64 == 3,
        Err(_) => false,
    }
}

/// Whether the byte at `pos` commits `0x8F` to an XOP prefix: a map field
/// of 8 or more. An unreadable byte does not.
pub open spec fn spec_xop_escape(s: Seq<u8>, pos: int) -> bool {
    match spec_read(s, pos, 1) {
        Ok(v) => (v as u8) % 32 >= 8,
        Err(_) => false,
    }
}

/// The context a two-byte VEX prefix resolves to.
pub open spec fn spec_vex2_ctx(mode: MachineMode, pfx: Prefixes, p1: u8) -> Ctx {
    Ctx {
        mode,
        pfx,
        vex: VexClass::Vex,
        w: false,
        r: p1 & 0x80 == 0,
        x: false,
        b: false,
        vvvv: ((p1 >> 3) & 0xF) ^ 0xF,
        vl: (p1 >> 2) & 1,
        pp: p1 & 3,
        map: 1,
    }
}

/// The context a three-byte VEX or XOP prefix resolves to.
pub open spec fn spec_vex3_ctx(
    mode: MachineMode,
    pfx: Prefixes,
    kind: VexClass,
    p1: u8,
    p2: u8,
) -> Ctx {
    Ctx {
        mode,
        pfx,
        vex: kind,
        w: p2 & 0x80 != 0,
        r: p1 & 0x80 == 0,
        x: p1 & 0x40 == 0,
        b: p1 & 0x20 == 0,
        vvvv: ((p2 >> 3) & 0xF) ^ 0xF,
        vl: (p2 >> 2) & 1,
        pp: p2 & 3,
        map: p1 & 0x1F,
    }
}

/// The context an EVEX prefix resolves to.
pub open spec fn spec_evex_ctx(mode: MachineMode, pfx: Prefixes, p1: u8, p2: u8, p3: u8) -> Ctx {
    Ctx {
        mode,
        pfx,
        vex: VexClass::Evex,
        w: p2 & 0x80 != 0,
        r: p1 & 0x80 == 0,
        x: p1 & 0x40 == 0,
        b: p1 & 0x20 == 0,
        vvvv: ((p2 >> 3) & 0xF) ^ 0xF,
        vl: (p3 >> 5) & 3,
        pp: p2 & 3,
        map: p1 & 0x7,
    }
}

/// Scans the prefix bytes from `pos` on and resolves the decode context.
/// A successful result carries the opcode-candidate position; the
/// candidate byte itself is not consumed.
pub open spec fn spec_scan(s: Seq<u8>, mode: MachineMode, pos: int, pfx: Prefixes) -> Result<
    (Ctx, int),
    DecodeError,
>
    decreases 15 - pos,
{
    match spec_read(s, pos, 1) {
        Err(e) => Err(e),
        Ok(v) => {
            let b = v as u8;
            if spec_is_legacy_prefix(b) {
                spec_scan(s, mode, pos + 1, spec_apply_legacy(pfx, b))
            } else if mode == MachineMode::Bits64 && b >= 0x40 && b <= 0x4F {
                Ok(
                    (
                        spec_ctx_from(
                            mode,
                            Prefixes {
                                opsize: pfx.opsize,
                                addrsize: pfx.addrsize,
                                seg: pfx.seg,
                                rep_lock: pfx.rep_lock,
                                rex: b,
                            },
                        ),
                        pos + 1,
                    ),
                )
            } else if b == 0xC5 && (mode == MachineMode::Bits64 || spec_vex_escape(s, pos + 1)) {
                if spec_vex_blocked(pfx) {
                    Err(DecodeError::InvalidPrefixSequence)
                } else {
                    match spec_read(s, pos + 1, 1) {
                        Err(e) => Err(e),
                        Ok(p1) => Ok((spec_vex2_ctx(mode, pfx, p1 as u8), pos + 2)),
                    }
                }
            } else if b == 0xC4 && (mode == MachineMode::Bits64 || spec_vex_escape(s, pos + 1)) {
                if spec_vex_blocked(pfx) {
                    Err(DecodeError::InvalidPrefixSequence)
                } else {
                    match spec_read(s, pos + 1, 1) {
                        Err(e) => Err(e),
                        Ok(p1) => match spec_read(s, pos + 2, 1) {
                            Err(e) => Err(e),
                            Ok(p2) => Ok(
                                (
                                    spec_vex3_ctx(mode, pfx, VexClass::Vex, p1 as u8, p2 as u8),
                                    pos + 3,
                                ),
                            ),
                        },
                    }
                }
            } else if b == 0x62 && (mode == MachineMode::Bits64 || spec_vex_escape(s, pos + 1)) {
                if spec_vex_blocked(pfx) {
                    Err(DecodeError::InvalidPrefixSequence)
                } else {
                    match spec_read(s, pos + 1, 1) {
                        Err(e) => Err(e),
                        Ok(p1) => match spec_read(s, pos + 2, 1) {
                            Err(e) => Err(e),
                            Ok(p2) => match spec_read(s, pos + 3, 1) {
                                Err(e) => Err(e),
                                Ok(p3) => Ok(
                                    (
                                        spec_evex_ctx(mode, pfx, p1 as u8, p2 as u8, p3 as u8),
                                        pos + 4,
                                    ),
                                ),
                            },
                        },
                    }
                }
            } else if b == 0x8F && spec_xop_escape(s, pos + 1) {
                if spec_vex_blocked(pfx) {
                    Err(DecodeError::InvalidPrefixSequence)
                } else {
                    match spec_read(s, pos + 1, 1) {
                        Err(e) => Err(e),
                        Ok(p1) => match spec_read(s, pos + 2, 1) {
                            Err(e) => Err(e),
                            Ok(p2) => Ok(
                                (
                                    spec_vex3_ctx(mode, pfx, VexClass::Xop, p1 as u8, p2 as u8),
                                    pos + 3,
                                ),
                            ),
                        },
                    }
                }
            } else {
                Ok((spec_ctx_from(mode, pfx), pos))
            }
        },
    }
}

/// A successful scan stays inside the buffer and the cap, and keeps the
/// mode it was asked for.
pub proof fn lemma_scan_bounds(s: Seq<u8>, mode: MachineMode, pos: int, pfx: Prefixes)
    requires
        0 <= pos,
    ensures
        spec_scan(s, mode, pos, pfx) matches Ok(r) ==> pos <= r.1 <= 15 && r.1 <= s.len()
            && r.0.mode == mode,
    decreases 15 - pos,
{
    if spec_read(s, pos, 1) is Ok {
        let b = spec_read(s, pos, 1)->Ok_0 as u8;
        if spec_is_legacy_prefix(b) {
            lemma_scan_bounds(s, mode, pos + 1, spec_apply_legacy(pfx, b));
        }
    }
}

/// What a truncated scan may look like when the full scan found the
/// opcode at `q2` but the cut buffer `s2` ends at or before it: either the
/// opcode position itself is just past the cut, or the candidate was one
/// of the look-ahead bytes and sits on the last readable position. Either
/// way the cut surfaces as `OutOfBuffer` at the next read.
pub open spec fn spec_scan_cut(s2: Seq<u8>, mode: MachineMode, c2: Ctx, q2: int) -> bool {
    ||| q2 == s2.len()
    ||| (q2 == s2.len() - 1 && c2.vex == VexClass::NoVex && c2.pfx.rex == 0 && (s2[q2] == 0x8F
        || ((s2[q2] == 0xC4 || s2[q2] == 0xC5 || s2[q2] == 0x62)
            && mode != MachineMode::Bits64)))
}

/// Truncation behaviour of the scanner. When the truncated buffer still
/// holds the opcode byte the scan is unchanged; a shorter one either runs
/// out of buffer outright or stops at a cut the opcode walker is bound to
/// turn into `OutOfBuffer`.
#[verifier::rlimit(100)]
#[verifier::spinoff_prover]
pub proof fn lemma_scan_agree(
    s1: Seq<u8>,
    s2: Seq<u8>,
    mode: MachineMode,
    pos: int,
    pfx: Prefixes,
)
    requires
        0 <= pos,
        pfx.rex == 0,
        s2.len() <= s1.len(),
        forall|i: int| 0 <= i < s2.len() ==> s1[i] == s2[i],
    ensures
        spec_scan(s1, mode, pos, pfx) matches Ok(r) ==> {
            &&& s2.len() >= r.1 + 1 ==> spec_scan(s2, mode, pos, pfx) == spec_scan(
                s1,
                mode,
                pos,
                pfx,
            )
            &&& pos <= s2.len() <= r.1 ==> (spec_scan(s2, mode, pos, pfx) == Err::<
                (Ctx, int),
                DecodeError,
            >(DecodeError::OutOfBuffer) || (spec_scan(s2, mode, pos, pfx) matches Ok(r2)
                && spec_scan_cut(s2, mode, r2.0, r2.1)))
        },
    decreases 15 - pos,
{
    lemma_read_byte(s1, pos);
    lemma_read_byte(s2, pos);
    if spec_read(s1, pos, 1) is Ok {
        lemma_read_agree(s1, s2, pos, 1);
        let b = spec_read(s1, pos, 1)->Ok_0 as u8;
        if spec_is_legacy_prefix(b) {
            lemma_scan_agree(s1, s2, mode, pos + 1, spec_apply_legacy(pfx, b));
            lemma_scan_bounds(s1, mode, pos + 1, spec_apply_legacy(pfx, b));
        } else {
            if spec_read(s1, pos + 1, 1) is Ok {
                lemma_read_agree(s1, s2, pos + 1, 1);
            }
            if spec_read(s1, pos + 2, 1) is Ok {
                lemma_read_agree(s1, s2, pos + 2, 1);
            }
            if spec_read(s1, pos + 3, 1) is Ok {
                lemma_read_agree(s1, s2, pos + 3, 1);
            }
        }
    }
}

/// Executable twin of [`spec_is_legacy_prefix`].
fn is_legacy_prefix(b: u8) -> (r: bool)
    ensures
        r == spec_is_legacy_prefix(b),
{
    b == 0x66 || b == 0x67 || b == 0xF0 || b == 0xF2 || b == 0xF3 || b == 0x26 || b == 0x2E
        || b == 0x36 || b == 0x3E || b == 0x64 || b == 0x65
}

/// Executable twin of [`spec_apply_legacy`].
fn apply_legacy(pfx: Prefixes, b: u8) -> (r: Prefixes)
    ensures
        r == spec_apply_legacy(pfx, b),
{
    if b == 0x66 {
        Prefixes { opsize: true, ..pfx }
    } else if b == 0x67 {
        Prefixes { addrsize: true, ..pfx }
    } else if b == 0xF0 || b == 0xF2 || b == 0xF3 {
        Prefixes { rep_lock: b, ..pfx }
    } else {
        Prefixes { seg: b, ..pfx }
    }
}

/// Executable twin of [`spec_vex2_ctx`].
fn vex2_ctx(mode: MachineMode, pfx: Prefixes, p1: u8) -> (c: Ctx)
    ensures
        c == spec_vex2_ctx(mode, pfx, p1),
{
    Ctx {
        mode,
        pfx,
        vex: VexClass::Vex,
        w: false,
        r: p1 & 0x80 == 0,
        x: false,
        b: false,
        vvvv: ((p1 >> 3) & 0xF) ^ 0xF,
        vl: (p1 >> 2) & 1,
        pp: p1 & 3,
        map: 1,
    }
}

/// Executable twin of [`spec_vex3_ctx`].
fn vex3_ctx(mode: MachineMode, pfx: Prefixes, kind: VexClass, p1: u8, p2: u8) -> (c: Ctx)
    ensures
        c == spec_vex3_ctx(mode, pfx, kind, p1, p2),
{
    Ctx {
        mode,
        pfx,
        vex: kind,
        w: p2 & 0x80 != 0,
        r: p1 & 0x80 == 0,
        x: p1 & 0x40 == 0,
        b: p1 & 0x20 == 0,
        vvvv: ((p2 >> 3) & 0xF) ^ 0xF,
        vl: (p2 >> 2) & 1,
        pp: p2 & 3,
        map: p1 & 0x1F,
    }
}

/// Executable twin of [`spec_evex_ctx`].
fn evex_ctx(mode: MachineMode, pfx: Prefixes, p1: u8, p2: u8, p3: u8) -> (c: Ctx)
    ensures
        c == spec_evex_ctx(mode, pfx, p1, p2, p3),
{
    Ctx {
        mode,
        pfx,
        vex: VexClass::Evex,
        w: p2 & 0x80 != 0,
        r: p1 & 0x80 == 0,
        x: p1 & 0x40 == 0,
        b: p1 & 0x20 == 0,
        vvvv: ((p2 >> 3) & 0xF) ^ 0xF,
        vl: (p3 >> 5) & 3,
        pp: p2 & 3,
        map: p1 & 0x7,
    }
}

/// Scans and consumes the prefix bytes, leaving the cursor on the opcode
/// candidate; executable twin of [`spec_scan`] started with no prefixes.
pub fn scan(cur: &mut Cursor, mode: MachineMode) -> (r: Result<Ctx, DecodeError>)
    requires
        old(cur).pos <= 15,
    ensures
        final(cur).buf@ == old(cur).buf@,
        final(cur).pos <= 15,
        match spec_scan(old(cur).buf@, mode, old(cur).pos as int, spec_no_prefixes()) {
            Ok(rr) => r == Ok::<Ctx, DecodeError>(rr.0) && final(cur).pos == rr.1,
            Err(e) => r == Err::<Ctx, DecodeError>(e),
        },
{
    let mut pfx = no_prefixes();
    loop
        invariant
            cur.buf@ == old(cur).buf@,
            cur.pos <= 15,
            pfx.rex == 0,
            spec_scan(old(cur).buf@, mode, old(cur).pos as int, spec_no_prefixes()) == spec_scan(
                cur.buf@,
                mode,
                cur.pos as int,
                pfx,
            ),
        decreases 16 - cur.pos,
    {
        let b: u8;
        match cur.peek(1) {
            Err(e) => {
                return Err(e);
            },
            Ok(v) => {
                b = v as u8;
            },
        }
        if is_legacy_prefix(b) {
            let t = cur.take(1);
            proof {
                assert(t is Ok);
            }
            pfx = apply_legacy(pfx, b);
        } else if matches!(mode, MachineMode::Bits64) && b >= 0x40 && b <= 0x4F {
            let t = cur.take(1);
            proof {
                assert(t is Ok);
            }
            return Ok(
                ctx_from(
                    mode,
                    Prefixes {
                        opsize: pfx.opsize,
                        addrsize: pfx.addrsize,
                        seg: pfx.seg,
                        rep_lock: pfx.rep_lock,
                        rex: b,
                    },
                ),
            );
        } else if b == 0xC5 || b == 0xC4 || b == 0x62 || b == 0x8F {
            let committed: bool = if b == 0x8F {
                match cur.peek_at(1, 1) {
                    Ok(v) => (v as u8) % 32 >= 8,
                    Err(_) => false,
                }
            } else if matches!(mode, MachineMode::Bits64) {
                true
            } else {
                match cur.peek_at(1, 1) {
                    Ok(v) => (v as u8) / 64 == 3,
                    Err(_) => false,
                }
            };
            if !committed {
                return Ok(ctx_from(mode, pfx));
            }
            if pfx.opsize || pfx.rep_lock != 0 {
                return Err(DecodeError::InvalidPrefixSequence);
            }
            let t = cur.take(1);
            proof {
                assert(t is Ok);
            }
            if b == 0xC5 {
                return match cur.take(1) {
                    Err(e) => Err(e),
                    Ok(p1) => Ok(vex2_ctx(mode, pfx, p1 as u8)),
                };
            }
            if b == 0x62 {
                return match cur.take(1) {
                    Err(e) => Err(e),
                    Ok(p1) => match cur.take(1) {
                        Err(e) => Err(e),
                        Ok(p2) => match cur.take(1) {
                            Err(e) => Err(e),
                            Ok(p3) => Ok(evex_ctx(mode, pfx, p1 as u8, p2 as u8, p3 as u8)),
                        },
                    },
                };
            }
            let kind = if b == 0xC4 {
                VexClass::Vex
            } else {
                VexClass::Xop
            };
            return match cur.take(1) {
                Err(e) => Err(e),
                Ok(p1) => match cur.take(1) {
                    Err(e) => Err(e),
                    Ok(p2) => Ok(vex3_ctx(mode, pfx, kind, p1 as u8, p2 as u8)),
                },
            };
        } else {
            return Ok(ctx_from(mode, pfx));
        }
    }
}

} // verus!
