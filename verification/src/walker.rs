//! The opcode table walker.
//!
//! After the prefix scanner stops, the walker reads the opcode byte (and a
//! second one after the `0x0F` escape), picks the opcode map the context
//! selects, resolves group entries by peeking at ModRM.reg without
//! committing the cursor, applies the mandatory-prefix tie-break, and
//! checks mode validity and explicit undefined-instruction markers.

use vstd::prelude::*;

use crate::category::Category;
use crate::context::{
    mand_prefix, mode_bit, spec_mand_prefix, spec_mode_bit, Ctx, MachineMode, VexClass,
};
use crate::cursor::{lemma_read_agree, spec_read, Cursor};
use crate::decode_error::DecodeError;
use crate::opcode_table::{
    group_lookup, one_byte, spec_group, spec_one_byte, spec_two_byte, spec_vex, two_byte,
    vex_lookup, Entry, Tmpl,
};
use crate::operand::{modrm_reg, spec_modrm_reg, spec_needs_modrm};

verus! {

/// Mode-checks a selected template: entries invalid in the current mode
/// are unknown opcodes, and an explicit undefined-instruction marker is
/// its own failure.
pub open spec fn spec_check(ctx: Ctx, t: Tmpl, oplow: u8, pos: int) -> Result<
    (Tmpl, u8, int),
    DecodeError,
> {
    if (t.modes / spec_mode_bit(ctx.mode)) % 2 == 0 {
        Err(DecodeError::UnknownOpcode)
    } else if t.category == Category::Ud {
        Err(DecodeError::UdInstruction)
    } else {
        Ok((t, oplow, pos))
    }
}

/// Resolves a map slot at `pos` (the position after the opcode bytes): a
/// plain template is checked, a mode-split entry picks its long-mode or
/// legacy template, and a group entry peeks at ModRM.reg to pick its
/// sub-slot without advancing.
pub open spec fn spec_resolve(s: Seq<u8>, ctx: Ctx, e: Entry, oplow: u8, pos: int) -> Result<
    (Tmpl, u8, int),
    DecodeError,
> {
    match e {
        Entry::Absent => Err(DecodeError::UnknownOpcode),
        Entry::Ins(t) => spec_check(ctx, t, oplow, pos),
        Entry::Split(tleg, t64) => spec_check(
            ctx,
            if ctx.mode == MachineMode::Bits64 { t64 } else { tleg },
            oplow,
            pos,
        ),
        Entry::Grp(g) => match spec_read(s, pos, 1) {
            Err(e) => Err(e),
            Ok(m) => match spec_group(g, spec_modrm_reg(m as u8)) {
                Entry::Ins(t) => spec_check(ctx, t, oplow, pos),
                _ => Err(DecodeError::UnknownOpcode),
            },
        },
    }
}

/// The two-byte map lookup with the mandatory-prefix tie-break: a
/// qualified entry takes precedence, and only a missing one falls back to
/// the unprefixed slot.
pub open spec fn spec_two_byte_mp(op: u8, mp: u8) -> Entry {
    let e = spec_two_byte(op, mp);
    if e == Entry::Absent && mp != 0 {
        spec_two_byte(op, 0)
    } else {
        e
    }
}

/// Walks the opcode maps from the opcode-candidate position and yields
/// the selected template, the low opcode byte (for opcode-embedded
/// register numbers), and the position after the opcode bytes. A REX
/// prefix followed by a vector-prefix byte is an invalid prefix sequence.
pub open spec fn spec_select(s: Seq<u8>, ctx: Ctx, pos: int) -> Result<
    (Tmpl, u8, int),
    DecodeError,
> {
    match spec_read(s, pos, 1) {
        Err(e) => Err(e),
        Ok(v) => {
            let op = v as u8;
            match ctx.vex {
                VexClass::NoVex => {
                    if ctx.pfx.rex != 0 && (op == 0xC4 || op == 0xC5 || op == 0x62) {
                        Err(DecodeError::InvalidPrefixSequence)
                    } else if op == 0x0F {
                        match spec_read(s, pos + 1, 1) {
                            Err(e) => Err(e),
                            Ok(v2) => {
                                let op2 = v2 as u8;
                                spec_resolve(
                                    s,
                                    ctx,
                                    spec_two_byte_mp(op2, spec_mand_prefix(ctx.pfx)),
                                    op2,
                                    pos + 2,
                                )
                            },
                        }
                    } else {
                        spec_resolve(s, ctx, spec_one_byte(op), op, pos + 1)
                    }
                },
                VexClass::Vex | VexClass::Xop => spec_resolve(
                    s,
                    ctx,
                    spec_vex(if ctx.vex == VexClass::Xop { 0 } else { ctx.map }, op, ctx.pp, ctx.vl),
                    op,
                    pos + 1,
                ),
                VexClass::Evex => spec_resolve(s, ctx, Entry::Absent, op, pos + 1),
            }
        },
    }
}

/// A successful walk stays inside the buffer and the cap and consumes one
/// or two bytes; a group selection implies the template reads ModRM.
pub proof fn lemma_select_bounds(s: Seq<u8>, ctx: Ctx, pos: int)
    requires
        0 <= pos,
    ensures
        spec_select(s, ctx, pos) matches Ok(r) ==> pos + 1 <= r.2 <= 15 && r.2 <= s.len(),
{
}

/// Truncation behaviour of the walker. With the opcode bytes intact the
/// walk is unchanged unless only its group ModRM peek crossed the cut, in
/// which case it runs out of buffer and the selected template needed
/// ModRM anyway; with opcode bytes cut off it runs out of buffer.
#[verifier::rlimit(100)]
#[verifier::spinoff_prover]
pub proof fn lemma_select_agree(s1: Seq<u8>, s2: Seq<u8>, ctx: Ctx, pos: int)
    requires
        0 <= pos,
        s2.len() <= s1.len(),
        forall|i: int| 0 <= i < s2.len() ==> s1[i] == s2[i],
    ensures
        spec_select(s1, ctx, pos) matches Ok(r) ==> {
            &&& s2.len() >= r.2 + 1 ==> spec_select(s2, ctx, pos) == spec_select(s1, ctx, pos)
            &&& pos <= s2.len() < r.2 ==> spec_select(s2, ctx, pos) == Err::<
                (Tmpl, u8, int),
                DecodeError,
            >(DecodeError::OutOfBuffer)
            &&& s2.len() == r.2 ==> (spec_select(s2, ctx, pos) == spec_select(s1, ctx, pos)
                || (spec_select(s2, ctx, pos) == Err::<(Tmpl, u8, int), DecodeError>(
                DecodeError::OutOfBuffer,
            ) && spec_needs_modrm(r.0)))
        },
{
    if spec_read(s1, pos, 1) is Ok {
        lemma_read_agree(s1, s2, pos, 1);
    }
    if spec_read(s1, pos + 1, 1) is Ok {
        lemma_read_agree(s1, s2, pos + 1, 1);
    }
    if spec_read(s1, pos + 2, 1) is Ok {
        lemma_read_agree(s1, s2, pos + 2, 1);
    }
}

/// Executable twin of [`spec_select`]: reads the opcode bytes, leaving
/// the cursor right after them.
pub fn select(cur: &mut Cursor, ctx: &Ctx) -> (r: Result<(Tmpl, u8), DecodeError>)
    requires
        old(cur).pos <= 15,
    ensures
        final(cur).buf@ == old(cur).buf@,
        final(cur).pos <= 15,
        match spec_select(old(cur).buf@, *ctx, old(cur).pos as int) {
            Ok(rr) => r == Ok::<(Tmpl, u8), DecodeError>((rr.0, rr.1)) && final(cur).pos == rr.2,
            Err(e) => r == Err::<(Tmpl, u8), DecodeError>(e),
        },
{
    let op: u8;
    match cur.take(1) {
        Err(e) => {
            return Err(e);
        },
        Ok(v) => {
            op = v as u8;
        },
    }
    match ctx.vex {
        VexClass::NoVex => {
            if ctx.pfx.rex != 0 && (op == 0xC4 || op == 0xC5 || op == 0x62) {
                Err(DecodeError::InvalidPrefixSequence)
            } else if op == 0x0F {
                match cur.take(1) {
                    Err(e) => Err(e),
                    Ok(v2) => {
                        let op2 = v2 as u8;
                        let mp = mand_prefix(&ctx.pfx);
                        let mut e = two_byte(op2, mp);
                        if matches!(e, Entry::Absent) && mp != 0 {
                            e = two_byte(op2, 0);
                        }
                        resolve(cur, ctx, e, op2)
                    },
                }
            } else {
                resolve(cur, ctx, one_byte(op), op)
            }
        },
        VexClass::Vex | VexClass::Xop => {
            let map = if matches!(ctx.vex, VexClass::Xop) {
                0
            } else {
                ctx.map
            };
            resolve(cur, ctx, vex_lookup(map, op, ctx.pp, ctx.vl), op)
        },
        VexClass::Evex => resolve(cur, ctx, Entry::Absent, op),
    }
}

/// Executable twin of [`spec_resolve`]; the cursor stays where it is, a
/// group only peeks.
fn resolve(cur: &mut Cursor, ctx: &Ctx, e: Entry, oplow: u8) -> (r: Result<
    (Tmpl, u8),
    DecodeError,
>)
    requires
        old(cur).pos <= 15,
    ensures
        *final(cur) == *old(cur),
        match spec_resolve(old(cur).buf@, *ctx, e, oplow, old(cur).pos as int) {
            Ok(rr) => r == Ok::<(Tmpl, u8), DecodeError>((rr.0, rr.1)) && final(cur).pos == rr.2,
            Err(er) => r == Err::<(Tmpl, u8), DecodeError>(er),
        },
{
    match e {
        Entry::Absent => Err(DecodeError::UnknownOpcode),
        Entry::Ins(t) => check(ctx, t, oplow),
        Entry::Split(tleg, t64) => check(
            ctx,
            if matches!(ctx.mode, MachineMode::Bits64) { t64 } else { tleg },
            oplow,
        ),
        Entry::Grp(g) => match cur.peek(1) {
            Err(er) => Err(er),
            Ok(m) => match group_lookup(g, modrm_reg(m as u8)) {
                Entry::Ins(t) => check(ctx, t, oplow),
                _ => Err(DecodeError::UnknownOpcode),
            },
        },
    }
}

/// Executable twin of [`spec_check`].
fn check(ctx: &Ctx, t: Tmpl, oplow: u8) -> (r: Result<(Tmpl, u8), DecodeError>)
    ensures
        match spec_check(*ctx, t, oplow, 0) {
            Ok(rr) => r == Ok::<(Tmpl, u8), DecodeError>((rr.0, rr.1)),
            Err(er) => r == Err::<(Tmpl, u8), DecodeError>(er),
        },
{
    if (t.modes / mode_bit(ctx.mode)) % 2 == 0 {
        Err(DecodeError::UnknownOpcode)
    } else if matches!(t.category, Category::Ud) {
        Err(DecodeError::UdInstruction)
    } else {
        Ok((t, oplow))
    }
}

} // verus!
