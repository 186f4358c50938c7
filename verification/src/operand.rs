//! Decoded operands and the operand decoder.
//!
//! Given a template, the operand descriptors are decoded in declared order:
//! register slots from ModRM and the prefix extension bits, memory operands
//! from ModRM/SIB and a displacement, immediates and relative offsets from
//! the bytes that follow. Decoding is strictly sequential; no byte is ever
//! read twice and nothing backtracks.

use vstd::prelude::*;

use crate::context::{
    addr_width, op_width, spec_addr_width, spec_op_width, spec_v64_width, spec_vec_width,
    spec_z_width, v64_width, vec_width, z_width, Ctx, MachineMode,
};
use crate::cursor::{lemma_read_agree, spec_read, Cursor};
use crate::decode_error::DecodeError;
use crate::opcode_table::{OpDesc, Tmpl};

verus! {

/// The register file a register operand names.
#[derive(Copy, Clone, Eq, PartialEq, Debug, Structural)]
pub enum RegClass {
    /// A general-purpose register.
    Gpr,
    /// A segment register.
    Seg,
    /// A vector register.
    Vec,
}

/// The base of a memory operand.
#[derive(Copy, Clone, Eq, PartialEq, Debug, Structural)]
pub enum MemBase {
    /// No base register.
    Absent,
    /// A general-purpose base register.
    Gpr(u8),
    /// The instruction pointer: a RIP-relative operand in long mode.
    Rip,
}

/// The index register of a memory operand.
#[derive(Copy, Clone, Eq, PartialEq, Debug, Structural)]
pub enum MemIndex {
    /// No index register.
    Absent,
    /// A general-purpose index register, multiplied by the scale.
    Reg(u8),
}

/// One decoded operand.
#[derive(Copy, Clone, Eq, PartialEq, Debug, Structural)]
pub enum Operand {
    /// A register operand.
    Register {
        /// The register file.
        class: RegClass,
        /// The register number, extension bits included.
        reg: u8,
        /// The access width in bits.
        width: u16,
    },
    /// A memory operand.
    Memory {
        /// The segment-override prefix byte in force, or `0`.
        seg: u8,
        /// The base register, if any.
        base: MemBase,
        /// The index register, if any.
        index: MemIndex,
        /// The index scale: 1, 2, 4 or 8.
        scale: u8,
        /// The displacement, sign-extended.
        disp: i64,
    },
    /// An immediate operand.
    Immediate {
        /// The immediate, sign-extended when the descriptor says so.
        value: u64,
        /// The operand width in bits.
        width: u16,
    },
    /// A relative branch offset.
    Relative {
        /// The offset, sign-extended.
        offset: i64,
        /// The encoded width in bits.
        width: u16,
    },
}

/// A 3-bit register field widened by its REX/VEX extension bit.
pub open spec fn spec_ext(low: u8, ext: bool) -> u8 {
    if ext { (low + 8) as u8 } else { low }
}

/// The addressing-mode field of a ModRM byte: its top two bits.
pub open spec fn spec_modrm_mod(m: u8) -> u8 {
    m / 64
}

/// The register field of a ModRM byte: its middle three bits.
pub open spec fn spec_modrm_reg(m: u8) -> u8 {
    (m / 8) % 8
}

/// The register-or-memory field of a ModRM byte: its low three bits.
pub open spec fn spec_modrm_rm(m: u8) -> u8 {
    m % 8
}

/// Sign-extends the low `bits` bits of `v` to 64 bits.
pub open spec fn spec_sext(v: u64, bits: u16) -> u64 {
    if bits == 8 {
        if v < 0x80 { v } else { v | 0xFFFF_FFFF_FFFF_FF00u64 }
    } else if bits == 16 {
        if v < 0x8000 { v } else { v | 0xFFFF_FFFF_FFFF_0000u64 }
    } else if bits == 32 {
        if v < 0x8000_0000 { v } else { v | 0xFFFF_FFFF_0000_0000u64 }
    } else {
        v
    }
}

/// Whether a descriptor is decoded out of the ModRM byte.
pub open spec fn spec_desc_uses_modrm(d: OpDesc) -> bool {
    match d {
        OpDesc::GrmB | OpDesc::GrmW | OpDesc::GrmD | OpDesc::GrmV | OpDesc::GrmV64
        | OpDesc::GrmMem | OpDesc::GregB | OpDesc::GregW | OpDesc::GregV | OpDesc::SegReg
        | OpDesc::Vreg | OpDesc::Vrm => true,
        _ => false,
    }
}

/// Whether a template needs a ModRM byte at all.
pub open spec fn spec_needs_modrm(t: Tmpl) -> bool {
    spec_desc_uses_modrm(t.o1) || spec_desc_uses_modrm(t.o2) || spec_desc_uses_modrm(t.o3)
        || spec_desc_uses_modrm(t.o4)
}

/// The base/index pair of 16-bit addressing for one rm value (the
/// no-base absolute form `rm == 6, mod == 0` is handled by the caller).
pub open spec fn spec_mem16_regs(rm: u8) -> (MemBase, MemIndex) {
    if rm == 0 {
        (MemBase::Gpr(3), MemIndex::Reg(6))
    } else if rm == 1 {
        (MemBase::Gpr(3), MemIndex::Reg(7))
    } else if rm == 2 {
        (MemBase::Gpr(5), MemIndex::Reg(6))
    } else if rm == 3 {
        (MemBase::Gpr(5), MemIndex::Reg(7))
    } else if rm == 4 {
        (MemBase::Gpr(6), MemIndex::Absent)
    } else if rm == 5 {
        (MemBase::Gpr(7), MemIndex::Absent)
    } else if rm == 6 {
        (MemBase::Gpr(5), MemIndex::Absent)
    } else {
        (MemBase::Gpr(3), MemIndex::Absent)
    }
}

/// Decodes a 16-bit-addressing memory operand: base/index from the rm
/// field, a displacement of 0, 1 or 2 bytes from the mod field, and the
/// absolute `disp16` form at `mod == 0, rm == 6`.
pub open spec fn spec_mem_operand16(s: Seq<u8>, ctx: Ctx, modrm: u8, pos: int) -> Result<
    (Operand, int),
    DecodeError,
> {
    let md = spec_modrm_mod(modrm);
    let rm = spec_modrm_rm(modrm);
    if md == 0 && rm == 6 {
        match spec_read(s, pos, 2) {
            Ok(v) => Ok(
                (
                    Operand::Memory {
                        seg: ctx.pfx.seg,
                        base: MemBase::Absent,
                        index: MemIndex::Absent,
                        scale: 1,
                        disp: spec_sext(v, 16) as i64,
                    },
                    pos + 2,
                ),
            ),
            Err(e) => Err(e),
        }
    } else {
        let (base, index) = spec_mem16_regs(rm);
        if md == 0 {
            Ok(
                (
                    Operand::Memory {
                        seg: ctx.pfx.seg,
                        base,
                        index,
                        scale: 1,
                        disp: 0,
                    },
                    pos,
                ),
            )
        } else if md == 1 {
            match spec_read(s, pos, 1) {
                Ok(v) => Ok(
                    (
                        Operand::Memory {
                            seg: ctx.pfx.seg,
                            base,
                            index,
                            scale: 1,
                            disp: spec_sext(v, 8) as i64,
                        },
                        pos + 1,
                    ),
                ),
                Err(e) => Err(e),
            }
        } else {
            match spec_read(s, pos, 2) {
                Ok(v) => Ok(
                    (
                        Operand::Memory {
                            seg: ctx.pfx.seg,
                            base,
                            index,
                            scale: 1,
                            disp: spec_sext(v, 16) as i64,
                        },
                        pos + 2,
                    ),
                ),
                Err(e) => Err(e),
            }
        }
    }
}

/// The displacement size in bytes of a 32/64-bit-addressing form, given the
/// mod field and the (SIB-decoded) base-is-absent special case.
pub open spec fn spec_disp_bytes32(md: u8, base_absent: bool) -> nat {
    if md == 1 {
        1
    } else if md == 2 {
        4
    } else if base_absent {
        4
    } else {
        0
    }
}

/// Decodes a 32/64-bit-addressing memory operand after its base, index and
/// scale are known: reads the displacement and assembles the operand.
pub open spec fn spec_mem_disp(
    s: Seq<u8>,
    ctx: Ctx,
    base: MemBase,
    index: MemIndex,
    scale: u8,
    nd: nat,
    pos: int,
) -> Result<(Operand, int), DecodeError> {
    if nd == 0 {
        Ok(
            (
                Operand::Memory { seg: ctx.pfx.seg, base, index, scale, disp: 0 },
                pos,
            ),
        )
    } else {
        match spec_read(s, pos, nd) {
            Ok(v) => Ok(
                (
                    Operand::Memory {
                        seg: ctx.pfx.seg,
                        base,
                        index,
                        scale,
                        disp: spec_sext(v, (8 * nd) as u16) as i64,
                    },
                    pos + nd,
                ),
            ),
            Err(e) => Err(e),
        }
    }
}

/// Decodes a 32/64-bit-addressing memory operand: SIB byte when the rm
/// field asks for one, the RIP-relative and no-base special cases, then the
/// displacement.
pub open spec fn spec_mem_operand32(s: Seq<u8>, ctx: Ctx, modrm: u8, pos: int) -> Result<
    (Operand, int),
    DecodeError,
> {
    let md = spec_modrm_mod(modrm);
    let rm = spec_modrm_rm(modrm);
    if rm == 4 {
        match spec_read(s, pos, 1) {
            Ok(sib) => {
                let sib = sib as u8;
                let ss = sib / 64;
                let idx = spec_ext((sib / 8) % 8, ctx.x);
                let bs = spec_ext(sib % 8, ctx.b);
                let index = if idx == 4 {
                    MemIndex::Absent
                } else {
                    MemIndex::Reg(idx)
                };
                let scale = if ss == 0 { 1u8 } else if ss == 1 { 2u8 } else if ss == 2 { 4u8 } else { 8u8 };
                let base_absent = sib % 8 == 5 && md == 0;
                let base = if base_absent {
                    MemBase::Absent
                } else {
                    MemBase::Gpr(bs)
                };
                spec_mem_disp(s, ctx, base, index, scale, spec_disp_bytes32(md, base_absent), pos + 1)
            },
            Err(e) => Err(e),
        }
    } else if rm == 5 && md == 0 {
        let base = if ctx.mode == MachineMode::Bits64 {
            MemBase::Rip
        } else {
            MemBase::Absent
        };
        spec_mem_disp(s, ctx, base, MemIndex::Absent, 1, 4, pos)
    } else {
        let base = MemBase::Gpr(spec_ext(rm, ctx.b));
        spec_mem_disp(s, ctx, base, MemIndex::Absent, 1, spec_disp_bytes32(md, false), pos)
    }
}

/// Decodes the memory form of a ModRM operand under the effective address
/// size.
pub open spec fn spec_mem_operand(s: Seq<u8>, ctx: Ctx, modrm: u8, pos: int) -> Result<
    (Operand, int),
    DecodeError,
> {
    if spec_addr_width(ctx) == 16 {
        spec_mem_operand16(s, ctx, modrm, pos)
    } else {
        spec_mem_operand32(s, ctx, modrm, pos)
    }
}

/// Decodes a register-or-memory operand: the register form under
/// `mod == 3` (reserved for memory-only descriptors), the memory form
/// otherwise.
pub open spec fn spec_rm_operand(
    s: Seq<u8>,
    ctx: Ctx,
    modrm: u8,
    class: RegClass,
    width: u16,
    mem_only: bool,
    pos: int,
) -> Result<(Operand, int), DecodeError> {
    if spec_modrm_mod(modrm) == 3 {
        if mem_only {
            Err(DecodeError::InvalidModRm)
        } else {
            Ok(
                (
                    Operand::Register {
                        class,
                        reg: spec_ext(spec_modrm_rm(modrm), ctx.b),
                        width,
                    },
                    pos,
                ),
            )
        }
    } else {
        spec_mem_operand(s, ctx, modrm, pos)
    }
}

/// Appends the operand one descriptor decodes, consuming its bytes; a
/// `Void` descriptor adds nothing.
#[verifier::opaque]
pub open spec fn spec_op_step(
    s: Seq<u8>,
    ctx: Ctx,
    d: OpDesc,
    oplow: u8,
    modrm: u8,
    acc: Seq<Operand>,
    pos: int,
) -> Result<(Seq<Operand>, int), DecodeError> {
    let opw = spec_op_width(ctx);
    let zw = spec_z_width(ctx);
    let reg_ext = spec_ext(spec_modrm_reg(modrm), ctx.r);
    let opc_ext = spec_ext(oplow % 8, ctx.b);
    match d {
        OpDesc::Void => Ok((acc, pos)),
        OpDesc::GrmB => spec_rm_push(s, ctx, modrm, RegClass::Gpr, 8, false, acc, pos),
        OpDesc::GrmW => spec_rm_push(s, ctx, modrm, RegClass::Gpr, 16, false, acc, pos),
        OpDesc::GrmD => spec_rm_push(s, ctx, modrm, RegClass::Gpr, 32, false, acc, pos),
        OpDesc::GrmV => spec_rm_push(s, ctx, modrm, RegClass::Gpr, opw, false, acc, pos),
        OpDesc::GrmV64 => spec_rm_push(
            s,
            ctx,
            modrm,
            RegClass::Gpr,
            spec_v64_width(ctx),
            false,
            acc,
            pos,
        ),
        OpDesc::GrmMem => spec_rm_push(s, ctx, modrm, RegClass::Gpr, 0, true, acc, pos),
        OpDesc::GregB => Ok(
            (acc.push(Operand::Register { class: RegClass::Gpr, reg: reg_ext, width: 8 }), pos),
        ),
        OpDesc::GregW => Ok(
            (acc.push(Operand::Register { class: RegClass::Gpr, reg: reg_ext, width: 16 }), pos),
        ),
        OpDesc::GregV => Ok(
            (acc.push(Operand::Register { class: RegClass::Gpr, reg: reg_ext, width: opw }), pos),
        ),
        OpDesc::SegReg => if spec_modrm_reg(modrm) >= 6 {
            Err(DecodeError::InvalidModRm)
        } else {
            Ok(
                (
                    acc.push(
                        Operand::Register {
                            class: RegClass::Seg,
                            reg: spec_modrm_reg(modrm),
                            width: 16,
                        },
                    ),
                    pos,
                ),
            )
        },
        OpDesc::OpcRegB => Ok(
            (acc.push(Operand::Register { class: RegClass::Gpr, reg: opc_ext, width: 8 }), pos),
        ),
        OpDesc::OpcRegV => Ok(
            (acc.push(Operand::Register { class: RegClass::Gpr, reg: opc_ext, width: opw }), pos),
        ),
        OpDesc::OpcRegV64 => Ok(
            (
                acc.push(
                    Operand::Register {
                        class: RegClass::Gpr,
                        reg: opc_ext,
                        width: spec_v64_width(ctx),
                    },
                ),
                pos,
            ),
        ),
        OpDesc::IAl => Ok(
            (acc.push(Operand::Register { class: RegClass::Gpr, reg: 0, width: 8 }), pos),
        ),
        OpDesc::IAXv => Ok(
            (acc.push(Operand::Register { class: RegClass::Gpr, reg: 0, width: opw }), pos),
        ),
        OpDesc::IAXz => Ok(
            (acc.push(Operand::Register { class: RegClass::Gpr, reg: 0, width: zw }), pos),
        ),
        OpDesc::ICl => Ok(
            (acc.push(Operand::Register { class: RegClass::Gpr, reg: 1, width: 8 }), pos),
        ),
        OpDesc::IDx => Ok(
            (acc.push(Operand::Register { class: RegClass::Gpr, reg: 2, width: 16 }), pos),
        ),
        OpDesc::ISeg(r) => Ok(
            (acc.push(Operand::Register { class: RegClass::Seg, reg: r, width: 16 }), pos),
        ),
        OpDesc::ImmB => match spec_read(s, pos, 1) {
            Ok(v) => Ok((acc.push(Operand::Immediate { value: v, width: 8 }), pos + 1)),
            Err(e) => Err(e),
        },
        OpDesc::ImmBs => match spec_read(s, pos, 1) {
            Ok(v) => Ok(
                (acc.push(Operand::Immediate { value: spec_sext(v, 8), width: opw }), pos + 1),
            ),
            Err(e) => Err(e),
        },
        OpDesc::ImmZ => {
            let nb: nat = if zw == 16 { 2 } else { 4 };
            match spec_read(s, pos, nb) {
                Ok(v) => Ok(
                    (
                        acc.push(
                            Operand::Immediate {
                                value: if opw == 64 { spec_sext(v, 32) } else { v },
                                width: if opw == 64 { 64 } else { zw },
                            },
                        ),
                        pos + nb,
                    ),
                ),
                Err(e) => Err(e),
            }
        },
        OpDesc::ImmV => {
            let nb: nat = if opw == 64 { 8 } else if opw == 16 { 2 } else { 4 };
            match spec_read(s, pos, nb) {
                Ok(v) => Ok((acc.push(Operand::Immediate { value: v, width: opw }), pos + nb)),
                Err(e) => Err(e),
            }
        },
        OpDesc::ImmW => match spec_read(s, pos, 2) {
            Ok(v) => Ok((acc.push(Operand::Immediate { value: v, width: 16 }), pos + 2)),
            Err(e) => Err(e),
        },
        OpDesc::RelB => match spec_read(s, pos, 1) {
            Ok(v) => Ok(
                (
                    acc.push(Operand::Relative { offset: spec_sext(v, 8) as i64, width: 8 }),
                    pos + 1,
                ),
            ),
            Err(e) => Err(e),
        },
        OpDesc::RelZ => {
            let nb: nat = if zw == 16 { 2 } else { 4 };
            match spec_read(s, pos, nb) {
                Ok(v) => Ok(
                    (
                        acc.push(
                            Operand::Relative { offset: spec_sext(v, zw) as i64, width: zw },
                        ),
                        pos + nb,
                    ),
                ),
                Err(e) => Err(e),
            }
        },
        OpDesc::ImplOne => Ok((acc.push(Operand::Immediate { value: 1, width: 8 }), pos)),
        OpDesc::Moffs => {
            let aw = spec_addr_width(ctx);
            let nb: nat = if aw == 16 { 2 } else if aw == 32 { 4 } else { 8 };
            match spec_read(s, pos, nb) {
                Ok(v) => Ok(
                    (
                        acc.push(
                            Operand::Memory {
                                seg: ctx.pfx.seg,
                                base: MemBase::Absent,
                                index: MemIndex::Absent,
                                scale: 1,
                                disp: v as i64,
                            },
                        ),
                        pos + nb,
                    ),
                ),
                Err(e) => Err(e),
            }
        },
        OpDesc::Vreg => Ok(
            (
                acc.push(
                    Operand::Register {
                        class: RegClass::Vec,
                        reg: reg_ext,
                        width: spec_vec_width(ctx),
                    },
                ),
                pos,
            ),
        ),
        OpDesc::Vrm => spec_rm_push(
            s,
            ctx,
            modrm,
            RegClass::Vec,
            spec_vec_width(ctx),
            false,
            acc,
            pos,
        ),
        OpDesc::Hreg => Ok(
            (
                acc.push(
                    Operand::Register {
                        class: RegClass::Vec,
                        reg: ctx.vvvv,
                        width: spec_vec_width(ctx),
                    },
                ),
                pos,
            ),
        ),
    }
}

/// Appends a register-or-memory operand to the accumulator.
pub open spec fn spec_rm_push(
    s: Seq<u8>,
    ctx: Ctx,
    modrm: u8,
    class: RegClass,
    width: u16,
    mem_only: bool,
    acc: Seq<Operand>,
    pos: int,
) -> Result<(Seq<Operand>, int), DecodeError> {
    match spec_rm_operand(s, ctx, modrm, class, width, mem_only, pos) {
        Ok((o, p)) => Ok((acc.push(o), p)),
        Err(e) => Err(e),
    }
}

/// Decodes all operands of a template: the ModRM byte first when any
/// descriptor needs it, then the four descriptor slots in declared order.
pub open spec fn spec_operands(s: Seq<u8>, ctx: Ctx, t: Tmpl, oplow: u8, pos: int) -> Result<
    (Seq<Operand>, int),
    DecodeError,
> {
    let fetch: Result<(u8, int), DecodeError> = if spec_needs_modrm(t) {
        match spec_read(s, pos, 1) {
            Ok(m) => Ok((m as u8, pos + 1)),
            Err(e) => Err(e),
        }
    } else {
        Ok((0u8, pos))
    };
    match fetch {
        Err(e) => Err(e),
        Ok((modrm, p0)) => match spec_op_step(s, ctx, t.o1, oplow, modrm, Seq::empty(), p0) {
            Err(e) => Err(e),
            Ok((a1, p1)) => match spec_op_step(s, ctx, t.o2, oplow, modrm, a1, p1) {
                Err(e) => Err(e),
                Ok((a2, p2)) => match spec_op_step(s, ctx, t.o3, oplow, modrm, a2, p2) {
                    Err(e) => Err(e),
                    Ok((a3, p3)) => spec_op_step(s, ctx, t.o4, oplow, modrm, a3, p3),
                },
            },
        },
    }
}

/// Truncating a successful displacement read: enough bytes give the same
/// operand, too few give `OutOfBuffer`.
proof fn lemma_mem_disp_agree(
    s1: Seq<u8>,
    s2: Seq<u8>,
    ctx: Ctx,
    base: MemBase,
    index: MemIndex,
    scale: u8,
    nd: nat,
    pos: int,
)
    requires
        0 <= pos,
        s2.len() <= s1.len(),
        forall|i: int| 0 <= i < s2.len() ==> s1[i] == s2[i],
    ensures
        spec_mem_disp(s1, ctx, base, index, scale, nd, pos) matches Ok(r) ==> {
            &&& s2.len() >= r.1 ==> spec_mem_disp(s2, ctx, base, index, scale, nd, pos)
                == spec_mem_disp(s1, ctx, base, index, scale, nd, pos)
            &&& pos <= s2.len() < r.1 ==> spec_mem_disp(s2, ctx, base, index, scale, nd, pos)
                == Err::<(Operand, int), DecodeError>(DecodeError::OutOfBuffer)
        },
{
    if nd > 0 && spec_read(s1, pos, nd) is Ok {
        lemma_read_agree(s1, s2, pos, nd);
    }
}

/// Truncation behaviour of the 16-bit-addressing memory decoder.
proof fn lemma_mem16_agree(s1: Seq<u8>, s2: Seq<u8>, ctx: Ctx, modrm: u8, pos: int)
    requires
        0 <= pos,
        s2.len() <= s1.len(),
        forall|i: int| 0 <= i < s2.len() ==> s1[i] == s2[i],
    ensures
        spec_mem_operand16(s1, ctx, modrm, pos) matches Ok(r) ==> {
            &&& s2.len() >= r.1 ==> spec_mem_operand16(s2, ctx, modrm, pos) == spec_mem_operand16(
                s1,
                ctx,
                modrm,
                pos,
            )
            &&& pos <= s2.len() < r.1 ==> spec_mem_operand16(s2, ctx, modrm, pos) == Err::<
                (Operand, int),
                DecodeError,
            >(DecodeError::OutOfBuffer)
        },
{
    if spec_read(s1, pos, 1) is Ok {
        lemma_read_agree(s1, s2, pos, 1);
    }
    if spec_read(s1, pos, 2) is Ok {
        lemma_read_agree(s1, s2, pos, 2);
    }
}

/// Truncation behaviour of the 32/64-bit-addressing memory decoder.
proof fn lemma_mem32_agree(s1: Seq<u8>, s2: Seq<u8>, ctx: Ctx, modrm: u8, pos: int)
    requires
        0 <= pos,
        s2.len() <= s1.len(),
        forall|i: int| 0 <= i < s2.len() ==> s1[i] == s2[i],
    ensures
        spec_mem_operand32(s1, ctx, modrm, pos) matches Ok(r) ==> {
            &&& s2.len() >= r.1 ==> spec_mem_operand32(s2, ctx, modrm, pos) == spec_mem_operand32(
                s1,
                ctx,
                modrm,
                pos,
            )
            &&& pos <= s2.len() < r.1 ==> spec_mem_operand32(s2, ctx, modrm, pos) == Err::<
                (Operand, int),
                DecodeError,
            >(DecodeError::OutOfBuffer)
        },
{
    let md = spec_modrm_mod(modrm);
    let rm = spec_modrm_rm(modrm);
    if rm == 4 {
        if spec_read(s1, pos, 1) is Ok {
            lemma_read_agree(s1, s2, pos, 1);
            let sib = spec_read(s1, pos, 1)->Ok_0 as u8;
            let ss = sib / 64;
            let idx = spec_ext((sib / 8) % 8, ctx.x);
            let bs = spec_ext(sib % 8, ctx.b);
            let index = if idx == 4 { MemIndex::Absent } else { MemIndex::Reg(idx) };
            let scale = if ss == 0 { 1u8 } else if ss == 1 { 2u8 } else if ss == 2 { 4u8 } else { 8u8 };
            let base_absent = sib % 8 == 5 && md == 0;
            let base = if base_absent { MemBase::Absent } else { MemBase::Gpr(bs) };
            lemma_mem_disp_agree(
                s1,
                s2,
                ctx,
                base,
                index,
                scale,
                spec_disp_bytes32(md, base_absent),
                pos + 1,
            );
        }
    } else if rm == 5 && md == 0 {
        let base = if ctx.mode == MachineMode::Bits64 { MemBase::Rip } else { MemBase::Absent };
        lemma_mem_disp_agree(s1, s2, ctx, base, MemIndex::Absent, 1, 4, pos);
    } else {
        let base = MemBase::Gpr(spec_ext(rm, ctx.b));
        lemma_mem_disp_agree(
            s1,
            s2,
            ctx,
            base,
            MemIndex::Absent,
            1,
            spec_disp_bytes32(md, false),
            pos,
        );
    }
}

/// Truncation behaviour of the memory form shared by all
/// register-or-memory descriptors.
proof fn lemma_rm_agree(s1: Seq<u8>, s2: Seq<u8>, ctx: Ctx, modrm: u8, pos: int)
    requires
        0 <= pos,
        s2.len() <= s1.len(),
        forall|i: int| 0 <= i < s2.len() ==> s1[i] == s2[i],
    ensures
        spec_mem_operand(s1, ctx, modrm, pos) matches Ok(r) ==> {
            &&& s2.len() >= r.1 ==> spec_mem_operand(s2, ctx, modrm, pos) == spec_mem_operand(
                s1,
                ctx,
                modrm,
                pos,
            )
            &&& pos <= s2.len() < r.1 ==> spec_mem_operand(s2, ctx, modrm, pos) == Err::<
                (Operand, int),
                DecodeError,
            >(DecodeError::OutOfBuffer)
        },
{
    if spec_addr_width(ctx) == 16 {
        lemma_mem16_agree(s1, s2, ctx, modrm, pos);
    } else {
        lemma_mem32_agree(s1, s2, ctx, modrm, pos);
    }
}

/// Truncation behaviour of one descriptor step: enough bytes give the same
/// operands and position, too few give `OutOfBuffer`.
#[verifier::rlimit(100)]
#[verifier::spinoff_prover]
pub proof fn lemma_op_step_agree(
    s1: Seq<u8>,
    s2: Seq<u8>,
    ctx: Ctx,
    d: OpDesc,
    oplow: u8,
    modrm: u8,
    acc: Seq<Operand>,
    pos: int,
)
    requires
        0 <= pos,
        s2.len() <= s1.len(),
        forall|i: int| 0 <= i < s2.len() ==> s1[i] == s2[i],
    ensures
        spec_op_step(s1, ctx, d, oplow, modrm, acc, pos) matches Ok(r) ==> {
            &&& pos <= r.1
            &&& s2.len() >= r.1 ==> spec_op_step(s2, ctx, d, oplow, modrm, acc, pos)
                == spec_op_step(s1, ctx, d, oplow, modrm, acc, pos)
            &&& pos <= s2.len() < r.1 ==> spec_op_step(s2, ctx, d, oplow, modrm, acc, pos) == Err::<
                (Seq<Operand>, int),
                DecodeError,
            >(DecodeError::OutOfBuffer)
        },
{
    reveal(spec_op_step);
    let zw = spec_z_width(ctx);
    let opw = spec_op_width(ctx);
    let aw = spec_addr_width(ctx);
    match d {
        OpDesc::GrmB | OpDesc::GrmW | OpDesc::GrmD | OpDesc::GrmV | OpDesc::GrmV64
        | OpDesc::GrmMem | OpDesc::Vrm => {
            lemma_rm_agree(s1, s2, ctx, modrm, pos);
        },
        OpDesc::ImmB | OpDesc::ImmBs | OpDesc::RelB => {
            if spec_read(s1, pos, 1) is Ok {
                lemma_read_agree(s1, s2, pos, 1);
            }
        },
        OpDesc::ImmW => {
            if spec_read(s1, pos, 2) is Ok {
                lemma_read_agree(s1, s2, pos, 2);
            }
        },
        OpDesc::ImmZ | OpDesc::RelZ => {
            let nb: nat = if zw == 16 { 2 } else { 4 };
            if spec_read(s1, pos, nb) is Ok {
                lemma_read_agree(s1, s2, pos, nb);
            }
        },
        OpDesc::ImmV => {
            let nb: nat = if opw == 64 { 8 } else if opw == 16 { 2 } else { 4 };
            if spec_read(s1, pos, nb) is Ok {
                lemma_read_agree(s1, s2, pos, nb);
            }
        },
        OpDesc::Moffs => {
            let nb: nat = if aw == 16 { 2 } else if aw == 32 { 4 } else { 8 };
            if spec_read(s1, pos, nb) is Ok {
                lemma_read_agree(s1, s2, pos, nb);
            }
        },
        _ => {},
    }
}

/// Truncation behaviour of the whole operand stage.
#[verifier::rlimit(100)]
#[verifier::spinoff_prover]
pub proof fn lemma_operands_agree(
    s1: Seq<u8>,
    s2: Seq<u8>,
    ctx: Ctx,
    t: Tmpl,
    oplow: u8,
    pos: int,
)
    requires
        0 <= pos,
        s2.len() <= s1.len(),
        forall|i: int| 0 <= i < s2.len() ==> s1[i] == s2[i],
    ensures
        spec_operands(s1, ctx, t, oplow, pos) matches Ok(r) ==> {
            &&& s2.len() >= r.1 ==> spec_operands(s2, ctx, t, oplow, pos) == spec_operands(
                s1,
                ctx,
                t,
                oplow,
                pos,
            )
            &&& pos <= s2.len() < r.1 ==> spec_operands(s2, ctx, t, oplow, pos) == Err::<
                (Seq<Operand>, int),
                DecodeError,
            >(DecodeError::OutOfBuffer)
        },
{
    if spec_operands(s1, ctx, t, oplow, pos) is Ok {
        if spec_needs_modrm(t) {
            lemma_read_agree(s1, s2, pos, 1);
        }
        let p0 = if spec_needs_modrm(t) { pos + 1 } else { pos };
        let modrm = if spec_needs_modrm(t) { spec_read(s1, pos, 1)->Ok_0 as u8 } else { 0u8 };
        let r1 = spec_op_step(s1, ctx, t.o1, oplow, modrm, Seq::empty(), p0);
        lemma_op_step_agree(s1, s2, ctx, t.o1, oplow, modrm, Seq::empty(), p0);
        let (a1, p1) = r1->Ok_0;
        let r2 = spec_op_step(s1, ctx, t.o2, oplow, modrm, a1, p1);
        lemma_op_step_agree(s1, s2, ctx, t.o2, oplow, modrm, a1, p1);
        let (a2, p2) = r2->Ok_0;
        let r3 = spec_op_step(s1, ctx, t.o3, oplow, modrm, a2, p2);
        lemma_op_step_agree(s1, s2, ctx, t.o3, oplow, modrm, a2, p2);
        let (a3, p3) = r3->Ok_0;
        lemma_op_step_agree(s1, s2, ctx, t.o4, oplow, modrm, a3, p3);
    }
}

/// A successful descriptor step stays inside the buffer and the 15-byte
/// cap, never moves backwards, and appends at most one operand.
#[verifier::rlimit(100)]
#[verifier::spinoff_prover]
pub proof fn lemma_op_step_bounds(
    s: Seq<u8>,
    ctx: Ctx,
    d: OpDesc,
    oplow: u8,
    modrm: u8,
    acc: Seq<Operand>,
    pos: int,
)
    requires
        0 <= pos <= 15,
        pos <= s.len(),
    ensures
        spec_op_step(s, ctx, d, oplow, modrm, acc, pos) matches Ok(r) ==> pos <= r.1 <= 15
            && r.1 <= s.len() && acc.len() <= r.0.len() <= acc.len() + 1,
{
    reveal(spec_op_step);
    match d {
        OpDesc::GrmB | OpDesc::GrmW | OpDesc::GrmD | OpDesc::GrmV | OpDesc::GrmV64
        | OpDesc::GrmMem | OpDesc::Vrm => {
            lemma_rm_bounds(s, ctx, modrm, pos);
        },
        _ => {},
    }
}

/// A successful memory-operand decode stays inside the buffer and the cap.
proof fn lemma_rm_bounds(s: Seq<u8>, ctx: Ctx, modrm: u8, pos: int)
    requires
        0 <= pos <= 15,
        pos <= s.len(),
    ensures
        spec_mem_operand(s, ctx, modrm, pos) matches Ok(r) ==> pos <= r.1 <= 15 && r.1 <= s.len(),
{
}

/// A successful operand stage stays inside the buffer and the 15-byte cap,
/// never moves backwards, and yields at most four operands.
pub proof fn lemma_operands_bounds(s: Seq<u8>, ctx: Ctx, t: Tmpl, oplow: u8, pos: int)
    requires
        0 <= pos <= 15,
        pos <= s.len(),
    ensures
        spec_operands(s, ctx, t, oplow, pos) matches Ok(r) ==> pos <= r.1 <= 15 && r.1 <= s.len()
            && r.0.len() <= 4 && (spec_needs_modrm(t) ==> r.1 >= pos + 1),
{
    if spec_operands(s, ctx, t, oplow, pos) is Ok {
        let p0 = if spec_needs_modrm(t) { pos + 1 } else { pos };
        let modrm = if spec_needs_modrm(t) { spec_read(s, pos, 1)->Ok_0 as u8 } else { 0u8 };
        let r1 = spec_op_step(s, ctx, t.o1, oplow, modrm, Seq::empty(), p0);
        lemma_op_step_bounds(s, ctx, t.o1, oplow, modrm, Seq::empty(), p0);
        let (a1, p1) = r1->Ok_0;
        let r2 = spec_op_step(s, ctx, t.o2, oplow, modrm, a1, p1);
        lemma_op_step_bounds(s, ctx, t.o2, oplow, modrm, a1, p1);
        let (a2, p2) = r2->Ok_0;
        let r3 = spec_op_step(s, ctx, t.o3, oplow, modrm, a2, p2);
        lemma_op_step_bounds(s, ctx, t.o3, oplow, modrm, a2, p2);
        let (a3, p3) = r3->Ok_0;
        lemma_op_step_bounds(s, ctx, t.o4, oplow, modrm, a3, p3);
    }
}

/// Executable twin of [`spec_ext`].
fn ext(low: u8, e: bool) -> (r: u8)
    requires
        low < 128,
    ensures
        r == spec_ext(low, e),
{
    if e { low + 8 } else { low }
}

/// Executable twin of [`spec_modrm_mod`].
pub fn modrm_mod(m: u8) -> (r: u8)
    ensures
        r == spec_modrm_mod(m),
        r < 4,
{
    m / 64
}

/// Executable twin of [`spec_modrm_reg`].
pub fn modrm_reg(m: u8) -> (r: u8)
    ensures
        r == spec_modrm_reg(m),
        r < 8,
{
    (m / 8) % 8
}

/// Executable twin of [`spec_modrm_rm`].
pub fn modrm_rm(m: u8) -> (r: u8)
    ensures
        r == spec_modrm_rm(m),
        r < 8,
{
    m % 8
}

/// The low three bits of a byte.
fn low3(x: u8) -> (r: u8)
    ensures
        r == x % 8,
        r < 8,
{
    x % 8
}

/// Executable twin of [`spec_sext`].
fn sext(v: u64, bits: u16) -> (r: u64)
    ensures
        r == spec_sext(v, bits),
{
    if bits == 8 {
        if v < 0x80 { v } else { v | 0xFFFF_FFFF_FFFF_FF00u64 }
    } else if bits == 16 {
        if v < 0x8000 { v } else { v | 0xFFFF_FFFF_FFFF_0000u64 }
    } else if bits == 32 {
        if v < 0x8000_0000 { v } else { v | 0xFFFF_FFFF_0000_0000u64 }
    } else {
        v
    }
}

/// Executable twin of [`spec_desc_uses_modrm`].
fn desc_uses_modrm(d: OpDesc) -> (r: bool)
    ensures
        r == spec_desc_uses_modrm(d),
{
    match d {
        OpDesc::GrmB | OpDesc::GrmW | OpDesc::GrmD | OpDesc::GrmV | OpDesc::GrmV64
        | OpDesc::GrmMem | OpDesc::GregB | OpDesc::GregW | OpDesc::GregV | OpDesc::SegReg
        | OpDesc::Vreg | OpDesc::Vrm => true,
        _ => false,
    }
}

/// Executable twin of [`spec_needs_modrm`].
pub fn needs_modrm(t: &Tmpl) -> (r: bool)
    ensures
        r == spec_needs_modrm(*t),
{
    desc_uses_modrm(t.o1) || desc_uses_modrm(t.o2) || desc_uses_modrm(t.o3) || desc_uses_modrm(
        t.o4,
    )
}

/// Executable twin of [`spec_mem16_regs`].
fn mem16_regs(rm: u8) -> (r: (MemBase, MemIndex))
    ensures
        r == spec_mem16_regs(rm),
{
    if rm == 0 {
        (MemBase::Gpr(3), MemIndex::Reg(6))
    } else if rm == 1 {
        (MemBase::Gpr(3), MemIndex::Reg(7))
    } else if rm == 2 {
        (MemBase::Gpr(5), MemIndex::Reg(6))
    } else if rm == 3 {
        (MemBase::Gpr(5), MemIndex::Reg(7))
    } else if rm == 4 {
        (MemBase::Gpr(6), MemIndex::Absent)
    } else if rm == 5 {
        (MemBase::Gpr(7), MemIndex::Absent)
    } else if rm == 6 {
        (MemBase::Gpr(5), MemIndex::Absent)
    } else {
        (MemBase::Gpr(3), MemIndex::Absent)
    }
}

/// Reads the displacement and assembles a 32/64-bit-addressing memory
/// operand; executable twin of [`spec_mem_disp`].
fn mem_disp(
    cur: &mut Cursor,
    ctx: &Ctx,
    base: MemBase,
    index: MemIndex,
    scale: u8,
    nd: usize,
) -> (r: Result<Operand, DecodeError>)
    requires
        nd == 0 || nd == 1 || nd == 2 || nd == 4,
    ensures
        final(cur).buf@ == old(cur).buf@,
        match spec_mem_disp(
            old(cur).buf@,
            *ctx,
            base,
            index,
            scale,
            nd as nat,
            old(cur).pos as int,
        ) {
            Ok(o) => r == Ok::<Operand, DecodeError>(o.0) && final(cur).pos == o.1,
            Err(e) => r == Err::<Operand, DecodeError>(e),
        },
{
    if nd == 0 {
        Ok(Operand::Memory { seg: ctx.pfx.seg, base, index, scale, disp: 0 })
    } else {
        match cur.take(nd) {
            Ok(v) => Ok(
                Operand::Memory {
                    seg: ctx.pfx.seg,
                    base,
                    index,
                    scale,
                    disp: sext(v, (8 * nd) as u16) as i64,
                },
            ),
            Err(e) => Err(e),
        }
    }
}

/// Decodes the memory form of a ModRM operand under 16-bit addressing;
/// executable twin of [`spec_mem_operand16`].
fn mem_operand16(cur: &mut Cursor, ctx: &Ctx, modrm: u8) -> (r: Result<Operand, DecodeError>)
    ensures
        final(cur).buf@ == old(cur).buf@,
        match spec_mem_operand16(old(cur).buf@, *ctx, modrm, old(cur).pos as int) {
            Ok(o) => r == Ok::<Operand, DecodeError>(o.0) && final(cur).pos == o.1,
            Err(e) => r == Err::<Operand, DecodeError>(e),
        },
{
    let md = modrm_mod(modrm);
    let rm = modrm_rm(modrm);
    if md == 0 && rm == 6 {
        match cur.take(2) {
            Ok(v) => Ok(
                Operand::Memory {
                    seg: ctx.pfx.seg,
                    base: MemBase::Absent,
                    index: MemIndex::Absent,
                    scale: 1,
                    disp: sext(v, 16) as i64,
                },
            ),
            Err(e) => Err(e),
        }
    } else {
        let (base, index) = mem16_regs(rm);
        if md == 0 {
            Ok(Operand::Memory { seg: ctx.pfx.seg, base, index, scale: 1, disp: 0 })
        } else if md == 1 {
            match cur.take(1) {
                Ok(v) => Ok(
                    Operand::Memory {
                        seg: ctx.pfx.seg,
                        base,
                        index,
                        scale: 1,
                        disp: sext(v, 8) as i64,
                    },
                ),
                Err(e) => Err(e),
            }
        } else {
            match cur.take(2) {
                Ok(v) => Ok(
                    Operand::Memory {
                        seg: ctx.pfx.seg,
                        base,
                        index,
                        scale: 1,
                        disp: sext(v, 16) as i64,
                    },
                ),
                Err(e) => Err(e),
            }
        }
    }
}

/// Decodes the memory form of a ModRM operand under 32/64-bit addressing;
/// executable twin of [`spec_mem_operand32`].
fn mem_operand32(cur: &mut Cursor, ctx: &Ctx, modrm: u8) -> (r: Result<Operand, DecodeError>)
    ensures
        final(cur).buf@ == old(cur).buf@,
        match spec_mem_operand32(old(cur).buf@, *ctx, modrm, old(cur).pos as int) {
            Ok(o) => r == Ok::<Operand, DecodeError>(o.0) && final(cur).pos == o.1,
            Err(e) => r == Err::<Operand, DecodeError>(e),
        },
{
    let md = modrm_mod(modrm);
    let rm = modrm_rm(modrm);
    if rm == 4 {
        match cur.take(1) {
            Ok(v) => {
                let sib = v as u8;
                let ss = sib / 64;
                let idx = ext((sib / 8) % 8, ctx.x);
                let bs = ext(sib % 8, ctx.b);
                let index = if idx == 4 { MemIndex::Absent } else { MemIndex::Reg(idx) };
                let scale = if ss == 0 { 1u8 } else if ss == 1 { 2u8 } else if ss == 2 { 4u8 } else { 8u8 };
                let base_absent = sib % 8 == 5 && md == 0;
                let base = if base_absent { MemBase::Absent } else { MemBase::Gpr(bs) };
                let nd: usize = if md == 1 { 1 } else if md == 2 { 4 } else if base_absent { 4 } else { 0 };
                mem_disp(cur, ctx, base, index, scale, nd)
            },
            Err(e) => Err(e),
        }
    } else if rm == 5 && md == 0 {
        let base = if matches!(ctx.mode, MachineMode::Bits64) { MemBase::Rip } else { MemBase::Absent };
        mem_disp(cur, ctx, base, MemIndex::Absent, 1, 4)
    } else {
        let base = MemBase::Gpr(ext(rm, ctx.b));
        let nd: usize = if md == 1 { 1 } else if md == 2 { 4 } else { 0 };
        mem_disp(cur, ctx, base, MemIndex::Absent, 1, nd)
    }
}

/// Decodes the memory form of a ModRM operand; executable twin of
/// [`spec_mem_operand`].
fn mem_operand(cur: &mut Cursor, ctx: &Ctx, modrm: u8) -> (r: Result<Operand, DecodeError>)
    ensures
        final(cur).buf@ == old(cur).buf@,
        match spec_mem_operand(old(cur).buf@, *ctx, modrm, old(cur).pos as int) {
            Ok(o) => r == Ok::<Operand, DecodeError>(o.0) && final(cur).pos == o.1,
            Err(e) => r == Err::<Operand, DecodeError>(e),
        },
{
    if addr_width(ctx) == 16 {
        mem_operand16(cur, ctx, modrm)
    } else {
        mem_operand32(cur, ctx, modrm)
    }
}

/// Decodes a register-or-memory operand; executable twin of
/// [`spec_rm_operand`].
fn rm_operand(
    cur: &mut Cursor,
    ctx: &Ctx,
    modrm: u8,
    class: RegClass,
    width: u16,
    mem_only: bool,
) -> (r: Result<Operand, DecodeError>)
    ensures
        final(cur).buf@ == old(cur).buf@,
        match spec_rm_operand(
            old(cur).buf@,
            *ctx,
            modrm,
            class,
            width,
            mem_only,
            old(cur).pos as int,
        ) {
            Ok(o) => r == Ok::<Operand, DecodeError>(o.0) && final(cur).pos == o.1,
            Err(e) => r == Err::<Operand, DecodeError>(e),
        },
{
    if modrm_mod(modrm) == 3 {
        if mem_only {
            Err(DecodeError::InvalidModRm)
        } else {
            Ok(Operand::Register { class, reg: ext(modrm_rm(modrm), ctx.b), width })
        }
    } else {
        mem_operand(cur, ctx, modrm)
    }
}

/// Decodes one descriptor slot, appending its operand; executable twin of
/// [`spec_op_step`].
#[verifier::rlimit(100)]
#[verifier::spinoff_prover]
fn op_step(
    cur: &mut Cursor,
    ctx: &Ctx,
    d: OpDesc,
    oplow: u8,
    modrm: u8,
    ops: &mut Vec<Operand>,
) -> (r: Result<(), DecodeError>)
    ensures
        final(cur).buf@ == old(cur).buf@,
        match spec_op_step(
            old(cur).buf@,
            *ctx,
            d,
            oplow,
            modrm,
            old(ops)@,
            old(cur).pos as int,
        ) {
            Ok(o) => r is Ok && final(ops)@ == o.0 && final(cur).pos == o.1,
            Err(e) => r == Err::<(), DecodeError>(e),
        },
{
    proof {
        reveal(spec_op_step);
    }
    let opw = op_width(ctx);
    let zw = z_width(ctx);
    match d {
        OpDesc::Void => Ok(()),
        OpDesc::GrmB => push_rm(cur, ctx, modrm, RegClass::Gpr, 8, false, ops),
        OpDesc::GrmW => push_rm(cur, ctx, modrm, RegClass::Gpr, 16, false, ops),
        OpDesc::GrmD => push_rm(cur, ctx, modrm, RegClass::Gpr, 32, false, ops),
        OpDesc::GrmV => push_rm(cur, ctx, modrm, RegClass::Gpr, opw, false, ops),
        OpDesc::GrmV64 => push_rm(cur, ctx, modrm, RegClass::Gpr, v64_width(ctx), false, ops),
        OpDesc::GrmMem => push_rm(cur, ctx, modrm, RegClass::Gpr, 0, true, ops),
        OpDesc::GregB => {
            ops.push(
                Operand::Register { class: RegClass::Gpr, reg: ext(modrm_reg(modrm), ctx.r), width: 8 },
            );
            Ok(())
        },
        OpDesc::GregW => {
            ops.push(
                Operand::Register {
                    class: RegClass::Gpr,
                    reg: ext(modrm_reg(modrm), ctx.r),
                    width: 16,
                },
            );
            Ok(())
        },
        OpDesc::GregV => {
            ops.push(
                Operand::Register {
                    class: RegClass::Gpr,
                    reg: ext(modrm_reg(modrm), ctx.r),
                    width: opw,
                },
            );
            Ok(())
        },
        OpDesc::SegReg => {
            let reg = modrm_reg(modrm);
            if reg >= 6 {
                Err(DecodeError::InvalidModRm)
            } else {
                ops.push(Operand::Register { class: RegClass::Seg, reg, width: 16 });
                Ok(())
            }
        },
        OpDesc::OpcRegB => {
            ops.push(
                Operand::Register { class: RegClass::Gpr, reg: ext(low3(oplow), ctx.b), width: 8 },
            );
            Ok(())
        },
        OpDesc::OpcRegV => {
            ops.push(
                Operand::Register { class: RegClass::Gpr, reg: ext(low3(oplow), ctx.b), width: opw },
            );
            Ok(())
        },
        OpDesc::OpcRegV64 => {
            ops.push(
                Operand::Register {
                    class: RegClass::Gpr,
                    reg: ext(low3(oplow), ctx.b),
                    width: v64_width(ctx),
                },
            );
            Ok(())
        },
        OpDesc::IAl => {
            ops.push(Operand::Register { class: RegClass::Gpr, reg: 0, width: 8 });
            Ok(())
        },
        OpDesc::IAXv => {
            ops.push(Operand::Register { class: RegClass::Gpr, reg: 0, width: opw });
            Ok(())
        },
        OpDesc::IAXz => {
            ops.push(Operand::Register { class: RegClass::Gpr, reg: 0, width: zw });
            Ok(())
        },
        OpDesc::ICl => {
            ops.push(Operand::Register { class: RegClass::Gpr, reg: 1, width: 8 });
            Ok(())
        },
        OpDesc::IDx => {
            ops.push(Operand::Register { class: RegClass::Gpr, reg: 2, width: 16 });
            Ok(())
        },
        OpDesc::ISeg(sr) => {
            ops.push(Operand::Register { class: RegClass::Seg, reg: sr, width: 16 });
            Ok(())
        },
        OpDesc::ImmB => match cur.take(1) {
            Ok(v) => {
                ops.push(Operand::Immediate { value: v, width: 8 });
                Ok(())
            },
            Err(e) => Err(e),
        },
        OpDesc::ImmBs => match cur.take(1) {
            Ok(v) => {
                ops.push(Operand::Immediate { value: sext(v, 8), width: opw });
                Ok(())
            },
            Err(e) => Err(e),
        },
        OpDesc::ImmZ => {
            let nb: usize = if zw == 16 { 2 } else { 4 };
            match cur.take(nb) {
                Ok(v) => {
                    ops.push(
                        Operand::Immediate {
                            value: if opw == 64 { sext(v, 32) } else { v },
                            width: if opw == 64 { 64 } else { zw },
                        },
                    );
                    Ok(())
                },
                Err(e) => Err(e),
            }
        },
        OpDesc::ImmV => {
            let nb: usize = if opw == 64 { 8 } else if opw == 16 { 2 } else { 4 };
            match cur.take(nb) {
                Ok(v) => {
                    ops.push(Operand::Immediate { value: v, width: opw });
                    Ok(())
                },
                Err(e) => Err(e),
            }
        },
        OpDesc::ImmW => match cur.take(2) {
            Ok(v) => {
                ops.push(Operand::Immediate { value: v, width: 16 });
                Ok(())
            },
            Err(e) => Err(e),
        },
        OpDesc::RelB => match cur.take(1) {
            Ok(v) => {
                ops.push(Operand::Relative { offset: sext(v, 8) as i64, width: 8 });
                Ok(())
            },
            Err(e) => Err(e),
        },
        OpDesc::RelZ => {
            let nb: usize = if zw == 16 { 2 } else { 4 };
            match cur.take(nb) {
                Ok(v) => {
                    ops.push(Operand::Relative { offset: sext(v, zw) as i64, width: zw });
                    Ok(())
                },
                Err(e) => Err(e),
            }
        },
        OpDesc::ImplOne => {
            ops.push(Operand::Immediate { value: 1, width: 8 });
            Ok(())
        },
        OpDesc::Moffs => {
            let aw = addr_width(ctx);
            let nb: usize = if aw == 16 { 2 } else if aw == 32 { 4 } else { 8 };
            match cur.take(nb) {
                Ok(v) => {
                    ops.push(
                        Operand::Memory {
                            seg: ctx.pfx.seg,
                            base: MemBase::Absent,
                            index: MemIndex::Absent,
                            scale: 1,
                            disp: v as i64,
                        },
                    );
                    Ok(())
                },
                Err(e) => Err(e),
            }
        },
        OpDesc::Vreg => {
            ops.push(
                Operand::Register {
                    class: RegClass::Vec,
                    reg: ext(modrm_reg(modrm), ctx.r),
                    width: vec_width(ctx),
                },
            );
            Ok(())
        },
        OpDesc::Vrm => push_rm(cur, ctx, modrm, RegClass::Vec, vec_width(ctx), false, ops),
        OpDesc::Hreg => {
            ops.push(
                Operand::Register { class: RegClass::Vec, reg: ctx.vvvv, width: vec_width(ctx) },
            );
            Ok(())
        },
    }
}

/// Decodes a register-or-memory operand and appends it; executable twin of
/// [`spec_rm_push`].
fn push_rm(
    cur: &mut Cursor,
    ctx: &Ctx,
    modrm: u8,
    class: RegClass,
    width: u16,
    mem_only: bool,
    ops: &mut Vec<Operand>,
) -> (r: Result<(), DecodeError>)
    ensures
        final(cur).buf@ == old(cur).buf@,
        match spec_rm_push(
            old(cur).buf@,
            *ctx,
            modrm,
            class,
            width,
            mem_only,
            old(ops)@,
            old(cur).pos as int,
        ) {
            Ok(o) => r is Ok && final(ops)@ == o.0 && final(cur).pos == o.1,
            Err(e) => r == Err::<(), DecodeError>(e),
        },
{
    match rm_operand(cur, ctx, modrm, class, width, mem_only) {
        Ok(o) => {
            ops.push(o);
            Ok(())
        },
        Err(e) => Err(e),
    }
}

/// Decodes all operands of a template; executable twin of
/// [`spec_operands`].
pub fn operands(cur: &mut Cursor, ctx: &Ctx, t: &Tmpl, oplow: u8) -> (r: Result<
    Vec<Operand>,
    DecodeError,
>)
    ensures
        final(cur).buf@ == old(cur).buf@,
        match spec_operands(old(cur).buf@, *ctx, *t, oplow, old(cur).pos as int) {
            Ok(o) => r matches Ok(v) && v@ == o.0 && final(cur).pos == o.1,
            Err(e) => r == Err::<Vec<Operand>, DecodeError>(e),
        },
{
    let modrm: u8;
    if needs_modrm(t) {
        match cur.take(1) {
            Ok(v) => {
                modrm = v as u8;
            },
            Err(e) => {
                return Err(e);
            },
        }
    } else {
        modrm = 0;
    }
    let mut ops: Vec<Operand> = Vec::new();
    match op_step(cur, ctx, t.o1, oplow, modrm, &mut ops) {
        Ok(()) => {},
        Err(e) => {
            return Err(e);
        },
    }
    match op_step(cur, ctx, t.o2, oplow, modrm, &mut ops) {
        Ok(()) => {},
        Err(e) => {
            return Err(e);
        },
    }
    match op_step(cur, ctx, t.o3, oplow, modrm, &mut ops) {
        Ok(()) => {},
        Err(e) => {
            return Err(e);
        },
    }
    match op_step(cur, ctx, t.o4, oplow, modrm, &mut ops) {
        Ok(()) => {},
        Err(e) => {
            return Err(e);
        },
    }
    Ok(ops)
}

} // verus!
