//! Reachability of the one-byte opcode map.
//!
//! For every real entry of the one-byte map there is a constructed byte
//! sequence that decodes to exactly the mnemonic, category, ISA set and
//! flag mask the entry records ([`lemma_one_byte_map_covered`] and
//! [`lemma_group_covered`]). The witnesses are the shortest encodings:
//! the opcode byte, a ModRM byte in a plain register-indirect form, and
//! one immediate-sized tail of zero bytes.
//!
//! The proofs rest on one symbolic fact, [`lemma_witness_covers`]: whether
//! a decode succeeds depends only on how many bytes each descriptor asks
//! for, never on the byte values themselves.

use vstd::prelude::*;

use crate::category::Category;
use crate::context::{
    spec_addr_width, spec_ctx_from, spec_mode_bit, spec_no_prefixes, spec_op_width, spec_z_width,
    Ctx, MachineMode,
};
use crate::cursor::{le_at, lemma_read_byte, spec_read};
use crate::decode_error::DecodeError;
use crate::decoder::{spec_decode, SpecInstr};
use crate::isa_set::IsaSet;
use crate::mnemonic::Mnemonic;
use crate::opcode_table::{
    ent0, spec_group, spec_one_byte, tpl0, tpl1, tpl2, tpl3, Entry, OpDesc, Tmpl, GRP_11_EB,
    GRP_11_EV, GRP_1A_POP, GRP_1_EB_IB, GRP_1_EB_IB_LEG, GRP_1_EV_IBS, GRP_1_EV_IZ, GRP_2_EB_1,
    GRP_2_EB_CL, GRP_2_EB_IB, GRP_2_EV_1, GRP_2_EV_CL, GRP_2_EV_IB, GRP_3_EB, GRP_3_EV,
    GRP_4_INCDEC, GRP_5_MISC,
};
use crate::operand::{spec_modrm_reg, spec_needs_modrm, spec_op_step, spec_operands, Operand};
use crate::prefix::{spec_is_legacy_prefix, spec_scan};
use crate::walker::{spec_check, spec_resolve, spec_select};

verus! {

/// `bytes` decoded in `m` yields exactly what template `t` records, and
/// consumes the whole witness.
pub open spec fn spec_covers(bytes: Seq<u8>, m: MachineMode, t: Tmpl) -> bool {
    &&& spec_decode(bytes, m) matches Ok(i)
    &&& spec_decode(bytes, m)->Ok_0.len == bytes.len()
    &&& spec_decode(bytes, m)->Ok_0.mnemonic == t.mnemonic
    &&& spec_decode(bytes, m)->Ok_0.category == t.category
    &&& spec_decode(bytes, m)->Ok_0.isa_set == t.isa_set
    &&& spec_decode(bytes, m)->Ok_0.flags == t.flags
}

/// How many bytes one descriptor consumes after the ModRM byte, under a
/// plain register-indirect ModRM (`mod == 0`, `rm == 0`) and a 32/64-bit
/// address size.
pub open spec fn spec_desc_bytes(ctx: Ctx, d: OpDesc) -> int {
    match d {
        OpDesc::ImmB | OpDesc::ImmBs | OpDesc::RelB => 1,
        OpDesc::ImmW => 2,
        OpDesc::ImmZ | OpDesc::RelZ => if spec_z_width(ctx) == 16 { 2 } else { 4 },
        OpDesc::ImmV => if spec_op_width(ctx) == 64 {
            8
        } else if spec_op_width(ctx) == 16 {
            2
        } else {
            4
        },
        OpDesc::Moffs => if spec_addr_width(ctx) == 16 {
            2
        } else if spec_addr_width(ctx) == 32 {
            4
        } else {
            8
        },
        _ => 0,
    }
}

/// The witness byte count of a whole template: opcode, ModRM when any
/// descriptor needs it, and each descriptor's tail.
pub open spec fn spec_tmpl_bytes(ctx: Ctx, t: Tmpl) -> int {
    1 + (if spec_needs_modrm(t) { 1int } else { 0int }) + spec_desc_bytes(ctx, t.o1)
        + spec_desc_bytes(ctx, t.o2) + spec_desc_bytes(ctx, t.o3) + spec_desc_bytes(ctx, t.o4)
}

/// Whether any slot of the template is a segment-register descriptor,
/// whose ModRM.reg values above 5 are reserved.
pub open spec fn spec_has_seg_desc(t: Tmpl) -> bool {
    t.o1 == OpDesc::SegReg || t.o2 == OpDesc::SegReg || t.o3 == OpDesc::SegReg || t.o4
        == OpDesc::SegReg
}

/// One descriptor step succeeds whenever enough bytes remain: under a
/// register-indirect ModRM and a non-16-bit address size it consumes
/// exactly its descriptor byte count, whatever the byte values are.
#[verifier::rlimit(100)]
#[verifier::spinoff_prover]
proof fn lemma_step_any(
    s: Seq<u8>,
    ctx: Ctx,
    d: OpDesc,
    oplow: u8,
    modrm: u8,
    acc: Seq<Operand>,
    pos: int,
)
    requires
        0 <= pos,
        pos + spec_desc_bytes(ctx, d) <= s.len(),
        pos + spec_desc_bytes(ctx, d) <= 15,
        spec_addr_width(ctx) != 16,
        modrm / 64 == 0,
        modrm % 8 == 0,
        d == OpDesc::SegReg ==> (modrm / 8) % 8 < 6,
    ensures
        spec_op_step(s, ctx, d, oplow, modrm, acc, pos) matches Ok(r) && r.1 == pos
            + spec_desc_bytes(ctx, d) && r.0.len() <= acc.len() + 1,
{
    reveal(spec_op_step);
}

/// The operand stage of a template succeeds on a buffer of exactly the
/// witness byte count, consuming all of it.
proof fn lemma_operands_witness(s: Seq<u8>, ctx: Ctx, t: Tmpl, oplow: u8, modrm: u8)
    requires
        spec_tmpl_bytes(ctx, t) == s.len(),
        s.len() <= 15,
        spec_needs_modrm(t) ==> s[1] == modrm,
        spec_addr_width(ctx) != 16,
        modrm / 64 == 0,
        modrm % 8 == 0,
        spec_has_seg_desc(t) ==> (modrm / 8) % 8 < 6,
    ensures
        spec_operands(s, ctx, t, oplow, 1) matches Ok(r) && r.1 == s.len(),
{
    let p0: int = if spec_needs_modrm(t) { 2 } else { 1 };
    if spec_needs_modrm(t) {
        lemma_read_byte(s, 1);
    }
    let m: u8 = if spec_needs_modrm(t) { modrm } else { 0u8 };
    lemma_step_any(s, ctx, t.o1, oplow, m, Seq::empty(), p0);
    let r1 = spec_op_step(s, ctx, t.o1, oplow, m, Seq::empty(), p0)->Ok_0;
    lemma_step_any(s, ctx, t.o2, oplow, m, r1.0, r1.1);
    let r2 = spec_op_step(s, ctx, t.o2, oplow, m, r1.0, r1.1)->Ok_0;
    lemma_step_any(s, ctx, t.o3, oplow, m, r2.0, r2.1);
    let r3 = spec_op_step(s, ctx, t.o3, oplow, m, r2.0, r2.1)->Ok_0;
    lemma_step_any(s, ctx, t.o4, oplow, m, r3.0, r3.1);
}

/// The scan of a witness stops on its first byte: the opcode is not a
/// prefix of the chosen mode and the look-ahead rules for the overloaded
/// vector-prefix bytes do not commit.
proof fn lemma_scan_witness(s: Seq<u8>, mode: MachineMode, op: u8)
    requires
        s.len() >= 1,
        s[0] == op,
        !spec_is_legacy_prefix(op),
        !(mode == MachineMode::Bits64 && 0x40 <= op <= 0x4F),
        (op == 0xC4 || op == 0xC5 || op == 0x62) ==> (mode != MachineMode::Bits64 && (s.len() < 2
            || s[1] / 64 != 3)),
        op == 0x8F ==> (s.len() < 2 || s[1] % 32 < 8),
        s.len() <= 15,
    ensures
        spec_scan(s, mode, 0, spec_no_prefixes()) == Ok::<(Ctx, int), DecodeError>(
            (spec_ctx_from(mode, spec_no_prefixes()), 0),
        ),
{
    lemma_read_byte(s, 0);
    lemma_read_byte(s, 1);
}

/// The symbolic witness fact: a buffer holding one opcode whose slot
/// resolves to template `t`, a register-indirect ModRM when needed, and
/// exactly the descriptors' bytes, decodes to what `t` records.
#[verifier::rlimit(100)]
#[verifier::spinoff_prover]
proof fn lemma_witness_covers(s: Seq<u8>, mode: MachineMode, t: Tmpl, op: u8, modrm: u8)
    requires
        s.len() >= 1,
        s[0] == op,
        !spec_is_legacy_prefix(op),
        op != 0x0F,
        !(mode == MachineMode::Bits64 && 0x40 <= op <= 0x4F),
        (op == 0xC4 || op == 0xC5 || op == 0x62) ==> (mode != MachineMode::Bits64 && (s.len() < 2
            || s[1] / 64 != 3)),
        op == 0x8F ==> (s.len() < 2 || s[1] % 32 < 8),
        spec_needs_modrm(t) ==> s.len() >= 2 && s[1] == modrm,
        modrm / 64 == 0,
        modrm % 8 == 0,
        spec_has_seg_desc(t) ==> (modrm / 8) % 8 < 6,
        mode != MachineMode::Bits16,
        spec_resolve(s, spec_ctx_from(mode, spec_no_prefixes()), spec_one_byte(op), op, 1)
            == Ok::<(Tmpl, u8, int), DecodeError>((t, op, 1)),
        spec_tmpl_bytes(spec_ctx_from(mode, spec_no_prefixes()), t) == s.len(),
        s.len() <= 15,
    ensures
        spec_covers(s, mode, t),
{
    let ctx = spec_ctx_from(mode, spec_no_prefixes());
    lemma_scan_witness(s, mode, op);
    lemma_read_byte(s, 0);
    assert(spec_select(s, ctx, 0) == Ok::<(Tmpl, u8, int), DecodeError>((t, op, 1)));
    lemma_operands_witness(s, ctx, t, op, modrm);
}

/// Decoding a lone no-operand opcode: the scan stops at once, the walker
/// selects the entry, and nothing more is read. The side conditions keep
/// the opcode byte itself out of the prefix space of the chosen mode.
pub proof fn lemma_no_operand_single_byte(op: u8, mode: MachineMode)
    requires
        spec_one_byte(op) matches Entry::Ins(t) && t.o1 == OpDesc::Void && t.o2 == OpDesc::Void
            && t.o3 == OpDesc::Void && t.o4 == OpDesc::Void && (t.modes / spec_mode_bit(mode)) % 2
            == 1 && t.category != Category::Ud,
        !spec_is_legacy_prefix(op),
        op != 0x0F,
        !(mode == MachineMode::Bits64 && 0x40 <= op <= 0x4F),
        !(mode == MachineMode::Bits64 && (op == 0xC4 || op == 0xC5 || op == 0x62)),
    ensures
        spec_one_byte(op) matches Entry::Ins(t) ==> spec_decode(seq![op], mode) == Ok::<
            SpecInstr,
            DecodeError,
        >(
            (SpecInstr {
                len: 1,
                mnemonic: t.mnemonic,
                category: t.category,
                isa_set: t.isa_set,
                operands: Seq::empty(),
                prefixes: spec_no_prefixes(),
                flags: t.flags,
            }),
        ),
{
    reveal(spec_op_step);
    reveal_with_fuel(le_at, 3);
    assert(seq![op].len() == 1);
    assert(seq![op][0] == op);
}

/// `NOP` (`0x90`) decodes in every machine mode to a one-byte instruction
/// of category `Nop` with no operands.
pub proof fn lemma_nop_all_modes(mode: MachineMode)
    ensures
        spec_decode(seq![0x90u8], mode) == Ok::<SpecInstr, DecodeError>(
            (SpecInstr {
                len: 1,
                mnemonic: Mnemonic::Nop,
                category: Category::Nop,
                isa_set: IsaSet::I86,
                operands: Seq::empty(),
                prefixes: spec_no_prefixes(),
                flags: 0,
            }),
        ),
{
    assert(spec_one_byte(0x90) == ent0(Mnemonic::Nop, Category::Nop, IsaSet::I86, 7, 0x0));
    match mode {
        MachineMode::Bits16 => lemma_no_operand_single_byte(0x90, mode),
        MachineMode::Bits32 => lemma_no_operand_single_byte(0x90, mode),
        MachineMode::Bits64 => lemma_no_operand_single_byte(0x90, mode),
    }
}

/// A witness buffer: the opcode byte, then a ModRM byte, then zeros.
/// For templates without ModRM the second byte doubles as the first
/// zero of the tail.
pub open spec fn spec_witness(op: u8, modrm: u8, len: int) -> Seq<u8> {
    Seq::new(
        len as nat,
        (|i: int| if i == 0 { op } else if i == 1 { modrm } else { 0u8 }),
    )
}

/// The machine mode the witness of a one-byte-map slot is decoded in:
/// 32-bit where the entry allows it, else long mode.
pub open spec fn spec_ob_mode(op: u8) -> MachineMode {
    match spec_one_byte(op) {
        Entry::Ins(t) => if (t.modes / 2) % 2 == 1 {
            MachineMode::Bits32
        } else {
            MachineMode::Bits64
        },
        _ => MachineMode::Bits32,
    }
}

/// The constructed witness bytes of a one-byte-map slot.
pub open spec fn spec_ob_witness(op: u8) -> Seq<u8> {
    match spec_one_byte(op) {
        Entry::Ins(t) => spec_witness(
            op,
            0,
            spec_tmpl_bytes(spec_ctx_from(spec_ob_mode(op), spec_no_prefixes()), t),
        ),
        Entry::Split(tleg, t64) => spec_witness(
            op,
            0,
            spec_tmpl_bytes(spec_ctx_from(MachineMode::Bits32, spec_no_prefixes()), tleg),
        ),
        _ => seq![op],
    }
}

/// The constructed witness bytes of a group sub-slot: ModRM.reg selects
/// the row.
pub open spec fn spec_grp_witness(op: u8, reg: u8) -> Seq<u8> {
    match spec_one_byte(op) {
        Entry::Grp(g) => match spec_group(g, reg) {
            Entry::Ins(t) => spec_witness(
                op,
                (reg * 8) as u8,
                spec_tmpl_bytes(spec_ctx_from(MachineMode::Bits32, spec_no_prefixes()), t),
            ),
            _ => seq![op],
        },
        _ => seq![op],
    }
}

/// Witness coverage of one-byte opcodes `0x00` through `0x0f`.
#[verifier::rlimit(100)]
#[verifier::spinoff_prover]
proof fn lemma_ob_block_00(op: u8)
    requires
        0x00 <= op < 0x10,
    ensures
        spec_one_byte(op) matches Entry::Ins(t) ==> spec_covers(
            spec_ob_witness(op),
            spec_ob_mode(op),
            t,
        ),
        spec_one_byte(op) matches Entry::Split(tleg, t64) ==> spec_covers(
            spec_ob_witness(op),
            MachineMode::Bits32,
            tleg,
        ) && spec_covers(spec_ob_witness(op), MachineMode::Bits64, t64),
{
    reveal_with_fuel(le_at, 3);
    match op {
        0x00u8 => {
            let t = tpl2(Mnemonic::Add, Category::Arith, IsaSet::I86, 7, 0x8d5, OpDesc::GrmB, OpDesc::GregB);
            assert(spec_one_byte(0x00u8) == Entry::Ins(t));
            lemma_witness_covers(spec_ob_witness(0x00u8), MachineMode::Bits32, t, 0x00u8, 0x00u8);
        },
        0x01u8 => {
            let t = tpl2(Mnemonic::Add, Category::Arith, IsaSet::I86, 7, 0x8d5, OpDesc::GrmV, OpDesc::GregV);
            assert(spec_one_byte(0x01u8) == Entry::Ins(t));
            lemma_witness_covers(spec_ob_witness(0x01u8), MachineMode::Bits32, t, 0x01u8, 0x00u8);
        },
        0x02u8 => {
            let t = tpl2(Mnemonic::Add, Category::Arith, IsaSet::I86, 7, 0x8d5, OpDesc::GregB, OpDesc::GrmB);
            assert(spec_one_byte(0x02u8) == Entry::Ins(t));
            lemma_witness_covers(spec_ob_witness(0x02u8), MachineMode::Bits32, t, 0x02u8, 0x00u8);
        },
        0x03u8 => {
            let t = tpl2(Mnemonic::Add, Category::Arith, IsaSet::I86, 7, 0x8d5, OpDesc::GregV, OpDesc::GrmV);
            assert(spec_one_byte(0x03u8) == Entry::Ins(t));
            lemma_witness_covers(spec_ob_witness(0x03u8), MachineMode::Bits32, t, 0x03u8, 0x00u8);
        },
        0x04u8 => {
            let t = tpl2(Mnemonic::Add, Category::Arith, IsaSet::I86, 7, 0x8d5, OpDesc::IAl, OpDesc::ImmB);
            assert(spec_one_byte(0x04u8) == Entry::Ins(t));
            lemma_witness_covers(spec_ob_witness(0x04u8), MachineMode::Bits32, t, 0x04u8, 0x00u8);
        },
        0x05u8 => {
            let t = tpl2(Mnemonic::Add, Category::Arith, IsaSet::I86, 7, 0x8d5, OpDesc::IAXv, OpDesc::ImmZ);
            assert(spec_one_byte(0x05u8) == Entry::Ins(t));
            lemma_witness_covers(spec_ob_witness(0x05u8), MachineMode::Bits32, t, 0x05u8, 0x00u8);
        },
        0x06u8 => {
            let t = tpl1(Mnemonic::Push, Category::Push, IsaSet::I86, 3, 0x0, OpDesc::ISeg(0));
            assert(spec_one_byte(0x06u8) == Entry::Ins(t));
            lemma_witness_covers(spec_ob_witness(0x06u8), MachineMode::Bits32, t, 0x06u8, 0x00u8);
        },
        0x07u8 => {
            let t = tpl1(Mnemonic::Pop, Category::Pop, IsaSet::I86, 3, 0x0, OpDesc::ISeg(0));
            assert(spec_one_byte(0x07u8) == Entry::Ins(t));
            lemma_witness_covers(spec_ob_witness(0x07u8), MachineMode::Bits32, t, 0x07u8, 0x00u8);
        },
        0x08u8 => {
            let t = tpl2(Mnemonic::Or, Category::Logical, IsaSet::I86, 7, 0x8c5, OpDesc::GrmB, OpDesc::GregB);
            assert(spec_one_byte(0x08u8) == Entry::Ins(t));
            lemma_witness_covers(spec_ob_witness(0x08u8), MachineMode::Bits32, t, 0x08u8, 0x00u8);
        },
        0x09u8 => {
            let t = tpl2(Mnemonic::Or, Category::Logical, IsaSet::I86, 7, 0x8c5, OpDesc::GrmV, OpDesc::GregV);
            assert(spec_one_byte(0x09u8) == Entry::Ins(t));
            lemma_witness_covers(spec_ob_witness(0x09u8), MachineMode::Bits32, t, 0x09u8, 0x00u8);
        },
        0x0au8 => {
            let t = tpl2(Mnemonic::Or, Category::Logical, IsaSet::I86, 7, 0x8c5, OpDesc::GregB, OpDesc::GrmB);
            assert(spec_one_byte(0x0au8) == Entry::Ins(t));
            lemma_witness_covers(spec_ob_witness(0x0au8), MachineMode::Bits32, t, 0x0au8, 0x00u8);
        },
        0x0bu8 => {
            let t = tpl2(Mnemonic::Or, Category::Logical, IsaSet::I86, 7, 0x8c5, OpDesc::GregV, OpDesc::GrmV);
            assert(spec_one_byte(0x0bu8) == Entry::Ins(t));
            lemma_witness_covers(spec_ob_witness(0x0bu8), MachineMode::Bits32, t, 0x0bu8, 0x00u8);
        },
        0x0cu8 => {
            let t = tpl2(Mnemonic::Or, Category::Logical, IsaSet::I86, 7, 0x8c5, OpDesc::IAl, OpDesc::ImmB);
            assert(spec_one_byte(0x0cu8) == Entry::Ins(t));
            lemma_witness_covers(spec_ob_witness(0x0cu8), MachineMode::Bits32, t, 0x0cu8, 0x00u8);
        },
        0x0du8 => {
            let t = tpl2(Mnemonic::Or, Category::Logical, IsaSet::I86, 7, 0x8c5, OpDesc::IAXv, OpDesc::ImmZ);
            assert(spec_one_byte(0x0du8) == Entry::Ins(t));
            lemma_witness_covers(spec_ob_witness(0x0du8), MachineMode::Bits32, t, 0x0du8, 0x00u8);
        },
        0x0eu8 => {
            let t = tpl1(Mnemonic::Push, Category::Push, IsaSet::I86, 3, 0x0, OpDesc::ISeg(1));
            assert(spec_one_byte(0x0eu8) == Entry::Ins(t));
            lemma_witness_covers(spec_ob_witness(0x0eu8), MachineMode::Bits32, t, 0x0eu8, 0x00u8);
        },
        _ => {},
    }
}

/// Witness coverage of one-byte opcodes `0x10` through `0x1f`.
#[verifier::rlimit(100)]
#[verifier::spinoff_prover]
proof fn lemma_ob_block_10(op: u8)
    requires
        0x10 <= op < 0x20,
    ensures
        spec_one_byte(op) matches Entry::Ins(t) ==> spec_covers(
            spec_ob_witness(op),
            spec_ob_mode(op),
            t,
        ),
        spec_one_byte(op) matches Entry::Split(tleg, t64) ==> spec_covers(
            spec_ob_witness(op),
            MachineMode::Bits32,
            tleg,
        ) && spec_covers(spec_ob_witness(op), MachineMode::Bits64, t64),
{
    reveal_with_fuel(le_at, 3);
    match op {
        0x10u8 => {
            let t = tpl2(Mnemonic::Adc, Category::Arith, IsaSet::I86, 7, 0x8d5, OpDesc::GrmB, OpDesc::GregB);
            assert(spec_one_byte(0x10u8) == Entry::Ins(t));
            lemma_witness_covers(spec_ob_witness(0x10u8), MachineMode::Bits32, t, 0x10u8, 0x00u8);
        },
        0x11u8 => {
            let t = tpl2(Mnemonic::Adc, Category::Arith, IsaSet::I86, 7, 0x8d5, OpDesc::GrmV, OpDesc::GregV);
            assert(spec_one_byte(0x11u8) == Entry::Ins(t));
            lemma_witness_covers(spec_ob_witness(0x11u8), MachineMode::Bits32, t, 0x11u8, 0x00u8);
        },
        0x12u8 => {
            let t = tpl2(Mnemonic::Adc, Category::Arith, IsaSet::I86, 7, 0x8d5, OpDesc::GregB, OpDesc::GrmB);
            assert(spec_one_byte(0x12u8) == Entry::Ins(t));
            lemma_witness_covers(spec_ob_witness(0x12u8), MachineMode::Bits32, t, 0x12u8, 0x00u8);
        },
        0x13u8 => {
            let t = tpl2(Mnemonic::Adc, Category::Arith, IsaSet::I86, 7, 0x8d5, OpDesc::GregV, OpDesc::GrmV);
            assert(spec_one_byte(0x13u8) == Entry::Ins(t));
            lemma_witness_covers(spec_ob_witness(0x13u8), MachineMode::Bits32, t, 0x13u8, 0x00u8);
        },
        0x14u8 => {
            let t = tpl2(Mnemonic::Adc, Category::Arith, IsaSet::I86, 7, 0x8d5, OpDesc::IAl, OpDesc::ImmB);
            assert(spec_one_byte(0x14u8) == Entry::Ins(t));
            lemma_witness_covers(spec_ob_witness(0x14u8), MachineMode::Bits32, t, 0x14u8, 0x00u8);
        },
        0x15u8 => {
            let t = tpl2(Mnemonic::Adc, Category::Arith, IsaSet::I86, 7, 0x8d5, OpDesc::IAXv, OpDesc::ImmZ);
            assert(spec_one_byte(0x15u8) == Entry::Ins(t));
            lemma_witness_covers(spec_ob_witness(0x15u8), MachineMode::Bits32, t, 0x15u8, 0x00u8);
        },
        0x16u8 => {
            let t = tpl1(Mnemonic::Push, Category::Push, IsaSet::I86, 3, 0x0, OpDesc::ISeg(2));
            assert(spec_one_byte(0x16u8) == Entry::Ins(t));
            lemma_witness_covers(spec_ob_witness(0x16u8), MachineMode::Bits32, t, 0x16u8, 0x00u8);
        },
        0x17u8 => {
            let t = tpl1(Mnemonic::Pop, Category::Pop, IsaSet::I86, 3, 0x0, OpDesc::ISeg(2));
            assert(spec_one_byte(0x17u8) == Entry::Ins(t));
            lemma_witness_covers(spec_ob_witness(0x17u8), MachineMode::Bits32, t, 0x17u8, 0x00u8);
        },
        0x18u8 => {
            let t = tpl2(Mnemonic::Sbb, Category::Arith, IsaSet::I86, 7, 0x8d5, OpDesc::GrmB, OpDesc::GregB);
            assert(spec_one_byte(0x18u8) == Entry::Ins(t));
            lemma_witness_covers(spec_ob_witness(0x18u8), MachineMode::Bits32, t, 0x18u8, 0x00u8);
        },
        0x19u8 => {
            let t = tpl2(Mnemonic::Sbb, Category::Arith, IsaSet::I86, 7, 0x8d5, OpDesc::GrmV, OpDesc::GregV);
            assert(spec_one_byte(0x19u8) == Entry::Ins(t));
            lemma_witness_covers(spec_ob_witness(0x19u8), MachineMode::Bits32, t, 0x19u8, 0x00u8);
        },
        0x1au8 => {
            let t = tpl2(Mnemonic::Sbb, Category::Arith, IsaSet::I86, 7, 0x8d5, OpDesc::GregB, OpDesc::GrmB);
            assert(spec_one_byte(0x1au8) == Entry::Ins(t));
            lemma_witness_covers(spec_ob_witness(0x1au8), MachineMode::Bits32, t, 0x1au8, 0x00u8);
        },
        0x1bu8 => {
            let t = tpl2(Mnemonic::Sbb, Category::Arith, IsaSet::I86, 7, 0x8d5, OpDesc::GregV, OpDesc::GrmV);
            assert(spec_one_byte(0x1bu8) == Entry::Ins(t));
            lemma_witness_covers(spec_ob_witness(0x1bu8), MachineMode::Bits32, t, 0x1bu8, 0x00u8);
        },
        0x1cu8 => {
            let t = tpl2(Mnemonic::Sbb, Category::Arith, IsaSet::I86, 7, 0x8d5, OpDesc::IAl, OpDesc::ImmB);
            assert(spec_one_byte(0x1cu8) == Entry::Ins(t));
            lemma_witness_covers(spec_ob_witness(0x1cu8), MachineMode::Bits32, t, 0x1cu8, 0x00u8);
        },
        0x1du8 => {
            let t = tpl2(Mnemonic::Sbb, Category::Arith, IsaSet::I86, 7, 0x8d5, OpDesc::IAXv, OpDesc::ImmZ);
            assert(spec_one_byte(0x1du8) == Entry::Ins(t));
            lemma_witness_covers(spec_ob_witness(0x1du8), MachineMode::Bits32, t, 0x1du8, 0x00u8);
        },
        0x1eu8 => {
            let t = tpl1(Mnemonic::Push, Category::Push, IsaSet::I86, 3, 0x0, OpDesc::ISeg(3));
            assert(spec_one_byte(0x1eu8) == Entry::Ins(t));
            lemma_witness_covers(spec_ob_witness(0x1eu8), MachineMode::Bits32, t, 0x1eu8, 0x00u8);
        },
        0x1fu8 => {
            let t = tpl1(Mnemonic::Pop, Category::Pop, IsaSet::I86, 3, 0x0, OpDesc::ISeg(3));
            assert(spec_one_byte(0x1fu8) == Entry::Ins(t));
            lemma_witness_covers(spec_ob_witness(0x1fu8), MachineMode::Bits32, t, 0x1fu8, 0x00u8);
        },
        _ => {},
    }
}

/// Witness coverage of one-byte opcodes `0x20` through `0x2f`.
#[verifier::rlimit(100)]
#[verifier::spinoff_prover]
proof fn lemma_ob_block_20(op: u8)
    requires
        0x20 <= op < 0x30,
    ensures
        spec_one_byte(op) matches Entry::Ins(t) ==> spec_covers(
            spec_ob_witness(op),
            spec_ob_mode(op),
            t,
        ),
        spec_one_byte(op) matches Entry::Split(tleg, t64) ==> spec_covers(
            spec_ob_witness(op),
            MachineMode::Bits32,
            tleg,
        ) && spec_covers(spec_ob_witness(op), MachineMode::Bits64, t64),
{
    reveal_with_fuel(le_at, 3);
    match op {
        0x20u8 => {
            let t = tpl2(Mnemonic::And, Category::Logical, IsaSet::I86, 7, 0x8c5, OpDesc::GrmB, OpDesc::GregB);
            assert(spec_one_byte(0x20u8) == Entry::Ins(t));
            lemma_witness_covers(spec_ob_witness(0x20u8), MachineMode::Bits32, t, 0x20u8, 0x00u8);
        },
        0x21u8 => {
            let t = tpl2(Mnemonic::And, Category::Logical, IsaSet::I86, 7, 0x8c5, OpDesc::GrmV, OpDesc::GregV);
            assert(spec_one_byte(0x21u8) == Entry::Ins(t));
            lemma_witness_covers(spec_ob_witness(0x21u8), MachineMode::Bits32, t, 0x21u8, 0x00u8);
        },
        0x22u8 => {
            let t = tpl2(Mnemonic::And, Category::Logical, IsaSet::I86, 7, 0x8c5, OpDesc::GregB, OpDesc::GrmB);
            assert(spec_one_byte(0x22u8) == Entry::Ins(t));
            lemma_witness_covers(spec_ob_witness(0x22u8), MachineMode::Bits32, t, 0x22u8, 0x00u8);
        },
        0x23u8 => {
            let t = tpl2(Mnemonic::And, Category::Logical, IsaSet::I86, 7, 0x8c5, OpDesc::GregV, OpDesc::GrmV);
            assert(spec_one_byte(0x23u8) == Entry::Ins(t));
            lemma_witness_covers(spec_ob_witness(0x23u8), MachineMode::Bits32, t, 0x23u8, 0x00u8);
        },
        0x24u8 => {
            let t = tpl2(Mnemonic::And, Category::Logical, IsaSet::I86, 7, 0x8c5, OpDesc::IAl, OpDesc::ImmB);
            assert(spec_one_byte(0x24u8) == Entry::Ins(t));
            lemma_witness_covers(spec_ob_witness(0x24u8), MachineMode::Bits32, t, 0x24u8, 0x00u8);
        },
        0x25u8 => {
            let t = tpl2(Mnemonic::And, Category::Logical, IsaSet::I86, 7, 0x8c5, OpDesc::IAXv, OpDesc::ImmZ);
            assert(spec_one_byte(0x25u8) == Entry::Ins(t));
            lemma_witness_covers(spec_ob_witness(0x25u8), MachineMode::Bits32, t, 0x25u8, 0x00u8);
        },
        0x27u8 => {
            let t = tpl0(Mnemonic::Daa, Category::Decimal, IsaSet::I86, 3, 0x8d5);
            assert(spec_one_byte(0x27u8) == Entry::Ins(t));
            lemma_witness_covers(spec_ob_witness(0x27u8), MachineMode::Bits32, t, 0x27u8, 0x00u8);
        },
        0x28u8 => {
            let t = tpl2(Mnemonic::Sub, Category::Arith, IsaSet::I86, 7, 0x8d5, OpDesc::GrmB, OpDesc::GregB);
            assert(spec_one_byte(0x28u8) == Entry::Ins(t));
            lemma_witness_covers(spec_ob_witness(0x28u8), MachineMode::Bits32, t, 0x28u8, 0x00u8);
        },
        0x29u8 => {
            let t = tpl2(Mnemonic::Sub, Category::Arith, IsaSet::I86, 7, 0x8d5, OpDesc::GrmV, OpDesc::GregV);
            assert(spec_one_byte(0x29u8) == Entry::Ins(t));
            lemma_witness_covers(spec_ob_witness(0x29u8), MachineMode::Bits32, t, 0x29u8, 0x00u8);
        },
        0x2au8 => {
            let t = tpl2(Mnemonic::Sub, Category::Arith, IsaSet::I86, 7, 0x8d5, OpDesc::GregB, OpDesc::GrmB);
            assert(spec_one_byte(0x2au8) == Entry::Ins(t));
            lemma_witness_covers(spec_ob_witness(0x2au8), MachineMode::Bits32, t, 0x2au8, 0x00u8);
        },
        0x2bu8 => {
            let t = tpl2(Mnemonic::Sub, Category::Arith, IsaSet::I86, 7, 0x8d5, OpDesc::GregV, OpDesc::GrmV);
            assert(spec_one_byte(0x2bu8) == Entry::Ins(t));
            lemma_witness_covers(spec_ob_witness(0x2bu8), MachineMode::Bits32, t, 0x2bu8, 0x00u8);
        },
        0x2cu8 => {
            let t = tpl2(Mnemonic::Sub, Category::Arith, IsaSet::I86, 7, 0x8d5, OpDesc::IAl, OpDesc::ImmB);
            assert(spec_one_byte(0x2cu8) == Entry::Ins(t));
            lemma_witness_covers(spec_ob_witness(0x2cu8), MachineMode::Bits32, t, 0x2cu8, 0x00u8);
        },
        0x2du8 => {
            let t = tpl2(Mnemonic::Sub, Category::Arith, IsaSet::I86, 7, 0x8d5, OpDesc::IAXv, OpDesc::ImmZ);
            assert(spec_one_byte(0x2du8) == Entry::Ins(t));
            lemma_witness_covers(spec_ob_witness(0x2du8), MachineMode::Bits32, t, 0x2du8, 0x00u8);
        },
        0x2fu8 => {
            let t = tpl0(Mnemonic::Das, Category::Decimal, IsaSet::I86, 3, 0x8d5);
            assert(spec_one_byte(0x2fu8) == Entry::Ins(t));
            lemma_witness_covers(spec_ob_witness(0x2fu8), MachineMode::Bits32, t, 0x2fu8, 0x00u8);
        },
        _ => {},
    }
}

/// Witness coverage of one-byte opcodes `0x30` through `0x3f`.
#[verifier::rlimit(100)]
#[verifier::spinoff_prover]
proof fn lemma_ob_block_30(op: u8)
    requires
        0x30 <= op < 0x40,
    ensures
        spec_one_byte(op) matches Entry::Ins(t) ==> spec_covers(
            spec_ob_witness(op),
            spec_ob_mode(op),
            t,
        ),
        spec_one_byte(op) matches Entry::Split(tleg, t64) ==> spec_covers(
            spec_ob_witness(op),
            MachineMode::Bits32,
            tleg,
        ) && spec_covers(spec_ob_witness(op), MachineMode::Bits64, t64),
{
    reveal_with_fuel(le_at, 3);
    match op {
        0x30u8 => {
            let t = tpl2(Mnemonic::Xor, Category::Logical, IsaSet::I86, 7, 0x8c5, OpDesc::GrmB, OpDesc::GregB);
            assert(spec_one_byte(0x30u8) == Entry::Ins(t));
            lemma_witness_covers(spec_ob_witness(0x30u8), MachineMode::Bits32, t, 0x30u8, 0x00u8);
        },
        0x31u8 => {
            let t = tpl2(Mnemonic::Xor, Category::Logical, IsaSet::I86, 7, 0x8c5, OpDesc::GrmV, OpDesc::GregV);
            assert(spec_one_byte(0x31u8) == Entry::Ins(t));
            lemma_witness_covers(spec_ob_witness(0x31u8), MachineMode::Bits32, t, 0x31u8, 0x00u8);
        },
        0x32u8 => {
            let t = tpl2(Mnemonic::Xor, Category::Logical, IsaSet::I86, 7, 0x8c5, OpDesc::GregB, OpDesc::GrmB);
            assert(spec_one_byte(0x32u8) == Entry::Ins(t));
            lemma_witness_covers(spec_ob_witness(0x32u8), MachineMode::Bits32, t, 0x32u8, 0x00u8);
        },
        0x33u8 => {
            let t = tpl2(Mnemonic::Xor, Category::Logical, IsaSet::I86, 7, 0x8c5, OpDesc::GregV, OpDesc::GrmV);
            assert(spec_one_byte(0x33u8) == Entry::Ins(t));
            lemma_witness_covers(spec_ob_witness(0x33u8), MachineMode::Bits32, t, 0x33u8, 0x00u8);
        },
        0x34u8 => {
            let t = tpl2(Mnemonic::Xor, Category::Logical, IsaSet::I86, 7, 0x8c5, OpDesc::IAl, OpDesc::ImmB);
            assert(spec_one_byte(0x34u8) == Entry::Ins(t));
            lemma_witness_covers(spec_ob_witness(0x34u8), MachineMode::Bits32, t, 0x34u8, 0x00u8);
        },
        0x35u8 => {
            let t = tpl2(Mnemonic::Xor, Category::Logical, IsaSet::I86, 7, 0x8c5, OpDesc::IAXv, OpDesc::ImmZ);
            assert(spec_one_byte(0x35u8) == Entry::Ins(t));
            lemma_witness_covers(spec_ob_witness(0x35u8), MachineMode::Bits32, t, 0x35u8, 0x00u8);
        },
        0x37u8 => {
            let t = tpl0(Mnemonic::Aaa, Category::Decimal, IsaSet::I86, 3, 0x8d5);
            assert(spec_one_byte(0x37u8) == Entry::Ins(t));
            lemma_witness_covers(spec_ob_witness(0x37u8), MachineMode::Bits32, t, 0x37u8, 0x00u8);
        },
        0x38u8 => {
            let t = tpl2(Mnemonic::Cmp, Category::Arith, IsaSet::I86, 7, 0x8d5, OpDesc::GrmB, OpDesc::GregB);
            assert(spec_one_byte(0x38u8) == Entry::Ins(t));
            lemma_witness_covers(spec_ob_witness(0x38u8), MachineMode::Bits32, t, 0x38u8, 0x00u8);
        },
        0x39u8 => {
            let t = tpl2(Mnemonic::Cmp, Category::Arith, IsaSet::I86, 7, 0x8d5, OpDesc::GrmV, OpDesc::GregV);
            assert(spec_one_byte(0x39u8) == Entry::Ins(t));
            lemma_witness_covers(spec_ob_witness(0x39u8), MachineMode::Bits32, t, 0x39u8, 0x00u8);
        },
        0x3au8 => {
            let t = tpl2(Mnemonic::Cmp, Category::Arith, IsaSet::I86, 7, 0x8d5, OpDesc::GregB, OpDesc::GrmB);
            assert(spec_one_byte(0x3au8) == Entry::Ins(t));
            lemma_witness_covers(spec_ob_witness(0x3au8), MachineMode::Bits32, t, 0x3au8, 0x00u8);
        },
        0x3bu8 => {
            let t = tpl2(Mnemonic::Cmp, Category::Arith, IsaSet::I86, 7, 0x8d5, OpDesc::GregV, OpDesc::GrmV);
            assert(spec_one_byte(0x3bu8) == Entry::Ins(t));
            lemma_witness_covers(spec_ob_witness(0x3bu8), MachineMode::Bits32, t, 0x3bu8, 0x00u8);
        },
        0x3cu8 => {
            let t = tpl2(Mnemonic::Cmp, Category::Arith, IsaSet::I86, 7, 0x8d5, OpDesc::IAl, OpDesc::ImmB);
            assert(spec_one_byte(0x3cu8) == Entry::Ins(t));
            lemma_witness_covers(spec_ob_witness(0x3cu8), MachineMode::Bits32, t, 0x3cu8, 0x00u8);
        },
        0x3du8 => {
            let t = tpl2(Mnemonic::Cmp, Category::Arith, IsaSet::I86, 7, 0x8d5, OpDesc::IAXv, OpDesc::ImmZ);
            assert(spec_one_byte(0x3du8) == Entry::Ins(t));
            lemma_witness_covers(spec_ob_witness(0x3du8), MachineMode::Bits32, t, 0x3du8, 0x00u8);
        },
        0x3fu8 => {
            let t = tpl0(Mnemonic::Aas, Category::Decimal, IsaSet::I86, 3, 0x8d5);
            assert(spec_one_byte(0x3fu8) == Entry::Ins(t));
            lemma_witness_covers(spec_ob_witness(0x3fu8), MachineMode::Bits32, t, 0x3fu8, 0x00u8);
        },
        _ => {},
    }
}

/// Witness coverage of one-byte opcodes `0x40` through `0x4f`.
#[verifier::rlimit(100)]
#[verifier::spinoff_prover]
proof fn lemma_ob_block_40(op: u8)
    requires
        0x40 <= op < 0x50,
    ensures
        spec_one_byte(op) matches Entry::Ins(t) ==> spec_covers(
            spec_ob_witness(op),
            spec_ob_mode(op),
            t,
        ),
        spec_one_byte(op) matches Entry::Split(tleg, t64) ==> spec_covers(
            spec_ob_witness(op),
            MachineMode::Bits32,
            tleg,
        ) && spec_covers(spec_ob_witness(op), MachineMode::Bits64, t64),
{
    reveal_with_fuel(le_at, 3);
    match op {
        0x40u8 => {
            let t = tpl1(Mnemonic::Inc, Category::Arith, IsaSet::I86, 3, 0x8d4, OpDesc::OpcRegV);
            assert(spec_one_byte(0x40u8) == Entry::Ins(t));
            lemma_witness_covers(spec_ob_witness(0x40u8), MachineMode::Bits32, t, 0x40u8, 0x00u8);
        },
        0x41u8 => {
            let t = tpl1(Mnemonic::Inc, Category::Arith, IsaSet::I86, 3, 0x8d4, OpDesc::OpcRegV);
            assert(spec_one_byte(0x41u8) == Entry::Ins(t));
            lemma_witness_covers(spec_ob_witness(0x41u8), MachineMode::Bits32, t, 0x41u8, 0x00u8);
        },
        0x42u8 => {
            let t = tpl1(Mnemonic::Inc, Category::Arith, IsaSet::I86, 3, 0x8d4, OpDesc::OpcRegV);
            assert(spec_one_byte(0x42u8) == Entry::Ins(t));
            lemma_witness_covers(spec_ob_witness(0x42u8), MachineMode::Bits32, t, 0x42u8, 0x00u8);
        },
        0x43u8 => {
            let t = tpl1(Mnemonic::Inc, Category::Arith, IsaSet::I86, 3, 0x8d4, OpDesc::OpcRegV);
            assert(spec_one_byte(0x43u8) == Entry::Ins(t));
            lemma_witness_covers(spec_ob_witness(0x43u8), MachineMode::Bits32, t, 0x43u8, 0x00u8);
        },
        0x44u8 => {
            let t = tpl1(Mnemonic::Inc, Category::Arith, IsaSet::I86, 3, 0x8d4, OpDesc::OpcRegV);
            assert(spec_one_byte(0x44u8) == Entry::Ins(t));
            lemma_witness_covers(spec_ob_witness(0x44u8), MachineMode::Bits32, t, 0x44u8, 0x00u8);
        },
        0x45u8 => {
            let t = tpl1(Mnemonic::Inc, Category::Arith, IsaSet::I86, 3, 0x8d4, OpDesc::OpcRegV);
            assert(spec_one_byte(0x45u8) == Entry::Ins(t));
            lemma_witness_covers(spec_ob_witness(0x45u8), MachineMode::Bits32, t, 0x45u8, 0x00u8);
        },
        0x46u8 => {
            let t = tpl1(Mnemonic::Inc, Category::Arith, IsaSet::I86, 3, 0x8d4, OpDesc::OpcRegV);
            assert(spec_one_byte(0x46u8) == Entry::Ins(t));
            lemma_witness_covers(spec_ob_witness(0x46u8), MachineMode::Bits32, t, 0x46u8, 0x00u8);
        },
        0x47u8 => {
            let t = tpl1(Mnemonic::Inc, Category::Arith, IsaSet::I86, 3, 0x8d4, OpDesc::OpcRegV);
            assert(spec_one_byte(0x47u8) == Entry::Ins(t));
            lemma_witness_covers(spec_ob_witness(0x47u8), MachineMode::Bits32, t, 0x47u8, 0x00u8);
        },
        0x48u8 => {
            let t = tpl1(Mnemonic::Dec, Category::Arith, IsaSet::I86, 3, 0x8d4, OpDesc::OpcRegV);
            assert(spec_one_byte(0x48u8) == Entry::Ins(t));
            lemma_witness_covers(spec_ob_witness(0x48u8), MachineMode::Bits32, t, 0x48u8, 0x00u8);
        },
        0x49u8 => {
            let t = tpl1(Mnemonic::Dec, Category::Arith, IsaSet::I86, 3, 0x8d4, OpDesc::OpcRegV);
            assert(spec_one_byte(0x49u8) == Entry::Ins(t));
            lemma_witness_covers(spec_ob_witness(0x49u8), MachineMode::Bits32, t, 0x49u8, 0x00u8);
        },
        0x4au8 => {
            let t = tpl1(Mnemonic::Dec, Category::Arith, IsaSet::I86, 3, 0x8d4, OpDesc::OpcRegV);
            assert(spec_one_byte(0x4au8) == Entry::Ins(t));
            lemma_witness_covers(spec_ob_witness(0x4au8), MachineMode::Bits32, t, 0x4au8, 0x00u8);
        },
        0x4bu8 => {
            let t = tpl1(Mnemonic::Dec, Category::Arith, IsaSet::I86, 3, 0x8d4, OpDesc::OpcRegV);
            assert(spec_one_byte(0x4bu8) == Entry::Ins(t));
            lemma_witness_covers(spec_ob_witness(0x4bu8), MachineMode::Bits32, t, 0x4bu8, 0x00u8);
        },
        0x4cu8 => {
            let t = tpl1(Mnemonic::Dec, Category::Arith, IsaSet::I86, 3, 0x8d4, OpDesc::OpcRegV);
            assert(spec_one_byte(0x4cu8) == Entry::Ins(t));
            lemma_witness_covers(spec_ob_witness(0x4cu8), MachineMode::Bits32, t, 0x4cu8, 0x00u8);
        },
        0x4du8 => {
            let t = tpl1(Mnemonic::Dec, Category::Arith, IsaSet::I86, 3, 0x8d4, OpDesc::OpcRegV);
            assert(spec_one_byte(0x4du8) == Entry::Ins(t));
            lemma_witness_covers(spec_ob_witness(0x4du8), MachineMode::Bits32, t, 0x4du8, 0x00u8);
        },
        0x4eu8 => {
            let t = tpl1(Mnemonic::Dec, Category::Arith, IsaSet::I86, 3, 0x8d4, OpDesc::OpcRegV);
            assert(spec_one_byte(0x4eu8) == Entry::Ins(t));
            lemma_witness_covers(spec_ob_witness(0x4eu8), MachineMode::Bits32, t, 0x4eu8, 0x00u8);
        },
        0x4fu8 => {
            let t = tpl1(Mnemonic::Dec, Category::Arith, IsaSet::I86, 3, 0x8d4, OpDesc::OpcRegV);
            assert(spec_one_byte(0x4fu8) == Entry::Ins(t));
            lemma_witness_covers(spec_ob_witness(0x4fu8), MachineMode::Bits32, t, 0x4fu8, 0x00u8);
        },
        _ => {},
    }
}

/// Witness coverage of one-byte opcodes `0x50` through `0x5f`.
#[verifier::rlimit(100)]
#[verifier::spinoff_prover]
proof fn lemma_ob_block_50(op: u8)
    requires
        0x50 <= op < 0x60,
    ensures
        spec_one_byte(op) matches Entry::Ins(t) ==> spec_covers(
            spec_ob_witness(op),
            spec_ob_mode(op),
            t,
        ),
        spec_one_byte(op) matches Entry::Split(tleg, t64) ==> spec_covers(
            spec_ob_witness(op),
            MachineMode::Bits32,
            tleg,
        ) && spec_covers(spec_ob_witness(op), MachineMode::Bits64, t64),
{
    reveal_with_fuel(le_at, 3);
    match op {
        0x50u8 => {
            let t = tpl1(Mnemonic::Push, Category::Push, IsaSet::I86, 7, 0x0, OpDesc::OpcRegV64);
            assert(spec_one_byte(0x50u8) == Entry::Ins(t));
            lemma_witness_covers(spec_ob_witness(0x50u8), MachineMode::Bits32, t, 0x50u8, 0x00u8);
        },
        0x51u8 => {
            let t = tpl1(Mnemonic::Push, Category::Push, IsaSet::I86, 7, 0x0, OpDesc::OpcRegV64);
            assert(spec_one_byte(0x51u8) == Entry::Ins(t));
            lemma_witness_covers(spec_ob_witness(0x51u8), MachineMode::Bits32, t, 0x51u8, 0x00u8);
        },
        0x52u8 => {
            let t = tpl1(Mnemonic::Push, Category::Push, IsaSet::I86, 7, 0x0, OpDesc::OpcRegV64);
            assert(spec_one_byte(0x52u8) == Entry::Ins(t));
            lemma_witness_covers(spec_ob_witness(0x52u8), MachineMode::Bits32, t, 0x52u8, 0x00u8);
        },
        0x53u8 => {
            let t = tpl1(Mnemonic::Push, Category::Push, IsaSet::I86, 7, 0x0, OpDesc::OpcRegV64);
            assert(spec_one_byte(0x53u8) == Entry::Ins(t));
            lemma_witness_covers(spec_ob_witness(0x53u8), MachineMode::Bits32, t, 0x53u8, 0x00u8);
        },
        0x54u8 => {
            let t = tpl1(Mnemonic::Push, Category::Push, IsaSet::I86, 7, 0x0, OpDesc::OpcRegV64);
            assert(spec_one_byte(0x54u8) == Entry::Ins(t));
            lemma_witness_covers(spec_ob_witness(0x54u8), MachineMode::Bits32, t, 0x54u8, 0x00u8);
        },
        0x55u8 => {
            let t = tpl1(Mnemonic::Push, Category::Push, IsaSet::I86, 7, 0x0, OpDesc::OpcRegV64);
            assert(spec_one_byte(0x55u8) == Entry::Ins(t));
            lemma_witness_covers(spec_ob_witness(0x55u8), MachineMode::Bits32, t, 0x55u8, 0x00u8);
        },
        0x56u8 => {
            let t = tpl1(Mnemonic::Push, Category::Push, IsaSet::I86, 7, 0x0, OpDesc::OpcRegV64);
            assert(spec_one_byte(0x56u8) == Entry::Ins(t));
            lemma_witness_covers(spec_ob_witness(0x56u8), MachineMode::Bits32, t, 0x56u8, 0x00u8);
        },
        0x57u8 => {
            let t = tpl1(Mnemonic::Push, Category::Push, IsaSet::I86, 7, 0x0, OpDesc::OpcRegV64);
            assert(spec_one_byte(0x57u8) == Entry::Ins(t));
            lemma_witness_covers(spec_ob_witness(0x57u8), MachineMode::Bits32, t, 0x57u8, 0x00u8);
        },
        0x58u8 => {
            let t = tpl1(Mnemonic::Pop, Category::Pop, IsaSet::I86, 7, 0x0, OpDesc::OpcRegV64);
            assert(spec_one_byte(0x58u8) == Entry::Ins(t));
            lemma_witness_covers(spec_ob_witness(0x58u8), MachineMode::Bits32, t, 0x58u8, 0x00u8);
        },
        0x59u8 => {
            let t = tpl1(Mnemonic::Pop, Category::Pop, IsaSet::I86, 7, 0x0, OpDesc::OpcRegV64);
            assert(spec_one_byte(0x59u8) == Entry::Ins(t));
            lemma_witness_covers(spec_ob_witness(0x59u8), MachineMode::Bits32, t, 0x59u8, 0x00u8);
        },
        0x5au8 => {
            let t = tpl1(Mnemonic::Pop, Category::Pop, IsaSet::I86, 7, 0x0, OpDesc::OpcRegV64);
            assert(spec_one_byte(0x5au8) == Entry::Ins(t));
            lemma_witness_covers(spec_ob_witness(0x5au8), MachineMode::Bits32, t, 0x5au8, 0x00u8);
        },
        0x5bu8 => {
            let t = tpl1(Mnemonic::Pop, Category::Pop, IsaSet::I86, 7, 0x0, OpDesc::OpcRegV64);
            assert(spec_one_byte(0x5bu8) == Entry::Ins(t));
            lemma_witness_covers(spec_ob_witness(0x5bu8), MachineMode::Bits32, t, 0x5bu8, 0x00u8);
        },
        0x5cu8 => {
            let t = tpl1(Mnemonic::Pop, Category::Pop, IsaSet::I86, 7, 0x0, OpDesc::OpcRegV64);
            assert(spec_one_byte(0x5cu8) == Entry::Ins(t));
            lemma_witness_covers(spec_ob_witness(0x5cu8), MachineMode::Bits32, t, 0x5cu8, 0x00u8);
        },
        0x5du8 => {
            let t = tpl1(Mnemonic::Pop, Category::Pop, IsaSet::I86, 7, 0x0, OpDesc::OpcRegV64);
            assert(spec_one_byte(0x5du8) == Entry::Ins(t));
            lemma_witness_covers(spec_ob_witness(0x5du8), MachineMode::Bits32, t, 0x5du8, 0x00u8);
        },
        0x5eu8 => {
            let t = tpl1(Mnemonic::Pop, Category::Pop, IsaSet::I86, 7, 0x0, OpDesc::OpcRegV64);
            assert(spec_one_byte(0x5eu8) == Entry::Ins(t));
            lemma_witness_covers(spec_ob_witness(0x5eu8), MachineMode::Bits32, t, 0x5eu8, 0x00u8);
        },
        0x5fu8 => {
            let t = tpl1(Mnemonic::Pop, Category::Pop, IsaSet::I86, 7, 0x0, OpDesc::OpcRegV64);
            assert(spec_one_byte(0x5fu8) == Entry::Ins(t));
            lemma_witness_covers(spec_ob_witness(0x5fu8), MachineMode::Bits32, t, 0x5fu8, 0x00u8);
        },
        _ => {},
    }
}

/// Witness coverage of one-byte opcodes `0x60` through `0x6f`.
#[verifier::rlimit(100)]
#[verifier::spinoff_prover]
proof fn lemma_ob_block_60(op: u8)
    requires
        0x60 <= op < 0x70,
    ensures
        spec_one_byte(op) matches Entry::Ins(t) ==> spec_covers(
            spec_ob_witness(op),
            spec_ob_mode(op),
            t,
        ),
        spec_one_byte(op) matches Entry::Split(tleg, t64) ==> spec_covers(
            spec_ob_witness(op),
            MachineMode::Bits32,
            tleg,
        ) && spec_covers(spec_ob_witness(op), MachineMode::Bits64, t64),
{
    reveal_with_fuel(le_at, 3);
    match op {
        0x60u8 => {
            let t = tpl0(Mnemonic::Pusha, Category::Push, IsaSet::I186, 3, 0x0);
            assert(spec_one_byte(0x60u8) == Entry::Ins(t));
            lemma_witness_covers(spec_ob_witness(0x60u8), MachineMode::Bits32, t, 0x60u8, 0x00u8);
        },
        0x61u8 => {
            let t = tpl0(Mnemonic::Popa, Category::Pop, IsaSet::I186, 3, 0x0);
            assert(spec_one_byte(0x61u8) == Entry::Ins(t));
            lemma_witness_covers(spec_ob_witness(0x61u8), MachineMode::Bits32, t, 0x61u8, 0x00u8);
        },
        0x62u8 => {
            let t = tpl2(Mnemonic::Bound, Category::Misc, IsaSet::I186, 3, 0x0, OpDesc::GregV, OpDesc::GrmMem);
            assert(spec_one_byte(0x62u8) == Entry::Ins(t));
            lemma_witness_covers(spec_ob_witness(0x62u8), MachineMode::Bits32, t, 0x62u8, 0x00u8);
        },
        0x63u8 => {
            let tl = tpl2(Mnemonic::Arpl, Category::System, IsaSet::I286PROT, 3, 0x40, OpDesc::GrmW, OpDesc::GregW);
            let t64 = tpl2(Mnemonic::Movsxd, Category::Dataxfer, IsaSet::LONGMODE, 4, 0x0, OpDesc::GregV, OpDesc::GrmD);
            assert(spec_one_byte(0x63u8) == Entry::Split(tl, t64));
            lemma_witness_covers(spec_ob_witness(0x63u8), MachineMode::Bits32, tl, 0x63u8, 0x00u8);
            lemma_witness_covers(spec_ob_witness(0x63u8), MachineMode::Bits64, t64, 0x63u8, 0x00u8);
        },
        0x68u8 => {
            let t = tpl1(Mnemonic::Push, Category::Push, IsaSet::I186, 7, 0x0, OpDesc::ImmZ);
            assert(spec_one_byte(0x68u8) == Entry::Ins(t));
            lemma_witness_covers(spec_ob_witness(0x68u8), MachineMode::Bits32, t, 0x68u8, 0x00u8);
        },
        0x69u8 => {
            let t = tpl3(Mnemonic::Imul, Category::Arith, IsaSet::I186, 7, 0x801, OpDesc::GregV, OpDesc::GrmV, OpDesc::ImmZ);
            assert(spec_one_byte(0x69u8) == Entry::Ins(t));
            lemma_witness_covers(spec_ob_witness(0x69u8), MachineMode::Bits32, t, 0x69u8, 0x00u8);
        },
        0x6au8 => {
            let t = tpl1(Mnemonic::Push, Category::Push, IsaSet::I186, 7, 0x0, OpDesc::ImmBs);
            assert(spec_one_byte(0x6au8) == Entry::Ins(t));
            lemma_witness_covers(spec_ob_witness(0x6au8), MachineMode::Bits32, t, 0x6au8, 0x00u8);
        },
        0x6bu8 => {
            let t = tpl3(Mnemonic::Imul, Category::Arith, IsaSet::I186, 7, 0x801, OpDesc::GregV, OpDesc::GrmV, OpDesc::ImmBs);
            assert(spec_one_byte(0x6bu8) == Entry::Ins(t));
            lemma_witness_covers(spec_ob_witness(0x6bu8), MachineMode::Bits32, t, 0x6bu8, 0x00u8);
        },
        0x6cu8 => {
            let t = tpl0(Mnemonic::Ins, Category::Iostringop, IsaSet::I186, 7, 0x0);
            assert(spec_one_byte(0x6cu8) == Entry::Ins(t));
            lemma_witness_covers(spec_ob_witness(0x6cu8), MachineMode::Bits32, t, 0x6cu8, 0x00u8);
        },
        0x6du8 => {
            let t = tpl0(Mnemonic::Ins, Category::Iostringop, IsaSet::I186, 7, 0x0);
            assert(spec_one_byte(0x6du8) == Entry::Ins(t));
            lemma_witness_covers(spec_ob_witness(0x6du8), MachineMode::Bits32, t, 0x6du8, 0x00u8);
        },
        0x6eu8 => {
            let t = tpl0(Mnemonic::Outs, Category::Iostringop, IsaSet::I186, 7, 0x0);
            assert(spec_one_byte(0x6eu8) == Entry::Ins(t));
            lemma_witness_covers(spec_ob_witness(0x6eu8), MachineMode::Bits32, t, 0x6eu8, 0x00u8);
        },
        0x6fu8 => {
            let t = tpl0(Mnemonic::Outs, Category::Iostringop, IsaSet::I186, 7, 0x0);
            assert(spec_one_byte(0x6fu8) == Entry::Ins(t));
            lemma_witness_covers(spec_ob_witness(0x6fu8), MachineMode::Bits32, t, 0x6fu8, 0x00u8);
        },
        _ => {},
    }
}

/// Witness coverage of one-byte opcodes `0x70` through `0x7f`.
#[verifier::rlimit(100)]
#[verifier::spinoff_prover]
proof fn lemma_ob_block_70(op: u8)
    requires
        0x70 <= op < 0x80,
    ensures
        spec_one_byte(op) matches Entry::Ins(t) ==> spec_covers(
            spec_ob_witness(op),
            spec_ob_mode(op),
            t,
        ),
        spec_one_byte(op) matches Entry::Split(tleg, t64) ==> spec_covers(
            spec_ob_witness(op),
            MachineMode::Bits32,
            tleg,
        ) && spec_covers(spec_ob_witness(op), MachineMode::Bits64, t64),
{
    reveal_with_fuel(le_at, 3);
    match op {
        0x70u8 => {
            let t = tpl1(Mnemonic::Jo, Category::CondBr, IsaSet::I86, 7, 0x0, OpDesc::RelB);
            assert(spec_one_byte(0x70u8) == Entry::Ins(t));
            lemma_witness_covers(spec_ob_witness(0x70u8), MachineMode::Bits32, t, 0x70u8, 0x00u8);
        },
        0x71u8 => {
            let t = tpl1(Mnemonic::Jno, Category::CondBr, IsaSet::I86, 7, 0x0, OpDesc::RelB);
            assert(spec_one_byte(0x71u8) == Entry::Ins(t));
            lemma_witness_covers(spec_ob_witness(0x71u8), MachineMode::Bits32, t, 0x71u8, 0x00u8);
        },
        0x72u8 => {
            let t = tpl1(Mnemonic::Jb, Category::CondBr, IsaSet::I86, 7, 0x0, OpDesc::RelB);
            assert(spec_one_byte(0x72u8) == Entry::Ins(t));
            lemma_witness_covers(spec_ob_witness(0x72u8), MachineMode::Bits32, t, 0x72u8, 0x00u8);
        },
        0x73u8 => {
            let t = tpl1(Mnemonic::Jae, Category::CondBr, IsaSet::I86, 7, 0x0, OpDesc::RelB);
            assert(spec_one_byte(0x73u8) == Entry::Ins(t));
            lemma_witness_covers(spec_ob_witness(0x73u8), MachineMode::Bits32, t, 0x73u8, 0x00u8);
        },
        0x74u8 => {
            let t = tpl1(Mnemonic::Je, Category::CondBr, IsaSet::I86, 7, 0x0, OpDesc::RelB);
            assert(spec_one_byte(0x74u8) == Entry::Ins(t));
            lemma_witness_covers(spec_ob_witness(0x74u8), MachineMode::Bits32, t, 0x74u8, 0x00u8);
        },
        0x75u8 => {
            let t = tpl1(Mnemonic::Jne, Category::CondBr, IsaSet::I86, 7, 0x0, OpDesc::RelB);
            assert(spec_one_byte(0x75u8) == Entry::Ins(t));
            lemma_witness_covers(spec_ob_witness(0x75u8), MachineMode::Bits32, t, 0x75u8, 0x00u8);
        },
        0x76u8 => {
            let t = tpl1(Mnemonic::Jbe, Category::CondBr, IsaSet::I86, 7, 0x0, OpDesc::RelB);
            assert(spec_one_byte(0x76u8) == Entry::Ins(t));
            lemma_witness_covers(spec_ob_witness(0x76u8), MachineMode::Bits32, t, 0x76u8, 0x00u8);
        },
        0x77u8 => {
            let t = tpl1(Mnemonic::Ja, Category::CondBr, IsaSet::I86, 7, 0x0, OpDesc::RelB);
            assert(spec_one_byte(0x77u8) == Entry::Ins(t));
            lemma_witness_covers(spec_ob_witness(0x77u8), MachineMode::Bits32, t, 0x77u8, 0x00u8);
        },
        0x78u8 => {
            let t = tpl1(Mnemonic::Js, Category::CondBr, IsaSet::I86, 7, 0x0, OpDesc::RelB);
            assert(spec_one_byte(0x78u8) == Entry::Ins(t));
            lemma_witness_covers(spec_ob_witness(0x78u8), MachineMode::Bits32, t, 0x78u8, 0x00u8);
        },
        0x79u8 => {
            let t = tpl1(Mnemonic::Jns, Category::CondBr, IsaSet::I86, 7, 0x0, OpDesc::RelB);
            assert(spec_one_byte(0x79u8) == Entry::Ins(t));
            lemma_witness_covers(spec_ob_witness(0x79u8), MachineMode::Bits32, t, 0x79u8, 0x00u8);
        },
        0x7au8 => {
            let t = tpl1(Mnemonic::Jp, Category::CondBr, IsaSet::I86, 7, 0x0, OpDesc::RelB);
            assert(spec_one_byte(0x7au8) == Entry::Ins(t));
            lemma_witness_covers(spec_ob_witness(0x7au8), MachineMode::Bits32, t, 0x7au8, 0x00u8);
        },
        0x7bu8 => {
            let t = tpl1(Mnemonic::Jnp, Category::CondBr, IsaSet::I86, 7, 0x0, OpDesc::RelB);
            assert(spec_one_byte(0x7bu8) == Entry::Ins(t));
            lemma_witness_covers(spec_ob_witness(0x7bu8), MachineMode::Bits32, t, 0x7bu8, 0x00u8);
        },
        0x7cu8 => {
            let t = tpl1(Mnemonic::Jl, Category::CondBr, IsaSet::I86, 7, 0x0, OpDesc::RelB);
            assert(spec_one_byte(0x7cu8) == Entry::Ins(t));
            lemma_witness_covers(spec_ob_witness(0x7cu8), MachineMode::Bits32, t, 0x7cu8, 0x00u8);
        },
        0x7du8 => {
            let t = tpl1(Mnemonic::Jge, Category::CondBr, IsaSet::I86, 7, 0x0, OpDesc::RelB);
            assert(spec_one_byte(0x7du8) == Entry::Ins(t));
            lemma_witness_covers(spec_ob_witness(0x7du8), MachineMode::Bits32, t, 0x7du8, 0x00u8);
        },
        0x7eu8 => {
            let t = tpl1(Mnemonic::Jle, Category::CondBr, IsaSet::I86, 7, 0x0, OpDesc::RelB);
            assert(spec_one_byte(0x7eu8) == Entry::Ins(t));
            lemma_witness_covers(spec_ob_witness(0x7eu8), MachineMode::Bits32, t, 0x7eu8, 0x00u8);
        },
        0x7fu8 => {
            let t = tpl1(Mnemonic::Jg, Category::CondBr, IsaSet::I86, 7, 0x0, OpDesc::RelB);
            assert(spec_one_byte(0x7fu8) == Entry::Ins(t));
            lemma_witness_covers(spec_ob_witness(0x7fu8), MachineMode::Bits32, t, 0x7fu8, 0x00u8);
        },
        _ => {},
    }
}

/// Witness coverage of one-byte opcodes `0x80` through `0x8f`.
#[verifier::rlimit(100)]
#[verifier::spinoff_prover]
proof fn lemma_ob_block_80(op: u8)
    requires
        0x80 <= op < 0x90,
    ensures
        spec_one_byte(op) matches Entry::Ins(t) ==> spec_covers(
            spec_ob_witness(op),
            spec_ob_mode(op),
            t,
        ),
        spec_one_byte(op) matches Entry::Split(tleg, t64) ==> spec_covers(
            spec_ob_witness(op),
            MachineMode::Bits32,
            tleg,
        ) && spec_covers(spec_ob_witness(op), MachineMode::Bits64, t64),
{
    reveal_with_fuel(le_at, 3);
    match op {
        0x84u8 => {
            let t = tpl2(Mnemonic::Test, Category::Logical, IsaSet::I86, 7, 0x8c5, OpDesc::GrmB, OpDesc::GregB);
            assert(spec_one_byte(0x84u8) == Entry::Ins(t));
            lemma_witness_covers(spec_ob_witness(0x84u8), MachineMode::Bits32, t, 0x84u8, 0x00u8);
        },
        0x85u8 => {
            let t = tpl2(Mnemonic::Test, Category::Logical, IsaSet::I86, 7, 0x8c5, OpDesc::GrmV, OpDesc::GregV);
            assert(spec_one_byte(0x85u8) == Entry::Ins(t));
            lemma_witness_covers(spec_ob_witness(0x85u8), MachineMode::Bits32, t, 0x85u8, 0x00u8);
        },
        0x86u8 => {
            let t = tpl2(Mnemonic::Xchg, Category::Dataxfer, IsaSet::I86, 7, 0x0, OpDesc::GrmB, OpDesc::GregB);
            assert(spec_one_byte(0x86u8) == Entry::Ins(t));
            lemma_witness_covers(spec_ob_witness(0x86u8), MachineMode::Bits32, t, 0x86u8, 0x00u8);
        },
        0x87u8 => {
            let t = tpl2(Mnemonic::Xchg, Category::Dataxfer, IsaSet::I86, 7, 0x0, OpDesc::GrmV, OpDesc::GregV);
            assert(spec_one_byte(0x87u8) == Entry::Ins(t));
            lemma_witness_covers(spec_ob_witness(0x87u8), MachineMode::Bits32, t, 0x87u8, 0x00u8);
        },
        0x88u8 => {
            let t = tpl2(Mnemonic::Mov, Category::Dataxfer, IsaSet::I86, 7, 0x0, OpDesc::GrmB, OpDesc::GregB);
            assert(spec_one_byte(0x88u8) == Entry::Ins(t));
            lemma_witness_covers(spec_ob_witness(0x88u8), MachineMode::Bits32, t, 0x88u8, 0x00u8);
        },
        0x89u8 => {
            let t = tpl2(Mnemonic::Mov, Category::Dataxfer, IsaSet::I86, 7, 0x0, OpDesc::GrmV, OpDesc::GregV);
            assert(spec_one_byte(0x89u8) == Entry::Ins(t));
            lemma_witness_covers(spec_ob_witness(0x89u8), MachineMode::Bits32, t, 0x89u8, 0x00u8);
        },
        0x8au8 => {
            let t = tpl2(Mnemonic::Mov, Category::Dataxfer, IsaSet::I86, 7, 0x0, OpDesc::GregB, OpDesc::GrmB);
            assert(spec_one_byte(0x8au8) == Entry::Ins(t));
            lemma_witness_covers(spec_ob_witness(0x8au8), MachineMode::Bits32, t, 0x8au8, 0x00u8);
        },
        0x8bu8 => {
            let t = tpl2(Mnemonic::Mov, Category::Dataxfer, IsaSet::I86, 7, 0x0, OpDesc::GregV, OpDesc::GrmV);
            assert(spec_one_byte(0x8bu8) == Entry::Ins(t));
            lemma_witness_covers(spec_ob_witness(0x8bu8), MachineMode::Bits32, t, 0x8bu8, 0x00u8);
        },
        0x8cu8 => {
            let t = tpl2(Mnemonic::Mov, Category::Dataxfer, IsaSet::I86, 7, 0x0, OpDesc::GrmV, OpDesc::SegReg);
            assert(spec_one_byte(0x8cu8) == Entry::Ins(t));
            lemma_witness_covers(spec_ob_witness(0x8cu8), MachineMode::Bits32, t, 0x8cu8, 0x00u8);
        },
        0x8du8 => {
            let t = tpl2(Mnemonic::Lea, Category::Misc, IsaSet::I86, 7, 0x0, OpDesc::GregV, OpDesc::GrmMem);
            assert(spec_one_byte(0x8du8) == Entry::Ins(t));
            lemma_witness_covers(spec_ob_witness(0x8du8), MachineMode::Bits32, t, 0x8du8, 0x00u8);
        },
        0x8eu8 => {
            let t = tpl2(Mnemonic::Mov, Category::Dataxfer, IsaSet::I86, 7, 0x0, OpDesc::SegReg, OpDesc::GrmW);
            assert(spec_one_byte(0x8eu8) == Entry::Ins(t));
            lemma_witness_covers(spec_ob_witness(0x8eu8), MachineMode::Bits32, t, 0x8eu8, 0x00u8);
        },
        _ => {},
    }
}

/// Witness coverage of one-byte opcodes `0x90` through `0x9f`.
#[verifier::rlimit(100)]
#[verifier::spinoff_prover]
proof fn lemma_ob_block_90(op: u8)
    requires
        0x90 <= op < 0xa0,
    ensures
        spec_one_byte(op) matches Entry::Ins(t) ==> spec_covers(
            spec_ob_witness(op),
            spec_ob_mode(op),
            t,
        ),
        spec_one_byte(op) matches Entry::Split(tleg, t64) ==> spec_covers(
            spec_ob_witness(op),
            MachineMode::Bits32,
            tleg,
        ) && spec_covers(spec_ob_witness(op), MachineMode::Bits64, t64),
{
    reveal_with_fuel(le_at, 3);
    match op {
        0x90u8 => {
            let t = tpl0(Mnemonic::Nop, Category::Nop, IsaSet::I86, 7, 0x0);
            assert(spec_one_byte(0x90u8) == Entry::Ins(t));
            lemma_witness_covers(spec_ob_witness(0x90u8), MachineMode::Bits32, t, 0x90u8, 0x00u8);
        },
        0x91u8 => {
            let t = tpl2(Mnemonic::Xchg, Category::Dataxfer, IsaSet::I86, 7, 0x0, OpDesc::IAXv, OpDesc::OpcRegV);
            assert(spec_one_byte(0x91u8) == Entry::Ins(t));
            lemma_witness_covers(spec_ob_witness(0x91u8), MachineMode::Bits32, t, 0x91u8, 0x00u8);
        },
        0x92u8 => {
            let t = tpl2(Mnemonic::Xchg, Category::Dataxfer, IsaSet::I86, 7, 0x0, OpDesc::IAXv, OpDesc::OpcRegV);
            assert(spec_one_byte(0x92u8) == Entry::Ins(t));
            lemma_witness_covers(spec_ob_witness(0x92u8), MachineMode::Bits32, t, 0x92u8, 0x00u8);
        },
        0x93u8 => {
            let t = tpl2(Mnemonic::Xchg, Category::Dataxfer, IsaSet::I86, 7, 0x0, OpDesc::IAXv, OpDesc::OpcRegV);
            assert(spec_one_byte(0x93u8) == Entry::Ins(t));
            lemma_witness_covers(spec_ob_witness(0x93u8), MachineMode::Bits32, t, 0x93u8, 0x00u8);
        },
        0x94u8 => {
            let t = tpl2(Mnemonic::Xchg, Category::Dataxfer, IsaSet::I86, 7, 0x0, OpDesc::IAXv, OpDesc::OpcRegV);
            assert(spec_one_byte(0x94u8) == Entry::Ins(t));
            lemma_witness_covers(spec_ob_witness(0x94u8), MachineMode::Bits32, t, 0x94u8, 0x00u8);
        },
        0x95u8 => {
            let t = tpl2(Mnemonic::Xchg, Category::Dataxfer, IsaSet::I86, 7, 0x0, OpDesc::IAXv, OpDesc::OpcRegV);
            assert(spec_one_byte(0x95u8) == Entry::Ins(t));
            lemma_witness_covers(spec_ob_witness(0x95u8), MachineMode::Bits32, t, 0x95u8, 0x00u8);
        },
        0x96u8 => {
            let t = tpl2(Mnemonic::Xchg, Category::Dataxfer, IsaSet::I86, 7, 0x0, OpDesc::IAXv, OpDesc::OpcRegV);
            assert(spec_one_byte(0x96u8) == Entry::Ins(t));
            lemma_witness_covers(spec_ob_witness(0x96u8), MachineMode::Bits32, t, 0x96u8, 0x00u8);
        },
        0x97u8 => {
            let t = tpl2(Mnemonic::Xchg, Category::Dataxfer, IsaSet::I86, 7, 0x0, OpDesc::IAXv, OpDesc::OpcRegV);
            assert(spec_one_byte(0x97u8) == Entry::Ins(t));
            lemma_witness_covers(spec_ob_witness(0x97u8), MachineMode::Bits32, t, 0x97u8, 0x00u8);
        },
        0x98u8 => {
            let t = tpl0(Mnemonic::Cbw, Category::Convert, IsaSet::I86, 7, 0x0);
            assert(spec_one_byte(0x98u8) == Entry::Ins(t));
            lemma_witness_covers(spec_ob_witness(0x98u8), MachineMode::Bits32, t, 0x98u8, 0x00u8);
        },
        0x99u8 => {
            let t = tpl0(Mnemonic::Cwd, Category::Convert, IsaSet::I86, 7, 0x0);
            assert(spec_one_byte(0x99u8) == Entry::Ins(t));
            lemma_witness_covers(spec_ob_witness(0x99u8), MachineMode::Bits32, t, 0x99u8, 0x00u8);
        },
        0x9au8 => {
            let t = tpl2(Mnemonic::Callf, Category::Call, IsaSet::I86, 3, 0x0, OpDesc::ImmZ, OpDesc::ImmW);
            assert(spec_one_byte(0x9au8) == Entry::Ins(t));
            lemma_witness_covers(spec_ob_witness(0x9au8), MachineMode::Bits32, t, 0x9au8, 0x00u8);
        },
        0x9bu8 => {
            let t = tpl0(Mnemonic::Wait, Category::Misc, IsaSet::I86, 7, 0x0);
            assert(spec_one_byte(0x9bu8) == Entry::Ins(t));
            lemma_witness_covers(spec_ob_witness(0x9bu8), MachineMode::Bits32, t, 0x9bu8, 0x00u8);
        },
        0x9cu8 => {
            let t = tpl0(Mnemonic::Pushf, Category::Push, IsaSet::I86, 7, 0x0);
            assert(spec_one_byte(0x9cu8) == Entry::Ins(t));
            lemma_witness_covers(spec_ob_witness(0x9cu8), MachineMode::Bits32, t, 0x9cu8, 0x00u8);
        },
        0x9du8 => {
            let t = tpl0(Mnemonic::Popf, Category::Pop, IsaSet::I86, 7, 0x8d5);
            assert(spec_one_byte(0x9du8) == Entry::Ins(t));
            lemma_witness_covers(spec_ob_witness(0x9du8), MachineMode::Bits32, t, 0x9du8, 0x00u8);
        },
        0x9eu8 => {
            let t = tpl0(Mnemonic::Sahf, Category::Flagop, IsaSet::I86, 7, 0xd5);
            assert(spec_one_byte(0x9eu8) == Entry::Ins(t));
            lemma_witness_covers(spec_ob_witness(0x9eu8), MachineMode::Bits32, t, 0x9eu8, 0x00u8);
        },
        0x9fu8 => {
            let t = tpl0(Mnemonic::Lahf, Category::Flagop, IsaSet::I86, 7, 0x0);
            assert(spec_one_byte(0x9fu8) == Entry::Ins(t));
            lemma_witness_covers(spec_ob_witness(0x9fu8), MachineMode::Bits32, t, 0x9fu8, 0x00u8);
        },
        _ => {},
    }
}

/// Witness coverage of one-byte opcodes `0xa0` through `0xaf`.
#[verifier::rlimit(100)]
#[verifier::spinoff_prover]
proof fn lemma_ob_block_a0(op: u8)
    requires
        0xa0 <= op < 0xb0,
    ensures
        spec_one_byte(op) matches Entry::Ins(t) ==> spec_covers(
            spec_ob_witness(op),
            spec_ob_mode(op),
            t,
        ),
        spec_one_byte(op) matches Entry::Split(tleg, t64) ==> spec_covers(
            spec_ob_witness(op),
            MachineMode::Bits32,
            tleg,
        ) && spec_covers(spec_ob_witness(op), MachineMode::Bits64, t64),
{
    reveal_with_fuel(le_at, 3);
    match op {
        0xa0u8 => {
            let t = tpl2(Mnemonic::Mov, Category::Dataxfer, IsaSet::I86, 7, 0x0, OpDesc::IAl, OpDesc::Moffs);
            assert(spec_one_byte(0xa0u8) == Entry::Ins(t));
            lemma_witness_covers(spec_ob_witness(0xa0u8), MachineMode::Bits32, t, 0xa0u8, 0x00u8);
        },
        0xa1u8 => {
            let t = tpl2(Mnemonic::Mov, Category::Dataxfer, IsaSet::I86, 7, 0x0, OpDesc::IAXv, OpDesc::Moffs);
            assert(spec_one_byte(0xa1u8) == Entry::Ins(t));
            lemma_witness_covers(spec_ob_witness(0xa1u8), MachineMode::Bits32, t, 0xa1u8, 0x00u8);
        },
        0xa2u8 => {
            let t = tpl2(Mnemonic::Mov, Category::Dataxfer, IsaSet::I86, 7, 0x0, OpDesc::Moffs, OpDesc::IAl);
            assert(spec_one_byte(0xa2u8) == Entry::Ins(t));
            lemma_witness_covers(spec_ob_witness(0xa2u8), MachineMode::Bits32, t, 0xa2u8, 0x00u8);
        },
        0xa3u8 => {
            let t = tpl2(Mnemonic::Mov, Category::Dataxfer, IsaSet::I86, 7, 0x0, OpDesc::Moffs, OpDesc::IAXv);
            assert(spec_one_byte(0xa3u8) == Entry::Ins(t));
            lemma_witness_covers(spec_ob_witness(0xa3u8), MachineMode::Bits32, t, 0xa3u8, 0x00u8);
        },
        0xa4u8 => {
            let t = tpl0(Mnemonic::Movs, Category::Stringop, IsaSet::I86, 7, 0x0);
            assert(spec_one_byte(0xa4u8) == Entry::Ins(t));
            lemma_witness_covers(spec_ob_witness(0xa4u8), MachineMode::Bits32, t, 0xa4u8, 0x00u8);
        },
        0xa5u8 => {
            let t = tpl0(Mnemonic::Movs, Category::Stringop, IsaSet::I86, 7, 0x0);
            assert(spec_one_byte(0xa5u8) == Entry::Ins(t));
            lemma_witness_covers(spec_ob_witness(0xa5u8), MachineMode::Bits32, t, 0xa5u8, 0x00u8);
        },
        0xa6u8 => {
            let t = tpl0(Mnemonic::Cmps, Category::Stringop, IsaSet::I86, 7, 0x8d5);
            assert(spec_one_byte(0xa6u8) == Entry::Ins(t));
            lemma_witness_covers(spec_ob_witness(0xa6u8), MachineMode::Bits32, t, 0xa6u8, 0x00u8);
        },
        0xa7u8 => {
            let t = tpl0(Mnemonic::Cmps, Category::Stringop, IsaSet::I86, 7, 0x8d5);
            assert(spec_one_byte(0xa7u8) == Entry::Ins(t));
            lemma_witness_covers(spec_ob_witness(0xa7u8), MachineMode::Bits32, t, 0xa7u8, 0x00u8);
        },
        0xa8u8 => {
            let t = tpl2(Mnemonic::Test, Category::Logical, IsaSet::I86, 7, 0x8c5, OpDesc::IAl, OpDesc::ImmB);
            assert(spec_one_byte(0xa8u8) == Entry::Ins(t));
            lemma_witness_covers(spec_ob_witness(0xa8u8), MachineMode::Bits32, t, 0xa8u8, 0x00u8);
        },
        0xa9u8 => {
            let t = tpl2(Mnemonic::Test, Category::Logical, IsaSet::I86, 7, 0x8c5, OpDesc::IAXv, OpDesc::ImmZ);
            assert(spec_one_byte(0xa9u8) == Entry::Ins(t));
            lemma_witness_covers(spec_ob_witness(0xa9u8), MachineMode::Bits32, t, 0xa9u8, 0x00u8);
        },
        0xaau8 => {
            let t = tpl0(Mnemonic::Stos, Category::Stringop, IsaSet::I86, 7, 0x0);
            assert(spec_one_byte(0xaau8) == Entry::Ins(t));
            lemma_witness_covers(spec_ob_witness(0xaau8), MachineMode::Bits32, t, 0xaau8, 0x00u8);
        },
        0xabu8 => {
            let t = tpl0(Mnemonic::Stos, Category::Stringop, IsaSet::I86, 7, 0x0);
            assert(spec_one_byte(0xabu8) == Entry::Ins(t));
            lemma_witness_covers(spec_ob_witness(0xabu8), MachineMode::Bits32, t, 0xabu8, 0x00u8);
        },
        0xacu8 => {
            let t = tpl0(Mnemonic::Lods, Category::Stringop, IsaSet::I86, 7, 0x0);
            assert(spec_one_byte(0xacu8) == Entry::Ins(t));
            lemma_witness_covers(spec_ob_witness(0xacu8), MachineMode::Bits32, t, 0xacu8, 0x00u8);
        },
        0xadu8 => {
            let t = tpl0(Mnemonic::Lods, Category::Stringop, IsaSet::I86, 7, 0x0);
            assert(spec_one_byte(0xadu8) == Entry::Ins(t));
            lemma_witness_covers(spec_ob_witness(0xadu8), MachineMode::Bits32, t, 0xadu8, 0x00u8);
        },
        0xaeu8 => {
            let t = tpl0(Mnemonic::Scas, Category::Stringop, IsaSet::I86, 7, 0x8d5);
            assert(spec_one_byte(0xaeu8) == Entry::Ins(t));
            lemma_witness_covers(spec_ob_witness(0xaeu8), MachineMode::Bits32, t, 0xaeu8, 0x00u8);
        },
        0xafu8 => {
            let t = tpl0(Mnemonic::Scas, Category::Stringop, IsaSet::I86, 7, 0x8d5);
            assert(spec_one_byte(0xafu8) == Entry::Ins(t));
            lemma_witness_covers(spec_ob_witness(0xafu8), MachineMode::Bits32, t, 0xafu8, 0x00u8);
        },
        _ => {},
    }
}

/// Witness coverage of one-byte opcodes `0xb0` through `0xbf`.
#[verifier::rlimit(100)]
#[verifier::spinoff_prover]
proof fn lemma_ob_block_b0(op: u8)
    requires
        0xb0 <= op < 0xc0,
    ensures
        spec_one_byte(op) matches Entry::Ins(t) ==> spec_covers(
            spec_ob_witness(op),
            spec_ob_mode(op),
            t,
        ),
        spec_one_byte(op) matches Entry::Split(tleg, t64) ==> spec_covers(
            spec_ob_witness(op),
            MachineMode::Bits32,
            tleg,
        ) && spec_covers(spec_ob_witness(op), MachineMode::Bits64, t64),
{
    reveal_with_fuel(le_at, 3);
    match op {
        0xb0u8 => {
            let t = tpl2(Mnemonic::Mov, Category::Dataxfer, IsaSet::I86, 7, 0x0, OpDesc::OpcRegB, OpDesc::ImmB);
            assert(spec_one_byte(0xb0u8) == Entry::Ins(t));
            lemma_witness_covers(spec_ob_witness(0xb0u8), MachineMode::Bits32, t, 0xb0u8, 0x00u8);
        },
        0xb1u8 => {
            let t = tpl2(Mnemonic::Mov, Category::Dataxfer, IsaSet::I86, 7, 0x0, OpDesc::OpcRegB, OpDesc::ImmB);
            assert(spec_one_byte(0xb1u8) == Entry::Ins(t));
            lemma_witness_covers(spec_ob_witness(0xb1u8), MachineMode::Bits32, t, 0xb1u8, 0x00u8);
        },
        0xb2u8 => {
            let t = tpl2(Mnemonic::Mov, Category::Dataxfer, IsaSet::I86, 7, 0x0, OpDesc::OpcRegB, OpDesc::ImmB);
            assert(spec_one_byte(0xb2u8) == Entry::Ins(t));
            lemma_witness_covers(spec_ob_witness(0xb2u8), MachineMode::Bits32, t, 0xb2u8, 0x00u8);
        },
        0xb3u8 => {
            let t = tpl2(Mnemonic::Mov, Category::Dataxfer, IsaSet::I86, 7, 0x0, OpDesc::OpcRegB, OpDesc::ImmB);
            assert(spec_one_byte(0xb3u8) == Entry::Ins(t));
            lemma_witness_covers(spec_ob_witness(0xb3u8), MachineMode::Bits32, t, 0xb3u8, 0x00u8);
        },
        0xb4u8 => {
            let t = tpl2(Mnemonic::Mov, Category::Dataxfer, IsaSet::I86, 7, 0x0, OpDesc::OpcRegB, OpDesc::ImmB);
            assert(spec_one_byte(0xb4u8) == Entry::Ins(t));
            lemma_witness_covers(spec_ob_witness(0xb4u8), MachineMode::Bits32, t, 0xb4u8, 0x00u8);
        },
        0xb5u8 => {
            let t = tpl2(Mnemonic::Mov, Category::Dataxfer, IsaSet::I86, 7, 0x0, OpDesc::OpcRegB, OpDesc::ImmB);
            assert(spec_one_byte(0xb5u8) == Entry::Ins(t));
            lemma_witness_covers(spec_ob_witness(0xb5u8), MachineMode::Bits32, t, 0xb5u8, 0x00u8);
        },
        0xb6u8 => {
            let t = tpl2(Mnemonic::Mov, Category::Dataxfer, IsaSet::I86, 7, 0x0, OpDesc::OpcRegB, OpDesc::ImmB);
            assert(spec_one_byte(0xb6u8) == Entry::Ins(t));
            lemma_witness_covers(spec_ob_witness(0xb6u8), MachineMode::Bits32, t, 0xb6u8, 0x00u8);
        },
        0xb7u8 => {
            let t = tpl2(Mnemonic::Mov, Category::Dataxfer, IsaSet::I86, 7, 0x0, OpDesc::OpcRegB, OpDesc::ImmB);
            assert(spec_one_byte(0xb7u8) == Entry::Ins(t));
            lemma_witness_covers(spec_ob_witness(0xb7u8), MachineMode::Bits32, t, 0xb7u8, 0x00u8);
        },
        0xb8u8 => {
            let t = tpl2(Mnemonic::Mov, Category::Dataxfer, IsaSet::I86, 7, 0x0, OpDesc::OpcRegV, OpDesc::ImmV);
            assert(spec_one_byte(0xb8u8) == Entry::Ins(t));
            lemma_witness_covers(spec_ob_witness(0xb8u8), MachineMode::Bits32, t, 0xb8u8, 0x00u8);
        },
        0xb9u8 => {
            let t = tpl2(Mnemonic::Mov, Category::Dataxfer, IsaSet::I86, 7, 0x0, OpDesc::OpcRegV, OpDesc::ImmV);
            assert(spec_one_byte(0xb9u8) == Entry::Ins(t));
            lemma_witness_covers(spec_ob_witness(0xb9u8), MachineMode::Bits32, t, 0xb9u8, 0x00u8);
        },
        0xbau8 => {
            let t = tpl2(Mnemonic::Mov, Category::Dataxfer, IsaSet::I86, 7, 0x0, OpDesc::OpcRegV, OpDesc::ImmV);
            assert(spec_one_byte(0xbau8) == Entry::Ins(t));
            lemma_witness_covers(spec_ob_witness(0xbau8), MachineMode::Bits32, t, 0xbau8, 0x00u8);
        },
        0xbbu8 => {
            let t = tpl2(Mnemonic::Mov, Category::Dataxfer, IsaSet::I86, 7, 0x0, OpDesc::OpcRegV, OpDesc::ImmV);
            assert(spec_one_byte(0xbbu8) == Entry::Ins(t));
            lemma_witness_covers(spec_ob_witness(0xbbu8), MachineMode::Bits32, t, 0xbbu8, 0x00u8);
        },
        0xbcu8 => {
            let t = tpl2(Mnemonic::Mov, Category::Dataxfer, IsaSet::I86, 7, 0x0, OpDesc::OpcRegV, OpDesc::ImmV);
            assert(spec_one_byte(0xbcu8) == Entry::Ins(t));
            lemma_witness_covers(spec_ob_witness(0xbcu8), MachineMode::Bits32, t, 0xbcu8, 0x00u8);
        },
        0xbdu8 => {
            let t = tpl2(Mnemonic::Mov, Category::Dataxfer, IsaSet::I86, 7, 0x0, OpDesc::OpcRegV, OpDesc::ImmV);
            assert(spec_one_byte(0xbdu8) == Entry::Ins(t));
            lemma_witness_covers(spec_ob_witness(0xbdu8), MachineMode::Bits32, t, 0xbdu8, 0x00u8);
        },
        0xbeu8 => {
            let t = tpl2(Mnemonic::Mov, Category::Dataxfer, IsaSet::I86, 7, 0x0, OpDesc::OpcRegV, OpDesc::ImmV);
            assert(spec_one_byte(0xbeu8) == Entry::Ins(t));
            lemma_witness_covers(spec_ob_witness(0xbeu8), MachineMode::Bits32, t, 0xbeu8, 0x00u8);
        },
        0xbfu8 => {
            let t = tpl2(Mnemonic::Mov, Category::Dataxfer, IsaSet::I86, 7, 0x0, OpDesc::OpcRegV, OpDesc::ImmV);
            assert(spec_one_byte(0xbfu8) == Entry::Ins(t));
            lemma_witness_covers(spec_ob_witness(0xbfu8), MachineMode::Bits32, t, 0xbfu8, 0x00u8);
        },
        _ => {},
    }
}

/// Witness coverage of one-byte opcodes `0xc0` through `0xcf`.
#[verifier::rlimit(100)]
#[verifier::spinoff_prover]
proof fn lemma_ob_block_c0(op: u8)
    requires
        0xc0 <= op < 0xd0,
    ensures
        spec_one_byte(op) matches Entry::Ins(t) ==> spec_covers(
            spec_ob_witness(op),
            spec_ob_mode(op),
            t,
        ),
        spec_one_byte(op) matches Entry::Split(tleg, t64) ==> spec_covers(
            spec_ob_witness(op),
            MachineMode::Bits32,
            tleg,
        ) && spec_covers(spec_ob_witness(op), MachineMode::Bits64, t64),
{
    reveal_with_fuel(le_at, 3);
    match op {
        0xc2u8 => {
            let t = tpl1(Mnemonic::Ret, Category::Ret, IsaSet::I86, 7, 0x0, OpDesc::ImmW);
            assert(spec_one_byte(0xc2u8) == Entry::Ins(t));
            lemma_witness_covers(spec_ob_witness(0xc2u8), MachineMode::Bits32, t, 0xc2u8, 0x00u8);
        },
        0xc3u8 => {
            let t = tpl0(Mnemonic::Ret, Category::Ret, IsaSet::I86, 7, 0x0);
            assert(spec_one_byte(0xc3u8) == Entry::Ins(t));
            lemma_witness_covers(spec_ob_witness(0xc3u8), MachineMode::Bits32, t, 0xc3u8, 0x00u8);
        },
        0xc4u8 => {
            let t = tpl2(Mnemonic::Les, Category::Segop, IsaSet::I86, 3, 0x0, OpDesc::GregV, OpDesc::GrmMem);
            assert(spec_one_byte(0xc4u8) == Entry::Ins(t));
            lemma_witness_covers(spec_ob_witness(0xc4u8), MachineMode::Bits32, t, 0xc4u8, 0x00u8);
        },
        0xc5u8 => {
            let t = tpl2(Mnemonic::Lds, Category::Segop, IsaSet::I86, 3, 0x0, OpDesc::GregV, OpDesc::GrmMem);
            assert(spec_one_byte(0xc5u8) == Entry::Ins(t));
            lemma_witness_covers(spec_ob_witness(0xc5u8), MachineMode::Bits32, t, 0xc5u8, 0x00u8);
        },
        0xc8u8 => {
            let t = tpl2(Mnemonic::Enter, Category::Misc, IsaSet::I186, 7, 0x0, OpDesc::ImmW, OpDesc::ImmB);
            assert(spec_one_byte(0xc8u8) == Entry::Ins(t));
            lemma_witness_covers(spec_ob_witness(0xc8u8), MachineMode::Bits32, t, 0xc8u8, 0x00u8);
        },
        0xc9u8 => {
            let t = tpl0(Mnemonic::Leave, Category::Misc, IsaSet::I186, 7, 0x0);
            assert(spec_one_byte(0xc9u8) == Entry::Ins(t));
            lemma_witness_covers(spec_ob_witness(0xc9u8), MachineMode::Bits32, t, 0xc9u8, 0x00u8);
        },
        0xcau8 => {
            let t = tpl1(Mnemonic::Retf, Category::Ret, IsaSet::I86, 7, 0x0, OpDesc::ImmW);
            assert(spec_one_byte(0xcau8) == Entry::Ins(t));
            lemma_witness_covers(spec_ob_witness(0xcau8), MachineMode::Bits32, t, 0xcau8, 0x00u8);
        },
        0xcbu8 => {
            let t = tpl0(Mnemonic::Retf, Category::Ret, IsaSet::I86, 7, 0x0);
            assert(spec_one_byte(0xcbu8) == Entry::Ins(t));
            lemma_witness_covers(spec_ob_witness(0xcbu8), MachineMode::Bits32, t, 0xcbu8, 0x00u8);
        },
        0xccu8 => {
            let t = tpl0(Mnemonic::Int3, Category::Interrupt, IsaSet::I86, 7, 0x0);
            assert(spec_one_byte(0xccu8) == Entry::Ins(t));
            lemma_witness_covers(spec_ob_witness(0xccu8), MachineMode::Bits32, t, 0xccu8, 0x00u8);
        },
        0xcdu8 => {
            let t = tpl1(Mnemonic::Int, Category::Interrupt, IsaSet::I86, 7, 0x0, OpDesc::ImmB);
            assert(spec_one_byte(0xcdu8) == Entry::Ins(t));
            lemma_witness_covers(spec_ob_witness(0xcdu8), MachineMode::Bits32, t, 0xcdu8, 0x00u8);
        },
        0xceu8 => {
            let t = tpl0(Mnemonic::Into, Category::Interrupt, IsaSet::I86, 3, 0x0);
            assert(spec_one_byte(0xceu8) == Entry::Ins(t));
            lemma_witness_covers(spec_ob_witness(0xceu8), MachineMode::Bits32, t, 0xceu8, 0x00u8);
        },
        0xcfu8 => {
            let t = tpl0(Mnemonic::Iret, Category::Ret, IsaSet::I86, 7, 0x8d5);
            assert(spec_one_byte(0xcfu8) == Entry::Ins(t));
            lemma_witness_covers(spec_ob_witness(0xcfu8), MachineMode::Bits32, t, 0xcfu8, 0x00u8);
        },
        _ => {},
    }
}

/// Witness coverage of one-byte opcodes `0xd0` through `0xdf`.
#[verifier::rlimit(100)]
#[verifier::spinoff_prover]
proof fn lemma_ob_block_d0(op: u8)
    requires
        0xd0 <= op < 0xe0,
    ensures
        spec_one_byte(op) matches Entry::Ins(t) ==> spec_covers(
            spec_ob_witness(op),
            spec_ob_mode(op),
            t,
        ),
        spec_one_byte(op) matches Entry::Split(tleg, t64) ==> spec_covers(
            spec_ob_witness(op),
            MachineMode::Bits32,
            tleg,
        ) && spec_covers(spec_ob_witness(op), MachineMode::Bits64, t64),
{
    reveal_with_fuel(le_at, 3);
    match op {
        0xd4u8 => {
            let t = tpl1(Mnemonic::Aam, Category::Decimal, IsaSet::I86, 3, 0x8c5, OpDesc::ImmB);
            assert(spec_one_byte(0xd4u8) == Entry::Ins(t));
            lemma_witness_covers(spec_ob_witness(0xd4u8), MachineMode::Bits32, t, 0xd4u8, 0x00u8);
        },
        0xd5u8 => {
            let t = tpl1(Mnemonic::Aad, Category::Decimal, IsaSet::I86, 3, 0x8c5, OpDesc::ImmB);
            assert(spec_one_byte(0xd5u8) == Entry::Ins(t));
            lemma_witness_covers(spec_ob_witness(0xd5u8), MachineMode::Bits32, t, 0xd5u8, 0x00u8);
        },
        0xd7u8 => {
            let t = tpl0(Mnemonic::Xlat, Category::Misc, IsaSet::I86, 7, 0x0);
            assert(spec_one_byte(0xd7u8) == Entry::Ins(t));
            lemma_witness_covers(spec_ob_witness(0xd7u8), MachineMode::Bits32, t, 0xd7u8, 0x00u8);
        },
        _ => {},
    }
}

/// Witness coverage of one-byte opcodes `0xe0` through `0xef`.
#[verifier::rlimit(100)]
#[verifier::spinoff_prover]
proof fn lemma_ob_block_e0(op: u8)
    requires
        0xe0 <= op < 0xf0,
    ensures
        spec_one_byte(op) matches Entry::Ins(t) ==> spec_covers(
            spec_ob_witness(op),
            spec_ob_mode(op),
            t,
        ),
        spec_one_byte(op) matches Entry::Split(tleg, t64) ==> spec_covers(
            spec_ob_witness(op),
            MachineMode::Bits32,
            tleg,
        ) && spec_covers(spec_ob_witness(op), MachineMode::Bits64, t64),
{
    reveal_with_fuel(le_at, 3);
    match op {
        0xe0u8 => {
            let t = tpl1(Mnemonic::Loopne, Category::CondBr, IsaSet::I86, 7, 0x0, OpDesc::RelB);
            assert(spec_one_byte(0xe0u8) == Entry::Ins(t));
            lemma_witness_covers(spec_ob_witness(0xe0u8), MachineMode::Bits32, t, 0xe0u8, 0x00u8);
        },
        0xe1u8 => {
            let t = tpl1(Mnemonic::Loope, Category::CondBr, IsaSet::I86, 7, 0x0, OpDesc::RelB);
            assert(spec_one_byte(0xe1u8) == Entry::Ins(t));
            lemma_witness_covers(spec_ob_witness(0xe1u8), MachineMode::Bits32, t, 0xe1u8, 0x00u8);
        },
        0xe2u8 => {
            let t = tpl1(Mnemonic::Loop, Category::CondBr, IsaSet::I86, 7, 0x0, OpDesc::RelB);
            assert(spec_one_byte(0xe2u8) == Entry::Ins(t));
            lemma_witness_covers(spec_ob_witness(0xe2u8), MachineMode::Bits32, t, 0xe2u8, 0x00u8);
        },
        0xe3u8 => {
            let t = tpl1(Mnemonic::Jcxz, Category::CondBr, IsaSet::I86, 7, 0x0, OpDesc::RelB);
            assert(spec_one_byte(0xe3u8) == Entry::Ins(t));
            lemma_witness_covers(spec_ob_witness(0xe3u8), MachineMode::Bits32, t, 0xe3u8, 0x00u8);
        },
        0xe4u8 => {
            let t = tpl2(Mnemonic::In, Category::Io, IsaSet::I86, 7, 0x0, OpDesc::IAl, OpDesc::ImmB);
            assert(spec_one_byte(0xe4u8) == Entry::Ins(t));
            lemma_witness_covers(spec_ob_witness(0xe4u8), MachineMode::Bits32, t, 0xe4u8, 0x00u8);
        },
        0xe5u8 => {
            let t = tpl2(Mnemonic::In, Category::Io, IsaSet::I86, 7, 0x0, OpDesc::IAXz, OpDesc::ImmB);
            assert(spec_one_byte(0xe5u8) == Entry::Ins(t));
            lemma_witness_covers(spec_ob_witness(0xe5u8), MachineMode::Bits32, t, 0xe5u8, 0x00u8);
        },
        0xe6u8 => {
            let t = tpl2(Mnemonic::Out, Category::Io, IsaSet::I86, 7, 0x0, OpDesc::ImmB, OpDesc::IAl);
            assert(spec_one_byte(0xe6u8) == Entry::Ins(t));
            lemma_witness_covers(spec_ob_witness(0xe6u8), MachineMode::Bits32, t, 0xe6u8, 0x00u8);
        },
        0xe7u8 => {
            let t = tpl2(Mnemonic::Out, Category::Io, IsaSet::I86, 7, 0x0, OpDesc::ImmB, OpDesc::IAXz);
            assert(spec_one_byte(0xe7u8) == Entry::Ins(t));
            lemma_witness_covers(spec_ob_witness(0xe7u8), MachineMode::Bits32, t, 0xe7u8, 0x00u8);
        },
        0xe8u8 => {
            let t = tpl1(Mnemonic::Call, Category::Call, IsaSet::I86, 7, 0x0, OpDesc::RelZ);
            assert(spec_one_byte(0xe8u8) == Entry::Ins(t));
            lemma_witness_covers(spec_ob_witness(0xe8u8), MachineMode::Bits32, t, 0xe8u8, 0x00u8);
        },
        0xe9u8 => {
            let t = tpl1(Mnemonic::Jmp, Category::UncondBr, IsaSet::I86, 7, 0x0, OpDesc::RelZ);
            assert(spec_one_byte(0xe9u8) == Entry::Ins(t));
            lemma_witness_covers(spec_ob_witness(0xe9u8), MachineMode::Bits32, t, 0xe9u8, 0x00u8);
        },
        0xeau8 => {
            let t = tpl2(Mnemonic::Jmpf, Category::UncondBr, IsaSet::I86, 3, 0x0, OpDesc::ImmZ, OpDesc::ImmW);
            assert(spec_one_byte(0xeau8) == Entry::Ins(t));
            lemma_witness_covers(spec_ob_witness(0xeau8), MachineMode::Bits32, t, 0xeau8, 0x00u8);
        },
        0xebu8 => {
            let t = tpl1(Mnemonic::Jmp, Category::UncondBr, IsaSet::I86, 7, 0x0, OpDesc::RelB);
            assert(spec_one_byte(0xebu8) == Entry::Ins(t));
            lemma_witness_covers(spec_ob_witness(0xebu8), MachineMode::Bits32, t, 0xebu8, 0x00u8);
        },
        0xecu8 => {
            let t = tpl2(Mnemonic::In, Category::Io, IsaSet::I86, 7, 0x0, OpDesc::IAl, OpDesc::IDx);
            assert(spec_one_byte(0xecu8) == Entry::Ins(t));
            lemma_witness_covers(spec_ob_witness(0xecu8), MachineMode::Bits32, t, 0xecu8, 0x00u8);
        },
        0xedu8 => {
            let t = tpl2(Mnemonic::In, Category::Io, IsaSet::I86, 7, 0x0, OpDesc::IAXz, OpDesc::IDx);
            assert(spec_one_byte(0xedu8) == Entry::Ins(t));
            lemma_witness_covers(spec_ob_witness(0xedu8), MachineMode::Bits32, t, 0xedu8, 0x00u8);
        },
        0xeeu8 => {
            let t = tpl2(Mnemonic::Out, Category::Io, IsaSet::I86, 7, 0x0, OpDesc::IDx, OpDesc::IAl);
            assert(spec_one_byte(0xeeu8) == Entry::Ins(t));
            lemma_witness_covers(spec_ob_witness(0xeeu8), MachineMode::Bits32, t, 0xeeu8, 0x00u8);
        },
        0xefu8 => {
            let t = tpl2(Mnemonic::Out, Category::Io, IsaSet::I86, 7, 0x0, OpDesc::IDx, OpDesc::IAXz);
            assert(spec_one_byte(0xefu8) == Entry::Ins(t));
            lemma_witness_covers(spec_ob_witness(0xefu8), MachineMode::Bits32, t, 0xefu8, 0x00u8);
        },
        _ => {},
    }
}

/// Witness coverage of one-byte opcodes `0xf0` through `0xff`.
#[verifier::rlimit(100)]
#[verifier::spinoff_prover]
proof fn lemma_ob_block_f0(op: u8)
    requires
        0xf0 <= op < 0x100,
    ensures
        spec_one_byte(op) matches Entry::Ins(t) ==> spec_covers(
            spec_ob_witness(op),
            spec_ob_mode(op),
            t,
        ),
        spec_one_byte(op) matches Entry::Split(tleg, t64) ==> spec_covers(
            spec_ob_witness(op),
            MachineMode::Bits32,
            tleg,
        ) && spec_covers(spec_ob_witness(op), MachineMode::Bits64, t64),
{
    reveal_with_fuel(le_at, 3);
    match op {
        0xf1u8 => {
            let t = tpl0(Mnemonic::Int1, Category::Interrupt, IsaSet::I86, 7, 0x0);
            assert(spec_one_byte(0xf1u8) == Entry::Ins(t));
            lemma_witness_covers(spec_ob_witness(0xf1u8), MachineMode::Bits32, t, 0xf1u8, 0x00u8);
        },
        0xf4u8 => {
            let t = tpl0(Mnemonic::Hlt, Category::System, IsaSet::I86, 7, 0x0);
            assert(spec_one_byte(0xf4u8) == Entry::Ins(t));
            lemma_witness_covers(spec_ob_witness(0xf4u8), MachineMode::Bits32, t, 0xf4u8, 0x00u8);
        },
        0xf5u8 => {
            let t = tpl0(Mnemonic::Cmc, Category::Flagop, IsaSet::I86, 7, 0x1);
            assert(spec_one_byte(0xf5u8) == Entry::Ins(t));
            lemma_witness_covers(spec_ob_witness(0xf5u8), MachineMode::Bits32, t, 0xf5u8, 0x00u8);
        },
        0xf8u8 => {
            let t = tpl0(Mnemonic::Clc, Category::Flagop, IsaSet::I86, 7, 0x1);
            assert(spec_one_byte(0xf8u8) == Entry::Ins(t));
            lemma_witness_covers(spec_ob_witness(0xf8u8), MachineMode::Bits32, t, 0xf8u8, 0x00u8);
        },
        0xf9u8 => {
            let t = tpl0(Mnemonic::Stc, Category::Flagop, IsaSet::I86, 7, 0x1);
            assert(spec_one_byte(0xf9u8) == Entry::Ins(t));
            lemma_witness_covers(spec_ob_witness(0xf9u8), MachineMode::Bits32, t, 0xf9u8, 0x00u8);
        },
        0xfau8 => {
            let t = tpl0(Mnemonic::Cli, Category::Flagop, IsaSet::I86, 7, 0x200);
            assert(spec_one_byte(0xfau8) == Entry::Ins(t));
            lemma_witness_covers(spec_ob_witness(0xfau8), MachineMode::Bits32, t, 0xfau8, 0x00u8);
        },
        0xfbu8 => {
            let t = tpl0(Mnemonic::Sti, Category::Flagop, IsaSet::I86, 7, 0x200);
            assert(spec_one_byte(0xfbu8) == Entry::Ins(t));
            lemma_witness_covers(spec_ob_witness(0xfbu8), MachineMode::Bits32, t, 0xfbu8, 0x00u8);
        },
        0xfcu8 => {
            let t = tpl0(Mnemonic::Cld, Category::Flagop, IsaSet::I86, 7, 0x400);
            assert(spec_one_byte(0xfcu8) == Entry::Ins(t));
            lemma_witness_covers(spec_ob_witness(0xfcu8), MachineMode::Bits32, t, 0xfcu8, 0x00u8);
        },
        0xfdu8 => {
            let t = tpl0(Mnemonic::Std, Category::Flagop, IsaSet::I86, 7, 0x400);
            assert(spec_one_byte(0xfdu8) == Entry::Ins(t));
            lemma_witness_covers(spec_ob_witness(0xfdu8), MachineMode::Bits32, t, 0xfdu8, 0x00u8);
        },
        _ => {},
    }
}

/// Every real slot of the one-byte map is reachable: its constructed
/// witness decodes to exactly the mnemonic, category, ISA set and flag
/// mask the slot records.
pub proof fn lemma_one_byte_map_covered(op: u8)
    ensures
        spec_one_byte(op) matches Entry::Ins(t) ==> spec_covers(
            spec_ob_witness(op),
            spec_ob_mode(op),
            t,
        ),
        spec_one_byte(op) matches Entry::Split(tleg, t64) ==> spec_covers(
            spec_ob_witness(op),
            MachineMode::Bits32,
            tleg,
        ) && spec_covers(spec_ob_witness(op), MachineMode::Bits64, t64),
{
    if op < 0x10 {
        lemma_ob_block_00(op);
    } else if op < 0x20 {
        lemma_ob_block_10(op);
    } else if op < 0x30 {
        lemma_ob_block_20(op);
    } else if op < 0x40 {
        lemma_ob_block_30(op);
    } else if op < 0x50 {
        lemma_ob_block_40(op);
    } else if op < 0x60 {
        lemma_ob_block_50(op);
    } else if op < 0x70 {
        lemma_ob_block_60(op);
    } else if op < 0x80 {
        lemma_ob_block_70(op);
    } else if op < 0x90 {
        lemma_ob_block_80(op);
    } else if op < 0xa0 {
        lemma_ob_block_90(op);
    } else if op < 0xb0 {
        lemma_ob_block_a0(op);
    } else if op < 0xc0 {
        lemma_ob_block_b0(op);
    } else if op < 0xd0 {
        lemma_ob_block_c0(op);
    } else if op < 0xe0 {
        lemma_ob_block_d0(op);
    } else if op < 0xf0 {
        lemma_ob_block_e0(op);
    } else {
        lemma_ob_block_f0(op);
    }
}

/// Witness coverage of group row 0 behind opcode `0x80`.
#[verifier::rlimit(100)]
#[verifier::spinoff_prover]
proof fn lemma_grp_covered_80_r0()
    ensures
        spec_group(GRP_1_EB_IB, 0u8) matches Entry::Ins(t) ==> spec_covers(
            spec_grp_witness(0x80u8, 0u8),
            MachineMode::Bits32,
            t,
        ),
{
    reveal_with_fuel(le_at, 3);
    let t = tpl2(Mnemonic::Add, Category::Arith, IsaSet::I86, 7, 0x8d5, OpDesc::GrmB, OpDesc::ImmB);
    assert(spec_group(GRP_1_EB_IB, 0) == Entry::Ins(t));
    assert(spec_one_byte(0x80u8) == Entry::Grp(GRP_1_EB_IB));
    let s = spec_grp_witness(0x80u8, 0u8);
    assert(s.len() == 3);
    assert(s[1] == 0x00u8);
    assert(spec_read(s, 1, 1) == Ok::<u64, DecodeError>(0));
    assert(spec_modrm_reg(0x00u8) == 0);
    let ctx = spec_ctx_from(MachineMode::Bits32, spec_no_prefixes());
    assert(t.modes == 7);
    assert(spec_mode_bit(MachineMode::Bits32) == 2);
    assert((7u8 / 2u8) % 2 == 1);
    assert(t.category != Category::Ud);
    assert(spec_check(ctx, t, 0x80u8, 1) == Ok::<(Tmpl, u8, int), DecodeError>(
        (t, 0x80u8, 1),
    ));
    assert(spec_resolve(s, ctx, Entry::Grp(GRP_1_EB_IB), 0x80u8, 1) == Ok::<
        (Tmpl, u8, int),
        DecodeError,
    >((t, 0x80u8, 1)));
    lemma_witness_covers(s, MachineMode::Bits32, t, 0x80u8, 0x00u8);
}

/// Witness coverage of group row 1 behind opcode `0x80`.
#[verifier::rlimit(100)]
#[verifier::spinoff_prover]
proof fn lemma_grp_covered_80_r1()
    ensures
        spec_group(GRP_1_EB_IB, 1u8) matches Entry::Ins(t) ==> spec_covers(
            spec_grp_witness(0x80u8, 1u8),
            MachineMode::Bits32,
            t,
        ),
{
    reveal_with_fuel(le_at, 3);
    let t = tpl2(Mnemonic::Or, Category::Logical, IsaSet::I86, 7, 0x8c5, OpDesc::GrmB, OpDesc::ImmB);
    assert(spec_group(GRP_1_EB_IB, 1) == Entry::Ins(t));
    assert(spec_one_byte(0x80u8) == Entry::Grp(GRP_1_EB_IB));
    let s = spec_grp_witness(0x80u8, 1u8);
    assert(s.len() == 3);
    assert(s[1] == 0x08u8);
    assert(spec_read(s, 1, 1) == Ok::<u64, DecodeError>(8));
    assert(spec_modrm_reg(0x08u8) == 1);
    let ctx = spec_ctx_from(MachineMode::Bits32, spec_no_prefixes());
    assert(t.modes == 7);
    assert(spec_mode_bit(MachineMode::Bits32) == 2);
    assert((7u8 / 2u8) % 2 == 1);
    assert(t.category != Category::Ud);
    assert(spec_check(ctx, t, 0x80u8, 1) == Ok::<(Tmpl, u8, int), DecodeError>(
        (t, 0x80u8, 1),
    ));
    assert(spec_resolve(s, ctx, Entry::Grp(GRP_1_EB_IB), 0x80u8, 1) == Ok::<
        (Tmpl, u8, int),
        DecodeError,
    >((t, 0x80u8, 1)));
    lemma_witness_covers(s, MachineMode::Bits32, t, 0x80u8, 0x08u8);
}

/// Witness coverage of group row 2 behind opcode `0x80`.
#[verifier::rlimit(100)]
#[verifier::spinoff_prover]
proof fn lemma_grp_covered_80_r2()
    ensures
        spec_group(GRP_1_EB_IB, 2u8) matches Entry::Ins(t) ==> spec_covers(
            spec_grp_witness(0x80u8, 2u8),
            MachineMode::Bits32,
            t,
        ),
{
    reveal_with_fuel(le_at, 3);
    let t = tpl2(Mnemonic::Adc, Category::Arith, IsaSet::I86, 7, 0x8d5, OpDesc::GrmB, OpDesc::ImmB);
    assert(spec_group(GRP_1_EB_IB, 2) == Entry::Ins(t));
    assert(spec_one_byte(0x80u8) == Entry::Grp(GRP_1_EB_IB));
    let s = spec_grp_witness(0x80u8, 2u8);
    assert(s.len() == 3);
    assert(s[1] == 0x10u8);
    assert(spec_read(s, 1, 1) == Ok::<u64, DecodeError>(16));
    assert(spec_modrm_reg(0x10u8) == 2);
    let ctx = spec_ctx_from(MachineMode::Bits32, spec_no_prefixes());
    assert(t.modes == 7);
    assert(spec_mode_bit(MachineMode::Bits32) == 2);
    assert((7u8 / 2u8) % 2 == 1);
    assert(t.category != Category::Ud);
    assert(spec_check(ctx, t, 0x80u8, 1) == Ok::<(Tmpl, u8, int), DecodeError>(
        (t, 0x80u8, 1),
    ));
    assert(spec_resolve(s, ctx, Entry::Grp(GRP_1_EB_IB), 0x80u8, 1) == Ok::<
        (Tmpl, u8, int),
        DecodeError,
    >((t, 0x80u8, 1)));
    lemma_witness_covers(s, MachineMode::Bits32, t, 0x80u8, 0x10u8);
}

/// Witness coverage of group row 3 behind opcode `0x80`.
#[verifier::rlimit(100)]
#[verifier::spinoff_prover]
proof fn lemma_grp_covered_80_r3()
    ensures
        spec_group(GRP_1_EB_IB, 3u8) matches Entry::Ins(t) ==> spec_covers(
            spec_grp_witness(0x80u8, 3u8),
            MachineMode::Bits32,
            t,
        ),
{
    reveal_with_fuel(le_at, 3);
    let t = tpl2(Mnemonic::Sbb, Category::Arith, IsaSet::I86, 7, 0x8d5, OpDesc::GrmB, OpDesc::ImmB);
    assert(spec_group(GRP_1_EB_IB, 3) == Entry::Ins(t));
    assert(spec_one_byte(0x80u8) == Entry::Grp(GRP_1_EB_IB));
    let s = spec_grp_witness(0x80u8, 3u8);
    assert(s.len() == 3);
    assert(s[1] == 0x18u8);
    assert(spec_read(s, 1, 1) == Ok::<u64, DecodeError>(24));
    assert(spec_modrm_reg(0x18u8) == 3);
    let ctx = spec_ctx_from(MachineMode::Bits32, spec_no_prefixes());
    assert(t.modes == 7);
    assert(spec_mode_bit(MachineMode::Bits32) == 2);
    assert((7u8 / 2u8) % 2 == 1);
    assert(t.category != Category::Ud);
    assert(spec_check(ctx, t, 0x80u8, 1) == Ok::<(Tmpl, u8, int), DecodeError>(
        (t, 0x80u8, 1),
    ));
    assert(spec_resolve(s, ctx, Entry::Grp(GRP_1_EB_IB), 0x80u8, 1) == Ok::<
        (Tmpl, u8, int),
        DecodeError,
    >((t, 0x80u8, 1)));
    lemma_witness_covers(s, MachineMode::Bits32, t, 0x80u8, 0x18u8);
}

/// Witness coverage of group row 4 behind opcode `0x80`.
#[verifier::rlimit(100)]
#[verifier::spinoff_prover]
proof fn lemma_grp_covered_80_r4()
    ensures
        spec_group(GRP_1_EB_IB, 4u8) matches Entry::Ins(t) ==> spec_covers(
            spec_grp_witness(0x80u8, 4u8),
            MachineMode::Bits32,
            t,
        ),
{
    reveal_with_fuel(le_at, 3);
    let t = tpl2(Mnemonic::And, Category::Logical, IsaSet::I86, 7, 0x8c5, OpDesc::GrmB, OpDesc::ImmB);
    assert(spec_group(GRP_1_EB_IB, 4) == Entry::Ins(t));
    assert(spec_one_byte(0x80u8) == Entry::Grp(GRP_1_EB_IB));
    let s = spec_grp_witness(0x80u8, 4u8);
    assert(s.len() == 3);
    assert(s[1] == 0x20u8);
    assert(spec_read(s, 1, 1) == Ok::<u64, DecodeError>(32));
    assert(spec_modrm_reg(0x20u8) == 4);
    let ctx = spec_ctx_from(MachineMode::Bits32, spec_no_prefixes());
    assert(t.modes == 7);
    assert(spec_mode_bit(MachineMode::Bits32) == 2);
    assert((7u8 / 2u8) % 2 == 1);
    assert(t.category != Category::Ud);
    assert(spec_check(ctx, t, 0x80u8, 1) == Ok::<(Tmpl, u8, int), DecodeError>(
        (t, 0x80u8, 1),
    ));
    assert(spec_resolve(s, ctx, Entry::Grp(GRP_1_EB_IB), 0x80u8, 1) == Ok::<
        (Tmpl, u8, int),
        DecodeError,
    >((t, 0x80u8, 1)));
    lemma_witness_covers(s, MachineMode::Bits32, t, 0x80u8, 0x20u8);
}

/// Witness coverage of group row 5 behind opcode `0x80`.
#[verifier::rlimit(100)]
#[verifier::spinoff_prover]
proof fn lemma_grp_covered_80_r5()
    ensures
        spec_group(GRP_1_EB_IB, 5u8) matches Entry::Ins(t) ==> spec_covers(
            spec_grp_witness(0x80u8, 5u8),
            MachineMode::Bits32,
            t,
        ),
{
    reveal_with_fuel(le_at, 3);
    let t = tpl2(Mnemonic::Sub, Category::Arith, IsaSet::I86, 7, 0x8d5, OpDesc::GrmB, OpDesc::ImmB);
    assert(spec_group(GRP_1_EB_IB, 5) == Entry::Ins(t));
    assert(spec_one_byte(0x80u8) == Entry::Grp(GRP_1_EB_IB));
    let s = spec_grp_witness(0x80u8, 5u8);
    assert(s.len() == 3);
    assert(s[1] == 0x28u8);
    assert(spec_read(s, 1, 1) == Ok::<u64, DecodeError>(40));
    assert(spec_modrm_reg(0x28u8) == 5);
    let ctx = spec_ctx_from(MachineMode::Bits32, spec_no_prefixes());
    assert(t.modes == 7);
    assert(spec_mode_bit(MachineMode::Bits32) == 2);
    assert((7u8 / 2u8) % 2 == 1);
    assert(t.category != Category::Ud);
    assert(spec_check(ctx, t, 0x80u8, 1) == Ok::<(Tmpl, u8, int), DecodeError>(
        (t, 0x80u8, 1),
    ));
    assert(spec_resolve(s, ctx, Entry::Grp(GRP_1_EB_IB), 0x80u8, 1) == Ok::<
        (Tmpl, u8, int),
        DecodeError,
    >((t, 0x80u8, 1)));
    lemma_witness_covers(s, MachineMode::Bits32, t, 0x80u8, 0x28u8);
}

/// Witness coverage of group row 6 behind opcode `0x80`.
#[verifier::rlimit(100)]
#[verifier::spinoff_prover]
proof fn lemma_grp_covered_80_r6()
    ensures
        spec_group(GRP_1_EB_IB, 6u8) matches Entry::Ins(t) ==> spec_covers(
            spec_grp_witness(0x80u8, 6u8),
            MachineMode::Bits32,
            t,
        ),
{
    reveal_with_fuel(le_at, 3);
    let t = tpl2(Mnemonic::Xor, Category::Logical, IsaSet::I86, 7, 0x8c5, OpDesc::GrmB, OpDesc::ImmB);
    assert(spec_group(GRP_1_EB_IB, 6) == Entry::Ins(t));
    assert(spec_one_byte(0x80u8) == Entry::Grp(GRP_1_EB_IB));
    let s = spec_grp_witness(0x80u8, 6u8);
    assert(s.len() == 3);
    assert(s[1] == 0x30u8);
    assert(spec_read(s, 1, 1) == Ok::<u64, DecodeError>(48));
    assert(spec_modrm_reg(0x30u8) == 6);
    let ctx = spec_ctx_from(MachineMode::Bits32, spec_no_prefixes());
    assert(t.modes == 7);
    assert(spec_mode_bit(MachineMode::Bits32) == 2);
    assert((7u8 / 2u8) % 2 == 1);
    assert(t.category != Category::Ud);
    assert(spec_check(ctx, t, 0x80u8, 1) == Ok::<(Tmpl, u8, int), DecodeError>(
        (t, 0x80u8, 1),
    ));
    assert(spec_resolve(s, ctx, Entry::Grp(GRP_1_EB_IB), 0x80u8, 1) == Ok::<
        (Tmpl, u8, int),
        DecodeError,
    >((t, 0x80u8, 1)));
    lemma_witness_covers(s, MachineMode::Bits32, t, 0x80u8, 0x30u8);
}

/// Witness coverage of group row 7 behind opcode `0x80`.
#[verifier::rlimit(100)]
#[verifier::spinoff_prover]
proof fn lemma_grp_covered_80_r7()
    ensures
        spec_group(GRP_1_EB_IB, 7u8) matches Entry::Ins(t) ==> spec_covers(
            spec_grp_witness(0x80u8, 7u8),
            MachineMode::Bits32,
            t,
        ),
{
    reveal_with_fuel(le_at, 3);
    let t = tpl2(Mnemonic::Cmp, Category::Arith, IsaSet::I86, 7, 0x8d5, OpDesc::GrmB, OpDesc::ImmB);
    assert(spec_group(GRP_1_EB_IB, 7) == Entry::Ins(t));
    assert(spec_one_byte(0x80u8) == Entry::Grp(GRP_1_EB_IB));
    let s = spec_grp_witness(0x80u8, 7u8);
    assert(s.len() == 3);
    assert(s[1] == 0x38u8);
    assert(spec_read(s, 1, 1) == Ok::<u64, DecodeError>(56));
    assert(spec_modrm_reg(0x38u8) == 7);
    let ctx = spec_ctx_from(MachineMode::Bits32, spec_no_prefixes());
    assert(t.modes == 7);
    assert(spec_mode_bit(MachineMode::Bits32) == 2);
    assert((7u8 / 2u8) % 2 == 1);
    assert(t.category != Category::Ud);
    assert(spec_check(ctx, t, 0x80u8, 1) == Ok::<(Tmpl, u8, int), DecodeError>(
        (t, 0x80u8, 1),
    ));
    assert(spec_resolve(s, ctx, Entry::Grp(GRP_1_EB_IB), 0x80u8, 1) == Ok::<
        (Tmpl, u8, int),
        DecodeError,
    >((t, 0x80u8, 1)));
    lemma_witness_covers(s, MachineMode::Bits32, t, 0x80u8, 0x38u8);
}

/// Witness coverage of the group rows behind opcode `0x80`.
proof fn lemma_grp_covered_80(reg: u8)
    requires
        reg < 8,
    ensures
        spec_group(GRP_1_EB_IB, reg) matches Entry::Ins(t) ==> spec_covers(
            spec_grp_witness(0x80u8, reg),
            MachineMode::Bits32,
            t,
        ),
{
    match reg {
        0u8 => lemma_grp_covered_80_r0(),
        1u8 => lemma_grp_covered_80_r1(),
        2u8 => lemma_grp_covered_80_r2(),
        3u8 => lemma_grp_covered_80_r3(),
        4u8 => lemma_grp_covered_80_r4(),
        5u8 => lemma_grp_covered_80_r5(),
        6u8 => lemma_grp_covered_80_r6(),
        7u8 => lemma_grp_covered_80_r7(),
        _ => {},
    }
}

/// Witness coverage of group row 0 behind opcode `0x81`.
#[verifier::rlimit(100)]
#[verifier::spinoff_prover]
proof fn lemma_grp_covered_81_r0()
    ensures
        spec_group(GRP_1_EV_IZ, 0u8) matches Entry::Ins(t) ==> spec_covers(
            spec_grp_witness(0x81u8, 0u8),
            MachineMode::Bits32,
            t,
        ),
{
    reveal_with_fuel(le_at, 3);
    let t = tpl2(Mnemonic::Add, Category::Arith, IsaSet::I86, 7, 0x8d5, OpDesc::GrmV, OpDesc::ImmZ);
    assert(spec_group(GRP_1_EV_IZ, 0) == Entry::Ins(t));
    assert(spec_one_byte(0x81u8) == Entry::Grp(GRP_1_EV_IZ));
    let s = spec_grp_witness(0x81u8, 0u8);
    assert(s.len() == 6);
    assert(s[1] == 0x00u8);
    assert(spec_read(s, 1, 1) == Ok::<u64, DecodeError>(0));
    assert(spec_modrm_reg(0x00u8) == 0);
    let ctx = spec_ctx_from(MachineMode::Bits32, spec_no_prefixes());
    assert(t.modes == 7);
    assert(spec_mode_bit(MachineMode::Bits32) == 2);
    assert((7u8 / 2u8) % 2 == 1);
    assert(t.category != Category::Ud);
    assert(spec_check(ctx, t, 0x81u8, 1) == Ok::<(Tmpl, u8, int), DecodeError>(
        (t, 0x81u8, 1),
    ));
    assert(spec_resolve(s, ctx, Entry::Grp(GRP_1_EV_IZ), 0x81u8, 1) == Ok::<
        (Tmpl, u8, int),
        DecodeError,
    >((t, 0x81u8, 1)));
    lemma_witness_covers(s, MachineMode::Bits32, t, 0x81u8, 0x00u8);
}

/// Witness coverage of group row 1 behind opcode `0x81`.
#[verifier::rlimit(100)]
#[verifier::spinoff_prover]
proof fn lemma_grp_covered_81_r1()
    ensures
        spec_group(GRP_1_EV_IZ, 1u8) matches Entry::Ins(t) ==> spec_covers(
            spec_grp_witness(0x81u8, 1u8),
            MachineMode::Bits32,
            t,
        ),
{
    reveal_with_fuel(le_at, 3);
    let t = tpl2(Mnemonic::Or, Category::Logical, IsaSet::I86, 7, 0x8c5, OpDesc::GrmV, OpDesc::ImmZ);
    assert(spec_group(GRP_1_EV_IZ, 1) == Entry::Ins(t));
    assert(spec_one_byte(0x81u8) == Entry::Grp(GRP_1_EV_IZ));
    let s = spec_grp_witness(0x81u8, 1u8);
    assert(s.len() == 6);
    assert(s[1] == 0x08u8);
    assert(spec_read(s, 1, 1) == Ok::<u64, DecodeError>(8));
    assert(spec_modrm_reg(0x08u8) == 1);
    let ctx = spec_ctx_from(MachineMode::Bits32, spec_no_prefixes());
    assert(t.modes == 7);
    assert(spec_mode_bit(MachineMode::Bits32) == 2);
    assert((7u8 / 2u8) % 2 == 1);
    assert(t.category != Category::Ud);
    assert(spec_check(ctx, t, 0x81u8, 1) == Ok::<(Tmpl, u8, int), DecodeError>(
        (t, 0x81u8, 1),
    ));
    assert(spec_resolve(s, ctx, Entry::Grp(GRP_1_EV_IZ), 0x81u8, 1) == Ok::<
        (Tmpl, u8, int),
        DecodeError,
    >((t, 0x81u8, 1)));
    lemma_witness_covers(s, MachineMode::Bits32, t, 0x81u8, 0x08u8);
}

/// Witness coverage of group row 2 behind opcode `0x81`.
#[verifier::rlimit(100)]
#[verifier::spinoff_prover]
proof fn lemma_grp_covered_81_r2()
    ensures
        spec_group(GRP_1_EV_IZ, 2u8) matches Entry::Ins(t) ==> spec_covers(
            spec_grp_witness(0x81u8, 2u8),
            MachineMode::Bits32,
            t,
        ),
{
    reveal_with_fuel(le_at, 3);
    let t = tpl2(Mnemonic::Adc, Category::Arith, IsaSet::I86, 7, 0x8d5, OpDesc::GrmV, OpDesc::ImmZ);
    assert(spec_group(GRP_1_EV_IZ, 2) == Entry::Ins(t));
    assert(spec_one_byte(0x81u8) == Entry::Grp(GRP_1_EV_IZ));
    let s = spec_grp_witness(0x81u8, 2u8);
    assert(s.len() == 6);
    assert(s[1] == 0x10u8);
    assert(spec_read(s, 1, 1) == Ok::<u64, DecodeError>(16));
    assert(spec_modrm_reg(0x10u8) == 2);
    let ctx = spec_ctx_from(MachineMode::Bits32, spec_no_prefixes());
    assert(t.modes == 7);
    assert(spec_mode_bit(MachineMode::Bits32) == 2);
    assert((7u8 / 2u8) % 2 == 1);
    assert(t.category != Category::Ud);
    assert(spec_check(ctx, t, 0x81u8, 1) == Ok::<(Tmpl, u8, int), DecodeError>(
        (t, 0x81u8, 1),
    ));
    assert(spec_resolve(s, ctx, Entry::Grp(GRP_1_EV_IZ), 0x81u8, 1) == Ok::<
        (Tmpl, u8, int),
        DecodeError,
    >((t, 0x81u8, 1)));
    lemma_witness_covers(s, MachineMode::Bits32, t, 0x81u8, 0x10u8);
}

/// Witness coverage of group row 3 behind opcode `0x81`.
#[verifier::rlimit(100)]
#[verifier::spinoff_prover]
proof fn lemma_grp_covered_81_r3()
    ensures
        spec_group(GRP_1_EV_IZ, 3u8) matches Entry::Ins(t) ==> spec_covers(
            spec_grp_witness(0x81u8, 3u8),
            MachineMode::Bits32,
            t,
        ),
{
    reveal_with_fuel(le_at, 3);
    let t = tpl2(Mnemonic::Sbb, Category::Arith, IsaSet::I86, 7, 0x8d5, OpDesc::GrmV, OpDesc::ImmZ);
    assert(spec_group(GRP_1_EV_IZ, 3) == Entry::Ins(t));
    assert(spec_one_byte(0x81u8) == Entry::Grp(GRP_1_EV_IZ));
    let s = spec_grp_witness(0x81u8, 3u8);
    assert(s.len() == 6);
    assert(s[1] == 0x18u8);
    assert(spec_read(s, 1, 1) == Ok::<u64, DecodeError>(24));
    assert(spec_modrm_reg(0x18u8) == 3);
    let ctx = spec_ctx_from(MachineMode::Bits32, spec_no_prefixes());
    assert(t.modes == 7);
    assert(spec_mode_bit(MachineMode::Bits32) == 2);
    assert((7u8 / 2u8) % 2 == 1);
    assert(t.category != Category::Ud);
    assert(spec_check(ctx, t, 0x81u8, 1) == Ok::<(Tmpl, u8, int), DecodeError>(
        (t, 0x81u8, 1),
    ));
    assert(spec_resolve(s, ctx, Entry::Grp(GRP_1_EV_IZ), 0x81u8, 1) == Ok::<
        (Tmpl, u8, int),
        DecodeError,
    >((t, 0x81u8, 1)));
    lemma_witness_covers(s, MachineMode::Bits32, t, 0x81u8, 0x18u8);
}

/// Witness coverage of group row 4 behind opcode `0x81`.
#[verifier::rlimit(100)]
#[verifier::spinoff_prover]
proof fn lemma_grp_covered_81_r4()
    ensures
        spec_group(GRP_1_EV_IZ, 4u8) matches Entry::Ins(t) ==> spec_covers(
            spec_grp_witness(0x81u8, 4u8),
            MachineMode::Bits32,
            t,
        ),
{
    reveal_with_fuel(le_at, 3);
    let t = tpl2(Mnemonic::And, Category::Logical, IsaSet::I86, 7, 0x8c5, OpDesc::GrmV, OpDesc::ImmZ);
    assert(spec_group(GRP_1_EV_IZ, 4) == Entry::Ins(t));
    assert(spec_one_byte(0x81u8) == Entry::Grp(GRP_1_EV_IZ));
    let s = spec_grp_witness(0x81u8, 4u8);
    assert(s.len() == 6);
    assert(s[1] == 0x20u8);
    assert(spec_read(s, 1, 1) == Ok::<u64, DecodeError>(32));
    assert(spec_modrm_reg(0x20u8) == 4);
    let ctx = spec_ctx_from(MachineMode::Bits32, spec_no_prefixes());
    assert(t.modes == 7);
    assert(spec_mode_bit(MachineMode::Bits32) == 2);
    assert((7u8 / 2u8) % 2 == 1);
    assert(t.category != Category::Ud);
    assert(spec_check(ctx, t, 0x81u8, 1) == Ok::<(Tmpl, u8, int), DecodeError>(
        (t, 0x81u8, 1),
    ));
    assert(spec_resolve(s, ctx, Entry::Grp(GRP_1_EV_IZ), 0x81u8, 1) == Ok::<
        (Tmpl, u8, int),
        DecodeError,
    >((t, 0x81u8, 1)));
    lemma_witness_covers(s, MachineMode::Bits32, t, 0x81u8, 0x20u8);
}

/// Witness coverage of group row 5 behind opcode `0x81`.
#[verifier::rlimit(100)]
#[verifier::spinoff_prover]
proof fn lemma_grp_covered_81_r5()
    ensures
        spec_group(GRP_1_EV_IZ, 5u8) matches Entry::Ins(t) ==> spec_covers(
            spec_grp_witness(0x81u8, 5u8),
            MachineMode::Bits32,
            t,
        ),
{
    reveal_with_fuel(le_at, 3);
    let t = tpl2(Mnemonic::Sub, Category::Arith, IsaSet::I86, 7, 0x8d5, OpDesc::GrmV, OpDesc::ImmZ);
    assert(spec_group(GRP_1_EV_IZ, 5) == Entry::Ins(t));
    assert(spec_one_byte(0x81u8) == Entry::Grp(GRP_1_EV_IZ));
    let s = spec_grp_witness(0x81u8, 5u8);
    assert(s.len() == 6);
    assert(s[1] == 0x28u8);
    assert(spec_read(s, 1, 1) == Ok::<u64, DecodeError>(40));
    assert(spec_modrm_reg(0x28u8) == 5);
    let ctx = spec_ctx_from(MachineMode::Bits32, spec_no_prefixes());
    assert(t.modes == 7);
    assert(spec_mode_bit(MachineMode::Bits32) == 2);
    assert((7u8 / 2u8) % 2 == 1);
    assert(t.category != Category::Ud);
    assert(spec_check(ctx, t, 0x81u8, 1) == Ok::<(Tmpl, u8, int), DecodeError>(
        (t, 0x81u8, 1),
    ));
    assert(spec_resolve(s, ctx, Entry::Grp(GRP_1_EV_IZ), 0x81u8, 1) == Ok::<
        (Tmpl, u8, int),
        DecodeError,
    >((t, 0x81u8, 1)));
    lemma_witness_covers(s, MachineMode::Bits32, t, 0x81u8, 0x28u8);
}

/// Witness coverage of group row 6 behind opcode `0x81`.
#[verifier::rlimit(100)]
#[verifier::spinoff_prover]
proof fn lemma_grp_covered_81_r6()
    ensures
        spec_group(GRP_1_EV_IZ, 6u8) matches Entry::Ins(t) ==> spec_covers(
            spec_grp_witness(0x81u8, 6u8),
            MachineMode::Bits32,
            t,
        ),
{
    reveal_with_fuel(le_at, 3);
    let t = tpl2(Mnemonic::Xor, Category::Logical, IsaSet::I86, 7, 0x8c5, OpDesc::GrmV, OpDesc::ImmZ);
    assert(spec_group(GRP_1_EV_IZ, 6) == Entry::Ins(t));
    assert(spec_one_byte(0x81u8) == Entry::Grp(GRP_1_EV_IZ));
    let s = spec_grp_witness(0x81u8, 6u8);
    assert(s.len() == 6);
    assert(s[1] == 0x30u8);
    assert(spec_read(s, 1, 1) == Ok::<u64, DecodeError>(48));
    assert(spec_modrm_reg(0x30u8) == 6);
    let ctx = spec_ctx_from(MachineMode::Bits32, spec_no_prefixes());
    assert(t.modes == 7);
    assert(spec_mode_bit(MachineMode::Bits32) == 2);
    assert((7u8 / 2u8) % 2 == 1);
    assert(t.category != Category::Ud);
    assert(spec_check(ctx, t, 0x81u8, 1) == Ok::<(Tmpl, u8, int), DecodeError>(
        (t, 0x81u8, 1),
    ));
    assert(spec_resolve(s, ctx, Entry::Grp(GRP_1_EV_IZ), 0x81u8, 1) == Ok::<
        (Tmpl, u8, int),
        DecodeError,
    >((t, 0x81u8, 1)));
    lemma_witness_covers(s, MachineMode::Bits32, t, 0x81u8, 0x30u8);
}

/// Witness coverage of group row 7 behind opcode `0x81`.
#[verifier::rlimit(100)]
#[verifier::spinoff_prover]
proof fn lemma_grp_covered_81_r7()
    ensures
        spec_group(GRP_1_EV_IZ, 7u8) matches Entry::Ins(t) ==> spec_covers(
            spec_grp_witness(0x81u8, 7u8),
            MachineMode::Bits32,
            t,
        ),
{
    reveal_with_fuel(le_at, 3);
    let t = tpl2(Mnemonic::Cmp, Category::Arith, IsaSet::I86, 7, 0x8d5, OpDesc::GrmV, OpDesc::ImmZ);
    assert(spec_group(GRP_1_EV_IZ, 7) == Entry::Ins(t));
    assert(spec_one_byte(0x81u8) == Entry::Grp(GRP_1_EV_IZ));
    let s = spec_grp_witness(0x81u8, 7u8);
    assert(s.len() == 6);
    assert(s[1] == 0x38u8);
    assert(spec_read(s, 1, 1) == Ok::<u64, DecodeError>(56));
    assert(spec_modrm_reg(0x38u8) == 7);
    let ctx = spec_ctx_from(MachineMode::Bits32, spec_no_prefixes());
    assert(t.modes == 7);
    assert(spec_mode_bit(MachineMode::Bits32) == 2);
    assert((7u8 / 2u8) % 2 == 1);
    assert(t.category != Category::Ud);
    assert(spec_check(ctx, t, 0x81u8, 1) == Ok::<(Tmpl, u8, int), DecodeError>(
        (t, 0x81u8, 1),
    ));
    assert(spec_resolve(s, ctx, Entry::Grp(GRP_1_EV_IZ), 0x81u8, 1) == Ok::<
        (Tmpl, u8, int),
        DecodeError,
    >((t, 0x81u8, 1)));
    lemma_witness_covers(s, MachineMode::Bits32, t, 0x81u8, 0x38u8);
}

/// Witness coverage of the group rows behind opcode `0x81`.
proof fn lemma_grp_covered_81(reg: u8)
    requires
        reg < 8,
    ensures
        spec_group(GRP_1_EV_IZ, reg) matches Entry::Ins(t) ==> spec_covers(
            spec_grp_witness(0x81u8, reg),
            MachineMode::Bits32,
            t,
        ),
{
    match reg {
        0u8 => lemma_grp_covered_81_r0(),
        1u8 => lemma_grp_covered_81_r1(),
        2u8 => lemma_grp_covered_81_r2(),
        3u8 => lemma_grp_covered_81_r3(),
        4u8 => lemma_grp_covered_81_r4(),
        5u8 => lemma_grp_covered_81_r5(),
        6u8 => lemma_grp_covered_81_r6(),
        7u8 => lemma_grp_covered_81_r7(),
        _ => {},
    }
}

/// Witness coverage of group row 0 behind opcode `0x82`.
#[verifier::rlimit(100)]
#[verifier::spinoff_prover]
proof fn lemma_grp_covered_82_r0()
    ensures
        spec_group(GRP_1_EB_IB_LEG, 0u8) matches Entry::Ins(t) ==> spec_covers(
            spec_grp_witness(0x82u8, 0u8),
            MachineMode::Bits32,
            t,
        ),
{
    reveal_with_fuel(le_at, 3);
    let t = tpl2(Mnemonic::Add, Category::Arith, IsaSet::I86, 3, 0x8d5, OpDesc::GrmB, OpDesc::ImmB);
    assert(spec_group(GRP_1_EB_IB_LEG, 0) == Entry::Ins(t));
    assert(spec_one_byte(0x82u8) == Entry::Grp(GRP_1_EB_IB_LEG));
    let s = spec_grp_witness(0x82u8, 0u8);
    assert(s.len() == 3);
    assert(s[1] == 0x00u8);
    assert(spec_read(s, 1, 1) == Ok::<u64, DecodeError>(0));
    assert(spec_modrm_reg(0x00u8) == 0);
    let ctx = spec_ctx_from(MachineMode::Bits32, spec_no_prefixes());
    assert(t.modes == 3);
    assert(spec_mode_bit(MachineMode::Bits32) == 2);
    assert((3u8 / 2u8) % 2 == 1);
    assert(t.category != Category::Ud);
    assert(spec_check(ctx, t, 0x82u8, 1) == Ok::<(Tmpl, u8, int), DecodeError>(
        (t, 0x82u8, 1),
    ));
    assert(spec_resolve(s, ctx, Entry::Grp(GRP_1_EB_IB_LEG), 0x82u8, 1) == Ok::<
        (Tmpl, u8, int),
        DecodeError,
    >((t, 0x82u8, 1)));
    lemma_witness_covers(s, MachineMode::Bits32, t, 0x82u8, 0x00u8);
}

/// Witness coverage of group row 1 behind opcode `0x82`.
#[verifier::rlimit(100)]
#[verifier::spinoff_prover]
proof fn lemma_grp_covered_82_r1()
    ensures
        spec_group(GRP_1_EB_IB_LEG, 1u8) matches Entry::Ins(t) ==> spec_covers(
            spec_grp_witness(0x82u8, 1u8),
            MachineMode::Bits32,
            t,
        ),
{
    reveal_with_fuel(le_at, 3);
    let t = tpl2(Mnemonic::Or, Category::Logical, IsaSet::I86, 3, 0x8c5, OpDesc::GrmB, OpDesc::ImmB);
    assert(spec_group(GRP_1_EB_IB_LEG, 1) == Entry::Ins(t));
    assert(spec_one_byte(0x82u8) == Entry::Grp(GRP_1_EB_IB_LEG));
    let s = spec_grp_witness(0x82u8, 1u8);
    assert(s.len() == 3);
    assert(s[1] == 0x08u8);
    assert(spec_read(s, 1, 1) == Ok::<u64, DecodeError>(8));
    assert(spec_modrm_reg(0x08u8) == 1);
    let ctx = spec_ctx_from(MachineMode::Bits32, spec_no_prefixes());
    assert(t.modes == 3);
    assert(spec_mode_bit(MachineMode::Bits32) == 2);
    assert((3u8 / 2u8) % 2 == 1);
    assert(t.category != Category::Ud);
    assert(spec_check(ctx, t, 0x82u8, 1) == Ok::<(Tmpl, u8, int), DecodeError>(
        (t, 0x82u8, 1),
    ));
    assert(spec_resolve(s, ctx, Entry::Grp(GRP_1_EB_IB_LEG), 0x82u8, 1) == Ok::<
        (Tmpl, u8, int),
        DecodeError,
    >((t, 0x82u8, 1)));
    lemma_witness_covers(s, MachineMode::Bits32, t, 0x82u8, 0x08u8);
}

/// Witness coverage of group row 2 behind opcode `0x82`.
#[verifier::rlimit(100)]
#[verifier::spinoff_prover]
proof fn lemma_grp_covered_82_r2()
    ensures
        spec_group(GRP_1_EB_IB_LEG, 2u8) matches Entry::Ins(t) ==> spec_covers(
            spec_grp_witness(0x82u8, 2u8),
            MachineMode::Bits32,
            t,
        ),
{
    reveal_with_fuel(le_at, 3);
    let t = tpl2(Mnemonic::Adc, Category::Arith, IsaSet::I86, 3, 0x8d5, OpDesc::GrmB, OpDesc::ImmB);
    assert(spec_group(GRP_1_EB_IB_LEG, 2) == Entry::Ins(t));
    assert(spec_one_byte(0x82u8) == Entry::Grp(GRP_1_EB_IB_LEG));
    let s = spec_grp_witness(0x82u8, 2u8);
    assert(s.len() == 3);
    assert(s[1] == 0x10u8);
    assert(spec_read(s, 1, 1) == Ok::<u64, DecodeError>(16));
    assert(spec_modrm_reg(0x10u8) == 2);
    let ctx = spec_ctx_from(MachineMode::Bits32, spec_no_prefixes());
    assert(t.modes == 3);
    assert(spec_mode_bit(MachineMode::Bits32) == 2);
    assert((3u8 / 2u8) % 2 == 1);
    assert(t.category != Category::Ud);
    assert(spec_check(ctx, t, 0x82u8, 1) == Ok::<(Tmpl, u8, int), DecodeError>(
        (t, 0x82u8, 1),
    ));
    assert(spec_resolve(s, ctx, Entry::Grp(GRP_1_EB_IB_LEG), 0x82u8, 1) == Ok::<
        (Tmpl, u8, int),
        DecodeError,
    >((t, 0x82u8, 1)));
    lemma_witness_covers(s, MachineMode::Bits32, t, 0x82u8, 0x10u8);
}

/// Witness coverage of group row 3 behind opcode `0x82`.
#[verifier::rlimit(100)]
#[verifier::spinoff_prover]
proof fn lemma_grp_covered_82_r3()
    ensures
        spec_group(GRP_1_EB_IB_LEG, 3u8) matches Entry::Ins(t) ==> spec_covers(
            spec_grp_witness(0x82u8, 3u8),
            MachineMode::Bits32,
            t,
        ),
{
    reveal_with_fuel(le_at, 3);
    let t = tpl2(Mnemonic::Sbb, Category::Arith, IsaSet::I86, 3, 0x8d5, OpDesc::GrmB, OpDesc::ImmB);
    assert(spec_group(GRP_1_EB_IB_LEG, 3) == Entry::Ins(t));
    assert(spec_one_byte(0x82u8) == Entry::Grp(GRP_1_EB_IB_LEG));
    let s = spec_grp_witness(0x82u8, 3u8);
    assert(s.len() == 3);
    assert(s[1] == 0x18u8);
    assert(spec_read(s, 1, 1) == Ok::<u64, DecodeError>(24));
    assert(spec_modrm_reg(0x18u8) == 3);
    let ctx = spec_ctx_from(MachineMode::Bits32, spec_no_prefixes());
    assert(t.modes == 3);
    assert(spec_mode_bit(MachineMode::Bits32) == 2);
    assert((3u8 / 2u8) % 2 == 1);
    assert(t.category != Category::Ud);
    assert(spec_check(ctx, t, 0x82u8, 1) == Ok::<(Tmpl, u8, int), DecodeError>(
        (t, 0x82u8, 1),
    ));
    assert(spec_resolve(s, ctx, Entry::Grp(GRP_1_EB_IB_LEG), 0x82u8, 1) == Ok::<
        (Tmpl, u8, int),
        DecodeError,
    >((t, 0x82u8, 1)));
    lemma_witness_covers(s, MachineMode::Bits32, t, 0x82u8, 0x18u8);
}

/// Witness coverage of group row 4 behind opcode `0x82`.
#[verifier::rlimit(100)]
#[verifier::spinoff_prover]
proof fn lemma_grp_covered_82_r4()
    ensures
        spec_group(GRP_1_EB_IB_LEG, 4u8) matches Entry::Ins(t) ==> spec_covers(
            spec_grp_witness(0x82u8, 4u8),
            MachineMode::Bits32,
            t,
        ),
{
    reveal_with_fuel(le_at, 3);
    let t = tpl2(Mnemonic::And, Category::Logical, IsaSet::I86, 3, 0x8c5, OpDesc::GrmB, OpDesc::ImmB);
    assert(spec_group(GRP_1_EB_IB_LEG, 4) == Entry::Ins(t));
    assert(spec_one_byte(0x82u8) == Entry::Grp(GRP_1_EB_IB_LEG));
    let s = spec_grp_witness(0x82u8, 4u8);
    assert(s.len() == 3);
    assert(s[1] == 0x20u8);
    assert(spec_read(s, 1, 1) == Ok::<u64, DecodeError>(32));
    assert(spec_modrm_reg(0x20u8) == 4);
    let ctx = spec_ctx_from(MachineMode::Bits32, spec_no_prefixes());
    assert(t.modes == 3);
    assert(spec_mode_bit(MachineMode::Bits32) == 2);
    assert((3u8 / 2u8) % 2 == 1);
    assert(t.category != Category::Ud);
    assert(spec_check(ctx, t, 0x82u8, 1) == Ok::<(Tmpl, u8, int), DecodeError>(
        (t, 0x82u8, 1),
    ));
    assert(spec_resolve(s, ctx, Entry::Grp(GRP_1_EB_IB_LEG), 0x82u8, 1) == Ok::<
        (Tmpl, u8, int),
        DecodeError,
    >((t, 0x82u8, 1)));
    lemma_witness_covers(s, MachineMode::Bits32, t, 0x82u8, 0x20u8);
}

/// Witness coverage of group row 5 behind opcode `0x82`.
#[verifier::rlimit(100)]
#[verifier::spinoff_prover]
proof fn lemma_grp_covered_82_r5()
    ensures
        spec_group(GRP_1_EB_IB_LEG, 5u8) matches Entry::Ins(t) ==> spec_covers(
            spec_grp_witness(0x82u8, 5u8),
            MachineMode::Bits32,
            t,
        ),
{
    reveal_with_fuel(le_at, 3);
    let t = tpl2(Mnemonic::Sub, Category::Arith, IsaSet::I86, 3, 0x8d5, OpDesc::GrmB, OpDesc::ImmB);
    assert(spec_group(GRP_1_EB_IB_LEG, 5) == Entry::Ins(t));
    assert(spec_one_byte(0x82u8) == Entry::Grp(GRP_1_EB_IB_LEG));
    let s = spec_grp_witness(0x82u8, 5u8);
    assert(s.len() == 3);
    assert(s[1] == 0x28u8);
    assert(spec_read(s, 1, 1) == Ok::<u64, DecodeError>(40));
    assert(spec_modrm_reg(0x28u8) == 5);
    let ctx = spec_ctx_from(MachineMode::Bits32, spec_no_prefixes());
    assert(t.modes == 3);
    assert(spec_mode_bit(MachineMode::Bits32) == 2);
    assert((3u8 / 2u8) % 2 == 1);
    assert(t.category != Category::Ud);
    assert(spec_check(ctx, t, 0x82u8, 1) == Ok::<(Tmpl, u8, int), DecodeError>(
        (t, 0x82u8, 1),
    ));
    assert(spec_resolve(s, ctx, Entry::Grp(GRP_1_EB_IB_LEG), 0x82u8, 1) == Ok::<
        (Tmpl, u8, int),
        DecodeError,
    >((t, 0x82u8, 1)));
    lemma_witness_covers(s, MachineMode::Bits32, t, 0x82u8, 0x28u8);
}

/// Witness coverage of group row 6 behind opcode `0x82`.
#[verifier::rlimit(100)]
#[verifier::spinoff_prover]
proof fn lemma_grp_covered_82_r6()
    ensures
        spec_group(GRP_1_EB_IB_LEG, 6u8) matches Entry::Ins(t) ==> spec_covers(
            spec_grp_witness(0x82u8, 6u8),
            MachineMode::Bits32,
            t,
        ),
{
    reveal_with_fuel(le_at, 3);
    let t = tpl2(Mnemonic::Xor, Category::Logical, IsaSet::I86, 3, 0x8c5, OpDesc::GrmB, OpDesc::ImmB);
    assert(spec_group(GRP_1_EB_IB_LEG, 6) == Entry::Ins(t));
    assert(spec_one_byte(0x82u8) == Entry::Grp(GRP_1_EB_IB_LEG));
    let s = spec_grp_witness(0x82u8, 6u8);
    assert(s.len() == 3);
    assert(s[1] == 0x30u8);
    assert(spec_read(s, 1, 1) == Ok::<u64, DecodeError>(48));
    assert(spec_modrm_reg(0x30u8) == 6);
    let ctx = spec_ctx_from(MachineMode::Bits32, spec_no_prefixes());
    assert(t.modes == 3);
    assert(spec_mode_bit(MachineMode::Bits32) == 2);
    assert((3u8 / 2u8) % 2 == 1);
    assert(t.category != Category::Ud);
    assert(spec_check(ctx, t, 0x82u8, 1) == Ok::<(Tmpl, u8, int), DecodeError>(
        (t, 0x82u8, 1),
    ));
    assert(spec_resolve(s, ctx, Entry::Grp(GRP_1_EB_IB_LEG), 0x82u8, 1) == Ok::<
        (Tmpl, u8, int),
        DecodeError,
    >((t, 0x82u8, 1)));
    lemma_witness_covers(s, MachineMode::Bits32, t, 0x82u8, 0x30u8);
}

/// Witness coverage of group row 7 behind opcode `0x82`.
#[verifier::rlimit(100)]
#[verifier::spinoff_prover]
proof fn lemma_grp_covered_82_r7()
    ensures
        spec_group(GRP_1_EB_IB_LEG, 7u8) matches Entry::Ins(t) ==> spec_covers(
            spec_grp_witness(0x82u8, 7u8),
            MachineMode::Bits32,
            t,
        ),
{
    reveal_with_fuel(le_at, 3);
    let t = tpl2(Mnemonic::Cmp, Category::Arith, IsaSet::I86, 3, 0x8d5, OpDesc::GrmB, OpDesc::ImmB);
    assert(spec_group(GRP_1_EB_IB_LEG, 7) == Entry::Ins(t));
    assert(spec_one_byte(0x82u8) == Entry::Grp(GRP_1_EB_IB_LEG));
    let s = spec_grp_witness(0x82u8, 7u8);
    assert(s.len() == 3);
    assert(s[1] == 0x38u8);
    assert(spec_read(s, 1, 1) == Ok::<u64, DecodeError>(56));
    assert(spec_modrm_reg(0x38u8) == 7);
    let ctx = spec_ctx_from(MachineMode::Bits32, spec_no_prefixes());
    assert(t.modes == 3);
    assert(spec_mode_bit(MachineMode::Bits32) == 2);
    assert((3u8 / 2u8) % 2 == 1);
    assert(t.category != Category::Ud);
    assert(spec_check(ctx, t, 0x82u8, 1) == Ok::<(Tmpl, u8, int), DecodeError>(
        (t, 0x82u8, 1),
    ));
    assert(spec_resolve(s, ctx, Entry::Grp(GRP_1_EB_IB_LEG), 0x82u8, 1) == Ok::<
        (Tmpl, u8, int),
        DecodeError,
    >((t, 0x82u8, 1)));
    lemma_witness_covers(s, MachineMode::Bits32, t, 0x82u8, 0x38u8);
}

/// Witness coverage of the group rows behind opcode `0x82`.
proof fn lemma_grp_covered_82(reg: u8)
    requires
        reg < 8,
    ensures
        spec_group(GRP_1_EB_IB_LEG, reg) matches Entry::Ins(t) ==> spec_covers(
            spec_grp_witness(0x82u8, reg),
            MachineMode::Bits32,
            t,
        ),
{
    match reg {
        0u8 => lemma_grp_covered_82_r0(),
        1u8 => lemma_grp_covered_82_r1(),
        2u8 => lemma_grp_covered_82_r2(),
        3u8 => lemma_grp_covered_82_r3(),
        4u8 => lemma_grp_covered_82_r4(),
        5u8 => lemma_grp_covered_82_r5(),
        6u8 => lemma_grp_covered_82_r6(),
        7u8 => lemma_grp_covered_82_r7(),
        _ => {},
    }
}

/// Witness coverage of group row 0 behind opcode `0x83`.
#[verifier::rlimit(100)]
#[verifier::spinoff_prover]
proof fn lemma_grp_covered_83_r0()
    ensures
        spec_group(GRP_1_EV_IBS, 0u8) matches Entry::Ins(t) ==> spec_covers(
            spec_grp_witness(0x83u8, 0u8),
            MachineMode::Bits32,
            t,
        ),
{
    reveal_with_fuel(le_at, 3);
    let t = tpl2(Mnemonic::Add, Category::Arith, IsaSet::I86, 7, 0x8d5, OpDesc::GrmV, OpDesc::ImmBs);
    assert(spec_group(GRP_1_EV_IBS, 0) == Entry::Ins(t));
    assert(spec_one_byte(0x83u8) == Entry::Grp(GRP_1_EV_IBS));
    let s = spec_grp_witness(0x83u8, 0u8);
    assert(s.len() == 3);
    assert(s[1] == 0x00u8);
    assert(spec_read(s, 1, 1) == Ok::<u64, DecodeError>(0));
    assert(spec_modrm_reg(0x00u8) == 0);
    let ctx = spec_ctx_from(MachineMode::Bits32, spec_no_prefixes());
    assert(t.modes == 7);
    assert(spec_mode_bit(MachineMode::Bits32) == 2);
    assert((7u8 / 2u8) % 2 == 1);
    assert(t.category != Category::Ud);
    assert(spec_check(ctx, t, 0x83u8, 1) == Ok::<(Tmpl, u8, int), DecodeError>(
        (t, 0x83u8, 1),
    ));
    assert(spec_resolve(s, ctx, Entry::Grp(GRP_1_EV_IBS), 0x83u8, 1) == Ok::<
        (Tmpl, u8, int),
        DecodeError,
    >((t, 0x83u8, 1)));
    lemma_witness_covers(s, MachineMode::Bits32, t, 0x83u8, 0x00u8);
}

/// Witness coverage of group row 1 behind opcode `0x83`.
#[verifier::rlimit(100)]
#[verifier::spinoff_prover]
proof fn lemma_grp_covered_83_r1()
    ensures
        spec_group(GRP_1_EV_IBS, 1u8) matches Entry::Ins(t) ==> spec_covers(
            spec_grp_witness(0x83u8, 1u8),
            MachineMode::Bits32,
            t,
        ),
{
    reveal_with_fuel(le_at, 3);
    let t = tpl2(Mnemonic::Or, Category::Logical, IsaSet::I86, 7, 0x8c5, OpDesc::GrmV, OpDesc::ImmBs);
    assert(spec_group(GRP_1_EV_IBS, 1) == Entry::Ins(t));
    assert(spec_one_byte(0x83u8) == Entry::Grp(GRP_1_EV_IBS));
    let s = spec_grp_witness(0x83u8, 1u8);
    assert(s.len() == 3);
    assert(s[1] == 0x08u8);
    assert(spec_read(s, 1, 1) == Ok::<u64, DecodeError>(8));
    assert(spec_modrm_reg(0x08u8) == 1);
    let ctx = spec_ctx_from(MachineMode::Bits32, spec_no_prefixes());
    assert(t.modes == 7);
    assert(spec_mode_bit(MachineMode::Bits32) == 2);
    assert((7u8 / 2u8) % 2 == 1);
    assert(t.category != Category::Ud);
    assert(spec_check(ctx, t, 0x83u8, 1) == Ok::<(Tmpl, u8, int), DecodeError>(
        (t, 0x83u8, 1),
    ));
    assert(spec_resolve(s, ctx, Entry::Grp(GRP_1_EV_IBS), 0x83u8, 1) == Ok::<
        (Tmpl, u8, int),
        DecodeError,
    >((t, 0x83u8, 1)));
    lemma_witness_covers(s, MachineMode::Bits32, t, 0x83u8, 0x08u8);
}

/// Witness coverage of group row 2 behind opcode `0x83`.
#[verifier::rlimit(100)]
#[verifier::spinoff_prover]
proof fn lemma_grp_covered_83_r2()
    ensures
        spec_group(GRP_1_EV_IBS, 2u8) matches Entry::Ins(t) ==> spec_covers(
            spec_grp_witness(0x83u8, 2u8),
            MachineMode::Bits32,
            t,
        ),
{
    reveal_with_fuel(le_at, 3);
    let t = tpl2(Mnemonic::Adc, Category::Arith, IsaSet::I86, 7, 0x8d5, OpDesc::GrmV, OpDesc::ImmBs);
    assert(spec_group(GRP_1_EV_IBS, 2) == Entry::Ins(t));
    assert(spec_one_byte(0x83u8) == Entry::Grp(GRP_1_EV_IBS));
    let s = spec_grp_witness(0x83u8, 2u8);
    assert(s.len() == 3);
    assert(s[1] == 0x10u8);
    assert(spec_read(s, 1, 1) == Ok::<u64, DecodeError>(16));
    assert(spec_modrm_reg(0x10u8) == 2);
    let ctx = spec_ctx_from(MachineMode::Bits32, spec_no_prefixes());
    assert(t.modes == 7);
    assert(spec_mode_bit(MachineMode::Bits32) == 2);
    assert((7u8 / 2u8) % 2 == 1);
    assert(t.category != Category::Ud);
    assert(spec_check(ctx, t, 0x83u8, 1) == Ok::<(Tmpl, u8, int), DecodeError>(
        (t, 0x83u8, 1),
    ));
    assert(spec_resolve(s, ctx, Entry::Grp(GRP_1_EV_IBS), 0x83u8, 1) == Ok::<
        (Tmpl, u8, int),
        DecodeError,
    >((t, 0x83u8, 1)));
    lemma_witness_covers(s, MachineMode::Bits32, t, 0x83u8, 0x10u8);
}

/// Witness coverage of group row 3 behind opcode `0x83`.
#[verifier::rlimit(100)]
#[verifier::spinoff_prover]
proof fn lemma_grp_covered_83_r3()
    ensures
        spec_group(GRP_1_EV_IBS, 3u8) matches Entry::Ins(t) ==> spec_covers(
            spec_grp_witness(0x83u8, 3u8),
            MachineMode::Bits32,
            t,
        ),
{
    reveal_with_fuel(le_at, 3);
    let t = tpl2(Mnemonic::Sbb, Category::Arith, IsaSet::I86, 7, 0x8d5, OpDesc::GrmV, OpDesc::ImmBs);
    assert(spec_group(GRP_1_EV_IBS, 3) == Entry::Ins(t));
    assert(spec_one_byte(0x83u8) == Entry::Grp(GRP_1_EV_IBS));
    let s = spec_grp_witness(0x83u8, 3u8);
    assert(s.len() == 3);
    assert(s[1] == 0x18u8);
    assert(spec_read(s, 1, 1) == Ok::<u64, DecodeError>(24));
    assert(spec_modrm_reg(0x18u8) == 3);
    let ctx = spec_ctx_from(MachineMode::Bits32, spec_no_prefixes());
    assert(t.modes == 7);
    assert(spec_mode_bit(MachineMode::Bits32) == 2);
    assert((7u8 / 2u8) % 2 == 1);
    assert(t.category != Category::Ud);
    assert(spec_check(ctx, t, 0x83u8, 1) == Ok::<(Tmpl, u8, int), DecodeError>(
        (t, 0x83u8, 1),
    ));
    assert(spec_resolve(s, ctx, Entry::Grp(GRP_1_EV_IBS), 0x83u8, 1) == Ok::<
        (Tmpl, u8, int),
        DecodeError,
    >((t, 0x83u8, 1)));
    lemma_witness_covers(s, MachineMode::Bits32, t, 0x83u8, 0x18u8);
}

/// Witness coverage of group row 4 behind opcode `0x83`.
#[verifier::rlimit(100)]
#[verifier::spinoff_prover]
proof fn lemma_grp_covered_83_r4()
    ensures
        spec_group(GRP_1_EV_IBS, 4u8) matches Entry::Ins(t) ==> spec_covers(
            spec_grp_witness(0x83u8, 4u8),
            MachineMode::Bits32,
            t,
        ),
{
    reveal_with_fuel(le_at, 3);
    let t = tpl2(Mnemonic::And, Category::Logical, IsaSet::I86, 7, 0x8c5, OpDesc::GrmV, OpDesc::ImmBs);
    assert(spec_group(GRP_1_EV_IBS, 4) == Entry::Ins(t));
    assert(spec_one_byte(0x83u8) == Entry::Grp(GRP_1_EV_IBS));
    let s = spec_grp_witness(0x83u8, 4u8);
    assert(s.len() == 3);
    assert(s[1] == 0x20u8);
    assert(spec_read(s, 1, 1) == Ok::<u64, DecodeError>(32));
    assert(spec_modrm_reg(0x20u8) == 4);
    let ctx = spec_ctx_from(MachineMode::Bits32, spec_no_prefixes());
    assert(t.modes == 7);
    assert(spec_mode_bit(MachineMode::Bits32) == 2);
    assert((7u8 / 2u8) % 2 == 1);
    assert(t.category != Category::Ud);
    assert(spec_check(ctx, t, 0x83u8, 1) == Ok::<(Tmpl, u8, int), DecodeError>(
        (t, 0x83u8, 1),
    ));
    assert(spec_resolve(s, ctx, Entry::Grp(GRP_1_EV_IBS), 0x83u8, 1) == Ok::<
        (Tmpl, u8, int),
        DecodeError,
    >((t, 0x83u8, 1)));
    lemma_witness_covers(s, MachineMode::Bits32, t, 0x83u8, 0x20u8);
}

/// Witness coverage of group row 5 behind opcode `0x83`.
#[verifier::rlimit(100)]
#[verifier::spinoff_prover]
proof fn lemma_grp_covered_83_r5()
    ensures
        spec_group(GRP_1_EV_IBS, 5u8) matches Entry::Ins(t) ==> spec_covers(
            spec_grp_witness(0x83u8, 5u8),
            MachineMode::Bits32,
            t,
        ),
{
    reveal_with_fuel(le_at, 3);
    let t = tpl2(Mnemonic::Sub, Category::Arith, IsaSet::I86, 7, 0x8d5, OpDesc::GrmV, OpDesc::ImmBs);
    assert(spec_group(GRP_1_EV_IBS, 5) == Entry::Ins(t));
    assert(spec_one_byte(0x83u8) == Entry::Grp(GRP_1_EV_IBS));
    let s = spec_grp_witness(0x83u8, 5u8);
    assert(s.len() == 3);
    assert(s[1] == 0x28u8);
    assert(spec_read(s, 1, 1) == Ok::<u64, DecodeError>(40));
    assert(spec_modrm_reg(0x28u8) == 5);
    let ctx = spec_ctx_from(MachineMode::Bits32, spec_no_prefixes());
    assert(t.modes == 7);
    assert(spec_mode_bit(MachineMode::Bits32) == 2);
    assert((7u8 / 2u8) % 2 == 1);
    assert(t.category != Category::Ud);
    assert(spec_check(ctx, t, 0x83u8, 1) == Ok::<(Tmpl, u8, int), DecodeError>(
        (t, 0x83u8, 1),
    ));
    assert(spec_resolve(s, ctx, Entry::Grp(GRP_1_EV_IBS), 0x83u8, 1) == Ok::<
        (Tmpl, u8, int),
        DecodeError,
    >((t, 0x83u8, 1)));
    lemma_witness_covers(s, MachineMode::Bits32, t, 0x83u8, 0x28u8);
}

/// Witness coverage of group row 6 behind opcode `0x83`.
#[verifier::rlimit(100)]
#[verifier::spinoff_prover]
proof fn lemma_grp_covered_83_r6()
    ensures
        spec_group(GRP_1_EV_IBS, 6u8) matches Entry::Ins(t) ==> spec_covers(
            spec_grp_witness(0x83u8, 6u8),
            MachineMode::Bits32,
            t,
        ),
{
    reveal_with_fuel(le_at, 3);
    let t = tpl2(Mnemonic::Xor, Category::Logical, IsaSet::I86, 7, 0x8c5, OpDesc::GrmV, OpDesc::ImmBs);
    assert(spec_group(GRP_1_EV_IBS, 6) == Entry::Ins(t));
    assert(spec_one_byte(0x83u8) == Entry::Grp(GRP_1_EV_IBS));
    let s = spec_grp_witness(0x83u8, 6u8);
    assert(s.len() == 3);
    assert(s[1] == 0x30u8);
    assert(spec_read(s, 1, 1) == Ok::<u64, DecodeError>(48));
    assert(spec_modrm_reg(0x30u8) == 6);
    let ctx = spec_ctx_from(MachineMode::Bits32, spec_no_prefixes());
    assert(t.modes == 7);
    assert(spec_mode_bit(MachineMode::Bits32) == 2);
    assert((7u8 / 2u8) % 2 == 1);
    assert(t.category != Category::Ud);
    assert(spec_check(ctx, t, 0x83u8, 1) == Ok::<(Tmpl, u8, int), DecodeError>(
        (t, 0x83u8, 1),
    ));
    assert(spec_resolve(s, ctx, Entry::Grp(GRP_1_EV_IBS), 0x83u8, 1) == Ok::<
        (Tmpl, u8, int),
        DecodeError,
    >((t, 0x83u8, 1)));
    lemma_witness_covers(s, MachineMode::Bits32, t, 0x83u8, 0x30u8);
}

/// Witness coverage of group row 7 behind opcode `0x83`.
#[verifier::rlimit(100)]
#[verifier::spinoff_prover]
proof fn lemma_grp_covered_83_r7()
    ensures
        spec_group(GRP_1_EV_IBS, 7u8) matches Entry::Ins(t) ==> spec_covers(
            spec_grp_witness(0x83u8, 7u8),
            MachineMode::Bits32,
            t,
        ),
{
    reveal_with_fuel(le_at, 3);
    let t = tpl2(Mnemonic::Cmp, Category::Arith, IsaSet::I86, 7, 0x8d5, OpDesc::GrmV, OpDesc::ImmBs);
    assert(spec_group(GRP_1_EV_IBS, 7) == Entry::Ins(t));
    assert(spec_one_byte(0x83u8) == Entry::Grp(GRP_1_EV_IBS));
    let s = spec_grp_witness(0x83u8, 7u8);
    assert(s.len() == 3);
    assert(s[1] == 0x38u8);
    assert(spec_read(s, 1, 1) == Ok::<u64, DecodeError>(56));
    assert(spec_modrm_reg(0x38u8) == 7);
    let ctx = spec_ctx_from(MachineMode::Bits32, spec_no_prefixes());
    assert(t.modes == 7);
    assert(spec_mode_bit(MachineMode::Bits32) == 2);
    assert((7u8 / 2u8) % 2 == 1);
    assert(t.category != Category::Ud);
    assert(spec_check(ctx, t, 0x83u8, 1) == Ok::<(Tmpl, u8, int), DecodeError>(
        (t, 0x83u8, 1),
    ));
    assert(spec_resolve(s, ctx, Entry::Grp(GRP_1_EV_IBS), 0x83u8, 1) == Ok::<
        (Tmpl, u8, int),
        DecodeError,
    >((t, 0x83u8, 1)));
    lemma_witness_covers(s, MachineMode::Bits32, t, 0x83u8, 0x38u8);
}

/// Witness coverage of the group rows behind opcode `0x83`.
proof fn lemma_grp_covered_83(reg: u8)
    requires
        reg < 8,
    ensures
        spec_group(GRP_1_EV_IBS, reg) matches Entry::Ins(t) ==> spec_covers(
            spec_grp_witness(0x83u8, reg),
            MachineMode::Bits32,
            t,
        ),
{
    match reg {
        0u8 => lemma_grp_covered_83_r0(),
        1u8 => lemma_grp_covered_83_r1(),
        2u8 => lemma_grp_covered_83_r2(),
        3u8 => lemma_grp_covered_83_r3(),
        4u8 => lemma_grp_covered_83_r4(),
        5u8 => lemma_grp_covered_83_r5(),
        6u8 => lemma_grp_covered_83_r6(),
        7u8 => lemma_grp_covered_83_r7(),
        _ => {},
    }
}

/// Witness coverage of group row 0 behind opcode `0x8f`.
#[verifier::rlimit(100)]
#[verifier::spinoff_prover]
proof fn lemma_grp_covered_8f_r0()
    ensures
        spec_group(GRP_1A_POP, 0u8) matches Entry::Ins(t) ==> spec_covers(
            spec_grp_witness(0x8fu8, 0u8),
            MachineMode::Bits32,
            t,
        ),
{
    reveal_with_fuel(le_at, 3);
    let t = tpl1(Mnemonic::Pop, Category::Pop, IsaSet::I86, 7, 0x0, OpDesc::GrmV64);
    assert(spec_group(GRP_1A_POP, 0) == Entry::Ins(t));
    assert(spec_one_byte(0x8fu8) == Entry::Grp(GRP_1A_POP));
    let s = spec_grp_witness(0x8fu8, 0u8);
    assert(s.len() == 2);
    assert(s[1] == 0x00u8);
    assert(spec_read(s, 1, 1) == Ok::<u64, DecodeError>(0));
    assert(spec_modrm_reg(0x00u8) == 0);
    let ctx = spec_ctx_from(MachineMode::Bits32, spec_no_prefixes());
    assert(t.modes == 7);
    assert(spec_mode_bit(MachineMode::Bits32) == 2);
    assert((7u8 / 2u8) % 2 == 1);
    assert(t.category != Category::Ud);
    assert(spec_check(ctx, t, 0x8fu8, 1) == Ok::<(Tmpl, u8, int), DecodeError>(
        (t, 0x8fu8, 1),
    ));
    assert(spec_resolve(s, ctx, Entry::Grp(GRP_1A_POP), 0x8fu8, 1) == Ok::<
        (Tmpl, u8, int),
        DecodeError,
    >((t, 0x8fu8, 1)));
    lemma_witness_covers(s, MachineMode::Bits32, t, 0x8fu8, 0x00u8);
}

/// Witness coverage of the group rows behind opcode `0x8f`.
proof fn lemma_grp_covered_8f(reg: u8)
    requires
        reg < 8,
    ensures
        spec_group(GRP_1A_POP, reg) matches Entry::Ins(t) ==> spec_covers(
            spec_grp_witness(0x8fu8, reg),
            MachineMode::Bits32,
            t,
        ),
{
    match reg {
        0u8 => lemma_grp_covered_8f_r0(),
        _ => {},
    }
}

/// Witness coverage of group row 0 behind opcode `0xc0`.
#[verifier::rlimit(100)]
#[verifier::spinoff_prover]
proof fn lemma_grp_covered_c0_r0()
    ensures
        spec_group(GRP_2_EB_IB, 0u8) matches Entry::Ins(t) ==> spec_covers(
            spec_grp_witness(0xc0u8, 0u8),
            MachineMode::Bits32,
            t,
        ),
{
    reveal_with_fuel(le_at, 3);
    let t = tpl2(Mnemonic::Rol, Category::Rotate, IsaSet::I186, 7, 0x801, OpDesc::GrmB, OpDesc::ImmB);
    assert(spec_group(GRP_2_EB_IB, 0) == Entry::Ins(t));
    assert(spec_one_byte(0xc0u8) == Entry::Grp(GRP_2_EB_IB));
    let s = spec_grp_witness(0xc0u8, 0u8);
    assert(s.len() == 3);
    assert(s[1] == 0x00u8);
    assert(spec_read(s, 1, 1) == Ok::<u64, DecodeError>(0));
    assert(spec_modrm_reg(0x00u8) == 0);
    let ctx = spec_ctx_from(MachineMode::Bits32, spec_no_prefixes());
    assert(t.modes == 7);
    assert(spec_mode_bit(MachineMode::Bits32) == 2);
    assert((7u8 / 2u8) % 2 == 1);
    assert(t.category != Category::Ud);
    assert(spec_check(ctx, t, 0xc0u8, 1) == Ok::<(Tmpl, u8, int), DecodeError>(
        (t, 0xc0u8, 1),
    ));
    assert(spec_resolve(s, ctx, Entry::Grp(GRP_2_EB_IB), 0xc0u8, 1) == Ok::<
        (Tmpl, u8, int),
        DecodeError,
    >((t, 0xc0u8, 1)));
    lemma_witness_covers(s, MachineMode::Bits32, t, 0xc0u8, 0x00u8);
}

/// Witness coverage of group row 1 behind opcode `0xc0`.
#[verifier::rlimit(100)]
#[verifier::spinoff_prover]
proof fn lemma_grp_covered_c0_r1()
    ensures
        spec_group(GRP_2_EB_IB, 1u8) matches Entry::Ins(t) ==> spec_covers(
            spec_grp_witness(0xc0u8, 1u8),
            MachineMode::Bits32,
            t,
        ),
{
    reveal_with_fuel(le_at, 3);
    let t = tpl2(Mnemonic::Ror, Category::Rotate, IsaSet::I186, 7, 0x801, OpDesc::GrmB, OpDesc::ImmB);
    assert(spec_group(GRP_2_EB_IB, 1) == Entry::Ins(t));
    assert(spec_one_byte(0xc0u8) == Entry::Grp(GRP_2_EB_IB));
    let s = spec_grp_witness(0xc0u8, 1u8);
    assert(s.len() == 3);
    assert(s[1] == 0x08u8);
    assert(spec_read(s, 1, 1) == Ok::<u64, DecodeError>(8));
    assert(spec_modrm_reg(0x08u8) == 1);
    let ctx = spec_ctx_from(MachineMode::Bits32, spec_no_prefixes());
    assert(t.modes == 7);
    assert(spec_mode_bit(MachineMode::Bits32) == 2);
    assert((7u8 / 2u8) % 2 == 1);
    assert(t.category != Category::Ud);
    assert(spec_check(ctx, t, 0xc0u8, 1) == Ok::<(Tmpl, u8, int), DecodeError>(
        (t, 0xc0u8, 1),
    ));
    assert(spec_resolve(s, ctx, Entry::Grp(GRP_2_EB_IB), 0xc0u8, 1) == Ok::<
        (Tmpl, u8, int),
        DecodeError,
    >((t, 0xc0u8, 1)));
    lemma_witness_covers(s, MachineMode::Bits32, t, 0xc0u8, 0x08u8);
}

/// Witness coverage of group row 2 behind opcode `0xc0`.
#[verifier::rlimit(100)]
#[verifier::spinoff_prover]
proof fn lemma_grp_covered_c0_r2()
    ensures
        spec_group(GRP_2_EB_IB, 2u8) matches Entry::Ins(t) ==> spec_covers(
            spec_grp_witness(0xc0u8, 2u8),
            MachineMode::Bits32,
            t,
        ),
{
    reveal_with_fuel(le_at, 3);
    let t = tpl2(Mnemonic::Rcl, Category::Rotate, IsaSet::I186, 7, 0x801, OpDesc::GrmB, OpDesc::ImmB);
    assert(spec_group(GRP_2_EB_IB, 2) == Entry::Ins(t));
    assert(spec_one_byte(0xc0u8) == Entry::Grp(GRP_2_EB_IB));
    let s = spec_grp_witness(0xc0u8, 2u8);
    assert(s.len() == 3);
    assert(s[1] == 0x10u8);
    assert(spec_read(s, 1, 1) == Ok::<u64, DecodeError>(16));
    assert(spec_modrm_reg(0x10u8) == 2);
    let ctx = spec_ctx_from(MachineMode::Bits32, spec_no_prefixes());
    assert(t.modes == 7);
    assert(spec_mode_bit(MachineMode::Bits32) == 2);
    assert((7u8 / 2u8) % 2 == 1);
    assert(t.category != Category::Ud);
    assert(spec_check(ctx, t, 0xc0u8, 1) == Ok::<(Tmpl, u8, int), DecodeError>(
        (t, 0xc0u8, 1),
    ));
    assert(spec_resolve(s, ctx, Entry::Grp(GRP_2_EB_IB), 0xc0u8, 1) == Ok::<
        (Tmpl, u8, int),
        DecodeError,
    >((t, 0xc0u8, 1)));
    lemma_witness_covers(s, MachineMode::Bits32, t, 0xc0u8, 0x10u8);
}

/// Witness coverage of group row 3 behind opcode `0xc0`.
#[verifier::rlimit(100)]
#[verifier::spinoff_prover]
proof fn lemma_grp_covered_c0_r3()
    ensures
        spec_group(GRP_2_EB_IB, 3u8) matches Entry::Ins(t) ==> spec_covers(
            spec_grp_witness(0xc0u8, 3u8),
            MachineMode::Bits32,
            t,
        ),
{
    reveal_with_fuel(le_at, 3);
    let t = tpl2(Mnemonic::Rcr, Category::Rotate, IsaSet::I186, 7, 0x801, OpDesc::GrmB, OpDesc::ImmB);
    assert(spec_group(GRP_2_EB_IB, 3) == Entry::Ins(t));
    assert(spec_one_byte(0xc0u8) == Entry::Grp(GRP_2_EB_IB));
    let s = spec_grp_witness(0xc0u8, 3u8);
    assert(s.len() == 3);
    assert(s[1] == 0x18u8);
    assert(spec_read(s, 1, 1) == Ok::<u64, DecodeError>(24));
    assert(spec_modrm_reg(0x18u8) == 3);
    let ctx = spec_ctx_from(MachineMode::Bits32, spec_no_prefixes());
    assert(t.modes == 7);
    assert(spec_mode_bit(MachineMode::Bits32) == 2);
    assert((7u8 / 2u8) % 2 == 1);
    assert(t.category != Category::Ud);
    assert(spec_check(ctx, t, 0xc0u8, 1) == Ok::<(Tmpl, u8, int), DecodeError>(
        (t, 0xc0u8, 1),
    ));
    assert(spec_resolve(s, ctx, Entry::Grp(GRP_2_EB_IB), 0xc0u8, 1) == Ok::<
        (Tmpl, u8, int),
        DecodeError,
    >((t, 0xc0u8, 1)));
    lemma_witness_covers(s, MachineMode::Bits32, t, 0xc0u8, 0x18u8);
}

/// Witness coverage of group row 4 behind opcode `0xc0`.
#[verifier::rlimit(100)]
#[verifier::spinoff_prover]
proof fn lemma_grp_covered_c0_r4()
    ensures
        spec_group(GRP_2_EB_IB, 4u8) matches Entry::Ins(t) ==> spec_covers(
            spec_grp_witness(0xc0u8, 4u8),
            MachineMode::Bits32,
            t,
        ),
{
    reveal_with_fuel(le_at, 3);
    let t = tpl2(Mnemonic::Shl, Category::Shift, IsaSet::I186, 7, 0x8c5, OpDesc::GrmB, OpDesc::ImmB);
    assert(spec_group(GRP_2_EB_IB, 4) == Entry::Ins(t));
    assert(spec_one_byte(0xc0u8) == Entry::Grp(GRP_2_EB_IB));
    let s = spec_grp_witness(0xc0u8, 4u8);
    assert(s.len() == 3);
    assert(s[1] == 0x20u8);
    assert(spec_read(s, 1, 1) == Ok::<u64, DecodeError>(32));
    assert(spec_modrm_reg(0x20u8) == 4);
    let ctx = spec_ctx_from(MachineMode::Bits32, spec_no_prefixes());
    assert(t.modes == 7);
    assert(spec_mode_bit(MachineMode::Bits32) == 2);
    assert((7u8 / 2u8) % 2 == 1);
    assert(t.category != Category::Ud);
    assert(spec_check(ctx, t, 0xc0u8, 1) == Ok::<(Tmpl, u8, int), DecodeError>(
        (t, 0xc0u8, 1),
    ));
    assert(spec_resolve(s, ctx, Entry::Grp(GRP_2_EB_IB), 0xc0u8, 1) == Ok::<
        (Tmpl, u8, int),
        DecodeError,
    >((t, 0xc0u8, 1)));
    lemma_witness_covers(s, MachineMode::Bits32, t, 0xc0u8, 0x20u8);
}

/// Witness coverage of group row 5 behind opcode `0xc0`.
#[verifier::rlimit(100)]
#[verifier::spinoff_prover]
proof fn lemma_grp_covered_c0_r5()
    ensures
        spec_group(GRP_2_EB_IB, 5u8) matches Entry::Ins(t) ==> spec_covers(
            spec_grp_witness(0xc0u8, 5u8),
            MachineMode::Bits32,
            t,
        ),
{
    reveal_with_fuel(le_at, 3);
    let t = tpl2(Mnemonic::Shr, Category::Shift, IsaSet::I186, 7, 0x8c5, OpDesc::GrmB, OpDesc::ImmB);
    assert(spec_group(GRP_2_EB_IB, 5) == Entry::Ins(t));
    assert(spec_one_byte(0xc0u8) == Entry::Grp(GRP_2_EB_IB));
    let s = spec_grp_witness(0xc0u8, 5u8);
    assert(s.len() == 3);
    assert(s[1] == 0x28u8);
    assert(spec_read(s, 1, 1) == Ok::<u64, DecodeError>(40));
    assert(spec_modrm_reg(0x28u8) == 5);
    let ctx = spec_ctx_from(MachineMode::Bits32, spec_no_prefixes());
    assert(t.modes == 7);
    assert(spec_mode_bit(MachineMode::Bits32) == 2);
    assert((7u8 / 2u8) % 2 == 1);
    assert(t.category != Category::Ud);
    assert(spec_check(ctx, t, 0xc0u8, 1) == Ok::<(Tmpl, u8, int), DecodeError>(
        (t, 0xc0u8, 1),
    ));
    assert(spec_resolve(s, ctx, Entry::Grp(GRP_2_EB_IB), 0xc0u8, 1) == Ok::<
        (Tmpl, u8, int),
        DecodeError,
    >((t, 0xc0u8, 1)));
    lemma_witness_covers(s, MachineMode::Bits32, t, 0xc0u8, 0x28u8);
}

/// Witness coverage of group row 7 behind opcode `0xc0`.
#[verifier::rlimit(100)]
#[verifier::spinoff_prover]
proof fn lemma_grp_covered_c0_r7()
    ensures
        spec_group(GRP_2_EB_IB, 7u8) matches Entry::Ins(t) ==> spec_covers(
            spec_grp_witness(0xc0u8, 7u8),
            MachineMode::Bits32,
            t,
        ),
{
    reveal_with_fuel(le_at, 3);
    let t = tpl2(Mnemonic::Sar, Category::Shift, IsaSet::I186, 7, 0x8c5, OpDesc::GrmB, OpDesc::ImmB);
    assert(spec_group(GRP_2_EB_IB, 7) == Entry::Ins(t));
    assert(spec_one_byte(0xc0u8) == Entry::Grp(GRP_2_EB_IB));
    let s = spec_grp_witness(0xc0u8, 7u8);
    assert(s.len() == 3);
    assert(s[1] == 0x38u8);
    assert(spec_read(s, 1, 1) == Ok::<u64, DecodeError>(56));
    assert(spec_modrm_reg(0x38u8) == 7);
    let ctx = spec_ctx_from(MachineMode::Bits32, spec_no_prefixes());
    assert(t.modes == 7);
    assert(spec_mode_bit(MachineMode::Bits32) == 2);
    assert((7u8 / 2u8) % 2 == 1);
    assert(t.category != Category::Ud);
    assert(spec_check(ctx, t, 0xc0u8, 1) == Ok::<(Tmpl, u8, int), DecodeError>(
        (t, 0xc0u8, 1),
    ));
    assert(spec_resolve(s, ctx, Entry::Grp(GRP_2_EB_IB), 0xc0u8, 1) == Ok::<
        (Tmpl, u8, int),
        DecodeError,
    >((t, 0xc0u8, 1)));
    lemma_witness_covers(s, MachineMode::Bits32, t, 0xc0u8, 0x38u8);
}

/// Witness coverage of the group rows behind opcode `0xc0`.
proof fn lemma_grp_covered_c0(reg: u8)
    requires
        reg < 8,
    ensures
        spec_group(GRP_2_EB_IB, reg) matches Entry::Ins(t) ==> spec_covers(
            spec_grp_witness(0xc0u8, reg),
            MachineMode::Bits32,
            t,
        ),
{
    match reg {
        0u8 => lemma_grp_covered_c0_r0(),
        1u8 => lemma_grp_covered_c0_r1(),
        2u8 => lemma_grp_covered_c0_r2(),
        3u8 => lemma_grp_covered_c0_r3(),
        4u8 => lemma_grp_covered_c0_r4(),
        5u8 => lemma_grp_covered_c0_r5(),
        7u8 => lemma_grp_covered_c0_r7(),
        _ => {},
    }
}

/// Witness coverage of group row 0 behind opcode `0xc1`.
#[verifier::rlimit(100)]
#[verifier::spinoff_prover]
proof fn lemma_grp_covered_c1_r0()
    ensures
        spec_group(GRP_2_EV_IB, 0u8) matches Entry::Ins(t) ==> spec_covers(
            spec_grp_witness(0xc1u8, 0u8),
            MachineMode::Bits32,
            t,
        ),
{
    reveal_with_fuel(le_at, 3);
    let t = tpl2(Mnemonic::Rol, Category::Rotate, IsaSet::I186, 7, 0x801, OpDesc::GrmV, OpDesc::ImmB);
    assert(spec_group(GRP_2_EV_IB, 0) == Entry::Ins(t));
    assert(spec_one_byte(0xc1u8) == Entry::Grp(GRP_2_EV_IB));
    let s = spec_grp_witness(0xc1u8, 0u8);
    assert(s.len() == 3);
    assert(s[1] == 0x00u8);
    assert(spec_read(s, 1, 1) == Ok::<u64, DecodeError>(0));
    assert(spec_modrm_reg(0x00u8) == 0);
    let ctx = spec_ctx_from(MachineMode::Bits32, spec_no_prefixes());
    assert(t.modes == 7);
    assert(spec_mode_bit(MachineMode::Bits32) == 2);
    assert((7u8 / 2u8) % 2 == 1);
    assert(t.category != Category::Ud);
    assert(spec_check(ctx, t, 0xc1u8, 1) == Ok::<(Tmpl, u8, int), DecodeError>(
        (t, 0xc1u8, 1),
    ));
    assert(spec_resolve(s, ctx, Entry::Grp(GRP_2_EV_IB), 0xc1u8, 1) == Ok::<
        (Tmpl, u8, int),
        DecodeError,
    >((t, 0xc1u8, 1)));
    lemma_witness_covers(s, MachineMode::Bits32, t, 0xc1u8, 0x00u8);
}

/// Witness coverage of group row 1 behind opcode `0xc1`.
#[verifier::rlimit(100)]
#[verifier::spinoff_prover]
proof fn lemma_grp_covered_c1_r1()
    ensures
        spec_group(GRP_2_EV_IB, 1u8) matches Entry::Ins(t) ==> spec_covers(
            spec_grp_witness(0xc1u8, 1u8),
            MachineMode::Bits32,
            t,
        ),
{
    reveal_with_fuel(le_at, 3);
    let t = tpl2(Mnemonic::Ror, Category::Rotate, IsaSet::I186, 7, 0x801, OpDesc::GrmV, OpDesc::ImmB);
    assert(spec_group(GRP_2_EV_IB, 1) == Entry::Ins(t));
    assert(spec_one_byte(0xc1u8) == Entry::Grp(GRP_2_EV_IB));
    let s = spec_grp_witness(0xc1u8, 1u8);
    assert(s.len() == 3);
    assert(s[1] == 0x08u8);
    assert(spec_read(s, 1, 1) == Ok::<u64, DecodeError>(8));
    assert(spec_modrm_reg(0x08u8) == 1);
    let ctx = spec_ctx_from(MachineMode::Bits32, spec_no_prefixes());
    assert(t.modes == 7);
    assert(spec_mode_bit(MachineMode::Bits32) == 2);
    assert((7u8 / 2u8) % 2 == 1);
    assert(t.category != Category::Ud);
    assert(spec_check(ctx, t, 0xc1u8, 1) == Ok::<(Tmpl, u8, int), DecodeError>(
        (t, 0xc1u8, 1),
    ));
    assert(spec_resolve(s, ctx, Entry::Grp(GRP_2_EV_IB), 0xc1u8, 1) == Ok::<
        (Tmpl, u8, int),
        DecodeError,
    >((t, 0xc1u8, 1)));
    lemma_witness_covers(s, MachineMode::Bits32, t, 0xc1u8, 0x08u8);
}

/// Witness coverage of group row 2 behind opcode `0xc1`.
#[verifier::rlimit(100)]
#[verifier::spinoff_prover]
proof fn lemma_grp_covered_c1_r2()
    ensures
        spec_group(GRP_2_EV_IB, 2u8) matches Entry::Ins(t) ==> spec_covers(
            spec_grp_witness(0xc1u8, 2u8),
            MachineMode::Bits32,
            t,
        ),
{
    reveal_with_fuel(le_at, 3);
    let t = tpl2(Mnemonic::Rcl, Category::Rotate, IsaSet::I186, 7, 0x801, OpDesc::GrmV, OpDesc::ImmB);
    assert(spec_group(GRP_2_EV_IB, 2) == Entry::Ins(t));
    assert(spec_one_byte(0xc1u8) == Entry::Grp(GRP_2_EV_IB));
    let s = spec_grp_witness(0xc1u8, 2u8);
    assert(s.len() == 3);
    assert(s[1] == 0x10u8);
    assert(spec_read(s, 1, 1) == Ok::<u64, DecodeError>(16));
    assert(spec_modrm_reg(0x10u8) == 2);
    let ctx = spec_ctx_from(MachineMode::Bits32, spec_no_prefixes());
    assert(t.modes == 7);
    assert(spec_mode_bit(MachineMode::Bits32) == 2);
    assert((7u8 / 2u8) % 2 == 1);
    assert(t.category != Category::Ud);
    assert(spec_check(ctx, t, 0xc1u8, 1) == Ok::<(Tmpl, u8, int), DecodeError>(
        (t, 0xc1u8, 1),
    ));
    assert(spec_resolve(s, ctx, Entry::Grp(GRP_2_EV_IB), 0xc1u8, 1) == Ok::<
        (Tmpl, u8, int),
        DecodeError,
    >((t, 0xc1u8, 1)));
    lemma_witness_covers(s, MachineMode::Bits32, t, 0xc1u8, 0x10u8);
}

/// Witness coverage of group row 3 behind opcode `0xc1`.
#[verifier::rlimit(100)]
#[verifier::spinoff_prover]
proof fn lemma_grp_covered_c1_r3()
    ensures
        spec_group(GRP_2_EV_IB, 3u8) matches Entry::Ins(t) ==> spec_covers(
            spec_grp_witness(0xc1u8, 3u8),
            MachineMode::Bits32,
            t,
        ),
{
    reveal_with_fuel(le_at, 3);
    let t = tpl2(Mnemonic::Rcr, Category::Rotate, IsaSet::I186, 7, 0x801, OpDesc::GrmV, OpDesc::ImmB);
    assert(spec_group(GRP_2_EV_IB, 3) == Entry::Ins(t));
    assert(spec_one_byte(0xc1u8) == Entry::Grp(GRP_2_EV_IB));
    let s = spec_grp_witness(0xc1u8, 3u8);
    assert(s.len() == 3);
    assert(s[1] == 0x18u8);
    assert(spec_read(s, 1, 1) == Ok::<u64, DecodeError>(24));
    assert(spec_modrm_reg(0x18u8) == 3);
    let ctx = spec_ctx_from(MachineMode::Bits32, spec_no_prefixes());
    assert(t.modes == 7);
    assert(spec_mode_bit(MachineMode::Bits32) == 2);
    assert((7u8 / 2u8) % 2 == 1);
    assert(t.category != Category::Ud);
    assert(spec_check(ctx, t, 0xc1u8, 1) == Ok::<(Tmpl, u8, int), DecodeError>(
        (t, 0xc1u8, 1),
    ));
    assert(spec_resolve(s, ctx, Entry::Grp(GRP_2_EV_IB), 0xc1u8, 1) == Ok::<
        (Tmpl, u8, int),
        DecodeError,
    >((t, 0xc1u8, 1)));
    lemma_witness_covers(s, MachineMode::Bits32, t, 0xc1u8, 0x18u8);
}

/// Witness coverage of group row 4 behind opcode `0xc1`.
#[verifier::rlimit(100)]
#[verifier::spinoff_prover]
proof fn lemma_grp_covered_c1_r4()
    ensures
        spec_group(GRP_2_EV_IB, 4u8) matches Entry::Ins(t) ==> spec_covers(
            spec_grp_witness(0xc1u8, 4u8),
            MachineMode::Bits32,
            t,
        ),
{
    reveal_with_fuel(le_at, 3);
    let t = tpl2(Mnemonic::Shl, Category::Shift, IsaSet::I186, 7, 0x8c5, OpDesc::GrmV, OpDesc::ImmB);
    assert(spec_group(GRP_2_EV_IB, 4) == Entry::Ins(t));
    assert(spec_one_byte(0xc1u8) == Entry::Grp(GRP_2_EV_IB));
    let s = spec_grp_witness(0xc1u8, 4u8);
    assert(s.len() == 3);
    assert(s[1] == 0x20u8);
    assert(spec_read(s, 1, 1) == Ok::<u64, DecodeError>(32));
    assert(spec_modrm_reg(0x20u8) == 4);
    let ctx = spec_ctx_from(MachineMode::Bits32, spec_no_prefixes());
    assert(t.modes == 7);
    assert(spec_mode_bit(MachineMode::Bits32) == 2);
    assert((7u8 / 2u8) % 2 == 1);
    assert(t.category != Category::Ud);
    assert(spec_check(ctx, t, 0xc1u8, 1) == Ok::<(Tmpl, u8, int), DecodeError>(
        (t, 0xc1u8, 1),
    ));
    assert(spec_resolve(s, ctx, Entry::Grp(GRP_2_EV_IB), 0xc1u8, 1) == Ok::<
        (Tmpl, u8, int),
        DecodeError,
    >((t, 0xc1u8, 1)));
    lemma_witness_covers(s, MachineMode::Bits32, t, 0xc1u8, 0x20u8);
}

/// Witness coverage of group row 5 behind opcode `0xc1`.
#[verifier::rlimit(100)]
#[verifier::spinoff_prover]
proof fn lemma_grp_covered_c1_r5()
    ensures
        spec_group(GRP_2_EV_IB, 5u8) matches Entry::Ins(t) ==> spec_covers(
            spec_grp_witness(0xc1u8, 5u8),
            MachineMode::Bits32,
            t,
        ),
{
    reveal_with_fuel(le_at, 3);
    let t = tpl2(Mnemonic::Shr, Category::Shift, IsaSet::I186, 7, 0x8c5, OpDesc::GrmV, OpDesc::ImmB);
    assert(spec_group(GRP_2_EV_IB, 5) == Entry::Ins(t));
    assert(spec_one_byte(0xc1u8) == Entry::Grp(GRP_2_EV_IB));
    let s = spec_grp_witness(0xc1u8, 5u8);
    assert(s.len() == 3);
    assert(s[1] == 0x28u8);
    assert(spec_read(s, 1, 1) == Ok::<u64, DecodeError>(40));
    assert(spec_modrm_reg(0x28u8) == 5);
    let ctx = spec_ctx_from(MachineMode::Bits32, spec_no_prefixes());
    assert(t.modes == 7);
    assert(spec_mode_bit(MachineMode::Bits32) == 2);
    assert((7u8 / 2u8) % 2 == 1);
    assert(t.category != Category::Ud);
    assert(spec_check(ctx, t, 0xc1u8, 1) == Ok::<(Tmpl, u8, int), DecodeError>(
        (t, 0xc1u8, 1),
    ));
    assert(spec_resolve(s, ctx, Entry::Grp(GRP_2_EV_IB), 0xc1u8, 1) == Ok::<
        (Tmpl, u8, int),
        DecodeError,
    >((t, 0xc1u8, 1)));
    lemma_witness_covers(s, MachineMode::Bits32, t, 0xc1u8, 0x28u8);
}

/// Witness coverage of group row 7 behind opcode `0xc1`.
#[verifier::rlimit(100)]
#[verifier::spinoff_prover]
proof fn lemma_grp_covered_c1_r7()
    ensures
        spec_group(GRP_2_EV_IB, 7u8) matches Entry::Ins(t) ==> spec_covers(
            spec_grp_witness(0xc1u8, 7u8),
            MachineMode::Bits32,
            t,
        ),
{
    reveal_with_fuel(le_at, 3);
    let t = tpl2(Mnemonic::Sar, Category::Shift, IsaSet::I186, 7, 0x8c5, OpDesc::GrmV, OpDesc::ImmB);
    assert(spec_group(GRP_2_EV_IB, 7) == Entry::Ins(t));
    assert(spec_one_byte(0xc1u8) == Entry::Grp(GRP_2_EV_IB));
    let s = spec_grp_witness(0xc1u8, 7u8);
    assert(s.len() == 3);
    assert(s[1] == 0x38u8);
    assert(spec_read(s, 1, 1) == Ok::<u64, DecodeError>(56));
    assert(spec_modrm_reg(0x38u8) == 7);
    let ctx = spec_ctx_from(MachineMode::Bits32, spec_no_prefixes());
    assert(t.modes == 7);
    assert(spec_mode_bit(MachineMode::Bits32) == 2);
    assert((7u8 / 2u8) % 2 == 1);
    assert(t.category != Category::Ud);
    assert(spec_check(ctx, t, 0xc1u8, 1) == Ok::<(Tmpl, u8, int), DecodeError>(
        (t, 0xc1u8, 1),
    ));
    assert(spec_resolve(s, ctx, Entry::Grp(GRP_2_EV_IB), 0xc1u8, 1) == Ok::<
        (Tmpl, u8, int),
        DecodeError,
    >((t, 0xc1u8, 1)));
    lemma_witness_covers(s, MachineMode::Bits32, t, 0xc1u8, 0x38u8);
}

/// Witness coverage of the group rows behind opcode `0xc1`.
proof fn lemma_grp_covered_c1(reg: u8)
    requires
        reg < 8,
    ensures
        spec_group(GRP_2_EV_IB, reg) matches Entry::Ins(t) ==> spec_covers(
            spec_grp_witness(0xc1u8, reg),
            MachineMode::Bits32,
            t,
        ),
{
    match reg {
        0u8 => lemma_grp_covered_c1_r0(),
        1u8 => lemma_grp_covered_c1_r1(),
        2u8 => lemma_grp_covered_c1_r2(),
        3u8 => lemma_grp_covered_c1_r3(),
        4u8 => lemma_grp_covered_c1_r4(),
        5u8 => lemma_grp_covered_c1_r5(),
        7u8 => lemma_grp_covered_c1_r7(),
        _ => {},
    }
}

/// Witness coverage of group row 0 behind opcode `0xc6`.
#[verifier::rlimit(100)]
#[verifier::spinoff_prover]
proof fn lemma_grp_covered_c6_r0()
    ensures
        spec_group(GRP_11_EB, 0u8) matches Entry::Ins(t) ==> spec_covers(
            spec_grp_witness(0xc6u8, 0u8),
            MachineMode::Bits32,
            t,
        ),
{
    reveal_with_fuel(le_at, 3);
    let t = tpl2(Mnemonic::Mov, Category::Dataxfer, IsaSet::I86, 7, 0x0, OpDesc::GrmB, OpDesc::ImmB);
    assert(spec_group(GRP_11_EB, 0) == Entry::Ins(t));
    assert(spec_one_byte(0xc6u8) == Entry::Grp(GRP_11_EB));
    let s = spec_grp_witness(0xc6u8, 0u8);
    assert(s.len() == 3);
    assert(s[1] == 0x00u8);
    assert(spec_read(s, 1, 1) == Ok::<u64, DecodeError>(0));
    assert(spec_modrm_reg(0x00u8) == 0);
    let ctx = spec_ctx_from(MachineMode::Bits32, spec_no_prefixes());
    assert(t.modes == 7);
    assert(spec_mode_bit(MachineMode::Bits32) == 2);
    assert((7u8 / 2u8) % 2 == 1);
    assert(t.category != Category::Ud);
    assert(spec_check(ctx, t, 0xc6u8, 1) == Ok::<(Tmpl, u8, int), DecodeError>(
        (t, 0xc6u8, 1),
    ));
    assert(spec_resolve(s, ctx, Entry::Grp(GRP_11_EB), 0xc6u8, 1) == Ok::<
        (Tmpl, u8, int),
        DecodeError,
    >((t, 0xc6u8, 1)));
    lemma_witness_covers(s, MachineMode::Bits32, t, 0xc6u8, 0x00u8);
}

/// Witness coverage of the group rows behind opcode `0xc6`.
proof fn lemma_grp_covered_c6(reg: u8)
    requires
        reg < 8,
    ensures
        spec_group(GRP_11_EB, reg) matches Entry::Ins(t) ==> spec_covers(
            spec_grp_witness(0xc6u8, reg),
            MachineMode::Bits32,
            t,
        ),
{
    match reg {
        0u8 => lemma_grp_covered_c6_r0(),
        _ => {},
    }
}

/// Witness coverage of group row 0 behind opcode `0xc7`.
#[verifier::rlimit(100)]
#[verifier::spinoff_prover]
proof fn lemma_grp_covered_c7_r0()
    ensures
        spec_group(GRP_11_EV, 0u8) matches Entry::Ins(t) ==> spec_covers(
            spec_grp_witness(0xc7u8, 0u8),
            MachineMode::Bits32,
            t,
        ),
{
    reveal_with_fuel(le_at, 3);
    let t = tpl2(Mnemonic::Mov, Category::Dataxfer, IsaSet::I86, 7, 0x0, OpDesc::GrmV, OpDesc::ImmZ);
    assert(spec_group(GRP_11_EV, 0) == Entry::Ins(t));
    assert(spec_one_byte(0xc7u8) == Entry::Grp(GRP_11_EV));
    let s = spec_grp_witness(0xc7u8, 0u8);
    assert(s.len() == 6);
    assert(s[1] == 0x00u8);
    assert(spec_read(s, 1, 1) == Ok::<u64, DecodeError>(0));
    assert(spec_modrm_reg(0x00u8) == 0);
    let ctx = spec_ctx_from(MachineMode::Bits32, spec_no_prefixes());
    assert(t.modes == 7);
    assert(spec_mode_bit(MachineMode::Bits32) == 2);
    assert((7u8 / 2u8) % 2 == 1);
    assert(t.category != Category::Ud);
    assert(spec_check(ctx, t, 0xc7u8, 1) == Ok::<(Tmpl, u8, int), DecodeError>(
        (t, 0xc7u8, 1),
    ));
    assert(spec_resolve(s, ctx, Entry::Grp(GRP_11_EV), 0xc7u8, 1) == Ok::<
        (Tmpl, u8, int),
        DecodeError,
    >((t, 0xc7u8, 1)));
    lemma_witness_covers(s, MachineMode::Bits32, t, 0xc7u8, 0x00u8);
}

/// Witness coverage of the group rows behind opcode `0xc7`.
proof fn lemma_grp_covered_c7(reg: u8)
    requires
        reg < 8,
    ensures
        spec_group(GRP_11_EV, reg) matches Entry::Ins(t) ==> spec_covers(
            spec_grp_witness(0xc7u8, reg),
            MachineMode::Bits32,
            t,
        ),
{
    match reg {
        0u8 => lemma_grp_covered_c7_r0(),
        _ => {},
    }
}

/// Witness coverage of group row 0 behind opcode `0xd0`.
#[verifier::rlimit(100)]
#[verifier::spinoff_prover]
proof fn lemma_grp_covered_d0_r0()
    ensures
        spec_group(GRP_2_EB_1, 0u8) matches Entry::Ins(t) ==> spec_covers(
            spec_grp_witness(0xd0u8, 0u8),
            MachineMode::Bits32,
            t,
        ),
{
    reveal_with_fuel(le_at, 3);
    let t = tpl2(Mnemonic::Rol, Category::Rotate, IsaSet::I86, 7, 0x801, OpDesc::GrmB, OpDesc::ImplOne);
    assert(spec_group(GRP_2_EB_1, 0) == Entry::Ins(t));
    assert(spec_one_byte(0xd0u8) == Entry::Grp(GRP_2_EB_1));
    let s = spec_grp_witness(0xd0u8, 0u8);
    assert(s.len() == 2);
    assert(s[1] == 0x00u8);
    assert(spec_read(s, 1, 1) == Ok::<u64, DecodeError>(0));
    assert(spec_modrm_reg(0x00u8) == 0);
    let ctx = spec_ctx_from(MachineMode::Bits32, spec_no_prefixes());
    assert(t.modes == 7);
    assert(spec_mode_bit(MachineMode::Bits32) == 2);
    assert((7u8 / 2u8) % 2 == 1);
    assert(t.category != Category::Ud);
    assert(spec_check(ctx, t, 0xd0u8, 1) == Ok::<(Tmpl, u8, int), DecodeError>(
        (t, 0xd0u8, 1),
    ));
    assert(spec_resolve(s, ctx, Entry::Grp(GRP_2_EB_1), 0xd0u8, 1) == Ok::<
        (Tmpl, u8, int),
        DecodeError,
    >((t, 0xd0u8, 1)));
    lemma_witness_covers(s, MachineMode::Bits32, t, 0xd0u8, 0x00u8);
}

/// Witness coverage of group row 1 behind opcode `0xd0`.
#[verifier::rlimit(100)]
#[verifier::spinoff_prover]
proof fn lemma_grp_covered_d0_r1()
    ensures
        spec_group(GRP_2_EB_1, 1u8) matches Entry::Ins(t) ==> spec_covers(
            spec_grp_witness(0xd0u8, 1u8),
            MachineMode::Bits32,
            t,
        ),
{
    reveal_with_fuel(le_at, 3);
    let t = tpl2(Mnemonic::Ror, Category::Rotate, IsaSet::I86, 7, 0x801, OpDesc::GrmB, OpDesc::ImplOne);
    assert(spec_group(GRP_2_EB_1, 1) == Entry::Ins(t));
    assert(spec_one_byte(0xd0u8) == Entry::Grp(GRP_2_EB_1));
    let s = spec_grp_witness(0xd0u8, 1u8);
    assert(s.len() == 2);
    assert(s[1] == 0x08u8);
    assert(spec_read(s, 1, 1) == Ok::<u64, DecodeError>(8));
    assert(spec_modrm_reg(0x08u8) == 1);
    let ctx = spec_ctx_from(MachineMode::Bits32, spec_no_prefixes());
    assert(t.modes == 7);
    assert(spec_mode_bit(MachineMode::Bits32) == 2);
    assert((7u8 / 2u8) % 2 == 1);
    assert(t.category != Category::Ud);
    assert(spec_check(ctx, t, 0xd0u8, 1) == Ok::<(Tmpl, u8, int), DecodeError>(
        (t, 0xd0u8, 1),
    ));
    assert(spec_resolve(s, ctx, Entry::Grp(GRP_2_EB_1), 0xd0u8, 1) == Ok::<
        (Tmpl, u8, int),
        DecodeError,
    >((t, 0xd0u8, 1)));
    lemma_witness_covers(s, MachineMode::Bits32, t, 0xd0u8, 0x08u8);
}

/// Witness coverage of group row 2 behind opcode `0xd0`.
#[verifier::rlimit(100)]
#[verifier::spinoff_prover]
proof fn lemma_grp_covered_d0_r2()
    ensures
        spec_group(GRP_2_EB_1, 2u8) matches Entry::Ins(t) ==> spec_covers(
            spec_grp_witness(0xd0u8, 2u8),
            MachineMode::Bits32,
            t,
        ),
{
    reveal_with_fuel(le_at, 3);
    let t = tpl2(Mnemonic::Rcl, Category::Rotate, IsaSet::I86, 7, 0x801, OpDesc::GrmB, OpDesc::ImplOne);
    assert(spec_group(GRP_2_EB_1, 2) == Entry::Ins(t));
    assert(spec_one_byte(0xd0u8) == Entry::Grp(GRP_2_EB_1));
    let s = spec_grp_witness(0xd0u8, 2u8);
    assert(s.len() == 2);
    assert(s[1] == 0x10u8);
    assert(spec_read(s, 1, 1) == Ok::<u64, DecodeError>(16));
    assert(spec_modrm_reg(0x10u8) == 2);
    let ctx = spec_ctx_from(MachineMode::Bits32, spec_no_prefixes());
    assert(t.modes == 7);
    assert(spec_mode_bit(MachineMode::Bits32) == 2);
    assert((7u8 / 2u8) % 2 == 1);
    assert(t.category != Category::Ud);
    assert(spec_check(ctx, t, 0xd0u8, 1) == Ok::<(Tmpl, u8, int), DecodeError>(
        (t, 0xd0u8, 1),
    ));
    assert(spec_resolve(s, ctx, Entry::Grp(GRP_2_EB_1), 0xd0u8, 1) == Ok::<
        (Tmpl, u8, int),
        DecodeError,
    >((t, 0xd0u8, 1)));
    lemma_witness_covers(s, MachineMode::Bits32, t, 0xd0u8, 0x10u8);
}

/// Witness coverage of group row 3 behind opcode `0xd0`.
#[verifier::rlimit(100)]
#[verifier::spinoff_prover]
proof fn lemma_grp_covered_d0_r3()
    ensures
        spec_group(GRP_2_EB_1, 3u8) matches Entry::Ins(t) ==> spec_covers(
            spec_grp_witness(0xd0u8, 3u8),
            MachineMode::Bits32,
            t,
        ),
{
    reveal_with_fuel(le_at, 3);
    let t = tpl2(Mnemonic::Rcr, Category::Rotate, IsaSet::I86, 7, 0x801, OpDesc::GrmB, OpDesc::ImplOne);
    assert(spec_group(GRP_2_EB_1, 3) == Entry::Ins(t));
    assert(spec_one_byte(0xd0u8) == Entry::Grp(GRP_2_EB_1));
    let s = spec_grp_witness(0xd0u8, 3u8);
    assert(s.len() == 2);
    assert(s[1] == 0x18u8);
    assert(spec_read(s, 1, 1) == Ok::<u64, DecodeError>(24));
    assert(spec_modrm_reg(0x18u8) == 3);
    let ctx = spec_ctx_from(MachineMode::Bits32, spec_no_prefixes());
    assert(t.modes == 7);
    assert(spec_mode_bit(MachineMode::Bits32) == 2);
    assert((7u8 / 2u8) % 2 == 1);
    assert(t.category != Category::Ud);
    assert(spec_check(ctx, t, 0xd0u8, 1) == Ok::<(Tmpl, u8, int), DecodeError>(
        (t, 0xd0u8, 1),
    ));
    assert(spec_resolve(s, ctx, Entry::Grp(GRP_2_EB_1), 0xd0u8, 1) == Ok::<
        (Tmpl, u8, int),
        DecodeError,
    >((t, 0xd0u8, 1)));
    lemma_witness_covers(s, MachineMode::Bits32, t, 0xd0u8, 0x18u8);
}

/// Witness coverage of group row 4 behind opcode `0xd0`.
#[verifier::rlimit(100)]
#[verifier::spinoff_prover]
proof fn lemma_grp_covered_d0_r4()
    ensures
        spec_group(GRP_2_EB_1, 4u8) matches Entry::Ins(t) ==> spec_covers(
            spec_grp_witness(0xd0u8, 4u8),
            MachineMode::Bits32,
            t,
        ),
{
    reveal_with_fuel(le_at, 3);
    let t = tpl2(Mnemonic::Shl, Category::Shift, IsaSet::I86, 7, 0x8c5, OpDesc::GrmB, OpDesc::ImplOne);
    assert(spec_group(GRP_2_EB_1, 4) == Entry::Ins(t));
    assert(spec_one_byte(0xd0u8) == Entry::Grp(GRP_2_EB_1));
    let s = spec_grp_witness(0xd0u8, 4u8);
    assert(s.len() == 2);
    assert(s[1] == 0x20u8);
    assert(spec_read(s, 1, 1) == Ok::<u64, DecodeError>(32));
    assert(spec_modrm_reg(0x20u8) == 4);
    let ctx = spec_ctx_from(MachineMode::Bits32, spec_no_prefixes());
    assert(t.modes == 7);
    assert(spec_mode_bit(MachineMode::Bits32) == 2);
    assert((7u8 / 2u8) % 2 == 1);
    assert(t.category != Category::Ud);
    assert(spec_check(ctx, t, 0xd0u8, 1) == Ok::<(Tmpl, u8, int), DecodeError>(
        (t, 0xd0u8, 1),
    ));
    assert(spec_resolve(s, ctx, Entry::Grp(GRP_2_EB_1), 0xd0u8, 1) == Ok::<
        (Tmpl, u8, int),
        DecodeError,
    >((t, 0xd0u8, 1)));
    lemma_witness_covers(s, MachineMode::Bits32, t, 0xd0u8, 0x20u8);
}

/// Witness coverage of group row 5 behind opcode `0xd0`.
#[verifier::rlimit(100)]
#[verifier::spinoff_prover]
proof fn lemma_grp_covered_d0_r5()
    ensures
        spec_group(GRP_2_EB_1, 5u8) matches Entry::Ins(t) ==> spec_covers(
            spec_grp_witness(0xd0u8, 5u8),
            MachineMode::Bits32,
            t,
        ),
{
    reveal_with_fuel(le_at, 3);
    let t = tpl2(Mnemonic::Shr, Category::Shift, IsaSet::I86, 7, 0x8c5, OpDesc::GrmB, OpDesc::ImplOne);
    assert(spec_group(GRP_2_EB_1, 5) == Entry::Ins(t));
    assert(spec_one_byte(0xd0u8) == Entry::Grp(GRP_2_EB_1));
    let s = spec_grp_witness(0xd0u8, 5u8);
    assert(s.len() == 2);
    assert(s[1] == 0x28u8);
    assert(spec_read(s, 1, 1) == Ok::<u64, DecodeError>(40));
    assert(spec_modrm_reg(0x28u8) == 5);
    let ctx = spec_ctx_from(MachineMode::Bits32, spec_no_prefixes());
    assert(t.modes == 7);
    assert(spec_mode_bit(MachineMode::Bits32) == 2);
    assert((7u8 / 2u8) % 2 == 1);
    assert(t.category != Category::Ud);
    assert(spec_check(ctx, t, 0xd0u8, 1) == Ok::<(Tmpl, u8, int), DecodeError>(
        (t, 0xd0u8, 1),
    ));
    assert(spec_resolve(s, ctx, Entry::Grp(GRP_2_EB_1), 0xd0u8, 1) == Ok::<
        (Tmpl, u8, int),
        DecodeError,
    >((t, 0xd0u8, 1)));
    lemma_witness_covers(s, MachineMode::Bits32, t, 0xd0u8, 0x28u8);
}

/// Witness coverage of group row 7 behind opcode `0xd0`.
#[verifier::rlimit(100)]
#[verifier::spinoff_prover]
proof fn lemma_grp_covered_d0_r7()
    ensures
        spec_group(GRP_2_EB_1, 7u8) matches Entry::Ins(t) ==> spec_covers(
            spec_grp_witness(0xd0u8, 7u8),
            MachineMode::Bits32,
            t,
        ),
{
    reveal_with_fuel(le_at, 3);
    let t = tpl2(Mnemonic::Sar, Category::Shift, IsaSet::I86, 7, 0x8c5, OpDesc::GrmB, OpDesc::ImplOne);
    assert(spec_group(GRP_2_EB_1, 7) == Entry::Ins(t));
    assert(spec_one_byte(0xd0u8) == Entry::Grp(GRP_2_EB_1));
    let s = spec_grp_witness(0xd0u8, 7u8);
    assert(s.len() == 2);
    assert(s[1] == 0x38u8);
    assert(spec_read(s, 1, 1) == Ok::<u64, DecodeError>(56));
    assert(spec_modrm_reg(0x38u8) == 7);
    let ctx = spec_ctx_from(MachineMode::Bits32, spec_no_prefixes());
    assert(t.modes == 7);
    assert(spec_mode_bit(MachineMode::Bits32) == 2);
    assert((7u8 / 2u8) % 2 == 1);
    assert(t.category != Category::Ud);
    assert(spec_check(ctx, t, 0xd0u8, 1) == Ok::<(Tmpl, u8, int), DecodeError>(
        (t, 0xd0u8, 1),
    ));
    assert(spec_resolve(s, ctx, Entry::Grp(GRP_2_EB_1), 0xd0u8, 1) == Ok::<
        (Tmpl, u8, int),
        DecodeError,
    >((t, 0xd0u8, 1)));
    lemma_witness_covers(s, MachineMode::Bits32, t, 0xd0u8, 0x38u8);
}

/// Witness coverage of the group rows behind opcode `0xd0`.
proof fn lemma_grp_covered_d0(reg: u8)
    requires
        reg < 8,
    ensures
        spec_group(GRP_2_EB_1, reg) matches Entry::Ins(t) ==> spec_covers(
            spec_grp_witness(0xd0u8, reg),
            MachineMode::Bits32,
            t,
        ),
{
    match reg {
        0u8 => lemma_grp_covered_d0_r0(),
        1u8 => lemma_grp_covered_d0_r1(),
        2u8 => lemma_grp_covered_d0_r2(),
        3u8 => lemma_grp_covered_d0_r3(),
        4u8 => lemma_grp_covered_d0_r4(),
        5u8 => lemma_grp_covered_d0_r5(),
        7u8 => lemma_grp_covered_d0_r7(),
        _ => {},
    }
}

/// Witness coverage of group row 0 behind opcode `0xd1`.
#[verifier::rlimit(100)]
#[verifier::spinoff_prover]
proof fn lemma_grp_covered_d1_r0()
    ensures
        spec_group(GRP_2_EV_1, 0u8) matches Entry::Ins(t) ==> spec_covers(
            spec_grp_witness(0xd1u8, 0u8),
            MachineMode::Bits32,
            t,
        ),
{
    reveal_with_fuel(le_at, 3);
    let t = tpl2(Mnemonic::Rol, Category::Rotate, IsaSet::I86, 7, 0x801, OpDesc::GrmV, OpDesc::ImplOne);
    assert(spec_group(GRP_2_EV_1, 0) == Entry::Ins(t));
    assert(spec_one_byte(0xd1u8) == Entry::Grp(GRP_2_EV_1));
    let s = spec_grp_witness(0xd1u8, 0u8);
    assert(s.len() == 2);
    assert(s[1] == 0x00u8);
    assert(spec_read(s, 1, 1) == Ok::<u64, DecodeError>(0));
    assert(spec_modrm_reg(0x00u8) == 0);
    let ctx = spec_ctx_from(MachineMode::Bits32, spec_no_prefixes());
    assert(t.modes == 7);
    assert(spec_mode_bit(MachineMode::Bits32) == 2);
    assert((7u8 / 2u8) % 2 == 1);
    assert(t.category != Category::Ud);
    assert(spec_check(ctx, t, 0xd1u8, 1) == Ok::<(Tmpl, u8, int), DecodeError>(
        (t, 0xd1u8, 1),
    ));
    assert(spec_resolve(s, ctx, Entry::Grp(GRP_2_EV_1), 0xd1u8, 1) == Ok::<
        (Tmpl, u8, int),
        DecodeError,
    >((t, 0xd1u8, 1)));
    lemma_witness_covers(s, MachineMode::Bits32, t, 0xd1u8, 0x00u8);
}

/// Witness coverage of group row 1 behind opcode `0xd1`.
#[verifier::rlimit(100)]
#[verifier::spinoff_prover]
proof fn lemma_grp_covered_d1_r1()
    ensures
        spec_group(GRP_2_EV_1, 1u8) matches Entry::Ins(t) ==> spec_covers(
            spec_grp_witness(0xd1u8, 1u8),
            MachineMode::Bits32,
            t,
        ),
{
    reveal_with_fuel(le_at, 3);
    let t = tpl2(Mnemonic::Ror, Category::Rotate, IsaSet::I86, 7, 0x801, OpDesc::GrmV, OpDesc::ImplOne);
    assert(spec_group(GRP_2_EV_1, 1) == Entry::Ins(t));
    assert(spec_one_byte(0xd1u8) == Entry::Grp(GRP_2_EV_1));
    let s = spec_grp_witness(0xd1u8, 1u8);
    assert(s.len() == 2);
    assert(s[1] == 0x08u8);
    assert(spec_read(s, 1, 1) == Ok::<u64, DecodeError>(8));
    assert(spec_modrm_reg(0x08u8) == 1);
    let ctx = spec_ctx_from(MachineMode::Bits32, spec_no_prefixes());
    assert(t.modes == 7);
    assert(spec_mode_bit(MachineMode::Bits32) == 2);
    assert((7u8 / 2u8) % 2 == 1);
    assert(t.category != Category::Ud);
    assert(spec_check(ctx, t, 0xd1u8, 1) == Ok::<(Tmpl, u8, int), DecodeError>(
        (t, 0xd1u8, 1),
    ));
    assert(spec_resolve(s, ctx, Entry::Grp(GRP_2_EV_1), 0xd1u8, 1) == Ok::<
        (Tmpl, u8, int),
        DecodeError,
    >((t, 0xd1u8, 1)));
    lemma_witness_covers(s, MachineMode::Bits32, t, 0xd1u8, 0x08u8);
}

/// Witness coverage of group row 2 behind opcode `0xd1`.
#[verifier::rlimit(100)]
#[verifier::spinoff_prover]
proof fn lemma_grp_covered_d1_r2()
    ensures
        spec_group(GRP_2_EV_1, 2u8) matches Entry::Ins(t) ==> spec_covers(
            spec_grp_witness(0xd1u8, 2u8),
            MachineMode::Bits32,
            t,
        ),
{
    reveal_with_fuel(le_at, 3);
    let t = tpl2(Mnemonic::Rcl, Category::Rotate, IsaSet::I86, 7, 0x801, OpDesc::GrmV, OpDesc::ImplOne);
    assert(spec_group(GRP_2_EV_1, 2) == Entry::Ins(t));
    assert(spec_one_byte(0xd1u8) == Entry::Grp(GRP_2_EV_1));
    let s = spec_grp_witness(0xd1u8, 2u8);
    assert(s.len() == 2);
    assert(s[1] == 0x10u8);
    assert(spec_read(s, 1, 1) == Ok::<u64, DecodeError>(16));
    assert(spec_modrm_reg(0x10u8) == 2);
    let ctx = spec_ctx_from(MachineMode::Bits32, spec_no_prefixes());
    assert(t.modes == 7);
    assert(spec_mode_bit(MachineMode::Bits32) == 2);
    assert((7u8 / 2u8) % 2 == 1);
    assert(t.category != Category::Ud);
    assert(spec_check(ctx, t, 0xd1u8, 1) == Ok::<(Tmpl, u8, int), DecodeError>(
        (t, 0xd1u8, 1),
    ));
    assert(spec_resolve(s, ctx, Entry::Grp(GRP_2_EV_1), 0xd1u8, 1) == Ok::<
        (Tmpl, u8, int),
        DecodeError,
    >((t, 0xd1u8, 1)));
    lemma_witness_covers(s, MachineMode::Bits32, t, 0xd1u8, 0x10u8);
}

/// Witness coverage of group row 3 behind opcode `0xd1`.
#[verifier::rlimit(100)]
#[verifier::spinoff_prover]
proof fn lemma_grp_covered_d1_r3()
    ensures
        spec_group(GRP_2_EV_1, 3u8) matches Entry::Ins(t) ==> spec_covers(
            spec_grp_witness(0xd1u8, 3u8),
            MachineMode::Bits32,
            t,
        ),
{
    reveal_with_fuel(le_at, 3);
    let t = tpl2(Mnemonic::Rcr, Category::Rotate, IsaSet::I86, 7, 0x801, OpDesc::GrmV, OpDesc::ImplOne);
    assert(spec_group(GRP_2_EV_1, 3) == Entry::Ins(t));
    assert(spec_one_byte(0xd1u8) == Entry::Grp(GRP_2_EV_1));
    let s = spec_grp_witness(0xd1u8, 3u8);
    assert(s.len() == 2);
    assert(s[1] == 0x18u8);
    assert(spec_read(s, 1, 1) == Ok::<u64, DecodeError>(24));
    assert(spec_modrm_reg(0x18u8) == 3);
    let ctx = spec_ctx_from(MachineMode::Bits32, spec_no_prefixes());
    assert(t.modes == 7);
    assert(spec_mode_bit(MachineMode::Bits32) == 2);
    assert((7u8 / 2u8) % 2 == 1);
    assert(t.category != Category::Ud);
    assert(spec_check(ctx, t, 0xd1u8, 1) == Ok::<(Tmpl, u8, int), DecodeError>(
        (t, 0xd1u8, 1),
    ));
    assert(spec_resolve(s, ctx, Entry::Grp(GRP_2_EV_1), 0xd1u8, 1) == Ok::<
        (Tmpl, u8, int),
        DecodeError,
    >((t, 0xd1u8, 1)));
    lemma_witness_covers(s, MachineMode::Bits32, t, 0xd1u8, 0x18u8);
}

/// Witness coverage of group row 4 behind opcode `0xd1`.
#[verifier::rlimit(100)]
#[verifier::spinoff_prover]
proof fn lemma_grp_covered_d1_r4()
    ensures
        spec_group(GRP_2_EV_1, 4u8) matches Entry::Ins(t) ==> spec_covers(
            spec_grp_witness(0xd1u8, 4u8),
            MachineMode::Bits32,
            t,
        ),
{
    reveal_with_fuel(le_at, 3);
    let t = tpl2(Mnemonic::Shl, Category::Shift, IsaSet::I86, 7, 0x8c5, OpDesc::GrmV, OpDesc::ImplOne);
    assert(spec_group(GRP_2_EV_1, 4) == Entry::Ins(t));
    assert(spec_one_byte(0xd1u8) == Entry::Grp(GRP_2_EV_1));
    let s = spec_grp_witness(0xd1u8, 4u8);
    assert(s.len() == 2);
    assert(s[1] == 0x20u8);
    assert(spec_read(s, 1, 1) == Ok::<u64, DecodeError>(32));
    assert(spec_modrm_reg(0x20u8) == 4);
    let ctx = spec_ctx_from(MachineMode::Bits32, spec_no_prefixes());
    assert(t.modes == 7);
    assert(spec_mode_bit(MachineMode::Bits32) == 2);
    assert((7u8 / 2u8) % 2 == 1);
    assert(t.category != Category::Ud);
    assert(spec_check(ctx, t, 0xd1u8, 1) == Ok::<(Tmpl, u8, int), DecodeError>(
        (t, 0xd1u8, 1),
    ));
    assert(spec_resolve(s, ctx, Entry::Grp(GRP_2_EV_1), 0xd1u8, 1) == Ok::<
        (Tmpl, u8, int),
        DecodeError,
    >((t, 0xd1u8, 1)));
    lemma_witness_covers(s, MachineMode::Bits32, t, 0xd1u8, 0x20u8);
}

/// Witness coverage of group row 5 behind opcode `0xd1`.
#[verifier::rlimit(100)]
#[verifier::spinoff_prover]
proof fn lemma_grp_covered_d1_r5()
    ensures
        spec_group(GRP_2_EV_1, 5u8) matches Entry::Ins(t) ==> spec_covers(
            spec_grp_witness(0xd1u8, 5u8),
            MachineMode::Bits32,
            t,
        ),
{
    reveal_with_fuel(le_at, 3);
    let t = tpl2(Mnemonic::Shr, Category::Shift, IsaSet::I86, 7, 0x8c5, OpDesc::GrmV, OpDesc::ImplOne);
    assert(spec_group(GRP_2_EV_1, 5) == Entry::Ins(t));
    assert(spec_one_byte(0xd1u8) == Entry::Grp(GRP_2_EV_1));
    let s = spec_grp_witness(0xd1u8, 5u8);
    assert(s.len() == 2);
    assert(s[1] == 0x28u8);
    assert(spec_read(s, 1, 1) == Ok::<u64, DecodeError>(40));
    assert(spec_modrm_reg(0x28u8) == 5);
    let ctx = spec_ctx_from(MachineMode::Bits32, spec_no_prefixes());
    assert(t.modes == 7);
    assert(spec_mode_bit(MachineMode::Bits32) == 2);
    assert((7u8 / 2u8) % 2 == 1);
    assert(t.category != Category::Ud);
    assert(spec_check(ctx, t, 0xd1u8, 1) == Ok::<(Tmpl, u8, int), DecodeError>(
        (t, 0xd1u8, 1),
    ));
    assert(spec_resolve(s, ctx, Entry::Grp(GRP_2_EV_1), 0xd1u8, 1) == Ok::<
        (Tmpl, u8, int),
        DecodeError,
    >((t, 0xd1u8, 1)));
    lemma_witness_covers(s, MachineMode::Bits32, t, 0xd1u8, 0x28u8);
}

/// Witness coverage of group row 7 behind opcode `0xd1`.
#[verifier::rlimit(100)]
#[verifier::spinoff_prover]
proof fn lemma_grp_covered_d1_r7()
    ensures
        spec_group(GRP_2_EV_1, 7u8) matches Entry::Ins(t) ==> spec_covers(
            spec_grp_witness(0xd1u8, 7u8),
            MachineMode::Bits32,
            t,
        ),
{
    reveal_with_fuel(le_at, 3);
    let t = tpl2(Mnemonic::Sar, Category::Shift, IsaSet::I86, 7, 0x8c5, OpDesc::GrmV, OpDesc::ImplOne);
    assert(spec_group(GRP_2_EV_1, 7) == Entry::Ins(t));
    assert(spec_one_byte(0xd1u8) == Entry::Grp(GRP_2_EV_1));
    let s = spec_grp_witness(0xd1u8, 7u8);
    assert(s.len() == 2);
    assert(s[1] == 0x38u8);
    assert(spec_read(s, 1, 1) == Ok::<u64, DecodeError>(56));
    assert(spec_modrm_reg(0x38u8) == 7);
    let ctx = spec_ctx_from(MachineMode::Bits32, spec_no_prefixes());
    assert(t.modes == 7);
    assert(spec_mode_bit(MachineMode::Bits32) == 2);
    assert((7u8 / 2u8) % 2 == 1);
    assert(t.category != Category::Ud);
    assert(spec_check(ctx, t, 0xd1u8, 1) == Ok::<(Tmpl, u8, int), DecodeError>(
        (t, 0xd1u8, 1),
    ));
    assert(spec_resolve(s, ctx, Entry::Grp(GRP_2_EV_1), 0xd1u8, 1) == Ok::<
        (Tmpl, u8, int),
        DecodeError,
    >((t, 0xd1u8, 1)));
    lemma_witness_covers(s, MachineMode::Bits32, t, 0xd1u8, 0x38u8);
}

/// Witness coverage of the group rows behind opcode `0xd1`.
proof fn lemma_grp_covered_d1(reg: u8)
    requires
        reg < 8,
    ensures
        spec_group(GRP_2_EV_1, reg) matches Entry::Ins(t) ==> spec_covers(
            spec_grp_witness(0xd1u8, reg),
            MachineMode::Bits32,
            t,
        ),
{
    match reg {
        0u8 => lemma_grp_covered_d1_r0(),
        1u8 => lemma_grp_covered_d1_r1(),
        2u8 => lemma_grp_covered_d1_r2(),
        3u8 => lemma_grp_covered_d1_r3(),
        4u8 => lemma_grp_covered_d1_r4(),
        5u8 => lemma_grp_covered_d1_r5(),
        7u8 => lemma_grp_covered_d1_r7(),
        _ => {},
    }
}

/// Witness coverage of group row 0 behind opcode `0xd2`.
#[verifier::rlimit(100)]
#[verifier::spinoff_prover]
proof fn lemma_grp_covered_d2_r0()
    ensures
        spec_group(GRP_2_EB_CL, 0u8) matches Entry::Ins(t) ==> spec_covers(
            spec_grp_witness(0xd2u8, 0u8),
            MachineMode::Bits32,
            t,
        ),
{
    reveal_with_fuel(le_at, 3);
    let t = tpl2(Mnemonic::Rol, Category::Rotate, IsaSet::I86, 7, 0x801, OpDesc::GrmB, OpDesc::ICl);
    assert(spec_group(GRP_2_EB_CL, 0) == Entry::Ins(t));
    assert(spec_one_byte(0xd2u8) == Entry::Grp(GRP_2_EB_CL));
    let s = spec_grp_witness(0xd2u8, 0u8);
    assert(s.len() == 2);
    assert(s[1] == 0x00u8);
    assert(spec_read(s, 1, 1) == Ok::<u64, DecodeError>(0));
    assert(spec_modrm_reg(0x00u8) == 0);
    let ctx = spec_ctx_from(MachineMode::Bits32, spec_no_prefixes());
    assert(t.modes == 7);
    assert(spec_mode_bit(MachineMode::Bits32) == 2);
    assert((7u8 / 2u8) % 2 == 1);
    assert(t.category != Category::Ud);
    assert(spec_check(ctx, t, 0xd2u8, 1) == Ok::<(Tmpl, u8, int), DecodeError>(
        (t, 0xd2u8, 1),
    ));
    assert(spec_resolve(s, ctx, Entry::Grp(GRP_2_EB_CL), 0xd2u8, 1) == Ok::<
        (Tmpl, u8, int),
        DecodeError,
    >((t, 0xd2u8, 1)));
    lemma_witness_covers(s, MachineMode::Bits32, t, 0xd2u8, 0x00u8);
}

/// Witness coverage of group row 1 behind opcode `0xd2`.
#[verifier::rlimit(100)]
#[verifier::spinoff_prover]
proof fn lemma_grp_covered_d2_r1()
    ensures
        spec_group(GRP_2_EB_CL, 1u8) matches Entry::Ins(t) ==> spec_covers(
            spec_grp_witness(0xd2u8, 1u8),
            MachineMode::Bits32,
            t,
        ),
{
    reveal_with_fuel(le_at, 3);
    let t = tpl2(Mnemonic::Ror, Category::Rotate, IsaSet::I86, 7, 0x801, OpDesc::GrmB, OpDesc::ICl);
    assert(spec_group(GRP_2_EB_CL, 1) == Entry::Ins(t));
    assert(spec_one_byte(0xd2u8) == Entry::Grp(GRP_2_EB_CL));
    let s = spec_grp_witness(0xd2u8, 1u8);
    assert(s.len() == 2);
    assert(s[1] == 0x08u8);
    assert(spec_read(s, 1, 1) == Ok::<u64, DecodeError>(8));
    assert(spec_modrm_reg(0x08u8) == 1);
    let ctx = spec_ctx_from(MachineMode::Bits32, spec_no_prefixes());
    assert(t.modes == 7);
    assert(spec_mode_bit(MachineMode::Bits32) == 2);
    assert((7u8 / 2u8) % 2 == 1);
    assert(t.category != Category::Ud);
    assert(spec_check(ctx, t, 0xd2u8, 1) == Ok::<(Tmpl, u8, int), DecodeError>(
        (t, 0xd2u8, 1),
    ));
    assert(spec_resolve(s, ctx, Entry::Grp(GRP_2_EB_CL), 0xd2u8, 1) == Ok::<
        (Tmpl, u8, int),
        DecodeError,
    >((t, 0xd2u8, 1)));
    lemma_witness_covers(s, MachineMode::Bits32, t, 0xd2u8, 0x08u8);
}

/// Witness coverage of group row 2 behind opcode `0xd2`.
#[verifier::rlimit(100)]
#[verifier::spinoff_prover]
proof fn lemma_grp_covered_d2_r2()
    ensures
        spec_group(GRP_2_EB_CL, 2u8) matches Entry::Ins(t) ==> spec_covers(
            spec_grp_witness(0xd2u8, 2u8),
            MachineMode::Bits32,
            t,
        ),
{
    reveal_with_fuel(le_at, 3);
    let t = tpl2(Mnemonic::Rcl, Category::Rotate, IsaSet::I86, 7, 0x801, OpDesc::GrmB, OpDesc::ICl);
    assert(spec_group(GRP_2_EB_CL, 2) == Entry::Ins(t));
    assert(spec_one_byte(0xd2u8) == Entry::Grp(GRP_2_EB_CL));
    let s = spec_grp_witness(0xd2u8, 2u8);
    assert(s.len() == 2);
    assert(s[1] == 0x10u8);
    assert(spec_read(s, 1, 1) == Ok::<u64, DecodeError>(16));
    assert(spec_modrm_reg(0x10u8) == 2);
    let ctx = spec_ctx_from(MachineMode::Bits32, spec_no_prefixes());
    assert(t.modes == 7);
    assert(spec_mode_bit(MachineMode::Bits32) == 2);
    assert((7u8 / 2u8) % 2 == 1);
    assert(t.category != Category::Ud);
    assert(spec_check(ctx, t, 0xd2u8, 1) == Ok::<(Tmpl, u8, int), DecodeError>(
        (t, 0xd2u8, 1),
    ));
    assert(spec_resolve(s, ctx, Entry::Grp(GRP_2_EB_CL), 0xd2u8, 1) == Ok::<
        (Tmpl, u8, int),
        DecodeError,
    >((t, 0xd2u8, 1)));
    lemma_witness_covers(s, MachineMode::Bits32, t, 0xd2u8, 0x10u8);
}

/// Witness coverage of group row 3 behind opcode `0xd2`.
#[verifier::rlimit(100)]
#[verifier::spinoff_prover]
proof fn lemma_grp_covered_d2_r3()
    ensures
        spec_group(GRP_2_EB_CL, 3u8) matches Entry::Ins(t) ==> spec_covers(
            spec_grp_witness(0xd2u8, 3u8),
            MachineMode::Bits32,
            t,
        ),
{
    reveal_with_fuel(le_at, 3);
    let t = tpl2(Mnemonic::Rcr, Category::Rotate, IsaSet::I86, 7, 0x801, OpDesc::GrmB, OpDesc::ICl);
    assert(spec_group(GRP_2_EB_CL, 3) == Entry::Ins(t));
    assert(spec_one_byte(0xd2u8) == Entry::Grp(GRP_2_EB_CL));
    let s = spec_grp_witness(0xd2u8, 3u8);
    assert(s.len() == 2);
    assert(s[1] == 0x18u8);
    assert(spec_read(s, 1, 1) == Ok::<u64, DecodeError>(24));
    assert(spec_modrm_reg(0x18u8) == 3);
    let ctx = spec_ctx_from(MachineMode::Bits32, spec_no_prefixes());
    assert(t.modes == 7);
    assert(spec_mode_bit(MachineMode::Bits32) == 2);
    assert((7u8 / 2u8) % 2 == 1);
    assert(t.category != Category::Ud);
    assert(spec_check(ctx, t, 0xd2u8, 1) == Ok::<(Tmpl, u8, int), DecodeError>(
        (t, 0xd2u8, 1),
    ));
    assert(spec_resolve(s, ctx, Entry::Grp(GRP_2_EB_CL), 0xd2u8, 1) == Ok::<
        (Tmpl, u8, int),
        DecodeError,
    >((t, 0xd2u8, 1)));
    lemma_witness_covers(s, MachineMode::Bits32, t, 0xd2u8, 0x18u8);
}

/// Witness coverage of group row 4 behind opcode `0xd2`.
#[verifier::rlimit(100)]
#[verifier::spinoff_prover]
proof fn lemma_grp_covered_d2_r4()
    ensures
        spec_group(GRP_2_EB_CL, 4u8) matches Entry::Ins(t) ==> spec_covers(
            spec_grp_witness(0xd2u8, 4u8),
            MachineMode::Bits32,
            t,
        ),
{
    reveal_with_fuel(le_at, 3);
    let t = tpl2(Mnemonic::Shl, Category::Shift, IsaSet::I86, 7, 0x8c5, OpDesc::GrmB, OpDesc::ICl);
    assert(spec_group(GRP_2_EB_CL, 4) == Entry::Ins(t));
    assert(spec_one_byte(0xd2u8) == Entry::Grp(GRP_2_EB_CL));
    let s = spec_grp_witness(0xd2u8, 4u8);
    assert(s.len() == 2);
    assert(s[1] == 0x20u8);
    assert(spec_read(s, 1, 1) == Ok::<u64, DecodeError>(32));
    assert(spec_modrm_reg(0x20u8) == 4);
    let ctx = spec_ctx_from(MachineMode::Bits32, spec_no_prefixes());
    assert(t.modes == 7);
    assert(spec_mode_bit(MachineMode::Bits32) == 2);
    assert((7u8 / 2u8) % 2 == 1);
    assert(t.category != Category::Ud);
    assert(spec_check(ctx, t, 0xd2u8, 1) == Ok::<(Tmpl, u8, int), DecodeError>(
        (t, 0xd2u8, 1),
    ));
    assert(spec_resolve(s, ctx, Entry::Grp(GRP_2_EB_CL), 0xd2u8, 1) == Ok::<
        (Tmpl, u8, int),
        DecodeError,
    >((t, 0xd2u8, 1)));
    lemma_witness_covers(s, MachineMode::Bits32, t, 0xd2u8, 0x20u8);
}

/// Witness coverage of group row 5 behind opcode `0xd2`.
#[verifier::rlimit(100)]
#[verifier::spinoff_prover]
proof fn lemma_grp_covered_d2_r5()
    ensures
        spec_group(GRP_2_EB_CL, 5u8) matches Entry::Ins(t) ==> spec_covers(
            spec_grp_witness(0xd2u8, 5u8),
            MachineMode::Bits32,
            t,
        ),
{
    reveal_with_fuel(le_at, 3);
    let t = tpl2(Mnemonic::Shr, Category::Shift, IsaSet::I86, 7, 0x8c5, OpDesc::GrmB, OpDesc::ICl);
    assert(spec_group(GRP_2_EB_CL, 5) == Entry::Ins(t));
    assert(spec_one_byte(0xd2u8) == Entry::Grp(GRP_2_EB_CL));
    let s = spec_grp_witness(0xd2u8, 5u8);
    assert(s.len() == 2);
    assert(s[1] == 0x28u8);
    assert(spec_read(s, 1, 1) == Ok::<u64, DecodeError>(40));
    assert(spec_modrm_reg(0x28u8) == 5);
    let ctx = spec_ctx_from(MachineMode::Bits32, spec_no_prefixes());
    assert(t.modes == 7);
    assert(spec_mode_bit(MachineMode::Bits32) == 2);
    assert((7u8 / 2u8) % 2 == 1);
    assert(t.category != Category::Ud);
    assert(spec_check(ctx, t, 0xd2u8, 1) == Ok::<(Tmpl, u8, int), DecodeError>(
        (t, 0xd2u8, 1),
    ));
    assert(spec_resolve(s, ctx, Entry::Grp(GRP_2_EB_CL), 0xd2u8, 1) == Ok::<
        (Tmpl, u8, int),
        DecodeError,
    >((t, 0xd2u8, 1)));
    lemma_witness_covers(s, MachineMode::Bits32, t, 0xd2u8, 0x28u8);
}

/// Witness coverage of group row 7 behind opcode `0xd2`.
#[verifier::rlimit(100)]
#[verifier::spinoff_prover]
proof fn lemma_grp_covered_d2_r7()
    ensures
        spec_group(GRP_2_EB_CL, 7u8) matches Entry::Ins(t) ==> spec_covers(
            spec_grp_witness(0xd2u8, 7u8),
            MachineMode::Bits32,
            t,
        ),
{
    reveal_with_fuel(le_at, 3);
    let t = tpl2(Mnemonic::Sar, Category::Shift, IsaSet::I86, 7, 0x8c5, OpDesc::GrmB, OpDesc::ICl);
    assert(spec_group(GRP_2_EB_CL, 7) == Entry::Ins(t));
    assert(spec_one_byte(0xd2u8) == Entry::Grp(GRP_2_EB_CL));
    let s = spec_grp_witness(0xd2u8, 7u8);
    assert(s.len() == 2);
    assert(s[1] == 0x38u8);
    assert(spec_read(s, 1, 1) == Ok::<u64, DecodeError>(56));
    assert(spec_modrm_reg(0x38u8) == 7);
    let ctx = spec_ctx_from(MachineMode::Bits32, spec_no_prefixes());
    assert(t.modes == 7);
    assert(spec_mode_bit(MachineMode::Bits32) == 2);
    assert((7u8 / 2u8) % 2 == 1);
    assert(t.category != Category::Ud);
    assert(spec_check(ctx, t, 0xd2u8, 1) == Ok::<(Tmpl, u8, int), DecodeError>(
        (t, 0xd2u8, 1),
    ));
    assert(spec_resolve(s, ctx, Entry::Grp(GRP_2_EB_CL), 0xd2u8, 1) == Ok::<
        (Tmpl, u8, int),
        DecodeError,
    >((t, 0xd2u8, 1)));
    lemma_witness_covers(s, MachineMode::Bits32, t, 0xd2u8, 0x38u8);
}

/// Witness coverage of the group rows behind opcode `0xd2`.
proof fn lemma_grp_covered_d2(reg: u8)
    requires
        reg < 8,
    ensures
        spec_group(GRP_2_EB_CL, reg) matches Entry::Ins(t) ==> spec_covers(
            spec_grp_witness(0xd2u8, reg),
            MachineMode::Bits32,
            t,
        ),
{
    match reg {
        0u8 => lemma_grp_covered_d2_r0(),
        1u8 => lemma_grp_covered_d2_r1(),
        2u8 => lemma_grp_covered_d2_r2(),
        3u8 => lemma_grp_covered_d2_r3(),
        4u8 => lemma_grp_covered_d2_r4(),
        5u8 => lemma_grp_covered_d2_r5(),
        7u8 => lemma_grp_covered_d2_r7(),
        _ => {},
    }
}

/// Witness coverage of group row 0 behind opcode `0xd3`.
#[verifier::rlimit(100)]
#[verifier::spinoff_prover]
proof fn lemma_grp_covered_d3_r0()
    ensures
        spec_group(GRP_2_EV_CL, 0u8) matches Entry::Ins(t) ==> spec_covers(
            spec_grp_witness(0xd3u8, 0u8),
            MachineMode::Bits32,
            t,
        ),
{
    reveal_with_fuel(le_at, 3);
    let t = tpl2(Mnemonic::Rol, Category::Rotate, IsaSet::I86, 7, 0x801, OpDesc::GrmV, OpDesc::ICl);
    assert(spec_group(GRP_2_EV_CL, 0) == Entry::Ins(t));
    assert(spec_one_byte(0xd3u8) == Entry::Grp(GRP_2_EV_CL));
    let s = spec_grp_witness(0xd3u8, 0u8);
    assert(s.len() == 2);
    assert(s[1] == 0x00u8);
    assert(spec_read(s, 1, 1) == Ok::<u64, DecodeError>(0));
    assert(spec_modrm_reg(0x00u8) == 0);
    let ctx = spec_ctx_from(MachineMode::Bits32, spec_no_prefixes());
    assert(t.modes == 7);
    assert(spec_mode_bit(MachineMode::Bits32) == 2);
    assert((7u8 / 2u8) % 2 == 1);
    assert(t.category != Category::Ud);
    assert(spec_check(ctx, t, 0xd3u8, 1) == Ok::<(Tmpl, u8, int), DecodeError>(
        (t, 0xd3u8, 1),
    ));
    assert(spec_resolve(s, ctx, Entry::Grp(GRP_2_EV_CL), 0xd3u8, 1) == Ok::<
        (Tmpl, u8, int),
        DecodeError,
    >((t, 0xd3u8, 1)));
    lemma_witness_covers(s, MachineMode::Bits32, t, 0xd3u8, 0x00u8);
}

/// Witness coverage of group row 1 behind opcode `0xd3`.
#[verifier::rlimit(100)]
#[verifier::spinoff_prover]
proof fn lemma_grp_covered_d3_r1()
    ensures
        spec_group(GRP_2_EV_CL, 1u8) matches Entry::Ins(t) ==> spec_covers(
            spec_grp_witness(0xd3u8, 1u8),
            MachineMode::Bits32,
            t,
        ),
{
    reveal_with_fuel(le_at, 3);
    let t = tpl2(Mnemonic::Ror, Category::Rotate, IsaSet::I86, 7, 0x801, OpDesc::GrmV, OpDesc::ICl);
    assert(spec_group(GRP_2_EV_CL, 1) == Entry::Ins(t));
    assert(spec_one_byte(0xd3u8) == Entry::Grp(GRP_2_EV_CL));
    let s = spec_grp_witness(0xd3u8, 1u8);
    assert(s.len() == 2);
    assert(s[1] == 0x08u8);
    assert(spec_read(s, 1, 1) == Ok::<u64, DecodeError>(8));
    assert(spec_modrm_reg(0x08u8) == 1);
    let ctx = spec_ctx_from(MachineMode::Bits32, spec_no_prefixes());
    assert(t.modes == 7);
    assert(spec_mode_bit(MachineMode::Bits32) == 2);
    assert((7u8 / 2u8) % 2 == 1);
    assert(t.category != Category::Ud);
    assert(spec_check(ctx, t, 0xd3u8, 1) == Ok::<(Tmpl, u8, int), DecodeError>(
        (t, 0xd3u8, 1),
    ));
    assert(spec_resolve(s, ctx, Entry::Grp(GRP_2_EV_CL), 0xd3u8, 1) == Ok::<
        (Tmpl, u8, int),
        DecodeError,
    >((t, 0xd3u8, 1)));
    lemma_witness_covers(s, MachineMode::Bits32, t, 0xd3u8, 0x08u8);
}

/// Witness coverage of group row 2 behind opcode `0xd3`.
#[verifier::rlimit(100)]
#[verifier::spinoff_prover]
proof fn lemma_grp_covered_d3_r2()
    ensures
        spec_group(GRP_2_EV_CL, 2u8) matches Entry::Ins(t) ==> spec_covers(
            spec_grp_witness(0xd3u8, 2u8),
            MachineMode::Bits32,
            t,
        ),
{
    reveal_with_fuel(le_at, 3);
    let t = tpl2(Mnemonic::Rcl, Category::Rotate, IsaSet::I86, 7, 0x801, OpDesc::GrmV, OpDesc::ICl);
    assert(spec_group(GRP_2_EV_CL, 2) == Entry::Ins(t));
    assert(spec_one_byte(0xd3u8) == Entry::Grp(GRP_2_EV_CL));
    let s = spec_grp_witness(0xd3u8, 2u8);
    assert(s.len() == 2);
    assert(s[1] == 0x10u8);
    assert(spec_read(s, 1, 1) == Ok::<u64, DecodeError>(16));
    assert(spec_modrm_reg(0x10u8) == 2);
    let ctx = spec_ctx_from(MachineMode::Bits32, spec_no_prefixes());
    assert(t.modes == 7);
    assert(spec_mode_bit(MachineMode::Bits32) == 2);
    assert((7u8 / 2u8) % 2 == 1);
    assert(t.category != Category::Ud);
    assert(spec_check(ctx, t, 0xd3u8, 1) == Ok::<(Tmpl, u8, int), DecodeError>(
        (t, 0xd3u8, 1),
    ));
    assert(spec_resolve(s, ctx, Entry::Grp(GRP_2_EV_CL), 0xd3u8, 1) == Ok::<
        (Tmpl, u8, int),
        DecodeError,
    >((t, 0xd3u8, 1)));
    lemma_witness_covers(s, MachineMode::Bits32, t, 0xd3u8, 0x10u8);
}

/// Witness coverage of group row 3 behind opcode `0xd3`.
#[verifier::rlimit(100)]
#[verifier::spinoff_prover]
proof fn lemma_grp_covered_d3_r3()
    ensures
        spec_group(GRP_2_EV_CL, 3u8) matches Entry::Ins(t) ==> spec_covers(
            spec_grp_witness(0xd3u8, 3u8),
            MachineMode::Bits32,
            t,
        ),
{
    reveal_with_fuel(le_at, 3);
    let t = tpl2(Mnemonic::Rcr, Category::Rotate, IsaSet::I86, 7, 0x801, OpDesc::GrmV, OpDesc::ICl);
    assert(spec_group(GRP_2_EV_CL, 3) == Entry::Ins(t));
    assert(spec_one_byte(0xd3u8) == Entry::Grp(GRP_2_EV_CL));
    let s = spec_grp_witness(0xd3u8, 3u8);
    assert(s.len() == 2);
    assert(s[1] == 0x18u8);
    assert(spec_read(s, 1, 1) == Ok::<u64, DecodeError>(24));
    assert(spec_modrm_reg(0x18u8) == 3);
    let ctx = spec_ctx_from(MachineMode::Bits32, spec_no_prefixes());
    assert(t.modes == 7);
    assert(spec_mode_bit(MachineMode::Bits32) == 2);
    assert((7u8 / 2u8) % 2 == 1);
    assert(t.category != Category::Ud);
    assert(spec_check(ctx, t, 0xd3u8, 1) == Ok::<(Tmpl, u8, int), DecodeError>(
        (t, 0xd3u8, 1),
    ));
    assert(spec_resolve(s, ctx, Entry::Grp(GRP_2_EV_CL), 0xd3u8, 1) == Ok::<
        (Tmpl, u8, int),
        DecodeError,
    >((t, 0xd3u8, 1)));
    lemma_witness_covers(s, MachineMode::Bits32, t, 0xd3u8, 0x18u8);
}

/// Witness coverage of group row 4 behind opcode `0xd3`.
#[verifier::rlimit(100)]
#[verifier::spinoff_prover]
proof fn lemma_grp_covered_d3_r4()
    ensures
        spec_group(GRP_2_EV_CL, 4u8) matches Entry::Ins(t) ==> spec_covers(
            spec_grp_witness(0xd3u8, 4u8),
            MachineMode::Bits32,
            t,
        ),
{
    reveal_with_fuel(le_at, 3);
    let t = tpl2(Mnemonic::Shl, Category::Shift, IsaSet::I86, 7, 0x8c5, OpDesc::GrmV, OpDesc::ICl);
    assert(spec_group(GRP_2_EV_CL, 4) == Entry::Ins(t));
    assert(spec_one_byte(0xd3u8) == Entry::Grp(GRP_2_EV_CL));
    let s = spec_grp_witness(0xd3u8, 4u8);
    assert(s.len() == 2);
    assert(s[1] == 0x20u8);
    assert(spec_read(s, 1, 1) == Ok::<u64, DecodeError>(32));
    assert(spec_modrm_reg(0x20u8) == 4);
    let ctx = spec_ctx_from(MachineMode::Bits32, spec_no_prefixes());
    assert(t.modes == 7);
    assert(spec_mode_bit(MachineMode::Bits32) == 2);
    assert((7u8 / 2u8) % 2 == 1);
    assert(t.category != Category::Ud);
    assert(spec_check(ctx, t, 0xd3u8, 1) == Ok::<(Tmpl, u8, int), DecodeError>(
        (t, 0xd3u8, 1),
    ));
    assert(spec_resolve(s, ctx, Entry::Grp(GRP_2_EV_CL), 0xd3u8, 1) == Ok::<
        (Tmpl, u8, int),
        DecodeError,
    >((t, 0xd3u8, 1)));
    lemma_witness_covers(s, MachineMode::Bits32, t, 0xd3u8, 0x20u8);
}

/// Witness coverage of group row 5 behind opcode `0xd3`.
#[verifier::rlimit(100)]
#[verifier::spinoff_prover]
proof fn lemma_grp_covered_d3_r5()
    ensures
        spec_group(GRP_2_EV_CL, 5u8) matches Entry::Ins(t) ==> spec_covers(
            spec_grp_witness(0xd3u8, 5u8),
            MachineMode::Bits32,
            t,
        ),
{
    reveal_with_fuel(le_at, 3);
    let t = tpl2(Mnemonic::Shr, Category::Shift, IsaSet::I86, 7, 0x8c5, OpDesc::GrmV, OpDesc::ICl);
    assert(spec_group(GRP_2_EV_CL, 5) == Entry::Ins(t));
    assert(spec_one_byte(0xd3u8) == Entry::Grp(GRP_2_EV_CL));
    let s = spec_grp_witness(0xd3u8, 5u8);
    assert(s.len() == 2);
    assert(s[1] == 0x28u8);
    assert(spec_read(s, 1, 1) == Ok::<u64, DecodeError>(40));
    assert(spec_modrm_reg(0x28u8) == 5);
    let ctx = spec_ctx_from(MachineMode::Bits32, spec_no_prefixes());
    assert(t.modes == 7);
    assert(spec_mode_bit(MachineMode::Bits32) == 2);
    assert((7u8 / 2u8) % 2 == 1);
    assert(t.category != Category::Ud);
    assert(spec_check(ctx, t, 0xd3u8, 1) == Ok::<(Tmpl, u8, int), DecodeError>(
        (t, 0xd3u8, 1),
    ));
    assert(spec_resolve(s, ctx, Entry::Grp(GRP_2_EV_CL), 0xd3u8, 1) == Ok::<
        (Tmpl, u8, int),
        DecodeError,
    >((t, 0xd3u8, 1)));
    lemma_witness_covers(s, MachineMode::Bits32, t, 0xd3u8, 0x28u8);
}

/// Witness coverage of group row 7 behind opcode `0xd3`.
#[verifier::rlimit(100)]
#[verifier::spinoff_prover]
proof fn lemma_grp_covered_d3_r7()
    ensures
        spec_group(GRP_2_EV_CL, 7u8) matches Entry::Ins(t) ==> spec_covers(
            spec_grp_witness(0xd3u8, 7u8),
            MachineMode::Bits32,
            t,
        ),
{
    reveal_with_fuel(le_at, 3);
    let t = tpl2(Mnemonic::Sar, Category::Shift, IsaSet::I86, 7, 0x8c5, OpDesc::GrmV, OpDesc::ICl);
    assert(spec_group(GRP_2_EV_CL, 7) == Entry::Ins(t));
    assert(spec_one_byte(0xd3u8) == Entry::Grp(GRP_2_EV_CL));
    let s = spec_grp_witness(0xd3u8, 7u8);
    assert(s.len() == 2);
    assert(s[1] == 0x38u8);
    assert(spec_read(s, 1, 1) == Ok::<u64, DecodeError>(56));
    assert(spec_modrm_reg(0x38u8) == 7);
    let ctx = spec_ctx_from(MachineMode::Bits32, spec_no_prefixes());
    assert(t.modes == 7);
    assert(spec_mode_bit(MachineMode::Bits32) == 2);
    assert((7u8 / 2u8) % 2 == 1);
    assert(t.category != Category::Ud);
    assert(spec_check(ctx, t, 0xd3u8, 1) == Ok::<(Tmpl, u8, int), DecodeError>(
        (t, 0xd3u8, 1),
    ));
    assert(spec_resolve(s, ctx, Entry::Grp(GRP_2_EV_CL), 0xd3u8, 1) == Ok::<
        (Tmpl, u8, int),
        DecodeError,
    >((t, 0xd3u8, 1)));
    lemma_witness_covers(s, MachineMode::Bits32, t, 0xd3u8, 0x38u8);
}

/// Witness coverage of the group rows behind opcode `0xd3`.
proof fn lemma_grp_covered_d3(reg: u8)
    requires
        reg < 8,
    ensures
        spec_group(GRP_2_EV_CL, reg) matches Entry::Ins(t) ==> spec_covers(
            spec_grp_witness(0xd3u8, reg),
            MachineMode::Bits32,
            t,
        ),
{
    match reg {
        0u8 => lemma_grp_covered_d3_r0(),
        1u8 => lemma_grp_covered_d3_r1(),
        2u8 => lemma_grp_covered_d3_r2(),
        3u8 => lemma_grp_covered_d3_r3(),
        4u8 => lemma_grp_covered_d3_r4(),
        5u8 => lemma_grp_covered_d3_r5(),
        7u8 => lemma_grp_covered_d3_r7(),
        _ => {},
    }
}

/// Witness coverage of group row 0 behind opcode `0xf6`.
#[verifier::rlimit(100)]
#[verifier::spinoff_prover]
proof fn lemma_grp_covered_f6_r0()
    ensures
        spec_group(GRP_3_EB, 0u8) matches Entry::Ins(t) ==> spec_covers(
            spec_grp_witness(0xf6u8, 0u8),
            MachineMode::Bits32,
            t,
        ),
{
    reveal_with_fuel(le_at, 3);
    let t = tpl2(Mnemonic::Test, Category::Logical, IsaSet::I86, 7, 0x8c5, OpDesc::GrmB, OpDesc::ImmB);
    assert(spec_group(GRP_3_EB, 0) == Entry::Ins(t));
    assert(spec_one_byte(0xf6u8) == Entry::Grp(GRP_3_EB));
    let s = spec_grp_witness(0xf6u8, 0u8);
    assert(s.len() == 3);
    assert(s[1] == 0x00u8);
    assert(spec_read(s, 1, 1) == Ok::<u64, DecodeError>(0));
    assert(spec_modrm_reg(0x00u8) == 0);
    let ctx = spec_ctx_from(MachineMode::Bits32, spec_no_prefixes());
    assert(t.modes == 7);
    assert(spec_mode_bit(MachineMode::Bits32) == 2);
    assert((7u8 / 2u8) % 2 == 1);
    assert(t.category != Category::Ud);
    assert(spec_check(ctx, t, 0xf6u8, 1) == Ok::<(Tmpl, u8, int), DecodeError>(
        (t, 0xf6u8, 1),
    ));
    assert(spec_resolve(s, ctx, Entry::Grp(GRP_3_EB), 0xf6u8, 1) == Ok::<
        (Tmpl, u8, int),
        DecodeError,
    >((t, 0xf6u8, 1)));
    lemma_witness_covers(s, MachineMode::Bits32, t, 0xf6u8, 0x00u8);
}

/// Witness coverage of group row 1 behind opcode `0xf6`.
#[verifier::rlimit(100)]
#[verifier::spinoff_prover]
proof fn lemma_grp_covered_f6_r1()
    ensures
        spec_group(GRP_3_EB, 1u8) matches Entry::Ins(t) ==> spec_covers(
            spec_grp_witness(0xf6u8, 1u8),
            MachineMode::Bits32,
            t,
        ),
{
    reveal_with_fuel(le_at, 3);
    let t = tpl2(Mnemonic::Test, Category::Logical, IsaSet::I86, 7, 0x8c5, OpDesc::GrmB, OpDesc::ImmB);
    assert(spec_group(GRP_3_EB, 1) == Entry::Ins(t));
    assert(spec_one_byte(0xf6u8) == Entry::Grp(GRP_3_EB));
    let s = spec_grp_witness(0xf6u8, 1u8);
    assert(s.len() == 3);
    assert(s[1] == 0x08u8);
    assert(spec_read(s, 1, 1) == Ok::<u64, DecodeError>(8));
    assert(spec_modrm_reg(0x08u8) == 1);
    let ctx = spec_ctx_from(MachineMode::Bits32, spec_no_prefixes());
    assert(t.modes == 7);
    assert(spec_mode_bit(MachineMode::Bits32) == 2);
    assert((7u8 / 2u8) % 2 == 1);
    assert(t.category != Category::Ud);
    assert(spec_check(ctx, t, 0xf6u8, 1) == Ok::<(Tmpl, u8, int), DecodeError>(
        (t, 0xf6u8, 1),
    ));
    assert(spec_resolve(s, ctx, Entry::Grp(GRP_3_EB), 0xf6u8, 1) == Ok::<
        (Tmpl, u8, int),
        DecodeError,
    >((t, 0xf6u8, 1)));
    lemma_witness_covers(s, MachineMode::Bits32, t, 0xf6u8, 0x08u8);
}

/// Witness coverage of group row 2 behind opcode `0xf6`.
#[verifier::rlimit(100)]
#[verifier::spinoff_prover]
proof fn lemma_grp_covered_f6_r2()
    ensures
        spec_group(GRP_3_EB, 2u8) matches Entry::Ins(t) ==> spec_covers(
            spec_grp_witness(0xf6u8, 2u8),
            MachineMode::Bits32,
            t,
        ),
{
    reveal_with_fuel(le_at, 3);
    let t = tpl1(Mnemonic::Not, Category::Logical, IsaSet::I86, 7, 0x0, OpDesc::GrmB);
    assert(spec_group(GRP_3_EB, 2) == Entry::Ins(t));
    assert(spec_one_byte(0xf6u8) == Entry::Grp(GRP_3_EB));
    let s = spec_grp_witness(0xf6u8, 2u8);
    assert(s.len() == 2);
    assert(s[1] == 0x10u8);
    assert(spec_read(s, 1, 1) == Ok::<u64, DecodeError>(16));
    assert(spec_modrm_reg(0x10u8) == 2);
    let ctx = spec_ctx_from(MachineMode::Bits32, spec_no_prefixes());
    assert(t.modes == 7);
    assert(spec_mode_bit(MachineMode::Bits32) == 2);
    assert((7u8 / 2u8) % 2 == 1);
    assert(t.category != Category::Ud);
    assert(spec_check(ctx, t, 0xf6u8, 1) == Ok::<(Tmpl, u8, int), DecodeError>(
        (t, 0xf6u8, 1),
    ));
    assert(spec_resolve(s, ctx, Entry::Grp(GRP_3_EB), 0xf6u8, 1) == Ok::<
        (Tmpl, u8, int),
        DecodeError,
    >((t, 0xf6u8, 1)));
    lemma_witness_covers(s, MachineMode::Bits32, t, 0xf6u8, 0x10u8);
}

/// Witness coverage of group row 3 behind opcode `0xf6`.
#[verifier::rlimit(100)]
#[verifier::spinoff_prover]
proof fn lemma_grp_covered_f6_r3()
    ensures
        spec_group(GRP_3_EB, 3u8) matches Entry::Ins(t) ==> spec_covers(
            spec_grp_witness(0xf6u8, 3u8),
            MachineMode::Bits32,
            t,
        ),
{
    reveal_with_fuel(le_at, 3);
    let t = tpl1(Mnemonic::Neg, Category::Arith, IsaSet::I86, 7, 0x8d5, OpDesc::GrmB);
    assert(spec_group(GRP_3_EB, 3) == Entry::Ins(t));
    assert(spec_one_byte(0xf6u8) == Entry::Grp(GRP_3_EB));
    let s = spec_grp_witness(0xf6u8, 3u8);
    assert(s.len() == 2);
    assert(s[1] == 0x18u8);
    assert(spec_read(s, 1, 1) == Ok::<u64, DecodeError>(24));
    assert(spec_modrm_reg(0x18u8) == 3);
    let ctx = spec_ctx_from(MachineMode::Bits32, spec_no_prefixes());
    assert(t.modes == 7);
    assert(spec_mode_bit(MachineMode::Bits32) == 2);
    assert((7u8 / 2u8) % 2 == 1);
    assert(t.category != Category::Ud);
    assert(spec_check(ctx, t, 0xf6u8, 1) == Ok::<(Tmpl, u8, int), DecodeError>(
        (t, 0xf6u8, 1),
    ));
    assert(spec_resolve(s, ctx, Entry::Grp(GRP_3_EB), 0xf6u8, 1) == Ok::<
        (Tmpl, u8, int),
        DecodeError,
    >((t, 0xf6u8, 1)));
    lemma_witness_covers(s, MachineMode::Bits32, t, 0xf6u8, 0x18u8);
}

/// Witness coverage of group row 4 behind opcode `0xf6`.
#[verifier::rlimit(100)]
#[verifier::spinoff_prover]
proof fn lemma_grp_covered_f6_r4()
    ensures
        spec_group(GRP_3_EB, 4u8) matches Entry::Ins(t) ==> spec_covers(
            spec_grp_witness(0xf6u8, 4u8),
            MachineMode::Bits32,
            t,
        ),
{
    reveal_with_fuel(le_at, 3);
    let t = tpl1(Mnemonic::Mul, Category::Arith, IsaSet::I86, 7, 0x801, OpDesc::GrmB);
    assert(spec_group(GRP_3_EB, 4) == Entry::Ins(t));
    assert(spec_one_byte(0xf6u8) == Entry::Grp(GRP_3_EB));
    let s = spec_grp_witness(0xf6u8, 4u8);
    assert(s.len() == 2);
    assert(s[1] == 0x20u8);
    assert(spec_read(s, 1, 1) == Ok::<u64, DecodeError>(32));
    assert(spec_modrm_reg(0x20u8) == 4);
    let ctx = spec_ctx_from(MachineMode::Bits32, spec_no_prefixes());
    assert(t.modes == 7);
    assert(spec_mode_bit(MachineMode::Bits32) == 2);
    assert((7u8 / 2u8) % 2 == 1);
    assert(t.category != Category::Ud);
    assert(spec_check(ctx, t, 0xf6u8, 1) == Ok::<(Tmpl, u8, int), DecodeError>(
        (t, 0xf6u8, 1),
    ));
    assert(spec_resolve(s, ctx, Entry::Grp(GRP_3_EB), 0xf6u8, 1) == Ok::<
        (Tmpl, u8, int),
        DecodeError,
    >((t, 0xf6u8, 1)));
    lemma_witness_covers(s, MachineMode::Bits32, t, 0xf6u8, 0x20u8);
}

/// Witness coverage of group row 5 behind opcode `0xf6`.
#[verifier::rlimit(100)]
#[verifier::spinoff_prover]
proof fn lemma_grp_covered_f6_r5()
    ensures
        spec_group(GRP_3_EB, 5u8) matches Entry::Ins(t) ==> spec_covers(
            spec_grp_witness(0xf6u8, 5u8),
            MachineMode::Bits32,
            t,
        ),
{
    reveal_with_fuel(le_at, 3);
    let t = tpl1(Mnemonic::Imul, Category::Arith, IsaSet::I86, 7, 0x801, OpDesc::GrmB);
    assert(spec_group(GRP_3_EB, 5) == Entry::Ins(t));
    assert(spec_one_byte(0xf6u8) == Entry::Grp(GRP_3_EB));
    let s = spec_grp_witness(0xf6u8, 5u8);
    assert(s.len() == 2);
    assert(s[1] == 0x28u8);
    assert(spec_read(s, 1, 1) == Ok::<u64, DecodeError>(40));
    assert(spec_modrm_reg(0x28u8) == 5);
    let ctx = spec_ctx_from(MachineMode::Bits32, spec_no_prefixes());
    assert(t.modes == 7);
    assert(spec_mode_bit(MachineMode::Bits32) == 2);
    assert((7u8 / 2u8) % 2 == 1);
    assert(t.category != Category::Ud);
    assert(spec_check(ctx, t, 0xf6u8, 1) == Ok::<(Tmpl, u8, int), DecodeError>(
        (t, 0xf6u8, 1),
    ));
    assert(spec_resolve(s, ctx, Entry::Grp(GRP_3_EB), 0xf6u8, 1) == Ok::<
        (Tmpl, u8, int),
        DecodeError,
    >((t, 0xf6u8, 1)));
    lemma_witness_covers(s, MachineMode::Bits32, t, 0xf6u8, 0x28u8);
}

/// Witness coverage of group row 6 behind opcode `0xf6`.
#[verifier::rlimit(100)]
#[verifier::spinoff_prover]
proof fn lemma_grp_covered_f6_r6()
    ensures
        spec_group(GRP_3_EB, 6u8) matches Entry::Ins(t) ==> spec_covers(
            spec_grp_witness(0xf6u8, 6u8),
            MachineMode::Bits32,
            t,
        ),
{
    reveal_with_fuel(le_at, 3);
    let t = tpl1(Mnemonic::Div, Category::Arith, IsaSet::I86, 7, 0x0, OpDesc::GrmB);
    assert(spec_group(GRP_3_EB, 6) == Entry::Ins(t));
    assert(spec_one_byte(0xf6u8) == Entry::Grp(GRP_3_EB));
    let s = spec_grp_witness(0xf6u8, 6u8);
    assert(s.len() == 2);
    assert(s[1] == 0x30u8);
    assert(spec_read(s, 1, 1) == Ok::<u64, DecodeError>(48));
    assert(spec_modrm_reg(0x30u8) == 6);
    let ctx = spec_ctx_from(MachineMode::Bits32, spec_no_prefixes());
    assert(t.modes == 7);
    assert(spec_mode_bit(MachineMode::Bits32) == 2);
    assert((7u8 / 2u8) % 2 == 1);
    assert(t.category != Category::Ud);
    assert(spec_check(ctx, t, 0xf6u8, 1) == Ok::<(Tmpl, u8, int), DecodeError>(
        (t, 0xf6u8, 1),
    ));
    assert(spec_resolve(s, ctx, Entry::Grp(GRP_3_EB), 0xf6u8, 1) == Ok::<
        (Tmpl, u8, int),
        DecodeError,
    >((t, 0xf6u8, 1)));
    lemma_witness_covers(s, MachineMode::Bits32, t, 0xf6u8, 0x30u8);
}

/// Witness coverage of group row 7 behind opcode `0xf6`.
#[verifier::rlimit(100)]
#[verifier::spinoff_prover]
proof fn lemma_grp_covered_f6_r7()
    ensures
        spec_group(GRP_3_EB, 7u8) matches Entry::Ins(t) ==> spec_covers(
            spec_grp_witness(0xf6u8, 7u8),
            MachineMode::Bits32,
            t,
        ),
{
    reveal_with_fuel(le_at, 3);
    let t = tpl1(Mnemonic::Idiv, Category::Arith, IsaSet::I86, 7, 0x0, OpDesc::GrmB);
    assert(spec_group(GRP_3_EB, 7) == Entry::Ins(t));
    assert(spec_one_byte(0xf6u8) == Entry::Grp(GRP_3_EB));
    let s = spec_grp_witness(0xf6u8, 7u8);
    assert(s.len() == 2);
    assert(s[1] == 0x38u8);
    assert(spec_read(s, 1, 1) == Ok::<u64, DecodeError>(56));
    assert(spec_modrm_reg(0x38u8) == 7);
    let ctx = spec_ctx_from(MachineMode::Bits32, spec_no_prefixes());
    assert(t.modes == 7);
    assert(spec_mode_bit(MachineMode::Bits32) == 2);
    assert((7u8 / 2u8) % 2 == 1);
    assert(t.category != Category::Ud);
    assert(spec_check(ctx, t, 0xf6u8, 1) == Ok::<(Tmpl, u8, int), DecodeError>(
        (t, 0xf6u8, 1),
    ));
    assert(spec_resolve(s, ctx, Entry::Grp(GRP_3_EB), 0xf6u8, 1) == Ok::<
        (Tmpl, u8, int),
        DecodeError,
    >((t, 0xf6u8, 1)));
    lemma_witness_covers(s, MachineMode::Bits32, t, 0xf6u8, 0x38u8);
}

/// Witness coverage of the group rows behind opcode `0xf6`.
proof fn lemma_grp_covered_f6(reg: u8)
    requires
        reg < 8,
    ensures
        spec_group(GRP_3_EB, reg) matches Entry::Ins(t) ==> spec_covers(
            spec_grp_witness(0xf6u8, reg),
            MachineMode::Bits32,
            t,
        ),
{
    match reg {
        0u8 => lemma_grp_covered_f6_r0(),
        1u8 => lemma_grp_covered_f6_r1(),
        2u8 => lemma_grp_covered_f6_r2(),
        3u8 => lemma_grp_covered_f6_r3(),
        4u8 => lemma_grp_covered_f6_r4(),
        5u8 => lemma_grp_covered_f6_r5(),
        6u8 => lemma_grp_covered_f6_r6(),
        7u8 => lemma_grp_covered_f6_r7(),
        _ => {},
    }
}

/// Witness coverage of group row 0 behind opcode `0xf7`.
#[verifier::rlimit(100)]
#[verifier::spinoff_prover]
proof fn lemma_grp_covered_f7_r0()
    ensures
        spec_group(GRP_3_EV, 0u8) matches Entry::Ins(t) ==> spec_covers(
            spec_grp_witness(0xf7u8, 0u8),
            MachineMode::Bits32,
            t,
        ),
{
    reveal_with_fuel(le_at, 3);
    let t = tpl2(Mnemonic::Test, Category::Logical, IsaSet::I86, 7, 0x8c5, OpDesc::GrmV, OpDesc::ImmZ);
    assert(spec_group(GRP_3_EV, 0) == Entry::Ins(t));
    assert(spec_one_byte(0xf7u8) == Entry::Grp(GRP_3_EV));
    let s = spec_grp_witness(0xf7u8, 0u8);
    assert(s.len() == 6);
    assert(s[1] == 0x00u8);
    assert(spec_read(s, 1, 1) == Ok::<u64, DecodeError>(0));
    assert(spec_modrm_reg(0x00u8) == 0);
    let ctx = spec_ctx_from(MachineMode::Bits32, spec_no_prefixes());
    assert(t.modes == 7);
    assert(spec_mode_bit(MachineMode::Bits32) == 2);
    assert((7u8 / 2u8) % 2 == 1);
    assert(t.category != Category::Ud);
    assert(spec_check(ctx, t, 0xf7u8, 1) == Ok::<(Tmpl, u8, int), DecodeError>(
        (t, 0xf7u8, 1),
    ));
    assert(spec_resolve(s, ctx, Entry::Grp(GRP_3_EV), 0xf7u8, 1) == Ok::<
        (Tmpl, u8, int),
        DecodeError,
    >((t, 0xf7u8, 1)));
    lemma_witness_covers(s, MachineMode::Bits32, t, 0xf7u8, 0x00u8);
}

/// Witness coverage of group row 1 behind opcode `0xf7`.
#[verifier::rlimit(100)]
#[verifier::spinoff_prover]
proof fn lemma_grp_covered_f7_r1()
    ensures
        spec_group(GRP_3_EV, 1u8) matches Entry::Ins(t) ==> spec_covers(
            spec_grp_witness(0xf7u8, 1u8),
            MachineMode::Bits32,
            t,
        ),
{
    reveal_with_fuel(le_at, 3);
    let t = tpl2(Mnemonic::Test, Category::Logical, IsaSet::I86, 7, 0x8c5, OpDesc::GrmV, OpDesc::ImmZ);
    assert(spec_group(GRP_3_EV, 1) == Entry::Ins(t));
    assert(spec_one_byte(0xf7u8) == Entry::Grp(GRP_3_EV));
    let s = spec_grp_witness(0xf7u8, 1u8);
    assert(s.len() == 6);
    assert(s[1] == 0x08u8);
    assert(spec_read(s, 1, 1) == Ok::<u64, DecodeError>(8));
    assert(spec_modrm_reg(0x08u8) == 1);
    let ctx = spec_ctx_from(MachineMode::Bits32, spec_no_prefixes());
    assert(t.modes == 7);
    assert(spec_mode_bit(MachineMode::Bits32) == 2);
    assert((7u8 / 2u8) % 2 == 1);
    assert(t.category != Category::Ud);
    assert(spec_check(ctx, t, 0xf7u8, 1) == Ok::<(Tmpl, u8, int), DecodeError>(
        (t, 0xf7u8, 1),
    ));
    assert(spec_resolve(s, ctx, Entry::Grp(GRP_3_EV), 0xf7u8, 1) == Ok::<
        (Tmpl, u8, int),
        DecodeError,
    >((t, 0xf7u8, 1)));
    lemma_witness_covers(s, MachineMode::Bits32, t, 0xf7u8, 0x08u8);
}

/// Witness coverage of group row 2 behind opcode `0xf7`.
#[verifier::rlimit(100)]
#[verifier::spinoff_prover]
proof fn lemma_grp_covered_f7_r2()
    ensures
        spec_group(GRP_3_EV, 2u8) matches Entry::Ins(t) ==> spec_covers(
            spec_grp_witness(0xf7u8, 2u8),
            MachineMode::Bits32,
            t,
        ),
{
    reveal_with_fuel(le_at, 3);
    let t = tpl1(Mnemonic::Not, Category::Logical, IsaSet::I86, 7, 0x0, OpDesc::GrmV);
    assert(spec_group(GRP_3_EV, 2) == Entry::Ins(t));
    assert(spec_one_byte(0xf7u8) == Entry::Grp(GRP_3_EV));
    let s = spec_grp_witness(0xf7u8, 2u8);
    assert(s.len() == 2);
    assert(s[1] == 0x10u8);
    assert(spec_read(s, 1, 1) == Ok::<u64, DecodeError>(16));
    assert(spec_modrm_reg(0x10u8) == 2);
    let ctx = spec_ctx_from(MachineMode::Bits32, spec_no_prefixes());
    assert(t.modes == 7);
    assert(spec_mode_bit(MachineMode::Bits32) == 2);
    assert((7u8 / 2u8) % 2 == 1);
    assert(t.category != Category::Ud);
    assert(spec_check(ctx, t, 0xf7u8, 1) == Ok::<(Tmpl, u8, int), DecodeError>(
        (t, 0xf7u8, 1),
    ));
    assert(spec_resolve(s, ctx, Entry::Grp(GRP_3_EV), 0xf7u8, 1) == Ok::<
        (Tmpl, u8, int),
        DecodeError,
    >((t, 0xf7u8, 1)));
    lemma_witness_covers(s, MachineMode::Bits32, t, 0xf7u8, 0x10u8);
}

/// Witness coverage of group row 3 behind opcode `0xf7`.
#[verifier::rlimit(100)]
#[verifier::spinoff_prover]
proof fn lemma_grp_covered_f7_r3()
    ensures
        spec_group(GRP_3_EV, 3u8) matches Entry::Ins(t) ==> spec_covers(
            spec_grp_witness(0xf7u8, 3u8),
            MachineMode::Bits32,
            t,
        ),
{
    reveal_with_fuel(le_at, 3);
    let t = tpl1(Mnemonic::Neg, Category::Arith, IsaSet::I86, 7, 0x8d5, OpDesc::GrmV);
    assert(spec_group(GRP_3_EV, 3) == Entry::Ins(t));
    assert(spec_one_byte(0xf7u8) == Entry::Grp(GRP_3_EV));
    let s = spec_grp_witness(0xf7u8, 3u8);
    assert(s.len() == 2);
    assert(s[1] == 0x18u8);
    assert(spec_read(s, 1, 1) == Ok::<u64, DecodeError>(24));
    assert(spec_modrm_reg(0x18u8) == 3);
    let ctx = spec_ctx_from(MachineMode::Bits32, spec_no_prefixes());
    assert(t.modes == 7);
    assert(spec_mode_bit(MachineMode::Bits32) == 2);
    assert((7u8 / 2u8) % 2 == 1);
    assert(t.category != Category::Ud);
    assert(spec_check(ctx, t, 0xf7u8, 1) == Ok::<(Tmpl, u8, int), DecodeError>(
        (t, 0xf7u8, 1),
    ));
    assert(spec_resolve(s, ctx, Entry::Grp(GRP_3_EV), 0xf7u8, 1) == Ok::<
        (Tmpl, u8, int),
        DecodeError,
    >((t, 0xf7u8, 1)));
    lemma_witness_covers(s, MachineMode::Bits32, t, 0xf7u8, 0x18u8);
}

/// Witness coverage of group row 4 behind opcode `0xf7`.
#[verifier::rlimit(100)]
#[verifier::spinoff_prover]
proof fn lemma_grp_covered_f7_r4()
    ensures
        spec_group(GRP_3_EV, 4u8) matches Entry::Ins(t) ==> spec_covers(
            spec_grp_witness(0xf7u8, 4u8),
            MachineMode::Bits32,
            t,
        ),
{
    reveal_with_fuel(le_at, 3);
    let t = tpl1(Mnemonic::Mul, Category::Arith, IsaSet::I86, 7, 0x801, OpDesc::GrmV);
    assert(spec_group(GRP_3_EV, 4) == Entry::Ins(t));
    assert(spec_one_byte(0xf7u8) == Entry::Grp(GRP_3_EV));
    let s = spec_grp_witness(0xf7u8, 4u8);
    assert(s.len() == 2);
    assert(s[1] == 0x20u8);
    assert(spec_read(s, 1, 1) == Ok::<u64, DecodeError>(32));
    assert(spec_modrm_reg(0x20u8) == 4);
    let ctx = spec_ctx_from(MachineMode::Bits32, spec_no_prefixes());
    assert(t.modes == 7);
    assert(spec_mode_bit(MachineMode::Bits32) == 2);
    assert((7u8 / 2u8) % 2 == 1);
    assert(t.category != Category::Ud);
    assert(spec_check(ctx, t, 0xf7u8, 1) == Ok::<(Tmpl, u8, int), DecodeError>(
        (t, 0xf7u8, 1),
    ));
    assert(spec_resolve(s, ctx, Entry::Grp(GRP_3_EV), 0xf7u8, 1) == Ok::<
        (Tmpl, u8, int),
        DecodeError,
    >((t, 0xf7u8, 1)));
    lemma_witness_covers(s, MachineMode::Bits32, t, 0xf7u8, 0x20u8);
}

/// Witness coverage of group row 5 behind opcode `0xf7`.
#[verifier::rlimit(100)]
#[verifier::spinoff_prover]
proof fn lemma_grp_covered_f7_r5()
    ensures
        spec_group(GRP_3_EV, 5u8) matches Entry::Ins(t) ==> spec_covers(
            spec_grp_witness(0xf7u8, 5u8),
            MachineMode::Bits32,
            t,
        ),
{
    reveal_with_fuel(le_at, 3);
    let t = tpl1(Mnemonic::Imul, Category::Arith, IsaSet::I86, 7, 0x801, OpDesc::GrmV);
    assert(spec_group(GRP_3_EV, 5) == Entry::Ins(t));
    assert(spec_one_byte(0xf7u8) == Entry::Grp(GRP_3_EV));
    let s = spec_grp_witness(0xf7u8, 5u8);
    assert(s.len() == 2);
    assert(s[1] == 0x28u8);
    assert(spec_read(s, 1, 1) == Ok::<u64, DecodeError>(40));
    assert(spec_modrm_reg(0x28u8) == 5);
    let ctx = spec_ctx_from(MachineMode::Bits32, spec_no_prefixes());
    assert(t.modes == 7);
    assert(spec_mode_bit(MachineMode::Bits32) == 2);
    assert((7u8 / 2u8) % 2 == 1);
    assert(t.category != Category::Ud);
    assert(spec_check(ctx, t, 0xf7u8, 1) == Ok::<(Tmpl, u8, int), DecodeError>(
        (t, 0xf7u8, 1),
    ));
    assert(spec_resolve(s, ctx, Entry::Grp(GRP_3_EV), 0xf7u8, 1) == Ok::<
        (Tmpl, u8, int),
        DecodeError,
    >((t, 0xf7u8, 1)));
    lemma_witness_covers(s, MachineMode::Bits32, t, 0xf7u8, 0x28u8);
}

/// Witness coverage of group row 6 behind opcode `0xf7`.
#[verifier::rlimit(100)]
#[verifier::spinoff_prover]
proof fn lemma_grp_covered_f7_r6()
    ensures
        spec_group(GRP_3_EV, 6u8) matches Entry::Ins(t) ==> spec_covers(
            spec_grp_witness(0xf7u8, 6u8),
            MachineMode::Bits32,
            t,
        ),
{
    reveal_with_fuel(le_at, 3);
    let t = tpl1(Mnemonic::Div, Category::Arith, IsaSet::I86, 7, 0x0, OpDesc::GrmV);
    assert(spec_group(GRP_3_EV, 6) == Entry::Ins(t));
    assert(spec_one_byte(0xf7u8) == Entry::Grp(GRP_3_EV));
    let s = spec_grp_witness(0xf7u8, 6u8);
    assert(s.len() == 2);
    assert(s[1] == 0x30u8);
    assert(spec_read(s, 1, 1) == Ok::<u64, DecodeError>(48));
    assert(spec_modrm_reg(0x30u8) == 6);
    let ctx = spec_ctx_from(MachineMode::Bits32, spec_no_prefixes());
    assert(t.modes == 7);
    assert(spec_mode_bit(MachineMode::Bits32) == 2);
    assert((7u8 / 2u8) % 2 == 1);
    assert(t.category != Category::Ud);
    assert(spec_check(ctx, t, 0xf7u8, 1) == Ok::<(Tmpl, u8, int), DecodeError>(
        (t, 0xf7u8, 1),
    ));
    assert(spec_resolve(s, ctx, Entry::Grp(GRP_3_EV), 0xf7u8, 1) == Ok::<
        (Tmpl, u8, int),
        DecodeError,
    >((t, 0xf7u8, 1)));
    lemma_witness_covers(s, MachineMode::Bits32, t, 0xf7u8, 0x30u8);
}

/// Witness coverage of group row 7 behind opcode `0xf7`.
#[verifier::rlimit(100)]
#[verifier::spinoff_prover]
proof fn lemma_grp_covered_f7_r7()
    ensures
        spec_group(GRP_3_EV, 7u8) matches Entry::Ins(t) ==> spec_covers(
            spec_grp_witness(0xf7u8, 7u8),
            MachineMode::Bits32,
            t,
        ),
{
    reveal_with_fuel(le_at, 3);
    let t = tpl1(Mnemonic::Idiv, Category::Arith, IsaSet::I86, 7, 0x0, OpDesc::GrmV);
    assert(spec_group(GRP_3_EV, 7) == Entry::Ins(t));
    assert(spec_one_byte(0xf7u8) == Entry::Grp(GRP_3_EV));
    let s = spec_grp_witness(0xf7u8, 7u8);
    assert(s.len() == 2);
    assert(s[1] == 0x38u8);
    assert(spec_read(s, 1, 1) == Ok::<u64, DecodeError>(56));
    assert(spec_modrm_reg(0x38u8) == 7);
    let ctx = spec_ctx_from(MachineMode::Bits32, spec_no_prefixes());
    assert(t.modes == 7);
    assert(spec_mode_bit(MachineMode::Bits32) == 2);
    assert((7u8 / 2u8) % 2 == 1);
    assert(t.category != Category::Ud);
    assert(spec_check(ctx, t, 0xf7u8, 1) == Ok::<(Tmpl, u8, int), DecodeError>(
        (t, 0xf7u8, 1),
    ));
    assert(spec_resolve(s, ctx, Entry::Grp(GRP_3_EV), 0xf7u8, 1) == Ok::<
        (Tmpl, u8, int),
        DecodeError,
    >((t, 0xf7u8, 1)));
    lemma_witness_covers(s, MachineMode::Bits32, t, 0xf7u8, 0x38u8);
}

/// Witness coverage of the group rows behind opcode `0xf7`.
proof fn lemma_grp_covered_f7(reg: u8)
    requires
        reg < 8,
    ensures
        spec_group(GRP_3_EV, reg) matches Entry::Ins(t) ==> spec_covers(
            spec_grp_witness(0xf7u8, reg),
            MachineMode::Bits32,
            t,
        ),
{
    match reg {
        0u8 => lemma_grp_covered_f7_r0(),
        1u8 => lemma_grp_covered_f7_r1(),
        2u8 => lemma_grp_covered_f7_r2(),
        3u8 => lemma_grp_covered_f7_r3(),
        4u8 => lemma_grp_covered_f7_r4(),
        5u8 => lemma_grp_covered_f7_r5(),
        6u8 => lemma_grp_covered_f7_r6(),
        7u8 => lemma_grp_covered_f7_r7(),
        _ => {},
    }
}

/// Witness coverage of group row 0 behind opcode `0xfe`.
#[verifier::rlimit(100)]
#[verifier::spinoff_prover]
proof fn lemma_grp_covered_fe_r0()
    ensures
        spec_group(GRP_4_INCDEC, 0u8) matches Entry::Ins(t) ==> spec_covers(
            spec_grp_witness(0xfeu8, 0u8),
            MachineMode::Bits32,
            t,
        ),
{
    reveal_with_fuel(le_at, 3);
    let t = tpl1(Mnemonic::Inc, Category::Arith, IsaSet::I86, 7, 0x8d4, OpDesc::GrmB);
    assert(spec_group(GRP_4_INCDEC, 0) == Entry::Ins(t));
    assert(spec_one_byte(0xfeu8) == Entry::Grp(GRP_4_INCDEC));
    let s = spec_grp_witness(0xfeu8, 0u8);
    assert(s.len() == 2);
    assert(s[1] == 0x00u8);
    assert(spec_read(s, 1, 1) == Ok::<u64, DecodeError>(0));
    assert(spec_modrm_reg(0x00u8) == 0);
    let ctx = spec_ctx_from(MachineMode::Bits32, spec_no_prefixes());
    assert(t.modes == 7);
    assert(spec_mode_bit(MachineMode::Bits32) == 2);
    assert((7u8 / 2u8) % 2 == 1);
    assert(t.category != Category::Ud);
    assert(spec_check(ctx, t, 0xfeu8, 1) == Ok::<(Tmpl, u8, int), DecodeError>(
        (t, 0xfeu8, 1),
    ));
    assert(spec_resolve(s, ctx, Entry::Grp(GRP_4_INCDEC), 0xfeu8, 1) == Ok::<
        (Tmpl, u8, int),
        DecodeError,
    >((t, 0xfeu8, 1)));
    lemma_witness_covers(s, MachineMode::Bits32, t, 0xfeu8, 0x00u8);
}

/// Witness coverage of group row 1 behind opcode `0xfe`.
#[verifier::rlimit(100)]
#[verifier::spinoff_prover]
proof fn lemma_grp_covered_fe_r1()
    ensures
        spec_group(GRP_4_INCDEC, 1u8) matches Entry::Ins(t) ==> spec_covers(
            spec_grp_witness(0xfeu8, 1u8),
            MachineMode::Bits32,
            t,
        ),
{
    reveal_with_fuel(le_at, 3);
    let t = tpl1(Mnemonic::Dec, Category::Arith, IsaSet::I86, 7, 0x8d4, OpDesc::GrmB);
    assert(spec_group(GRP_4_INCDEC, 1) == Entry::Ins(t));
    assert(spec_one_byte(0xfeu8) == Entry::Grp(GRP_4_INCDEC));
    let s = spec_grp_witness(0xfeu8, 1u8);
    assert(s.len() == 2);
    assert(s[1] == 0x08u8);
    assert(spec_read(s, 1, 1) == Ok::<u64, DecodeError>(8));
    assert(spec_modrm_reg(0x08u8) == 1);
    let ctx = spec_ctx_from(MachineMode::Bits32, spec_no_prefixes());
    assert(t.modes == 7);
    assert(spec_mode_bit(MachineMode::Bits32) == 2);
    assert((7u8 / 2u8) % 2 == 1);
    assert(t.category != Category::Ud);
    assert(spec_check(ctx, t, 0xfeu8, 1) == Ok::<(Tmpl, u8, int), DecodeError>(
        (t, 0xfeu8, 1),
    ));
    assert(spec_resolve(s, ctx, Entry::Grp(GRP_4_INCDEC), 0xfeu8, 1) == Ok::<
        (Tmpl, u8, int),
        DecodeError,
    >((t, 0xfeu8, 1)));
    lemma_witness_covers(s, MachineMode::Bits32, t, 0xfeu8, 0x08u8);
}

/// Witness coverage of the group rows behind opcode `0xfe`.
proof fn lemma_grp_covered_fe(reg: u8)
    requires
        reg < 8,
    ensures
        spec_group(GRP_4_INCDEC, reg) matches Entry::Ins(t) ==> spec_covers(
            spec_grp_witness(0xfeu8, reg),
            MachineMode::Bits32,
            t,
        ),
{
    match reg {
        0u8 => lemma_grp_covered_fe_r0(),
        1u8 => lemma_grp_covered_fe_r1(),
        _ => {},
    }
}

/// Witness coverage of group row 0 behind opcode `0xff`.
#[verifier::rlimit(100)]
#[verifier::spinoff_prover]
proof fn lemma_grp_covered_ff_r0()
    ensures
        spec_group(GRP_5_MISC, 0u8) matches Entry::Ins(t) ==> spec_covers(
            spec_grp_witness(0xffu8, 0u8),
            MachineMode::Bits32,
            t,
        ),
{
    reveal_with_fuel(le_at, 3);
    let t = tpl1(Mnemonic::Inc, Category::Arith, IsaSet::I86, 7, 0x8d4, OpDesc::GrmV);
    assert(spec_group(GRP_5_MISC, 0) == Entry::Ins(t));
    assert(spec_one_byte(0xffu8) == Entry::Grp(GRP_5_MISC));
    let s = spec_grp_witness(0xffu8, 0u8);
    assert(s.len() == 2);
    assert(s[1] == 0x00u8);
    assert(spec_read(s, 1, 1) == Ok::<u64, DecodeError>(0));
    assert(spec_modrm_reg(0x00u8) == 0);
    let ctx = spec_ctx_from(MachineMode::Bits32, spec_no_prefixes());
    assert(t.modes == 7);
    assert(spec_mode_bit(MachineMode::Bits32) == 2);
    assert((7u8 / 2u8) % 2 == 1);
    assert(t.category != Category::Ud);
    assert(spec_check(ctx, t, 0xffu8, 1) == Ok::<(Tmpl, u8, int), DecodeError>(
        (t, 0xffu8, 1),
    ));
    assert(spec_resolve(s, ctx, Entry::Grp(GRP_5_MISC), 0xffu8, 1) == Ok::<
        (Tmpl, u8, int),
        DecodeError,
    >((t, 0xffu8, 1)));
    lemma_witness_covers(s, MachineMode::Bits32, t, 0xffu8, 0x00u8);
}

/// Witness coverage of group row 1 behind opcode `0xff`.
#[verifier::rlimit(100)]
#[verifier::spinoff_prover]
proof fn lemma_grp_covered_ff_r1()
    ensures
        spec_group(GRP_5_MISC, 1u8) matches Entry::Ins(t) ==> spec_covers(
            spec_grp_witness(0xffu8, 1u8),
            MachineMode::Bits32,
            t,
        ),
{
    reveal_with_fuel(le_at, 3);
    let t = tpl1(Mnemonic::Dec, Category::Arith, IsaSet::I86, 7, 0x8d4, OpDesc::GrmV);
    assert(spec_group(GRP_5_MISC, 1) == Entry::Ins(t));
    assert(spec_one_byte(0xffu8) == Entry::Grp(GRP_5_MISC));
    let s = spec_grp_witness(0xffu8, 1u8);
    assert(s.len() == 2);
    assert(s[1] == 0x08u8);
    assert(spec_read(s, 1, 1) == Ok::<u64, DecodeError>(8));
    assert(spec_modrm_reg(0x08u8) == 1);
    let ctx = spec_ctx_from(MachineMode::Bits32, spec_no_prefixes());
    assert(t.modes == 7);
    assert(spec_mode_bit(MachineMode::Bits32) == 2);
    assert((7u8 / 2u8) % 2 == 1);
    assert(t.category != Category::Ud);
    assert(spec_check(ctx, t, 0xffu8, 1) == Ok::<(Tmpl, u8, int), DecodeError>(
        (t, 0xffu8, 1),
    ));
    assert(spec_resolve(s, ctx, Entry::Grp(GRP_5_MISC), 0xffu8, 1) == Ok::<
        (Tmpl, u8, int),
        DecodeError,
    >((t, 0xffu8, 1)));
    lemma_witness_covers(s, MachineMode::Bits32, t, 0xffu8, 0x08u8);
}

/// Witness coverage of group row 2 behind opcode `0xff`.
#[verifier::rlimit(100)]
#[verifier::spinoff_prover]
proof fn lemma_grp_covered_ff_r2()
    ensures
        spec_group(GRP_5_MISC, 2u8) matches Entry::Ins(t) ==> spec_covers(
            spec_grp_witness(0xffu8, 2u8),
            MachineMode::Bits32,
            t,
        ),
{
    reveal_with_fuel(le_at, 3);
    let t = tpl1(Mnemonic::Call, Category::Call, IsaSet::I86, 7, 0x0, OpDesc::GrmV64);
    assert(spec_group(GRP_5_MISC, 2) == Entry::Ins(t));
    assert(spec_one_byte(0xffu8) == Entry::Grp(GRP_5_MISC));
    let s = spec_grp_witness(0xffu8, 2u8);
    assert(s.len() == 2);
    assert(s[1] == 0x10u8);
    assert(spec_read(s, 1, 1) == Ok::<u64, DecodeError>(16));
    assert(spec_modrm_reg(0x10u8) == 2);
    let ctx = spec_ctx_from(MachineMode::Bits32, spec_no_prefixes());
    assert(t.modes == 7);
    assert(spec_mode_bit(MachineMode::Bits32) == 2);
    assert((7u8 / 2u8) % 2 == 1);
    assert(t.category != Category::Ud);
    assert(spec_check(ctx, t, 0xffu8, 1) == Ok::<(Tmpl, u8, int), DecodeError>(
        (t, 0xffu8, 1),
    ));
    assert(spec_resolve(s, ctx, Entry::Grp(GRP_5_MISC), 0xffu8, 1) == Ok::<
        (Tmpl, u8, int),
        DecodeError,
    >((t, 0xffu8, 1)));
    lemma_witness_covers(s, MachineMode::Bits32, t, 0xffu8, 0x10u8);
}

/// Witness coverage of group row 3 behind opcode `0xff`.
#[verifier::rlimit(100)]
#[verifier::spinoff_prover]
proof fn lemma_grp_covered_ff_r3()
    ensures
        spec_group(GRP_5_MISC, 3u8) matches Entry::Ins(t) ==> spec_covers(
            spec_grp_witness(0xffu8, 3u8),
            MachineMode::Bits32,
            t,
        ),
{
    reveal_with_fuel(le_at, 3);
    let t = tpl1(Mnemonic::Callf, Category::Call, IsaSet::I86, 7, 0x0, OpDesc::GrmMem);
    assert(spec_group(GRP_5_MISC, 3) == Entry::Ins(t));
    assert(spec_one_byte(0xffu8) == Entry::Grp(GRP_5_MISC));
    let s = spec_grp_witness(0xffu8, 3u8);
    assert(s.len() == 2);
    assert(s[1] == 0x18u8);
    assert(spec_read(s, 1, 1) == Ok::<u64, DecodeError>(24));
    assert(spec_modrm_reg(0x18u8) == 3);
    let ctx = spec_ctx_from(MachineMode::Bits32, spec_no_prefixes());
    assert(t.modes == 7);
    assert(spec_mode_bit(MachineMode::Bits32) == 2);
    assert((7u8 / 2u8) % 2 == 1);
    assert(t.category != Category::Ud);
    assert(spec_check(ctx, t, 0xffu8, 1) == Ok::<(Tmpl, u8, int), DecodeError>(
        (t, 0xffu8, 1),
    ));
    assert(spec_resolve(s, ctx, Entry::Grp(GRP_5_MISC), 0xffu8, 1) == Ok::<
        (Tmpl, u8, int),
        DecodeError,
    >((t, 0xffu8, 1)));
    lemma_witness_covers(s, MachineMode::Bits32, t, 0xffu8, 0x18u8);
}

/// Witness coverage of group row 4 behind opcode `0xff`.
#[verifier::rlimit(100)]
#[verifier::spinoff_prover]
proof fn lemma_grp_covered_ff_r4()
    ensures
        spec_group(GRP_5_MISC, 4u8) matches Entry::Ins(t) ==> spec_covers(
            spec_grp_witness(0xffu8, 4u8),
            MachineMode::Bits32,
            t,
        ),
{
    reveal_with_fuel(le_at, 3);
    let t = tpl1(Mnemonic::Jmp, Category::UncondBr, IsaSet::I86, 7, 0x0, OpDesc::GrmV64);
    assert(spec_group(GRP_5_MISC, 4) == Entry::Ins(t));
    assert(spec_one_byte(0xffu8) == Entry::Grp(GRP_5_MISC));
    let s = spec_grp_witness(0xffu8, 4u8);
    assert(s.len() == 2);
    assert(s[1] == 0x20u8);
    assert(spec_read(s, 1, 1) == Ok::<u64, DecodeError>(32));
    assert(spec_modrm_reg(0x20u8) == 4);
    let ctx = spec_ctx_from(MachineMode::Bits32, spec_no_prefixes());
    assert(t.modes == 7);
    assert(spec_mode_bit(MachineMode::Bits32) == 2);
    assert((7u8 / 2u8) % 2 == 1);
    assert(t.category != Category::Ud);
    assert(spec_check(ctx, t, 0xffu8, 1) == Ok::<(Tmpl, u8, int), DecodeError>(
        (t, 0xffu8, 1),
    ));
    assert(spec_resolve(s, ctx, Entry::Grp(GRP_5_MISC), 0xffu8, 1) == Ok::<
        (Tmpl, u8, int),
        DecodeError,
    >((t, 0xffu8, 1)));
    lemma_witness_covers(s, MachineMode::Bits32, t, 0xffu8, 0x20u8);
}

/// Witness coverage of group row 5 behind opcode `0xff`.
#[verifier::rlimit(100)]
#[verifier::spinoff_prover]
proof fn lemma_grp_covered_ff_r5()
    ensures
        spec_group(GRP_5_MISC, 5u8) matches Entry::Ins(t) ==> spec_covers(
            spec_grp_witness(0xffu8, 5u8),
            MachineMode::Bits32,
            t,
        ),
{
    reveal_with_fuel(le_at, 3);
    let t = tpl1(Mnemonic::Jmpf, Category::UncondBr, IsaSet::I86, 7, 0x0, OpDesc::GrmMem);
    assert(spec_group(GRP_5_MISC, 5) == Entry::Ins(t));
    assert(spec_one_byte(0xffu8) == Entry::Grp(GRP_5_MISC));
    let s = spec_grp_witness(0xffu8, 5u8);
    assert(s.len() == 2);
    assert(s[1] == 0x28u8);
    assert(spec_read(s, 1, 1) == Ok::<u64, DecodeError>(40));
    assert(spec_modrm_reg(0x28u8) == 5);
    let ctx = spec_ctx_from(MachineMode::Bits32, spec_no_prefixes());
    assert(t.modes == 7);
    assert(spec_mode_bit(MachineMode::Bits32) == 2);
    assert((7u8 / 2u8) % 2 == 1);
    assert(t.category != Category::Ud);
    assert(spec_check(ctx, t, 0xffu8, 1) == Ok::<(Tmpl, u8, int), DecodeError>(
        (t, 0xffu8, 1),
    ));
    assert(spec_resolve(s, ctx, Entry::Grp(GRP_5_MISC), 0xffu8, 1) == Ok::<
        (Tmpl, u8, int),
        DecodeError,
    >((t, 0xffu8, 1)));
    lemma_witness_covers(s, MachineMode::Bits32, t, 0xffu8, 0x28u8);
}

/// Witness coverage of group row 6 behind opcode `0xff`.
#[verifier::rlimit(100)]
#[verifier::spinoff_prover]
proof fn lemma_grp_covered_ff_r6()
    ensures
        spec_group(GRP_5_MISC, 6u8) matches Entry::Ins(t) ==> spec_covers(
            spec_grp_witness(0xffu8, 6u8),
            MachineMode::Bits32,
            t,
        ),
{
    reveal_with_fuel(le_at, 3);
    let t = tpl1(Mnemonic::Push, Category::Push, IsaSet::I86, 7, 0x0, OpDesc::GrmV64);
    assert(spec_group(GRP_5_MISC, 6) == Entry::Ins(t));
    assert(spec_one_byte(0xffu8) == Entry::Grp(GRP_5_MISC));
    let s = spec_grp_witness(0xffu8, 6u8);
    assert(s.len() == 2);
    assert(s[1] == 0x30u8);
    assert(spec_read(s, 1, 1) == Ok::<u64, DecodeError>(48));
    assert(spec_modrm_reg(0x30u8) == 6);
    let ctx = spec_ctx_from(MachineMode::Bits32, spec_no_prefixes());
    assert(t.modes == 7);
    assert(spec_mode_bit(MachineMode::Bits32) == 2);
    assert((7u8 / 2u8) % 2 == 1);
    assert(t.category != Category::Ud);
    assert(spec_check(ctx, t, 0xffu8, 1) == Ok::<(Tmpl, u8, int), DecodeError>(
        (t, 0xffu8, 1),
    ));
    assert(spec_resolve(s, ctx, Entry::Grp(GRP_5_MISC), 0xffu8, 1) == Ok::<
        (Tmpl, u8, int),
        DecodeError,
    >((t, 0xffu8, 1)));
    lemma_witness_covers(s, MachineMode::Bits32, t, 0xffu8, 0x30u8);
}

/// Witness coverage of the group rows behind opcode `0xff`.
proof fn lemma_grp_covered_ff(reg: u8)
    requires
        reg < 8,
    ensures
        spec_group(GRP_5_MISC, reg) matches Entry::Ins(t) ==> spec_covers(
            spec_grp_witness(0xffu8, reg),
            MachineMode::Bits32,
            t,
        ),
{
    match reg {
        0u8 => lemma_grp_covered_ff_r0(),
        1u8 => lemma_grp_covered_ff_r1(),
        2u8 => lemma_grp_covered_ff_r2(),
        3u8 => lemma_grp_covered_ff_r3(),
        4u8 => lemma_grp_covered_ff_r4(),
        5u8 => lemma_grp_covered_ff_r5(),
        6u8 => lemma_grp_covered_ff_r6(),
        _ => {},
    }
}

/// Every real sub-slot of a one-byte-map group is reachable by a
/// witness whose ModRM.reg selects the row.
pub proof fn lemma_group_covered(op: u8, reg: u8)
    requires
        reg < 8,
    ensures
        spec_one_byte(op) matches Entry::Grp(g) ==> (spec_group(g, reg) matches Entry::Ins(t)
            ==> spec_covers(spec_grp_witness(op, reg), MachineMode::Bits32, t)),
{
    match op {
        0x80u8 => {
            assert(spec_one_byte(0x80u8) == Entry::Grp(GRP_1_EB_IB));
            lemma_grp_covered_80(reg);
        },
        0x81u8 => {
            assert(spec_one_byte(0x81u8) == Entry::Grp(GRP_1_EV_IZ));
            lemma_grp_covered_81(reg);
        },
        0x82u8 => {
            assert(spec_one_byte(0x82u8) == Entry::Grp(GRP_1_EB_IB_LEG));
            lemma_grp_covered_82(reg);
        },
        0x83u8 => {
            assert(spec_one_byte(0x83u8) == Entry::Grp(GRP_1_EV_IBS));
            lemma_grp_covered_83(reg);
        },
        0x8fu8 => {
            assert(spec_one_byte(0x8fu8) == Entry::Grp(GRP_1A_POP));
            lemma_grp_covered_8f(reg);
        },
        0xc0u8 => {
            assert(spec_one_byte(0xc0u8) == Entry::Grp(GRP_2_EB_IB));
            lemma_grp_covered_c0(reg);
        },
        0xc1u8 => {
            assert(spec_one_byte(0xc1u8) == Entry::Grp(GRP_2_EV_IB));
            lemma_grp_covered_c1(reg);
        },
        0xc6u8 => {
            assert(spec_one_byte(0xc6u8) == Entry::Grp(GRP_11_EB));
            lemma_grp_covered_c6(reg);
        },
        0xc7u8 => {
            assert(spec_one_byte(0xc7u8) == Entry::Grp(GRP_11_EV));
            lemma_grp_covered_c7(reg);
        },
        0xd0u8 => {
            assert(spec_one_byte(0xd0u8) == Entry::Grp(GRP_2_EB_1));
            lemma_grp_covered_d0(reg);
        },
        0xd1u8 => {
            assert(spec_one_byte(0xd1u8) == Entry::Grp(GRP_2_EV_1));
            lemma_grp_covered_d1(reg);
        },
        0xd2u8 => {
            assert(spec_one_byte(0xd2u8) == Entry::Grp(GRP_2_EB_CL));
            lemma_grp_covered_d2(reg);
        },
        0xd3u8 => {
            assert(spec_one_byte(0xd3u8) == Entry::Grp(GRP_2_EV_CL));
            lemma_grp_covered_d3(reg);
        },
        0xf6u8 => {
            assert(spec_one_byte(0xf6u8) == Entry::Grp(GRP_3_EB));
            lemma_grp_covered_f6(reg);
        },
        0xf7u8 => {
            assert(spec_one_byte(0xf7u8) == Entry::Grp(GRP_3_EV));
            lemma_grp_covered_f7(reg);
        },
        0xfeu8 => {
            assert(spec_one_byte(0xfeu8) == Entry::Grp(GRP_4_INCDEC));
            lemma_grp_covered_fe(reg);
        },
        0xffu8 => {
            assert(spec_one_byte(0xffu8) == Entry::Grp(GRP_5_MISC));
            lemma_grp_covered_ff(reg);
        },
        _ => {},
    }
}

} // verus!
