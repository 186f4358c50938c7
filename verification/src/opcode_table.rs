//! The opcode tables: templates for the one-byte and two-byte maps, the
//! group sub-tables they point into, and a selection of VEX-encoded entries.
//!
//! A template records what one (map, opcode, mandatory prefix) slot decodes
//! to: mnemonic, category, ISA set, a valid-mode bitmask, the RFLAGS bits
//! the instruction writes, and up to four operand-encoding descriptors. The
//! tables exist twice in this module: once as specification functions that
//! define the decoder, and once as executable lookups proved equal to them.

use vstd::prelude::*;

use crate::category::Category;
use crate::isa_set::IsaSet;
use crate::mnemonic::Mnemonic;

verus! {

/// How one operand slot of a template is encoded.
#[derive(Copy, Clone, Eq, PartialEq, Debug, Structural)]
pub enum OpDesc {
    /// The slot is unused.
    Void,
    /// Byte register or memory from ModRM.rm.
    GrmB,
    /// 16-bit register or memory from ModRM.rm.
    GrmW,
    /// 32-bit register or memory from ModRM.rm.
    GrmD,
    /// Operand-size register or memory from ModRM.rm.
    GrmV,
    /// Like `GrmV`, but defaulting to 64 bits in long mode.
    GrmV64,
    /// Memory only from ModRM.rm; a register form is a reserved encoding.
    GrmMem,
    /// Byte register from ModRM.reg.
    GregB,
    /// 16-bit register from ModRM.reg.
    GregW,
    /// Operand-size register from ModRM.reg.
    GregV,
    /// Segment register from ModRM.reg; values above 5 are reserved.
    SegReg,
    /// Byte register from the low opcode bits.
    OpcRegB,
    /// Operand-size register from the low opcode bits.
    OpcRegV,
    /// Like `OpcRegV`, but defaulting to 64 bits in long mode.
    OpcRegV64,
    /// The implicit byte accumulator `al`.
    IAl,
    /// The implicit operand-size accumulator.
    IAXv,
    /// The implicit accumulator, capped at 32 bits.
    IAXz,
    /// The implicit shift-count register `cl`.
    ICl,
    /// The implicit port register `dx`.
    IDx,
    /// An implicit segment register.
    ISeg(u8),
    /// An 8-bit immediate.
    ImmB,
    /// An 8-bit immediate sign-extended to the operand size.
    ImmBs,
    /// A 16- or 32-bit immediate by operand size, sign-extended to 64 bits
    /// under a 64-bit operand size.
    ImmZ,
    /// A 16-, 32- or 64-bit immediate matching the operand size.
    ImmV,
    /// A 16-bit immediate.
    ImmW,
    /// An 8-bit relative branch offset.
    RelB,
    /// A 16- or 32-bit relative branch offset by operand size.
    RelZ,
    /// The implicit immediate `1` of the short shift forms.
    ImplOne,
    /// A direct memory offset of address-size width.
    Moffs,
    /// Vector register from ModRM.reg.
    Vreg,
    /// Vector register or memory from ModRM.rm.
    Vrm,
    /// Vector register from the VEX.vvvv field.
    Hreg,
}

/// One instruction template of the opcode tables.
#[derive(Copy, Clone, Eq, PartialEq, Debug, Structural)]
pub struct Tmpl {
    /// The mnemonic of the instruction.
    pub mnemonic: Mnemonic,
    /// Its category.
    pub category: Category,
    /// The ISA set it belongs to.
    pub isa_set: IsaSet,
    /// Valid-mode bitmask: bit 0 is 16-bit, bit 1 is 32-bit, bit 2 is long
    /// mode.
    pub modes: u8,
    /// The RFLAGS bits the instruction writes, at their architectural
    /// positions.
    pub flags: u32,
    /// First operand descriptor, or `Void`.
    pub o1: OpDesc,
    /// Second operand descriptor, or `Void`.
    pub o2: OpDesc,
    /// Third operand descriptor, or `Void`.
    pub o3: OpDesc,
    /// Fourth operand descriptor, or `Void`.
    pub o4: OpDesc,
}

/// One slot of an opcode map.
#[derive(Copy, Clone, Eq, PartialEq, Debug, Structural)]
pub enum Entry {
    /// No instruction lives at this slot.
    Absent,
    /// A single template.
    Ins(Tmpl),
    /// A group: the template is chosen by ModRM.reg through
    /// [`spec_group`].
    Grp(u8),
    /// Distinct templates outside and inside long mode.
    Split(Tmpl, Tmpl),
}

/// Group-table identifier.
pub const GRP_1_EB_IB: u8 = 1;

/// Group-table identifier.
pub const GRP_1_EV_IZ: u8 = 2;

/// Group-table identifier.
pub const GRP_1_EB_IB_LEG: u8 = 3;

/// Group-table identifier.
pub const GRP_1_EV_IBS: u8 = 4;

/// Group-table identifier.
pub const GRP_1A_POP: u8 = 5;

/// Group-table identifier.
pub const GRP_2_EB_IB: u8 = 6;

/// Group-table identifier.
pub const GRP_2_EV_IB: u8 = 7;

/// Group-table identifier.
pub const GRP_2_EB_1: u8 = 8;

/// Group-table identifier.
pub const GRP_2_EV_1: u8 = 9;

/// Group-table identifier.
pub const GRP_2_EB_CL: u8 = 10;

/// Group-table identifier.
pub const GRP_2_EV_CL: u8 = 11;

/// Group-table identifier.
pub const GRP_3_EB: u8 = 12;

/// Group-table identifier.
pub const GRP_3_EV: u8 = 13;

/// Group-table identifier.
pub const GRP_4_INCDEC: u8 = 14;

/// Group-table identifier.
pub const GRP_5_MISC: u8 = 15;

/// Group-table identifier.
pub const GRP_11_EB: u8 = 16;

/// Group-table identifier.
pub const GRP_11_EV: u8 = 17;

/// A template with 0 operand descriptors.
pub open spec fn tpl0(m: Mnemonic, c: Category, i: IsaSet, modes: u8, flags: u32) -> Tmpl {
    Tmpl { mnemonic: m, category: c, isa_set: i, modes, flags, o1: OpDesc::Void, o2: OpDesc::Void, o3: OpDesc::Void, o4: OpDesc::Void }
}

/// A map slot holding a template with 0 operand descriptors.
pub open spec fn ent0(m: Mnemonic, c: Category, i: IsaSet, modes: u8, flags: u32) -> Entry {
    Entry::Ins(tpl0(m, c, i, modes, flags))
}

/// A template with 1 operand descriptor.
pub open spec fn tpl1(m: Mnemonic, c: Category, i: IsaSet, modes: u8, flags: u32, o1: OpDesc) -> Tmpl {
    Tmpl { mnemonic: m, category: c, isa_set: i, modes, flags, o1, o2: OpDesc::Void, o3: OpDesc::Void, o4: OpDesc::Void }
}

/// A map slot holding a template with 1 operand descriptor.
pub open spec fn ent1(m: Mnemonic, c: Category, i: IsaSet, modes: u8, flags: u32, o1: OpDesc) -> Entry {
    Entry::Ins(tpl1(m, c, i, modes, flags, o1))
}

/// A template with 2 operand descriptors.
pub open spec fn tpl2(m: Mnemonic, c: Category, i: IsaSet, modes: u8, flags: u32, o1: OpDesc, o2: OpDesc) -> Tmpl {
    Tmpl { mnemonic: m, category: c, isa_set: i, modes, flags, o1, o2, o3: OpDesc::Void, o4: OpDesc::Void }
}

/// A map slot holding a template with 2 operand descriptors.
pub open spec fn ent2(m: Mnemonic, c: Category, i: IsaSet, modes: u8, flags: u32, o1: OpDesc, o2: OpDesc) -> Entry {
    Entry::Ins(tpl2(m, c, i, modes, flags, o1, o2))
}

/// A template with 3 operand descriptors.
pub open spec fn tpl3(m: Mnemonic, c: Category, i: IsaSet, modes: u8, flags: u32, o1: OpDesc, o2: OpDesc, o3: OpDesc) -> Tmpl {
    Tmpl { mnemonic: m, category: c, isa_set: i, modes, flags, o1, o2, o3, o4: OpDesc::Void }
}

/// A map slot holding a template with 3 operand descriptors.
pub open spec fn ent3(m: Mnemonic, c: Category, i: IsaSet, modes: u8, flags: u32, o1: OpDesc, o2: OpDesc, o3: OpDesc) -> Entry {
    Entry::Ins(tpl3(m, c, i, modes, flags, o1, o2, o3))
}

/// Executable twin of [`tpl0`].
fn tpl0_x(m: Mnemonic, c: Category, i: IsaSet, modes: u8, flags: u32) -> (t: Tmpl)
    ensures
        t == tpl0(m, c, i, modes, flags),
{
    Tmpl { mnemonic: m, category: c, isa_set: i, modes, flags, o1: OpDesc::Void, o2: OpDesc::Void, o3: OpDesc::Void, o4: OpDesc::Void }
}

/// Executable twin of [`ent0`].
fn ent0_x(m: Mnemonic, c: Category, i: IsaSet, modes: u8, flags: u32) -> (e: Entry)
    ensures
        e == ent0(m, c, i, modes, flags),
{
    Entry::Ins(tpl0_x(m, c, i, modes, flags))
}

/// Executable twin of [`tpl1`].
fn tpl1_x(m: Mnemonic, c: Category, i: IsaSet, modes: u8, flags: u32, o1: OpDesc) -> (t: Tmpl)
    ensures
        t == tpl1(m, c, i, modes, flags, o1),
{
    Tmpl { mnemonic: m, category: c, isa_set: i, modes, flags, o1, o2: OpDesc::Void, o3: OpDesc::Void, o4: OpDesc::Void }
}

/// Executable twin of [`ent1`].
fn ent1_x(m: Mnemonic, c: Category, i: IsaSet, modes: u8, flags: u32, o1: OpDesc) -> (e: Entry)
    ensures
        e == ent1(m, c, i, modes, flags, o1),
{
    Entry::Ins(tpl1_x(m, c, i, modes, flags, o1))
}

/// Executable twin of [`tpl2`].
fn tpl2_x(m: Mnemonic, c: Category, i: IsaSet, modes: u8, flags: u32, o1: OpDesc, o2: OpDesc) -> (t: Tmpl)
    ensures
        t == tpl2(m, c, i, modes, flags, o1, o2),
{
    Tmpl { mnemonic: m, category: c, isa_set: i, modes, flags, o1, o2, o3: OpDesc::Void, o4: OpDesc::Void }
}

/// Executable twin of [`ent2`].
fn ent2_x(m: Mnemonic, c: Category, i: IsaSet, modes: u8, flags: u32, o1: OpDesc, o2: OpDesc) -> (e: Entry)
    ensures
        e == ent2(m, c, i, modes, flags, o1, o2),
{
    Entry::Ins(tpl2_x(m, c, i, modes, flags, o1, o2))
}

/// Executable twin of [`tpl3`].
fn tpl3_x(m: Mnemonic, c: Category, i: IsaSet, modes: u8, flags: u32, o1: OpDesc, o2: OpDesc, o3: OpDesc) -> (t: Tmpl)
    ensures
        t == tpl3(m, c, i, modes, flags, o1, o2, o3),
{
    Tmpl { mnemonic: m, category: c, isa_set: i, modes, flags, o1, o2, o3, o4: OpDesc::Void }
}

/// Executable twin of [`ent3`].
fn ent3_x(m: Mnemonic, c: Category, i: IsaSet, modes: u8, flags: u32, o1: OpDesc, o2: OpDesc, o3: OpDesc) -> (e: Entry)
    ensures
        e == ent3(m, c, i, modes, flags, o1, o2, o3),
{
    Entry::Ins(tpl3_x(m, c, i, modes, flags, o1, o2, o3))
}

/// One-byte map, opcodes `0x00` through `0x0f`.
pub open spec fn spec_one_byte_row_00(op: u8) -> Entry {
    match op {
        0x00u8 => ent2(Mnemonic::Add, Category::Arith, IsaSet::I86, 7, 0x8d5, OpDesc::GrmB, OpDesc::GregB),
        0x01u8 => ent2(Mnemonic::Add, Category::Arith, IsaSet::I86, 7, 0x8d5, OpDesc::GrmV, OpDesc::GregV),
        0x02u8 => ent2(Mnemonic::Add, Category::Arith, IsaSet::I86, 7, 0x8d5, OpDesc::GregB, OpDesc::GrmB),
        0x03u8 => ent2(Mnemonic::Add, Category::Arith, IsaSet::I86, 7, 0x8d5, OpDesc::GregV, OpDesc::GrmV),
        0x04u8 => ent2(Mnemonic::Add, Category::Arith, IsaSet::I86, 7, 0x8d5, OpDesc::IAl, OpDesc::ImmB),
        0x05u8 => ent2(Mnemonic::Add, Category::Arith, IsaSet::I86, 7, 0x8d5, OpDesc::IAXv, OpDesc::ImmZ),
        0x06u8 => ent1(Mnemonic::Push, Category::Push, IsaSet::I86, 3, 0x0, OpDesc::ISeg(0)),
        0x07u8 => ent1(Mnemonic::Pop, Category::Pop, IsaSet::I86, 3, 0x0, OpDesc::ISeg(0)),
        0x08u8 => ent2(Mnemonic::Or, Category::Logical, IsaSet::I86, 7, 0x8c5, OpDesc::GrmB, OpDesc::GregB),
        0x09u8 => ent2(Mnemonic::Or, Category::Logical, IsaSet::I86, 7, 0x8c5, OpDesc::GrmV, OpDesc::GregV),
        0x0au8 => ent2(Mnemonic::Or, Category::Logical, IsaSet::I86, 7, 0x8c5, OpDesc::GregB, OpDesc::GrmB),
        0x0bu8 => ent2(Mnemonic::Or, Category::Logical, IsaSet::I86, 7, 0x8c5, OpDesc::GregV, OpDesc::GrmV),
        0x0cu8 => ent2(Mnemonic::Or, Category::Logical, IsaSet::I86, 7, 0x8c5, OpDesc::IAl, OpDesc::ImmB),
        0x0du8 => ent2(Mnemonic::Or, Category::Logical, IsaSet::I86, 7, 0x8c5, OpDesc::IAXv, OpDesc::ImmZ),
        0x0eu8 => ent1(Mnemonic::Push, Category::Push, IsaSet::I86, 3, 0x0, OpDesc::ISeg(1)),
        _ => Entry::Absent,
    }
}

/// One-byte map, opcodes `0x10` through `0x1f`.
pub open spec fn spec_one_byte_row_10(op: u8) -> Entry {
    match op {
        0x10u8 => ent2(Mnemonic::Adc, Category::Arith, IsaSet::I86, 7, 0x8d5, OpDesc::GrmB, OpDesc::GregB),
        0x11u8 => ent2(Mnemonic::Adc, Category::Arith, IsaSet::I86, 7, 0x8d5, OpDesc::GrmV, OpDesc::GregV),
        0x12u8 => ent2(Mnemonic::Adc, Category::Arith, IsaSet::I86, 7, 0x8d5, OpDesc::GregB, OpDesc::GrmB),
        0x13u8 => ent2(Mnemonic::Adc, Category::Arith, IsaSet::I86, 7, 0x8d5, OpDesc::GregV, OpDesc::GrmV),
        0x14u8 => ent2(Mnemonic::Adc, Category::Arith, IsaSet::I86, 7, 0x8d5, OpDesc::IAl, OpDesc::ImmB),
        0x15u8 => ent2(Mnemonic::Adc, Category::Arith, IsaSet::I86, 7, 0x8d5, OpDesc::IAXv, OpDesc::ImmZ),
        0x16u8 => ent1(Mnemonic::Push, Category::Push, IsaSet::I86, 3, 0x0, OpDesc::ISeg(2)),
        0x17u8 => ent1(Mnemonic::Pop, Category::Pop, IsaSet::I86, 3, 0x0, OpDesc::ISeg(2)),
        0x18u8 => ent2(Mnemonic::Sbb, Category::Arith, IsaSet::I86, 7, 0x8d5, OpDesc::GrmB, OpDesc::GregB),
        0x19u8 => ent2(Mnemonic::Sbb, Category::Arith, IsaSet::I86, 7, 0x8d5, OpDesc::GrmV, OpDesc::GregV),
        0x1au8 => ent2(Mnemonic::Sbb, Category::Arith, IsaSet::I86, 7, 0x8d5, OpDesc::GregB, OpDesc::GrmB),
        0x1bu8 => ent2(Mnemonic::Sbb, Category::Arith, IsaSet::I86, 7, 0x8d5, OpDesc::GregV, OpDesc::GrmV),
        0x1cu8 => ent2(Mnemonic::Sbb, Category::Arith, IsaSet::I86, 7, 0x8d5, OpDesc::IAl, OpDesc::ImmB),
        0x1du8 => ent2(Mnemonic::Sbb, Category::Arith, IsaSet::I86, 7, 0x8d5, OpDesc::IAXv, OpDesc::ImmZ),
        0x1eu8 => ent1(Mnemonic::Push, Category::Push, IsaSet::I86, 3, 0x0, OpDesc::ISeg(3)),
        0x1fu8 => ent1(Mnemonic::Pop, Category::Pop, IsaSet::I86, 3, 0x0, OpDesc::ISeg(3)),
        _ => Entry::Absent,
    }
}

/// One-byte map, opcodes `0x20` through `0x2f`.
pub open spec fn spec_one_byte_row_20(op: u8) -> Entry {
    match op {
        0x20u8 => ent2(Mnemonic::And, Category::Logical, IsaSet::I86, 7, 0x8c5, OpDesc::GrmB, OpDesc::GregB),
        0x21u8 => ent2(Mnemonic::And, Category::Logical, IsaSet::I86, 7, 0x8c5, OpDesc::GrmV, OpDesc::GregV),
        0x22u8 => ent2(Mnemonic::And, Category::Logical, IsaSet::I86, 7, 0x8c5, OpDesc::GregB, OpDesc::GrmB),
        0x23u8 => ent2(Mnemonic::And, Category::Logical, IsaSet::I86, 7, 0x8c5, OpDesc::GregV, OpDesc::GrmV),
        0x24u8 => ent2(Mnemonic::And, Category::Logical, IsaSet::I86, 7, 0x8c5, OpDesc::IAl, OpDesc::ImmB),
        0x25u8 => ent2(Mnemonic::And, Category::Logical, IsaSet::I86, 7, 0x8c5, OpDesc::IAXv, OpDesc::ImmZ),
        0x27u8 => ent0(Mnemonic::Daa, Category::Decimal, IsaSet::I86, 3, 0x8d5),
        0x28u8 => ent2(Mnemonic::Sub, Category::Arith, IsaSet::I86, 7, 0x8d5, OpDesc::GrmB, OpDesc::GregB),
        0x29u8 => ent2(Mnemonic::Sub, Category::Arith, IsaSet::I86, 7, 0x8d5, OpDesc::GrmV, OpDesc::GregV),
        0x2au8 => ent2(Mnemonic::Sub, Category::Arith, IsaSet::I86, 7, 0x8d5, OpDesc::GregB, OpDesc::GrmB),
        0x2bu8 => ent2(Mnemonic::Sub, Category::Arith, IsaSet::I86, 7, 0x8d5, OpDesc::GregV, OpDesc::GrmV),
        0x2cu8 => ent2(Mnemonic::Sub, Category::Arith, IsaSet::I86, 7, 0x8d5, OpDesc::IAl, OpDesc::ImmB),
        0x2du8 => ent2(Mnemonic::Sub, Category::Arith, IsaSet::I86, 7, 0x8d5, OpDesc::IAXv, OpDesc::ImmZ),
        0x2fu8 => ent0(Mnemonic::Das, Category::Decimal, IsaSet::I86, 3, 0x8d5),
        _ => Entry::Absent,
    }
}

/// One-byte map, opcodes `0x30` through `0x3f`.
pub open spec fn spec_one_byte_row_30(op: u8) -> Entry {
    match op {
        0x30u8 => ent2(Mnemonic::Xor, Category::Logical, IsaSet::I86, 7, 0x8c5, OpDesc::GrmB, OpDesc::GregB),
        0x31u8 => ent2(Mnemonic::Xor, Category::Logical, IsaSet::I86, 7, 0x8c5, OpDesc::GrmV, OpDesc::GregV),
        0x32u8 => ent2(Mnemonic::Xor, Category::Logical, IsaSet::I86, 7, 0x8c5, OpDesc::GregB, OpDesc::GrmB),
        0x33u8 => ent2(Mnemonic::Xor, Category::Logical, IsaSet::I86, 7, 0x8c5, OpDesc::GregV, OpDesc::GrmV),
        0x34u8 => ent2(Mnemonic::Xor, Category::Logical, IsaSet::I86, 7, 0x8c5, OpDesc::IAl, OpDesc::ImmB),
        0x35u8 => ent2(Mnemonic::Xor, Category::Logical, IsaSet::I86, 7, 0x8c5, OpDesc::IAXv, OpDesc::ImmZ),
        0x37u8 => ent0(Mnemonic::Aaa, Category::Decimal, IsaSet::I86, 3, 0x8d5),
        0x38u8 => ent2(Mnemonic::Cmp, Category::Arith, IsaSet::I86, 7, 0x8d5, OpDesc::GrmB, OpDesc::GregB),
        0x39u8 => ent2(Mnemonic::Cmp, Category::Arith, IsaSet::I86, 7, 0x8d5, OpDesc::GrmV, OpDesc::GregV),
        0x3au8 => ent2(Mnemonic::Cmp, Category::Arith, IsaSet::I86, 7, 0x8d5, OpDesc::GregB, OpDesc::GrmB),
        0x3bu8 => ent2(Mnemonic::Cmp, Category::Arith, IsaSet::I86, 7, 0x8d5, OpDesc::GregV, OpDesc::GrmV),
        0x3cu8 => ent2(Mnemonic::Cmp, Category::Arith, IsaSet::I86, 7, 0x8d5, OpDesc::IAl, OpDesc::ImmB),
        0x3du8 => ent2(Mnemonic::Cmp, Category::Arith, IsaSet::I86, 7, 0x8d5, OpDesc::IAXv, OpDesc::ImmZ),
        0x3fu8 => ent0(Mnemonic::Aas, Category::Decimal, IsaSet::I86, 3, 0x8d5),
        _ => Entry::Absent,
    }
}

/// One-byte map, opcodes `0x40` through `0x4f`.
pub open spec fn spec_one_byte_row_40(op: u8) -> Entry {
    match op {
        0x40u8 => ent1(Mnemonic::Inc, Category::Arith, IsaSet::I86, 3, 0x8d4, OpDesc::OpcRegV),
        0x41u8 => ent1(Mnemonic::Inc, Category::Arith, IsaSet::I86, 3, 0x8d4, OpDesc::OpcRegV),
        0x42u8 => ent1(Mnemonic::Inc, Category::Arith, IsaSet::I86, 3, 0x8d4, OpDesc::OpcRegV),
        0x43u8 => ent1(Mnemonic::Inc, Category::Arith, IsaSet::I86, 3, 0x8d4, OpDesc::OpcRegV),
        0x44u8 => ent1(Mnemonic::Inc, Category::Arith, IsaSet::I86, 3, 0x8d4, OpDesc::OpcRegV),
        0x45u8 => ent1(Mnemonic::Inc, Category::Arith, IsaSet::I86, 3, 0x8d4, OpDesc::OpcRegV),
        0x46u8 => ent1(Mnemonic::Inc, Category::Arith, IsaSet::I86, 3, 0x8d4, OpDesc::OpcRegV),
        0x47u8 => ent1(Mnemonic::Inc, Category::Arith, IsaSet::I86, 3, 0x8d4, OpDesc::OpcRegV),
        0x48u8 => ent1(Mnemonic::Dec, Category::Arith, IsaSet::I86, 3, 0x8d4, OpDesc::OpcRegV),
        0x49u8 => ent1(Mnemonic::Dec, Category::Arith, IsaSet::I86, 3, 0x8d4, OpDesc::OpcRegV),
        0x4au8 => ent1(Mnemonic::Dec, Category::Arith, IsaSet::I86, 3, 0x8d4, OpDesc::OpcRegV),
        0x4bu8 => ent1(Mnemonic::Dec, Category::Arith, IsaSet::I86, 3, 0x8d4, OpDesc::OpcRegV),
        0x4cu8 => ent1(Mnemonic::Dec, Category::Arith, IsaSet::I86, 3, 0x8d4, OpDesc::OpcRegV),
        0x4du8 => ent1(Mnemonic::Dec, Category::Arith, IsaSet::I86, 3, 0x8d4, OpDesc::OpcRegV),
        0x4eu8 => ent1(Mnemonic::Dec, Category::Arith, IsaSet::I86, 3, 0x8d4, OpDesc::OpcRegV),
        0x4fu8 => ent1(Mnemonic::Dec, Category::Arith, IsaSet::I86, 3, 0x8d4, OpDesc::OpcRegV),
        _ => Entry::Absent,
    }
}

/// One-byte map, opcodes `0x50` through `0x5f`.
pub open spec fn spec_one_byte_row_50(op: u8) -> Entry {
    match op {
        0x50u8 => ent1(Mnemonic::Push, Category::Push, IsaSet::I86, 7, 0x0, OpDesc::OpcRegV64),
        0x51u8 => ent1(Mnemonic::Push, Category::Push, IsaSet::I86, 7, 0x0, OpDesc::OpcRegV64),
        0x52u8 => ent1(Mnemonic::Push, Category::Push, IsaSet::I86, 7, 0x0, OpDesc::OpcRegV64),
        0x53u8 => ent1(Mnemonic::Push, Category::Push, IsaSet::I86, 7, 0x0, OpDesc::OpcRegV64),
        0x54u8 => ent1(Mnemonic::Push, Category::Push, IsaSet::I86, 7, 0x0, OpDesc::OpcRegV64),
        0x55u8 => ent1(Mnemonic::Push, Category::Push, IsaSet::I86, 7, 0x0, OpDesc::OpcRegV64),
        0x56u8 => ent1(Mnemonic::Push, Category::Push, IsaSet::I86, 7, 0x0, OpDesc::OpcRegV64),
        0x57u8 => ent1(Mnemonic::Push, Category::Push, IsaSet::I86, 7, 0x0, OpDesc::OpcRegV64),
        0x58u8 => ent1(Mnemonic::Pop, Category::Pop, IsaSet::I86, 7, 0x0, OpDesc::OpcRegV64),
        0x59u8 => ent1(Mnemonic::Pop, Category::Pop, IsaSet::I86, 7, 0x0, OpDesc::OpcRegV64),
        0x5au8 => ent1(Mnemonic::Pop, Category::Pop, IsaSet::I86, 7, 0x0, OpDesc::OpcRegV64),
        0x5bu8 => ent1(Mnemonic::Pop, Category::Pop, IsaSet::I86, 7, 0x0, OpDesc::OpcRegV64),
        0x5cu8 => ent1(Mnemonic::Pop, Category::Pop, IsaSet::I86, 7, 0x0, OpDesc::OpcRegV64),
        0x5du8 => ent1(Mnemonic::Pop, Category::Pop, IsaSet::I86, 7, 0x0, OpDesc::OpcRegV64),
        0x5eu8 => ent1(Mnemonic::Pop, Category::Pop, IsaSet::I86, 7, 0x0, OpDesc::OpcRegV64),
        0x5fu8 => ent1(Mnemonic::Pop, Category::Pop, IsaSet::I86, 7, 0x0, OpDesc::OpcRegV64),
        _ => Entry::Absent,
    }
}

/// One-byte map, opcodes `0x60` through `0x6f`.
pub open spec fn spec_one_byte_row_60(op: u8) -> Entry {
    match op {
        0x60u8 => ent0(Mnemonic::Pusha, Category::Push, IsaSet::I186, 3, 0x0),
        0x61u8 => ent0(Mnemonic::Popa, Category::Pop, IsaSet::I186, 3, 0x0),
        0x62u8 => ent2(Mnemonic::Bound, Category::Misc, IsaSet::I186, 3, 0x0, OpDesc::GregV, OpDesc::GrmMem),
        0x63u8 => Entry::Split(tpl2(Mnemonic::Arpl, Category::System, IsaSet::I286PROT, 3, 0x40, OpDesc::GrmW, OpDesc::GregW), tpl2(Mnemonic::Movsxd, Category::Dataxfer, IsaSet::LONGMODE, 4, 0x0, OpDesc::GregV, OpDesc::GrmD)),
        0x68u8 => ent1(Mnemonic::Push, Category::Push, IsaSet::I186, 7, 0x0, OpDesc::ImmZ),
        0x69u8 => ent3(Mnemonic::Imul, Category::Arith, IsaSet::I186, 7, 0x801, OpDesc::GregV, OpDesc::GrmV, OpDesc::ImmZ),
        0x6au8 => ent1(Mnemonic::Push, Category::Push, IsaSet::I186, 7, 0x0, OpDesc::ImmBs),
        0x6bu8 => ent3(Mnemonic::Imul, Category::Arith, IsaSet::I186, 7, 0x801, OpDesc::GregV, OpDesc::GrmV, OpDesc::ImmBs),
        0x6cu8 => ent0(Mnemonic::Ins, Category::Iostringop, IsaSet::I186, 7, 0x0),
        0x6du8 => ent0(Mnemonic::Ins, Category::Iostringop, IsaSet::I186, 7, 0x0),
        0x6eu8 => ent0(Mnemonic::Outs, Category::Iostringop, IsaSet::I186, 7, 0x0),
        0x6fu8 => ent0(Mnemonic::Outs, Category::Iostringop, IsaSet::I186, 7, 0x0),
        _ => Entry::Absent,
    }
}

/// One-byte map, opcodes `0x70` through `0x7f`.
pub open spec fn spec_one_byte_row_70(op: u8) -> Entry {
    match op {
        0x70u8 => ent1(Mnemonic::Jo, Category::CondBr, IsaSet::I86, 7, 0x0, OpDesc::RelB),
        0x71u8 => ent1(Mnemonic::Jno, Category::CondBr, IsaSet::I86, 7, 0x0, OpDesc::RelB),
        0x72u8 => ent1(Mnemonic::Jb, Category::CondBr, IsaSet::I86, 7, 0x0, OpDesc::RelB),
        0x73u8 => ent1(Mnemonic::Jae, Category::CondBr, IsaSet::I86, 7, 0x0, OpDesc::RelB),
        0x74u8 => ent1(Mnemonic::Je, Category::CondBr, IsaSet::I86, 7, 0x0, OpDesc::RelB),
        0x75u8 => ent1(Mnemonic::Jne, Category::CondBr, IsaSet::I86, 7, 0x0, OpDesc::RelB),
        0x76u8 => ent1(Mnemonic::Jbe, Category::CondBr, IsaSet::I86, 7, 0x0, OpDesc::RelB),
        0x77u8 => ent1(Mnemonic::Ja, Category::CondBr, IsaSet::I86, 7, 0x0, OpDesc::RelB),
        0x78u8 => ent1(Mnemonic::Js, Category::CondBr, IsaSet::I86, 7, 0x0, OpDesc::RelB),
        0x79u8 => ent1(Mnemonic::Jns, Category::CondBr, IsaSet::I86, 7, 0x0, OpDesc::RelB),
        0x7au8 => ent1(Mnemonic::Jp, Category::CondBr, IsaSet::I86, 7, 0x0, OpDesc::RelB),
        0x7bu8 => ent1(Mnemonic::Jnp, Category::CondBr, IsaSet::I86, 7, 0x0, OpDesc::RelB),
        0x7cu8 => ent1(Mnemonic::Jl, Category::CondBr, IsaSet::I86, 7, 0x0, OpDesc::RelB),
        0x7du8 => ent1(Mnemonic::Jge, Category::CondBr, IsaSet::I86, 7, 0x0, OpDesc::RelB),
        0x7eu8 => ent1(Mnemonic::Jle, Category::CondBr, IsaSet::I86, 7, 0x0, OpDesc::RelB),
        0x7fu8 => ent1(Mnemonic::Jg, Category::CondBr, IsaSet::I86, 7, 0x0, OpDesc::RelB),
        _ => Entry::Absent,
    }
}

/// One-byte map, opcodes `0x80` through `0x8f`.
pub open spec fn spec_one_byte_row_80(op: u8) -> Entry {
    match op {
        0x80u8 => Entry::Grp(GRP_1_EB_IB),
        0x81u8 => Entry::Grp(GRP_1_EV_IZ),
        0x82u8 => Entry::Grp(GRP_1_EB_IB_LEG),
        0x83u8 => Entry::Grp(GRP_1_EV_IBS),
        0x84u8 => ent2(Mnemonic::Test, Category::Logical, IsaSet::I86, 7, 0x8c5, OpDesc::GrmB, OpDesc::GregB),
        0x85u8 => ent2(Mnemonic::Test, Category::Logical, IsaSet::I86, 7, 0x8c5, OpDesc::GrmV, OpDesc::GregV),
        0x86u8 => ent2(Mnemonic::Xchg, Category::Dataxfer, IsaSet::I86, 7, 0x0, OpDesc::GrmB, OpDesc::GregB),
        0x87u8 => ent2(Mnemonic::Xchg, Category::Dataxfer, IsaSet::I86, 7, 0x0, OpDesc::GrmV, OpDesc::GregV),
        0x88u8 => ent2(Mnemonic::Mov, Category::Dataxfer, IsaSet::I86, 7, 0x0, OpDesc::GrmB, OpDesc::GregB),
        0x89u8 => ent2(Mnemonic::Mov, Category::Dataxfer, IsaSet::I86, 7, 0x0, OpDesc::GrmV, OpDesc::GregV),
        0x8au8 => ent2(Mnemonic::Mov, Category::Dataxfer, IsaSet::I86, 7, 0x0, OpDesc::GregB, OpDesc::GrmB),
        0x8bu8 => ent2(Mnemonic::Mov, Category::Dataxfer, IsaSet::I86, 7, 0x0, OpDesc::GregV, OpDesc::GrmV),
        0x8cu8 => ent2(Mnemonic::Mov, Category::Dataxfer, IsaSet::I86, 7, 0x0, OpDesc::GrmV, OpDesc::SegReg),
        0x8du8 => ent2(Mnemonic::Lea, Category::Misc, IsaSet::I86, 7, 0x0, OpDesc::GregV, OpDesc::GrmMem),
        0x8eu8 => ent2(Mnemonic::Mov, Category::Dataxfer, IsaSet::I86, 7, 0x0, OpDesc::SegReg, OpDesc::GrmW),
        0x8fu8 => Entry::Grp(GRP_1A_POP),
        _ => Entry::Absent,
    }
}

/// One-byte map, opcodes `0x90` through `0x9f`.
pub open spec fn spec_one_byte_row_90(op: u8) -> Entry {
    match op {
        0x90u8 => ent0(Mnemonic::Nop, Category::Nop, IsaSet::I86, 7, 0x0),
        0x91u8 => ent2(Mnemonic::Xchg, Category::Dataxfer, IsaSet::I86, 7, 0x0, OpDesc::IAXv, OpDesc::OpcRegV),
        0x92u8 => ent2(Mnemonic::Xchg, Category::Dataxfer, IsaSet::I86, 7, 0x0, OpDesc::IAXv, OpDesc::OpcRegV),
        0x93u8 => ent2(Mnemonic::Xchg, Category::Dataxfer, IsaSet::I86, 7, 0x0, OpDesc::IAXv, OpDesc::OpcRegV),
        0x94u8 => ent2(Mnemonic::Xchg, Category::Dataxfer, IsaSet::I86, 7, 0x0, OpDesc::IAXv, OpDesc::OpcRegV),
        0x95u8 => ent2(Mnemonic::Xchg, Category::Dataxfer, IsaSet::I86, 7, 0x0, OpDesc::IAXv, OpDesc::OpcRegV),
        0x96u8 => ent2(Mnemonic::Xchg, Category::Dataxfer, IsaSet::I86, 7, 0x0, OpDesc::IAXv, OpDesc::OpcRegV),
        0x97u8 => ent2(Mnemonic::Xchg, Category::Dataxfer, IsaSet::I86, 7, 0x0, OpDesc::IAXv, OpDesc::OpcRegV),
        0x98u8 => ent0(Mnemonic::Cbw, Category::Convert, IsaSet::I86, 7, 0x0),
        0x99u8 => ent0(Mnemonic::Cwd, Category::Convert, IsaSet::I86, 7, 0x0),
        0x9au8 => ent2(Mnemonic::Callf, Category::Call, IsaSet::I86, 3, 0x0, OpDesc::ImmZ, OpDesc::ImmW),
        0x9bu8 => ent0(Mnemonic::Wait, Category::Misc, IsaSet::I86, 7, 0x0),
        0x9cu8 => ent0(Mnemonic::Pushf, Category::Push, IsaSet::I86, 7, 0x0),
        0x9du8 => ent0(Mnemonic::Popf, Category::Pop, IsaSet::I86, 7, 0x8d5),
        0x9eu8 => ent0(Mnemonic::Sahf, Category::Flagop, IsaSet::I86, 7, 0xd5),
        0x9fu8 => ent0(Mnemonic::Lahf, Category::Flagop, IsaSet::I86, 7, 0x0),
        _ => Entry::Absent,
    }
}

/// One-byte map, opcodes `0xa0` through `0xaf`.
pub open spec fn spec_one_byte_row_a0(op: u8) -> Entry {
    match op {
        0xa0u8 => ent2(Mnemonic::Mov, Category::Dataxfer, IsaSet::I86, 7, 0x0, OpDesc::IAl, OpDesc::Moffs),
        0xa1u8 => ent2(Mnemonic::Mov, Category::Dataxfer, IsaSet::I86, 7, 0x0, OpDesc::IAXv, OpDesc::Moffs),
        0xa2u8 => ent2(Mnemonic::Mov, Category::Dataxfer, IsaSet::I86, 7, 0x0, OpDesc::Moffs, OpDesc::IAl),
        0xa3u8 => ent2(Mnemonic::Mov, Category::Dataxfer, IsaSet::I86, 7, 0x0, OpDesc::Moffs, OpDesc::IAXv),
        0xa4u8 => ent0(Mnemonic::Movs, Category::Stringop, IsaSet::I86, 7, 0x0),
        0xa5u8 => ent0(Mnemonic::Movs, Category::Stringop, IsaSet::I86, 7, 0x0),
        0xa6u8 => ent0(Mnemonic::Cmps, Category::Stringop, IsaSet::I86, 7, 0x8d5),
        0xa7u8 => ent0(Mnemonic::Cmps, Category::Stringop, IsaSet::I86, 7, 0x8d5),
        0xa8u8 => ent2(Mnemonic::Test, Category::Logical, IsaSet::I86, 7, 0x8c5, OpDesc::IAl, OpDesc::ImmB),
        0xa9u8 => ent2(Mnemonic::Test, Category::Logical, IsaSet::I86, 7, 0x8c5, OpDesc::IAXv, OpDesc::ImmZ),
        0xaau8 => ent0(Mnemonic::Stos, Category::Stringop, IsaSet::I86, 7, 0x0),
        0xabu8 => ent0(Mnemonic::Stos, Category::Stringop, IsaSet::I86, 7, 0x0),
        0xacu8 => ent0(Mnemonic::Lods, Category::Stringop, IsaSet::I86, 7, 0x0),
        0xadu8 => ent0(Mnemonic::Lods, Category::Stringop, IsaSet::I86, 7, 0x0),
        0xaeu8 => ent0(Mnemonic::Scas, Category::Stringop, IsaSet::I86, 7, 0x8d5),
        0xafu8 => ent0(Mnemonic::Scas, Category::Stringop, IsaSet::I86, 7, 0x8d5),
        _ => Entry::Absent,
    }
}

/// One-byte map, opcodes `0xb0` through `0xbf`.
pub open spec fn spec_one_byte_row_b0(op: u8) -> Entry {
    match op {
        0xb0u8 => ent2(Mnemonic::Mov, Category::Dataxfer, IsaSet::I86, 7, 0x0, OpDesc::OpcRegB, OpDesc::ImmB),
        0xb1u8 => ent2(Mnemonic::Mov, Category::Dataxfer, IsaSet::I86, 7, 0x0, OpDesc::OpcRegB, OpDesc::ImmB),
        0xb2u8 => ent2(Mnemonic::Mov, Category::Dataxfer, IsaSet::I86, 7, 0x0, OpDesc::OpcRegB, OpDesc::ImmB),
        0xb3u8 => ent2(Mnemonic::Mov, Category::Dataxfer, IsaSet::I86, 7, 0x0, OpDesc::OpcRegB, OpDesc::ImmB),
        0xb4u8 => ent2(Mnemonic::Mov, Category::Dataxfer, IsaSet::I86, 7, 0x0, OpDesc::OpcRegB, OpDesc::ImmB),
        0xb5u8 => ent2(Mnemonic::Mov, Category::Dataxfer, IsaSet::I86, 7, 0x0, OpDesc::OpcRegB, OpDesc::ImmB),
        0xb6u8 => ent2(Mnemonic::Mov, Category::Dataxfer, IsaSet::I86, 7, 0x0, OpDesc::OpcRegB, OpDesc::ImmB),
        0xb7u8 => ent2(Mnemonic::Mov, Category::Dataxfer, IsaSet::I86, 7, 0x0, OpDesc::OpcRegB, OpDesc::ImmB),
        0xb8u8 => ent2(Mnemonic::Mov, Category::Dataxfer, IsaSet::I86, 7, 0x0, OpDesc::OpcRegV, OpDesc::ImmV),
        0xb9u8 => ent2(Mnemonic::Mov, Category::Dataxfer, IsaSet::I86, 7, 0x0, OpDesc::OpcRegV, OpDesc::ImmV),
        0xbau8 => ent2(Mnemonic::Mov, Category::Dataxfer, IsaSet::I86, 7, 0x0, OpDesc::OpcRegV, OpDesc::ImmV),
        0xbbu8 => ent2(Mnemonic::Mov, Category::Dataxfer, IsaSet::I86, 7, 0x0, OpDesc::OpcRegV, OpDesc::ImmV),
        0xbcu8 => ent2(Mnemonic::Mov, Category::Dataxfer, IsaSet::I86, 7, 0x0, OpDesc::OpcRegV, OpDesc::ImmV),
        0xbdu8 => ent2(Mnemonic::Mov, Category::Dataxfer, IsaSet::I86, 7, 0x0, OpDesc::OpcRegV, OpDesc::ImmV),
        0xbeu8 => ent2(Mnemonic::Mov, Category::Dataxfer, IsaSet::I86, 7, 0x0, OpDesc::OpcRegV, OpDesc::ImmV),
        0xbfu8 => ent2(Mnemonic::Mov, Category::Dataxfer, IsaSet::I86, 7, 0x0, OpDesc::OpcRegV, OpDesc::ImmV),
        _ => Entry::Absent,
    }
}

/// One-byte map, opcodes `0xc0` through `0xcf`.
pub open spec fn spec_one_byte_row_c0(op: u8) -> Entry {
    match op {
        0xc0u8 => Entry::Grp(GRP_2_EB_IB),
        0xc1u8 => Entry::Grp(GRP_2_EV_IB),
        0xc2u8 => ent1(Mnemonic::Ret, Category::Ret, IsaSet::I86, 7, 0x0, OpDesc::ImmW),
        0xc3u8 => ent0(Mnemonic::Ret, Category::Ret, IsaSet::I86, 7, 0x0),
        0xc4u8 => ent2(Mnemonic::Les, Category::Segop, IsaSet::I86, 3, 0x0, OpDesc::GregV, OpDesc::GrmMem),
        0xc5u8 => ent2(Mnemonic::Lds, Category::Segop, IsaSet::I86, 3, 0x0, OpDesc::GregV, OpDesc::GrmMem),
        0xc6u8 => Entry::Grp(GRP_11_EB),
        0xc7u8 => Entry::Grp(GRP_11_EV),
        0xc8u8 => ent2(Mnemonic::Enter, Category::Misc, IsaSet::I186, 7, 0x0, OpDesc::ImmW, OpDesc::ImmB),
        0xc9u8 => ent0(Mnemonic::Leave, Category::Misc, IsaSet::I186, 7, 0x0),
        0xcau8 => ent1(Mnemonic::Retf, Category::Ret, IsaSet::I86, 7, 0x0, OpDesc::ImmW),
        0xcbu8 => ent0(Mnemonic::Retf, Category::Ret, IsaSet::I86, 7, 0x0),
        0xccu8 => ent0(Mnemonic::Int3, Category::Interrupt, IsaSet::I86, 7, 0x0),
        0xcdu8 => ent1(Mnemonic::Int, Category::Interrupt, IsaSet::I86, 7, 0x0, OpDesc::ImmB),
        0xceu8 => ent0(Mnemonic::Into, Category::Interrupt, IsaSet::I86, 3, 0x0),
        0xcfu8 => ent0(Mnemonic::Iret, Category::Ret, IsaSet::I86, 7, 0x8d5),
        _ => Entry::Absent,
    }
}

/// One-byte map, opcodes `0xd0` through `0xdf`.
pub open spec fn spec_one_byte_row_d0(op: u8) -> Entry {
    match op {
        0xd0u8 => Entry::Grp(GRP_2_EB_1),
        0xd1u8 => Entry::Grp(GRP_2_EV_1),
        0xd2u8 => Entry::Grp(GRP_2_EB_CL),
        0xd3u8 => Entry::Grp(GRP_2_EV_CL),
        0xd4u8 => ent1(Mnemonic::Aam, Category::Decimal, IsaSet::I86, 3, 0x8c5, OpDesc::ImmB),
        0xd5u8 => ent1(Mnemonic::Aad, Category::Decimal, IsaSet::I86, 3, 0x8c5, OpDesc::ImmB),
        0xd7u8 => ent0(Mnemonic::Xlat, Category::Misc, IsaSet::I86, 7, 0x0),
        _ => Entry::Absent,
    }
}

/// One-byte map, opcodes `0xe0` through `0xef`.
pub open spec fn spec_one_byte_row_e0(op: u8) -> Entry {
    match op {
        0xe0u8 => ent1(Mnemonic::Loopne, Category::CondBr, IsaSet::I86, 7, 0x0, OpDesc::RelB),
        0xe1u8 => ent1(Mnemonic::Loope, Category::CondBr, IsaSet::I86, 7, 0x0, OpDesc::RelB),
        0xe2u8 => ent1(Mnemonic::Loop, Category::CondBr, IsaSet::I86, 7, 0x0, OpDesc::RelB),
        0xe3u8 => ent1(Mnemonic::Jcxz, Category::CondBr, IsaSet::I86, 7, 0x0, OpDesc::RelB),
        0xe4u8 => ent2(Mnemonic::In, Category::Io, IsaSet::I86, 7, 0x0, OpDesc::IAl, OpDesc::ImmB),
        0xe5u8 => ent2(Mnemonic::In, Category::Io, IsaSet::I86, 7, 0x0, OpDesc::IAXz, OpDesc::ImmB),
        0xe6u8 => ent2(Mnemonic::Out, Category::Io, IsaSet::I86, 7, 0x0, OpDesc::ImmB, OpDesc::IAl),
        0xe7u8 => ent2(Mnemonic::Out, Category::Io, IsaSet::I86, 7, 0x0, OpDesc::ImmB, OpDesc::IAXz),
        0xe8u8 => ent1(Mnemonic::Call, Category::Call, IsaSet::I86, 7, 0x0, OpDesc::RelZ),
        0xe9u8 => ent1(Mnemonic::Jmp, Category::UncondBr, IsaSet::I86, 7, 0x0, OpDesc::RelZ),
        0xeau8 => ent2(Mnemonic::Jmpf, Category::UncondBr, IsaSet::I86, 3, 0x0, OpDesc::ImmZ, OpDesc::ImmW),
        0xebu8 => ent1(Mnemonic::Jmp, Category::UncondBr, IsaSet::I86, 7, 0x0, OpDesc::RelB),
        0xecu8 => ent2(Mnemonic::In, Category::Io, IsaSet::I86, 7, 0x0, OpDesc::IAl, OpDesc::IDx),
        0xedu8 => ent2(Mnemonic::In, Category::Io, IsaSet::I86, 7, 0x0, OpDesc::IAXz, OpDesc::IDx),
        0xeeu8 => ent2(Mnemonic::Out, Category::Io, IsaSet::I86, 7, 0x0, OpDesc::IDx, OpDesc::IAl),
        0xefu8 => ent2(Mnemonic::Out, Category::Io, IsaSet::I86, 7, 0x0, OpDesc::IDx, OpDesc::IAXz),
        _ => Entry::Absent,
    }
}

/// One-byte map, opcodes `0xf0` through `0xff`.
pub open spec fn spec_one_byte_row_f0(op: u8) -> Entry {
    match op {
        0xf1u8 => ent0(Mnemonic::Int1, Category::Interrupt, IsaSet::I86, 7, 0x0),
        0xf4u8 => ent0(Mnemonic::Hlt, Category::System, IsaSet::I86, 7, 0x0),
        0xf5u8 => ent0(Mnemonic::Cmc, Category::Flagop, IsaSet::I86, 7, 0x1),
        0xf6u8 => Entry::Grp(GRP_3_EB),
        0xf7u8 => Entry::Grp(GRP_3_EV),
        0xf8u8 => ent0(Mnemonic::Clc, Category::Flagop, IsaSet::I86, 7, 0x1),
        0xf9u8 => ent0(Mnemonic::Stc, Category::Flagop, IsaSet::I86, 7, 0x1),
        0xfau8 => ent0(Mnemonic::Cli, Category::Flagop, IsaSet::I86, 7, 0x200),
        0xfbu8 => ent0(Mnemonic::Sti, Category::Flagop, IsaSet::I86, 7, 0x200),
        0xfcu8 => ent0(Mnemonic::Cld, Category::Flagop, IsaSet::I86, 7, 0x400),
        0xfdu8 => ent0(Mnemonic::Std, Category::Flagop, IsaSet::I86, 7, 0x400),
        0xfeu8 => Entry::Grp(GRP_4_INCDEC),
        0xffu8 => Entry::Grp(GRP_5_MISC),
        _ => Entry::Absent,
    }
}

/// The one-byte opcode map.
pub open spec fn spec_one_byte(op: u8) -> Entry {
    if op < 0x10 {
        spec_one_byte_row_00(op)
    } else if op < 0x20 {
        spec_one_byte_row_10(op)
    } else if op < 0x30 {
        spec_one_byte_row_20(op)
    } else if op < 0x40 {
        spec_one_byte_row_30(op)
    } else if op < 0x50 {
        spec_one_byte_row_40(op)
    } else if op < 0x60 {
        spec_one_byte_row_50(op)
    } else if op < 0x70 {
        spec_one_byte_row_60(op)
    } else if op < 0x80 {
        spec_one_byte_row_70(op)
    } else if op < 0x90 {
        spec_one_byte_row_80(op)
    } else if op < 0xa0 {
        spec_one_byte_row_90(op)
    } else if op < 0xb0 {
        spec_one_byte_row_a0(op)
    } else if op < 0xc0 {
        spec_one_byte_row_b0(op)
    } else if op < 0xd0 {
        spec_one_byte_row_c0(op)
    } else if op < 0xe0 {
        spec_one_byte_row_d0(op)
    } else if op < 0xf0 {
        spec_one_byte_row_e0(op)
    } else {
        spec_one_byte_row_f0(op)
    }
}

/// Executable twin of [`spec_one_byte_row_00`].
fn one_byte_row_00(op: u8) -> (e: Entry)
    ensures
        e == spec_one_byte_row_00(op),
{
    match op {
        0x00u8 => ent2_x(Mnemonic::Add, Category::Arith, IsaSet::I86, 7, 0x8d5, OpDesc::GrmB, OpDesc::GregB),
        0x01u8 => ent2_x(Mnemonic::Add, Category::Arith, IsaSet::I86, 7, 0x8d5, OpDesc::GrmV, OpDesc::GregV),
        0x02u8 => ent2_x(Mnemonic::Add, Category::Arith, IsaSet::I86, 7, 0x8d5, OpDesc::GregB, OpDesc::GrmB),
        0x03u8 => ent2_x(Mnemonic::Add, Category::Arith, IsaSet::I86, 7, 0x8d5, OpDesc::GregV, OpDesc::GrmV),
        0x04u8 => ent2_x(Mnemonic::Add, Category::Arith, IsaSet::I86, 7, 0x8d5, OpDesc::IAl, OpDesc::ImmB),
        0x05u8 => ent2_x(Mnemonic::Add, Category::Arith, IsaSet::I86, 7, 0x8d5, OpDesc::IAXv, OpDesc::ImmZ),
        0x06u8 => ent1_x(Mnemonic::Push, Category::Push, IsaSet::I86, 3, 0x0, OpDesc::ISeg(0)),
        0x07u8 => ent1_x(Mnemonic::Pop, Category::Pop, IsaSet::I86, 3, 0x0, OpDesc::ISeg(0)),
        0x08u8 => ent2_x(Mnemonic::Or, Category::Logical, IsaSet::I86, 7, 0x8c5, OpDesc::GrmB, OpDesc::GregB),
        0x09u8 => ent2_x(Mnemonic::Or, Category::Logical, IsaSet::I86, 7, 0x8c5, OpDesc::GrmV, OpDesc::GregV),
        0x0au8 => ent2_x(Mnemonic::Or, Category::Logical, IsaSet::I86, 7, 0x8c5, OpDesc::GregB, OpDesc::GrmB),
        0x0bu8 => ent2_x(Mnemonic::Or, Category::Logical, IsaSet::I86, 7, 0x8c5, OpDesc::GregV, OpDesc::GrmV),
        0x0cu8 => ent2_x(Mnemonic::Or, Category::Logical, IsaSet::I86, 7, 0x8c5, OpDesc::IAl, OpDesc::ImmB),
        0x0du8 => ent2_x(Mnemonic::Or, Category::Logical, IsaSet::I86, 7, 0x8c5, OpDesc::IAXv, OpDesc::ImmZ),
        0x0eu8 => ent1_x(Mnemonic::Push, Category::Push, IsaSet::I86, 3, 0x0, OpDesc::ISeg(1)),
        _ => Entry::Absent,
    }
}

/// Executable twin of [`spec_one_byte_row_10`].
fn one_byte_row_10(op: u8) -> (e: Entry)
    ensures
        e == spec_one_byte_row_10(op),
{
    match op {
        0x10u8 => ent2_x(Mnemonic::Adc, Category::Arith, IsaSet::I86, 7, 0x8d5, OpDesc::GrmB, OpDesc::GregB),
        0x11u8 => ent2_x(Mnemonic::Adc, Category::Arith, IsaSet::I86, 7, 0x8d5, OpDesc::GrmV, OpDesc::GregV),
        0x12u8 => ent2_x(Mnemonic::Adc, Category::Arith, IsaSet::I86, 7, 0x8d5, OpDesc::GregB, OpDesc::GrmB),
        0x13u8 => ent2_x(Mnemonic::Adc, Category::Arith, IsaSet::I86, 7, 0x8d5, OpDesc::GregV, OpDesc::GrmV),
        0x14u8 => ent2_x(Mnemonic::Adc, Category::Arith, IsaSet::I86, 7, 0x8d5, OpDesc::IAl, OpDesc::ImmB),
        0x15u8 => ent2_x(Mnemonic::Adc, Category::Arith, IsaSet::I86, 7, 0x8d5, OpDesc::IAXv, OpDesc::ImmZ),
        0x16u8 => ent1_x(Mnemonic::Push, Category::Push, IsaSet::I86, 3, 0x0, OpDesc::ISeg(2)),
        0x17u8 => ent1_x(Mnemonic::Pop, Category::Pop, IsaSet::I86, 3, 0x0, OpDesc::ISeg(2)),
        0x18u8 => ent2_x(Mnemonic::Sbb, Category::Arith, IsaSet::I86, 7, 0x8d5, OpDesc::GrmB, OpDesc::GregB),
        0x19u8 => ent2_x(Mnemonic::Sbb, Category::Arith, IsaSet::I86, 7, 0x8d5, OpDesc::GrmV, OpDesc::GregV),
        0x1au8 => ent2_x(Mnemonic::Sbb, Category::Arith, IsaSet::I86, 7, 0x8d5, OpDesc::GregB, OpDesc::GrmB),
        0x1bu8 => ent2_x(Mnemonic::Sbb, Category::Arith, IsaSet::I86, 7, 0x8d5, OpDesc::GregV, OpDesc::GrmV),
        0x1cu8 => ent2_x(Mnemonic::Sbb, Category::Arith, IsaSet::I86, 7, 0x8d5, OpDesc::IAl, OpDesc::ImmB),
        0x1du8 => ent2_x(Mnemonic::Sbb, Category::Arith, IsaSet::I86, 7, 0x8d5, OpDesc::IAXv, OpDesc::ImmZ),
        0x1eu8 => ent1_x(Mnemonic::Push, Category::Push, IsaSet::I86, 3, 0x0, OpDesc::ISeg(3)),
        0x1fu8 => ent1_x(Mnemonic::Pop, Category::Pop, IsaSet::I86, 3, 0x0, OpDesc::ISeg(3)),
        _ => Entry::Absent,
    }
}

/// Executable twin of [`spec_one_byte_row_20`].
fn one_byte_row_20(op: u8) -> (e: Entry)
    ensures
        e == spec_one_byte_row_20(op),
{
    match op {
        0x20u8 => ent2_x(Mnemonic::And, Category::Logical, IsaSet::I86, 7, 0x8c5, OpDesc::GrmB, OpDesc::GregB),
        0x21u8 => ent2_x(Mnemonic::And, Category::Logical, IsaSet::I86, 7, 0x8c5, OpDesc::GrmV, OpDesc::GregV),
        0x22u8 => ent2_x(Mnemonic::And, Category::Logical, IsaSet::I86, 7, 0x8c5, OpDesc::GregB, OpDesc::GrmB),
        0x23u8 => ent2_x(Mnemonic::And, Category::Logical, IsaSet::I86, 7, 0x8c5, OpDesc::GregV, OpDesc::GrmV),
        0x24u8 => ent2_x(Mnemonic::And, Category::Logical, IsaSet::I86, 7, 0x8c5, OpDesc::IAl, OpDesc::ImmB),
        0x25u8 => ent2_x(Mnemonic::And, Category::Logical, IsaSet::I86, 7, 0x8c5, OpDesc::IAXv, OpDesc::ImmZ),
        0x27u8 => ent0_x(Mnemonic::Daa, Category::Decimal, IsaSet::I86, 3, 0x8d5),
        0x28u8 => ent2_x(Mnemonic::Sub, Category::Arith, IsaSet::I86, 7, 0x8d5, OpDesc::GrmB, OpDesc::GregB),
        0x29u8 => ent2_x(Mnemonic::Sub, Category::Arith, IsaSet::I86, 7, 0x8d5, OpDesc::GrmV, OpDesc::GregV),
        0x2au8 => ent2_x(Mnemonic::Sub, Category::Arith, IsaSet::I86, 7, 0x8d5, OpDesc::GregB, OpDesc::GrmB),
        0x2bu8 => ent2_x(Mnemonic::Sub, Category::Arith, IsaSet::I86, 7, 0x8d5, OpDesc::GregV, OpDesc::GrmV),
        0x2cu8 => ent2_x(Mnemonic::Sub, Category::Arith, IsaSet::I86, 7, 0x8d5, OpDesc::IAl, OpDesc::ImmB),
        0x2du8 => ent2_x(Mnemonic::Sub, Category::Arith, IsaSet::I86, 7, 0x8d5, OpDesc::IAXv, OpDesc::ImmZ),
        0x2fu8 => ent0_x(Mnemonic::Das, Category::Decimal, IsaSet::I86, 3, 0x8d5),
        _ => Entry::Absent,
    }
}

/// Executable twin of [`spec_one_byte_row_30`].
fn one_byte_row_30(op: u8) -> (e: Entry)
    ensures
        e == spec_one_byte_row_30(op),
{
    match op {
        0x30u8 => ent2_x(Mnemonic::Xor, Category::Logical, IsaSet::I86, 7, 0x8c5, OpDesc::GrmB, OpDesc::GregB),
        0x31u8 => ent2_x(Mnemonic::Xor, Category::Logical, IsaSet::I86, 7, 0x8c5, OpDesc::GrmV, OpDesc::GregV),
        0x32u8 => ent2_x(Mnemonic::Xor, Category::Logical, IsaSet::I86, 7, 0x8c5, OpDesc::GregB, OpDesc::GrmB),
        0x33u8 => ent2_x(Mnemonic::Xor, Category::Logical, IsaSet::I86, 7, 0x8c5, OpDesc::GregV, OpDesc::GrmV),
        0x34u8 => ent2_x(Mnemonic::Xor, Category::Logical, IsaSet::I86, 7, 0x8c5, OpDesc::IAl, OpDesc::ImmB),
        0x35u8 => ent2_x(Mnemonic::Xor, Category::Logical, IsaSet::I86, 7, 0x8c5, OpDesc::IAXv, OpDesc::ImmZ),
        0x37u8 => ent0_x(Mnemonic::Aaa, Category::Decimal, IsaSet::I86, 3, 0x8d5),
        0x38u8 => ent2_x(Mnemonic::Cmp, Category::Arith, IsaSet::I86, 7, 0x8d5, OpDesc::GrmB, OpDesc::GregB),
        0x39u8 => ent2_x(Mnemonic::Cmp, Category::Arith, IsaSet::I86, 7, 0x8d5, OpDesc::GrmV, OpDesc::GregV),
        0x3au8 => ent2_x(Mnemonic::Cmp, Category::Arith, IsaSet::I86, 7, 0x8d5, OpDesc::GregB, OpDesc::GrmB),
        0x3bu8 => ent2_x(Mnemonic::Cmp, Category::Arith, IsaSet::I86, 7, 0x8d5, OpDesc::GregV, OpDesc::GrmV),
        0x3cu8 => ent2_x(Mnemonic::Cmp, Category::Arith, IsaSet::I86, 7, 0x8d5, OpDesc::IAl, OpDesc::ImmB),
        0x3du8 => ent2_x(Mnemonic::Cmp, Category::Arith, IsaSet::I86, 7, 0x8d5, OpDesc::IAXv, OpDesc::ImmZ),
        0x3fu8 => ent0_x(Mnemonic::Aas, Category::Decimal, IsaSet::I86, 3, 0x8d5),
        _ => Entry::Absent,
    }
}

/// Executable twin of [`spec_one_byte_row_40`].
fn one_byte_row_40(op: u8) -> (e: Entry)
    ensures
        e == spec_one_byte_row_40(op),
{
    match op {
        0x40u8 => ent1_x(Mnemonic::Inc, Category::Arith, IsaSet::I86, 3, 0x8d4, OpDesc::OpcRegV),
        0x41u8 => ent1_x(Mnemonic::Inc, Category::Arith, IsaSet::I86, 3, 0x8d4, OpDesc::OpcRegV),
        0x42u8 => ent1_x(Mnemonic::Inc, Category::Arith, IsaSet::I86, 3, 0x8d4, OpDesc::OpcRegV),
        0x43u8 => ent1_x(Mnemonic::Inc, Category::Arith, IsaSet::I86, 3, 0x8d4, OpDesc::OpcRegV),
        0x44u8 => ent1_x(Mnemonic::Inc, Category::Arith, IsaSet::I86, 3, 0x8d4, OpDesc::OpcRegV),
        0x45u8 => ent1_x(Mnemonic::Inc, Category::Arith, IsaSet::I86, 3, 0x8d4, OpDesc::OpcRegV),
        0x46u8 => ent1_x(Mnemonic::Inc, Category::Arith, IsaSet::I86, 3, 0x8d4, OpDesc::OpcRegV),
        0x47u8 => ent1_x(Mnemonic::Inc, Category::Arith, IsaSet::I86, 3, 0x8d4, OpDesc::OpcRegV),
        0x48u8 => ent1_x(Mnemonic::Dec, Category::Arith, IsaSet::I86, 3, 0x8d4, OpDesc::OpcRegV),
        0x49u8 => ent1_x(Mnemonic::Dec, Category::Arith, IsaSet::I86, 3, 0x8d4, OpDesc::OpcRegV),
        0x4au8 => ent1_x(Mnemonic::Dec, Category::Arith, IsaSet::I86, 3, 0x8d4, OpDesc::OpcRegV),
        0x4bu8 => ent1_x(Mnemonic::Dec, Category::Arith, IsaSet::I86, 3, 0x8d4, OpDesc::OpcRegV),
        0x4cu8 => ent1_x(Mnemonic::Dec, Category::Arith, IsaSet::I86, 3, 0x8d4, OpDesc::OpcRegV),
        0x4du8 => ent1_x(Mnemonic::Dec, Category::Arith, IsaSet::I86, 3, 0x8d4, OpDesc::OpcRegV),
        0x4eu8 => ent1_x(Mnemonic::Dec, Category::Arith, IsaSet::I86, 3, 0x8d4, OpDesc::OpcRegV),
        0x4fu8 => ent1_x(Mnemonic::Dec, Category::Arith, IsaSet::I86, 3, 0x8d4, OpDesc::OpcRegV),
        _ => Entry::Absent,
    }
}

/// Executable twin of [`spec_one_byte_row_50`].
fn one_byte_row_50(op: u8) -> (e: Entry)
    ensures
        e == spec_one_byte_row_50(op),
{
    match op {
        0x50u8 => ent1_x(Mnemonic::Push, Category::Push, IsaSet::I86, 7, 0x0, OpDesc::OpcRegV64),
        0x51u8 => ent1_x(Mnemonic::Push, Category::Push, IsaSet::I86, 7, 0x0, OpDesc::OpcRegV64),
        0x52u8 => ent1_x(Mnemonic::Push, Category::Push, IsaSet::I86, 7, 0x0, OpDesc::OpcRegV64),
        0x53u8 => ent1_x(Mnemonic::Push, Category::Push, IsaSet::I86, 7, 0x0, OpDesc::OpcRegV64),
        0x54u8 => ent1_x(Mnemonic::Push, Category::Push, IsaSet::I86, 7, 0x0, OpDesc::OpcRegV64),
        0x55u8 => ent1_x(Mnemonic::Push, Category::Push, IsaSet::I86, 7, 0x0, OpDesc::OpcRegV64),
        0x56u8 => ent1_x(Mnemonic::Push, Category::Push, IsaSet::I86, 7, 0x0, OpDesc::OpcRegV64),
        0x57u8 => ent1_x(Mnemonic::Push, Category::Push, IsaSet::I86, 7, 0x0, OpDesc::OpcRegV64),
        0x58u8 => ent1_x(Mnemonic::Pop, Category::Pop, IsaSet::I86, 7, 0x0, OpDesc::OpcRegV64),
        0x59u8 => ent1_x(Mnemonic::Pop, Category::Pop, IsaSet::I86, 7, 0x0, OpDesc::OpcRegV64),
        0x5au8 => ent1_x(Mnemonic::Pop, Category::Pop, IsaSet::I86, 7, 0x0, OpDesc::OpcRegV64),
        0x5bu8 => ent1_x(Mnemonic::Pop, Category::Pop, IsaSet::I86, 7, 0x0, OpDesc::OpcRegV64),
        0x5cu8 => ent1_x(Mnemonic::Pop, Category::Pop, IsaSet::I86, 7, 0x0, OpDesc::OpcRegV64),
        0x5du8 => ent1_x(Mnemonic::Pop, Category::Pop, IsaSet::I86, 7, 0x0, OpDesc::OpcRegV64),
        0x5eu8 => ent1_x(Mnemonic::Pop, Category::Pop, IsaSet::I86, 7, 0x0, OpDesc::OpcRegV64),
        0x5fu8 => ent1_x(Mnemonic::Pop, Category::Pop, IsaSet::I86, 7, 0x0, OpDesc::OpcRegV64),
        _ => Entry::Absent,
    }
}

/// Executable twin of [`spec_one_byte_row_60`].
fn one_byte_row_60(op: u8) -> (e: Entry)
    ensures
        e == spec_one_byte_row_60(op),
{
    match op {
        0x60u8 => ent0_x(Mnemonic::Pusha, Category::Push, IsaSet::I186, 3, 0x0),
        0x61u8 => ent0_x(Mnemonic::Popa, Category::Pop, IsaSet::I186, 3, 0x0),
        0x62u8 => ent2_x(Mnemonic::Bound, Category::Misc, IsaSet::I186, 3, 0x0, OpDesc::GregV, OpDesc::GrmMem),
        0x63u8 => Entry::Split(tpl2_x(Mnemonic::Arpl, Category::System, IsaSet::I286PROT, 3, 0x40, OpDesc::GrmW, OpDesc::GregW), tpl2_x(Mnemonic::Movsxd, Category::Dataxfer, IsaSet::LONGMODE, 4, 0x0, OpDesc::GregV, OpDesc::GrmD)),
        0x68u8 => ent1_x(Mnemonic::Push, Category::Push, IsaSet::I186, 7, 0x0, OpDesc::ImmZ),
        0x69u8 => ent3_x(Mnemonic::Imul, Category::Arith, IsaSet::I186, 7, 0x801, OpDesc::GregV, OpDesc::GrmV, OpDesc::ImmZ),
        0x6au8 => ent1_x(Mnemonic::Push, Category::Push, IsaSet::I186, 7, 0x0, OpDesc::ImmBs),
        0x6bu8 => ent3_x(Mnemonic::Imul, Category::Arith, IsaSet::I186, 7, 0x801, OpDesc::GregV, OpDesc::GrmV, OpDesc::ImmBs),
        0x6cu8 => ent0_x(Mnemonic::Ins, Category::Iostringop, IsaSet::I186, 7, 0x0),
        0x6du8 => ent0_x(Mnemonic::Ins, Category::Iostringop, IsaSet::I186, 7, 0x0),
        0x6eu8 => ent0_x(Mnemonic::Outs, Category::Iostringop, IsaSet::I186, 7, 0x0),
        0x6fu8 => ent0_x(Mnemonic::Outs, Category::Iostringop, IsaSet::I186, 7, 0x0),
        _ => Entry::Absent,
    }
}

/// Executable twin of [`spec_one_byte_row_70`].
fn one_byte_row_70(op: u8) -> (e: Entry)
    ensures
        e == spec_one_byte_row_70(op),
{
    match op {
        0x70u8 => ent1_x(Mnemonic::Jo, Category::CondBr, IsaSet::I86, 7, 0x0, OpDesc::RelB),
        0x71u8 => ent1_x(Mnemonic::Jno, Category::CondBr, IsaSet::I86, 7, 0x0, OpDesc::RelB),
        0x72u8 => ent1_x(Mnemonic::Jb, Category::CondBr, IsaSet::I86, 7, 0x0, OpDesc::RelB),
        0x73u8 => ent1_x(Mnemonic::Jae, Category::CondBr, IsaSet::I86, 7, 0x0, OpDesc::RelB),
        0x74u8 => ent1_x(Mnemonic::Je, Category::CondBr, IsaSet::I86, 7, 0x0, OpDesc::RelB),
        0x75u8 => ent1_x(Mnemonic::Jne, Category::CondBr, IsaSet::I86, 7, 0x0, OpDesc::RelB),
        0x76u8 => ent1_x(Mnemonic::Jbe, Category::CondBr, IsaSet::I86, 7, 0x0, OpDesc::RelB),
        0x77u8 => ent1_x(Mnemonic::Ja, Category::CondBr, IsaSet::I86, 7, 0x0, OpDesc::RelB),
        0x78u8 => ent1_x(Mnemonic::Js, Category::CondBr, IsaSet::I86, 7, 0x0, OpDesc::RelB),
        0x79u8 => ent1_x(Mnemonic::Jns, Category::CondBr, IsaSet::I86, 7, 0x0, OpDesc::RelB),
        0x7au8 => ent1_x(Mnemonic::Jp, Category::CondBr, IsaSet::I86, 7, 0x0, OpDesc::RelB),
        0x7bu8 => ent1_x(Mnemonic::Jnp, Category::CondBr, IsaSet::I86, 7, 0x0, OpDesc::RelB),
        0x7cu8 => ent1_x(Mnemonic::Jl, Category::CondBr, IsaSet::I86, 7, 0x0, OpDesc::RelB),
        0x7du8 => ent1_x(Mnemonic::Jge, Category::CondBr, IsaSet::I86, 7, 0x0, OpDesc::RelB),
        0x7eu8 => ent1_x(Mnemonic::Jle, Category::CondBr, IsaSet::I86, 7, 0x0, OpDesc::RelB),
        0x7fu8 => ent1_x(Mnemonic::Jg, Category::CondBr, IsaSet::I86, 7, 0x0, OpDesc::RelB),
        _ => Entry::Absent,
    }
}

/// Executable twin of [`spec_one_byte_row_80`].
fn one_byte_row_80(op: u8) -> (e: Entry)
    ensures
        e == spec_one_byte_row_80(op),
{
    match op {
        0x80u8 => Entry::Grp(GRP_1_EB_IB),
        0x81u8 => Entry::Grp(GRP_1_EV_IZ),
        0x82u8 => Entry::Grp(GRP_1_EB_IB_LEG),
        0x83u8 => Entry::Grp(GRP_1_EV_IBS),
        0x84u8 => ent2_x(Mnemonic::Test, Category::Logical, IsaSet::I86, 7, 0x8c5, OpDesc::GrmB, OpDesc::GregB),
        0x85u8 => ent2_x(Mnemonic::Test, Category::Logical, IsaSet::I86, 7, 0x8c5, OpDesc::GrmV, OpDesc::GregV),
        0x86u8 => ent2_x(Mnemonic::Xchg, Category::Dataxfer, IsaSet::I86, 7, 0x0, OpDesc::GrmB, OpDesc::GregB),
        0x87u8 => ent2_x(Mnemonic::Xchg, Category::Dataxfer, IsaSet::I86, 7, 0x0, OpDesc::GrmV, OpDesc::GregV),
        0x88u8 => ent2_x(Mnemonic::Mov, Category::Dataxfer, IsaSet::I86, 7, 0x0, OpDesc::GrmB, OpDesc::GregB),
        0x89u8 => ent2_x(Mnemonic::Mov, Category::Dataxfer, IsaSet::I86, 7, 0x0, OpDesc::GrmV, OpDesc::GregV),
        0x8au8 => ent2_x(Mnemonic::Mov, Category::Dataxfer, IsaSet::I86, 7, 0x0, OpDesc::GregB, OpDesc::GrmB),
        0x8bu8 => ent2_x(Mnemonic::Mov, Category::Dataxfer, IsaSet::I86, 7, 0x0, OpDesc::GregV, OpDesc::GrmV),
        0x8cu8 => ent2_x(Mnemonic::Mov, Category::Dataxfer, IsaSet::I86, 7, 0x0, OpDesc::GrmV, OpDesc::SegReg),
        0x8du8 => ent2_x(Mnemonic::Lea, Category::Misc, IsaSet::I86, 7, 0x0, OpDesc::GregV, OpDesc::GrmMem),
        0x8eu8 => ent2_x(Mnemonic::Mov, Category::Dataxfer, IsaSet::I86, 7, 0x0, OpDesc::SegReg, OpDesc::GrmW),
        0x8fu8 => Entry::Grp(GRP_1A_POP),
        _ => Entry::Absent,
    }
}

/// Executable twin of [`spec_one_byte_row_90`].
fn one_byte_row_90(op: u8) -> (e: Entry)
    ensures
        e == spec_one_byte_row_90(op),
{
    match op {
        0x90u8 => ent0_x(Mnemonic::Nop, Category::Nop, IsaSet::I86, 7, 0x0),
        0x91u8 => ent2_x(Mnemonic::Xchg, Category::Dataxfer, IsaSet::I86, 7, 0x0, OpDesc::IAXv, OpDesc::OpcRegV),
        0x92u8 => ent2_x(Mnemonic::Xchg, Category::Dataxfer, IsaSet::I86, 7, 0x0, OpDesc::IAXv, OpDesc::OpcRegV),
        0x93u8 => ent2_x(Mnemonic::Xchg, Category::Dataxfer, IsaSet::I86, 7, 0x0, OpDesc::IAXv, OpDesc::OpcRegV),
        0x94u8 => ent2_x(Mnemonic::Xchg, Category::Dataxfer, IsaSet::I86, 7, 0x0, OpDesc::IAXv, OpDesc::OpcRegV),
        0x95u8 => ent2_x(Mnemonic::Xchg, Category::Dataxfer, IsaSet::I86, 7, 0x0, OpDesc::IAXv, OpDesc::OpcRegV),
        0x96u8 => ent2_x(Mnemonic::Xchg, Category::Dataxfer, IsaSet::I86, 7, 0x0, OpDesc::IAXv, OpDesc::OpcRegV),
        0x97u8 => ent2_x(Mnemonic::Xchg, Category::Dataxfer, IsaSet::I86, 7, 0x0, OpDesc::IAXv, OpDesc::OpcRegV),
        0x98u8 => ent0_x(Mnemonic::Cbw, Category::Convert, IsaSet::I86, 7, 0x0),
        0x99u8 => ent0_x(Mnemonic::Cwd, Category::Convert, IsaSet::I86, 7, 0x0),
        0x9au8 => ent2_x(Mnemonic::Callf, Category::Call, IsaSet::I86, 3, 0x0, OpDesc::ImmZ, OpDesc::ImmW),
        0x9bu8 => ent0_x(Mnemonic::Wait, Category::Misc, IsaSet::I86, 7, 0x0),
        0x9cu8 => ent0_x(Mnemonic::Pushf, Category::Push, IsaSet::I86, 7, 0x0),
        0x9du8 => ent0_x(Mnemonic::Popf, Category::Pop, IsaSet::I86, 7, 0x8d5),
        0x9eu8 => ent0_x(Mnemonic::Sahf, Category::Flagop, IsaSet::I86, 7, 0xd5),
        0x9fu8 => ent0_x(Mnemonic::Lahf, Category::Flagop, IsaSet::I86, 7, 0x0),
        _ => Entry::Absent,
    }
}

/// Executable twin of [`spec_one_byte_row_a0`].
fn one_byte_row_a0(op: u8) -> (e: Entry)
    ensures
        e == spec_one_byte_row_a0(op),
{
    match op {
        0xa0u8 => ent2_x(Mnemonic::Mov, Category::Dataxfer, IsaSet::I86, 7, 0x0, OpDesc::IAl, OpDesc::Moffs),
        0xa1u8 => ent2_x(Mnemonic::Mov, Category::Dataxfer, IsaSet::I86, 7, 0x0, OpDesc::IAXv, OpDesc::Moffs),
        0xa2u8 => ent2_x(Mnemonic::Mov, Category::Dataxfer, IsaSet::I86, 7, 0x0, OpDesc::Moffs, OpDesc::IAl),
        0xa3u8 => ent2_x(Mnemonic::Mov, Category::Dataxfer, IsaSet::I86, 7, 0x0, OpDesc::Moffs, OpDesc::IAXv),
        0xa4u8 => ent0_x(Mnemonic::Movs, Category::Stringop, IsaSet::I86, 7, 0x0),
        0xa5u8 => ent0_x(Mnemonic::Movs, Category::Stringop, IsaSet::I86, 7, 0x0),
        0xa6u8 => ent0_x(Mnemonic::Cmps, Category::Stringop, IsaSet::I86, 7, 0x8d5),
        0xa7u8 => ent0_x(Mnemonic::Cmps, Category::Stringop, IsaSet::I86, 7, 0x8d5),
        0xa8u8 => ent2_x(Mnemonic::Test, Category::Logical, IsaSet::I86, 7, 0x8c5, OpDesc::IAl, OpDesc::ImmB),
        0xa9u8 => ent2_x(Mnemonic::Test, Category::Logical, IsaSet::I86, 7, 0x8c5, OpDesc::IAXv, OpDesc::ImmZ),
        0xaau8 => ent0_x(Mnemonic::Stos, Category::Stringop, IsaSet::I86, 7, 0x0),
        0xabu8 => ent0_x(Mnemonic::Stos, Category::Stringop, IsaSet::I86, 7, 0x0),
        0xacu8 => ent0_x(Mnemonic::Lods, Category::Stringop, IsaSet::I86, 7, 0x0),
        0xadu8 => ent0_x(Mnemonic::Lods, Category::Stringop, IsaSet::I86, 7, 0x0),
        0xaeu8 => ent0_x(Mnemonic::Scas, Category::Stringop, IsaSet::I86, 7, 0x8d5),
        0xafu8 => ent0_x(Mnemonic::Scas, Category::Stringop, IsaSet::I86, 7, 0x8d5),
        _ => Entry::Absent,
    }
}

/// Executable twin of [`spec_one_byte_row_b0`].
fn one_byte_row_b0(op: u8) -> (e: Entry)
    ensures
        e == spec_one_byte_row_b0(op),
{
    match op {
        0xb0u8 => ent2_x(Mnemonic::Mov, Category::Dataxfer, IsaSet::I86, 7, 0x0, OpDesc::OpcRegB, OpDesc::ImmB),
        0xb1u8 => ent2_x(Mnemonic::Mov, Category::Dataxfer, IsaSet::I86, 7, 0x0, OpDesc::OpcRegB, OpDesc::ImmB),
        0xb2u8 => ent2_x(Mnemonic::Mov, Category::Dataxfer, IsaSet::I86, 7, 0x0, OpDesc::OpcRegB, OpDesc::ImmB),
        0xb3u8 => ent2_x(Mnemonic::Mov, Category::Dataxfer, IsaSet::I86, 7, 0x0, OpDesc::OpcRegB, OpDesc::ImmB),
        0xb4u8 => ent2_x(Mnemonic::Mov, Category::Dataxfer, IsaSet::I86, 7, 0x0, OpDesc::OpcRegB, OpDesc::ImmB),
        0xb5u8 => ent2_x(Mnemonic::Mov, Category::Dataxfer, IsaSet::I86, 7, 0x0, OpDesc::OpcRegB, OpDesc::ImmB),
        0xb6u8 => ent2_x(Mnemonic::Mov, Category::Dataxfer, IsaSet::I86, 7, 0x0, OpDesc::OpcRegB, OpDesc::ImmB),
        0xb7u8 => ent2_x(Mnemonic::Mov, Category::Dataxfer, IsaSet::I86, 7, 0x0, OpDesc::OpcRegB, OpDesc::ImmB),
        0xb8u8 => ent2_x(Mnemonic::Mov, Category::Dataxfer, IsaSet::I86, 7, 0x0, OpDesc::OpcRegV, OpDesc::ImmV),
        0xb9u8 => ent2_x(Mnemonic::Mov, Category::Dataxfer, IsaSet::I86, 7, 0x0, OpDesc::OpcRegV, OpDesc::ImmV),
        0xbau8 => ent2_x(Mnemonic::Mov, Category::Dataxfer, IsaSet::I86, 7, 0x0, OpDesc::OpcRegV, OpDesc::ImmV),
        0xbbu8 => ent2_x(Mnemonic::Mov, Category::Dataxfer, IsaSet::I86, 7, 0x0, OpDesc::OpcRegV, OpDesc::ImmV),
        0xbcu8 => ent2_x(Mnemonic::Mov, Category::Dataxfer, IsaSet::I86, 7, 0x0, OpDesc::OpcRegV, OpDesc::ImmV),
        0xbdu8 => ent2_x(Mnemonic::Mov, Category::Dataxfer, IsaSet::I86, 7, 0x0, OpDesc::OpcRegV, OpDesc::ImmV),
        0xbeu8 => ent2_x(Mnemonic::Mov, Category::Dataxfer, IsaSet::I86, 7, 0x0, OpDesc::OpcRegV, OpDesc::ImmV),
        0xbfu8 => ent2_x(Mnemonic::Mov, Category::Dataxfer, IsaSet::I86, 7, 0x0, OpDesc::OpcRegV, OpDesc::ImmV),
        _ => Entry::Absent,
    }
}

/// Executable twin of [`spec_one_byte_row_c0`].
fn one_byte_row_c0(op: u8) -> (e: Entry)
    ensures
        e == spec_one_byte_row_c0(op),
{
    match op {
        0xc0u8 => Entry::Grp(GRP_2_EB_IB),
        0xc1u8 => Entry::Grp(GRP_2_EV_IB),
        0xc2u8 => ent1_x(Mnemonic::Ret, Category::Ret, IsaSet::I86, 7, 0x0, OpDesc::ImmW),
        0xc3u8 => ent0_x(Mnemonic::Ret, Category::Ret, IsaSet::I86, 7, 0x0),
        0xc4u8 => ent2_x(Mnemonic::Les, Category::Segop, IsaSet::I86, 3, 0x0, OpDesc::GregV, OpDesc::GrmMem),
        0xc5u8 => ent2_x(Mnemonic::Lds, Category::Segop, IsaSet::I86, 3, 0x0, OpDesc::GregV, OpDesc::GrmMem),
        0xc6u8 => Entry::Grp(GRP_11_EB),
        0xc7u8 => Entry::Grp(GRP_11_EV),
        0xc8u8 => ent2_x(Mnemonic::Enter, Category::Misc, IsaSet::I186, 7, 0x0, OpDesc::ImmW, OpDesc::ImmB),
        0xc9u8 => ent0_x(Mnemonic::Leave, Category::Misc, IsaSet::I186, 7, 0x0),
        0xcau8 => ent1_x(Mnemonic::Retf, Category::Ret, IsaSet::I86, 7, 0x0, OpDesc::ImmW),
        0xcbu8 => ent0_x(Mnemonic::Retf, Category::Ret, IsaSet::I86, 7, 0x0),
        0xccu8 => ent0_x(Mnemonic::Int3, Category::Interrupt, IsaSet::I86, 7, 0x0),
        0xcdu8 => ent1_x(Mnemonic::Int, Category::Interrupt, IsaSet::I86, 7, 0x0, OpDesc::ImmB),
        0xceu8 => ent0_x(Mnemonic::Into, Category::Interrupt, IsaSet::I86, 3, 0x0),
        0xcfu8 => ent0_x(Mnemonic::Iret, Category::Ret, IsaSet::I86, 7, 0x8d5),
        _ => Entry::Absent,
    }
}

/// Executable twin of [`spec_one_byte_row_d0`].
fn one_byte_row_d0(op: u8) -> (e: Entry)
    ensures
        e == spec_one_byte_row_d0(op),
{
    match op {
        0xd0u8 => Entry::Grp(GRP_2_EB_1),
        0xd1u8 => Entry::Grp(GRP_2_EV_1),
        0xd2u8 => Entry::Grp(GRP_2_EB_CL),
        0xd3u8 => Entry::Grp(GRP_2_EV_CL),
        0xd4u8 => ent1_x(Mnemonic::Aam, Category::Decimal, IsaSet::I86, 3, 0x8c5, OpDesc::ImmB),
        0xd5u8 => ent1_x(Mnemonic::Aad, Category::Decimal, IsaSet::I86, 3, 0x8c5, OpDesc::ImmB),
        0xd7u8 => ent0_x(Mnemonic::Xlat, Category::Misc, IsaSet::I86, 7, 0x0),
        _ => Entry::Absent,
    }
}

/// Executable twin of [`spec_one_byte_row_e0`].
fn one_byte_row_e0(op: u8) -> (e: Entry)
    ensures
        e == spec_one_byte_row_e0(op),
{
    match op {
        0xe0u8 => ent1_x(Mnemonic::Loopne, Category::CondBr, IsaSet::I86, 7, 0x0, OpDesc::RelB),
        0xe1u8 => ent1_x(Mnemonic::Loope, Category::CondBr, IsaSet::I86, 7, 0x0, OpDesc::RelB),
        0xe2u8 => ent1_x(Mnemonic::Loop, Category::CondBr, IsaSet::I86, 7, 0x0, OpDesc::RelB),
        0xe3u8 => ent1_x(Mnemonic::Jcxz, Category::CondBr, IsaSet::I86, 7, 0x0, OpDesc::RelB),
        0xe4u8 => ent2_x(Mnemonic::In, Category::Io, IsaSet::I86, 7, 0x0, OpDesc::IAl, OpDesc::ImmB),
        0xe5u8 => ent2_x(Mnemonic::In, Category::Io, IsaSet::I86, 7, 0x0, OpDesc::IAXz, OpDesc::ImmB),
        0xe6u8 => ent2_x(Mnemonic::Out, Category::Io, IsaSet::I86, 7, 0x0, OpDesc::ImmB, OpDesc::IAl),
        0xe7u8 => ent2_x(Mnemonic::Out, Category::Io, IsaSet::I86, 7, 0x0, OpDesc::ImmB, OpDesc::IAXz),
        0xe8u8 => ent1_x(Mnemonic::Call, Category::Call, IsaSet::I86, 7, 0x0, OpDesc::RelZ),
        0xe9u8 => ent1_x(Mnemonic::Jmp, Category::UncondBr, IsaSet::I86, 7, 0x0, OpDesc::RelZ),
        0xeau8 => ent2_x(Mnemonic::Jmpf, Category::UncondBr, IsaSet::I86, 3, 0x0, OpDesc::ImmZ, OpDesc::ImmW),
        0xebu8 => ent1_x(Mnemonic::Jmp, Category::UncondBr, IsaSet::I86, 7, 0x0, OpDesc::RelB),
        0xecu8 => ent2_x(Mnemonic::In, Category::Io, IsaSet::I86, 7, 0x0, OpDesc::IAl, OpDesc::IDx),
        0xedu8 => ent2_x(Mnemonic::In, Category::Io, IsaSet::I86, 7, 0x0, OpDesc::IAXz, OpDesc::IDx),
        0xeeu8 => ent2_x(Mnemonic::Out, Category::Io, IsaSet::I86, 7, 0x0, OpDesc::IDx, OpDesc::IAl),
        0xefu8 => ent2_x(Mnemonic::Out, Category::Io, IsaSet::I86, 7, 0x0, OpDesc::IDx, OpDesc::IAXz),
        _ => Entry::Absent,
    }
}

/// Executable twin of [`spec_one_byte_row_f0`].
fn one_byte_row_f0(op: u8) -> (e: Entry)
    ensures
        e == spec_one_byte_row_f0(op),
{
    match op {
        0xf1u8 => ent0_x(Mnemonic::Int1, Category::Interrupt, IsaSet::I86, 7, 0x0),
        0xf4u8 => ent0_x(Mnemonic::Hlt, Category::System, IsaSet::I86, 7, 0x0),
        0xf5u8 => ent0_x(Mnemonic::Cmc, Category::Flagop, IsaSet::I86, 7, 0x1),
        0xf6u8 => Entry::Grp(GRP_3_EB),
        0xf7u8 => Entry::Grp(GRP_3_EV),
        0xf8u8 => ent0_x(Mnemonic::Clc, Category::Flagop, IsaSet::I86, 7, 0x1),
        0xf9u8 => ent0_x(Mnemonic::Stc, Category::Flagop, IsaSet::I86, 7, 0x1),
        0xfau8 => ent0_x(Mnemonic::Cli, Category::Flagop, IsaSet::I86, 7, 0x200),
        0xfbu8 => ent0_x(Mnemonic::Sti, Category::Flagop, IsaSet::I86, 7, 0x200),
        0xfcu8 => ent0_x(Mnemonic::Cld, Category::Flagop, IsaSet::I86, 7, 0x400),
        0xfdu8 => ent0_x(Mnemonic::Std, Category::Flagop, IsaSet::I86, 7, 0x400),
        0xfeu8 => Entry::Grp(GRP_4_INCDEC),
        0xffu8 => Entry::Grp(GRP_5_MISC),
        _ => Entry::Absent,
    }
}

/// Executable twin of [`spec_one_byte`].
pub fn one_byte(op: u8) -> (e: Entry)
    ensures
        e == spec_one_byte(op),
{
    if op < 0x10 {
        one_byte_row_00(op)
    } else if op < 0x20 {
        one_byte_row_10(op)
    } else if op < 0x30 {
        one_byte_row_20(op)
    } else if op < 0x40 {
        one_byte_row_30(op)
    } else if op < 0x50 {
        one_byte_row_40(op)
    } else if op < 0x60 {
        one_byte_row_50(op)
    } else if op < 0x70 {
        one_byte_row_60(op)
    } else if op < 0x80 {
        one_byte_row_70(op)
    } else if op < 0x90 {
        one_byte_row_80(op)
    } else if op < 0xa0 {
        one_byte_row_90(op)
    } else if op < 0xb0 {
        one_byte_row_a0(op)
    } else if op < 0xc0 {
        one_byte_row_b0(op)
    } else if op < 0xd0 {
        one_byte_row_c0(op)
    } else if op < 0xe0 {
        one_byte_row_d0(op)
    } else if op < 0xf0 {
        one_byte_row_e0(op)
    } else {
        one_byte_row_f0(op)
    }
}

/// The rows of group table `GRP_1_EB_IB`.
pub open spec fn spec_group_grp_1_eb_ib(reg: u8) -> Entry {
    match reg {
        0u8 => ent2(Mnemonic::Add, Category::Arith, IsaSet::I86, 7, 0x8d5, OpDesc::GrmB, OpDesc::ImmB),
        1u8 => ent2(Mnemonic::Or, Category::Logical, IsaSet::I86, 7, 0x8c5, OpDesc::GrmB, OpDesc::ImmB),
        2u8 => ent2(Mnemonic::Adc, Category::Arith, IsaSet::I86, 7, 0x8d5, OpDesc::GrmB, OpDesc::ImmB),
        3u8 => ent2(Mnemonic::Sbb, Category::Arith, IsaSet::I86, 7, 0x8d5, OpDesc::GrmB, OpDesc::ImmB),
        4u8 => ent2(Mnemonic::And, Category::Logical, IsaSet::I86, 7, 0x8c5, OpDesc::GrmB, OpDesc::ImmB),
        5u8 => ent2(Mnemonic::Sub, Category::Arith, IsaSet::I86, 7, 0x8d5, OpDesc::GrmB, OpDesc::ImmB),
        6u8 => ent2(Mnemonic::Xor, Category::Logical, IsaSet::I86, 7, 0x8c5, OpDesc::GrmB, OpDesc::ImmB),
        7u8 => ent2(Mnemonic::Cmp, Category::Arith, IsaSet::I86, 7, 0x8d5, OpDesc::GrmB, OpDesc::ImmB),
        _ => Entry::Absent,
    }
}

/// The rows of group table `GRP_1_EV_IZ`.
pub open spec fn spec_group_grp_1_ev_iz(reg: u8) -> Entry {
    match reg {
        0u8 => ent2(Mnemonic::Add, Category::Arith, IsaSet::I86, 7, 0x8d5, OpDesc::GrmV, OpDesc::ImmZ),
        1u8 => ent2(Mnemonic::Or, Category::Logical, IsaSet::I86, 7, 0x8c5, OpDesc::GrmV, OpDesc::ImmZ),
        2u8 => ent2(Mnemonic::Adc, Category::Arith, IsaSet::I86, 7, 0x8d5, OpDesc::GrmV, OpDesc::ImmZ),
        3u8 => ent2(Mnemonic::Sbb, Category::Arith, IsaSet::I86, 7, 0x8d5, OpDesc::GrmV, OpDesc::ImmZ),
        4u8 => ent2(Mnemonic::And, Category::Logical, IsaSet::I86, 7, 0x8c5, OpDesc::GrmV, OpDesc::ImmZ),
        5u8 => ent2(Mnemonic::Sub, Category::Arith, IsaSet::I86, 7, 0x8d5, OpDesc::GrmV, OpDesc::ImmZ),
        6u8 => ent2(Mnemonic::Xor, Category::Logical, IsaSet::I86, 7, 0x8c5, OpDesc::GrmV, OpDesc::ImmZ),
        7u8 => ent2(Mnemonic::Cmp, Category::Arith, IsaSet::I86, 7, 0x8d5, OpDesc::GrmV, OpDesc::ImmZ),
        _ => Entry::Absent,
    }
}

/// The rows of group table `GRP_1_EB_IB_LEG`.
pub open spec fn spec_group_grp_1_eb_ib_leg(reg: u8) -> Entry {
    match reg {
        0u8 => ent2(Mnemonic::Add, Category::Arith, IsaSet::I86, 3, 0x8d5, OpDesc::GrmB, OpDesc::ImmB),
        1u8 => ent2(Mnemonic::Or, Category::Logical, IsaSet::I86, 3, 0x8c5, OpDesc::GrmB, OpDesc::ImmB),
        2u8 => ent2(Mnemonic::Adc, Category::Arith, IsaSet::I86, 3, 0x8d5, OpDesc::GrmB, OpDesc::ImmB),
        3u8 => ent2(Mnemonic::Sbb, Category::Arith, IsaSet::I86, 3, 0x8d5, OpDesc::GrmB, OpDesc::ImmB),
        4u8 => ent2(Mnemonic::And, Category::Logical, IsaSet::I86, 3, 0x8c5, OpDesc::GrmB, OpDesc::ImmB),
        5u8 => ent2(Mnemonic::Sub, Category::Arith, IsaSet::I86, 3, 0x8d5, OpDesc::GrmB, OpDesc::ImmB),
        6u8 => ent2(Mnemonic::Xor, Category::Logical, IsaSet::I86, 3, 0x8c5, OpDesc::GrmB, OpDesc::ImmB),
        7u8 => ent2(Mnemonic::Cmp, Category::Arith, IsaSet::I86, 3, 0x8d5, OpDesc::GrmB, OpDesc::ImmB),
        _ => Entry::Absent,
    }
}

/// The rows of group table `GRP_1_EV_IBS`.
pub open spec fn spec_group_grp_1_ev_ibs(reg: u8) -> Entry {
    match reg {
        0u8 => ent2(Mnemonic::Add, Category::Arith, IsaSet::I86, 7, 0x8d5, OpDesc::GrmV, OpDesc::ImmBs),
        1u8 => ent2(Mnemonic::Or, Category::Logical, IsaSet::I86, 7, 0x8c5, OpDesc::GrmV, OpDesc::ImmBs),
        2u8 => ent2(Mnemonic::Adc, Category::Arith, IsaSet::I86, 7, 0x8d5, OpDesc::GrmV, OpDesc::ImmBs),
        3u8 => ent2(Mnemonic::Sbb, Category::Arith, IsaSet::I86, 7, 0x8d5, OpDesc::GrmV, OpDesc::ImmBs),
        4u8 => ent2(Mnemonic::And, Category::Logical, IsaSet::I86, 7, 0x8c5, OpDesc::GrmV, OpDesc::ImmBs),
        5u8 => ent2(Mnemonic::Sub, Category::Arith, IsaSet::I86, 7, 0x8d5, OpDesc::GrmV, OpDesc::ImmBs),
        6u8 => ent2(Mnemonic::Xor, Category::Logical, IsaSet::I86, 7, 0x8c5, OpDesc::GrmV, OpDesc::ImmBs),
        7u8 => ent2(Mnemonic::Cmp, Category::Arith, IsaSet::I86, 7, 0x8d5, OpDesc::GrmV, OpDesc::ImmBs),
        _ => Entry::Absent,
    }
}

/// The rows of group table `GRP_1A_POP`.
pub open spec fn spec_group_grp_1a_pop(reg: u8) -> Entry {
    match reg {
        0u8 => ent1(Mnemonic::Pop, Category::Pop, IsaSet::I86, 7, 0x0, OpDesc::GrmV64),
        _ => Entry::Absent,
    }
}

/// The rows of group table `GRP_2_EB_IB`.
pub open spec fn spec_group_grp_2_eb_ib(reg: u8) -> Entry {
    match reg {
        0u8 => ent2(Mnemonic::Rol, Category::Rotate, IsaSet::I186, 7, 0x801, OpDesc::GrmB, OpDesc::ImmB),
        1u8 => ent2(Mnemonic::Ror, Category::Rotate, IsaSet::I186, 7, 0x801, OpDesc::GrmB, OpDesc::ImmB),
        2u8 => ent2(Mnemonic::Rcl, Category::Rotate, IsaSet::I186, 7, 0x801, OpDesc::GrmB, OpDesc::ImmB),
        3u8 => ent2(Mnemonic::Rcr, Category::Rotate, IsaSet::I186, 7, 0x801, OpDesc::GrmB, OpDesc::ImmB),
        4u8 => ent2(Mnemonic::Shl, Category::Shift, IsaSet::I186, 7, 0x8c5, OpDesc::GrmB, OpDesc::ImmB),
        5u8 => ent2(Mnemonic::Shr, Category::Shift, IsaSet::I186, 7, 0x8c5, OpDesc::GrmB, OpDesc::ImmB),
        7u8 => ent2(Mnemonic::Sar, Category::Shift, IsaSet::I186, 7, 0x8c5, OpDesc::GrmB, OpDesc::ImmB),
        _ => Entry::Absent,
    }
}

/// The rows of group table `GRP_2_EV_IB`.
pub open spec fn spec_group_grp_2_ev_ib(reg: u8) -> Entry {
    match reg {
        0u8 => ent2(Mnemonic::Rol, Category::Rotate, IsaSet::I186, 7, 0x801, OpDesc::GrmV, OpDesc::ImmB),
        1u8 => ent2(Mnemonic::Ror, Category::Rotate, IsaSet::I186, 7, 0x801, OpDesc::GrmV, OpDesc::ImmB),
        2u8 => ent2(Mnemonic::Rcl, Category::Rotate, IsaSet::I186, 7, 0x801, OpDesc::GrmV, OpDesc::ImmB),
        3u8 => ent2(Mnemonic::Rcr, Category::Rotate, IsaSet::I186, 7, 0x801, OpDesc::GrmV, OpDesc::ImmB),
        4u8 => ent2(Mnemonic::Shl, Category::Shift, IsaSet::I186, 7, 0x8c5, OpDesc::GrmV, OpDesc::ImmB),
        5u8 => ent2(Mnemonic::Shr, Category::Shift, IsaSet::I186, 7, 0x8c5, OpDesc::GrmV, OpDesc::ImmB),
        7u8 => ent2(Mnemonic::Sar, Category::Shift, IsaSet::I186, 7, 0x8c5, OpDesc::GrmV, OpDesc::ImmB),
        _ => Entry::Absent,
    }
}

/// The rows of group table `GRP_2_EB_1`.
pub open spec fn spec_group_grp_2_eb_1(reg: u8) -> Entry {
    match reg {
        0u8 => ent2(Mnemonic::Rol, Category::Rotate, IsaSet::I86, 7, 0x801, OpDesc::GrmB, OpDesc::ImplOne),
        1u8 => ent2(Mnemonic::Ror, Category::Rotate, IsaSet::I86, 7, 0x801, OpDesc::GrmB, OpDesc::ImplOne),
        2u8 => ent2(Mnemonic::Rcl, Category::Rotate, IsaSet::I86, 7, 0x801, OpDesc::GrmB, OpDesc::ImplOne),
        3u8 => ent2(Mnemonic::Rcr, Category::Rotate, IsaSet::I86, 7, 0x801, OpDesc::GrmB, OpDesc::ImplOne),
        4u8 => ent2(Mnemonic::Shl, Category::Shift, IsaSet::I86, 7, 0x8c5, OpDesc::GrmB, OpDesc::ImplOne),
        5u8 => ent2(Mnemonic::Shr, Category::Shift, IsaSet::I86, 7, 0x8c5, OpDesc::GrmB, OpDesc::ImplOne),
        7u8 => ent2(Mnemonic::Sar, Category::Shift, IsaSet::I86, 7, 0x8c5, OpDesc::GrmB, OpDesc::ImplOne),
        _ => Entry::Absent,
    }
}

/// The rows of group table `GRP_2_EV_1`.
pub open spec fn spec_group_grp_2_ev_1(reg: u8) -> Entry {
    match reg {
        0u8 => ent2(Mnemonic::Rol, Category::Rotate, IsaSet::I86, 7, 0x801, OpDesc::GrmV, OpDesc::ImplOne),
        1u8 => ent2(Mnemonic::Ror, Category::Rotate, IsaSet::I86, 7, 0x801, OpDesc::GrmV, OpDesc::ImplOne),
        2u8 => ent2(Mnemonic::Rcl, Category::Rotate, IsaSet::I86, 7, 0x801, OpDesc::GrmV, OpDesc::ImplOne),
        3u8 => ent2(Mnemonic::Rcr, Category::Rotate, IsaSet::I86, 7, 0x801, OpDesc::GrmV, OpDesc::ImplOne),
        4u8 => ent2(Mnemonic::Shl, Category::Shift, IsaSet::I86, 7, 0x8c5, OpDesc::GrmV, OpDesc::ImplOne),
        5u8 => ent2(Mnemonic::Shr, Category::Shift, IsaSet::I86, 7, 0x8c5, OpDesc::GrmV, OpDesc::ImplOne),
        7u8 => ent2(Mnemonic::Sar, Category::Shift, IsaSet::I86, 7, 0x8c5, OpDesc::GrmV, OpDesc::ImplOne),
        _ => Entry::Absent,
    }
}

/// The rows of group table `GRP_2_EB_CL`.
pub open spec fn spec_group_grp_2_eb_cl(reg: u8) -> Entry {
    match reg {
        0u8 => ent2(Mnemonic::Rol, Category::Rotate, IsaSet::I86, 7, 0x801, OpDesc::GrmB, OpDesc::ICl),
        1u8 => ent2(Mnemonic::Ror, Category::Rotate, IsaSet::I86, 7, 0x801, OpDesc::GrmB, OpDesc::ICl),
        2u8 => ent2(Mnemonic::Rcl, Category::Rotate, IsaSet::I86, 7, 0x801, OpDesc::GrmB, OpDesc::ICl),
        3u8 => ent2(Mnemonic::Rcr, Category::Rotate, IsaSet::I86, 7, 0x801, OpDesc::GrmB, OpDesc::ICl),
        4u8 => ent2(Mnemonic::Shl, Category::Shift, IsaSet::I86, 7, 0x8c5, OpDesc::GrmB, OpDesc::ICl),
        5u8 => ent2(Mnemonic::Shr, Category::Shift, IsaSet::I86, 7, 0x8c5, OpDesc::GrmB, OpDesc::ICl),
        7u8 => ent2(Mnemonic::Sar, Category::Shift, IsaSet::I86, 7, 0x8c5, OpDesc::GrmB, OpDesc::ICl),
        _ => Entry::Absent,
    }
}

/// The rows of group table `GRP_2_EV_CL`.
pub open spec fn spec_group_grp_2_ev_cl(reg: u8) -> Entry {
    match reg {
        0u8 => ent2(Mnemonic::Rol, Category::Rotate, IsaSet::I86, 7, 0x801, OpDesc::GrmV, OpDesc::ICl),
        1u8 => ent2(Mnemonic::Ror, Category::Rotate, IsaSet::I86, 7, 0x801, OpDesc::GrmV, OpDesc::ICl),
        2u8 => ent2(Mnemonic::Rcl, Category::Rotate, IsaSet::I86, 7, 0x801, OpDesc::GrmV, OpDesc::ICl),
        3u8 => ent2(Mnemonic::Rcr, Category::Rotate, IsaSet::I86, 7, 0x801, OpDesc::GrmV, OpDesc::ICl),
        4u8 => ent2(Mnemonic::Shl, Category::Shift, IsaSet::I86, 7, 0x8c5, OpDesc::GrmV, OpDesc::ICl),
        5u8 => ent2(Mnemonic::Shr, Category::Shift, IsaSet::I86, 7, 0x8c5, OpDesc::GrmV, OpDesc::ICl),
        7u8 => ent2(Mnemonic::Sar, Category::Shift, IsaSet::I86, 7, 0x8c5, OpDesc::GrmV, OpDesc::ICl),
        _ => Entry::Absent,
    }
}

/// The rows of group table `GRP_3_EB`.
pub open spec fn spec_group_grp_3_eb(reg: u8) -> Entry {
    match reg {
        0u8 => ent2(Mnemonic::Test, Category::Logical, IsaSet::I86, 7, 0x8c5, OpDesc::GrmB, OpDesc::ImmB),
        1u8 => ent2(Mnemonic::Test, Category::Logical, IsaSet::I86, 7, 0x8c5, OpDesc::GrmB, OpDesc::ImmB),
        2u8 => ent1(Mnemonic::Not, Category::Logical, IsaSet::I86, 7, 0x0, OpDesc::GrmB),
        3u8 => ent1(Mnemonic::Neg, Category::Arith, IsaSet::I86, 7, 0x8d5, OpDesc::GrmB),
        4u8 => ent1(Mnemonic::Mul, Category::Arith, IsaSet::I86, 7, 0x801, OpDesc::GrmB),
        5u8 => ent1(Mnemonic::Imul, Category::Arith, IsaSet::I86, 7, 0x801, OpDesc::GrmB),
        6u8 => ent1(Mnemonic::Div, Category::Arith, IsaSet::I86, 7, 0x0, OpDesc::GrmB),
        7u8 => ent1(Mnemonic::Idiv, Category::Arith, IsaSet::I86, 7, 0x0, OpDesc::GrmB),
        _ => Entry::Absent,
    }
}

/// The rows of group table `GRP_3_EV`.
pub open spec fn spec_group_grp_3_ev(reg: u8) -> Entry {
    match reg {
        0u8 => ent2(Mnemonic::Test, Category::Logical, IsaSet::I86, 7, 0x8c5, OpDesc::GrmV, OpDesc::ImmZ),
        1u8 => ent2(Mnemonic::Test, Category::Logical, IsaSet::I86, 7, 0x8c5, OpDesc::GrmV, OpDesc::ImmZ),
        2u8 => ent1(Mnemonic::Not, Category::Logical, IsaSet::I86, 7, 0x0, OpDesc::GrmV),
        3u8 => ent1(Mnemonic::Neg, Category::Arith, IsaSet::I86, 7, 0x8d5, OpDesc::GrmV),
        4u8 => ent1(Mnemonic::Mul, Category::Arith, IsaSet::I86, 7, 0x801, OpDesc::GrmV),
        5u8 => ent1(Mnemonic::Imul, Category::Arith, IsaSet::I86, 7, 0x801, OpDesc::GrmV),
        6u8 => ent1(Mnemonic::Div, Category::Arith, IsaSet::I86, 7, 0x0, OpDesc::GrmV),
        7u8 => ent1(Mnemonic::Idiv, Category::Arith, IsaSet::I86, 7, 0x0, OpDesc::GrmV),
        _ => Entry::Absent,
    }
}

/// The rows of group table `GRP_4_INCDEC`.
pub open spec fn spec_group_grp_4_incdec(reg: u8) -> Entry {
    match reg {
        0u8 => ent1(Mnemonic::Inc, Category::Arith, IsaSet::I86, 7, 0x8d4, OpDesc::GrmB),
        1u8 => ent1(Mnemonic::Dec, Category::Arith, IsaSet::I86, 7, 0x8d4, OpDesc::GrmB),
        _ => Entry::Absent,
    }
}

/// The rows of group table `GRP_5_MISC`.
pub open spec fn spec_group_grp_5_misc(reg: u8) -> Entry {
    match reg {
        0u8 => ent1(Mnemonic::Inc, Category::Arith, IsaSet::I86, 7, 0x8d4, OpDesc::GrmV),
        1u8 => ent1(Mnemonic::Dec, Category::Arith, IsaSet::I86, 7, 0x8d4, OpDesc::GrmV),
        2u8 => ent1(Mnemonic::Call, Category::Call, IsaSet::I86, 7, 0x0, OpDesc::GrmV64),
        3u8 => ent1(Mnemonic::Callf, Category::Call, IsaSet::I86, 7, 0x0, OpDesc::GrmMem),
        4u8 => ent1(Mnemonic::Jmp, Category::UncondBr, IsaSet::I86, 7, 0x0, OpDesc::GrmV64),
        5u8 => ent1(Mnemonic::Jmpf, Category::UncondBr, IsaSet::I86, 7, 0x0, OpDesc::GrmMem),
        6u8 => ent1(Mnemonic::Push, Category::Push, IsaSet::I86, 7, 0x0, OpDesc::GrmV64),
        _ => Entry::Absent,
    }
}

/// The rows of group table `GRP_11_EB`.
pub open spec fn spec_group_grp_11_eb(reg: u8) -> Entry {
    match reg {
        0u8 => ent2(Mnemonic::Mov, Category::Dataxfer, IsaSet::I86, 7, 0x0, OpDesc::GrmB, OpDesc::ImmB),
        _ => Entry::Absent,
    }
}

/// The rows of group table `GRP_11_EV`.
pub open spec fn spec_group_grp_11_ev(reg: u8) -> Entry {
    match reg {
        0u8 => ent2(Mnemonic::Mov, Category::Dataxfer, IsaSet::I86, 7, 0x0, OpDesc::GrmV, OpDesc::ImmZ),
        _ => Entry::Absent,
    }
}

/// The group sub-tables: the slot a group entry resolves to under a
/// given ModRM.reg value.
pub open spec fn spec_group(g: u8, reg: u8) -> Entry {
    match g {
        GRP_1_EB_IB => spec_group_grp_1_eb_ib(reg),
        GRP_1_EV_IZ => spec_group_grp_1_ev_iz(reg),
        GRP_1_EB_IB_LEG => spec_group_grp_1_eb_ib_leg(reg),
        GRP_1_EV_IBS => spec_group_grp_1_ev_ibs(reg),
        GRP_1A_POP => spec_group_grp_1a_pop(reg),
        GRP_2_EB_IB => spec_group_grp_2_eb_ib(reg),
        GRP_2_EV_IB => spec_group_grp_2_ev_ib(reg),
        GRP_2_EB_1 => spec_group_grp_2_eb_1(reg),
        GRP_2_EV_1 => spec_group_grp_2_ev_1(reg),
        GRP_2_EB_CL => spec_group_grp_2_eb_cl(reg),
        GRP_2_EV_CL => spec_group_grp_2_ev_cl(reg),
        GRP_3_EB => spec_group_grp_3_eb(reg),
        GRP_3_EV => spec_group_grp_3_ev(reg),
        GRP_4_INCDEC => spec_group_grp_4_incdec(reg),
        GRP_5_MISC => spec_group_grp_5_misc(reg),
        GRP_11_EB => spec_group_grp_11_eb(reg),
        GRP_11_EV => spec_group_grp_11_ev(reg),
        _ => Entry::Absent,
    }
}

/// Executable twin of [`spec_group_grp_1_eb_ib`].
fn group_grp_1_eb_ib(reg: u8) -> (e: Entry)
    ensures
        e == spec_group_grp_1_eb_ib(reg),
{
    match reg {
        0u8 => ent2_x(Mnemonic::Add, Category::Arith, IsaSet::I86, 7, 0x8d5, OpDesc::GrmB, OpDesc::ImmB),
        1u8 => ent2_x(Mnemonic::Or, Category::Logical, IsaSet::I86, 7, 0x8c5, OpDesc::GrmB, OpDesc::ImmB),
        2u8 => ent2_x(Mnemonic::Adc, Category::Arith, IsaSet::I86, 7, 0x8d5, OpDesc::GrmB, OpDesc::ImmB),
        3u8 => ent2_x(Mnemonic::Sbb, Category::Arith, IsaSet::I86, 7, 0x8d5, OpDesc::GrmB, OpDesc::ImmB),
        4u8 => ent2_x(Mnemonic::And, Category::Logical, IsaSet::I86, 7, 0x8c5, OpDesc::GrmB, OpDesc::ImmB),
        5u8 => ent2_x(Mnemonic::Sub, Category::Arith, IsaSet::I86, 7, 0x8d5, OpDesc::GrmB, OpDesc::ImmB),
        6u8 => ent2_x(Mnemonic::Xor, Category::Logical, IsaSet::I86, 7, 0x8c5, OpDesc::GrmB, OpDesc::ImmB),
        7u8 => ent2_x(Mnemonic::Cmp, Category::Arith, IsaSet::I86, 7, 0x8d5, OpDesc::GrmB, OpDesc::ImmB),
        _ => Entry::Absent,
    }
}

/// Executable twin of [`spec_group_grp_1_ev_iz`].
fn group_grp_1_ev_iz(reg: u8) -> (e: Entry)
    ensures
        e == spec_group_grp_1_ev_iz(reg),
{
    match reg {
        0u8 => ent2_x(Mnemonic::Add, Category::Arith, IsaSet::I86, 7, 0x8d5, OpDesc::GrmV, OpDesc::ImmZ),
        1u8 => ent2_x(Mnemonic::Or, Category::Logical, IsaSet::I86, 7, 0x8c5, OpDesc::GrmV, OpDesc::ImmZ),
        2u8 => ent2_x(Mnemonic::Adc, Category::Arith, IsaSet::I86, 7, 0x8d5, OpDesc::GrmV, OpDesc::ImmZ),
        3u8 => ent2_x(Mnemonic::Sbb, Category::Arith, IsaSet::I86, 7, 0x8d5, OpDesc::GrmV, OpDesc::ImmZ),
        4u8 => ent2_x(Mnemonic::And, Category::Logical, IsaSet::I86, 7, 0x8c5, OpDesc::GrmV, OpDesc::ImmZ),
        5u8 => ent2_x(Mnemonic::Sub, Category::Arith, IsaSet::I86, 7, 0x8d5, OpDesc::GrmV, OpDesc::ImmZ),
        6u8 => ent2_x(Mnemonic::Xor, Category::Logical, IsaSet::I86, 7, 0x8c5, OpDesc::GrmV, OpDesc::ImmZ),
        7u8 => ent2_x(Mnemonic::Cmp, Category::Arith, IsaSet::I86, 7, 0x8d5, OpDesc::GrmV, OpDesc::ImmZ),
        _ => Entry::Absent,
    }
}

/// Executable twin of [`spec_group_grp_1_eb_ib_leg`].
fn group_grp_1_eb_ib_leg(reg: u8) -> (e: Entry)
    ensures
        e == spec_group_grp_1_eb_ib_leg(reg),
{
    match reg {
        0u8 => ent2_x(Mnemonic::Add, Category::Arith, IsaSet::I86, 3, 0x8d5, OpDesc::GrmB, OpDesc::ImmB),
        1u8 => ent2_x(Mnemonic::Or, Category::Logical, IsaSet::I86, 3, 0x8c5, OpDesc::GrmB, OpDesc::ImmB),
        2u8 => ent2_x(Mnemonic::Adc, Category::Arith, IsaSet::I86, 3, 0x8d5, OpDesc::GrmB, OpDesc::ImmB),
        3u8 => ent2_x(Mnemonic::Sbb, Category::Arith, IsaSet::I86, 3, 0x8d5, OpDesc::GrmB, OpDesc::ImmB),
        4u8 => ent2_x(Mnemonic::And, Category::Logical, IsaSet::I86, 3, 0x8c5, OpDesc::GrmB, OpDesc::ImmB),
        5u8 => ent2_x(Mnemonic::Sub, Category::Arith, IsaSet::I86, 3, 0x8d5, OpDesc::GrmB, OpDesc::ImmB),
        6u8 => ent2_x(Mnemonic::Xor, Category::Logical, IsaSet::I86, 3, 0x8c5, OpDesc::GrmB, OpDesc::ImmB),
        7u8 => ent2_x(Mnemonic::Cmp, Category::Arith, IsaSet::I86, 3, 0x8d5, OpDesc::GrmB, OpDesc::ImmB),
        _ => Entry::Absent,
    }
}

/// Executable twin of [`spec_group_grp_1_ev_ibs`].
fn group_grp_1_ev_ibs(reg: u8) -> (e: Entry)
    ensures
        e == spec_group_grp_1_ev_ibs(reg),
{
    match reg {
        0u8 => ent2_x(Mnemonic::Add, Category::Arith, IsaSet::I86, 7, 0x8d5, OpDesc::GrmV, OpDesc::ImmBs),
        1u8 => ent2_x(Mnemonic::Or, Category::Logical, IsaSet::I86, 7, 0x8c5, OpDesc::GrmV, OpDesc::ImmBs),
        2u8 => ent2_x(Mnemonic::Adc, Category::Arith, IsaSet::I86, 7, 0x8d5, OpDesc::GrmV, OpDesc::ImmBs),
        3u8 => ent2_x(Mnemonic::Sbb, Category::Arith, IsaSet::I86, 7, 0x8d5, OpDesc::GrmV, OpDesc::ImmBs),
        4u8 => ent2_x(Mnemonic::And, Category::Logical, IsaSet::I86, 7, 0x8c5, OpDesc::GrmV, OpDesc::ImmBs),
        5u8 => ent2_x(Mnemonic::Sub, Category::Arith, IsaSet::I86, 7, 0x8d5, OpDesc::GrmV, OpDesc::ImmBs),
        6u8 => ent2_x(Mnemonic::Xor, Category::Logical, IsaSet::I86, 7, 0x8c5, OpDesc::GrmV, OpDesc::ImmBs),
        7u8 => ent2_x(Mnemonic::Cmp, Category::Arith, IsaSet::I86, 7, 0x8d5, OpDesc::GrmV, OpDesc::ImmBs),
        _ => Entry::Absent,
    }
}

/// Executable twin of [`spec_group_grp_1a_pop`].
fn group_grp_1a_pop(reg: u8) -> (e: Entry)
    ensures
        e == spec_group_grp_1a_pop(reg),
{
    match reg {
        0u8 => ent1_x(Mnemonic::Pop, Category::Pop, IsaSet::I86, 7, 0x0, OpDesc::GrmV64),
        _ => Entry::Absent,
    }
}

/// Executable twin of [`spec_group_grp_2_eb_ib`].
fn group_grp_2_eb_ib(reg: u8) -> (e: Entry)
    ensures
        e == spec_group_grp_2_eb_ib(reg),
{
    match reg {
        0u8 => ent2_x(Mnemonic::Rol, Category::Rotate, IsaSet::I186, 7, 0x801, OpDesc::GrmB, OpDesc::ImmB),
        1u8 => ent2_x(Mnemonic::Ror, Category::Rotate, IsaSet::I186, 7, 0x801, OpDesc::GrmB, OpDesc::ImmB),
        2u8 => ent2_x(Mnemonic::Rcl, Category::Rotate, IsaSet::I186, 7, 0x801, OpDesc::GrmB, OpDesc::ImmB),
        3u8 => ent2_x(Mnemonic::Rcr, Category::Rotate, IsaSet::I186, 7, 0x801, OpDesc::GrmB, OpDesc::ImmB),
        4u8 => ent2_x(Mnemonic::Shl, Category::Shift, IsaSet::I186, 7, 0x8c5, OpDesc::GrmB, OpDesc::ImmB),
        5u8 => ent2_x(Mnemonic::Shr, Category::Shift, IsaSet::I186, 7, 0x8c5, OpDesc::GrmB, OpDesc::ImmB),
        7u8 => ent2_x(Mnemonic::Sar, Category::Shift, IsaSet::I186, 7, 0x8c5, OpDesc::GrmB, OpDesc::ImmB),
        _ => Entry::Absent,
    }
}

/// Executable twin of [`spec_group_grp_2_ev_ib`].
fn group_grp_2_ev_ib(reg: u8) -> (e: Entry)
    ensures
        e == spec_group_grp_2_ev_ib(reg),
{
    match reg {
        0u8 => ent2_x(Mnemonic::Rol, Category::Rotate, IsaSet::I186, 7, 0x801, OpDesc::GrmV, OpDesc::ImmB),
        1u8 => ent2_x(Mnemonic::Ror, Category::Rotate, IsaSet::I186, 7, 0x801, OpDesc::GrmV, OpDesc::ImmB),
        2u8 => ent2_x(Mnemonic::Rcl, Category::Rotate, IsaSet::I186, 7, 0x801, OpDesc::GrmV, OpDesc::ImmB),
        3u8 => ent2_x(Mnemonic::Rcr, Category::Rotate, IsaSet::I186, 7, 0x801, OpDesc::GrmV, OpDesc::ImmB),
        4u8 => ent2_x(Mnemonic::Shl, Category::Shift, IsaSet::I186, 7, 0x8c5, OpDesc::GrmV, OpDesc::ImmB),
        5u8 => ent2_x(Mnemonic::Shr, Category::Shift, IsaSet::I186, 7, 0x8c5, OpDesc::GrmV, OpDesc::ImmB),
        7u8 => ent2_x(Mnemonic::Sar, Category::Shift, IsaSet::I186, 7, 0x8c5, OpDesc::GrmV, OpDesc::ImmB),
        _ => Entry::Absent,
    }
}

/// Executable twin of [`spec_group_grp_2_eb_1`].
fn group_grp_2_eb_1(reg: u8) -> (e: Entry)
    ensures
        e == spec_group_grp_2_eb_1(reg),
{
    match reg {
        0u8 => ent2_x(Mnemonic::Rol, Category::Rotate, IsaSet::I86, 7, 0x801, OpDesc::GrmB, OpDesc::ImplOne),
        1u8 => ent2_x(Mnemonic::Ror, Category::Rotate, IsaSet::I86, 7, 0x801, OpDesc::GrmB, OpDesc::ImplOne),
        2u8 => ent2_x(Mnemonic::Rcl, Category::Rotate, IsaSet::I86, 7, 0x801, OpDesc::GrmB, OpDesc::ImplOne),
        3u8 => ent2_x(Mnemonic::Rcr, Category::Rotate, IsaSet::I86, 7, 0x801, OpDesc::GrmB, OpDesc::ImplOne),
        4u8 => ent2_x(Mnemonic::Shl, Category::Shift, IsaSet::I86, 7, 0x8c5, OpDesc::GrmB, OpDesc::ImplOne),
        5u8 => ent2_x(Mnemonic::Shr, Category::Shift, IsaSet::I86, 7, 0x8c5, OpDesc::GrmB, OpDesc::ImplOne),
        7u8 => ent2_x(Mnemonic::Sar, Category::Shift, IsaSet::I86, 7, 0x8c5, OpDesc::GrmB, OpDesc::ImplOne),
        _ => Entry::Absent,
    }
}

/// Executable twin of [`spec_group_grp_2_ev_1`].
fn group_grp_2_ev_1(reg: u8) -> (e: Entry)
    ensures
        e == spec_group_grp_2_ev_1(reg),
{
    match reg {
        0u8 => ent2_x(Mnemonic::Rol, Category::Rotate, IsaSet::I86, 7, 0x801, OpDesc::GrmV, OpDesc::ImplOne),
        1u8 => ent2_x(Mnemonic::Ror, Category::Rotate, IsaSet::I86, 7, 0x801, OpDesc::GrmV, OpDesc::ImplOne),
        2u8 => ent2_x(Mnemonic::Rcl, Category::Rotate, IsaSet::I86, 7, 0x801, OpDesc::GrmV, OpDesc::ImplOne),
        3u8 => ent2_x(Mnemonic::Rcr, Category::Rotate, IsaSet::I86, 7, 0x801, OpDesc::GrmV, OpDesc::ImplOne),
        4u8 => ent2_x(Mnemonic::Shl, Category::Shift, IsaSet::I86, 7, 0x8c5, OpDesc::GrmV, OpDesc::ImplOne),
        5u8 => ent2_x(Mnemonic::Shr, Category::Shift, IsaSet::I86, 7, 0x8c5, OpDesc::GrmV, OpDesc::ImplOne),
        7u8 => ent2_x(Mnemonic::Sar, Category::Shift, IsaSet::I86, 7, 0x8c5, OpDesc::GrmV, OpDesc::ImplOne),
        _ => Entry::Absent,
    }
}

/// Executable twin of [`spec_group_grp_2_eb_cl`].
fn group_grp_2_eb_cl(reg: u8) -> (e: Entry)
    ensures
        e == spec_group_grp_2_eb_cl(reg),
{
    match reg {
        0u8 => ent2_x(Mnemonic::Rol, Category::Rotate, IsaSet::I86, 7, 0x801, OpDesc::GrmB, OpDesc::ICl),
        1u8 => ent2_x(Mnemonic::Ror, Category::Rotate, IsaSet::I86, 7, 0x801, OpDesc::GrmB, OpDesc::ICl),
        2u8 => ent2_x(Mnemonic::Rcl, Category::Rotate, IsaSet::I86, 7, 0x801, OpDesc::GrmB, OpDesc::ICl),
        3u8 => ent2_x(Mnemonic::Rcr, Category::Rotate, IsaSet::I86, 7, 0x801, OpDesc::GrmB, OpDesc::ICl),
        4u8 => ent2_x(Mnemonic::Shl, Category::Shift, IsaSet::I86, 7, 0x8c5, OpDesc::GrmB, OpDesc::ICl),
        5u8 => ent2_x(Mnemonic::Shr, Category::Shift, IsaSet::I86, 7, 0x8c5, OpDesc::GrmB, OpDesc::ICl),
        7u8 => ent2_x(Mnemonic::Sar, Category::Shift, IsaSet::I86, 7, 0x8c5, OpDesc::GrmB, OpDesc::ICl),
        _ => Entry::Absent,
    }
}

/// Executable twin of [`spec_group_grp_2_ev_cl`].
fn group_grp_2_ev_cl(reg: u8) -> (e: Entry)
    ensures
        e == spec_group_grp_2_ev_cl(reg),
{
    match reg {
        0u8 => ent2_x(Mnemonic::Rol, Category::Rotate, IsaSet::I86, 7, 0x801, OpDesc::GrmV, OpDesc::ICl),
        1u8 => ent2_x(Mnemonic::Ror, Category::Rotate, IsaSet::I86, 7, 0x801, OpDesc::GrmV, OpDesc::ICl),
        2u8 => ent2_x(Mnemonic::Rcl, Category::Rotate, IsaSet::I86, 7, 0x801, OpDesc::GrmV, OpDesc::ICl),
        3u8 => ent2_x(Mnemonic::Rcr, Category::Rotate, IsaSet::I86, 7, 0x801, OpDesc::GrmV, OpDesc::ICl),
        4u8 => ent2_x(Mnemonic::Shl, Category::Shift, IsaSet::I86, 7, 0x8c5, OpDesc::GrmV, OpDesc::ICl),
        5u8 => ent2_x(Mnemonic::Shr, Category::Shift, IsaSet::I86, 7, 0x8c5, OpDesc::GrmV, OpDesc::ICl),
        7u8 => ent2_x(Mnemonic::Sar, Category::Shift, IsaSet::I86, 7, 0x8c5, OpDesc::GrmV, OpDesc::ICl),
        _ => Entry::Absent,
    }
}

/// Executable twin of [`spec_group_grp_3_eb`].
fn group_grp_3_eb(reg: u8) -> (e: Entry)
    ensures
        e == spec_group_grp_3_eb(reg),
{
    match reg {
        0u8 => ent2_x(Mnemonic::Test, Category::Logical, IsaSet::I86, 7, 0x8c5, OpDesc::GrmB, OpDesc::ImmB),
        1u8 => ent2_x(Mnemonic::Test, Category::Logical, IsaSet::I86, 7, 0x8c5, OpDesc::GrmB, OpDesc::ImmB),
        2u8 => ent1_x(Mnemonic::Not, Category::Logical, IsaSet::I86, 7, 0x0, OpDesc::GrmB),
        3u8 => ent1_x(Mnemonic::Neg, Category::Arith, IsaSet::I86, 7, 0x8d5, OpDesc::GrmB),
        4u8 => ent1_x(Mnemonic::Mul, Category::Arith, IsaSet::I86, 7, 0x801, OpDesc::GrmB),
        5u8 => ent1_x(Mnemonic::Imul, Category::Arith, IsaSet::I86, 7, 0x801, OpDesc::GrmB),
        6u8 => ent1_x(Mnemonic::Div, Category::Arith, IsaSet::I86, 7, 0x0, OpDesc::GrmB),
        7u8 => ent1_x(Mnemonic::Idiv, Category::Arith, IsaSet::I86, 7, 0x0, OpDesc::GrmB),
        _ => Entry::Absent,
    }
}

/// Executable twin of [`spec_group_grp_3_ev`].
fn group_grp_3_ev(reg: u8) -> (e: Entry)
    ensures
        e == spec_group_grp_3_ev(reg),
{
    match reg {
        0u8 => ent2_x(Mnemonic::Test, Category::Logical, IsaSet::I86, 7, 0x8c5, OpDesc::GrmV, OpDesc::ImmZ),
        1u8 => ent2_x(Mnemonic::Test, Category::Logical, IsaSet::I86, 7, 0x8c5, OpDesc::GrmV, OpDesc::ImmZ),
        2u8 => ent1_x(Mnemonic::Not, Category::Logical, IsaSet::I86, 7, 0x0, OpDesc::GrmV),
        3u8 => ent1_x(Mnemonic::Neg, Category::Arith, IsaSet::I86, 7, 0x8d5, OpDesc::GrmV),
        4u8 => ent1_x(Mnemonic::Mul, Category::Arith, IsaSet::I86, 7, 0x801, OpDesc::GrmV),
        5u8 => ent1_x(Mnemonic::Imul, Category::Arith, IsaSet::I86, 7, 0x801, OpDesc::GrmV),
        6u8 => ent1_x(Mnemonic::Div, Category::Arith, IsaSet::I86, 7, 0x0, OpDesc::GrmV),
        7u8 => ent1_x(Mnemonic::Idiv, Category::Arith, IsaSet::I86, 7, 0x0, OpDesc::GrmV),
        _ => Entry::Absent,
    }
}

/// Executable twin of [`spec_group_grp_4_incdec`].
fn group_grp_4_incdec(reg: u8) -> (e: Entry)
    ensures
        e == spec_group_grp_4_incdec(reg),
{
    match reg {
        0u8 => ent1_x(Mnemonic::Inc, Category::Arith, IsaSet::I86, 7, 0x8d4, OpDesc::GrmB),
        1u8 => ent1_x(Mnemonic::Dec, Category::Arith, IsaSet::I86, 7, 0x8d4, OpDesc::GrmB),
        _ => Entry::Absent,
    }
}

/// Executable twin of [`spec_group_grp_5_misc`].
fn group_grp_5_misc(reg: u8) -> (e: Entry)
    ensures
        e == spec_group_grp_5_misc(reg),
{
    match reg {
        0u8 => ent1_x(Mnemonic::Inc, Category::Arith, IsaSet::I86, 7, 0x8d4, OpDesc::GrmV),
        1u8 => ent1_x(Mnemonic::Dec, Category::Arith, IsaSet::I86, 7, 0x8d4, OpDesc::GrmV),
        2u8 => ent1_x(Mnemonic::Call, Category::Call, IsaSet::I86, 7, 0x0, OpDesc::GrmV64),
        3u8 => ent1_x(Mnemonic::Callf, Category::Call, IsaSet::I86, 7, 0x0, OpDesc::GrmMem),
        4u8 => ent1_x(Mnemonic::Jmp, Category::UncondBr, IsaSet::I86, 7, 0x0, OpDesc::GrmV64),
        5u8 => ent1_x(Mnemonic::Jmpf, Category::UncondBr, IsaSet::I86, 7, 0x0, OpDesc::GrmMem),
        6u8 => ent1_x(Mnemonic::Push, Category::Push, IsaSet::I86, 7, 0x0, OpDesc::GrmV64),
        _ => Entry::Absent,
    }
}

/// Executable twin of [`spec_group_grp_11_eb`].
fn group_grp_11_eb(reg: u8) -> (e: Entry)
    ensures
        e == spec_group_grp_11_eb(reg),
{
    match reg {
        0u8 => ent2_x(Mnemonic::Mov, Category::Dataxfer, IsaSet::I86, 7, 0x0, OpDesc::GrmB, OpDesc::ImmB),
        _ => Entry::Absent,
    }
}

/// Executable twin of [`spec_group_grp_11_ev`].
fn group_grp_11_ev(reg: u8) -> (e: Entry)
    ensures
        e == spec_group_grp_11_ev(reg),
{
    match reg {
        0u8 => ent2_x(Mnemonic::Mov, Category::Dataxfer, IsaSet::I86, 7, 0x0, OpDesc::GrmV, OpDesc::ImmZ),
        _ => Entry::Absent,
    }
}

/// Executable twin of [`spec_group`].
pub fn group_lookup(g: u8, reg: u8) -> (e: Entry)
    ensures
        e == spec_group(g, reg),
{
    match g {
        GRP_1_EB_IB => group_grp_1_eb_ib(reg),
        GRP_1_EV_IZ => group_grp_1_ev_iz(reg),
        GRP_1_EB_IB_LEG => group_grp_1_eb_ib_leg(reg),
        GRP_1_EV_IBS => group_grp_1_ev_ibs(reg),
        GRP_1A_POP => group_grp_1a_pop(reg),
        GRP_2_EB_IB => group_grp_2_eb_ib(reg),
        GRP_2_EV_IB => group_grp_2_ev_ib(reg),
        GRP_2_EB_1 => group_grp_2_eb_1(reg),
        GRP_2_EV_1 => group_grp_2_ev_1(reg),
        GRP_2_EB_CL => group_grp_2_eb_cl(reg),
        GRP_2_EV_CL => group_grp_2_ev_cl(reg),
        GRP_3_EB => group_grp_3_eb(reg),
        GRP_3_EV => group_grp_3_ev(reg),
        GRP_4_INCDEC => group_grp_4_incdec(reg),
        GRP_5_MISC => group_grp_5_misc(reg),
        GRP_11_EB => group_grp_11_eb(reg),
        GRP_11_EV => group_grp_11_ev(reg),
        _ => Entry::Absent,
    }
}

/// The two-byte `0F` opcode map, keyed by opcode byte and mandatory
/// prefix (`0`, `0x66`, `0xF3` or `0xF2`).
pub open spec fn spec_two_byte(op: u8, mp: u8) -> Entry {
    match op {
        0x05u8 => if mp == 0 { ent0(Mnemonic::Syscall, Category::Syscall, IsaSet::AMD, 4, 0x0) } else { Entry::Absent },
        0x06u8 => if mp == 0 { ent0(Mnemonic::Clts, Category::System, IsaSet::I286PROT, 7, 0x0) } else { Entry::Absent },
        0x07u8 => if mp == 0 { ent0(Mnemonic::Sysret, Category::Sysret, IsaSet::AMD, 4, 0x0) } else { Entry::Absent },
        0x0bu8 => if mp == 0 { ent0(Mnemonic::Ud2, Category::Ud, IsaSet::PPRO, 7, 0x0) } else { Entry::Absent },
        0x10u8 => match mp {
            0u8 => ent2(Mnemonic::Movups, Category::Dataxfer, IsaSet::SSE, 7, 0x0, OpDesc::Vreg, OpDesc::Vrm),
            0x66u8 => ent2(Mnemonic::Movupd, Category::Dataxfer, IsaSet::SSE2, 7, 0x0, OpDesc::Vreg, OpDesc::Vrm),
            0xf3u8 => ent2(Mnemonic::Movss, Category::Dataxfer, IsaSet::SSE, 7, 0x0, OpDesc::Vreg, OpDesc::Vrm),
            0xf2u8 => ent2(Mnemonic::Movsd, Category::Dataxfer, IsaSet::SSE2, 7, 0x0, OpDesc::Vreg, OpDesc::Vrm),
            _ => Entry::Absent,
        },
        0x11u8 => match mp {
            0u8 => ent2(Mnemonic::Movups, Category::Dataxfer, IsaSet::SSE, 7, 0x0, OpDesc::Vrm, OpDesc::Vreg),
            0x66u8 => ent2(Mnemonic::Movupd, Category::Dataxfer, IsaSet::SSE2, 7, 0x0, OpDesc::Vrm, OpDesc::Vreg),
            0xf3u8 => ent2(Mnemonic::Movss, Category::Dataxfer, IsaSet::SSE, 7, 0x0, OpDesc::Vrm, OpDesc::Vreg),
            0xf2u8 => ent2(Mnemonic::Movsd, Category::Dataxfer, IsaSet::SSE2, 7, 0x0, OpDesc::Vrm, OpDesc::Vreg),
            _ => Entry::Absent,
        },
        0x1fu8 => if mp == 0 { ent1(Mnemonic::Nop, Category::Widenop, IsaSet::PPRO, 7, 0x0, OpDesc::GrmV) } else { Entry::Absent },
        0x28u8 => match mp {
            0u8 => ent2(Mnemonic::Movaps, Category::Dataxfer, IsaSet::SSE, 7, 0x0, OpDesc::Vreg, OpDesc::Vrm),
            0x66u8 => ent2(Mnemonic::Movapd, Category::Dataxfer, IsaSet::SSE2, 7, 0x0, OpDesc::Vreg, OpDesc::Vrm),
            _ => Entry::Absent,
        },
        0x29u8 => match mp {
            0u8 => ent2(Mnemonic::Movaps, Category::Dataxfer, IsaSet::SSE, 7, 0x0, OpDesc::Vrm, OpDesc::Vreg),
            0x66u8 => ent2(Mnemonic::Movapd, Category::Dataxfer, IsaSet::SSE2, 7, 0x0, OpDesc::Vrm, OpDesc::Vreg),
            _ => Entry::Absent,
        },
        0x30u8 => if mp == 0 { ent0(Mnemonic::Wrmsr, Category::System, IsaSet::PENTIUMREAL, 7, 0x0) } else { Entry::Absent },
        0x31u8 => if mp == 0 { ent0(Mnemonic::Rdtsc, Category::Misc, IsaSet::PENTIUMREAL, 7, 0x0) } else { Entry::Absent },
        0x32u8 => if mp == 0 { ent0(Mnemonic::Rdmsr, Category::System, IsaSet::PENTIUMREAL, 7, 0x0) } else { Entry::Absent },
        0x40u8 => if mp == 0 { ent2(Mnemonic::Cmovo, Category::Cmov, IsaSet::PPRO, 7, 0x0, OpDesc::GregV, OpDesc::GrmV) } else { Entry::Absent },
        0x41u8 => if mp == 0 { ent2(Mnemonic::Cmovno, Category::Cmov, IsaSet::PPRO, 7, 0x0, OpDesc::GregV, OpDesc::GrmV) } else { Entry::Absent },
        0x42u8 => if mp == 0 { ent2(Mnemonic::Cmovb, Category::Cmov, IsaSet::PPRO, 7, 0x0, OpDesc::GregV, OpDesc::GrmV) } else { Entry::Absent },
        0x43u8 => if mp == 0 { ent2(Mnemonic::Cmovae, Category::Cmov, IsaSet::PPRO, 7, 0x0, OpDesc::GregV, OpDesc::GrmV) } else { Entry::Absent },
        0x44u8 => if mp == 0 { ent2(Mnemonic::Cmove, Category::Cmov, IsaSet::PPRO, 7, 0x0, OpDesc::GregV, OpDesc::GrmV) } else { Entry::Absent },
        0x45u8 => if mp == 0 { ent2(Mnemonic::Cmovne, Category::Cmov, IsaSet::PPRO, 7, 0x0, OpDesc::GregV, OpDesc::GrmV) } else { Entry::Absent },
        0x46u8 => if mp == 0 { ent2(Mnemonic::Cmovbe, Category::Cmov, IsaSet::PPRO, 7, 0x0, OpDesc::GregV, OpDesc::GrmV) } else { Entry::Absent },
        0x47u8 => if mp == 0 { ent2(Mnemonic::Cmova, Category::Cmov, IsaSet::PPRO, 7, 0x0, OpDesc::GregV, OpDesc::GrmV) } else { Entry::Absent },
        0x48u8 => if mp == 0 { ent2(Mnemonic::Cmovs, Category::Cmov, IsaSet::PPRO, 7, 0x0, OpDesc::GregV, OpDesc::GrmV) } else { Entry::Absent },
        0x49u8 => if mp == 0 { ent2(Mnemonic::Cmovns, Category::Cmov, IsaSet::PPRO, 7, 0x0, OpDesc::GregV, OpDesc::GrmV) } else { Entry::Absent },
        0x4au8 => if mp == 0 { ent2(Mnemonic::Cmovp, Category::Cmov, IsaSet::PPRO, 7, 0x0, OpDesc::GregV, OpDesc::GrmV) } else { Entry::Absent },
        0x4bu8 => if mp == 0 { ent2(Mnemonic::Cmovnp, Category::Cmov, IsaSet::PPRO, 7, 0x0, OpDesc::GregV, OpDesc::GrmV) } else { Entry::Absent },
        0x4cu8 => if mp == 0 { ent2(Mnemonic::Cmovl, Category::Cmov, IsaSet::PPRO, 7, 0x0, OpDesc::GregV, OpDesc::GrmV) } else { Entry::Absent },
        0x4du8 => if mp == 0 { ent2(Mnemonic::Cmovge, Category::Cmov, IsaSet::PPRO, 7, 0x0, OpDesc::GregV, OpDesc::GrmV) } else { Entry::Absent },
        0x4eu8 => if mp == 0 { ent2(Mnemonic::Cmovle, Category::Cmov, IsaSet::PPRO, 7, 0x0, OpDesc::GregV, OpDesc::GrmV) } else { Entry::Absent },
        0x4fu8 => if mp == 0 { ent2(Mnemonic::Cmovg, Category::Cmov, IsaSet::PPRO, 7, 0x0, OpDesc::GregV, OpDesc::GrmV) } else { Entry::Absent },
        0x58u8 => match mp {
            0u8 => ent2(Mnemonic::Addps, Category::Arith, IsaSet::SSE, 7, 0x0, OpDesc::Vreg, OpDesc::Vrm),
            0x66u8 => ent2(Mnemonic::Addpd, Category::Arith, IsaSet::SSE2, 7, 0x0, OpDesc::Vreg, OpDesc::Vrm),
            0xf3u8 => ent2(Mnemonic::Addss, Category::Arith, IsaSet::SSE, 7, 0x0, OpDesc::Vreg, OpDesc::Vrm),
            0xf2u8 => ent2(Mnemonic::Addsd, Category::Arith, IsaSet::SSE2, 7, 0x0, OpDesc::Vreg, OpDesc::Vrm),
            _ => Entry::Absent,
        },
        0x80u8 => if mp == 0 { ent1(Mnemonic::Jo, Category::CondBr, IsaSet::I386, 7, 0x0, OpDesc::RelZ) } else { Entry::Absent },
        0x81u8 => if mp == 0 { ent1(Mnemonic::Jno, Category::CondBr, IsaSet::I386, 7, 0x0, OpDesc::RelZ) } else { Entry::Absent },
        0x82u8 => if mp == 0 { ent1(Mnemonic::Jb, Category::CondBr, IsaSet::I386, 7, 0x0, OpDesc::RelZ) } else { Entry::Absent },
        0x83u8 => if mp == 0 { ent1(Mnemonic::Jae, Category::CondBr, IsaSet::I386, 7, 0x0, OpDesc::RelZ) } else { Entry::Absent },
        0x84u8 => if mp == 0 { ent1(Mnemonic::Je, Category::CondBr, IsaSet::I386, 7, 0x0, OpDesc::RelZ) } else { Entry::Absent },
        0x85u8 => if mp == 0 { ent1(Mnemonic::Jne, Category::CondBr, IsaSet::I386, 7, 0x0, OpDesc::RelZ) } else { Entry::Absent },
        0x86u8 => if mp == 0 { ent1(Mnemonic::Jbe, Category::CondBr, IsaSet::I386, 7, 0x0, OpDesc::RelZ) } else { Entry::Absent },
        0x87u8 => if mp == 0 { ent1(Mnemonic::Ja, Category::CondBr, IsaSet::I386, 7, 0x0, OpDesc::RelZ) } else { Entry::Absent },
        0x88u8 => if mp == 0 { ent1(Mnemonic::Js, Category::CondBr, IsaSet::I386, 7, 0x0, OpDesc::RelZ) } else { Entry::Absent },
        0x89u8 => if mp == 0 { ent1(Mnemonic::Jns, Category::CondBr, IsaSet::I386, 7, 0x0, OpDesc::RelZ) } else { Entry::Absent },
        0x8au8 => if mp == 0 { ent1(Mnemonic::Jp, Category::CondBr, IsaSet::I386, 7, 0x0, OpDesc::RelZ) } else { Entry::Absent },
        0x8bu8 => if mp == 0 { ent1(Mnemonic::Jnp, Category::CondBr, IsaSet::I386, 7, 0x0, OpDesc::RelZ) } else { Entry::Absent },
        0x8cu8 => if mp == 0 { ent1(Mnemonic::Jl, Category::CondBr, IsaSet::I386, 7, 0x0, OpDesc::RelZ) } else { Entry::Absent },
        0x8du8 => if mp == 0 { ent1(Mnemonic::Jge, Category::CondBr, IsaSet::I386, 7, 0x0, OpDesc::RelZ) } else { Entry::Absent },
        0x8eu8 => if mp == 0 { ent1(Mnemonic::Jle, Category::CondBr, IsaSet::I386, 7, 0x0, OpDesc::RelZ) } else { Entry::Absent },
        0x8fu8 => if mp == 0 { ent1(Mnemonic::Jg, Category::CondBr, IsaSet::I386, 7, 0x0, OpDesc::RelZ) } else { Entry::Absent },
        0x90u8 => if mp == 0 { ent1(Mnemonic::Seto, Category::Bitbyte, IsaSet::I386, 7, 0x0, OpDesc::GrmB) } else { Entry::Absent },
        0x91u8 => if mp == 0 { ent1(Mnemonic::Setno, Category::Bitbyte, IsaSet::I386, 7, 0x0, OpDesc::GrmB) } else { Entry::Absent },
        0x92u8 => if mp == 0 { ent1(Mnemonic::Setb, Category::Bitbyte, IsaSet::I386, 7, 0x0, OpDesc::GrmB) } else { Entry::Absent },
        0x93u8 => if mp == 0 { ent1(Mnemonic::Setae, Category::Bitbyte, IsaSet::I386, 7, 0x0, OpDesc::GrmB) } else { Entry::Absent },
        0x94u8 => if mp == 0 { ent1(Mnemonic::Sete, Category::Bitbyte, IsaSet::I386, 7, 0x0, OpDesc::GrmB) } else { Entry::Absent },
        0x95u8 => if mp == 0 { ent1(Mnemonic::Setne, Category::Bitbyte, IsaSet::I386, 7, 0x0, OpDesc::GrmB) } else { Entry::Absent },
        0x96u8 => if mp == 0 { ent1(Mnemonic::Setbe, Category::Bitbyte, IsaSet::I386, 7, 0x0, OpDesc::GrmB) } else { Entry::Absent },
        0x97u8 => if mp == 0 { ent1(Mnemonic::Seta, Category::Bitbyte, IsaSet::I386, 7, 0x0, OpDesc::GrmB) } else { Entry::Absent },
        0x98u8 => if mp == 0 { ent1(Mnemonic::Sets, Category::Bitbyte, IsaSet::I386, 7, 0x0, OpDesc::GrmB) } else { Entry::Absent },
        0x99u8 => if mp == 0 { ent1(Mnemonic::Setns, Category::Bitbyte, IsaSet::I386, 7, 0x0, OpDesc::GrmB) } else { Entry::Absent },
        0x9au8 => if mp == 0 { ent1(Mnemonic::Setp, Category::Bitbyte, IsaSet::I386, 7, 0x0, OpDesc::GrmB) } else { Entry::Absent },
        0x9bu8 => if mp == 0 { ent1(Mnemonic::Setnp, Category::Bitbyte, IsaSet::I386, 7, 0x0, OpDesc::GrmB) } else { Entry::Absent },
        0x9cu8 => if mp == 0 { ent1(Mnemonic::Setl, Category::Bitbyte, IsaSet::I386, 7, 0x0, OpDesc::GrmB) } else { Entry::Absent },
        0x9du8 => if mp == 0 { ent1(Mnemonic::Setge, Category::Bitbyte, IsaSet::I386, 7, 0x0, OpDesc::GrmB) } else { Entry::Absent },
        0x9eu8 => if mp == 0 { ent1(Mnemonic::Setle, Category::Bitbyte, IsaSet::I386, 7, 0x0, OpDesc::GrmB) } else { Entry::Absent },
        0x9fu8 => if mp == 0 { ent1(Mnemonic::Setg, Category::Bitbyte, IsaSet::I386, 7, 0x0, OpDesc::GrmB) } else { Entry::Absent },
        0xa0u8 => if mp == 0 { ent1(Mnemonic::Push, Category::Push, IsaSet::I386, 7, 0x0, OpDesc::ISeg(4)) } else { Entry::Absent },
        0xa1u8 => if mp == 0 { ent1(Mnemonic::Pop, Category::Pop, IsaSet::I386, 7, 0x0, OpDesc::ISeg(4)) } else { Entry::Absent },
        0xa2u8 => if mp == 0 { ent0(Mnemonic::Cpuid, Category::Misc, IsaSet::I486, 7, 0x0) } else { Entry::Absent },
        0xa3u8 => if mp == 0 { ent2(Mnemonic::Bt, Category::Bitbyte, IsaSet::I386, 7, 0x1, OpDesc::GrmV, OpDesc::GregV) } else { Entry::Absent },
        0xa8u8 => if mp == 0 { ent1(Mnemonic::Push, Category::Push, IsaSet::I386, 7, 0x0, OpDesc::ISeg(5)) } else { Entry::Absent },
        0xa9u8 => if mp == 0 { ent1(Mnemonic::Pop, Category::Pop, IsaSet::I386, 7, 0x0, OpDesc::ISeg(5)) } else { Entry::Absent },
        0xabu8 => if mp == 0 { ent2(Mnemonic::Bts, Category::Bitbyte, IsaSet::I386, 7, 0x1, OpDesc::GrmV, OpDesc::GregV) } else { Entry::Absent },
        0xafu8 => if mp == 0 { ent2(Mnemonic::Imul, Category::Arith, IsaSet::I386, 7, 0x801, OpDesc::GregV, OpDesc::GrmV) } else { Entry::Absent },
        0xb0u8 => if mp == 0 { ent2(Mnemonic::Cmpxchg, Category::Semaphore, IsaSet::I486, 7, 0x8d5, OpDesc::GrmB, OpDesc::GregB) } else { Entry::Absent },
        0xb1u8 => if mp == 0 { ent2(Mnemonic::Cmpxchg, Category::Semaphore, IsaSet::I486, 7, 0x8d5, OpDesc::GrmV, OpDesc::GregV) } else { Entry::Absent },
        0xb3u8 => if mp == 0 { ent2(Mnemonic::Btr, Category::Bitbyte, IsaSet::I386, 7, 0x1, OpDesc::GrmV, OpDesc::GregV) } else { Entry::Absent },
        0xb6u8 => if mp == 0 { ent2(Mnemonic::Movzx, Category::Dataxfer, IsaSet::I386, 7, 0x0, OpDesc::GregV, OpDesc::GrmB) } else { Entry::Absent },
        0xb7u8 => if mp == 0 { ent2(Mnemonic::Movzx, Category::Dataxfer, IsaSet::I386, 7, 0x0, OpDesc::GregV, OpDesc::GrmW) } else { Entry::Absent },
        0xb9u8 => if mp == 0 { ent2(Mnemonic::Ud1, Category::Ud, IsaSet::PPRO, 7, 0x0, OpDesc::GregV, OpDesc::GrmV) } else { Entry::Absent },
        0xbbu8 => if mp == 0 { ent2(Mnemonic::Btc, Category::Bitbyte, IsaSet::I386, 7, 0x1, OpDesc::GrmV, OpDesc::GregV) } else { Entry::Absent },
        0xbcu8 => if mp == 0 { ent2(Mnemonic::Bsf, Category::Bitbyte, IsaSet::I386, 7, 0x40, OpDesc::GregV, OpDesc::GrmV) } else { Entry::Absent },
        0xbdu8 => if mp == 0 { ent2(Mnemonic::Bsr, Category::Bitbyte, IsaSet::I386, 7, 0x40, OpDesc::GregV, OpDesc::GrmV) } else { Entry::Absent },
        0xbeu8 => if mp == 0 { ent2(Mnemonic::Movsx, Category::Dataxfer, IsaSet::I386, 7, 0x0, OpDesc::GregV, OpDesc::GrmB) } else { Entry::Absent },
        0xbfu8 => if mp == 0 { ent2(Mnemonic::Movsx, Category::Dataxfer, IsaSet::I386, 7, 0x0, OpDesc::GregV, OpDesc::GrmW) } else { Entry::Absent },
        0xc0u8 => if mp == 0 { ent2(Mnemonic::Xadd, Category::Semaphore, IsaSet::I486, 7, 0x8d5, OpDesc::GrmB, OpDesc::GregB) } else { Entry::Absent },
        0xc1u8 => if mp == 0 { ent2(Mnemonic::Xadd, Category::Semaphore, IsaSet::I486, 7, 0x8d5, OpDesc::GrmV, OpDesc::GregV) } else { Entry::Absent },
        0xc8u8 => if mp == 0 { ent1(Mnemonic::Bswap, Category::Dataxfer, IsaSet::I486, 7, 0x0, OpDesc::OpcRegV) } else { Entry::Absent },
        0xc9u8 => if mp == 0 { ent1(Mnemonic::Bswap, Category::Dataxfer, IsaSet::I486, 7, 0x0, OpDesc::OpcRegV) } else { Entry::Absent },
        0xcau8 => if mp == 0 { ent1(Mnemonic::Bswap, Category::Dataxfer, IsaSet::I486, 7, 0x0, OpDesc::OpcRegV) } else { Entry::Absent },
        0xcbu8 => if mp == 0 { ent1(Mnemonic::Bswap, Category::Dataxfer, IsaSet::I486, 7, 0x0, OpDesc::OpcRegV) } else { Entry::Absent },
        0xccu8 => if mp == 0 { ent1(Mnemonic::Bswap, Category::Dataxfer, IsaSet::I486, 7, 0x0, OpDesc::OpcRegV) } else { Entry::Absent },
        0xcdu8 => if mp == 0 { ent1(Mnemonic::Bswap, Category::Dataxfer, IsaSet::I486, 7, 0x0, OpDesc::OpcRegV) } else { Entry::Absent },
        0xceu8 => if mp == 0 { ent1(Mnemonic::Bswap, Category::Dataxfer, IsaSet::I486, 7, 0x0, OpDesc::OpcRegV) } else { Entry::Absent },
        0xcfu8 => if mp == 0 { ent1(Mnemonic::Bswap, Category::Dataxfer, IsaSet::I486, 7, 0x0, OpDesc::OpcRegV) } else { Entry::Absent },
        0xffu8 => if mp == 0 { ent2(Mnemonic::Ud0, Category::Ud, IsaSet::PPRO, 7, 0x0, OpDesc::GregV, OpDesc::GrmV) } else { Entry::Absent },
        _ => Entry::Absent,
    }
}

/// Executable twin of [`spec_two_byte`].
pub fn two_byte(op: u8, mp: u8) -> (e: Entry)
    ensures
        e == spec_two_byte(op, mp),
{
    match op {
        0x05u8 => if mp == 0 { ent0_x(Mnemonic::Syscall, Category::Syscall, IsaSet::AMD, 4, 0x0) } else { Entry::Absent },
        0x06u8 => if mp == 0 { ent0_x(Mnemonic::Clts, Category::System, IsaSet::I286PROT, 7, 0x0) } else { Entry::Absent },
        0x07u8 => if mp == 0 { ent0_x(Mnemonic::Sysret, Category::Sysret, IsaSet::AMD, 4, 0x0) } else { Entry::Absent },
        0x0bu8 => if mp == 0 { ent0_x(Mnemonic::Ud2, Category::Ud, IsaSet::PPRO, 7, 0x0) } else { Entry::Absent },
        0x10u8 => match mp {
            0u8 => ent2_x(Mnemonic::Movups, Category::Dataxfer, IsaSet::SSE, 7, 0x0, OpDesc::Vreg, OpDesc::Vrm),
            0x66u8 => ent2_x(Mnemonic::Movupd, Category::Dataxfer, IsaSet::SSE2, 7, 0x0, OpDesc::Vreg, OpDesc::Vrm),
            0xf3u8 => ent2_x(Mnemonic::Movss, Category::Dataxfer, IsaSet::SSE, 7, 0x0, OpDesc::Vreg, OpDesc::Vrm),
            0xf2u8 => ent2_x(Mnemonic::Movsd, Category::Dataxfer, IsaSet::SSE2, 7, 0x0, OpDesc::Vreg, OpDesc::Vrm),
            _ => Entry::Absent,
        },
        0x11u8 => match mp {
            0u8 => ent2_x(Mnemonic::Movups, Category::Dataxfer, IsaSet::SSE, 7, 0x0, OpDesc::Vrm, OpDesc::Vreg),
            0x66u8 => ent2_x(Mnemonic::Movupd, Category::Dataxfer, IsaSet::SSE2, 7, 0x0, OpDesc::Vrm, OpDesc::Vreg),
            0xf3u8 => ent2_x(Mnemonic::Movss, Category::Dataxfer, IsaSet::SSE, 7, 0x0, OpDesc::Vrm, OpDesc::Vreg),
            0xf2u8 => ent2_x(Mnemonic::Movsd, Category::Dataxfer, IsaSet::SSE2, 7, 0x0, OpDesc::Vrm, OpDesc::Vreg),
            _ => Entry::Absent,
        },
        0x1fu8 => if mp == 0 { ent1_x(Mnemonic::Nop, Category::Widenop, IsaSet::PPRO, 7, 0x0, OpDesc::GrmV) } else { Entry::Absent },
        0x28u8 => match mp {
            0u8 => ent2_x(Mnemonic::Movaps, Category::Dataxfer, IsaSet::SSE, 7, 0x0, OpDesc::Vreg, OpDesc::Vrm),
            0x66u8 => ent2_x(Mnemonic::Movapd, Category::Dataxfer, IsaSet::SSE2, 7, 0x0, OpDesc::Vreg, OpDesc::Vrm),
            _ => Entry::Absent,
        },
        0x29u8 => match mp {
            0u8 => ent2_x(Mnemonic::Movaps, Category::Dataxfer, IsaSet::SSE, 7, 0x0, OpDesc::Vrm, OpDesc::Vreg),
            0x66u8 => ent2_x(Mnemonic::Movapd, Category::Dataxfer, IsaSet::SSE2, 7, 0x0, OpDesc::Vrm, OpDesc::Vreg),
            _ => Entry::Absent,
        },
        0x30u8 => if mp == 0 { ent0_x(Mnemonic::Wrmsr, Category::System, IsaSet::PENTIUMREAL, 7, 0x0) } else { Entry::Absent },
        0x31u8 => if mp == 0 { ent0_x(Mnemonic::Rdtsc, Category::Misc, IsaSet::PENTIUMREAL, 7, 0x0) } else { Entry::Absent },
        0x32u8 => if mp == 0 { ent0_x(Mnemonic::Rdmsr, Category::System, IsaSet::PENTIUMREAL, 7, 0x0) } else { Entry::Absent },
        0x40u8 => if mp == 0 { ent2_x(Mnemonic::Cmovo, Category::Cmov, IsaSet::PPRO, 7, 0x0, OpDesc::GregV, OpDesc::GrmV) } else { Entry::Absent },
        0x41u8 => if mp == 0 { ent2_x(Mnemonic::Cmovno, Category::Cmov, IsaSet::PPRO, 7, 0x0, OpDesc::GregV, OpDesc::GrmV) } else { Entry::Absent },
        0x42u8 => if mp == 0 { ent2_x(Mnemonic::Cmovb, Category::Cmov, IsaSet::PPRO, 7, 0x0, OpDesc::GregV, OpDesc::GrmV) } else { Entry::Absent },
        0x43u8 => if mp == 0 { ent2_x(Mnemonic::Cmovae, Category::Cmov, IsaSet::PPRO, 7, 0x0, OpDesc::GregV, OpDesc::GrmV) } else { Entry::Absent },
        0x44u8 => if mp == 0 { ent2_x(Mnemonic::Cmove, Category::Cmov, IsaSet::PPRO, 7, 0x0, OpDesc::GregV, OpDesc::GrmV) } else { Entry::Absent },
        0x45u8 => if mp == 0 { ent2_x(Mnemonic::Cmovne, Category::Cmov, IsaSet::PPRO, 7, 0x0, OpDesc::GregV, OpDesc::GrmV) } else { Entry::Absent },
        0x46u8 => if mp == 0 { ent2_x(Mnemonic::Cmovbe, Category::Cmov, IsaSet::PPRO, 7, 0x0, OpDesc::GregV, OpDesc::GrmV) } else { Entry::Absent },
        0x47u8 => if mp == 0 { ent2_x(Mnemonic::Cmova, Category::Cmov, IsaSet::PPRO, 7, 0x0, OpDesc::GregV, OpDesc::GrmV) } else { Entry::Absent },
        0x48u8 => if mp == 0 { ent2_x(Mnemonic::Cmovs, Category::Cmov, IsaSet::PPRO, 7, 0x0, OpDesc::GregV, OpDesc::GrmV) } else { Entry::Absent },
        0x49u8 => if mp == 0 { ent2_x(Mnemonic::Cmovns, Category::Cmov, IsaSet::PPRO, 7, 0x0, OpDesc::GregV, OpDesc::GrmV) } else { Entry::Absent },
        0x4au8 => if mp == 0 { ent2_x(Mnemonic::Cmovp, Category::Cmov, IsaSet::PPRO, 7, 0x0, OpDesc::GregV, OpDesc::GrmV) } else { Entry::Absent },
        0x4bu8 => if mp == 0 { ent2_x(Mnemonic::Cmovnp, Category::Cmov, IsaSet::PPRO, 7, 0x0, OpDesc::GregV, OpDesc::GrmV) } else { Entry::Absent },
        0x4cu8 => if mp == 0 { ent2_x(Mnemonic::Cmovl, Category::Cmov, IsaSet::PPRO, 7, 0x0, OpDesc::GregV, OpDesc::GrmV) } else { Entry::Absent },
        0x4du8 => if mp == 0 { ent2_x(Mnemonic::Cmovge, Category::Cmov, IsaSet::PPRO, 7, 0x0, OpDesc::GregV, OpDesc::GrmV) } else { Entry::Absent },
        0x4eu8 => if mp == 0 { ent2_x(Mnemonic::Cmovle, Category::Cmov, IsaSet::PPRO, 7, 0x0, OpDesc::GregV, OpDesc::GrmV) } else { Entry::Absent },
        0x4fu8 => if mp == 0 { ent2_x(Mnemonic::Cmovg, Category::Cmov, IsaSet::PPRO, 7, 0x0, OpDesc::GregV, OpDesc::GrmV) } else { Entry::Absent },
        0x58u8 => match mp {
            0u8 => ent2_x(Mnemonic::Addps, Category::Arith, IsaSet::SSE, 7, 0x0, OpDesc::Vreg, OpDesc::Vrm),
            0x66u8 => ent2_x(Mnemonic::Addpd, Category::Arith, IsaSet::SSE2, 7, 0x0, OpDesc::Vreg, OpDesc::Vrm),
            0xf3u8 => ent2_x(Mnemonic::Addss, Category::Arith, IsaSet::SSE, 7, 0x0, OpDesc::Vreg, OpDesc::Vrm),
            0xf2u8 => ent2_x(Mnemonic::Addsd, Category::Arith, IsaSet::SSE2, 7, 0x0, OpDesc::Vreg, OpDesc::Vrm),
            _ => Entry::Absent,
        },
        0x80u8 => if mp == 0 { ent1_x(Mnemonic::Jo, Category::CondBr, IsaSet::I386, 7, 0x0, OpDesc::RelZ) } else { Entry::Absent },
        0x81u8 => if mp == 0 { ent1_x(Mnemonic::Jno, Category::CondBr, IsaSet::I386, 7, 0x0, OpDesc::RelZ) } else { Entry::Absent },
        0x82u8 => if mp == 0 { ent1_x(Mnemonic::Jb, Category::CondBr, IsaSet::I386, 7, 0x0, OpDesc::RelZ) } else { Entry::Absent },
        0x83u8 => if mp == 0 { ent1_x(Mnemonic::Jae, Category::CondBr, IsaSet::I386, 7, 0x0, OpDesc::RelZ) } else { Entry::Absent },
        0x84u8 => if mp == 0 { ent1_x(Mnemonic::Je, Category::CondBr, IsaSet::I386, 7, 0x0, OpDesc::RelZ) } else { Entry::Absent },
        0x85u8 => if mp == 0 { ent1_x(Mnemonic::Jne, Category::CondBr, IsaSet::I386, 7, 0x0, OpDesc::RelZ) } else { Entry::Absent },
        0x86u8 => if mp == 0 { ent1_x(Mnemonic::Jbe, Category::CondBr, IsaSet::I386, 7, 0x0, OpDesc::RelZ) } else { Entry::Absent },
        0x87u8 => if mp == 0 { ent1_x(Mnemonic::Ja, Category::CondBr, IsaSet::I386, 7, 0x0, OpDesc::RelZ) } else { Entry::Absent },
        0x88u8 => if mp == 0 { ent1_x(Mnemonic::Js, Category::CondBr, IsaSet::I386, 7, 0x0, OpDesc::RelZ) } else { Entry::Absent },
        0x89u8 => if mp == 0 { ent1_x(Mnemonic::Jns, Category::CondBr, IsaSet::I386, 7, 0x0, OpDesc::RelZ) } else { Entry::Absent },
        0x8au8 => if mp == 0 { ent1_x(Mnemonic::Jp, Category::CondBr, IsaSet::I386, 7, 0x0, OpDesc::RelZ) } else { Entry::Absent },
        0x8bu8 => if mp == 0 { ent1_x(Mnemonic::Jnp, Category::CondBr, IsaSet::I386, 7, 0x0, OpDesc::RelZ) } else { Entry::Absent },
        0x8cu8 => if mp == 0 { ent1_x(Mnemonic::Jl, Category::CondBr, IsaSet::I386, 7, 0x0, OpDesc::RelZ) } else { Entry::Absent },
        0x8du8 => if mp == 0 { ent1_x(Mnemonic::Jge, Category::CondBr, IsaSet::I386, 7, 0x0, OpDesc::RelZ) } else { Entry::Absent },
        0x8eu8 => if mp == 0 { ent1_x(Mnemonic::Jle, Category::CondBr, IsaSet::I386, 7, 0x0, OpDesc::RelZ) } else { Entry::Absent },
        0x8fu8 => if mp == 0 { ent1_x(Mnemonic::Jg, Category::CondBr, IsaSet::I386, 7, 0x0, OpDesc::RelZ) } else { Entry::Absent },
        0x90u8 => if mp == 0 { ent1_x(Mnemonic::Seto, Category::Bitbyte, IsaSet::I386, 7, 0x0, OpDesc::GrmB) } else { Entry::Absent },
        0x91u8 => if mp == 0 { ent1_x(Mnemonic::Setno, Category::Bitbyte, IsaSet::I386, 7, 0x0, OpDesc::GrmB) } else { Entry::Absent },
        0x92u8 => if mp == 0 { ent1_x(Mnemonic::Setb, Category::Bitbyte, IsaSet::I386, 7, 0x0, OpDesc::GrmB) } else { Entry::Absent },
        0x93u8 => if mp == 0 { ent1_x(Mnemonic::Setae, Category::Bitbyte, IsaSet::I386, 7, 0x0, OpDesc::GrmB) } else { Entry::Absent },
        0x94u8 => if mp == 0 { ent1_x(Mnemonic::Sete, Category::Bitbyte, IsaSet::I386, 7, 0x0, OpDesc::GrmB) } else { Entry::Absent },
        0x95u8 => if mp == 0 { ent1_x(Mnemonic::Setne, Category::Bitbyte, IsaSet::I386, 7, 0x0, OpDesc::GrmB) } else { Entry::Absent },
        0x96u8 => if mp == 0 { ent1_x(Mnemonic::Setbe, Category::Bitbyte, IsaSet::I386, 7, 0x0, OpDesc::GrmB) } else { Entry::Absent },
        0x97u8 => if mp == 0 { ent1_x(Mnemonic::Seta, Category::Bitbyte, IsaSet::I386, 7, 0x0, OpDesc::GrmB) } else { Entry::Absent },
        0x98u8 => if mp == 0 { ent1_x(Mnemonic::Sets, Category::Bitbyte, IsaSet::I386, 7, 0x0, OpDesc::GrmB) } else { Entry::Absent },
        0x99u8 => if mp == 0 { ent1_x(Mnemonic::Setns, Category::Bitbyte, IsaSet::I386, 7, 0x0, OpDesc::GrmB) } else { Entry::Absent },
        0x9au8 => if mp == 0 { ent1_x(Mnemonic::Setp, Category::Bitbyte, IsaSet::I386, 7, 0x0, OpDesc::GrmB) } else { Entry::Absent },
        0x9bu8 => if mp == 0 { ent1_x(Mnemonic::Setnp, Category::Bitbyte, IsaSet::I386, 7, 0x0, OpDesc::GrmB) } else { Entry::Absent },
        0x9cu8 => if mp == 0 { ent1_x(Mnemonic::Setl, Category::Bitbyte, IsaSet::I386, 7, 0x0, OpDesc::GrmB) } else { Entry::Absent },
        0x9du8 => if mp == 0 { ent1_x(Mnemonic::Setge, Category::Bitbyte, IsaSet::I386, 7, 0x0, OpDesc::GrmB) } else { Entry::Absent },
        0x9eu8 => if mp == 0 { ent1_x(Mnemonic::Setle, Category::Bitbyte, IsaSet::I386, 7, 0x0, OpDesc::GrmB) } else { Entry::Absent },
        0x9fu8 => if mp == 0 { ent1_x(Mnemonic::Setg, Category::Bitbyte, IsaSet::I386, 7, 0x0, OpDesc::GrmB) } else { Entry::Absent },
        0xa0u8 => if mp == 0 { ent1_x(Mnemonic::Push, Category::Push, IsaSet::I386, 7, 0x0, OpDesc::ISeg(4)) } else { Entry::Absent },
        0xa1u8 => if mp == 0 { ent1_x(Mnemonic::Pop, Category::Pop, IsaSet::I386, 7, 0x0, OpDesc::ISeg(4)) } else { Entry::Absent },
        0xa2u8 => if mp == 0 { ent0_x(Mnemonic::Cpuid, Category::Misc, IsaSet::I486, 7, 0x0) } else { Entry::Absent },
        0xa3u8 => if mp == 0 { ent2_x(Mnemonic::Bt, Category::Bitbyte, IsaSet::I386, 7, 0x1, OpDesc::GrmV, OpDesc::GregV) } else { Entry::Absent },
        0xa8u8 => if mp == 0 { ent1_x(Mnemonic::Push, Category::Push, IsaSet::I386, 7, 0x0, OpDesc::ISeg(5)) } else { Entry::Absent },
        0xa9u8 => if mp == 0 { ent1_x(Mnemonic::Pop, Category::Pop, IsaSet::I386, 7, 0x0, OpDesc::ISeg(5)) } else { Entry::Absent },
        0xabu8 => if mp == 0 { ent2_x(Mnemonic::Bts, Category::Bitbyte, IsaSet::I386, 7, 0x1, OpDesc::GrmV, OpDesc::GregV) } else { Entry::Absent },
        0xafu8 => if mp == 0 { ent2_x(Mnemonic::Imul, Category::Arith, IsaSet::I386, 7, 0x801, OpDesc::GregV, OpDesc::GrmV) } else { Entry::Absent },
        0xb0u8 => if mp == 0 { ent2_x(Mnemonic::Cmpxchg, Category::Semaphore, IsaSet::I486, 7, 0x8d5, OpDesc::GrmB, OpDesc::GregB) } else { Entry::Absent },
        0xb1u8 => if mp == 0 { ent2_x(Mnemonic::Cmpxchg, Category::Semaphore, IsaSet::I486, 7, 0x8d5, OpDesc::GrmV, OpDesc::GregV) } else { Entry::Absent },
        0xb3u8 => if mp == 0 { ent2_x(Mnemonic::Btr, Category::Bitbyte, IsaSet::I386, 7, 0x1, OpDesc::GrmV, OpDesc::GregV) } else { Entry::Absent },
        0xb6u8 => if mp == 0 { ent2_x(Mnemonic::Movzx, Category::Dataxfer, IsaSet::I386, 7, 0x0, OpDesc::GregV, OpDesc::GrmB) } else { Entry::Absent },
        0xb7u8 => if mp == 0 { ent2_x(Mnemonic::Movzx, Category::Dataxfer, IsaSet::I386, 7, 0x0, OpDesc::GregV, OpDesc::GrmW) } else { Entry::Absent },
        0xb9u8 => if mp == 0 { ent2_x(Mnemonic::Ud1, Category::Ud, IsaSet::PPRO, 7, 0x0, OpDesc::GregV, OpDesc::GrmV) } else { Entry::Absent },
        0xbbu8 => if mp == 0 { ent2_x(Mnemonic::Btc, Category::Bitbyte, IsaSet::I386, 7, 0x1, OpDesc::GrmV, OpDesc::GregV) } else { Entry::Absent },
        0xbcu8 => if mp == 0 { ent2_x(Mnemonic::Bsf, Category::Bitbyte, IsaSet::I386, 7, 0x40, OpDesc::GregV, OpDesc::GrmV) } else { Entry::Absent },
        0xbdu8 => if mp == 0 { ent2_x(Mnemonic::Bsr, Category::Bitbyte, IsaSet::I386, 7, 0x40, OpDesc::GregV, OpDesc::GrmV) } else { Entry::Absent },
        0xbeu8 => if mp == 0 { ent2_x(Mnemonic::Movsx, Category::Dataxfer, IsaSet::I386, 7, 0x0, OpDesc::GregV, OpDesc::GrmB) } else { Entry::Absent },
        0xbfu8 => if mp == 0 { ent2_x(Mnemonic::Movsx, Category::Dataxfer, IsaSet::I386, 7, 0x0, OpDesc::GregV, OpDesc::GrmW) } else { Entry::Absent },
        0xc0u8 => if mp == 0 { ent2_x(Mnemonic::Xadd, Category::Semaphore, IsaSet::I486, 7, 0x8d5, OpDesc::GrmB, OpDesc::GregB) } else { Entry::Absent },
        0xc1u8 => if mp == 0 { ent2_x(Mnemonic::Xadd, Category::Semaphore, IsaSet::I486, 7, 0x8d5, OpDesc::GrmV, OpDesc::GregV) } else { Entry::Absent },
        0xc8u8 => if mp == 0 { ent1_x(Mnemonic::Bswap, Category::Dataxfer, IsaSet::I486, 7, 0x0, OpDesc::OpcRegV) } else { Entry::Absent },
        0xc9u8 => if mp == 0 { ent1_x(Mnemonic::Bswap, Category::Dataxfer, IsaSet::I486, 7, 0x0, OpDesc::OpcRegV) } else { Entry::Absent },
        0xcau8 => if mp == 0 { ent1_x(Mnemonic::Bswap, Category::Dataxfer, IsaSet::I486, 7, 0x0, OpDesc::OpcRegV) } else { Entry::Absent },
        0xcbu8 => if mp == 0 { ent1_x(Mnemonic::Bswap, Category::Dataxfer, IsaSet::I486, 7, 0x0, OpDesc::OpcRegV) } else { Entry::Absent },
        0xccu8 => if mp == 0 { ent1_x(Mnemonic::Bswap, Category::Dataxfer, IsaSet::I486, 7, 0x0, OpDesc::OpcRegV) } else { Entry::Absent },
        0xcdu8 => if mp == 0 { ent1_x(Mnemonic::Bswap, Category::Dataxfer, IsaSet::I486, 7, 0x0, OpDesc::OpcRegV) } else { Entry::Absent },
        0xceu8 => if mp == 0 { ent1_x(Mnemonic::Bswap, Category::Dataxfer, IsaSet::I486, 7, 0x0, OpDesc::OpcRegV) } else { Entry::Absent },
        0xcfu8 => if mp == 0 { ent1_x(Mnemonic::Bswap, Category::Dataxfer, IsaSet::I486, 7, 0x0, OpDesc::OpcRegV) } else { Entry::Absent },
        0xffu8 => if mp == 0 { ent2_x(Mnemonic::Ud0, Category::Ud, IsaSet::PPRO, 7, 0x0, OpDesc::GregV, OpDesc::GrmV) } else { Entry::Absent },
        _ => Entry::Absent,
    }
}

/// The VEX-encoded entries, keyed by the selected map, the opcode byte,
/// the embedded `pp` field and the vector length. Maps other than 1 and
/// the XOP and EVEX maps carry no entries here.
pub open spec fn spec_vex(map: u8, op: u8, pp: u8, l: u8) -> Entry {
    if map != 1 {
        Entry::Absent
    } else {
        match op {
            0x10u8 => match pp {
                0u8 => ent2(Mnemonic::Vmovups, Category::Avx, IsaSet::AVX, 7, 0x0, OpDesc::Vreg, OpDesc::Vrm),
                1u8 => ent2(Mnemonic::Vmovupd, Category::Avx, IsaSet::AVX, 7, 0x0, OpDesc::Vreg, OpDesc::Vrm),
                _ => Entry::Absent,
            },
            0x11u8 => match pp {
                0u8 => ent2(Mnemonic::Vmovups, Category::Avx, IsaSet::AVX, 7, 0x0, OpDesc::Vrm, OpDesc::Vreg),
                1u8 => ent2(Mnemonic::Vmovupd, Category::Avx, IsaSet::AVX, 7, 0x0, OpDesc::Vrm, OpDesc::Vreg),
                _ => Entry::Absent,
            },
            0x58u8 => match pp {
                0u8 => ent3(Mnemonic::Vaddps, Category::Avx, IsaSet::AVX, 7, 0x0, OpDesc::Vreg, OpDesc::Hreg, OpDesc::Vrm),
                1u8 => ent3(Mnemonic::Vaddpd, Category::Avx, IsaSet::AVX, 7, 0x0, OpDesc::Vreg, OpDesc::Hreg, OpDesc::Vrm),
                _ => Entry::Absent,
            },
            0x77u8 => if pp == 0 {
                if l == 0 { ent0(Mnemonic::Vzeroupper, Category::Avx, IsaSet::AVX, 7, 0x0) } else { ent0(Mnemonic::Vzeroall, Category::Avx, IsaSet::AVX, 7, 0x0) }
            } else {
                Entry::Absent
            },
            _ => Entry::Absent,
        }
    }
}

/// Executable twin of [`spec_vex`].
pub fn vex_lookup(map: u8, op: u8, pp: u8, l: u8) -> (e: Entry)
    ensures
        e == spec_vex(map, op, pp, l),
{
    if map != 1 {
        Entry::Absent
    } else {
        match op {
            0x10u8 => match pp {
                0u8 => ent2_x(Mnemonic::Vmovups, Category::Avx, IsaSet::AVX, 7, 0x0, OpDesc::Vreg, OpDesc::Vrm),
                1u8 => ent2_x(Mnemonic::Vmovupd, Category::Avx, IsaSet::AVX, 7, 0x0, OpDesc::Vreg, OpDesc::Vrm),
                _ => Entry::Absent,
            },
            0x11u8 => match pp {
                0u8 => ent2_x(Mnemonic::Vmovups, Category::Avx, IsaSet::AVX, 7, 0x0, OpDesc::Vrm, OpDesc::Vreg),
                1u8 => ent2_x(Mnemonic::Vmovupd, Category::Avx, IsaSet::AVX, 7, 0x0, OpDesc::Vrm, OpDesc::Vreg),
                _ => Entry::Absent,
            },
            0x58u8 => match pp {
                0u8 => ent3_x(Mnemonic::Vaddps, Category::Avx, IsaSet::AVX, 7, 0x0, OpDesc::Vreg, OpDesc::Hreg, OpDesc::Vrm),
                1u8 => ent3_x(Mnemonic::Vaddpd, Category::Avx, IsaSet::AVX, 7, 0x0, OpDesc::Vreg, OpDesc::Hreg, OpDesc::Vrm),
                _ => Entry::Absent,
            },
            0x77u8 => if pp == 0 {
                if l == 0 { ent0_x(Mnemonic::Vzeroupper, Category::Avx, IsaSet::AVX, 7, 0x0) } else { ent0_x(Mnemonic::Vzeroall, Category::Avx, IsaSet::AVX, 7, 0x0) }
            } else {
                Entry::Absent
            },
            _ => Entry::Absent,
        }
    }
}

} // verus!
