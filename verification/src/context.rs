//! The decode context: machine mode, consumed prefixes, and the operand,
//! address and vector sizes they resolve to.

use vstd::prelude::*;

verus! {

/// The machine mode a buffer is decoded for.
#[derive(Copy, Clone, Eq, PartialEq, Debug, Structural)]
pub enum MachineMode {
    /// 16-bit default operand and address size.
    Bits16,
    /// 32-bit default operand and address size.
    Bits32,
    /// 64-bit long mode.
    Bits64,
}

/// The bit the valid-mode bitmask of a table entry carries for `mode`.
pub open spec fn spec_mode_bit(mode: MachineMode) -> u8 {
    match mode {
        MachineMode::Bits16 => 1,
        MachineMode::Bits32 => 2,
        MachineMode::Bits64 => 4,
    }
}

/// The legacy and REX prefixes one decode call actually consumed.
///
/// Each legacy class keeps its last occurrence; a value of `0` in a byte
/// field means the class did not occur.
#[derive(Copy, Clone, Eq, PartialEq, Debug, Structural)]
pub struct Prefixes {
    /// Operand-size override `0x66` seen.
    pub opsize: bool,
    /// Address-size override `0x67` seen.
    pub addrsize: bool,
    /// Last segment-override prefix byte, or `0`.
    pub seg: u8,
    /// Last of the repeat/lock class `0xF0`/`0xF2`/`0xF3`, or `0`.
    pub rep_lock: u8,
    /// The REX byte (`0x40`-`0x4F`), or `0` when none was consumed.
    pub rex: u8,
}

/// The prefix state at the start of a decode call.
pub open spec fn spec_no_prefixes() -> Prefixes {
    Prefixes { opsize: false, addrsize: false, seg: 0, rep_lock: 0, rex: 0 }
}

/// Which vector-extension encoding, if any, introduced the opcode.
#[derive(Copy, Clone, Eq, PartialEq, Debug, Structural)]
pub enum VexClass {
    /// Legacy encoding: no vector prefix.
    NoVex,
    /// A `0xC4`/`0xC5` VEX prefix.
    Vex,
    /// A `0x8F` XOP prefix.
    Xop,
    /// A `0x62` EVEX prefix.
    Evex,
}

/// Everything the prefix scanner resolved for one decode call.
#[derive(Copy, Clone, Eq, PartialEq, Debug, Structural)]
pub struct Ctx {
    /// The machine mode of the call.
    pub mode: MachineMode,
    /// The prefixes actually consumed.
    pub pfx: Prefixes,
    /// Which encoding class introduced the opcode.
    pub vex: VexClass,
    /// REX.W or VEX/EVEX.W.
    pub w: bool,
    /// REX.R or the inverted VEX/EVEX.R.
    pub r: bool,
    /// REX.X or the inverted VEX/EVEX.X.
    pub x: bool,
    /// REX.B or the inverted VEX/EVEX.B.
    pub b: bool,
    /// The inverted VEX/EVEX.vvvv register field; `0` under legacy encoding.
    pub vvvv: u8,
    /// Vector length: `0` for 128 bits, `1` for 256, `2` for 512.
    pub vl: u8,
    /// The embedded mandatory-prefix field `pp` of a vector prefix.
    pub pp: u8,
    /// The opcode map a vector prefix selects.
    pub map: u8,
}

/// The context a buffer with no prefixes at all resolves to.
pub open spec fn spec_ctx_from(mode: MachineMode, pfx: Prefixes) -> Ctx {
    Ctx {
        mode,
        pfx,
        vex: VexClass::NoVex,
        w: (pfx.rex / 8) % 2 == 1,
        r: (pfx.rex / 4) % 2 == 1,
        x: (pfx.rex / 2) % 2 == 1,
        b: pfx.rex % 2 == 1,
        vvvv: 0,
        vl: 0,
        pp: 0,
        map: 0,
    }
}

/// The effective operand size in bits: the mode's default, flipped to 16 or
/// 32 by `0x66`, promoted to 64 by REX/VEX.W in long mode.
pub open spec fn spec_op_width(ctx: Ctx) -> u16 {
    match ctx.mode {
        MachineMode::Bits16 => if ctx.pfx.opsize { 32 } else { 16 },
        MachineMode::Bits32 => if ctx.pfx.opsize { 16 } else { 32 },
        MachineMode::Bits64 => if ctx.w { 64 } else if ctx.pfx.opsize { 16 } else { 32 },
    }
}

/// The `z` immediate size in bits: the operand size capped at 32.
pub open spec fn spec_z_width(ctx: Ctx) -> u16 {
    if spec_op_width(ctx) == 16 { 16 } else { 32 }
}

/// The operand size of instructions that default to 64 bits in long mode
/// (near branches and pushes/pops): `0x66` alone still selects 16 bits.
pub open spec fn spec_v64_width(ctx: Ctx) -> u16 {
    match ctx.mode {
        MachineMode::Bits64 => if ctx.pfx.opsize && !ctx.w { 16 } else { 64 },
        _ => spec_op_width(ctx),
    }
}

/// The effective address size in bits: the mode's default, flipped by `0x67`.
pub open spec fn spec_addr_width(ctx: Ctx) -> u16 {
    match ctx.mode {
        MachineMode::Bits16 => if ctx.pfx.addrsize { 32 } else { 16 },
        MachineMode::Bits32 => if ctx.pfx.addrsize { 16 } else { 32 },
        MachineMode::Bits64 => if ctx.pfx.addrsize { 32 } else { 64 },
    }
}

/// The vector register width in bits the vector-length field selects;
/// legacy-encoded vector instructions use 128.
pub open spec fn spec_vec_width(ctx: Ctx) -> u16 {
    if ctx.vl == 0 { 128 } else if ctx.vl == 1 { 256 } else { 512 }
}

/// The mandatory prefix the opcode-table lookup is keyed by: the last
/// repeat-class prefix wins over `0x66`, which wins over none.
pub open spec fn spec_mand_prefix(pfx: Prefixes) -> u8 {
    if pfx.rep_lock == 0xF2 {
        0xF2
    } else if pfx.rep_lock == 0xF3 {
        0xF3
    } else if pfx.opsize {
        0x66
    } else {
        0
    }
}

/// Executable twin of [`spec_mode_bit`].
pub fn mode_bit(mode: MachineMode) -> (b: u8)
    ensures
        b == spec_mode_bit(mode),
{
    match mode {
        MachineMode::Bits16 => 1,
        MachineMode::Bits32 => 2,
        MachineMode::Bits64 => 4,
    }
}

/// Executable twin of [`spec_no_prefixes`].
pub fn no_prefixes() -> (p: Prefixes)
    ensures
        p == spec_no_prefixes(),
{
    Prefixes { opsize: false, addrsize: false, seg: 0, rep_lock: 0, rex: 0 }
}

/// Executable twin of [`spec_ctx_from`].
pub fn ctx_from(mode: MachineMode, pfx: Prefixes) -> (c: Ctx)
    ensures
        c == spec_ctx_from(mode, pfx),
{
    Ctx {
        mode,
        pfx,
        vex: VexClass::NoVex,
        w: (pfx.rex / 8) % 2 == 1,
        r: (pfx.rex / 4) % 2 == 1,
        x: (pfx.rex / 2) % 2 == 1,
        b: pfx.rex % 2 == 1,
        vvvv: 0,
        vl: 0,
        pp: 0,
        map: 0,
    }
}

/// Executable twin of [`spec_op_width`].
pub fn op_width(ctx: &Ctx) -> (w: u16)
    ensures
        w == spec_op_width(*ctx),
{
    match ctx.mode {
        MachineMode::Bits16 => if ctx.pfx.opsize { 32 } else { 16 },
        MachineMode::Bits32 => if ctx.pfx.opsize { 16 } else { 32 },
        MachineMode::Bits64 => if ctx.w { 64 } else if ctx.pfx.opsize { 16 } else { 32 },
    }
}

/// Executable twin of [`spec_z_width`].
pub fn z_width(ctx: &Ctx) -> (w: u16)
    ensures
        w == spec_z_width(*ctx),
{
    if op_width(ctx) == 16 { 16 } else { 32 }
}

/// Executable twin of [`spec_v64_width`].
pub fn v64_width(ctx: &Ctx) -> (w: u16)
    ensures
        w == spec_v64_width(*ctx),
{
    match ctx.mode {
        MachineMode::Bits64 => if ctx.pfx.opsize && !ctx.w { 16 } else { 64 },
        _ => op_width(ctx),
    }
}

/// Executable twin of [`spec_addr_width`].
pub fn addr_width(ctx: &Ctx) -> (w: u16)
    ensures
        w == spec_addr_width(*ctx),
{
    match ctx.mode {
        MachineMode::Bits16 => if ctx.pfx.addrsize { 32 } else { 16 },
        MachineMode::Bits32 => if ctx.pfx.addrsize { 16 } else { 32 },
        MachineMode::Bits64 => if ctx.pfx.addrsize { 32 } else { 64 },
    }
}

/// Executable twin of [`spec_vec_width`].
pub fn vec_width(ctx: &Ctx) -> (w: u16)
    ensures
        w == spec_vec_width(*ctx),
{
    if ctx.vl == 0 { 128 } else if ctx.vl == 1 { 256 } else { 512 }
}

/// Executable twin of [`spec_mand_prefix`].
pub fn mand_prefix(pfx: &Prefixes) -> (m: u8)
    ensures
        m == spec_mand_prefix(*pfx),
{
    if pfx.rep_lock == 0xF2 {
        0xF2
    } else if pfx.rep_lock == 0xF3 {
        0xF3
    } else if pfx.opsize {
        0x66
    } else {
        0
    }
}

} // verus!
