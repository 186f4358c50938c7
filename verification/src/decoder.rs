//! The decoder: prefix scan, opcode walk, operand decode, and the final
//! record.
//!
//! [`spec_decode`] is the mathematical definition of the whole pipeline;
//! [`decode`] is the executable entry point, proved to return exactly what
//! the definition says for every buffer and mode.

use vstd::prelude::*;

use crate::category::Category;
use crate::context::{spec_no_prefixes, MachineMode, Prefixes};
use crate::cursor::Cursor;
use crate::decode_error::DecodeError;
use crate::isa_set::IsaSet;
use crate::mnemonic::Mnemonic;
use crate::operand::{lemma_operands_bounds, operands, spec_operands, Operand};
use crate::prefix::{lemma_scan_bounds, scan, spec_scan};
use crate::walker::{lemma_select_bounds, select, spec_select};

verus! {

/// The mathematical model of a decoded instruction.
pub struct SpecInstr {
    /// Total encoded length in bytes.
    pub len: int,
    /// The mnemonic of the selected template.
    pub mnemonic: Mnemonic,
    /// Its category.
    pub category: Category,
    /// Its ISA set.
    pub isa_set: IsaSet,
    /// The decoded operands, in declared order.
    pub operands: Seq<Operand>,
    /// The prefixes actually consumed.
    pub prefixes: Prefixes,
    /// The RFLAGS bits the instruction writes.
    pub flags: u32,
}

/// What decoding `s` in `mode` yields: the prefix scan resolves the
/// context, the walker selects the template, the operand decoder consumes
/// the remaining bytes, and the assembled record's length is the total
/// byte count consumed.
pub open spec fn spec_decode(s: Seq<u8>, mode: MachineMode) -> Result<SpecInstr, DecodeError> {
    match spec_scan(s, mode, 0, spec_no_prefixes()) {
        Err(e) => Err(e),
        Ok((ctx, p_op)) => match spec_select(s, ctx, p_op) {
            Err(e) => Err(e),
            Ok((t, oplow, p_args)) => match spec_operands(s, ctx, t, oplow, p_args) {
                Err(e) => Err(e),
                Ok((ops, p_end)) => Ok(
                    (SpecInstr {
                        len: p_end,
                        mnemonic: t.mnemonic,
                        category: t.category,
                        isa_set: t.isa_set,
                        operands: ops,
                        prefixes: ctx.pfx,
                        flags: t.flags,
                    }),
                ),
            },
        },
    }
}

/// A successful decode consumes between 1 and 15 bytes, never more than
/// the buffer holds, and yields at most four operands.
pub proof fn lemma_decode_bounds(s: Seq<u8>, mode: MachineMode)
    ensures
        spec_decode(s, mode) matches Ok(i) ==> 1 <= i.len <= 15 && i.len <= s.len()
            && i.operands.len() <= 4,
{
    lemma_scan_bounds(s, mode, 0, spec_no_prefixes());
    let sres = spec_scan(s, mode, 0, spec_no_prefixes());
    if sres is Ok {
        let (ctx, p_op) = sres->Ok_0;
        lemma_select_bounds(s, ctx, p_op);
        let wres = spec_select(s, ctx, p_op);
        if wres is Ok {
            let (t, oplow, p_args) = wres->Ok_0;
            lemma_operands_bounds(s, ctx, t, oplow, p_args);
        }
    }
}

/// One decoded instruction: what [`decode`] hands back on success.
#[derive(Clone, PartialEq, Eq, Debug)]
pub struct DecodedInstruction {
    /// Total encoded length in bytes, between 1 and 15.
    pub length: u8,
    /// The mnemonic.
    pub mnemonic: Mnemonic,
    /// The category of the instruction.
    pub category: Category,
    /// The ISA set it belongs to.
    pub isa_set: IsaSet,
    /// The decoded operands, in declared order; at most four.
    pub operands: Vec<Operand>,
    /// The prefixes actually consumed.
    pub prefixes: Prefixes,
    /// The RFLAGS bits the instruction writes.
    pub flags: u32,
}

impl View for DecodedInstruction {
    type V = SpecInstr;

    open spec fn view(&self) -> SpecInstr {
        SpecInstr {
            len: self.length as int,
            mnemonic: self.mnemonic,
            category: self.category,
            isa_set: self.isa_set,
            operands: self.operands@,
            prefixes: self.prefixes,
            flags: self.flags,
        }
    }
}

/// Decodes the instruction at the start of `buffer` for `mode`.
///
/// Returns exactly what [`spec_decode`] describes: the structured record
/// on success, and the precise failure otherwise. Excess bytes after the
/// decoded instruction are ignored.
pub fn decode(buffer: &[u8], mode: MachineMode) -> (r: Result<DecodedInstruction, DecodeError>)
    ensures
        match r {
            Ok(d) => spec_decode(buffer@, mode) == Ok::<SpecInstr, DecodeError>(d@) && 1
                <= d.length <= 15 && d.length <= buffer@.len() && d.operands@.len() <= 4,
            Err(e) => spec_decode(buffer@, mode) == Err::<SpecInstr, DecodeError>(e),
        },
{
    let mut cur = Cursor::new(buffer);
    let ctx = match scan(&mut cur, mode) {
        Ok(c) => c,
        Err(e) => {
            return Err(e);
        },
    };
    let (t, oplow) = match select(&mut cur, &ctx) {
        Ok(x) => x,
        Err(e) => {
            return Err(e);
        },
    };
    proof {
        lemma_scan_bounds(buffer@, mode, 0, spec_no_prefixes());
        lemma_select_bounds(buffer@, ctx, spec_scan(buffer@, mode, 0, spec_no_prefixes())->Ok_0.1);
    }
    let ops = match operands(&mut cur, &ctx, &t, oplow) {
        Ok(v) => v,
        Err(e) => {
            return Err(e);
        },
    };
    proof {
        lemma_operands_bounds(
            buffer@,
            ctx,
            t,
            oplow,
            spec_select(
                buffer@,
                ctx,
                spec_scan(buffer@, mode, 0, spec_no_prefixes())->Ok_0.1,
            )->Ok_0.2,
        );
    }
    let length = cur.position();
    Ok(
        DecodedInstruction {
            length: length as u8,
            mnemonic: t.mnemonic,
            category: t.category,
            isa_set: t.isa_set,
            operands: ops,
            prefixes: ctx.pfx,
            flags: t.flags,
        },
    )
}

} // verus!
