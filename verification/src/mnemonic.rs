//! Mnemonic identifiers for the instructions the opcode tables carry.

use vstd::prelude::*;

verus! {

/// The mnemonic of a decoded instruction.
#[derive(Copy, Clone, Eq, PartialEq, Hash, Debug, Structural)]
pub enum Mnemonic {
    Add,
    Or,
    Adc,
    Sbb,
    And,
    Sub,
    Xor,
    Cmp,
    Push,
    Pop,
    Daa,
    Das,
    Aaa,
    Aas,
    Inc,
    Dec,
    Pusha,
    Popa,
    Bound,
    Arpl,
    Movsxd,
    Imul,
    Ins,
    Outs,
    Jo,
    Jno,
    Jb,
    Jae,
    Je,
    Jne,
    Jbe,
    Ja,
    Js,
    Jns,
    Jp,
    Jnp,
    Jl,
    Jge,
    Jle,
    Jg,
    Test,
    Xchg,
    Mov,
    Lea,
    Nop,
    Cbw,
    Cwd,
    Callf,
    Wait,
    Pushf,
    Popf,
    Sahf,
    Lahf,
    Movs,
    Cmps,
    Stos,
    Lods,
    Scas,
    Rol,
    Ror,
    Rcl,
    Rcr,
    Shl,
    Shr,
    Sar,
    Ret,
    Les,
    Lds,
    Enter,
    Leave,
    Retf,
    Int3,
    Int,
    Into,
    Iret,
    Aam,
    Aad,
    Xlat,
    Loopne,
    Loope,
    Loop,
    Jcxz,
    In,
    Out,
    Call,
    Jmp,
    Jmpf,
    Int1,
    Hlt,
    Cmc,
    Not,
    Neg,
    Mul,
    Div,
    Idiv,
    Clc,
    Stc,
    Cli,
    Sti,
    Cld,
    Std,
    Syscall,
    Clts,
    Sysret,
    Ud2,
    Movups,
    Movupd,
    Movss,
    Movsd,
    Movaps,
    Movapd,
    Wrmsr,
    Rdtsc,
    Rdmsr,
    Cmovo,
    Cmovno,
    Cmovb,
    Cmovae,
    Cmove,
    Cmovne,
    Cmovbe,
    Cmova,
    Cmovs,
    Cmovns,
    Cmovp,
    Cmovnp,
    Cmovl,
    Cmovge,
    Cmovle,
    Cmovg,
    Addps,
    Addpd,
    Addss,
    Addsd,
    Seto,
    Setno,
    Setb,
    Setae,
    Sete,
    Setne,
    Setbe,
    Seta,
    Sets,
    Setns,
    Setp,
    Setnp,
    Setl,
    Setge,
    Setle,
    Setg,
    Cpuid,
    Bt,
    Bts,
    Btr,
    Btc,
    Bsf,
    Bsr,
    Movzx,
    Movsx,
    Ud1,
    Ud0,
    Xadd,
    Cmpxchg,
    Bswap,
    Vmovups,
    Vmovupd,
    Vaddps,
    Vaddpd,
    Vzeroupper,
    Vzeroall,
}

} // verus!
