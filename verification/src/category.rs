//! Instruction categories.

use vstd::prelude::*;

use crate::decode_error::DecodeError;

verus! {

/// Instruction category.
#[derive(Copy, Clone, Eq, PartialEq, Hash, Debug, Structural)]
pub enum Category {
    I3dnow,
    Aes,
    Aeskl,
    Amx,
    Arith,
    Avx,
    Avx2,
    Avx2gather,
    Avx512,
    Avx512bf16,
    Avx512fp16,
    Avx512vbmi,
    Avx512vp2intersect,
    Avxvnni,
    Bitbyte,
    Blend,
    Bmi1,
    Bmi2,
    Broadcast,
    Call,
    Cet,
    Cldemote,
    Cmov,
    Compress,
    CondBr,
    Conflict,
    Convert,
    Dataxfer,
    Decimal,
    Enqcmd,
    Expand,
    Flagop,
    Fma4,
    Fred,
    Gather,
    Gfni,
    Hreset,
    I386,
    Ifma,
    Interrupt,
    Io,
    Iostringop,
    Kl,
    Kmask,
    Knl,
    Lkgs,
    Logic,
    Logical,
    LogicalFp,
    Lwp,
    Lzcnt,
    Misc,
    Mmx,
    Movdir64b,
    Movdiri,
    Mpx,
    Nop,
    Padlock,
    Pclmulqdq,
    Pconfig,
    Pop,
    Prefetch,
    Ptwrite,
    Push,
    Rdpid,
    Rdrand,
    Rdseed,
    Rdwrfsgs,
    Ret,
    Rotate,
    Scatter,
    Segop,
    Semaphore,
    Sgx,
    Sha,
    Shift,
    Smap,
    Sse,
    Sse2,
    Stringop,
    Sttni,
    Syscall,
    Sysret,
    System,
    Tdx,
    Ud,
    Uintr,
    UncondBr,
    Unknown,
    Vaes,
    Vfma,
    Vfmaps,
    Vnni,
    Vnniw,
    Vpclmulqdq,
    Vpopcnt,
    Vtx,
    Waitpkg,
    Wbnoinvd,
    Widenop,
    WideKl,
    X87Alu,
    Xop,
    Xsave,
}

/// What [`Category::try_from`] returns for each raw numeric code: code 0 is
/// the explicit invalid marker, the codes that follow map to the variants in
/// table order, and any code past the table is an internal error.
pub open spec fn category_from_code(value: u32) -> Result<Category, DecodeError> {
    match value {
        0u32 => Err(DecodeError::InternalError(value as u64)),
        1u32 => Ok(Category::I3dnow),
        2u32 => Ok(Category::Aes),
        3u32 => Ok(Category::Aeskl),
        4u32 => Ok(Category::Amx),
        5u32 => Ok(Category::Arith),
        6u32 => Ok(Category::Avx),
        7u32 => Ok(Category::Avx2),
        8u32 => Ok(Category::Avx2gather),
        9u32 => Ok(Category::Avx512),
        10u32 => Ok(Category::Avx512bf16),
        11u32 => Ok(Category::Avx512fp16),
        12u32 => Ok(Category::Avx512vbmi),
        13u32 => Ok(Category::Avx512vp2intersect),
        14u32 => Ok(Category::Avxvnni),
        15u32 => Ok(Category::Bitbyte),
        16u32 => Ok(Category::Blend),
        17u32 => Ok(Category::Bmi1),
        18u32 => Ok(Category::Bmi2),
        19u32 => Ok(Category::Broadcast),
        20u32 => Ok(Category::Call),
        21u32 => Ok(Category::Cet),
        22u32 => Ok(Category::Cldemote),
        23u32 => Ok(Category::Cmov),
        24u32 => Ok(Category::Compress),
        25u32 => Ok(Category::CondBr),
        26u32 => Ok(Category::Conflict),
        27u32 => Ok(Category::Convert),
        28u32 => Ok(Category::Dataxfer),
        29u32 => Ok(Category::Decimal),
        30u32 => Ok(Category::Enqcmd),
        31u32 => Ok(Category::Expand),
        32u32 => Ok(Category::Flagop),
        33u32 => Ok(Category::Fma4),
        34u32 => Ok(Category::Gather),
        35u32 => Ok(Category::Gfni),
        36u32 => Ok(Category::Hreset),
        37u32 => Ok(Category::I386),
        38u32 => Ok(Category::Ifma),
        39u32 => Ok(Category::Interrupt),
        40u32 => Ok(Category::Io),
        41u32 => Ok(Category::Iostringop),
        42u32 => Ok(Category::Kl),
        43u32 => Ok(Category::Kmask),
        44u32 => Ok(Category::Knl),
        45u32 => Ok(Category::Lkgs),
        46u32 => Ok(Category::Logic),
        47u32 => Ok(Category::Logical),
        48u32 => Ok(Category::LogicalFp),
        49u32 => Ok(Category::Lwp),
        50u32 => Ok(Category::Lzcnt),
        51u32 => Ok(Category::Misc),
        52u32 => Ok(Category::Mmx),
        53u32 => Ok(Category::Movdir64b),
        54u32 => Ok(Category::Movdiri),
        55u32 => Ok(Category::Mpx),
        56u32 => Ok(Category::Nop),
        57u32 => Ok(Category::Padlock),
        58u32 => Ok(Category::Pclmulqdq),
        59u32 => Ok(Category::Pconfig),
        60u32 => Ok(Category::Pop),
        61u32 => Ok(Category::Prefetch),
        62u32 => Ok(Category::Ptwrite),
        63u32 => Ok(Category::Push),
        64u32 => Ok(Category::Rdpid),
        65u32 => Ok(Category::Rdrand),
        66u32 => Ok(Category::Rdseed),
        67u32 => Ok(Category::Rdwrfsgs),
        68u32 => Ok(Category::Ret),
        69u32 => Ok(Category::Rotate),
        70u32 => Ok(Category::Scatter),
        71u32 => Ok(Category::Segop),
        72u32 => Ok(Category::Semaphore),
        73u32 => Ok(Category::Sgx),
        74u32 => Ok(Category::Sha),
        75u32 => Ok(Category::Shift),
        76u32 => Ok(Category::Smap),
        77u32 => Ok(Category::Sse),
        78u32 => Ok(Category::Sse2),
        79u32 => Ok(Category::Stringop),
        80u32 => Ok(Category::Sttni),
        81u32 => Ok(Category::Syscall),
        82u32 => Ok(Category::Sysret),
        83u32 => Ok(Category::System),
        84u32 => Ok(Category::Tdx),
        85u32 => Ok(Category::Ud),
        86u32 => Ok(Category::Uintr),
        87u32 => Ok(Category::UncondBr),
        88u32 => Ok(Category::Unknown),
        89u32 => Ok(Category::Vaes),
        90u32 => Ok(Category::Vfma),
        91u32 => Ok(Category::Vfmaps),
        92u32 => Ok(Category::Vnni),
        93u32 => Ok(Category::Vnniw),
        94u32 => Ok(Category::Vpclmulqdq),
        95u32 => Ok(Category::Vpopcnt),
        96u32 => Ok(Category::Vtx),
        97u32 => Ok(Category::Waitpkg),
        98u32 => Ok(Category::Wbnoinvd),
        99u32 => Ok(Category::Widenop),
        100u32 => Ok(Category::WideKl),
        101u32 => Ok(Category::X87Alu),
        102u32 => Ok(Category::Xop),
        103u32 => Ok(Category::Xsave),
        _ => Err(DecodeError::InternalError(value as u64)),
    }
}

impl Category {
    /// Maps a raw numeric code to its typed variant, or reports the code as
    /// an internal error when no table row carries it.
    pub fn try_from(value: u32) -> (r: Result<Category, DecodeError>)
        ensures
            r == category_from_code(value),
    {
        match value {
            1u32 => Ok(Category::I3dnow),
            2u32 => Ok(Category::Aes),
            3u32 => Ok(Category::Aeskl),
            4u32 => Ok(Category::Amx),
            5u32 => Ok(Category::Arith),
            6u32 => Ok(Category::Avx),
            7u32 => Ok(Category::Avx2),
            8u32 => Ok(Category::Avx2gather),
            9u32 => Ok(Category::Avx512),
            10u32 => Ok(Category::Avx512bf16),
            11u32 => Ok(Category::Avx512fp16),
            12u32 => Ok(Category::Avx512vbmi),
            13u32 => Ok(Category::Avx512vp2intersect),
            14u32 => Ok(Category::Avxvnni),
            15u32 => Ok(Category::Bitbyte),
            16u32 => Ok(Category::Blend),
            17u32 => Ok(Category::Bmi1),
            18u32 => Ok(Category::Bmi2),
            19u32 => Ok(Category::Broadcast),
            20u32 => Ok(Category::Call),
            21u32 => Ok(Category::Cet),
            22u32 => Ok(Category::Cldemote),
            23u32 => Ok(Category::Cmov),
            24u32 => Ok(Category::Compress),
            25u32 => Ok(Category::CondBr),
            26u32 => Ok(Category::Conflict),
            27u32 => Ok(Category::Convert),
            28u32 => Ok(Category::Dataxfer),
            29u32 => Ok(Category::Decimal),
            30u32 => Ok(Category::Enqcmd),
            31u32 => Ok(Category::Expand),
            32u32 => Ok(Category::Flagop),
            33u32 => Ok(Category::Fma4),
            34u32 => Ok(Category::Gather),
            35u32 => Ok(Category::Gfni),
            36u32 => Ok(Category::Hreset),
            37u32 => Ok(Category::I386),
            38u32 => Ok(Category::Ifma),
            39u32 => Ok(Category::Interrupt),
            40u32 => Ok(Category::Io),
            41u32 => Ok(Category::Iostringop),
            42u32 => Ok(Category::Kl),
            43u32 => Ok(Category::Kmask),
            44u32 => Ok(Category::Knl),
            45u32 => Ok(Category::Lkgs),
            46u32 => Ok(Category::Logic),
            47u32 => Ok(Category::Logical),
            48u32 => Ok(Category::LogicalFp),
            49u32 => Ok(Category::Lwp),
            50u32 => Ok(Category::Lzcnt),
            51u32 => Ok(Category::Misc),
            52u32 => Ok(Category::Mmx),
            53u32 => Ok(Category::Movdir64b),
            54u32 => Ok(Category::Movdiri),
            55u32 => Ok(Category::Mpx),
            56u32 => Ok(Category::Nop),
            57u32 => Ok(Category::Padlock),
            58u32 => Ok(Category::Pclmulqdq),
            59u32 => Ok(Category::Pconfig),
            60u32 => Ok(Category::Pop),
            61u32 => Ok(Category::Prefetch),
            62u32 => Ok(Category::Ptwrite),
            63u32 => Ok(Category::Push),
            64u32 => Ok(Category::Rdpid),
            65u32 => Ok(Category::Rdrand),
            66u32 => Ok(Category::Rdseed),
            67u32 => Ok(Category::Rdwrfsgs),
            68u32 => Ok(Category::Ret),
            69u32 => Ok(Category::Rotate),
            70u32 => Ok(Category::Scatter),
            71u32 => Ok(Category::Segop),
            72u32 => Ok(Category::Semaphore),
            73u32 => Ok(Category::Sgx),
            74u32 => Ok(Category::Sha),
            75u32 => Ok(Category::Shift),
            76u32 => Ok(Category::Smap),
            77u32 => Ok(Category::Sse),
            78u32 => Ok(Category::Sse2),
            79u32 => Ok(Category::Stringop),
            80u32 => Ok(Category::Sttni),
            81u32 => Ok(Category::Syscall),
            82u32 => Ok(Category::Sysret),
            83u32 => Ok(Category::System),
            84u32 => Ok(Category::Tdx),
            85u32 => Ok(Category::Ud),
            86u32 => Ok(Category::Uintr),
            87u32 => Ok(Category::UncondBr),
            88u32 => Ok(Category::Unknown),
            89u32 => Ok(Category::Vaes),
            90u32 => Ok(Category::Vfma),
            91u32 => Ok(Category::Vfmaps),
            92u32 => Ok(Category::Vnni),
            93u32 => Ok(Category::Vnniw),
            94u32 => Ok(Category::Vpclmulqdq),
            95u32 => Ok(Category::Vpopcnt),
            96u32 => Ok(Category::Vtx),
            97u32 => Ok(Category::Waitpkg),
            98u32 => Ok(Category::Wbnoinvd),
            99u32 => Ok(Category::Widenop),
            100u32 => Ok(Category::WideKl),
            101u32 => Ok(Category::X87Alu),
            102u32 => Ok(Category::Xop),
            103u32 => Ok(Category::Xsave),
            _ => Err(DecodeError::InternalError(value as u64)),
        }
    }
}

} // verus!
