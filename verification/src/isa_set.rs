//! Instruction sets.

use vstd::prelude::*;

use crate::decode_error::DecodeError;

verus! {

/// ISA set.
#[derive(Copy, Clone, Eq, PartialEq, Hash, Debug, Structural)]
#[allow(non_camel_case_types)]
pub enum IsaSet {
    I3DNOW,
    ADX,
    AES,
    AMD,
    AMXBF16,
    AMXCOMPLEX,
    AMXFP16,
    AMXINT8,
    AMXTILE,
    APX_F,
    AVX,
    AVX102,
    AVX2,
    AVX2GATHER,
    AVX5124FMAPS,
    AVX5124VNNIW,
    AVX512BF16,
    AVX512BITALG,
    AVX512BW,
    AVX512CD,
    AVX512DQ,
    AVX512ER,
    AVX512F,
    AVX512FP16,
    AVX512IFMA,
    AVX512PF,
    AVX512VBMI,
    AVX512VBMI2,
    AVX512VNNI,
    AVX512VP2INTERSECT,
    AVX512VPOPCNTDQ,
    AVXIFMA,
    AVXNECONVERT,
    AVXVNNI,
    AVXVNNIINT16,
    AVXVNNIINT8,
    BMI1,
    BMI2,
    CET_IBT,
    CET_SS,
    CLDEMOTE,
    CLFSH,
    CLFSHOPT,
    CLWB,
    CLZERO,
    CMPCCXADD,
    CMPXCHG16B,
    ENQCMD,
    F16C,
    FMA,
    FMA4,
    FRED,
    FXSAVE,
    GFNI,
    HRESET,
    I186,
    I286PROT,
    I286REAL,
    I386,
    I486,
    I486REAL,
    I64,
    I86,
    INVLPGB,
    INVPCID,
    KL,
    LKGS,
    LONGMODE,
    LWP,
    LZCNT,
    MCOMMIT,
    MMX,
    MOVBE,
    MOVDIR64B,
    MOVDIRI,
    MPX,
    MSRLIST,
    MWAITT,
    PAUSE,
    PCLMULQDQ,
    PCONFIG,
    PENTIUMREAL,
    PKU,
    POPCNT,
    PPRO,
    PREFETCHITI,
    PREFETCH_NOP,
    PTWRITE,
    RAOINT,
    RDPID,
    RDPMC,
    RDPRU,
    RDRAND,
    RDSEED,
    RDTSCP,
    RDWRFSGS,
    SERIALIZE,
    SGX,
    SHA,
    SHA512,
    SM3,
    SM4,
    SMAP,
    SMX,
    SNP,
    SSE,
    SSE2,
    SSE3,
    SSE4,
    SSE42,
    SSE4A,
    SSSE3,
    SVM,
    TBM,
    TDX,
    TSE,
    TSX,
    TSXLDTRK,
    UD,
    UINTR,
    UNKNOWN,
    USER_MSR,
    VAES,
    VPCLMULQDQ,
    VTX,
    WAITPKG,
    WBNOINVD,
    WRMSRNS,
    X87,
    XOP,
    XSAVE,
    XSAVEC,
    XSAVES,
}

/// What [`IsaSet::try_from`] returns for each raw numeric code: code 0 is
/// the explicit invalid marker, the codes that follow map to the variants in
/// table order, and any code past the table is an internal error.
pub open spec fn isa_set_from_code(value: u32) -> Result<IsaSet, DecodeError> {
    match value {
        0u32 => Err(DecodeError::InternalError(value as u64)),
        1u32 => Ok(IsaSet::I3DNOW),
        2u32 => Ok(IsaSet::ADX),
        3u32 => Ok(IsaSet::AES),
        4u32 => Ok(IsaSet::AMD),
        5u32 => Ok(IsaSet::AMXBF16),
        6u32 => Ok(IsaSet::AMXCOMPLEX),
        7u32 => Ok(IsaSet::AMXFP16),
        8u32 => Ok(IsaSet::AMXINT8),
        9u32 => Ok(IsaSet::AMXTILE),
        10u32 => Ok(IsaSet::APX_F),
        11u32 => Ok(IsaSet::AVX),
        12u32 => Ok(IsaSet::AVX102),
        13u32 => Ok(IsaSet::AVX2),
        14u32 => Ok(IsaSet::AVX2GATHER),
        15u32 => Ok(IsaSet::AVX5124FMAPS),
        16u32 => Ok(IsaSet::AVX5124VNNIW),
        17u32 => Ok(IsaSet::AVX512BF16),
        18u32 => Ok(IsaSet::AVX512BITALG),
        19u32 => Ok(IsaSet::AVX512BW),
        20u32 => Ok(IsaSet::AVX512CD),
        21u32 => Ok(IsaSet::AVX512DQ),
        22u32 => Ok(IsaSet::AVX512ER),
        23u32 => Ok(IsaSet::AVX512F),
        24u32 => Ok(IsaSet::AVX512FP16),
        25u32 => Ok(IsaSet::AVX512IFMA),
        26u32 => Ok(IsaSet::AVX512PF),
        27u32 => Ok(IsaSet::AVX512VBMI),
        28u32 => Ok(IsaSet::AVX512VBMI2),
        29u32 => Ok(IsaSet::AVX512VNNI),
        30u32 => Ok(IsaSet::AVX512VP2INTERSECT),
        31u32 => Ok(IsaSet::AVX512VPOPCNTDQ),
        32u32 => Ok(IsaSet::AVXIFMA),
        33u32 => Ok(IsaSet::AVXNECONVERT),
        34u32 => Ok(IsaSet::AVXVNNI),
        35u32 => Ok(IsaSet::AVXVNNIINT16),
        36u32 => Ok(IsaSet::AVXVNNIINT8),
        37u32 => Ok(IsaSet::BMI1),
        38u32 => Ok(IsaSet::BMI2),
        39u32 => Ok(IsaSet::CET_IBT),
        40u32 => Ok(IsaSet::CET_SS),
        41u32 => Ok(IsaSet::CLDEMOTE),
        42u32 => Ok(IsaSet::CLFSH),
        43u32 => Ok(IsaSet::CLFSHOPT),
        44u32 => Ok(IsaSet::CLWB),
        45u32 => Ok(IsaSet::CLZERO),
        46u32 => Ok(IsaSet::CMPCCXADD),
        47u32 => Ok(IsaSet::CMPXCHG16B),
        48u32 => Ok(IsaSet::ENQCMD),
        49u32 => Ok(IsaSet::F16C),
        50u32 => Ok(IsaSet::FMA),
        51u32 => Ok(IsaSet::FMA4),
        52u32 => Ok(IsaSet::FRED),
        53u32 => Ok(IsaSet::FXSAVE),
        54u32 => Ok(IsaSet::GFNI),
        55u32 => Ok(IsaSet::HRESET),
        56u32 => Ok(IsaSet::I186),
        57u32 => Ok(IsaSet::I286PROT),
        58u32 => Ok(IsaSet::I286REAL),
        59u32 => Ok(IsaSet::I386),
        60u32 => Ok(IsaSet::I486),
        61u32 => Ok(IsaSet::I486REAL),
        62u32 => Ok(IsaSet::I64),
        63u32 => Ok(IsaSet::I86),
        64u32 => Ok(IsaSet::INVLPGB),
        65u32 => Ok(IsaSet::INVPCID),
        66u32 => Ok(IsaSet::KL),
        67u32 => Ok(IsaSet::LKGS),
        68u32 => Ok(IsaSet::LONGMODE),
        69u32 => Ok(IsaSet::LWP),
        70u32 => Ok(IsaSet::LZCNT),
        71u32 => Ok(IsaSet::MCOMMIT),
        72u32 => Ok(IsaSet::MMX),
        73u32 => Ok(IsaSet::MOVBE),
        74u32 => Ok(IsaSet::MOVDIR64B),
        75u32 => Ok(IsaSet::MOVDIRI),
        76u32 => Ok(IsaSet::MPX),
        77u32 => Ok(IsaSet::MSRLIST),
        78u32 => Ok(IsaSet::MWAITT),
        79u32 => Ok(IsaSet::PAUSE),
        80u32 => Ok(IsaSet::PCLMULQDQ),
        81u32 => Ok(IsaSet::PCONFIG),
        82u32 => Ok(IsaSet::PENTIUMREAL),
        83u32 => Ok(IsaSet::PKU),
        84u32 => Ok(IsaSet::POPCNT),
        85u32 => Ok(IsaSet::PPRO),
        86u32 => Ok(IsaSet::PREFETCHITI),
        87u32 => Ok(IsaSet::PREFETCH_NOP),
        88u32 => Ok(IsaSet::PTWRITE),
        89u32 => Ok(IsaSet::RAOINT),
        90u32 => Ok(IsaSet::RDPID),
        91u32 => Ok(IsaSet::RDPMC),
        92u32 => Ok(IsaSet::RDPRU),
        93u32 => Ok(IsaSet::RDRAND),
        94u32 => Ok(IsaSet::RDSEED),
        95u32 => Ok(IsaSet::RDTSCP),
        96u32 => Ok(IsaSet::RDWRFSGS),
        97u32 => Ok(IsaSet::SERIALIZE),
        98u32 => Ok(IsaSet::SGX),
        99u32 => Ok(IsaSet::SHA),
        100u32 => Ok(IsaSet::SHA512),
        101u32 => Ok(IsaSet::SM3),
        102u32 => Ok(IsaSet::SM4),
        103u32 => Ok(IsaSet::SMAP),
        104u32 => Ok(IsaSet::SMX),
        105u32 => Ok(IsaSet::SNP),
        106u32 => Ok(IsaSet::SSE),
        107u32 => Ok(IsaSet::SSE2),
        108u32 => Ok(IsaSet::SSE3),
        109u32 => Ok(IsaSet::SSE4),
        110u32 => Ok(IsaSet::SSE42),
        111u32 => Ok(IsaSet::SSE4A),
        112u32 => Ok(IsaSet::SSSE3),
        113u32 => Ok(IsaSet::SVM),
        114u32 => Ok(IsaSet::TBM),
        115u32 => Ok(IsaSet::TDX),
        116u32 => Ok(IsaSet::TSE),
        117u32 => Ok(IsaSet::TSX),
        118u32 => Ok(IsaSet::TSXLDTRK),
        119u32 => Ok(IsaSet::UD),
        120u32 => Ok(IsaSet::UINTR),
        121u32 => Ok(IsaSet::UNKNOWN),
        122u32 => Ok(IsaSet::USER_MSR),
        123u32 => Ok(IsaSet::VAES),
        124u32 => Ok(IsaSet::VPCLMULQDQ),
        125u32 => Ok(IsaSet::VTX),
        126u32 => Ok(IsaSet::WAITPKG),
        127u32 => Ok(IsaSet::WBNOINVD),
        128u32 => Ok(IsaSet::WRMSRNS),
        129u32 => Ok(IsaSet::X87),
        130u32 => Ok(IsaSet::XOP),
        131u32 => Ok(IsaSet::XSAVE),
        132u32 => Ok(IsaSet::XSAVEC),
        133u32 => Ok(IsaSet::XSAVES),
        _ => Err(DecodeError::InternalError(value as u64)),
    }
}

impl IsaSet {
    /// Maps a raw numeric code to its typed variant, or reports the code as
    /// an internal error when no table row carries it.
    pub fn try_from(value: u32) -> (r: Result<IsaSet, DecodeError>)
        ensures
            r == isa_set_from_code(value),
    {
        match value {
            1u32 => Ok(IsaSet::I3DNOW),
            2u32 => Ok(IsaSet::ADX),
            3u32 => Ok(IsaSet::AES),
            4u32 => Ok(IsaSet::AMD),
            5u32 => Ok(IsaSet::AMXBF16),
            6u32 => Ok(IsaSet::AMXCOMPLEX),
            7u32 => Ok(IsaSet::AMXFP16),
            8u32 => Ok(IsaSet::AMXINT8),
            9u32 => Ok(IsaSet::AMXTILE),
            10u32 => Ok(IsaSet::APX_F),
            11u32 => Ok(IsaSet::AVX),
            12u32 => Ok(IsaSet::AVX102),
            13u32 => Ok(IsaSet::AVX2),
            14u32 => Ok(IsaSet::AVX2GATHER),
            15u32 => Ok(IsaSet::AVX5124FMAPS),
            16u32 => Ok(IsaSet::AVX5124VNNIW),
            17u32 => Ok(IsaSet::AVX512BF16),
            18u32 => Ok(IsaSet::AVX512BITALG),
            19u32 => Ok(IsaSet::AVX512BW),
            20u32 => Ok(IsaSet::AVX512CD),
            21u32 => Ok(IsaSet::AVX512DQ),
            22u32 => Ok(IsaSet::AVX512ER),
            23u32 => Ok(IsaSet::AVX512F),
            24u32 => Ok(IsaSet::AVX512FP16),
            25u32 => Ok(IsaSet::AVX512IFMA),
            26u32 => Ok(IsaSet::AVX512PF),
            27u32 => Ok(IsaSet::AVX512VBMI),
            28u32 => Ok(IsaSet::AVX512VBMI2),
            29u32 => Ok(IsaSet::AVX512VNNI),
            30u32 => Ok(IsaSet::AVX512VP2INTERSECT),
            31u32 => Ok(IsaSet::AVX512VPOPCNTDQ),
            32u32 => Ok(IsaSet::AVXIFMA),
            33u32 => Ok(IsaSet::AVXNECONVERT),
            34u32 => Ok(IsaSet::AVXVNNI),
            35u32 => Ok(IsaSet::AVXVNNIINT16),
            36u32 => Ok(IsaSet::AVXVNNIINT8),
            37u32 => Ok(IsaSet::BMI1),
            38u32 => Ok(IsaSet::BMI2),
            39u32 => Ok(IsaSet::CET_IBT),
            40u32 => Ok(IsaSet::CET_SS),
            41u32 => Ok(IsaSet::CLDEMOTE),
            42u32 => Ok(IsaSet::CLFSH),
            43u32 => Ok(IsaSet::CLFSHOPT),
            44u32 => Ok(IsaSet::CLWB),
            45u32 => Ok(IsaSet::CLZERO),
            46u32 => Ok(IsaSet::CMPCCXADD),
            47u32 => Ok(IsaSet::CMPXCHG16B),
            48u32 => Ok(IsaSet::ENQCMD),
            49u32 => Ok(IsaSet::F16C),
            50u32 => Ok(IsaSet::FMA),
            51u32 => Ok(IsaSet::FMA4),
            52u32 => Ok(IsaSet::FRED),
            53u32 => Ok(IsaSet::FXSAVE),
            54u32 => Ok(IsaSet::GFNI),
            55u32 => Ok(IsaSet::HRESET),
            56u32 => Ok(IsaSet::I186),
            57u32 => Ok(IsaSet::I286PROT),
            58u32 => Ok(IsaSet::I286REAL),
            59u32 => Ok(IsaSet::I386),
            60u32 => Ok(IsaSet::I486),
            61u32 => Ok(IsaSet::I486REAL),
            62u32 => Ok(IsaSet::I64),
            63u32 => Ok(IsaSet::I86),
            64u32 => Ok(IsaSet::INVLPGB),
            65u32 => Ok(IsaSet::INVPCID),
            66u32 => Ok(IsaSet::KL),
            67u32 => Ok(IsaSet::LKGS),
            68u32 => Ok(IsaSet::LONGMODE),
            69u32 => Ok(IsaSet::LWP),
            70u32 => Ok(IsaSet::LZCNT),
            71u32 => Ok(IsaSet::MCOMMIT),
            72u32 => Ok(IsaSet::MMX),
            73u32 => Ok(IsaSet::MOVBE),
            74u32 => Ok(IsaSet::MOVDIR64B),
            75u32 => Ok(IsaSet::MOVDIRI),
            76u32 => Ok(IsaSet::MPX),
            77u32 => Ok(IsaSet::MSRLIST),
            78u32 => Ok(IsaSet::MWAITT),
            79u32 => Ok(IsaSet::PAUSE),
            80u32 => Ok(IsaSet::PCLMULQDQ),
            81u32 => Ok(IsaSet::PCONFIG),
            82u32 => Ok(IsaSet::PENTIUMREAL),
            83u32 => Ok(IsaSet::PKU),
            84u32 => Ok(IsaSet::POPCNT),
            85u32 => Ok(IsaSet::PPRO),
            86u32 => Ok(IsaSet::PREFETCHITI),
            87u32 => Ok(IsaSet::PREFETCH_NOP),
            88u32 => Ok(IsaSet::PTWRITE),
            89u32 => Ok(IsaSet::RAOINT),
            90u32 => Ok(IsaSet::RDPID),
            91u32 => Ok(IsaSet::RDPMC),
            92u32 => Ok(IsaSet::RDPRU),
            93u32 => Ok(IsaSet::RDRAND),
            94u32 => Ok(IsaSet::RDSEED),
            95u32 => Ok(IsaSet::RDTSCP),
            96u32 => Ok(IsaSet::RDWRFSGS),
            97u32 => Ok(IsaSet::SERIALIZE),
            98u32 => Ok(IsaSet::SGX),
            99u32 => Ok(IsaSet::SHA),
            100u32 => Ok(IsaSet::SHA512),
            101u32 => Ok(IsaSet::SM3),
            102u32 => Ok(IsaSet::SM4),
            103u32 => Ok(IsaSet::SMAP),
            104u32 => Ok(IsaSet::SMX),
            105u32 => Ok(IsaSet::SNP),
            106u32 => Ok(IsaSet::SSE),
            107u32 => Ok(IsaSet::SSE2),
            108u32 => Ok(IsaSet::SSE3),
            109u32 => Ok(IsaSet::SSE4),
            110u32 => Ok(IsaSet::SSE42),
            111u32 => Ok(IsaSet::SSE4A),
            112u32 => Ok(IsaSet::SSSE3),
            113u32 => Ok(IsaSet::SVM),
            114u32 => Ok(IsaSet::TBM),
            115u32 => Ok(IsaSet::TDX),
            116u32 => Ok(IsaSet::TSE),
            117u32 => Ok(IsaSet::TSX),
            118u32 => Ok(IsaSet::TSXLDTRK),
            119u32 => Ok(IsaSet::UD),
            120u32 => Ok(IsaSet::UINTR),
            121u32 => Ok(IsaSet::UNKNOWN),
            122u32 => Ok(IsaSet::USER_MSR),
            123u32 => Ok(IsaSet::VAES),
            124u32 => Ok(IsaSet::VPCLMULQDQ),
            125u32 => Ok(IsaSet::VTX),
            126u32 => Ok(IsaSet::WAITPKG),
            127u32 => Ok(IsaSet::WBNOINVD),
            128u32 => Ok(IsaSet::WRMSRNS),
            129u32 => Ok(IsaSet::X87),
            130u32 => Ok(IsaSet::XOP),
            131u32 => Ok(IsaSet::XSAVE),
            132u32 => Ok(IsaSet::XSAVEC),
            133u32 => Ok(IsaSet::XSAVES),
            _ => Err(DecodeError::InternalError(value as u64)),
        }
    }
}

} // verus!
