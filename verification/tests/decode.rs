use bddisasm::decode;
use bddisasm::operand::{MemBase, MemIndex, Operand, RegClass};
use bddisasm::Category;
use bddisasm::DecodeError;
use bddisasm::IsaSet;
use bddisasm::MachineMode;
use bddisasm::Mnemonic;

#[test]
fn nop_decodes_in_every_mode() {
    for mode in [MachineMode::Bits16, MachineMode::Bits32, MachineMode::Bits64] {
        let d = decode(&[0x90], mode).unwrap();
        assert_eq!(d.length, 1);
        assert_eq!(d.mnemonic, Mnemonic::Nop);
        assert_eq!(d.category, Category::Nop);
        assert_eq!(d.isa_set, IsaSet::I86);
        assert!(d.operands.is_empty());
    }
}

#[test]
fn empty_buffer_is_out_of_buffer() {
    for mode in [MachineMode::Bits16, MachineMode::Bits32, MachineMode::Bits64] {
        assert_eq!(decode(&[], mode), Err(DecodeError::OutOfBuffer));
    }
}

#[test]
fn group_opcode_without_modrm_is_out_of_buffer() {
    assert_eq!(decode(&[0xFF], MachineMode::Bits64), Err(DecodeError::OutOfBuffer));
}

#[test]
fn mov_rax_rbx_in_long_mode() {
    let d = decode(&[0x48, 0x89, 0xD8], MachineMode::Bits64).unwrap();
    assert_eq!(d.length, 3);
    assert_eq!(d.mnemonic, Mnemonic::Mov);
    assert_eq!(d.category, Category::Dataxfer);
    assert_eq!(d.prefixes.rex, 0x48);
    assert_eq!(
        d.operands,
        vec![
            Operand::Register { class: RegClass::Gpr, reg: 0, width: 64 },
            Operand::Register { class: RegClass::Gpr, reg: 3, width: 64 },
        ]
    );
}

#[test]
fn rex_then_vex_is_invalid_prefix_sequence() {
    assert_eq!(
        decode(&[0x48, 0xC4, 0x00], MachineMode::Bits64),
        Err(DecodeError::InvalidPrefixSequence)
    );
}

#[test]
fn trailing_bytes_are_ignored_and_redecode_matches() {
    let long = [0x48u8, 0x89, 0xD8, 0xAA, 0xBB, 0xCC];
    let d1 = decode(&long, MachineMode::Bits64).unwrap();
    assert_eq!(d1.length, 3);
    let d2 = decode(&long[..3], MachineMode::Bits64).unwrap();
    assert_eq!(d1, d2);
}

#[test]
fn truncation_below_length_is_out_of_buffer() {
    assert_eq!(decode(&[0x48, 0x89], MachineMode::Bits64), Err(DecodeError::OutOfBuffer));
    assert_eq!(decode(&[0x05, 0x01, 0x02], MachineMode::Bits32), Err(DecodeError::OutOfBuffer));
}

#[test]
fn add_eax_imm32() {
    let d = decode(&[0x05, 0x78, 0x56, 0x34, 0x12], MachineMode::Bits32).unwrap();
    assert_eq!(d.length, 5);
    assert_eq!(d.mnemonic, Mnemonic::Add);
    assert_eq!(d.category, Category::Arith);
    assert_eq!(d.flags, 0x8D5);
    assert_eq!(
        d.operands,
        vec![
            Operand::Register { class: RegClass::Gpr, reg: 0, width: 32 },
            Operand::Immediate { value: 0x12345678, width: 32 },
        ]
    );
}

#[test]
fn operand_size_override_selects_16_bits() {
    let d = decode(&[0x66, 0x05, 0x34, 0x12], MachineMode::Bits32).unwrap();
    assert_eq!(d.length, 4);
    assert!(d.prefixes.opsize);
    assert_eq!(
        d.operands,
        vec![
            Operand::Register { class: RegClass::Gpr, reg: 0, width: 16 },
            Operand::Immediate { value: 0x1234, width: 16 },
        ]
    );
}

#[test]
fn sib_scaled_index_with_disp8() {
    let d = decode(&[0x8B, 0x44, 0x8E, 0x10], MachineMode::Bits32).unwrap();
    assert_eq!(d.length, 4);
    assert_eq!(d.mnemonic, Mnemonic::Mov);
    assert_eq!(
        d.operands,
        vec![
            Operand::Register { class: RegClass::Gpr, reg: 0, width: 32 },
            Operand::Memory {
                seg: 0,
                base: MemBase::Gpr(6),
                index: MemIndex::Reg(1),
                scale: 4,
                disp: 0x10,
            },
        ]
    );
}

#[test]
fn rip_relative_in_long_mode() {
    let d = decode(&[0x8B, 0x05, 0x44, 0x33, 0x22, 0x11], MachineMode::Bits64).unwrap();
    assert_eq!(d.length, 6);
    assert_eq!(
        d.operands[1],
        Operand::Memory {
            seg: 0,
            base: MemBase::Rip,
            index: MemIndex::Absent,
            scale: 1,
            disp: 0x11223344,
        }
    );
}

#[test]
fn sixteen_bit_addressing_base_pairs() {
    let d = decode(&[0x8B, 0x02], MachineMode::Bits16).unwrap();
    assert_eq!(d.length, 2);
    assert_eq!(
        d.operands,
        vec![
            Operand::Register { class: RegClass::Gpr, reg: 0, width: 16 },
            Operand::Memory {
                seg: 0,
                base: MemBase::Gpr(5),
                index: MemIndex::Reg(6),
                scale: 1,
                disp: 0,
            },
        ]
    );
}

#[test]
fn address_size_override_switches_to_16_bit_form() {
    let d = decode(&[0x67, 0x8B, 0x02], MachineMode::Bits32).unwrap();
    assert!(d.prefixes.addrsize);
    assert_eq!(
        d.operands[1],
        Operand::Memory {
            seg: 0,
            base: MemBase::Gpr(5),
            index: MemIndex::Reg(6),
            scale: 1,
            disp: 0,
        }
    );
}

#[test]
fn shift_group_selects_row_by_modrm_reg() {
    let d = decode(&[0xC0, 0xE0, 0x05], MachineMode::Bits32).unwrap();
    assert_eq!(d.mnemonic, Mnemonic::Shl);
    assert_eq!(d.category, Category::Shift);
    assert_eq!(
        d.operands,
        vec![
            Operand::Register { class: RegClass::Gpr, reg: 0, width: 8 },
            Operand::Immediate { value: 5, width: 8 },
        ]
    );
}

#[test]
fn call_through_register_defaults_to_64_bits() {
    let d = decode(&[0xFF, 0xD3], MachineMode::Bits64).unwrap();
    assert_eq!(d.mnemonic, Mnemonic::Call);
    assert_eq!(d.category, Category::Call);
    assert_eq!(
        d.operands,
        vec![Operand::Register { class: RegClass::Gpr, reg: 3, width: 64 }]
    );
}

#[test]
fn movzx_in_the_two_byte_map() {
    let d = decode(&[0x0F, 0xB6, 0xC8], MachineMode::Bits32).unwrap();
    assert_eq!(d.length, 3);
    assert_eq!(d.mnemonic, Mnemonic::Movzx);
    assert_eq!(d.isa_set, IsaSet::I386);
    assert_eq!(
        d.operands,
        vec![
            Operand::Register { class: RegClass::Gpr, reg: 1, width: 32 },
            Operand::Register { class: RegClass::Gpr, reg: 0, width: 8 },
        ]
    );
}

#[test]
fn long_conditional_branch() {
    let d = decode(&[0x0F, 0x84, 0x10, 0x00, 0x00, 0x00], MachineMode::Bits32).unwrap();
    assert_eq!(d.length, 6);
    assert_eq!(d.mnemonic, Mnemonic::Je);
    assert_eq!(d.category, Category::CondBr);
    assert_eq!(d.operands, vec![Operand::Relative { offset: 0x10, width: 32 }]);
}

#[test]
fn negative_relative_offset_is_sign_extended() {
    let d = decode(&[0xEB, 0xFE], MachineMode::Bits32).unwrap();
    assert_eq!(d.mnemonic, Mnemonic::Jmp);
    assert_eq!(d.operands, vec![Operand::Relative { offset: -2, width: 8 }]);
}

#[test]
fn setcc_decodes_byte_rm() {
    let d = decode(&[0x0F, 0x94, 0xC0], MachineMode::Bits64).unwrap();
    assert_eq!(d.mnemonic, Mnemonic::Sete);
    assert_eq!(d.category, Category::Bitbyte);
}

#[test]
fn ud2_is_an_explicit_undefined_instruction() {
    assert_eq!(decode(&[0x0F, 0x0B], MachineMode::Bits64), Err(DecodeError::UdInstruction));
}

#[test]
fn unknown_opcodes_are_reported() {
    assert_eq!(decode(&[0x0F, 0x04], MachineMode::Bits32), Err(DecodeError::UnknownOpcode));
    assert_eq!(decode(&[0xD6], MachineMode::Bits32), Err(DecodeError::UnknownOpcode));
}

#[test]
fn legacy_only_opcodes_vanish_in_long_mode() {
    assert!(decode(&[0x0E], MachineMode::Bits32).is_ok());
    assert_eq!(decode(&[0x0E], MachineMode::Bits64), Err(DecodeError::UnknownOpcode));
}

#[test]
fn lea_register_form_is_invalid_modrm() {
    assert_eq!(decode(&[0x8D, 0xC0], MachineMode::Bits32), Err(DecodeError::InvalidModRm));
}

#[test]
fn segment_register_above_five_is_invalid_modrm() {
    assert_eq!(decode(&[0x8E, 0xF0], MachineMode::Bits32), Err(DecodeError::InvalidModRm));
}

#[test]
fn mandatory_prefix_selects_the_qualified_entry() {
    let d = decode(&[0x66, 0x0F, 0x10, 0xC1], MachineMode::Bits64).unwrap();
    assert_eq!(d.mnemonic, Mnemonic::Movupd);
    assert_eq!(d.isa_set, IsaSet::SSE2);
    assert_eq!(
        d.operands,
        vec![
            Operand::Register { class: RegClass::Vec, reg: 0, width: 128 },
            Operand::Register { class: RegClass::Vec, reg: 1, width: 128 },
        ]
    );
    let d = decode(&[0xF3, 0x0F, 0x10, 0xC1], MachineMode::Bits64).unwrap();
    assert_eq!(d.mnemonic, Mnemonic::Movss);
    let d = decode(&[0xF2, 0x0F, 0x10, 0xC1], MachineMode::Bits64).unwrap();
    assert_eq!(d.mnemonic, Mnemonic::Movsd);
    let d = decode(&[0x0F, 0x10, 0xC1], MachineMode::Bits64).unwrap();
    assert_eq!(d.mnemonic, Mnemonic::Movups);
}

#[test]
fn mandatory_prefix_falls_back_to_the_unprefixed_entry() {
    let d = decode(&[0x66, 0x0F, 0xB6, 0xC8], MachineMode::Bits32).unwrap();
    assert_eq!(d.mnemonic, Mnemonic::Movzx);
    assert_eq!(
        d.operands[0],
        Operand::Register { class: RegClass::Gpr, reg: 1, width: 16 }
    );
}

#[test]
fn vzeroupper_and_vzeroall_by_vector_length() {
    let d = decode(&[0xC5, 0xF8, 0x77], MachineMode::Bits64).unwrap();
    assert_eq!(d.mnemonic, Mnemonic::Vzeroupper);
    assert_eq!(d.isa_set, IsaSet::AVX);
    let d = decode(&[0xC5, 0xFC, 0x77], MachineMode::Bits64).unwrap();
    assert_eq!(d.mnemonic, Mnemonic::Vzeroall);
}

#[test]
fn two_byte_vex_works_outside_long_mode_with_committed_modrm() {
    let d = decode(&[0xC5, 0xF8, 0x77], MachineMode::Bits32).unwrap();
    assert_eq!(d.mnemonic, Mnemonic::Vzeroupper);
}

#[test]
fn vex_vvvv_supplies_the_middle_operand() {
    let d = decode(&[0xC5, 0xF0, 0x58, 0xC2], MachineMode::Bits64).unwrap();
    assert_eq!(d.mnemonic, Mnemonic::Vaddps);
    assert_eq!(
        d.operands,
        vec![
            Operand::Register { class: RegClass::Vec, reg: 0, width: 128 },
            Operand::Register { class: RegClass::Vec, reg: 1, width: 128 },
            Operand::Register { class: RegClass::Vec, reg: 2, width: 128 },
        ]
    );
}

#[test]
fn les_keeps_its_legacy_meaning_outside_long_mode() {
    let d = decode(&[0xC4, 0x05, 0x44, 0x33, 0x22, 0x11], MachineMode::Bits32).unwrap();
    assert_eq!(d.mnemonic, Mnemonic::Les);
    assert_eq!(d.length, 6);
    assert_eq!(
        d.operands[1],
        Operand::Memory {
            seg: 0,
            base: MemBase::Absent,
            index: MemIndex::Absent,
            scale: 1,
            disp: 0x11223344,
        }
    );
}

#[test]
fn bound_keeps_its_legacy_meaning_outside_long_mode() {
    let d = decode(&[0x62, 0x05, 0x44, 0x33, 0x22, 0x11], MachineMode::Bits32).unwrap();
    assert_eq!(d.mnemonic, Mnemonic::Bound);
}

#[test]
fn evex_encodings_are_not_in_the_tables() {
    assert_eq!(
        decode(&[0x62, 0xF1, 0x7C, 0x48, 0x58, 0xC2], MachineMode::Bits64),
        Err(DecodeError::UnknownOpcode)
    );
}

#[test]
fn xop_map_carries_no_entries() {
    assert_eq!(
        decode(&[0x8F, 0xE8, 0x78, 0x10, 0xC0], MachineMode::Bits64),
        Err(DecodeError::UnknownOpcode)
    );
}

#[test]
fn pop_rm_shares_its_byte_with_the_xop_prefix() {
    let d = decode(&[0x8F, 0xC0], MachineMode::Bits64).unwrap();
    assert_eq!(d.mnemonic, Mnemonic::Pop);
    assert_eq!(
        d.operands,
        vec![Operand::Register { class: RegClass::Gpr, reg: 0, width: 64 }]
    );
}

#[test]
fn direct_memory_offset_form() {
    let d = decode(&[0xA1, 0x44, 0x33, 0x22, 0x11], MachineMode::Bits32).unwrap();
    assert_eq!(d.mnemonic, Mnemonic::Mov);
    assert_eq!(
        d.operands,
        vec![
            Operand::Register { class: RegClass::Gpr, reg: 0, width: 32 },
            Operand::Memory {
                seg: 0,
                base: MemBase::Absent,
                index: MemIndex::Absent,
                scale: 1,
                disp: 0x11223344,
            },
        ]
    );
}

#[test]
fn rex_w_mov_imm64() {
    let d = decode(
        &[0x48, 0xB8, 0x88, 0x77, 0x66, 0x55, 0x44, 0x33, 0x22, 0x11],
        MachineMode::Bits64,
    )
    .unwrap();
    assert_eq!(d.length, 10);
    assert_eq!(
        d.operands,
        vec![
            Operand::Register { class: RegClass::Gpr, reg: 0, width: 64 },
            Operand::Immediate { value: 0x1122334455667788, width: 64 },
        ]
    );
}

#[test]
fn rex_b_extends_an_opcode_register() {
    let d = decode(&[0x41, 0x50], MachineMode::Bits64).unwrap();
    assert_eq!(d.mnemonic, Mnemonic::Push);
    assert_eq!(d.prefixes.rex, 0x41);
    assert_eq!(
        d.operands,
        vec![Operand::Register { class: RegClass::Gpr, reg: 8, width: 64 }]
    );
}

#[test]
fn rex_bytes_are_inc_dec_outside_long_mode() {
    let d = decode(&[0x41], MachineMode::Bits32).unwrap();
    assert_eq!(d.mnemonic, Mnemonic::Inc);
    assert_eq!(
        d.operands,
        vec![Operand::Register { class: RegClass::Gpr, reg: 1, width: 32 }]
    );
}

#[test]
fn segment_override_is_recorded_on_the_memory_operand() {
    let d = decode(&[0x2E, 0x8B, 0x05, 0x44, 0x33, 0x22, 0x11], MachineMode::Bits32).unwrap();
    assert_eq!(d.prefixes.seg, 0x2E);
    assert_eq!(
        d.operands[1],
        Operand::Memory {
            seg: 0x2E,
            base: MemBase::Absent,
            index: MemIndex::Absent,
            scale: 1,
            disp: 0x11223344,
        }
    );
}

#[test]
fn lock_prefix_is_recorded() {
    let d = decode(&[0xF0, 0x01, 0x08], MachineMode::Bits32).unwrap();
    assert_eq!(d.mnemonic, Mnemonic::Add);
    assert_eq!(d.prefixes.rep_lock, 0xF0);
}

#[test]
fn mode_split_of_arpl_and_movsxd() {
    let d = decode(&[0x63, 0xC8], MachineMode::Bits32).unwrap();
    assert_eq!(d.mnemonic, Mnemonic::Arpl);
    assert_eq!(d.category, Category::System);
    let d = decode(&[0x63, 0xC8], MachineMode::Bits64).unwrap();
    assert_eq!(d.mnemonic, Mnemonic::Movsxd);
    assert_eq!(
        d.operands,
        vec![
            Operand::Register { class: RegClass::Gpr, reg: 1, width: 32 },
            Operand::Register { class: RegClass::Gpr, reg: 0, width: 32 },
        ]
    );
}

#[test]
fn prefixes_past_the_length_cap_are_too_long() {
    let buf = [
        0x66u8, 0x66, 0x66, 0x66, 0x66, 0x66, 0x66, 0x66, 0x66, 0x66, 0x66, 0x66, 0x66, 0x66,
        0x66, 0x05, 0x34, 0x12,
    ];
    assert_eq!(decode(&buf, MachineMode::Bits32), Err(DecodeError::InstructionTooLong));
}

#[test]
fn xchg_with_the_accumulator() {
    let d = decode(&[0x93], MachineMode::Bits32).unwrap();
    assert_eq!(d.mnemonic, Mnemonic::Xchg);
    assert_eq!(
        d.operands,
        vec![
            Operand::Register { class: RegClass::Gpr, reg: 0, width: 32 },
            Operand::Register { class: RegClass::Gpr, reg: 3, width: 32 },
        ]
    );
}

#[test]
fn test_group_row_has_its_own_immediate() {
    let d = decode(&[0xF7, 0xC1, 0x78, 0x56, 0x34, 0x12], MachineMode::Bits32).unwrap();
    assert_eq!(d.mnemonic, Mnemonic::Test);
    assert_eq!(
        d.operands,
        vec![
            Operand::Register { class: RegClass::Gpr, reg: 1, width: 32 },
            Operand::Immediate { value: 0x12345678, width: 32 },
        ]
    );
    let d = decode(&[0xF7, 0xD1], MachineMode::Bits32).unwrap();
    assert_eq!(d.mnemonic, Mnemonic::Not);
    assert_eq!(d.operands.len(), 1);
}

#[test]
fn sign_extended_byte_immediate_widens_to_the_operand_size() {
    let d = decode(&[0x83, 0xC0, 0xFF], MachineMode::Bits32).unwrap();
    assert_eq!(d.mnemonic, Mnemonic::Add);
    assert_eq!(
        d.operands[1],
        Operand::Immediate { value: 0xFFFFFFFFFFFFFFFF, width: 32 }
    );
}

#[test]
fn far_call_reads_offset_then_segment() {
    let d = decode(&[0x9A, 0x44, 0x33, 0x22, 0x11, 0x34, 0x12], MachineMode::Bits32).unwrap();
    assert_eq!(d.mnemonic, Mnemonic::Callf);
    assert_eq!(d.length, 7);
    assert_eq!(
        d.operands,
        vec![
            Operand::Immediate { value: 0x11223344, width: 32 },
            Operand::Immediate { value: 0x1234, width: 16 },
        ]
    );
}

#[test]
fn multi_byte_nop_is_a_widening_nop() {
    let d = decode(&[0x0F, 0x1F, 0x00], MachineMode::Bits64).unwrap();
    assert_eq!(d.mnemonic, Mnemonic::Nop);
    assert_eq!(d.category, Category::Widenop);
}
