use ygen::obj::link::{Link, LinkKind};
use ygen::target::x64::instr::{MemOp, Mnemonic, Operand, X64MCInstr};
use ygen::codegen::error::EncodeError;
use ygen::target::x64::isa::{buildOpcode, push_le_bytes, MandatoryPrefix, ModRm, RexPrefix};
use ygen::target::x64::reg::x64Reg;

fn reg(r: x64Reg) -> Operand {
    Operand::Reg(r)
}

fn mem(base: Option<x64Reg>, index: Option<x64Reg>, scale: u8, displ: i64) -> MemOp {
    MemOp { base, index, scale, displ, rip: false }
}

fn slot(off: u32) -> Operand {
    Operand::Mem(MemOp::base_minus(x64Reg::Rbp, off))
}

fn bytes(i: X64MCInstr) -> Vec<u8> {
    let (bytes, link) = i.encode().unwrap();
    assert_eq!(link, None);
    bytes
}

fn two(m: Mnemonic, a: Operand, b: Operand) -> Vec<u8> {
    bytes(X64MCInstr::with2(m, a, b))
}

fn one(m: Mnemonic, a: Operand) -> Vec<u8> {
    bytes(X64MCInstr::with1(m, a))
}

fn refused(i: X64MCInstr) -> EncodeError {
    i.encode().unwrap_err()
}

#[test]
fn opcode_without_prefixes() {
    assert_eq!(buildOpcode(None, None, vec![0xC3]), vec![0xC3]);
    assert_eq!(buildOpcode(None, None, vec![]), Vec::<u8>::new());
    assert_eq!(buildOpcode(None, None, vec![0x0F, 0x84]), vec![0x0F, 0x84]);
}

#[test]
fn opcode_with_prefixes_in_order() {
    let rex = RexPrefix { w: true, r: false, x: false, b: true };
    assert_eq!(
        buildOpcode(Some(MandatoryPrefix::t16BitOps), Some(rex), vec![0x89]),
        vec![0x66, 0x49, 0x89]
    );
    assert_eq!(buildOpcode(Some(MandatoryPrefix::t16BitOps), None, vec![0x89]), vec![0x66, 0x89]);
}

#[test]
fn rex_prefix_bits() {
    let rex = |w, r, x, b| buildOpcode(None, Some(RexPrefix { w, r, x, b }), vec![])[0];
    assert_eq!(rex(false, false, false, false), 0x40);
    assert_eq!(rex(true, false, false, false), 0x48);
    assert_eq!(rex(false, true, false, false), 0x44);
    assert_eq!(rex(false, false, true, false), 0x42);
    assert_eq!(rex(false, false, false, true), 0x41);
    assert_eq!(rex(true, true, true, true), 0x4F);
    assert_eq!(rex(true, false, true, false), 0x4A);
}

#[test]
fn modrm_of_two_registers() {
    assert_eq!(ModRm::reg2(x64Reg::Rax, x64Reg::Rbx), vec![0xD8]);
    assert_eq!(ModRm::reg2(x64Reg::R8, x64Reg::Rcx), vec![0xC8]);
    assert_eq!(ModRm::reg2(x64Reg::Edi, x64Reg::Esi), vec![0xF7]);
    assert_eq!(ModRm::reg2(x64Reg::Rax, x64Reg::Rax), vec![0xC0]);
}

#[test]
fn modrm_with_a_digit() {
    assert_eq!(ModRm::digitR(5, x64Reg::Rsp), vec![0xEC]);
    assert_eq!(ModRm::digitM(3, mem(Some(x64Reg::Rbp), None, 1, -4)), Ok(vec![0x5D, 0xFC]));
}

#[test]
fn memory_below_the_frame_pointer() {
    assert_eq!(ModRm::regM(x64Reg::Rax, MemOp::base_minus(x64Reg::Rbp, 16)), Ok(vec![0x45, 0xF0]));
    assert_eq!(ModRm::memR(MemOp::base_minus(x64Reg::Rbp, 16), x64Reg::Rax), Ok(vec![0x45, 0xF0]));
    assert_eq!(ModRm::regM(x64Reg::Ecx, MemOp::base_minus(x64Reg::Rbp, 16)), Ok(vec![0x4D, 0xF0]));
}

#[test]
fn frame_pointer_as_base_always_takes_a_displacement() {
    assert_eq!(ModRm::regM(x64Reg::Rax, mem(Some(x64Reg::Rbp), None, 1, 0)), Ok(vec![0x45, 0x00]));
    assert_eq!(ModRm::regM(x64Reg::Rax, mem(Some(x64Reg::R13), None, 1, 0)), Ok(vec![0x45, 0x00]));
    assert_eq!(ModRm::regM(x64Reg::Rax, mem(Some(x64Reg::Rax), None, 1, 0)), Ok(vec![0x00]));
    assert_eq!(ModRm::regM(x64Reg::Rdx, mem(Some(x64Reg::Rbx), None, 1, 0)), Ok(vec![0x13]));
}

#[test]
fn stack_pointer_as_base_takes_a_sib_byte() {
    assert_eq!(
        ModRm::regM(x64Reg::Rax, mem(Some(x64Reg::Rsp), None, 1, 8)),
        Ok(vec![0x44, 0x24, 0x08])
    );
    assert_eq!(ModRm::regM(x64Reg::Rax, mem(Some(x64Reg::R12), None, 1, 0)), Ok(vec![0x04, 0x24]));
}

#[test]
fn displacement_sizes() {
    assert_eq!(ModRm::regM(x64Reg::Rax, mem(Some(x64Reg::Rax), None, 1, 127)), Ok(vec![0x40, 0x7F]));
    assert_eq!(ModRm::regM(x64Reg::Rax, mem(Some(x64Reg::Rax), None, 1, -128)), Ok(vec![0x40, 0x80]));
    assert_eq!(
        ModRm::regM(x64Reg::Rax, mem(Some(x64Reg::Rax), None, 1, 128)),
        Ok(vec![0x80, 0x80, 0x00, 0x00, 0x00])
    );
    assert_eq!(
        ModRm::regM(x64Reg::Rax, mem(Some(x64Reg::Rax), None, 1, -129)),
        Ok(vec![0x80, 0x7F, 0xFF, 0xFF, 0xFF])
    );
    assert_eq!(
        ModRm::regM(x64Reg::Rax, mem(Some(x64Reg::Rax), None, 1, 0x7fff_ffff)),
        Ok(vec![0x80, 0xFF, 0xFF, 0xFF, 0x7F])
    );
    assert_eq!(
        ModRm::regM(x64Reg::Rax, mem(Some(x64Reg::Rax), None, 1, -0x8000_0000)),
        Ok(vec![0x80, 0x00, 0x00, 0x00, 0x80])
    );
}

#[test]
fn base_index_and_scale() {
    assert_eq!(
        ModRm::regM(x64Reg::Rax, mem(Some(x64Reg::Rax), Some(x64Reg::Rbx), 4, 0x100)),
        Ok(vec![0x84, 0x98, 0x00, 0x01, 0x00, 0x00])
    );
    assert_eq!(
        ModRm::regM(x64Reg::Rcx, mem(Some(x64Reg::Rax), Some(x64Reg::Rbx), 1, 0)),
        Ok(vec![0x0C, 0x18])
    );
    assert_eq!(
        ModRm::regM(x64Reg::Rax, mem(Some(x64Reg::Rdx), Some(x64Reg::Rcx), 8, 0)),
        Ok(vec![0x04, 0xCA])
    );
    assert_eq!(
        ModRm::regM(x64Reg::Rax, mem(Some(x64Reg::Rdx), Some(x64Reg::Rcx), 2, 1)),
        Ok(vec![0x44, 0x4A, 0x01])
    );
}

#[test]
fn memory_without_a_base() {
    assert_eq!(
        ModRm::regM(x64Reg::Rax, mem(None, None, 1, 0x10)),
        Ok(vec![0x04, 0x25, 0x10, 0x00, 0x00, 0x00])
    );
    assert_eq!(
        ModRm::regM(x64Reg::Rax, mem(None, Some(x64Reg::Rbx), 2, 4)),
        Ok(vec![0x04, 0x5D, 0x04, 0x00, 0x00, 0x00])
    );
}

#[test]
fn memory_relative_to_the_instruction_pointer() {
    assert_eq!(
        ModRm::regM(x64Reg::Rax, MemOp::rip_plus(1)),
        Ok(vec![0x05, 0x01, 0x00, 0x00, 0x00])
    );
    assert_eq!(
        ModRm::regM(x64Reg::Rdi, MemOp::rip_plus(-4)),
        Ok(vec![0x3D, 0xFC, 0xFF, 0xFF, 0xFF])
    );
}

#[test]
fn memory_operands_without_an_encoding() {
    let invalid = Err(EncodeError::OperandClassInvalid);
    assert_eq!(ModRm::regM(x64Reg::Rax, mem(Some(x64Reg::Rax), None, 3, 0)), invalid);
    assert_eq!(ModRm::regM(x64Reg::Rax, mem(Some(x64Reg::Rax), None, 0, 0)), invalid);
    assert_eq!(ModRm::regM(x64Reg::Rax, mem(Some(x64Reg::Rax), Some(x64Reg::Rsp), 1, 0)), invalid);
    assert_eq!(ModRm::regM(x64Reg::Rax, mem(Some(x64Reg::Ax), None, 1, 0)), invalid);
    assert_eq!(ModRm::regM(x64Reg::Rax, mem(Some(x64Reg::Rax), Some(x64Reg::Bl), 1, 0)), invalid);
    assert_eq!(ModRm::regM(x64Reg::Rax, mem(Some(x64Reg::Rax), Some(x64Reg::Ebx), 1, 0)), invalid);
    assert_eq!(
        ModRm::memR(
            MemOp { base: Some(x64Reg::Rax), index: None, scale: 1, displ: 0, rip: true },
            x64Reg::Rax
        ),
        invalid
    );
}

#[test]
fn displacement_out_of_range() {
    let out_of_range = Err(EncodeError::DisplacementOutOfRange);
    assert_eq!(ModRm::regM(x64Reg::Rax, mem(Some(x64Reg::Rax), None, 1, 0x8000_0000)), out_of_range);
    assert_eq!(ModRm::regM(x64Reg::Rax, mem(Some(x64Reg::Rax), None, 1, -0x8000_0001)), out_of_range);
    assert_eq!(ModRm::memR(MemOp::rip_plus(i64::MAX), x64Reg::Rax), out_of_range);
    assert_eq!(
        refused(X64MCInstr::with2(
            Mnemonic::Mov,
            reg(x64Reg::Rax),
            Operand::Mem(mem(Some(x64Reg::Rbx), None, 1, i64::MIN))
        )),
        EncodeError::DisplacementOutOfRange
    );
}

#[test]
fn memory_operand_parts() {
    assert_eq!(MemOp::base_minus(x64Reg::Rbp, 16).encode(), Ok((1, vec![0xF0])));
    assert_eq!(mem(Some(x64Reg::Rsp), None, 1, 0).encode(), Ok((0, vec![0x24])));
    assert_eq!(MemOp::rip_plus(1).encode(), Ok((0, vec![1, 0, 0, 0])));
    assert_eq!(mem(Some(x64Reg::Rax), None, 1, 1000).encode(), Ok((2, vec![0xE8, 0x03, 0, 0])));
    assert!(mem(Some(x64Reg::Eax), None, 1, 0).uses_addr32());
    assert!(!mem(Some(x64Reg::Rax), None, 1, 0).uses_addr32());
}

#[test]
fn little_endian_bytes() {
    let le = |v: i64, n: usize| {
        let mut out = vec![0xAA];
        push_le_bytes(&mut out, v, n);
        out[1..].to_vec()
    };
    assert_eq!(le(0x1234_5678, 4), vec![0x78, 0x56, 0x34, 0x12]);
    assert_eq!(le(-4, 4), vec![0xFC, 0xFF, 0xFF, 0xFF]);
    assert_eq!(le(-1, 1), vec![0xFF]);
    assert_eq!(le(255, 1), vec![0xFF]);
    assert_eq!(le(0x1_0000_0001, 4), vec![0x01, 0x00, 0x00, 0x00]);
    assert_eq!(le(i64::MIN, 8), vec![0, 0, 0, 0, 0, 0, 0, 0x80]);
    assert_eq!(le(i64::MAX, 8), vec![0xFF, 0xFF, 0xFF, 0xFF, 0xFF, 0xFF, 0xFF, 0x7F]);
    assert_eq!(le(-2, 8), vec![0xFE, 0xFF, 0xFF, 0xFF, 0xFF, 0xFF, 0xFF, 0xFF]);
    assert_eq!(le(77, 0), Vec::<u8>::new());
}

#[test]
fn moves_between_registers() {
    assert_eq!(two(Mnemonic::Mov, reg(x64Reg::Rax), reg(x64Reg::Rbx)), vec![0x48, 0x89, 0xD8]);
    assert_eq!(two(Mnemonic::Mov, reg(x64Reg::Ecx), reg(x64Reg::Eax)), vec![0x89, 0xC1]);
    assert_eq!(two(Mnemonic::Mov, reg(x64Reg::R10d), reg(x64Reg::R11d)), vec![0x45, 0x89, 0xDA]);
    assert_eq!(two(Mnemonic::Mov, reg(x64Reg::Ax), reg(x64Reg::Bx)), vec![0x66, 0x89, 0xD8]);
    assert_eq!(two(Mnemonic::Mov, reg(x64Reg::Al), reg(x64Reg::Bl)), vec![0x88, 0xD8]);
    assert_eq!(two(Mnemonic::Mov, reg(x64Reg::Sil), reg(x64Reg::Al)), vec![0x40, 0x88, 0xC6]);
    assert_eq!(two(Mnemonic::Mov, reg(x64Reg::Rbp), reg(x64Reg::Rsp)), vec![0x48, 0x89, 0xE5]);
    assert_eq!(two(Mnemonic::Mov, reg(x64Reg::R15), reg(x64Reg::Rax)), vec![0x49, 0x89, 0xC7]);
}

#[test]
fn moves_of_constants() {
    assert_eq!(
        two(Mnemonic::Mov, reg(x64Reg::Eax), Operand::Imm(42)),
        vec![0xC7, 0xC0, 0x2A, 0x00, 0x00, 0x00]
    );
    assert_eq!(
        two(Mnemonic::Mov, reg(x64Reg::Rax), Operand::Imm(42)),
        vec![0x48, 0xC7, 0xC0, 0x2A, 0x00, 0x00, 0x00]
    );
    assert_eq!(
        two(Mnemonic::Mov, reg(x64Reg::Rax), Operand::Imm(-1)),
        vec![0x48, 0xC7, 0xC0, 0xFF, 0xFF, 0xFF, 0xFF]
    );
    assert_eq!(two(Mnemonic::Mov, reg(x64Reg::Al), Operand::Imm(5)), vec![0xC6, 0xC0, 0x05]);
    assert_eq!(two(Mnemonic::Mov, reg(x64Reg::Ax), Operand::Imm(5)), vec![0x66, 0xC7, 0xC0, 0x05, 0x00]);
    assert_eq!(
        two(Mnemonic::Mov, reg(x64Reg::R12d), Operand::Imm(0)),
        vec![0x41, 0xC7, 0xC4, 0x00, 0x00, 0x00, 0x00]
    );
    assert_eq!(
        two(Mnemonic::Mov, reg(x64Reg::Eax), Operand::Imm(0xffff_ffff)),
        vec![0xC7, 0xC0, 0xFF, 0xFF, 0xFF, 0xFF]
    );
}

#[test]
fn move_of_a_wide_constant() {
    assert_eq!(
        two(Mnemonic::Mov, reg(x64Reg::Rax), Operand::Imm(0x1_0000_0000)),
        vec![0x48, 0xB8, 0x00, 0x00, 0x00, 0x00, 0x01, 0x00, 0x00, 0x00]
    );
    assert_eq!(
        two(Mnemonic::Mov, reg(x64Reg::R10), Operand::Imm(i64::MIN)),
        vec![0x49, 0xBA, 0x00, 0x00, 0x00, 0x00, 0x00, 0x00, 0x00, 0x80]
    );
}

#[test]
fn moves_from_and_to_memory() {
    assert_eq!(two(Mnemonic::Mov, reg(x64Reg::Eax), slot(16)), vec![0x8B, 0x45, 0xF0]);
    assert_eq!(two(Mnemonic::Mov, slot(16), reg(x64Reg::Eax)), vec![0x89, 0x45, 0xF0]);
    assert_eq!(two(Mnemonic::Mov, slot(8), reg(x64Reg::R10)), vec![0x4C, 0x89, 0x55, 0xF8]);
    assert_eq!(two(Mnemonic::Mov, reg(x64Reg::Al), slot(1)), vec![0x8A, 0x45, 0xFF]);
    assert_eq!(
        two(Mnemonic::Mov, slot(16), Operand::Imm(7)),
        vec![0x48, 0xC7, 0x45, 0xF0, 0x07, 0x00, 0x00, 0x00]
    );
    assert_eq!(
        two(
            Mnemonic::Mov,
            Operand::Mem(mem(Some(x64Reg::R10), None, 1, 0)),
            reg(x64Reg::R11d)
        ),
        vec![0x45, 0x89, 0x1A]
    );
}

#[test]
fn arithmetic_between_registers() {
    assert_eq!(two(Mnemonic::Add, reg(x64Reg::Ecx), reg(x64Reg::Ebx)), vec![0x01, 0xD9]);
    assert_eq!(two(Mnemonic::Sub, reg(x64Reg::Rax), reg(x64Reg::Rcx)), vec![0x48, 0x29, 0xC8]);
    assert_eq!(two(Mnemonic::And, reg(x64Reg::Eax), reg(x64Reg::Eax)), vec![0x21, 0xC0]);
    assert_eq!(two(Mnemonic::Or, reg(x64Reg::Eax), reg(x64Reg::Edx)), vec![0x09, 0xD0]);
    assert_eq!(two(Mnemonic::Xor, reg(x64Reg::Eax), reg(x64Reg::Eax)), vec![0x31, 0xC0]);
    assert_eq!(two(Mnemonic::Xor, reg(x64Reg::Rdx), reg(x64Reg::Rdx)), vec![0x48, 0x31, 0xD2]);
    assert_eq!(two(Mnemonic::Cmp, reg(x64Reg::R10d), reg(x64Reg::R11d)), vec![0x45, 0x39, 0xDA]);
    assert_eq!(two(Mnemonic::Add, reg(x64Reg::Al), reg(x64Reg::Cl)), vec![0x00, 0xC8]);
}

#[test]
fn arithmetic_with_constants() {
    assert_eq!(
        two(Mnemonic::Sub, reg(x64Reg::Rsp), Operand::Imm(8)),
        vec![0x48, 0x81, 0xEC, 0x08, 0x00, 0x00, 0x00]
    );
    assert_eq!(
        two(Mnemonic::Add, reg(x64Reg::Rsp), Operand::Imm(24)),
        vec![0x48, 0x81, 0xC4, 0x18, 0x00, 0x00, 0x00]
    );
    assert_eq!(
        two(Mnemonic::Cmp, reg(x64Reg::R10d), Operand::Imm(1)),
        vec![0x41, 0x81, 0xFA, 0x01, 0x00, 0x00, 0x00]
    );
    assert_eq!(two(Mnemonic::And, reg(x64Reg::Al), Operand::Imm(1)), vec![0x80, 0xE0, 0x01]);
    assert_eq!(
        two(Mnemonic::Or, reg(x64Reg::Ecx), Operand::Imm(-1)),
        vec![0x81, 0xC9, 0xFF, 0xFF, 0xFF, 0xFF]
    );
    assert_eq!(
        two(Mnemonic::Xor, reg(x64Reg::Ebx), Operand::Imm(2)),
        vec![0x81, 0xF3, 0x02, 0x00, 0x00, 0x00]
    );
    assert_eq!(
        two(Mnemonic::Sub, reg(x64Reg::Rsp), Operand::Imm(-8)),
        vec![0x48, 0x81, 0xEC, 0xF8, 0xFF, 0xFF, 0xFF]
    );
}

#[test]
fn arithmetic_with_memory() {
    assert_eq!(two(Mnemonic::Or, reg(x64Reg::Rax), slot(8)), vec![0x48, 0x0B, 0x45, 0xF8]);
    assert_eq!(two(Mnemonic::Add, slot(8), reg(x64Reg::Eax)), vec![0x01, 0x45, 0xF8]);
    assert_eq!(two(Mnemonic::Cmp, reg(x64Reg::Rax), slot(16)), vec![0x48, 0x3B, 0x45, 0xF0]);
    assert_eq!(
        two(Mnemonic::Cmp, slot(4), Operand::Imm(0)),
        vec![0x48, 0x81, 0x7D, 0xFC, 0x00, 0x00, 0x00, 0x00]
    );
}

#[test]
fn load_effective_address() {
    assert_eq!(
        two(
            Mnemonic::Lea,
            reg(x64Reg::Ecx),
            Operand::Mem(MemOp::base_plus(x64Reg::Eax, x64Reg::Ebx))
        ),
        vec![0x67, 0x8D, 0x0C, 0x18]
    );
    assert_eq!(
        two(Mnemonic::Lea, reg(x64Reg::Rax), Operand::Mem(MemOp::rip_plus(1))),
        vec![0x48, 0x8D, 0x05, 0x01, 0x00, 0x00, 0x00]
    );
    assert_eq!(two(Mnemonic::Lea, reg(x64Reg::R10), slot(24)), vec![0x4C, 0x8D, 0x55, 0xE8]);
    assert_eq!(
        two(
            Mnemonic::Lea,
            reg(x64Reg::Rax),
            Operand::Mem(mem(Some(x64Reg::R8), Some(x64Reg::R9), 1, 0))
        ),
        vec![0x4B, 0x8D, 0x04, 0x08]
    );
}

#[test]
fn stack_instructions() {
    assert_eq!(one(Mnemonic::Push, reg(x64Reg::Rbp)), vec![0x55]);
    assert_eq!(one(Mnemonic::Pop, reg(x64Reg::Rbp)), vec![0x5D]);
    assert_eq!(one(Mnemonic::Push, reg(x64Reg::Rdx)), vec![0x52]);
    assert_eq!(one(Mnemonic::Push, reg(x64Reg::R10)), vec![0x41, 0x52]);
    assert_eq!(one(Mnemonic::Pop, reg(x64Reg::R12)), vec![0x41, 0x5C]);
    assert_eq!(one(Mnemonic::Push, Operand::Imm(1)), vec![0x68, 0x01, 0x00, 0x00, 0x00]);
}

#[test]
fn instructions_without_operands() {
    assert_eq!(bytes(X64MCInstr::with0(Mnemonic::Ret)), vec![0xC3]);
    assert_eq!(bytes(X64MCInstr::with0(Mnemonic::Cqo)), vec![0x48, 0x99]);
    assert_eq!(bytes(X64MCInstr::with0(Mnemonic::StartOptimization)), Vec::<u8>::new());
}

#[test]
fn calls_and_jumps() {
    assert_eq!(one(Mnemonic::Call, Operand::Imm(0)), vec![0xE8, 0, 0, 0, 0]);
    assert_eq!(one(Mnemonic::Jmp, Operand::Imm(0)), vec![0xE9, 0, 0, 0, 0]);
    assert_eq!(one(Mnemonic::Je, Operand::Imm(0)), vec![0x0F, 0x84, 0, 0, 0, 0]);
    assert_eq!(one(Mnemonic::Jne, Operand::Imm(0)), vec![0x0F, 0x85, 0, 0, 0, 0]);
    assert_eq!(one(Mnemonic::Jmp, Operand::Imm(-5)), vec![0xE9, 0xFB, 0xFF, 0xFF, 0xFF]);
    assert_eq!(one(Mnemonic::Call, Operand::Imm(0x100)), vec![0xE8, 0x00, 0x01, 0x00, 0x00]);
}

#[test]
fn one_operand_arithmetic() {
    assert_eq!(one(Mnemonic::Imul, reg(x64Reg::R11d)), vec![0x41, 0xF7, 0xEB]);
    assert_eq!(one(Mnemonic::Mul, reg(x64Reg::Rbx)), vec![0x48, 0xF7, 0xE3]);
    assert_eq!(one(Mnemonic::Idiv, reg(x64Reg::R11)), vec![0x49, 0xF7, 0xFB]);
    assert_eq!(one(Mnemonic::Div, reg(x64Reg::Rbx)), vec![0x48, 0xF7, 0xF3]);
    assert_eq!(one(Mnemonic::Neg, reg(x64Reg::Ecx)), vec![0xF7, 0xD9]);
    assert_eq!(one(Mnemonic::Neg, reg(x64Reg::Cl)), vec![0xF6, 0xD9]);
    assert_eq!(one(Mnemonic::Neg, slot(4)), vec![0x48, 0xF7, 0x5D, 0xFC]);
}

#[test]
fn zero_extending_moves() {
    assert_eq!(
        two(Mnemonic::Movzx, reg(x64Reg::Eax), reg(x64Reg::R10b)),
        vec![0x41, 0x0F, 0xB6, 0xC2]
    );
    assert_eq!(
        two(Mnemonic::Movzx, reg(x64Reg::Rax), reg(x64Reg::R10w)),
        vec![0x49, 0x0F, 0xB7, 0xC2]
    );
    assert_eq!(two(Mnemonic::Movzx, reg(x64Reg::Eax), reg(x64Reg::Al)), vec![0x0F, 0xB6, 0xC0]);
    assert_eq!(
        two(Mnemonic::Movzx, reg(x64Reg::Eax), reg(x64Reg::Dil)),
        vec![0x40, 0x0F, 0xB6, 0xC7]
    );
    assert_eq!(
        two(Mnemonic::Movzx, reg(x64Reg::Ax), reg(x64Reg::Bl)),
        vec![0x66, 0x0F, 0xB6, 0xC3]
    );
}

#[test]
fn set_from_flags() {
    assert_eq!(one(Mnemonic::Sete, reg(x64Reg::R12b)), vec![0x41, 0x0F, 0x94, 0xC4]);
    assert_eq!(one(Mnemonic::Setne, reg(x64Reg::Al)), vec![0x0F, 0x95, 0xC0]);
    assert_eq!(one(Mnemonic::Setg, reg(x64Reg::Cl)), vec![0x0F, 0x9F, 0xC1]);
    assert_eq!(one(Mnemonic::Setl, slot(17)), vec![0x0F, 0x9C, 0x45, 0xEF]);
    assert_eq!(one(Mnemonic::Setge, reg(x64Reg::Dl)), vec![0x0F, 0x9D, 0xC2]);
    assert_eq!(one(Mnemonic::Setle, reg(x64Reg::Bl)), vec![0x0F, 0x9E, 0xC3]);
    assert_eq!(one(Mnemonic::Sete, reg(x64Reg::Sil)), vec![0x40, 0x0F, 0x94, 0xC6]);
}

#[test]
fn link_record_carries_a_relocation_and_no_bytes() {
    let record = X64MCInstr::with1(Mnemonic::Link, Operand::LinkDestination("foo".to_string(), -4));
    assert_eq!(
        record.encode(),
        Ok((
            vec![],
            Some(Link {
                from: String::new(),
                to: "foo".to_string(),
                at: 0,
                addend: -4,
                kind: LinkKind::PcRelative32,
                to_block: false,
            })
        ))
    );
    let record =
        X64MCInstr::with1(Mnemonic::Link, Operand::BlockLinkDestination("exit".to_string(), -4));
    let (bytes, link) = record.encode().unwrap();
    assert!(bytes.is_empty());
    let link = link.unwrap();
    assert_eq!(link.to, "exit");
    assert!(link.to_block);
    assert_eq!(link.kind, LinkKind::PcRelative32);
}

#[test]
fn forms_without_an_encoding() {
    let invalid = EncodeError::OperandClassInvalid;
    assert_eq!(refused(X64MCInstr::with2(Mnemonic::Mov, reg(x64Reg::Eax), reg(x64Reg::Rbx))), invalid);
    assert_eq!(refused(X64MCInstr::with2(Mnemonic::Mov, slot(8), slot(16))), invalid);
    assert_eq!(refused(X64MCInstr::with2(Mnemonic::Mov, Operand::Imm(1), reg(x64Reg::Rax))), invalid);
    assert_eq!(
        refused(X64MCInstr::with2(Mnemonic::Add, reg(x64Reg::Rax), Operand::Imm(0x1_0000_0000))),
        invalid
    );
    assert_eq!(
        refused(X64MCInstr::with2(Mnemonic::Add, reg(x64Reg::Al), Operand::Imm(256))),
        invalid
    );
    assert_eq!(
        refused(X64MCInstr::with2(Mnemonic::Mov, slot(8), Operand::Imm(0x1_0000_0000))),
        invalid
    );
    assert_eq!(refused(X64MCInstr::with2(Mnemonic::Lea, reg(x64Reg::Al), slot(8))), invalid);
    assert_eq!(
        refused(X64MCInstr::with2(Mnemonic::Lea, reg(x64Reg::Rax), reg(x64Reg::Rbx))),
        invalid
    );
    assert_eq!(
        refused(X64MCInstr::with2(Mnemonic::Movzx, reg(x64Reg::Eax), reg(x64Reg::Ebx))),
        invalid
    );
    assert_eq!(
        refused(X64MCInstr::with2(Mnemonic::Movzx, reg(x64Reg::Al), reg(x64Reg::Bl))),
        invalid
    );
    assert_eq!(refused(X64MCInstr::with1(Mnemonic::Push, reg(x64Reg::Eax))), invalid);
    assert_eq!(refused(X64MCInstr::with1(Mnemonic::Pop, Operand::Imm(5))), invalid);
    assert_eq!(refused(X64MCInstr::with1(Mnemonic::Sete, reg(x64Reg::Eax))), invalid);
    assert_eq!(refused(X64MCInstr::with1(Mnemonic::Ret, reg(x64Reg::Rax))), invalid);
    assert_eq!(refused(X64MCInstr::with1(Mnemonic::Call, reg(x64Reg::Rax))), invalid);
    assert_eq!(refused(X64MCInstr::with1(Mnemonic::Jmp, Operand::Imm(0x8000_0000))), invalid);
    assert_eq!(refused(X64MCInstr::with1(Mnemonic::Link, Operand::Imm(0))), invalid);
    assert_eq!(refused(X64MCInstr::with0(Mnemonic::Mov)), invalid);
    assert_eq!(refused(X64MCInstr::with0(Mnemonic::Link)), invalid);
    assert_eq!(refused(X64MCInstr::with2(Mnemonic::Ret, reg(x64Reg::Rax), reg(x64Reg::Rax))), invalid);
    assert_eq!(
        refused(X64MCInstr { mnemonic: Mnemonic::Mov, op1: None, op2: Some(reg(x64Reg::Rax)) }),
        invalid
    );
    assert_eq!(
        refused(X64MCInstr::with2(
            Mnemonic::Mov,
            reg(x64Reg::Rax),
            Operand::Mem(mem(Some(x64Reg::Rax), None, 5, 0))
        )),
        invalid
    );
}

#[test]
fn printed_instructions() {
    let text = |i: X64MCInstr| i.to_string();
    assert_eq!(text(X64MCInstr::with2(Mnemonic::Mov, reg(x64Reg::Rax), Operand::Imm(42))), "mov rax, 42");
    assert_eq!(text(X64MCInstr::with2(Mnemonic::Mov, slot(16), reg(x64Reg::Eax))), "mov [rbp-16], eax");
    assert_eq!(text(X64MCInstr::with1(Mnemonic::Call, Operand::Imm(0))), "call 0");
    assert_eq!(text(X64MCInstr::with0(Mnemonic::Ret)), "ret");
    assert_eq!(text(X64MCInstr::with0(Mnemonic::StartOptimization)), "");
    assert_eq!(
        text(X64MCInstr::with2(Mnemonic::Lea, reg(x64Reg::Rax), Operand::Mem(MemOp::rip_plus(1)))),
        "lea rax, [rip+1]"
    );
    assert_eq!(
        text(X64MCInstr::with2(
            Mnemonic::Mov,
            reg(x64Reg::Rax),
            Operand::Mem(mem(Some(x64Reg::Rbx), Some(x64Reg::Rcx), 4, 8))
        )),
        "mov rax, [rbx+rcx*4+8]"
    );
    assert_eq!(
        text(X64MCInstr::with2(
            Mnemonic::Mov,
            reg(x64Reg::Rax),
            Operand::Mem(mem(None, Some(x64Reg::Rcx), 2, -8))
        )),
        "mov rax, [rcx*2-8]"
    );
    assert_eq!(
        text(X64MCInstr::with2(Mnemonic::Mov, reg(x64Reg::Rax), Operand::Mem(mem(None, None, 1, 64)))),
        "mov rax, [64]"
    );
    assert_eq!(
        text(X64MCInstr::with2(
            Mnemonic::Mov,
            reg(x64Reg::Rax),
            Operand::Mem(mem(Some(x64Reg::Rbx), None, 1, 0))
        )),
        "mov rax, [rbx]"
    );
    assert_eq!(
        text(X64MCInstr::with1(Mnemonic::Link, Operand::BlockLinkDestination("b".to_string(), 12))),
        "link b,12"
    );
    assert_eq!(text(X64MCInstr::with1(Mnemonic::Sete, reg(x64Reg::Al))), "sete al");
    assert_eq!(text(X64MCInstr::with2(Mnemonic::Cmp, reg(x64Reg::Eax), Operand::Imm(-1))), "cmp eax, -1");
}
