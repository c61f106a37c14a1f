use ygen::target::x64::instr::{Instr, MemOp, Mnemonic, Operand, X64MCInstr};
use ygen::target::x64::optimizer::Optimize;
use ygen::target::x64::reg::x64Reg;

fn reg(r: x64Reg) -> Operand {
    Operand::Reg(r)
}

fn mov(dst: Operand, src: Operand) -> Instr {
    X64MCInstr::with2(Mnemonic::Mov, dst, src)
}

fn link(name: &str) -> Instr {
    X64MCInstr::with1(Mnemonic::Link, Operand::LinkDestination(name.to_string(), -4))
}

fn optimized(mut input: Vec<Instr>) -> Vec<Instr> {
    let before = input.clone();
    let out = input.optimize();
    assert_eq!(input, before);
    assert!(out.len() <= before.len());
    out
}

#[test]
fn mov_add_of_registers_becomes_lea() {
    let out = optimized(vec![
        mov(reg(x64Reg::Ecx), reg(x64Reg::Eax)),
        X64MCInstr::with2(Mnemonic::Add, reg(x64Reg::Ecx), reg(x64Reg::Ebx)),
    ]);
    assert_eq!(
        out,
        vec![X64MCInstr::with2(
            Mnemonic::Lea,
            reg(x64Reg::Ecx),
            Operand::Mem(MemOp::base_plus(x64Reg::Eax, x64Reg::Ebx)),
        )]
    );
    assert_eq!(out[0].to_string(), "lea ecx, [eax+ebx]");
}

#[test]
fn mov_add_with_a_constant_stays() {
    let input = vec![
        mov(reg(x64Reg::Ecx), reg(x64Reg::Eax)),
        X64MCInstr::with2(Mnemonic::Add, reg(x64Reg::Ecx), Operand::Imm(5)),
    ];
    assert_eq!(optimized(input.clone()), input);
}

#[test]
fn mov_add_into_another_register_stays() {
    let input = vec![
        mov(reg(x64Reg::Ecx), reg(x64Reg::Eax)),
        X64MCInstr::with2(Mnemonic::Add, reg(x64Reg::Edx), reg(x64Reg::Ebx)),
    ];
    assert_eq!(optimized(input.clone()), input);
}

#[test]
fn move_onto_itself_is_removed() {
    let out = optimized(vec![
        X64MCInstr::with0(Mnemonic::StartOptimization),
        mov(reg(x64Reg::Eax), reg(x64Reg::Eax)),
        X64MCInstr::with0(Mnemonic::Ret),
    ]);
    assert_eq!(
        out,
        vec![X64MCInstr::with0(Mnemonic::StartOptimization), X64MCInstr::with0(Mnemonic::Ret)]
    );
}

#[test]
fn move_onto_itself_is_removed_at_the_start() {
    let slot = Operand::Mem(MemOp::base_minus(x64Reg::Rbp, 8));
    assert_eq!(optimized(vec![mov(slot.clone(), slot)]), vec![]);
}

#[test]
fn earlier_of_two_moves_into_one_register_is_dropped() {
    let out = optimized(vec![
        mov(reg(x64Reg::Rax), Operand::Imm(1)),
        mov(reg(x64Reg::Rax), Operand::Imm(2)),
    ]);
    assert_eq!(out, vec![mov(reg(x64Reg::Rax), Operand::Imm(2))]);
}

#[test]
fn earlier_move_stays_where_the_later_reads_the_register() {
    let input = vec![
        mov(reg(x64Reg::Rax), reg(x64Reg::Rbx)),
        mov(
            reg(x64Reg::Rax),
            Operand::Mem(MemOp { base: Some(x64Reg::Rax), index: None, scale: 1, displ: 8, rip: false }),
        ),
    ];
    assert_eq!(optimized(input.clone()), input);
}

#[test]
fn earlier_move_stays_where_the_later_reads_an_alias() {
    let input = vec![
        mov(reg(x64Reg::Rax), Operand::Imm(7)),
        mov(
            reg(x64Reg::Rax),
            Operand::Mem(MemOp { base: Some(x64Reg::Rbx), index: Some(x64Reg::Eax), scale: 4, displ: 0, rip: false }),
        ),
    ];
    assert_eq!(optimized(input.clone()), input);
}

#[test]
fn moves_into_memory_both_stay() {
    let slot = Operand::Mem(MemOp::base_minus(x64Reg::Rbp, 8));
    let input = vec![mov(slot.clone(), reg(x64Reg::Eax)), mov(slot, reg(x64Reg::Ebx))];
    assert_eq!(optimized(input.clone()), input);
}

#[test]
fn move_back_is_dropped() {
    let out = optimized(vec![
        mov(reg(x64Reg::Rax), reg(x64Reg::Rbx)),
        mov(reg(x64Reg::Rbx), reg(x64Reg::Rax)),
    ]);
    assert_eq!(out, vec![mov(reg(x64Reg::Rax), reg(x64Reg::Rbx))]);
}

#[test]
fn move_back_from_memory_is_dropped() {
    let slot = Operand::Mem(MemOp::base_minus(x64Reg::Rbp, 16));
    let out = optimized(vec![
        mov(slot.clone(), reg(x64Reg::Eax)),
        mov(reg(x64Reg::Eax), slot.clone()),
    ]);
    assert_eq!(out, vec![mov(slot, reg(x64Reg::Eax))]);
}

#[test]
fn move_onward_is_kept() {
    let input = vec![
        mov(reg(x64Reg::Rax), reg(x64Reg::Rbx)),
        mov(reg(x64Reg::Rcx), reg(x64Reg::Rax)),
    ];
    assert_eq!(optimized(input.clone()), input);
}

#[test]
fn call_and_return_become_a_jump() {
    let out = optimized(vec![
        X64MCInstr::with1(Mnemonic::Call, Operand::Imm(0)),
        X64MCInstr::with0(Mnemonic::Ret),
    ]);
    assert_eq!(out, vec![X64MCInstr::with1(Mnemonic::Jmp, Operand::Imm(0))]);
}

#[test]
fn call_with_its_relocation_and_return_become_a_jump() {
    let out = optimized(vec![
        X64MCInstr::with1(Mnemonic::Call, Operand::Imm(0)),
        link("foo"),
        X64MCInstr::with0(Mnemonic::Ret),
    ]);
    assert_eq!(out, vec![X64MCInstr::with1(Mnemonic::Jmp, Operand::Imm(0)), link("foo")]);
    assert_eq!(out[0].to_string(), "jmp 0");
    assert_eq!(out[1].to_string(), "link foo,-4");
}

#[test]
fn return_after_something_else_stays() {
    let input = vec![
        X64MCInstr::with1(Mnemonic::Call, Operand::Imm(0)),
        link("foo"),
        X64MCInstr::with1(Mnemonic::Pop, reg(x64Reg::Rbp)),
        X64MCInstr::with0(Mnemonic::Ret),
    ];
    assert_eq!(optimized(input.clone()), input);
}

#[test]
fn return_after_a_lone_relocation_stays() {
    let input = vec![link("foo"), X64MCInstr::with0(Mnemonic::Ret)];
    assert_eq!(optimized(input.clone()), input);
}

#[test]
fn push_and_pop_of_one_register_cancel() {
    let out = optimized(vec![
        X64MCInstr::with0(Mnemonic::StartOptimization),
        X64MCInstr::with1(Mnemonic::Push, reg(x64Reg::Rdx)),
        X64MCInstr::with1(Mnemonic::Pop, reg(x64Reg::Rdx)),
    ]);
    assert_eq!(out, vec![X64MCInstr::with0(Mnemonic::StartOptimization)]);
}

#[test]
fn push_and_pop_of_two_registers_stay() {
    let input = vec![
        X64MCInstr::with1(Mnemonic::Push, reg(x64Reg::Rdx)),
        X64MCInstr::with1(Mnemonic::Pop, reg(x64Reg::Rcx)),
    ];
    assert_eq!(optimized(input.clone()), input);
}

#[test]
fn pop_and_push_stay() {
    let input = vec![
        X64MCInstr::with1(Mnemonic::Pop, reg(x64Reg::Rdx)),
        X64MCInstr::with1(Mnemonic::Push, reg(x64Reg::Rdx)),
    ];
    assert_eq!(optimized(input.clone()), input);
}

#[test]
fn add_and_sub_of_the_same_cancel() {
    let out = optimized(vec![
        X64MCInstr::with2(Mnemonic::Sub, reg(x64Reg::Rsp), Operand::Imm(8)),
        X64MCInstr::with2(Mnemonic::Add, reg(x64Reg::Rsp), Operand::Imm(8)),
    ]);
    assert_eq!(out, vec![]);
    let out = optimized(vec![
        X64MCInstr::with2(Mnemonic::Add, reg(x64Reg::Rsp), Operand::Imm(8)),
        X64MCInstr::with2(Mnemonic::Sub, reg(x64Reg::Rsp), Operand::Imm(8)),
    ]);
    assert_eq!(out, vec![]);
}

#[test]
fn add_and_sub_of_different_amounts_stay() {
    let input = vec![
        X64MCInstr::with2(Mnemonic::Sub, reg(x64Reg::Rsp), Operand::Imm(8)),
        X64MCInstr::with2(Mnemonic::Add, reg(x64Reg::Rsp), Operand::Imm(16)),
    ];
    assert_eq!(optimized(input.clone()), input);
}

#[test]
fn nothing_is_rewritten_across_a_relocation() {
    let input = vec![
        X64MCInstr::with1(Mnemonic::Push, reg(x64Reg::Rdx)),
        link("foo"),
        X64MCInstr::with1(Mnemonic::Pop, reg(x64Reg::Rdx)),
    ];
    assert_eq!(optimized(input.clone()), input);
    let input = vec![
        mov(reg(x64Reg::Rax), Operand::Imm(1)),
        link("foo"),
        mov(reg(x64Reg::Rax), Operand::Imm(2)),
    ];
    assert_eq!(optimized(input.clone()), input);
}

#[test]
fn nothing_is_rewritten_across_the_start_marker() {
    let input = vec![
        mov(reg(x64Reg::Rax), Operand::Imm(1)),
        X64MCInstr::with0(Mnemonic::StartOptimization),
        mov(reg(x64Reg::Rax), Operand::Imm(2)),
    ];
    assert_eq!(optimized(input.clone()), input);
}

#[test]
fn next_instruction_is_held_against_the_new_tail() {
    let out = optimized(vec![
        mov(reg(x64Reg::Ecx), reg(x64Reg::Eax)),
        X64MCInstr::with1(Mnemonic::Push, reg(x64Reg::Rdx)),
        X64MCInstr::with1(Mnemonic::Pop, reg(x64Reg::Rdx)),
        X64MCInstr::with2(Mnemonic::Add, reg(x64Reg::Ecx), reg(x64Reg::Ebx)),
    ]);
    assert_eq!(
        out,
        vec![X64MCInstr::with2(
            Mnemonic::Lea,
            reg(x64Reg::Ecx),
            Operand::Mem(MemOp::base_plus(x64Reg::Eax, x64Reg::Ebx)),
        )]
    );
}

#[test]
fn empty_stream_stays_empty() {
    assert_eq!(optimized(vec![]), vec![]);
}

#[test]
fn relocations_and_markers_are_kept_in_order() {
    let input = vec![
        X64MCInstr::with0(Mnemonic::StartOptimization),
        X64MCInstr::with1(Mnemonic::Call, Operand::Imm(0)),
        link("a"),
        X64MCInstr::with0(Mnemonic::Ret),
        mov(reg(x64Reg::Rax), reg(x64Reg::Rax)),
        X64MCInstr::with1(Mnemonic::Jmp, Operand::Imm(0)),
        X64MCInstr::with1(Mnemonic::Link, Operand::BlockLinkDestination("b".to_string(), -4)),
    ];
    let records = |s: &Vec<Instr>| -> Vec<Instr> {
        s.iter()
            .filter(|i| i.mnemonic == Mnemonic::Link || i.mnemonic == Mnemonic::StartOptimization)
            .cloned()
            .collect()
    };
    let out = optimized(input.clone());
    assert_eq!(records(&out), records(&input));
    assert_eq!(out.len(), 5);
}

#[test]
fn inverse_pairs() {
    let push = X64MCInstr::with1(Mnemonic::Push, reg(x64Reg::Rax));
    let pop = X64MCInstr::with1(Mnemonic::Pop, reg(x64Reg::Rax));
    assert!(pop.invert_of(&push));
    assert!(!push.invert_of(&pop));
    assert!(!pop.invert_of(&pop));
    let other = X64MCInstr::with1(Mnemonic::Pop, reg(x64Reg::Rbx));
    assert!(!other.invert_of(&push));
}
