use ygen::codegen::machine::{MachineOperand, Reg};
use ygen::codegen::reg_alloc::{AllocError, RegAlloc, MAX_FRAME_LIMIT};
use ygen::ir::nodes::IrNode;
use ygen::ir::types::{Type, TypeMetadata, Var};
use ygen::target::triple::Arch;
use ygen::target::x64::reg::x64Reg;

fn var(name: &str, ty: TypeMetadata) -> Var {
    Var::new(name.to_string(), ty)
}

fn reg(r: x64Reg) -> MachineOperand {
    MachineOperand::Reg(Reg::x64(r))
}

fn ranges_overlap(a: (i64, i64), b: (i64, i64)) -> bool {
    a.0 < b.1 && b.0 < a.1
}

fn aliases(alloc: &RegAlloc, i: usize, j: usize) -> bool {
    let (a, b) = (&alloc.vars[i], &alloc.vars[j]);
    match (a.loc, b.loc) {
        (MachineOperand::Reg(Reg::x64(x)), MachineOperand::Reg(Reg::x64(y))) => x.same_family(&y),
        (MachineOperand::Stack(x), MachineOperand::Stack(y)) => {
            let size = |ty: TypeMetadata| (ty.byteSize() as i64).max(1);
            ranges_overlap((x - size(a.ty), x), (y - size(b.ty), y))
        }
        _ => false,
    }
}

#[test]
fn registers_first_then_the_stack() {
    let mut alloc = RegAlloc::new(Arch::X86_64);
    assert_eq!(alloc.limit, MAX_FRAME_LIMIT);
    let places: Vec<MachineOperand> =
        (0..6).map(|_| alloc.alloc_rv(TypeMetadata::i32).unwrap()).collect();
    assert_eq!(
        places,
        vec![
            reg(x64Reg::R10d),
            reg(x64Reg::R11d),
            reg(x64Reg::R12d),
            reg(x64Reg::R13d),
            reg(x64Reg::R14d),
            reg(x64Reg::R15d),
        ]
    );
    assert!(alloc.free_regs.is_empty());
    assert_eq!(alloc.alloc_rv(TypeMetadata::i32), Ok(MachineOperand::Stack(4)));
    assert_eq!(alloc.alloc_rv(TypeMetadata::i64), Ok(MachineOperand::Stack(16)));
    assert_eq!(alloc.alloc_rv(TypeMetadata::u8), Ok(MachineOperand::Stack(17)));
    assert_eq!(alloc.alloc_rv(TypeMetadata::i16), Ok(MachineOperand::Stack(20)));
    assert_eq!(alloc.alloc_rv(TypeMetadata::Void), Ok(MachineOperand::Stack(32)));
    assert_eq!(alloc.stack_off, 32);
    assert_eq!(alloc.frame_size(), 32);
}

#[test]
fn register_aliases_follow_the_type() {
    let mut alloc = RegAlloc::new(Arch::X86_64);
    assert_eq!(alloc.alloc_rv(TypeMetadata::u8), Ok(reg(x64Reg::R10b)));
    assert_eq!(alloc.alloc_rv(TypeMetadata::i16), Ok(reg(x64Reg::R11w)));
    assert_eq!(alloc.alloc_rv(TypeMetadata::ptr), Ok(reg(x64Reg::R12)));
    assert_eq!(alloc.alloc_rv(TypeMetadata::Void), Ok(reg(x64Reg::R13)));
}

#[test]
fn floating_point_values_live_on_the_stack() {
    let mut alloc = RegAlloc::new(Arch::X86_64);
    assert_eq!(alloc.alloc_rv(TypeMetadata::fp32), Ok(MachineOperand::Stack(4)));
    assert_eq!(alloc.alloc_rv(TypeMetadata::fp64), Ok(MachineOperand::Stack(16)));
    assert_eq!(alloc.free_regs.len(), 6);
    assert_eq!(alloc.alloc_rv(TypeMetadata::i32), Ok(reg(x64Reg::R10d)));
}

#[test]
fn frame_size_is_rounded_up_to_eight() {
    let mut alloc = RegAlloc::new(Arch::X86_64);
    assert_eq!(alloc.frame_size(), 0);
    alloc.alloc_stack(TypeMetadata::u8).unwrap();
    assert_eq!(alloc.stack_off, 1);
    assert_eq!(alloc.frame_size(), 8);
    alloc.alloc_stack(TypeMetadata::u64).unwrap();
    assert_eq!(alloc.stack_off, 16);
    assert_eq!(alloc.frame_size(), 16);
    alloc.alloc_stack(TypeMetadata::u8).unwrap();
    assert_eq!(alloc.frame_size(), 24);
}

#[test]
fn out_of_stack() {
    let mut alloc = RegAlloc::with_limit(Arch::X86_64, 8);
    assert_eq!(alloc.alloc_rv(TypeMetadata::fp64), Ok(MachineOperand::Stack(8)));
    let before = alloc.stack_off;
    assert_eq!(alloc.alloc_rv(TypeMetadata::fp64), Err(AllocError::OutOfStack(8)));
    assert_eq!(alloc.alloc_stack(TypeMetadata::u8), Err(AllocError::OutOfStack(8)));
    assert_eq!(alloc.stack_off, before);
    assert_eq!(alloc.prep_var(&var("%x", TypeMetadata::fp32)), Err(AllocError::OutOfStack(8)));
    assert!(alloc.vars.is_empty());
    assert_eq!(RegAlloc::with_limit(Arch::X86_64, 0).alloc_stack(TypeMetadata::u8), Err(AllocError::OutOfStack(0)));
}

#[test]
fn out_of_stack_by_alignment() {
    let mut alloc = RegAlloc::with_limit(Arch::X86_64, 12);
    assert_eq!(alloc.alloc_stack(TypeMetadata::u8), Ok(MachineOperand::Stack(1)));
    assert_eq!(alloc.alloc_stack(TypeMetadata::u64), Err(AllocError::OutOfStack(12)));
    assert_eq!(alloc.alloc_stack(TypeMetadata::u32), Ok(MachineOperand::Stack(8)));
    assert_eq!(alloc.alloc_stack(TypeMetadata::u32), Ok(MachineOperand::Stack(12)));
    assert_eq!(alloc.alloc_stack(TypeMetadata::u8), Err(AllocError::OutOfStack(12)));
}

#[test]
fn webassembly_numbers_its_locals() {
    let mut alloc = RegAlloc::new(Arch::Wasm64);
    assert!(alloc.free_regs.is_empty());
    assert_eq!(alloc.limit, 50000);
    assert_eq!(alloc.alloc_rv(TypeMetadata::i32), Ok(MachineOperand::Stack(0)));
    assert_eq!(alloc.alloc_rv(TypeMetadata::i64), Ok(MachineOperand::Stack(1)));
    assert_eq!(alloc.alloc_rv(TypeMetadata::fp64), Ok(MachineOperand::Stack(2)));
    assert_eq!(alloc.stack_off, 3);
}

#[test]
fn prep_records_place_and_type_of_the_output() {
    let mut alloc = RegAlloc::new(Arch::X86_64);
    let node = IrNode::Neg { src: var("%0", TypeMetadata::i32), out: var("%1", TypeMetadata::i32) };
    assert_eq!(alloc.prep(&node), Ok(()));
    assert_eq!(alloc.place(&"%1".to_string()), Some(reg(x64Reg::R10d)));
    assert_eq!(alloc.type_of(&"%1".to_string()), Some(TypeMetadata::i32));
    assert_eq!(alloc.place(&"%0".to_string()), None);
    assert_eq!(alloc.type_of(&"%0".to_string()), None);
    assert_eq!(alloc.find(&"%1".to_string()), Some(0));
    assert_eq!(alloc.vars.len(), 1);
}

#[test]
fn prep_of_a_node_without_output_changes_nothing() {
    let mut alloc = RegAlloc::new(Arch::X86_64);
    let node = IrNode::Store { ptr: var("%p", TypeMetadata::ptr), value: var("%0", TypeMetadata::i32) };
    assert_eq!(alloc.prep(&node), Ok(()));
    assert!(alloc.vars.is_empty());
    assert_eq!(alloc.free_regs.len(), 6);
    assert_eq!(alloc.stack_off, 0);
}

#[test]
fn prep_of_a_stack_allocation_hands_out_the_slot_first() {
    let mut alloc = RegAlloc::new(Arch::X86_64);
    let node = IrNode::Alloca { out: var("%p", TypeMetadata::ptr), ty: TypeMetadata::i32 };
    assert_eq!(alloc.prep(&node), Ok(()));
    assert_eq!(alloc.place(&"%p$".to_string()), Some(MachineOperand::Stack(4)));
    assert_eq!(alloc.type_of(&"%p$".to_string()), Some(TypeMetadata::i32));
    assert_eq!(alloc.place(&"%p".to_string()), Some(reg(x64Reg::R10)));
    assert_eq!(alloc.frame_size(), 8);
}

#[test]
fn a_variable_defined_again_gets_a_new_place() {
    let mut alloc = RegAlloc::new(Arch::X86_64);
    alloc.prep_var(&var("%a", TypeMetadata::i32)).unwrap();
    alloc.prep_var(&var("%b", TypeMetadata::i32)).unwrap();
    alloc.prep_var(&var("%a", TypeMetadata::i64)).unwrap();
    assert_eq!(alloc.vars.len(), 2);
    assert_eq!(alloc.place(&"%a".to_string()), Some(reg(x64Reg::R12)));
    assert_eq!(alloc.type_of(&"%a".to_string()), Some(TypeMetadata::i64));
    assert_eq!(alloc.place(&"%b".to_string()), Some(reg(x64Reg::R11d)));
}

#[test]
fn places_of_different_variables_never_share_storage() {
    let types = [
        TypeMetadata::u8,
        TypeMetadata::i64,
        TypeMetadata::i16,
        TypeMetadata::fp32,
        TypeMetadata::u32,
        TypeMetadata::ptr,
        TypeMetadata::fp64,
        TypeMetadata::i8,
    ];
    let mut alloc = RegAlloc::new(Arch::X86_64);
    for i in 0..40 {
        let node = IrNode::AssignConst {
            out: var(&format!("%{}", i), types[i % types.len()]),
            constant: Type::new(types[i % types.len()], 0),
        };
        alloc.prep(&node).unwrap();
    }
    assert_eq!(alloc.vars.len(), 40);
    for i in 0..alloc.vars.len() {
        for j in 0..alloc.vars.len() {
            if i != j {
                assert!(!aliases(&alloc, i, j), "{:?} {:?}", alloc.vars[i], alloc.vars[j]);
                assert_ne!(alloc.vars[i].name, alloc.vars[j].name);
            }
        }
        match alloc.vars[i].loc {
            MachineOperand::Stack(off) => {
                let size = alloc.vars[i].ty.byteSize() as i64;
                assert_eq!(off % size, 0);
                assert!(off - size >= 0 && off <= alloc.stack_off);
            }
            MachineOperand::Reg(Reg::x64(r)) => {
                assert!(alloc.free_regs.iter().all(|f| !f.same_family(&r)));
            }
            MachineOperand::Imm(_) => panic!("a constant is no place"),
        }
    }
}

#[test]
fn pass_over_a_list_of_nodes() {
    let mut alloc = RegAlloc::new(Arch::Wasm32);
    let nodes = vec![
        IrNode::AssignConst { out: var("%0", TypeMetadata::i32), constant: Type::new(TypeMetadata::i32, 1) },
        IrNode::Neg { src: var("%0", TypeMetadata::i32), out: var("%1", TypeMetadata::i32) },
        IrNode::Return { result: Some(var("%1", TypeMetadata::i32)) },
    ];
    assert_eq!(alloc.prep_nodes(&nodes), Ok(()));
    assert_eq!(alloc.place(&"%0".to_string()), Some(MachineOperand::Stack(0)));
    assert_eq!(alloc.place(&"%1".to_string()), Some(MachineOperand::Stack(1)));
    let mut small = RegAlloc::with_limit(Arch::Wasm32, 1);
    assert_eq!(small.prep_nodes(&nodes), Err(AllocError::OutOfStack(1)));
}
