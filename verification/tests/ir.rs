use ygen::codegen::machine::{CmpMode, SwitchCase};
use ygen::ir::builder::{BuildCast, BuildStore, IRBuilder};
use ygen::ir::func::{Block, Function, Linkage};
use ygen::ir::nodes::{BinaryOp, FunctionType, IrNode, VerifyError};
use ygen::ir::types::{Type, TypeMetadata, Var};
use ygen::text::ColorProfile;

fn var(name: &str, ty: TypeMetadata) -> Var {
    Var::new(name.to_string(), ty)
}

fn void_fn() -> FunctionType {
    FunctionType::new(vec![], TypeMetadata::Void)
}

fn all_kinds() -> Vec<IrNode> {
    let a = var("%a", TypeMetadata::i32);
    let b = var("%b", TypeMetadata::i32);
    let c = var("%c", TypeMetadata::i32);
    let p = var("%p", TypeMetadata::ptr);
    vec![
        IrNode::Assign { out: c.clone(), src: a.clone() },
        IrNode::AssignConst { out: c.clone(), constant: Type::new(TypeMetadata::i32, 5) },
        IrNode::Cast { src: a.clone(), ty: TypeMetadata::i32, out: c.clone() },
        IrNode::Neg { src: a.clone(), out: c.clone() },
        IrNode::Binary { op: BinaryOp::Add, lhs: a.clone(), rhs: b.clone(), out: c.clone() },
        IrNode::Compare {
            mode: CmpMode::LT,
            lhs: a.clone(),
            rhs: b.clone(),
            out: var("%f", TypeMetadata::u8),
        },
        IrNode::Br { target: "next".to_string() },
        IrNode::BrCond { cond: a.clone(), if_true: "t".to_string(), if_false: "f".to_string() },
        IrNode::Switch {
            value: a.clone(),
            cases: vec![SwitchCase::new(1, "B1".to_string()), SwitchCase::new(2, "B2".to_string())],
            default: "D".to_string(),
        },
        IrNode::Call {
            func: "foo".to_string(),
            ret: TypeMetadata::i32,
            args: vec![a.clone(), b.clone()],
            out: c.clone(),
        },
        IrNode::Return { result: Some(a.clone()) },
        IrNode::Return { result: None },
        IrNode::Store { ptr: p.clone(), value: a.clone() },
        IrNode::StoreConst { ptr: p.clone(), constant: Type::new(TypeMetadata::i32, 42) },
        IrNode::Load { out: c.clone(), ptr: p.clone(), ty: TypeMetadata::i32 },
        IrNode::Alloca { out: p.clone(), ty: TypeMetadata::i32 },
        IrNode::AdressLoad { out: p.clone(), symbol: "table".to_string() },
    ]
}

#[test]
fn inputs_are_exactly_the_variables_used() {
    let candidates = [
        var("%a", TypeMetadata::i32),
        var("%b", TypeMetadata::i32),
        var("%c", TypeMetadata::i32),
        var("%p", TypeMetadata::ptr),
        var("%f", TypeMetadata::u8),
        var("%a", TypeMetadata::i64),
        var("%zz", TypeMetadata::i32),
    ];
    for node in all_kinds() {
        let inputs = node.inputs();
        for v in &candidates {
            assert_eq!(node.uses(v), inputs.contains(v), "{:?} {:?}", node, v);
        }
        for v in &inputs {
            assert!(node.uses(v));
        }
    }
}

#[test]
fn inputs_in_the_order_of_the_operands() {
    let a = var("%a", TypeMetadata::i32);
    let b = var("%b", TypeMetadata::i32);
    let c = var("%c", TypeMetadata::i32);
    let p = var("%p", TypeMetadata::ptr);
    assert_eq!(IrNode::Cast { src: a.clone(), ty: TypeMetadata::i64, out: c.clone() }.inputs(), vec![a.clone()]);
    assert_eq!(
        IrNode::Binary { op: BinaryOp::Sub, lhs: a.clone(), rhs: b.clone(), out: c.clone() }.inputs(),
        vec![a.clone(), b.clone()]
    );
    assert_eq!(IrNode::Store { ptr: p.clone(), value: a.clone() }.inputs(), vec![p.clone(), a.clone()]);
    assert_eq!(
        IrNode::StoreConst { ptr: p.clone(), constant: Type::new(TypeMetadata::i32, 1) }.inputs(),
        vec![p.clone()]
    );
    assert_eq!(IrNode::Return { result: None }.inputs(), vec![]);
    assert_eq!(IrNode::Br { target: "x".to_string() }.inputs(), vec![]);
    assert_eq!(IrNode::Alloca { out: p.clone(), ty: TypeMetadata::i32 }.inputs(), vec![]);
    assert_eq!(
        IrNode::Call { func: "f".to_string(), ret: TypeMetadata::i32, args: vec![b.clone(), a.clone(), b.clone()], out: c }
            .inputs(),
        vec![b.clone(), a, b]
    );
}

#[test]
fn cast_does_not_use_its_output() {
    let node = IrNode::Cast {
        src: var("%0", TypeMetadata::i32),
        ty: TypeMetadata::i64,
        out: var("%1", TypeMetadata::i64),
    };
    assert!(node.uses(&var("%0", TypeMetadata::i32)));
    assert!(!node.uses(&var("%1", TypeMetadata::i64)));
    assert!(!node.uses(&var("%0", TypeMetadata::i64)));
}

#[test]
fn outputs() {
    let kinds = all_kinds();
    let with_output = kinds.iter().filter(|n| n.output().is_some()).count();
    assert_eq!(with_output, 10);
    assert_eq!(kinds[0].output(), Some(var("%c", TypeMetadata::i32)));
    assert_eq!(kinds[5].output(), Some(var("%f", TypeMetadata::u8)));
    assert_eq!(kinds[6].output(), None);
    assert_eq!(kinds[12].output(), None);
    assert_eq!(kinds[15].output(), Some(var("%p", TypeMetadata::ptr)));
}

#[test]
fn nodes_that_verify_have_the_result_type_of_their_operation() {
    let ty = FunctionType::new(vec![], TypeMetadata::i32);
    for node in all_kinds() {
        if node.verify(&ty).is_ok() {
            if let Some(out) = node.output() {
                assert_eq!(Some(out.ty), node.expected_result_type());
            }
        }
    }
    let verified = all_kinds().iter().filter(|n| n.verify(&ty).is_ok()).count();
    assert_eq!(verified, 16);
}

#[test]
fn expected_result_types() {
    let kinds = all_kinds();
    assert_eq!(kinds[0].expected_result_type(), Some(TypeMetadata::i32));
    assert_eq!(kinds[5].expected_result_type(), Some(TypeMetadata::u8));
    assert_eq!(kinds[6].expected_result_type(), None);
    assert_eq!(kinds[9].expected_result_type(), Some(TypeMetadata::i32));
    assert_eq!(kinds[15].expected_result_type(), Some(TypeMetadata::ptr));
    assert_eq!(kinds[16].expected_result_type(), Some(TypeMetadata::ptr));
}

#[test]
fn cast_to_another_type_than_its_output_is_rejected() {
    let node = IrNode::Cast {
        src: var("%0", TypeMetadata::i32),
        ty: TypeMetadata::i64,
        out: var("%1", TypeMetadata::i32),
    };
    assert_eq!(
        node.verify(&void_fn()),
        Err(VerifyError::Op0Op1TyNoMatch(TypeMetadata::i32, TypeMetadata::i64))
    );
}

#[test]
fn every_wrong_output_type_is_rejected() {
    let types = [
        TypeMetadata::u8,
        TypeMetadata::u16,
        TypeMetadata::u32,
        TypeMetadata::u64,
        TypeMetadata::i8,
        TypeMetadata::i16,
        TypeMetadata::i32,
        TypeMetadata::i64,
        TypeMetadata::ptr,
        TypeMetadata::Void,
        TypeMetadata::fp32,
        TypeMetadata::fp64,
    ];
    let a = var("%a", TypeMetadata::i32);
    let b = var("%b", TypeMetadata::i32);
    let p = var("%p", TypeMetadata::ptr);
    for ty in types {
        let out = var("%o", ty);
        let nodes = vec![
            IrNode::Assign { out: out.clone(), src: a.clone() },
            IrNode::AssignConst { out: out.clone(), constant: Type::new(TypeMetadata::i32, 1) },
            IrNode::Cast { src: a.clone(), ty: TypeMetadata::i32, out: out.clone() },
            IrNode::Neg { src: a.clone(), out: out.clone() },
            IrNode::Binary { op: BinaryOp::Mul, lhs: a.clone(), rhs: b.clone(), out: out.clone() },
            IrNode::Call { func: "f".to_string(), ret: TypeMetadata::i32, args: vec![], out: out.clone() },
            IrNode::Load { out: out.clone(), ptr: p.clone(), ty: TypeMetadata::i32 },
        ];
        for node in nodes {
            let result = node.verify(&void_fn());
            if ty == TypeMetadata::i32 {
                assert_eq!(result, Ok(()));
            } else {
                assert_eq!(result, Err(VerifyError::Op0Op1TyNoMatch(ty, TypeMetadata::i32)));
            }
        }
    }
}

#[test]
fn operands_of_different_types_are_rejected() {
    let node = IrNode::Binary {
        op: BinaryOp::Add,
        lhs: var("%a", TypeMetadata::i32),
        rhs: var("%b", TypeMetadata::i64),
        out: var("%c", TypeMetadata::i32),
    };
    assert_eq!(
        node.verify(&void_fn()),
        Err(VerifyError::Op0Op1TyNoMatch(TypeMetadata::i32, TypeMetadata::i64))
    );
    let node = IrNode::Compare {
        mode: CmpMode::Eq,
        lhs: var("%a", TypeMetadata::u8),
        rhs: var("%b", TypeMetadata::i8),
        out: var("%c", TypeMetadata::u8),
    };
    assert_eq!(
        node.verify(&void_fn()),
        Err(VerifyError::Op0Op1TyNoMatch(TypeMetadata::u8, TypeMetadata::i8))
    );
    let node = IrNode::Load {
        out: var("%c", TypeMetadata::i32),
        ptr: var("%p", TypeMetadata::i64),
        ty: TypeMetadata::i32,
    };
    assert_eq!(
        node.verify(&void_fn()),
        Err(VerifyError::Op0Op1TyNoMatch(TypeMetadata::i64, TypeMetadata::ptr))
    );
}

#[test]
fn return_of_another_type_is_rejected() {
    let ty = FunctionType::new(vec![], TypeMetadata::i64);
    assert_eq!(
        IrNode::Return { result: Some(var("%a", TypeMetadata::i32)) }.verify(&ty),
        Err(VerifyError::ReturnTypeMismatch(TypeMetadata::i32, TypeMetadata::i64))
    );
    assert_eq!(
        IrNode::Return { result: None }.verify(&ty),
        Err(VerifyError::ReturnTypeMismatch(TypeMetadata::Void, TypeMetadata::i64))
    );
    assert_eq!(IrNode::Return { result: Some(var("%a", TypeMetadata::i64)) }.verify(&ty), Ok(()));
    assert_eq!(IrNode::Return { result: None }.verify(&void_fn()), Ok(()));
}

#[test]
fn stores_and_branches_always_verify() {
    let p = var("%p", TypeMetadata::i8);
    assert_eq!(IrNode::Store { ptr: p.clone(), value: var("%v", TypeMetadata::fp64) }.verify(&void_fn()), Ok(()));
    assert_eq!(
        IrNode::StoreConst { ptr: p, constant: Type::new(TypeMetadata::u64, -1) }.verify(&void_fn()),
        Ok(())
    );
    assert_eq!(IrNode::Br { target: "x".to_string() }.verify(&void_fn()), Ok(()));
}

#[test]
fn cast_to_the_same_type_folds_to_a_copy() {
    let x = var("%x", TypeMetadata::i32);
    let t = var("%t", TypeMetadata::i32);
    let cast = IrNode::Cast { src: x.clone(), ty: TypeMetadata::i32, out: t.clone() };
    let folded = cast.eval();
    assert_eq!(folded, Some(IrNode::Assign { out: t.clone(), src: x.clone() }));
    let folded = folded.unwrap();
    assert_eq!(folded.output(), cast.output());
    assert_eq!(cast.dump(), "%t = cast %x to i32");
    assert_eq!(folded.dump(), "%t = i32 %x");
    assert_eq!(folded.verify(&void_fn()), Ok(()));
}

#[test]
fn folding_leaves_the_node_alone() {
    let cast = IrNode::Cast {
        src: var("%x", TypeMetadata::i32),
        ty: TypeMetadata::i32,
        out: var("%t", TypeMetadata::i32),
    };
    let copy = cast.clone();
    let first = cast.eval();
    let second = cast.eval();
    assert_eq!(first, second);
    assert_eq!(cast, copy);
}

#[test]
fn other_nodes_do_not_fold() {
    let cast = IrNode::Cast {
        src: var("%x", TypeMetadata::i32),
        ty: TypeMetadata::i64,
        out: var("%t", TypeMetadata::i64),
    };
    assert_eq!(cast.eval(), None);
    for node in all_kinds() {
        match node.eval() {
            Some(folded) => {
                assert!(matches!(node, IrNode::Cast { .. }));
                assert_eq!(folded.output(), node.output());
            }
            None => {}
        }
    }
}

#[test]
fn dumps() {
    let texts: Vec<String> = all_kinds().iter().map(|n| n.dump()).collect();
    assert_eq!(
        texts,
        vec![
            "%c = i32 %a",
            "%c = i32 5",
            "%c = cast %a to i32",
            "%c = neg i32 %a",
            "%c = add i32 %a, %b",
            "%f = cmp lt i32 %a, %b",
            "br next",
            "br cond %a t, f",
            "switch i32 %a, default D [1 B1, 2 B2]",
            "%c = call i32 foo %a, %b",
            "ret i32 %a",
            "ret void",
            "store i32 %a, %p",
            "store i32 42, %p",
            "%c = load i32 %p",
            "%p = alloca i32",
            "%p = ptr table",
        ]
    );
}

#[test]
fn dumps_of_empty_lists() {
    let call = IrNode::Call {
        func: "f".to_string(),
        ret: TypeMetadata::Void,
        args: vec![],
        out: var("%0", TypeMetadata::Void),
    };
    assert_eq!(call.dump(), "%0 = call void f ");
    let switch = IrNode::Switch { value: var("%v", TypeMetadata::u8), cases: vec![], default: "D".to_string() };
    assert_eq!(switch.dump(), "switch u8 %v, default D []");
    let switch = IrNode::Switch {
        value: var("%v", TypeMetadata::u8),
        cases: vec![SwitchCase::new(-3, "neg".to_string())],
        default: "D".to_string(),
    };
    assert_eq!(switch.dump(), "switch u8 %v, default D [-3 neg]");
}

#[test]
fn colored_dumps() {
    let profile = ColorProfile::default();
    assert_eq!(
        IrNode::Br { target: "exit".to_string() }.dumpColored(profile),
        "\x1b[34mbr\x1b[0m \x1b[33mexit\x1b[0m"
    );
    assert_eq!(
        IrNode::StoreConst { ptr: var("%p", TypeMetadata::ptr), constant: Type::new(TypeMetadata::i32, 42) }
            .dumpColored(profile),
        "\x1b[34mstore\x1b[0m \x1b[36mi32\x1b[0m \x1b[32m42\x1b[0m, \x1b[35m%p\x1b[0m"
    );
    assert_eq!(
        IrNode::Cast {
            src: var("%x", TypeMetadata::i32),
            ty: TypeMetadata::i64,
            out: var("%t", TypeMetadata::i64),
        }
        .dumpColored(ColorProfile { instr: 1, ty: 2, var: 3, value: 4, name: 105 }),
        "\x1b[3m%t\x1b[0m = \x1b[1mcast\x1b[0m \x1b[3m%x\x1b[0m \x1b[1mto\x1b[0m \x1b[2mi64\x1b[0m"
    );
}

#[test]
fn types() {
    assert_eq!(TypeMetadata::u8.bitSize(), 8);
    assert_eq!(TypeMetadata::i16.bitSize(), 16);
    assert_eq!(TypeMetadata::fp32.bitSize(), 32);
    assert_eq!(TypeMetadata::ptr.bitSize(), 64);
    assert_eq!(TypeMetadata::Void.bitSize(), 0);
    assert_eq!(TypeMetadata::i64.byteSize(), 8);
    assert_eq!(TypeMetadata::u16.byteSize(), 2);
    assert_eq!(TypeMetadata::Void.byteSize(), 0);
    assert!(TypeMetadata::i8.signed());
    assert!(TypeMetadata::fp64.signed());
    assert!(!TypeMetadata::u64.signed());
    assert!(!TypeMetadata::ptr.signed());
    assert!(TypeMetadata::fp32.float());
    assert!(!TypeMetadata::i32.float());
    assert_eq!(TypeMetadata::i32.to_string(), "i32");
    assert_eq!(TypeMetadata::Void.to_string(), "void");
    assert_eq!(Type::new(TypeMetadata::u8, 7).val(), 7);
}

#[test]
fn variables_are_equal_by_name_and_type() {
    assert_eq!(var("%a", TypeMetadata::i32), var("%a", TypeMetadata::i32));
    assert_ne!(var("%a", TypeMetadata::i32), var("%a", TypeMetadata::u32));
    assert_ne!(var("%a", TypeMetadata::i32), var("%b", TypeMetadata::i32));
}

#[test]
fn terminators() {
    let terminators: Vec<bool> = all_kinds().iter().map(|n| n.is_terminator()).collect();
    assert_eq!(terminators.iter().filter(|t| **t).count(), 5);
    assert!(IrNode::Return { result: None }.is_terminator());
    assert!(IrNode::Br { target: "x".to_string() }.is_terminator());
    assert!(!IrNode::Store { ptr: var("%p", TypeMetadata::ptr), value: var("%v", TypeMetadata::i8) }
        .is_terminator());
}

#[test]
fn block_needs_its_terminator_at_the_end() {
    let mut block = Block::new("entry".to_string(), 0);
    assert_eq!(block.verify(&void_fn()), Err(VerifyError::TerminatorMisplaced));
    block.push_ir(IrNode::AssignConst {
        out: var("%0", TypeMetadata::i32),
        constant: Type::new(TypeMetadata::i32, 1),
    });
    assert_eq!(block.verify(&void_fn()), Err(VerifyError::TerminatorMisplaced));
    block.push_ir(IrNode::Return { result: None });
    assert_eq!(block.verify(&void_fn()), Ok(()));
    block.push_ir(IrNode::Return { result: None });
    assert_eq!(block.verify(&void_fn()), Err(VerifyError::TerminatorMisplaced));
    block.push_ir(IrNode::Neg { src: var("%0", TypeMetadata::i32), out: var("%1", TypeMetadata::i32) });
    assert_eq!(block.verify(&void_fn()), Err(VerifyError::TerminatorMisplaced));
}

#[test]
fn block_reports_the_first_node_that_does_not_verify() {
    let mut block = Block::new("entry".to_string(), 0);
    block.push_ir(IrNode::Neg { src: var("%0", TypeMetadata::i32), out: var("%1", TypeMetadata::i64) });
    block.push_ir(IrNode::Neg { src: var("%0", TypeMetadata::u8), out: var("%1", TypeMetadata::u16) });
    assert_eq!(
        block.verify(&void_fn()),
        Err(VerifyError::Op0Op1TyNoMatch(TypeMetadata::i64, TypeMetadata::i32))
    );
}

#[test]
fn function_arguments_and_variable_names() {
    let mut f = Function::new(
        "f".to_string(),
        FunctionType::new(vec![TypeMetadata::i32, TypeMetadata::u8], TypeMetadata::Void),
    );
    assert_eq!(f.linkage, Linkage::Internal);
    assert_eq!(f.arg(0), var("%0", TypeMetadata::i32));
    assert_eq!(f.arg(1), var("%1", TypeMetadata::u8));
    f.addBlock("entry".to_string());
    assert_eq!(f.blocks[0].name, "entry");
    assert_eq!(f.blocks[0].varCount, 2);
    assert_eq!(f.blocks[0].reqVarName(), "%2");
    assert_eq!(f.blocks[0].reqVarName(), "%3");
    f.addBlock("next".to_string());
    assert_eq!(f.blocks[1].varCount, 4);
    let mut block = Block::new("b".to_string(), 1234567890);
    assert_eq!(block.reqVarName(), "%1234567890");
    assert_eq!(block.varCount, 1234567891);
}

#[test]
fn build_cast_appends_to_the_last_block() {
    let mut f = Function::new("f".to_string(), FunctionType::new(vec![TypeMetadata::i32], TypeMetadata::i64));
    f.addBlock("first".to_string());
    f.addBlock("entry".to_string());
    let x = f.arg(0);
    let out = f.BuildCast(x.clone(), TypeMetadata::i64);
    assert_eq!(out, var("%1", TypeMetadata::i64));
    assert_eq!(f.blocks.len(), 2);
    assert!(f.blocks[0].nodes.is_empty());
    assert_eq!(
        f.blocks[1].nodes,
        vec![IrNode::Cast { src: x, ty: TypeMetadata::i64, out: out.clone() }]
    );
    assert_eq!(f.blocks[1].varCount, 2);
    let again = f.BuildCast(out.clone(), TypeMetadata::u8);
    assert_eq!(again, var("%2", TypeMetadata::u8));
    assert_eq!(f.blocks[1].nodes.len(), 2);
    assert_eq!(f.blocks[1].nodes[1].dump(), "%2 = cast %1 to u8");
}

#[test]
fn build_store_appends_to_the_current_block() {
    let mut builder = IRBuilder::new();
    builder.positionAtEnd(Block::new("a".to_string(), 0));
    builder.positionAtEnd(Block::new("b".to_string(), 0));
    let p = var("%p", TypeMetadata::ptr);
    let v = var("%v", TypeMetadata::i32);
    builder.BuildStore(p.clone(), v.clone());
    builder.BuildStore(p.clone(), Type::new(TypeMetadata::i32, 42));
    builder.curr = 0;
    builder.BuildStore(p.clone(), Type::new(TypeMetadata::u8, 1));
    let blocks = builder.finish();
    assert_eq!(
        blocks[1].nodes,
        vec![
            IrNode::Store { ptr: p.clone(), value: v },
            IrNode::StoreConst { ptr: p.clone(), constant: Type::new(TypeMetadata::i32, 42) },
        ]
    );
    assert_eq!(
        blocks[0].nodes,
        vec![IrNode::StoreConst { ptr: p, constant: Type::new(TypeMetadata::u8, 1) }]
    );
    assert_eq!(blocks[1].nodes[1].dump(), "store i32 42, %p");
}

#[test]
fn function_verification_finds_undefined_variables() {
    let mut f = Function::new("f".to_string(), FunctionType::new(vec![TypeMetadata::i32], TypeMetadata::i32));
    f.addBlock("entry".to_string());
    let x = f.arg(0);
    let y = f.BuildCast(x.clone(), TypeMetadata::i32);
    f.blocks[0].push_ir(IrNode::Br { target: "exit".to_string() });
    f.addBlock("exit".to_string());
    f.blocks[1].push_ir(IrNode::Return { result: Some(y.clone()) });
    assert_eq!(f.verify(), Ok(()));

    f.blocks[1].nodes.clear();
    f.blocks[1].push_ir(IrNode::Return { result: Some(var("%9", TypeMetadata::i32)) });
    assert_eq!(f.verify(), Err(VerifyError::UseOfUndefined(var("%9", TypeMetadata::i32))));

    f.blocks[1].nodes.clear();
    f.blocks[1].push_ir(IrNode::Return { result: Some(var("%1", TypeMetadata::i64)) });
    assert_eq!(
        f.verify(),
        Err(VerifyError::ReturnTypeMismatch(TypeMetadata::i64, TypeMetadata::i32))
    );
}

#[test]
fn function_verification_takes_definitions_in_order() {
    let mut f = Function::new("f".to_string(), void_fn());
    f.addBlock("entry".to_string());
    f.blocks[0].push_ir(IrNode::Neg { src: var("%1", TypeMetadata::i32), out: var("%0", TypeMetadata::i32) });
    f.blocks[0].push_ir(IrNode::AssignConst {
        out: var("%1", TypeMetadata::i32),
        constant: Type::new(TypeMetadata::i32, 1),
    });
    f.blocks[0].push_ir(IrNode::Return { result: None });
    assert_eq!(f.verify(), Err(VerifyError::UseOfUndefined(var("%1", TypeMetadata::i32))));
    f.blocks[0].nodes.swap(0, 1);
    assert_eq!(f.verify(), Ok(()));
}

#[test]
fn function_without_blocks_verifies() {
    assert_eq!(Function::new("f".to_string(), void_fn()).verify(), Ok(()));
}
