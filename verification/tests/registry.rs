use ygen::codegen::error::CompileError;
use ygen::codegen::machine::{MachineInstr, MachineMnemonic, MachineOperand, Reg, SwitchCase};
use ygen::codegen::mc::MCInstr;
use ygen::codegen::reg_alloc::AllocError;
use ygen::ir::builder::BuildCast;
use ygen::ir::func::{Block, Function};
use ygen::ir::nodes::{BinaryOp, FunctionType, IrNode, VerifyError};
use ygen::ir::types::{Type, TypeMetadata, Var};
use ygen::obj::link::{Link, LinkKind};
use ygen::target::backend::{frame_for, BackendState, TargetBackendDescr};
use ygen::target::registry::{assemble, RegistryError, TargetRegistry};
use ygen::target::triple::{Arch, CallConv, Environment, ObjFormat, Triple, Vendor, OS};
use ygen::target::wasm::instr::{WasmMCInstr, WasmMnemonic};
use ygen::target::x64::instr::{Mnemonic, Operand, X64MCInstr};
use ygen::codegen::error::EncodeError;
use ygen::codegen::error::LowerError;
use ygen::target::x64::reg::x64Reg;

fn triple(arch: Arch, os: OS) -> Triple {
    Triple { arch, vendor: Vendor::Unknown, os, env: Environment::Unknown, bin: ObjFormat::Elf }
}

fn linux() -> Triple {
    triple(Arch::X86_64, OS::Linux)
}

fn registry() -> TargetRegistry {
    let mut registry = TargetRegistry::new();
    registry.add(Arch::X86_64, TargetBackendDescr::new(Arch::X86_64, CallConv::WindowsFastCall));
    registry.add(Arch::Wasm64, TargetBackendDescr::new(Arch::Wasm64, CallConv::WasmBasicCAbi));
    registry
}

fn var(name: &str, ty: TypeMetadata) -> Var {
    Var::new(name.to_string(), ty)
}

fn function(name: &str, args: Vec<TypeMetadata>, ret: TypeMetadata, nodes: Vec<IrNode>) -> Function {
    let mut f = Function::new(name.to_string(), FunctionType::new(args, ret));
    f.addBlock("entry".to_string());
    for node in nodes {
        f.blocks[0].push_ir(node);
    }
    f
}

fn call_and_return() -> Function {
    function(
        "f",
        vec![],
        TypeMetadata::Void,
        vec![
            IrNode::Call {
                func: "foo".to_string(),
                ret: TypeMetadata::Void,
                args: vec![],
                out: var("%0", TypeMetadata::Void),
            },
            IrNode::Return { result: None },
        ],
    )
}

fn lines(registry: &mut TargetRegistry, t: Triple, f: &Function) -> Vec<String> {
    registry.buildAsmForTarget(t, &f.blocks[0], f).unwrap()
}

#[test]
fn calling_convention_of_a_triple() {
    assert_eq!(linux().getCallConv(), Ok(CallConv::SystemV));
    assert_eq!(triple(Arch::X86_64, OS::Win32).getCallConv(), Ok(CallConv::WindowsFastCall));
    assert_eq!(triple(Arch::X86_64, OS::Unknown).getCallConv(), Ok(CallConv::SystemV));
    assert_eq!(triple(Arch::Wasm32, OS::Unknown).getCallConv(), Ok(CallConv::WasmBasicCAbi));
    assert_eq!(triple(Arch::Wasm64, OS::Linux).getCallConv(), Ok(CallConv::WasmBasicCAbi));
    assert_eq!(
        triple(Arch::Arm, OS::Linux).getCallConv(),
        Err(RegistryError::UnsuportedArch(Arch::Arm))
    );
    assert_eq!(
        triple(Arch::Unknown, OS::Unknown).getCallConv(),
        Err(RegistryError::UnsuportedArch(Arch::Unknown))
    );
}

#[test]
fn architecture_numbers_differ() {
    let all = [
        Arch::Unknown,
        Arch::Arm,
        Arch::Aarch64,
        Arch::Riscv32,
        Arch::Riscv64,
        Arch::X86,
        Arch::X86_64,
        Arch::Wasm32,
        Arch::Wasm64,
    ];
    for (i, a) in all.iter().enumerate() {
        assert_eq!(a.code(), i as u64);
    }
}

#[test]
fn error_text() {
    assert_eq!(
        RegistryError::UnsuportedArch(Arch::Riscv64).to_string(),
        "unsuported architecture: Riscv64"
    );
    assert_eq!(
        RegistryError::UnsuportedArch(Arch::X86_64).to_string(),
        "unsuported architecture: X86_64"
    );
}

#[test]
fn triple_selects_the_backend_and_sets_its_convention() {
    let mut registry = registry();
    {
        let descr = registry.getBasedOnTriple(linux()).unwrap();
        assert_eq!(descr.arch, Arch::X86_64);
        assert_eq!(descr.call, CallConv::SystemV);
        assert_eq!(descr.state, BackendState::Idle);
        descr.state = BackendState::Encoded;
    }
    let descr = registry.getBasedOnTriple(triple(Arch::X86_64, OS::Win32)).unwrap();
    assert_eq!(descr.call, CallConv::WindowsFastCall);
    assert_eq!(descr.state, BackendState::Encoded);
}

#[test]
fn unknown_architecture_is_unsupported() {
    let mut registry = registry();
    assert_eq!(
        registry.getBasedOnTriple(triple(Arch::Aarch64, OS::Linux)).err(),
        Some(RegistryError::UnsuportedArch(Arch::Aarch64))
    );
    assert_eq!(
        TargetRegistry::new().getBasedOnTriple(linux()).err(),
        Some(RegistryError::UnsuportedArch(Arch::X86_64))
    );
    let f = call_and_return();
    let unsupported = CompileError::Registry(RegistryError::UnsuportedArch(Arch::Aarch64));
    let t = triple(Arch::Aarch64, OS::Linux);
    assert_eq!(registry.buildMachineInstrsForTarget(t, &f.blocks[0], &f), Err(unsupported.clone()));
    assert_eq!(registry.buildAsmForTarget(t, &f.blocks[0], &f), Err(unsupported.clone()));
    assert_eq!(registry.buildMachineCodeForTarget(t, &f.blocks[0], &f), Err(unsupported));
}

#[test]
fn registered_architecture_without_a_convention_is_unsupported() {
    let mut registry = TargetRegistry::new();
    registry.add(Arch::Arm, TargetBackendDescr::new(Arch::Arm, CallConv::SystemV));
    assert_eq!(
        registry.getBasedOnTriple(triple(Arch::Arm, OS::Linux)).err(),
        Some(RegistryError::UnsuportedArch(Arch::Arm))
    );
}

#[test]
fn setting_the_convention_of_a_target() {
    let mut registry = TargetRegistry::new();
    registry.add(Arch::Arm, TargetBackendDescr::new(Arch::Arm, CallConv::SystemV));
    registry.setCallingConventionForTarget(Arch::Arm, CallConv::WindowsFastCall);
    registry.setCallingConventionForTarget(Arch::X86_64, CallConv::WindowsFastCall);
    assert!(registry.getBasedOnTriple(linux()).is_err());
    let mut registry = registry_with_checked_convention();
    let f = call_and_return();
    assert_eq!(lines(&mut registry, linux(), &f), vec!["", "jmp 0", "link foo,-4"]);
}

fn registry_with_checked_convention() -> TargetRegistry {
    let mut registry = registry();
    registry.setCallingConventionForTarget(Arch::X86_64, CallConv::WindowsFastCall);
    registry
}

#[test]
fn adding_a_backend_again_replaces_it() {
    let mut registry = registry();
    let mut descr = TargetBackendDescr::new(Arch::X86_64, CallConv::SystemV);
    descr.state = BackendState::Lowered;
    registry.add(Arch::X86_64, descr);
    assert_eq!(registry.getBasedOnTriple(linux()).unwrap().state, BackendState::Lowered);
}

#[test]
fn call_and_return_of_nothing_is_a_tail_call() {
    let mut registry = registry();
    let f = call_and_return();
    assert_eq!(
        registry.buildMachineInstrsForTarget(linux(), &f.blocks[0], &f),
        Ok(vec![
            MachineInstr {
                mnemonic: MachineMnemonic::Call("foo".to_string()),
                operands: vec![],
                out: None,
                meta: TypeMetadata::Void,
            },
            MachineInstr {
                mnemonic: MachineMnemonic::Return,
                operands: vec![],
                out: None,
                meta: TypeMetadata::Void,
            },
        ])
    );
    assert_eq!(lines(&mut registry, linux(), &f), vec!["", "jmp 0", "link foo,-4"]);
    assert_eq!(
        registry.buildMachineCodeForTarget(linux(), &f.blocks[0], &f),
        Ok((
            vec![0xE9, 0, 0, 0, 0],
            vec![Link {
                from: "f".to_string(),
                to: "foo".to_string(),
                at: 1,
                addend: -4,
                kind: LinkKind::PcRelative32,
                to_block: false,
            }]
        ))
    );
}

#[test]
fn call_under_windows_keeps_the_shadow_space() {
    let mut registry = registry();
    let f = call_and_return();
    assert_eq!(
        lines(&mut registry, triple(Arch::X86_64, OS::Win32), &f),
        vec!["", "sub rsp, 24", "xor eax, eax", "call 0", "link foo,-4", "add rsp, 24", "ret"]
    );
}

#[test]
fn backend_is_at_rest_after_a_build() {
    let mut registry = registry();
    let f = call_and_return();
    lines(&mut registry, linux(), &f);
    let descr = registry.getBasedOnTriple(linux()).unwrap();
    assert_eq!(descr.state, BackendState::Idle);
    assert_eq!(descr.block, None);
    assert_eq!(descr.call, CallConv::SystemV);
}

#[test]
fn backend_is_at_rest_after_a_failed_build() {
    let mut registry = registry();
    let f = function(
        "f",
        vec![],
        TypeMetadata::Void,
        vec![
            IrNode::Binary {
                op: BinaryOp::Shl,
                lhs: var("%0", TypeMetadata::i32),
                rhs: var("%0", TypeMetadata::i32),
                out: var("%0", TypeMetadata::i32),
            },
            IrNode::Return { result: None },
        ],
    );
    assert_eq!(
        registry.buildAsmForTarget(linux(), &f.blocks[0], &f),
        Err(CompileError::Lower(LowerError::IllegalOnTarget(MachineMnemonic::Shl, Arch::X86_64)))
    );
    let descr = registry.getBasedOnTriple(linux()).unwrap();
    assert_eq!(descr.state, BackendState::Idle);
    assert_eq!(descr.block, None);
}

#[test]
fn cast_to_the_same_type_is_a_copy() {
    let mut registry = registry();
    let x = var("%0", TypeMetadata::i32);
    let t = var("%1", TypeMetadata::i32);
    let cast = IrNode::Cast { src: x.clone(), ty: TypeMetadata::i32, out: t.clone() };
    let folded = cast.eval().unwrap();
    assert_eq!(folded, IrNode::Assign { out: t.clone(), src: x });
    let f = function(
        "f",
        vec![TypeMetadata::i32],
        TypeMetadata::i32,
        vec![folded, IrNode::Return { result: Some(t) }],
    );
    assert_eq!(
        lines(&mut registry, linux(), &f),
        vec!["", "mov r10d, edi", "mov r11d, r10d", "mov eax, r11d", "ret"]
    );
}

#[test]
fn cast_that_is_not_folded_lowers_to_the_same_copy() {
    let mut registry = registry();
    let mut f = Function::new(
        "f".to_string(),
        FunctionType::new(vec![TypeMetadata::i32], TypeMetadata::i32),
    );
    f.addBlock("entry".to_string());
    let x = f.arg(0);
    let t = f.BuildCast(x, TypeMetadata::i32);
    f.blocks[0].push_ir(IrNode::Return { result: Some(t) });
    assert_eq!(
        lines(&mut registry, linux(), &f),
        vec!["", "mov r10d, edi", "mov r11d, r10d", "mov eax, r11d", "ret"]
    );
}

#[test]
fn widening_and_narrowing_casts() {
    let mut registry = registry();
    let mut f = Function::new(
        "f".to_string(),
        FunctionType::new(vec![TypeMetadata::u8], TypeMetadata::u16),
    );
    f.addBlock("entry".to_string());
    let x = f.arg(0);
    let wide = f.BuildCast(x, TypeMetadata::u64);
    let narrow = f.BuildCast(wide, TypeMetadata::u16);
    f.blocks[0].push_ir(IrNode::Return { result: Some(narrow) });
    assert_eq!(
        lines(&mut registry, linux(), &f),
        vec![
            "",
            "mov r10b, dil",
            "movzx rax, r10b",
            "mov r11, rax",
            "mov r12w, r11w",
            "mov ax, r12w",
            "ret"
        ]
    );
}

#[test]
fn store_of_a_constant_into_a_stack_allocation() {
    let mut registry = registry();
    let p = var("%0", TypeMetadata::ptr);
    let f = function(
        "f",
        vec![],
        TypeMetadata::Void,
        vec![
            IrNode::Alloca { out: p.clone(), ty: TypeMetadata::i32 },
            IrNode::StoreConst { ptr: p, constant: Type::new(TypeMetadata::i32, 42) },
            IrNode::Return { result: None },
        ],
    );
    assert_eq!(
        lines(&mut registry, linux(), &f),
        vec![
            "",
            "push rbp",
            "mov rbp, rsp",
            "sub rbp, 8",
            "lea r10, [rbp-4]",
            "mov rax, 42",
            "mov [r10], eax",
            "pop rbp",
            "ret"
        ]
    );
}

#[test]
fn switch_tests_its_cases_and_goes_to_the_default() {
    let mut registry = registry();
    let f = function(
        "f",
        vec![TypeMetadata::i32],
        TypeMetadata::Void,
        vec![IrNode::Switch {
            value: var("%0", TypeMetadata::i32),
            cases: vec![SwitchCase::new(1, "B1".to_string()), SwitchCase::new(2, "B2".to_string())],
            default: "D".to_string(),
        }],
    );
    assert_eq!(
        lines(&mut registry, linux(), &f),
        vec![
            "",
            "mov r10d, edi",
            "cmp r10d, 1",
            "je 0",
            "link B1,-4",
            "cmp r10d, 2",
            "je 0",
            "link B2,-4",
            "jmp 0",
            "link D,-4"
        ]
    );
}

#[test]
fn call_with_arguments_and_a_result() {
    let mut registry = registry();
    let a = var("%0", TypeMetadata::i64);
    let b = var("%1", TypeMetadata::i32);
    let out = var("%2", TypeMetadata::i32);
    let f = function(
        "f",
        vec![TypeMetadata::i64, TypeMetadata::i32],
        TypeMetadata::i32,
        vec![
            IrNode::Call {
                func: "g".to_string(),
                ret: TypeMetadata::i32,
                args: vec![b.clone(), a.clone()],
                out: out.clone(),
            },
            IrNode::Return { result: Some(out) },
        ],
    );
    assert_eq!(
        lines(&mut registry, linux(), &f),
        vec![
            "",
            "mov r10, rdi",
            "mov r11d, esi",
            "push r10",
            "sub rsp, 8",
            "push r11",
            "sub rsp, 8",
            "mov edi, r11d",
            "mov rsi, r10",
            "call 0",
            "link g,-4",
            "mov r12d, eax",
            "pop r11",
            "add rsp, 8",
            "pop r10",
            "add rsp, 8",
            "mov eax, r12d",
            "ret"
        ]
    );
}

#[test]
fn call_with_more_arguments_than_registers_is_refused() {
    let mut registry = registry();
    let args: Vec<Var> = (0..7).map(|i| var(&format!("%{}", i), TypeMetadata::i64)).collect();
    let f = function(
        "f",
        vec![TypeMetadata::i64; 7],
        TypeMetadata::Void,
        vec![
            IrNode::Call {
                func: "g".to_string(),
                ret: TypeMetadata::Void,
                args,
                out: var("%7", TypeMetadata::Void),
            },
            IrNode::Return { result: None },
        ],
    );
    assert_eq!(
        registry.buildMachineInstrsForTarget(linux(), &f.blocks[0], &f),
        Err(CompileError::Lower(LowerError::IllegalOnTarget(
            MachineMnemonic::Call("g".to_string()),
            Arch::X86_64
        )))
    );
}

#[test]
fn block_that_does_not_verify_is_not_compiled() {
    let mut registry = registry();
    let mut f = call_and_return();
    f.blocks[0].nodes.pop();
    assert_eq!(
        registry.buildMachineInstrsForTarget(linux(), &f.blocks[0], &f),
        Err(CompileError::Verify(VerifyError::TerminatorMisplaced))
    );
    assert_eq!(
        registry.buildMachineCodeForTarget(linux(), &f.blocks[0], &f),
        Err(CompileError::Verify(VerifyError::TerminatorMisplaced))
    );
    let f = function(
        "f",
        vec![],
        TypeMetadata::i64,
        vec![IrNode::Return { result: None }],
    );
    assert_eq!(
        registry.buildAsmForTarget(linux(), &f.blocks[0], &f),
        Err(CompileError::Verify(VerifyError::ReturnTypeMismatch(
            TypeMetadata::Void,
            TypeMetadata::i64
        )))
    );
}

#[test]
fn variable_without_a_place_is_undefined() {
    let mut registry = registry();
    let f = function(
        "f",
        vec![],
        TypeMetadata::i32,
        vec![IrNode::Return { result: Some(var("%9", TypeMetadata::i32)) }],
    );
    assert_eq!(
        registry.buildMachineInstrsForTarget(linux(), &f.blocks[0], &f),
        Err(CompileError::Verify(VerifyError::UseOfUndefined(var("%9", TypeMetadata::i32))))
    );
}

#[test]
fn frame_beyond_the_limit_is_out_of_stack() {
    let mut registry = registry();
    let nodes: Vec<IrNode> = (0..50001)
        .map(|i| IrNode::AssignConst {
            out: var(&format!("%{}", i), TypeMetadata::i32),
            constant: Type::new(TypeMetadata::i32, 0),
        })
        .collect();
    let f = function("f", vec![], TypeMetadata::Void, nodes);
    let mut block = Block::new("entry".to_string(), 0);
    block.push_ir(IrNode::Return { result: None });
    assert_eq!(
        registry.buildMachineInstrsForTarget(triple(Arch::Wasm64, OS::Unknown), &block, &f),
        Err(CompileError::Alloc(AllocError::OutOfStack(50000)))
    );
}

#[test]
fn block_other_than_the_entry_has_no_entry_code() {
    let mut registry = registry();
    let mut f = function(
        "f",
        vec![TypeMetadata::i32],
        TypeMetadata::i32,
        vec![IrNode::Br { target: "exit".to_string() }],
    );
    f.addBlock("exit".to_string());
    f.blocks[1].push_ir(IrNode::Return { result: Some(var("%0", TypeMetadata::i32)) });
    assert_eq!(
        registry.buildAsmForTarget(linux(), &f.blocks[0], &f).unwrap(),
        vec!["", "mov r10d, edi", "jmp 0", "link exit,-4"]
    );
    assert_eq!(
        registry.buildAsmForTarget(linux(), &f.blocks[1], &f).unwrap(),
        vec!["", "mov eax, r10d", "ret"]
    );
}

#[test]
fn places_of_a_function() {
    let f = function(
        "f",
        vec![TypeMetadata::i32, TypeMetadata::fp64],
        TypeMetadata::Void,
        vec![
            IrNode::Neg { src: var("%0", TypeMetadata::i32), out: var("%2", TypeMetadata::i32) },
            IrNode::Return { result: None },
        ],
    );
    let frame = frame_for(Arch::X86_64, &f).unwrap();
    assert_eq!(
        frame.place(&"%0".to_string()),
        Some(MachineOperand::Reg(Reg::x64(x64Reg::R10d)))
    );
    assert_eq!(frame.place(&"%1".to_string()), Some(MachineOperand::Stack(8)));
    assert_eq!(
        frame.place(&"%2".to_string()),
        Some(MachineOperand::Reg(Reg::x64(x64Reg::R11d)))
    );
    assert_eq!(frame.frame_size(), 8);
}

#[test]
fn machine_code_of_a_function_with_a_frame() {
    let mut registry = registry();
    let f = function(
        "f",
        vec![TypeMetadata::fp64],
        TypeMetadata::Void,
        vec![
            IrNode::Call {
                func: "foo".to_string(),
                ret: TypeMetadata::Void,
                args: vec![],
                out: var("%1", TypeMetadata::Void),
            },
            IrNode::Br { target: "next".to_string() },
        ],
    );
    let text = lines(&mut registry, linux(), &f);
    assert_eq!(
        text,
        vec![
            "",
            "push rbp",
            "mov rbp, rsp",
            "sub rbp, 8",
            "mov [rbp-8], rdi",
            "call 0",
            "link foo,-4",
            "jmp 0",
            "link next,-4"
        ]
    );
    let (bytes, links) = registry.buildMachineCodeForTarget(linux(), &f.blocks[0], &f).unwrap();
    assert_eq!(
        bytes,
        vec![
            0x55, 0x48, 0x89, 0xE5, 0x48, 0x81, 0xED, 0x08, 0x00, 0x00, 0x00, 0x48, 0x89, 0x7D,
            0xF8, 0xE8, 0, 0, 0, 0, 0xE9, 0, 0, 0, 0
        ]
    );
    assert_eq!(
        links,
        vec![
            Link {
                from: "f".to_string(),
                to: "foo".to_string(),
                at: 16,
                addend: -4,
                kind: LinkKind::PcRelative32,
                to_block: false,
            },
            Link {
                from: "f".to_string(),
                to: "next".to_string(),
                at: 21,
                addend: -4,
                kind: LinkKind::PcRelative32,
                to_block: true,
            },
        ]
    );
}

#[test]
fn encoded_length_is_the_sum_of_the_lengths() {
    let stream = vec![
        MCInstr::X64(X64MCInstr::with0(Mnemonic::StartOptimization)),
        MCInstr::X64(X64MCInstr::with1(Mnemonic::Push, Operand::Reg(x64Reg::Rbp))),
        MCInstr::X64(X64MCInstr::with1(Mnemonic::Call, Operand::Imm(0))),
        MCInstr::X64(X64MCInstr::with1(
            Mnemonic::Link,
            Operand::LinkDestination("a".to_string(), -4),
        )),
        MCInstr::X64(X64MCInstr::with2(
            Mnemonic::Mov,
            Operand::Reg(x64Reg::Rax),
            Operand::Imm(1),
        )),
        MCInstr::X64(X64MCInstr::with1(Mnemonic::Je, Operand::Imm(0))),
        MCInstr::X64(X64MCInstr::with1(
            Mnemonic::Link,
            Operand::BlockLinkDestination("b".to_string(), -4),
        )),
        MCInstr::X64(X64MCInstr::with0(Mnemonic::Ret)),
    ];
    let (bytes, links) = assemble(&stream, &"fun".to_string()).unwrap();
    let mut total = 0;
    let mut offsets = Vec::new();
    for instr in &stream {
        let (encoded, link) = instr.encode().unwrap();
        total += encoded.len();
        if link.is_some() {
            offsets.push(total - 4);
        }
    }
    assert_eq!(bytes.len(), total);
    assert_eq!(bytes.len(), 20);
    assert_eq!(links.len(), 2);
    assert_eq!(links.iter().map(|l| l.at).collect::<Vec<usize>>(), offsets);
    assert_eq!(offsets, vec![2, 15]);
    for link in &links {
        assert_eq!(link.from, "fun");
        assert!(link.at < bytes.len());
        assert!(link.at + 4 <= bytes.len());
        assert_eq!(&bytes[link.at..link.at + 4], &[0, 0, 0, 0]);
    }
    assert_eq!(bytes[links[0].at - 1], 0xE8);
    assert_eq!(&bytes[links[1].at - 2..links[1].at], &[0x0F, 0x84]);
    assert_eq!(bytes[links[1].at + 4], 0xC3);
}

#[test]
fn relocation_of_the_last_instruction_ends_with_the_stream() {
    let stream = vec![
        MCInstr::X64(X64MCInstr::with1(Mnemonic::Jmp, Operand::Imm(0))),
        MCInstr::X64(X64MCInstr::with1(
            Mnemonic::Link,
            Operand::LinkDestination("foo".to_string(), -4),
        )),
    ];
    let (bytes, links) = assemble(&stream, &"f".to_string()).unwrap();
    assert_eq!(bytes.len(), 5);
    assert_eq!(links[0].at, 1);
    assert_eq!(links[0].at + 4, bytes.len());
}

#[test]
fn relocation_record_without_a_field_is_refused() {
    let record = || {
        MCInstr::X64(X64MCInstr::with1(
            Mnemonic::Link,
            Operand::LinkDestination("foo".to_string(), -4),
        ))
    };
    let from = "f".to_string();
    let refused = Err(EncodeError::LinkWithoutField);
    assert_eq!(assemble(&vec![record()], &from), refused);
    assert_eq!(
        assemble(&vec![MCInstr::X64(X64MCInstr::with0(Mnemonic::Ret)), record()], &from),
        refused
    );
    let push = MCInstr::X64(X64MCInstr::with1(Mnemonic::Push, Operand::Reg(x64Reg::Rbp)));
    let mov = MCInstr::X64(X64MCInstr::with2(
        Mnemonic::Mov,
        Operand::Reg(x64Reg::Rax),
        Operand::Imm(1),
    ));
    assert_eq!(assemble(&vec![push, mov, record()], &from), refused);
    let call = || MCInstr::X64(X64MCInstr::with1(Mnemonic::Call, Operand::Imm(0)));
    assert_eq!(assemble(&vec![call(), record(), record()], &from), refused);
    let (bytes, links) = assemble(&vec![call(), record()], &from).unwrap();
    assert_eq!(bytes, vec![0xE8, 0, 0, 0, 0]);
    assert_eq!(links.len(), 1);
    assert_eq!(links[0].at, 1);
    let lea = MCInstr::X64(X64MCInstr::with2(
        Mnemonic::Lea,
        Operand::Reg(x64Reg::Rax),
        Operand::Mem(ygen::target::x64::instr::MemOp::rip_plus(1)),
    ));
    let (bytes, links) = assemble(&vec![call(), lea, record()], &from).unwrap();
    assert_eq!(bytes.len(), 12);
    assert_eq!(links[0].at, 8);
    assert_eq!(&bytes[8..], &[1, 0, 0, 0]);
}

#[test]
fn relocation_of_webassembly_lies_at_the_padded_number() {
    let stream = vec![
        MCInstr::Wasm(WasmMCInstr::bare(WasmMnemonic::Return)),
        MCInstr::Wasm(WasmMCInstr::labelled(None, WasmMnemonic::Call, "foo".to_string())),
        MCInstr::Wasm(WasmMCInstr::labelled(None, WasmMnemonic::Br, "exit".to_string())),
    ];
    assert_eq!(stream[0].field_len(), 0);
    assert_eq!(stream[1].field_len(), 5);
    let (bytes, links) = assemble(&stream, &"f".to_string()).unwrap();
    assert_eq!(
        bytes,
        vec![0x0F, 0x10, 0x80, 0x80, 0x80, 0x80, 0x00, 0x0C, 0x80, 0x80, 0x80, 0x80, 0x00]
    );
    assert_eq!(
        links,
        vec![
            Link {
                from: "f".to_string(),
                to: "foo".to_string(),
                at: 2,
                addend: 0,
                kind: LinkKind::Absolute32,
                to_block: false,
            },
            Link {
                from: "f".to_string(),
                to: "exit".to_string(),
                at: 8,
                addend: 0,
                kind: LinkKind::Absolute32,
                to_block: true,
            },
        ]
    );
}

#[test]
fn an_error_of_the_encoder_comes_before_a_missing_field() {
    let stream = vec![
        MCInstr::X64(X64MCInstr::with1(Mnemonic::Ret, Operand::Imm(0))),
        MCInstr::X64(X64MCInstr::with1(
            Mnemonic::Link,
            Operand::LinkDestination("foo".to_string(), -4),
        )),
    ];
    assert_eq!(assemble(&stream, &"f".to_string()), Err(EncodeError::OperandClassInvalid));
    let stream = vec![
        MCInstr::X64(X64MCInstr::with1(
            Mnemonic::Link,
            Operand::LinkDestination("foo".to_string(), -4),
        )),
        MCInstr::X64(X64MCInstr::with1(Mnemonic::Ret, Operand::Imm(0))),
    ];
    assert_eq!(assemble(&stream, &"f".to_string()), Err(EncodeError::LinkWithoutField));
}

#[test]
fn fields_of_instructions() {
    let call = X64MCInstr::with1(Mnemonic::Call, Operand::Imm(0));
    assert!(call.has_field());
    assert_eq!(MCInstr::X64(call).field_len(), 4);
    for m in [Mnemonic::Jmp, Mnemonic::Je, Mnemonic::Jne] {
        assert!(X64MCInstr::with1(m, Operand::Imm(7)).has_field());
        assert!(!X64MCInstr::with1(m, Operand::Reg(x64Reg::Rax)).has_field());
    }
    let lea = |mem| X64MCInstr::with2(Mnemonic::Lea, Operand::Reg(x64Reg::Rax), Operand::Mem(mem));
    assert!(lea(ygen::target::x64::instr::MemOp::rip_plus(0)).has_field());
    assert!(!lea(ygen::target::x64::instr::MemOp::base_minus(x64Reg::Rbp, 8)).has_field());
    let ret = X64MCInstr::with0(Mnemonic::Ret);
    assert!(!ret.has_field());
    assert_eq!(MCInstr::X64(ret).field_len(), 0);
    let record = X64MCInstr::with1(Mnemonic::Link, Operand::LinkDestination("a".to_string(), -4));
    assert!(!record.has_field());
    assert_eq!(MCInstr::X64(record).field_len(), 0);
}

#[test]
fn stream_with_an_instruction_without_encoding_fails() {
    let stream = vec![
        MCInstr::X64(X64MCInstr::with0(Mnemonic::Ret)),
        MCInstr::X64(X64MCInstr::with1(Mnemonic::Ret, Operand::Imm(0))),
        MCInstr::X64(X64MCInstr::with1(
            Mnemonic::Mov,
            Operand::Mem(ygen::target::x64::instr::MemOp::rip_plus(i64::MAX)),
        )),
    ];
    assert_eq!(assemble(&stream, &"f".to_string()), Err(EncodeError::OperandClassInvalid));
    assert_eq!(assemble(&vec![], &"f".to_string()), Ok((vec![], vec![])));
}

#[test]
fn webassembly_pipeline() {
    let mut registry = registry();
    let t = triple(Arch::Wasm64, OS::Unknown);
    let f = function(
        "f",
        vec![TypeMetadata::i32, TypeMetadata::i32],
        TypeMetadata::i32,
        vec![
            IrNode::Binary {
                op: BinaryOp::Add,
                lhs: var("%0", TypeMetadata::i32),
                rhs: var("%1", TypeMetadata::i32),
                out: var("%2", TypeMetadata::i32),
            },
            IrNode::Return { result: Some(var("%2", TypeMetadata::i32)) },
        ],
    );
    assert_eq!(
        lines(&mut registry, t, &f),
        vec!["local.get 0", "local.get 1", "i32.add", "local.tee 2", "return"]
    );
    assert_eq!(
        registry.buildMachineCodeForTarget(t, &f.blocks[0], &f),
        Ok((vec![0x20, 0x00, 0x20, 0x01, 0x6A, 0x22, 0x02, 0x0F], vec![]))
    );
}

#[test]
fn backend_states() {
    let mut descr = TargetBackendDescr::new(Arch::X86_64, CallConv::SystemV);
    assert_eq!(descr.state, BackendState::Idle);
    let f = call_and_return();
    descr.set_block(f.blocks[0].clone());
    assert_eq!(descr.state, BackendState::BlockSet);
    assert_eq!(descr.block, Some(f.blocks[0].clone()));
    let instrs = descr.build_instrs(&f).unwrap();
    assert_eq!(descr.state, BackendState::InstrsBuilt);
    let code = descr.lower(instrs).unwrap();
    assert_eq!(descr.state, BackendState::Lowered);
    assert_eq!(code.len(), 3);
    descr.set_encoded();
    assert_eq!(descr.state, BackendState::Encoded);
    descr.reset();
    assert_eq!(descr.state, BackendState::Idle);
    assert_eq!(descr.block, None);
}

#[test]
fn backend_of_an_architecture_without_lowering() {
    let mut descr = TargetBackendDescr::new(Arch::Riscv64, CallConv::SystemV);
    assert_eq!(descr.lower(vec![]), Ok(vec![]));
    let instr = MachineInstr {
        mnemonic: MachineMnemonic::Return,
        operands: vec![],
        out: None,
        meta: TypeMetadata::Void,
    };
    assert_eq!(
        descr.lower(vec![instr.clone(), instr]),
        Err(LowerError::IllegalOnTarget(MachineMnemonic::Return, Arch::Riscv64))
    );
    assert_eq!(descr.state, BackendState::Lowered);
}

#[test]
fn instruction_without_an_encoding_fails_the_build() {
    let mut registry = registry();
    let f = function(
        "f",
        vec![],
        TypeMetadata::Void,
        vec![
            IrNode::AssignConst {
                out: var("%0", TypeMetadata::fp64),
                constant: Type::new(TypeMetadata::fp64, 0x100_0000_0000),
            },
            IrNode::Return { result: None },
        ],
    );
    assert_eq!(
        lines(&mut registry, linux(), &f),
        vec![
            "",
            "push rbp",
            "mov rbp, rsp",
            "sub rbp, 8",
            "mov [rbp-8], 1099511627776",
            "pop rbp",
            "ret"
        ]
    );
    assert_eq!(
        registry.buildMachineCodeForTarget(linux(), &f.blocks[0], &f),
        Err(CompileError::Encode(EncodeError::OperandClassInvalid))
    );
    let descr = registry.getBasedOnTriple(linux()).unwrap();
    assert_eq!(descr.state, BackendState::Idle);
    assert_eq!(descr.block, None);
}

#[test]
fn relocations_lie_at_their_fields() {
    let mut registry = registry();
    let f = function(
        "f",
        vec![TypeMetadata::i32],
        TypeMetadata::Void,
        vec![
            IrNode::AdressLoad { out: var("%1", TypeMetadata::ptr), symbol: "table".to_string() },
            IrNode::Switch {
                value: var("%0", TypeMetadata::i32),
                cases: vec![SwitchCase::new(1, "B1".to_string()), SwitchCase::new(2, "B2".to_string())],
                default: "D".to_string(),
            },
        ],
    );
    for t in [linux(), triple(Arch::X86_64, OS::Win32)] {
        let (bytes, links) = registry.buildMachineCodeForTarget(t, &f.blocks[0], &f).unwrap();
        assert_eq!(links.len(), 4);
        for link in &links {
            assert!(link.at < bytes.len() && link.at + 4 <= bytes.len());
            assert_eq!(&bytes[link.at..link.at + 4], &[if link.to == "table" { 1 } else { 0 }, 0, 0, 0]);
            assert_eq!(link.addend, -4);
            assert_eq!(link.kind, LinkKind::PcRelative32);
            assert_eq!(link.from, "f");
        }
        assert_eq!(links.iter().map(|l| l.to.as_str()).collect::<Vec<_>>(), vec!["table", "B1", "B2", "D"]);
    }
    let (bytes, links) = registry
        .buildMachineCodeForTarget(triple(Arch::Wasm64, OS::Unknown), &f.blocks[0], &f)
        .unwrap();
    assert_eq!(links.len(), 4);
    for link in &links {
        assert!(1 <= link.at && link.at < bytes.len() && link.at + 5 <= bytes.len());
        assert_eq!(&bytes[link.at..link.at + 5], &[0x80, 0x80, 0x80, 0x80, 0x00]);
        assert_eq!(link.from, "f");
        assert_eq!(link.kind, LinkKind::Absolute32);
    }
}
