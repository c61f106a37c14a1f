use ygen::codegen::machine::{
    CmpMode, MachineInstr, MachineMnemonic, MachineOperand, Reg, SwitchCase,
};
use ygen::codegen::mc::MCInstr;
use ygen::ir::types::TypeMetadata;
use ygen::obj::link::{Link, LinkKind};
use ygen::target::triple::{Arch, CallConv};
use ygen::target::wasm::encode::{push_sleb, push_uleb};
use ygen::target::wasm::instr::{prefix_for, WasmMCInstr, WasmMnemonic, WasmOperand, WasmPrefix};
use ygen::target::wasm::lower::{wasm_lower, wasm_lower_instr, wasm_lower_stream};
use ygen::codegen::error::EncodeError;
use ygen::codegen::error::LowerError;
use ygen::target::x64::optimizer::Optimize;
use ygen::target::x64::reg::x64Reg;

fn instr(
    mnemonic: MachineMnemonic,
    operands: Vec<MachineOperand>,
    out: Option<MachineOperand>,
    meta: TypeMetadata,
) -> MachineInstr {
    MachineInstr { mnemonic, operands, out, meta }
}

fn local(n: i64) -> MachineOperand {
    MachineOperand::Stack(n)
}

fn lowered(i: MachineInstr) -> Vec<String> {
    let mut sink = Vec::new();
    wasm_lower_instr(&mut sink, i).unwrap();
    sink.iter().map(|x| x.to_string()).collect()
}

fn refused(i: MachineInstr) -> LowerError {
    let mut sink = vec![WasmMCInstr::bare(WasmMnemonic::Return)];
    let e = wasm_lower_instr(&mut sink, i).unwrap_err();
    assert_eq!(sink, vec![WasmMCInstr::bare(WasmMnemonic::Return)]);
    e
}

#[test]
fn value_types() {
    assert_eq!(prefix_for(TypeMetadata::u8), WasmPrefix::i32);
    assert_eq!(prefix_for(TypeMetadata::i32), WasmPrefix::i32);
    assert_eq!(prefix_for(TypeMetadata::Void), WasmPrefix::i32);
    assert_eq!(prefix_for(TypeMetadata::i64), WasmPrefix::i64);
    assert_eq!(prefix_for(TypeMetadata::ptr), WasmPrefix::i64);
    assert_eq!(prefix_for(TypeMetadata::fp32), WasmPrefix::fp32);
    assert_eq!(prefix_for(TypeMetadata::fp64), WasmPrefix::fp64);
}

#[test]
fn arithmetic_pushes_operates_and_pops() {
    assert_eq!(
        lowered(instr(MachineMnemonic::Add, vec![local(0), local(1)], Some(local(2)), TypeMetadata::i32)),
        vec!["local.get 0", "local.get 1", "i32.add", "local.set 2"]
    );
    assert_eq!(
        lowered(instr(
            MachineMnemonic::Div,
            vec![local(0), MachineOperand::Imm(3)],
            Some(local(2)),
            TypeMetadata::u64
        )),
        vec!["local.get 0", "i64.const 3", "i64.div_u", "local.set 2"]
    );
    assert_eq!(
        lowered(instr(MachineMnemonic::Shr, vec![local(0), local(1)], Some(local(0)), TypeMetadata::i8)),
        vec!["local.get 0", "local.get 1", "i32.shr_s", "local.set 0"]
    );
    assert_eq!(
        lowered(instr(MachineMnemonic::FMul, vec![local(0), local(1)], Some(local(2)), TypeMetadata::fp64)),
        vec!["local.get 0", "local.get 1", "fp64.mul", "local.set 2"]
    );
    assert_eq!(
        lowered(instr(MachineMnemonic::Rem, vec![local(0), local(1)], Some(local(2)), TypeMetadata::i32)),
        vec!["local.get 0", "local.get 1", "i32.rem_s", "local.set 2"]
    );
}

#[test]
fn moves() {
    for m in [MachineMnemonic::Move, MachineMnemonic::FMove, MachineMnemonic::AdrMove] {
        assert_eq!(
            lowered(instr(m, vec![local(3)], Some(local(4)), TypeMetadata::i64)),
            vec!["local.get 3", "local.set 4"]
        );
    }
    assert_eq!(
        lowered(instr(
            MachineMnemonic::Move,
            vec![MachineOperand::Imm(-7)],
            Some(local(4)),
            TypeMetadata::i64
        )),
        vec!["i64.const -7", "local.set 4"]
    );
}

#[test]
fn negation() {
    assert_eq!(
        lowered(instr(MachineMnemonic::Neg, vec![local(1)], Some(local(2)), TypeMetadata::i32)),
        vec!["i32.const 0", "local.get 1", "i32.sub", "local.set 2"]
    );
    assert_eq!(
        lowered(instr(MachineMnemonic::FNeg, vec![local(1)], Some(local(2)), TypeMetadata::fp32)),
        vec!["local.get 1", "fp32.neg", "local.set 2"]
    );
}

#[test]
fn comparisons() {
    let modes = [
        (CmpMode::Eq, "i32.eq"),
        (CmpMode::NotEq, "i32.ne"),
        (CmpMode::GT, "i32.gt_s"),
        (CmpMode::LT, "i32.lt_s"),
        (CmpMode::GE, "i32.ge_s"),
        (CmpMode::LE, "i32.le_s"),
    ];
    for (mode, text) in modes {
        assert_eq!(
            lowered(instr(
                MachineMnemonic::Compare(mode),
                vec![local(0), local(1)],
                Some(local(2)),
                TypeMetadata::i32
            )),
            vec!["local.get 0", "local.get 1", text, "local.set 2"]
        );
    }
    assert_eq!(
        lowered(instr(
            MachineMnemonic::FCompare(CmpMode::LT),
            vec![local(0), local(1)],
            Some(local(2)),
            TypeMetadata::fp64
        )),
        vec!["local.get 0", "local.get 1", "fp64.lt", "local.set 2"]
    );
    assert_eq!(
        lowered(instr(
            MachineMnemonic::Compare(CmpMode::GE),
            vec![local(0), local(1)],
            Some(local(2)),
            TypeMetadata::u64
        )),
        vec!["local.get 0", "local.get 1", "i64.ge_u", "local.set 2"]
    );
}

#[test]
fn conversions() {
    assert_eq!(
        lowered(instr(
            MachineMnemonic::Zext(TypeMetadata::u32),
            vec![local(0)],
            Some(local(1)),
            TypeMetadata::u64
        )),
        vec!["local.get 0", "i64.convert_i32", "local.set 1"]
    );
    assert_eq!(
        lowered(instr(
            MachineMnemonic::Downcast(TypeMetadata::i64),
            vec![local(0)],
            Some(local(1)),
            TypeMetadata::i16
        )),
        vec!["local.get 0", "i32.convert_i64", "local.set 1"]
    );
    assert_eq!(
        lowered(instr(
            MachineMnemonic::Zext(TypeMetadata::u8),
            vec![local(0)],
            Some(local(1)),
            TypeMetadata::u32
        )),
        vec!["local.get 0", "local.set 1"]
    );
    assert_eq!(
        lowered(instr(
            MachineMnemonic::FCast(TypeMetadata::i32),
            vec![MachineOperand::Imm(2)],
            Some(local(1)),
            TypeMetadata::fp64
        )),
        vec!["i32.const 2", "fp64.convert_i32", "local.set 1"]
    );
}

#[test]
fn conditional_moves() {
    assert_eq!(
        lowered(instr(
            MachineMnemonic::MovIfZero,
            vec![local(0), local(1)],
            Some(local(2)),
            TypeMetadata::i32
        )),
        vec!["local.get 2", "local.get 1", "local.get 0", "select", "local.set 2"]
    );
    assert_eq!(
        lowered(instr(
            MachineMnemonic::MovIfNotZero,
            vec![local(0), local(1)],
            Some(local(2)),
            TypeMetadata::i32
        )),
        vec!["local.get 1", "local.get 2", "local.get 0", "select", "local.set 2"]
    );
}

#[test]
fn memory() {
    assert_eq!(
        lowered(instr(
            MachineMnemonic::Store,
            vec![local(0), MachineOperand::Imm(42)],
            None,
            TypeMetadata::i32
        )),
        vec!["local.get 0", "i32.const 42", "i32.store"]
    );
    assert_eq!(
        lowered(instr(MachineMnemonic::Load, vec![local(0)], Some(local(1)), TypeMetadata::i64)),
        vec!["local.get 0", "i64.load", "local.set 1"]
    );
    assert_eq!(
        lowered(instr(MachineMnemonic::StackAlloc, vec![local(16)], Some(local(1)), TypeMetadata::ptr)),
        vec!["i64.const 16", "local.set 1"]
    );
    assert_eq!(
        lowered(instr(
            MachineMnemonic::AdressLoad("table".to_string()),
            vec![],
            Some(local(1)),
            TypeMetadata::ptr
        )),
        vec!["i64.const table", "local.set 1"]
    );
}

#[test]
fn control_flow() {
    assert_eq!(
        lowered(instr(MachineMnemonic::Br("exit".to_string()), vec![], None, TypeMetadata::Void)),
        vec!["br exit"]
    );
    assert_eq!(
        lowered(instr(
            MachineMnemonic::BrCond("then".to_string(), "else".to_string()),
            vec![local(0)],
            None,
            TypeMetadata::i32
        )),
        vec!["local.get 0", "br_if then", "br else"]
    );
    assert_eq!(
        lowered(instr(MachineMnemonic::Return, vec![], None, TypeMetadata::Void)),
        vec!["return"]
    );
    assert_eq!(
        lowered(instr(MachineMnemonic::Return, vec![local(2)], None, TypeMetadata::i32)),
        vec!["local.get 2", "return"]
    );
    assert_eq!(
        lowered(instr(
            MachineMnemonic::Switch(vec![
                SwitchCase::new(1, "B1".to_string()),
                SwitchCase::new(2, "B2".to_string()),
            ]),
            vec![local(0)],
            None,
            TypeMetadata::i32
        )),
        vec![
            "local.get 0",
            "i32.const 1",
            "i32.eq",
            "br_if B1",
            "local.get 0",
            "i32.const 2",
            "i32.eq",
            "br_if B2"
        ]
    );
}

#[test]
fn calls() {
    assert_eq!(
        lowered(instr(
            MachineMnemonic::Call("foo".to_string()),
            vec![local(0), MachineOperand::Imm(5)],
            Some(local(3)),
            TypeMetadata::i32
        )),
        vec!["local.get 0", "i32.const 5", "call foo", "local.set 3"]
    );
    assert_eq!(
        lowered(instr(MachineMnemonic::Call("foo".to_string()), vec![], None, TypeMetadata::Void)),
        vec!["call foo"]
    );
}

#[test]
fn the_frame_belongs_to_the_host() {
    for m in [
        MachineMnemonic::Prolog,
        MachineMnemonic::Epilog,
        MachineMnemonic::PushCleanup,
        MachineMnemonic::CallStackPrepare,
        MachineMnemonic::CallStackRedo,
    ] {
        assert_eq!(
            lowered(instr(m, vec![MachineOperand::Imm(8)], None, TypeMetadata::Void)),
            Vec::<String>::new()
        );
    }
}

#[test]
fn push_is_illegal() {
    assert_eq!(
        refused(instr(MachineMnemonic::Push, vec![local(0)], None, TypeMetadata::i64)),
        LowerError::IllegalOnTarget(MachineMnemonic::Push, Arch::Wasm64)
    );
    assert_eq!(
        wasm_lower(
            CallConv::WasmBasicCAbi,
            vec![
                instr(MachineMnemonic::Return, vec![], None, TypeMetadata::Void),
                instr(MachineMnemonic::Push, vec![], None, TypeMetadata::Void),
            ]
        ),
        Err(LowerError::IllegalOnTarget(MachineMnemonic::Push, Arch::Wasm64))
    );
}

#[test]
fn registers_cannot_be_represented() {
    let reg = MachineOperand::Reg(Reg::x64(x64Reg::Rax));
    assert_eq!(
        refused(instr(MachineMnemonic::Add, vec![reg, local(1)], Some(local(2)), TypeMetadata::i32)),
        LowerError::BadOperands(MachineMnemonic::Add)
    );
    assert_eq!(
        refused(instr(MachineMnemonic::Add, vec![local(0), local(1)], Some(reg), TypeMetadata::i32)),
        LowerError::BadOperands(MachineMnemonic::Add)
    );
    assert_eq!(
        refused(instr(
            MachineMnemonic::Move,
            vec![local(0)],
            Some(MachineOperand::Imm(1)),
            TypeMetadata::i32
        )),
        LowerError::BadOperands(MachineMnemonic::Move)
    );
    assert_eq!(
        refused(instr(MachineMnemonic::Call("f".to_string()), vec![local(0), reg], None, TypeMetadata::i32)),
        LowerError::BadOperands(MachineMnemonic::Call("f".to_string()))
    );
    assert_eq!(
        refused(instr(MachineMnemonic::Neg, vec![], Some(local(0)), TypeMetadata::i32)),
        LowerError::BadOperands(MachineMnemonic::Neg)
    );
    assert_eq!(
        refused(instr(MachineMnemonic::MovIfZero, vec![local(0), local(1)], None, TypeMetadata::i32)),
        LowerError::BadOperands(MachineMnemonic::MovIfZero)
    );
    assert_eq!(
        refused(instr(MachineMnemonic::Switch(vec![]), vec![reg], None, TypeMetadata::i32)),
        LowerError::BadOperands(MachineMnemonic::Switch(vec![]))
    );
}

#[test]
fn stream_is_optimized() {
    let code = wasm_lower_stream(vec![
        instr(MachineMnemonic::Move, vec![local(0)], Some(local(1)), TypeMetadata::i32),
        instr(
            MachineMnemonic::Add,
            vec![local(1), MachineOperand::Imm(5)],
            Some(local(2)),
            TypeMetadata::i32,
        ),
    ])
    .unwrap();
    let text: Vec<String> = code.iter().map(|x| x.to_string()).collect();
    assert_eq!(text, vec!["local.get 0", "local.tee 1", "i32.const 5", "i32.add", "local.set 2"]);
}

#[test]
fn set_and_get_of_one_local_become_tee() {
    let mut input = vec![
        WasmMCInstr::local(WasmMnemonic::Put, 1),
        WasmMCInstr::local(WasmMnemonic::Get, 1),
        WasmMCInstr::local(WasmMnemonic::Get, 1),
        WasmMCInstr::local(WasmMnemonic::Put, 2),
        WasmMCInstr::local(WasmMnemonic::Get, 3),
        WasmMCInstr::local(WasmMnemonic::Get, 2),
    ];
    let before = input.clone();
    let out = input.optimize();
    assert_eq!(input, before);
    assert_eq!(
        out,
        vec![
            WasmMCInstr::local(WasmMnemonic::Tee, 1),
            WasmMCInstr::local(WasmMnemonic::Get, 1),
            WasmMCInstr::local(WasmMnemonic::Put, 2),
            WasmMCInstr::local(WasmMnemonic::Get, 3),
            WasmMCInstr::local(WasmMnemonic::Get, 2),
        ]
    );
    assert!(out.len() <= before.len());
}

#[test]
fn unsigned_leb128() {
    let uleb = |n: u64| {
        let mut out = vec![];
        push_uleb(&mut out, n);
        out
    };
    assert_eq!(uleb(0), vec![0x00]);
    assert_eq!(uleb(127), vec![0x7F]);
    assert_eq!(uleb(128), vec![0x80, 0x01]);
    assert_eq!(uleb(300), vec![0xAC, 0x02]);
    assert_eq!(uleb(624485), vec![0xE5, 0x8E, 0x26]);
    assert_eq!(uleb(u64::MAX), vec![0xFF, 0xFF, 0xFF, 0xFF, 0xFF, 0xFF, 0xFF, 0xFF, 0xFF, 0x01]);
}

#[test]
fn signed_leb128() {
    let sleb = |v: i64| {
        let mut out = vec![];
        push_sleb(&mut out, v);
        out
    };
    assert_eq!(sleb(0), vec![0x00]);
    assert_eq!(sleb(63), vec![0x3F]);
    assert_eq!(sleb(64), vec![0xC0, 0x00]);
    assert_eq!(sleb(-1), vec![0x7F]);
    assert_eq!(sleb(-64), vec![0x40]);
    assert_eq!(sleb(-65), vec![0xBF, 0x7F]);
    assert_eq!(sleb(-123456), vec![0xC0, 0xBB, 0x78]);
    assert_eq!(sleb(i64::MAX), vec![0xFF, 0xFF, 0xFF, 0xFF, 0xFF, 0xFF, 0xFF, 0xFF, 0xFF, 0x00]);
    assert_eq!(sleb(i64::MIN), vec![0x80, 0x80, 0x80, 0x80, 0x80, 0x80, 0x80, 0x80, 0x80, 0x7F]);
}

fn bytes(i: WasmMCInstr) -> Vec<u8> {
    let (bytes, link) = i.encode().unwrap();
    assert_eq!(link, None);
    bytes
}

#[test]
fn encoded_locals_and_constants() {
    assert_eq!(bytes(WasmMCInstr::local(WasmMnemonic::Get, 3)), vec![0x20, 0x03]);
    assert_eq!(bytes(WasmMCInstr::local(WasmMnemonic::Put, 300)), vec![0x21, 0xAC, 0x02]);
    assert_eq!(bytes(WasmMCInstr::local(WasmMnemonic::Tee, 0)), vec![0x22, 0x00]);
    assert_eq!(bytes(WasmMCInstr::constant(WasmPrefix::i32, -1)), vec![0x41, 0x7F]);
    assert_eq!(bytes(WasmMCInstr::constant(WasmPrefix::i32, 64)), vec![0x41, 0xC0, 0x00]);
    assert_eq!(bytes(WasmMCInstr::constant(WasmPrefix::i64, -65)), vec![0x42, 0xBF, 0x7F]);
    assert_eq!(
        bytes(WasmMCInstr::constant(WasmPrefix::i64, 0x1_0000_0000)),
        vec![0x42, 0x80, 0x80, 0x80, 0x80, 0x10]
    );
}

#[test]
fn encoded_operations() {
    let op = |t, m, signed| bytes(WasmMCInstr::typed(t, m, signed));
    assert_eq!(op(WasmPrefix::i32, WasmMnemonic::Add, false), vec![0x6A]);
    assert_eq!(op(WasmPrefix::i64, WasmMnemonic::Add, true), vec![0x7C]);
    assert_eq!(op(WasmPrefix::i32, WasmMnemonic::Div, true), vec![0x6D]);
    assert_eq!(op(WasmPrefix::i32, WasmMnemonic::Div, false), vec![0x6E]);
    assert_eq!(op(WasmPrefix::i64, WasmMnemonic::Shr, false), vec![0x88]);
    assert_eq!(op(WasmPrefix::i32, WasmMnemonic::Eq, false), vec![0x46]);
    assert_eq!(op(WasmPrefix::i64, WasmMnemonic::Lt, true), vec![0x53]);
    assert_eq!(op(WasmPrefix::i64, WasmMnemonic::Ge, false), vec![0x5A]);
    assert_eq!(op(WasmPrefix::fp32, WasmMnemonic::Neg, false), vec![0x8C]);
    assert_eq!(op(WasmPrefix::fp64, WasmMnemonic::Neg, false), vec![0x9A]);
    assert_eq!(op(WasmPrefix::fp64, WasmMnemonic::Add, false), vec![0xA0]);
    assert_eq!(op(WasmPrefix::fp32, WasmMnemonic::Div, false), vec![0x95]);
    assert_eq!(op(WasmPrefix::fp32, WasmMnemonic::Eq, false), vec![0x5B]);
    assert_eq!(op(WasmPrefix::fp64, WasmMnemonic::Ge, false), vec![0x66]);
    assert_eq!(op(WasmPrefix::i32, WasmMnemonic::Load, false), vec![0x28, 0x02, 0x00]);
    assert_eq!(op(WasmPrefix::i64, WasmMnemonic::Load, false), vec![0x29, 0x03, 0x00]);
    assert_eq!(op(WasmPrefix::i32, WasmMnemonic::Store, false), vec![0x36, 0x02, 0x00]);
    assert_eq!(op(WasmPrefix::fp64, WasmMnemonic::Store, false), vec![0x39, 0x03, 0x00]);
    assert_eq!(op(WasmPrefix::i64, WasmMnemonic::Convert(WasmPrefix::i32), true), vec![0xAC]);
    assert_eq!(op(WasmPrefix::i64, WasmMnemonic::Convert(WasmPrefix::i32), false), vec![0xAD]);
    assert_eq!(op(WasmPrefix::i32, WasmMnemonic::Convert(WasmPrefix::i64), true), vec![0xA7]);
    assert_eq!(op(WasmPrefix::fp64, WasmMnemonic::Convert(WasmPrefix::fp32), true), vec![0xBB]);
    assert_eq!(op(WasmPrefix::fp32, WasmMnemonic::Convert(WasmPrefix::i64), false), vec![0xB5]);
    assert_eq!(bytes(WasmMCInstr::bare(WasmMnemonic::Select)), vec![0x1B]);
    assert_eq!(bytes(WasmMCInstr::bare(WasmMnemonic::Return)), vec![0x0F]);
}

#[test]
fn names_are_encoded_as_relocations() {
    let call = WasmMCInstr::labelled(None, WasmMnemonic::Call, "foo".to_string());
    assert_eq!(
        call.encode(),
        Ok((
            vec![0x10, 0x80, 0x80, 0x80, 0x80, 0x00],
            Some(Link {
                from: String::new(),
                to: "foo".to_string(),
                at: 0,
                addend: 0,
                kind: LinkKind::Absolute32,
                to_block: false,
            })
        ))
    );
    let (bytes, link) =
        WasmMCInstr::labelled(None, WasmMnemonic::BrIf, "exit".to_string()).encode().unwrap();
    assert_eq!(bytes, vec![0x0D, 0x80, 0x80, 0x80, 0x80, 0x00]);
    assert!(link.unwrap().to_block);
    let (bytes, link) =
        WasmMCInstr::labelled(None, WasmMnemonic::Br, "exit".to_string()).encode().unwrap();
    assert_eq!(bytes[0], 0x0C);
    assert!(link.unwrap().to_block);
    let (bytes, link) =
        WasmMCInstr::labelled(Some(WasmPrefix::i64), WasmMnemonic::Const, "table".to_string())
            .encode()
            .unwrap();
    assert_eq!(bytes, vec![0x42, 0x80, 0x80, 0x80, 0x80, 0x00]);
    assert!(!link.unwrap().to_block);
}

#[test]
fn instructions_without_an_encoding() {
    let invalid = Err(EncodeError::OperandClassInvalid);
    assert_eq!(WasmMCInstr::local(WasmMnemonic::Get, -1).encode(), invalid);
    assert_eq!(WasmMCInstr::local(WasmMnemonic::Add, 1).encode(), invalid);
    assert_eq!(WasmMCInstr::constant(WasmPrefix::i32, 0x1_0000_0000).encode(), invalid);
    assert_eq!(WasmMCInstr::constant(WasmPrefix::fp64, 1).encode(), invalid);
    assert_eq!(WasmMCInstr::typed(WasmPrefix::i32, WasmMnemonic::Neg, false).encode(), invalid);
    assert_eq!(WasmMCInstr::typed(WasmPrefix::fp32, WasmMnemonic::And, false).encode(), invalid);
    assert_eq!(WasmMCInstr::typed(WasmPrefix::Local, WasmMnemonic::Add, false).encode(), invalid);
    assert_eq!(
        WasmMCInstr::typed(WasmPrefix::i32, WasmMnemonic::Convert(WasmPrefix::i32), false).encode(),
        invalid
    );
    assert_eq!(WasmMCInstr::bare(WasmMnemonic::Add).encode(), invalid);
    assert_eq!(WasmMCInstr::labelled(None, WasmMnemonic::Add, "x".to_string()).encode(), invalid);
    assert_eq!(
        WasmMCInstr {
            prefix: None,
            mnemonic: WasmMnemonic::Return,
            op1: Some(WasmOperand::Const(1)),
            signed: false
        }
        .encode(),
        invalid
    );
}

#[test]
fn lowered_wasm_stream_as_machine_code_instructions() {
    let code = wasm_lower(
        CallConv::WasmBasicCAbi,
        vec![instr(MachineMnemonic::Return, vec![], None, TypeMetadata::Void)],
    )
    .unwrap();
    assert_eq!(code, vec![MCInstr::Wasm(WasmMCInstr::bare(WasmMnemonic::Return))]);
    assert_eq!(code[0].to_string(), "return");
    assert_eq!(code[0].encode(), Ok((vec![0x0F], None)));
}
