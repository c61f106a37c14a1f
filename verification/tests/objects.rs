use ygen::codegen::calling::MachineCallingConvention;
use ygen::codegen::machine::Reg;
use ygen::ir::func::Linkage;
use ygen::ir::types::TypeMetadata;
use ygen::obj::builder::{Decl, Declaration, FileFlags, ObjectBuilder};
use ygen::obj::dll::{DllBuilder, ObjError};
use ygen::obj::link::{Link, LinkKind};
use ygen::target::triple::{Arch, CallConv, Environment, ObjFormat, Triple, Vendor, OS};
use ygen::target::x64::reg::x64Reg;
use ygen::text::{push_decimal, push_signed_decimal, signed_decimal_text, ColorClass, ColorProfile};

fn triple(bin: ObjFormat) -> Triple {
    Triple { arch: Arch::X86_64, vendor: Vendor::Pc, os: OS::Linux, env: Environment::Gnu, bin }
}

#[test]
fn shared_library_of_elf() {
    let dll = DllBuilder::new(triple(ObjFormat::Elf)).unwrap();
    assert_eq!(dll.flags(), Some(FileFlags::Elf { os_abi: 0, abi_version: 0, e_flags: 3 }));
}

#[test]
fn shared_library_of_coff() {
    let dll = DllBuilder::new(triple(ObjFormat::Coff)).unwrap();
    assert_eq!(dll.flags(), Some(FileFlags::Coff { characteristics: 0x2000 }));
}

#[test]
fn shared_library_of_mach_o() {
    let dll = DllBuilder::new(triple(ObjFormat::MachO)).unwrap();
    assert_eq!(dll.flags(), Some(FileFlags::MachO { flags: 6 }));
}

#[test]
fn other_formats_have_no_shared_libraries() {
    assert_eq!(
        DllBuilder::new(triple(ObjFormat::Wasm)),
        Err(ObjError::UnsupportedFormat(ObjFormat::Wasm))
    );
    assert_eq!(
        DllBuilder::new(triple(ObjFormat::Unknown)),
        Err(ObjError::UnsupportedFormat(ObjFormat::Unknown))
    );
}

#[test]
fn new_library_is_empty() {
    let dll = DllBuilder::new(triple(ObjFormat::Elf)).unwrap();
    let object = dll.as_object();
    assert_eq!(object.triple, triple(ObjFormat::Elf));
    assert!(object.decls.is_empty());
    assert!(object.defines.is_empty());
    assert!(object.links.is_empty());
}

#[test]
fn declarations_are_kept_in_order() {
    let mut dll = DllBuilder::new(triple(ObjFormat::Elf)).unwrap();
    dll.decl(("main", Decl::Function, Linkage::Extern));
    dll.decl(("table", Decl::Data, Linkage::Internal));
    dll.decl(("main", Decl::Constant, Linkage::Weak));
    let object = dll.into_object();
    assert_eq!(
        object.decls,
        vec![
            Declaration { name: "main".to_string(), decl: Decl::Function, linkage: Linkage::Extern },
            Declaration { name: "table".to_string(), decl: Decl::Data, linkage: Linkage::Internal },
            Declaration { name: "main".to_string(), decl: Decl::Constant, linkage: Linkage::Weak },
        ]
    );
    assert_eq!(object.flags, Some(FileFlags::Elf { os_abi: 0, abi_version: 0, e_flags: 3 }));
}

#[test]
fn definitions_replace_earlier_ones_of_the_same_name() {
    let mut dll = DllBuilder::new(triple(ObjFormat::Coff)).unwrap();
    dll.define("main", vec![0xC3]);
    dll.define("table", vec![1, 2, 3]);
    dll.define("main", vec![0x90, 0xC3]);
    let object = dll.as_object();
    assert_eq!(object.defines.len(), 2);
    assert_eq!(object.find("main"), Some(0));
    assert_eq!(object.defines[0].data, vec![0x90, 0xC3]);
    assert_eq!(object.find("table"), Some(1));
    assert_eq!(object.defines[1].data, vec![1, 2, 3]);
    assert_eq!(object.find("other"), None);
    assert_eq!(object.flags, Some(FileFlags::Coff { characteristics: 0x2000 }));
}

#[test]
fn object_builder() {
    let mut object = ObjectBuilder::new(triple(ObjFormat::Elf));
    assert_eq!(object.flags, None);
    object.decl("f", Decl::Function, Linkage::Extern);
    object.define("f", vec![0xE9, 0, 0, 0, 0]);
    let link = Link {
        from: "f".to_string(),
        to: "g".to_string(),
        at: 1,
        addend: -4,
        kind: LinkKind::PcRelative32,
        to_block: false,
    };
    object.link(link.clone());
    assert_eq!(object.links, vec![link]);
    assert_eq!(object.decls.len(), 1);
    assert_eq!(object.defines.len(), 1);
}

#[test]
fn decimal_text() {
    assert_eq!(signed_decimal_text(0), "0");
    assert_eq!(signed_decimal_text(7), "7");
    assert_eq!(signed_decimal_text(10), "10");
    assert_eq!(signed_decimal_text(-1), "-1");
    assert_eq!(signed_decimal_text(1234567890), "1234567890");
    assert_eq!(signed_decimal_text(i64::MAX), "9223372036854775807");
    assert_eq!(signed_decimal_text(i64::MIN), "-9223372036854775808");
    let mut s = "x=".to_string();
    push_decimal(&mut s, 1000);
    push_signed_decimal(&mut s, -20);
    push_decimal(&mut s, u64::MAX);
    assert_eq!(s, "x=1000-2018446744073709551615");
}

#[test]
fn colored_text() {
    let profile = ColorProfile::default();
    assert_eq!(profile.markup("add", ColorClass::Instr), "\x1b[34madd\x1b[0m");
    assert_eq!(profile.markup("i32", ColorClass::Ty), "\x1b[36mi32\x1b[0m");
    assert_eq!(profile.markup("%0", ColorClass::Var), "\x1b[35m%0\x1b[0m");
    assert_eq!(profile.markup("42", ColorClass::Value), "\x1b[32m42\x1b[0m");
    assert_eq!(profile.markup("main", ColorClass::Name), "\x1b[33mmain\x1b[0m");
    assert_eq!(profile.markup("", ColorClass::Name), "\x1b[33m\x1b[0m");
    let other = ColorProfile { instr: 0, ty: 255, var: 9, value: 10, name: 100 };
    assert_eq!(other.markup("x", ColorClass::Instr), "\x1b[0mx\x1b[0m");
    assert_eq!(other.markup("x", ColorClass::Ty), "\x1b[255mx\x1b[0m");
}

#[test]
fn calling_conventions() {
    let sysv = MachineCallingConvention::new(CallConv::SystemV);
    let win = MachineCallingConvention::new(CallConv::WindowsFastCall);
    let wasm = MachineCallingConvention::new(CallConv::WasmBasicCAbi);
    assert_eq!(sysv.shadow(Arch::X86_64), 0);
    assert_eq!(win.shadow(Arch::X86_64), 32);
    assert_eq!(win.shadow(Arch::Wasm64), 0);
    assert_eq!(wasm.shadow(Arch::Wasm64), 0);
    assert!(win.reset_eax());
    assert!(!sysv.reset_eax());
    assert!(!wasm.reset_eax());
    assert_eq!(sysv.num_reg_args(Arch::X86_64), 6);
    assert_eq!(win.num_reg_args(Arch::X86_64), 4);
    assert_eq!(sysv.num_reg_args(Arch::Wasm64), 0);
    let regs = |v: Vec<x64Reg>| v.into_iter().map(Reg::x64).collect::<Vec<Reg>>();
    assert_eq!(
        sysv.args(Arch::X86_64, TypeMetadata::i64),
        regs(vec![x64Reg::Rdi, x64Reg::Rsi, x64Reg::Rdx, x64Reg::Rcx, x64Reg::R8, x64Reg::R9])
    );
    assert_eq!(
        sysv.args(Arch::X86_64, TypeMetadata::i32),
        regs(vec![x64Reg::Edi, x64Reg::Esi, x64Reg::Edx, x64Reg::Ecx, x64Reg::R8d, x64Reg::R9d])
    );
    assert_eq!(
        win.args(Arch::X86_64, TypeMetadata::u8),
        regs(vec![x64Reg::Cl, x64Reg::Dl, x64Reg::R8b, x64Reg::R9b])
    );
    assert_eq!(wasm.args(Arch::Wasm64, TypeMetadata::i32), vec![]);
    assert_eq!(sysv.args(Arch::Arm, TypeMetadata::i32), vec![]);
    assert_eq!(sysv.return_reg(Arch::X86_64, TypeMetadata::i16), Some(Reg::x64(x64Reg::Ax)));
    assert_eq!(win.return_reg(Arch::X86_64, TypeMetadata::ptr), Some(Reg::x64(x64Reg::Rax)));
    assert_eq!(wasm.return_reg(Arch::Wasm64, TypeMetadata::i32), None);
    assert_eq!(sysv.caller_saved(Arch::X86_64).len(), 9);
    assert_eq!(win.caller_saved(Arch::X86_64).len(), 7);
    assert_eq!(sysv.callee_saved(Arch::X86_64).len(), 7);
    assert_eq!(win.callee_saved(Arch::X86_64).len(), 9);
    assert!(sysv.caller_saved(Arch::X86_64).contains(&Reg::x64(x64Reg::Rdi)));
    assert!(win.callee_saved(Arch::X86_64).contains(&Reg::x64(x64Reg::Rdi)));
    for reg in sysv.caller_saved(Arch::X86_64) {
        assert!(!sysv.callee_saved(Arch::X86_64).contains(&reg));
    }
    assert!(sysv.caller_saved(Arch::Wasm32).is_empty());
}
