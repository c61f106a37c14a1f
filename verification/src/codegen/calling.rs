//! What a calling convention fixes on one architecture: where arguments and
//! results travel, which registers a call may destroy, and the shadow space.
use vstd::prelude::*;
use crate::codegen::machine::Reg;
use crate::ir::types::TypeMetadata;
use crate::target::triple::{Arch, CallConv};
use crate::target::x64::reg::x64Reg;

verus! {

/// A calling convention, asked about one architecture at a time.
#[derive(Debug, Clone, Copy, PartialEq, Eq, Structural)]
pub struct MachineCallingConvention {
    /// The calling convention.
    pub call_conv: CallConv,
}

/// The registers of a list, each narrowed to the alias that holds a value of
/// the type.
pub open spec fn regs_for(regs: Seq<x64Reg>, ty: TypeMetadata) -> Seq<Reg> {
    regs.map_values(|r: x64Reg| Reg::x64(r.alias_for(ty)))
}

impl MachineCallingConvention {
    /// The bytes of shadow space that a caller reserves: 32 with the
    /// convention of Windows on x86-64, none otherwise.
    pub open spec fn shadow_bytes(self, arch: Arch) -> int {
        if self.call_conv == CallConv::WindowsFastCall && arch == Arch::X86_64 {
            32
        } else {
            0
        }
    }

    /// The registers that carry the first integer arguments, in order.
    pub open spec fn arg_regs(self, arch: Arch) -> Seq<x64Reg> {
        if arch != Arch::X86_64 {
            seq![]
        } else {
            match self.call_conv {
                CallConv::WindowsFastCall => seq![x64Reg::Rcx, x64Reg::Rdx, x64Reg::R8, x64Reg::R9],
                CallConv::SystemV => seq![
                    x64Reg::Rdi,
                    x64Reg::Rsi,
                    x64Reg::Rdx,
                    x64Reg::Rcx,
                    x64Reg::R8,
                    x64Reg::R9,
                ],
                CallConv::WasmBasicCAbi => seq![],
            }
        }
    }

    /// The registers that a call may destroy.
    pub open spec fn caller_saved_regs(self, arch: Arch) -> Seq<x64Reg> {
        if arch != Arch::X86_64 {
            seq![]
        } else {
            match self.call_conv {
                CallConv::WindowsFastCall => seq![
                    x64Reg::Rax,
                    x64Reg::Rcx,
                    x64Reg::Rdx,
                    x64Reg::R8,
                    x64Reg::R9,
                    x64Reg::R10,
                    x64Reg::R11,
                ],
                CallConv::SystemV => seq![
                    x64Reg::Rax,
                    x64Reg::Rcx,
                    x64Reg::Rdx,
                    x64Reg::Rsi,
                    x64Reg::Rdi,
                    x64Reg::R8,
                    x64Reg::R9,
                    x64Reg::R10,
                    x64Reg::R11,
                ],
                CallConv::WasmBasicCAbi => seq![],
            }
        }
    }

    /// The registers that a function must hand back as it found them.
    pub open spec fn callee_saved_regs(self, arch: Arch) -> Seq<x64Reg> {
        if arch != Arch::X86_64 {
            seq![]
        } else {
            match self.call_conv {
                CallConv::WindowsFastCall => seq![
                    x64Reg::Rbx,
                    x64Reg::Rbp,
                    x64Reg::Rdi,
                    x64Reg::Rsi,
                    x64Reg::Rsp,
                    x64Reg::R12,
                    x64Reg::R13,
                    x64Reg::R14,
                    x64Reg::R15,
                ],
                CallConv::SystemV => seq![
                    x64Reg::Rbx,
                    x64Reg::Rbp,
                    x64Reg::Rsp,
                    x64Reg::R12,
                    x64Reg::R13,
                    x64Reg::R14,
                    x64Reg::R15,
                ],
                CallConv::WasmBasicCAbi => seq![],
            }
        }
    }

    /// A convention asked through this type.
    pub fn new(call_conv: CallConv) -> (r: Self)
        ensures
            r.call_conv == call_conv,
    {
        MachineCallingConvention { call_conv }
    }

    /// Returns the shadow space of the calling convention in bytes
    pub fn shadow(&self, arch: Arch) -> (r: i64)
        ensures
            r == self.shadow_bytes(arch),
    {
        match (self.call_conv, arch) {
            (CallConv::WindowsFastCall, Arch::X86_64) => 32,
            _ => 0,
        }
    }

    /// Returns if `eax` is cleared in front of every call
    pub fn reset_eax(&self) -> (r: bool)
        ensures
            r == self.call_conv.resets_eax(),
    {
        self.call_conv.reset_eax()
    }

    /// Returns the register in which a value of the type is returned
    pub fn return_reg(&self, arch: Arch, ty: TypeMetadata) -> (r: Option<Reg>)
        ensures
            r == if arch == Arch::X86_64 {
                Some(Reg::x64(x64Reg::Rax.alias_for(ty)))
            } else {
                None
            },
    {
        match arch {
            Arch::X86_64 => Some(Reg::x64(x64Reg::Rax.sub_ty(ty))),
            _ => None,
        }
    }

    /// Returns the registers that carry the first arguments of the type
    pub fn args(&self, arch: Arch, ty: TypeMetadata) -> (r: Vec<Reg>)
        ensures
            r@ == regs_for(self.arg_regs(arch), ty),
    {
        let mut out: Vec<Reg> = Vec::new();
        match (arch, self.call_conv) {
            (Arch::X86_64, CallConv::WindowsFastCall) => {
                out.push(Reg::x64(x64Reg::Rcx.sub_ty(ty)));
                out.push(Reg::x64(x64Reg::Rdx.sub_ty(ty)));
                out.push(Reg::x64(x64Reg::R8.sub_ty(ty)));
                out.push(Reg::x64(x64Reg::R9.sub_ty(ty)));
            },
            (Arch::X86_64, CallConv::SystemV) => {
                out.push(Reg::x64(x64Reg::Rdi.sub_ty(ty)));
                out.push(Reg::x64(x64Reg::Rsi.sub_ty(ty)));
                out.push(Reg::x64(x64Reg::Rdx.sub_ty(ty)));
                out.push(Reg::x64(x64Reg::Rcx.sub_ty(ty)));
                out.push(Reg::x64(x64Reg::R8.sub_ty(ty)));
                out.push(Reg::x64(x64Reg::R9.sub_ty(ty)));
            },
            _ => {},
        }
        assert(out@ =~= regs_for(self.arg_regs(arch), ty));
        out
    }

    /// Returns how many arguments travel in registers
    pub fn num_reg_args(&self, arch: Arch) -> (r: usize)
        ensures
            r == self.arg_regs(arch).len(),
    {
        match (arch, self.call_conv) {
            (Arch::X86_64, CallConv::WindowsFastCall) => 4,
            (Arch::X86_64, CallConv::SystemV) => 6,
            _ => 0,
        }
    }

    /// Returns the registers that a call may destroy
    pub fn caller_saved(&self, arch: Arch) -> (r: Vec<Reg>)
        ensures
            r@ == regs_for(self.caller_saved_regs(arch), TypeMetadata::i64),
    {
        let mut out: Vec<Reg> = Vec::new();
        match (arch, self.call_conv) {
            (Arch::X86_64, CallConv::WindowsFastCall) => {
                out.push(Reg::x64(x64Reg::Rax));
                out.push(Reg::x64(x64Reg::Rcx));
                out.push(Reg::x64(x64Reg::Rdx));
                out.push(Reg::x64(x64Reg::R8));
                out.push(Reg::x64(x64Reg::R9));
                out.push(Reg::x64(x64Reg::R10));
                out.push(Reg::x64(x64Reg::R11));
            },
            (Arch::X86_64, CallConv::SystemV) => {
                out.push(Reg::x64(x64Reg::Rax));
                out.push(Reg::x64(x64Reg::Rcx));
                out.push(Reg::x64(x64Reg::Rdx));
                out.push(Reg::x64(x64Reg::Rsi));
                out.push(Reg::x64(x64Reg::Rdi));
                out.push(Reg::x64(x64Reg::R8));
                out.push(Reg::x64(x64Reg::R9));
                out.push(Reg::x64(x64Reg::R10));
                out.push(Reg::x64(x64Reg::R11));
            },
            _ => {},
        }
        assert(out@ =~= regs_for(self.caller_saved_regs(arch), TypeMetadata::i64));
        out
    }

    /// Returns the registers that a function must hand back as it found them
    pub fn callee_saved(&self, arch: Arch) -> (r: Vec<Reg>)
        ensures
            r@ == regs_for(self.callee_saved_regs(arch), TypeMetadata::i64),
    {
        let mut out: Vec<Reg> = Vec::new();
        match (arch, self.call_conv) {
            (Arch::X86_64, CallConv::WindowsFastCall) => {
                out.push(Reg::x64(x64Reg::Rbx));
                out.push(Reg::x64(x64Reg::Rbp));
                out.push(Reg::x64(x64Reg::Rdi));
                out.push(Reg::x64(x64Reg::Rsi));
                out.push(Reg::x64(x64Reg::Rsp));
                out.push(Reg::x64(x64Reg::R12));
                out.push(Reg::x64(x64Reg::R13));
                out.push(Reg::x64(x64Reg::R14));
                out.push(Reg::x64(x64Reg::R15));
            },
            (Arch::X86_64, CallConv::SystemV) => {
                out.push(Reg::x64(x64Reg::Rbx));
                out.push(Reg::x64(x64Reg::Rbp));
                out.push(Reg::x64(x64Reg::Rsp));
                out.push(Reg::x64(x64Reg::R12));
                out.push(Reg::x64(x64Reg::R13));
                out.push(Reg::x64(x64Reg::R14));
                out.push(Reg::x64(x64Reg::R15));
            },
            _ => {},
        }
        assert(out@ =~= regs_for(self.callee_saved_regs(arch), TypeMetadata::i64));
        out
    }
}

} // verus!
