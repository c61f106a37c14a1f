//! Target triples and the calling conventions they select.
use vstd::prelude::*;
use crate::target::registry::RegistryError;

verus! {

/// The architecture of a target.
#[derive(Debug, Clone, Copy, PartialEq, Eq, Hash, Structural)]
pub enum Arch {
    Unknown,
    Arm,
    Aarch64,
    Riscv32,
    Riscv64,
    X86,
    X86_64,
    Wasm32,
    Wasm64,
}

impl Arch {
    /// The number of the architecture: its position in the list of
    /// architectures. No two architectures have the same number.
    pub open spec fn code_spec(self) -> u64 {
        match self {
            Arch::Unknown => 0,
            Arch::Arm => 1,
            Arch::Aarch64 => 2,
            Arch::Riscv32 => 3,
            Arch::Riscv64 => 4,
            Arch::X86 => 5,
            Arch::X86_64 => 6,
            Arch::Wasm32 => 7,
            Arch::Wasm64 => 8,
        }
    }

    /// Returns the number of the architecture
    pub fn code(&self) -> (r: u64)
        ensures
            r == self.code_spec(),
    {
        match self {
            Arch::Unknown => 0,
            Arch::Arm => 1,
            Arch::Aarch64 => 2,
            Arch::Riscv32 => 3,
            Arch::Riscv64 => 4,
            Arch::X86 => 5,
            Arch::X86_64 => 6,
            Arch::Wasm32 => 7,
            Arch::Wasm64 => 8,
        }
    }
}

/// The vendor of a target.
#[derive(Debug, Clone, Copy, PartialEq, Eq, Hash, Structural)]
pub enum Vendor {
    Unknown,
    Apple,
    Pc,
}

/// The operating system of a target.
#[derive(Debug, Clone, Copy, PartialEq, Eq, Hash, Structural)]
pub enum OS {
    Unknown,
    Darwin,
    Linux,
    MacOS,
    Win32,
}

/// The environment of a target.
#[derive(Debug, Clone, Copy, PartialEq, Eq, Hash, Structural)]
pub enum Environment {
    Unknown,
    Gnu,
    Msvc,
    Musl,
}

/// The format of the object files of a target.
#[derive(Debug, Clone, Copy, PartialEq, Eq, Hash, Structural)]
pub enum ObjFormat {
    Unknown,
    Coff,
    Elf,
    MachO,
    Wasm,
}

/// A calling convention.
#[derive(Debug, Clone, Copy, PartialEq, Eq, Hash, Structural)]
pub enum CallConv {
    /// The convention of 64 bit Windows.
    WindowsFastCall,
    /// The System V convention of x86-64.
    SystemV,
    /// The basic C convention of WebAssembly.
    WasmBasicCAbi,
}

impl CallConv {
    /// Whether `eax` is cleared in front of every call.
    pub open spec fn resets_eax(self) -> bool {
        self == CallConv::WindowsFastCall
    }

    /// Returns if it is necessary to reset the eax register before calling
    pub fn reset_eax(&self) -> (r: bool)
        ensures
            r == self.resets_eax(),
    {
        match self {
            CallConv::WindowsFastCall => true,
            _ => false,
        }
    }
}

/// A target triple: what code is generated for.
#[derive(Debug, Clone, Copy, PartialEq, Eq, Hash, Structural)]
pub struct Triple {
    /// The architecture.
    pub arch: Arch,
    /// The vendor.
    pub vendor: Vendor,
    /// The operating system.
    pub os: OS,
    /// The environment.
    pub env: Environment,
    /// The object file format.
    pub bin: ObjFormat,
}

impl Triple {
    /// The calling convention of a triple: on x86-64 that of Windows for
    /// Windows and System V for every other system, on WebAssembly its basic
    /// C convention. Other architectures have none.
    pub open spec fn call_conv(self) -> Option<CallConv> {
        match self.arch {
            Arch::X86_64 => if self.os == OS::Win32 {
                Some(CallConv::WindowsFastCall)
            } else {
                Some(CallConv::SystemV)
            },
            Arch::Wasm32 | Arch::Wasm64 => Some(CallConv::WasmBasicCAbi),
            _ => None,
        }
    }

    /// Returns the calling convention used by the triple
    pub fn getCallConv(&self) -> (r: Result<CallConv, RegistryError>)
        ensures
            match r {
                Ok(conv) => self.call_conv() == Some(conv),
                Err(e) => self.call_conv() is None && e == RegistryError::UnsuportedArch(self.arch),
            },
    {
        match self.arch {
            Arch::X86_64 => match self.os {
                OS::Win32 => Ok(CallConv::WindowsFastCall),
                _ => Ok(CallConv::SystemV),
            },
            Arch::Wasm32 | Arch::Wasm64 => Ok(CallConv::WasmBasicCAbi),
            _ => Err(RegistryError::UnsuportedArch(self.arch)),
        }
    }
}

} // verus!
