//! The errors of the pipeline from the intermediate representation to
//! bytes, one variant for each stage.
use vstd::prelude::*;
use crate::codegen::machine::{MachineMnemonic, MachineMnemonicView};
use crate::codegen::reg_alloc::AllocError;
use crate::ir::nodes::{VerifyError, VerifyErrorView};
use crate::target::registry::RegistryError;
use crate::target::triple::Arch;

verus! {

/// Why a portable machine instruction could not be lowered.
#[derive(Debug, PartialEq, Eq)]
pub enum LowerError {
    /// The target has no form of the mnemonic.
    IllegalOnTarget(MachineMnemonic, Arch),
    /// The instruction lacks an operand that its mnemonic needs, or holds
    /// one of a kind that the mnemonic cannot take on the target.
    BadOperands(MachineMnemonic),
}

/// What a lowering error denotes.
pub enum LowerErrorView {
    IllegalOnTarget(MachineMnemonicView, Arch),
    BadOperands(MachineMnemonicView),
}

impl View for LowerError {
    type V = LowerErrorView;

    open spec fn view(&self) -> LowerErrorView {
        match self {
            LowerError::IllegalOnTarget(m, arch) => LowerErrorView::IllegalOnTarget(m@, *arch),
            LowerError::BadOperands(m) => LowerErrorView::BadOperands(m@),
        }
    }
}

/// Why an instruction has no encoding.
#[derive(Debug, Clone, Copy, PartialEq, Eq, Structural)]
pub enum EncodeError {
    /// The instruction has no form for the kinds of its operands.
    OperandClassInvalid,
    /// A displacement does not fit into 32 bits.
    DisplacementOutOfRange,
    /// A relocation record does not stand behind an instruction with a
    /// field for the address.
    LinkWithoutField,
}

/// Why a block could not be compiled.
#[derive(Debug, PartialEq, Eq)]
pub enum CompileError {
    /// No backend for the target.
    Registry(RegistryError),
    /// The block is not well formed.
    Verify(VerifyError),
    /// A variable got no place.
    Alloc(AllocError),
    /// A machine instruction has no form on the target.
    Lower(LowerError),
    /// An instruction of the target has no encoding.
    Encode(EncodeError),
}

/// What a compile error denotes.
pub enum CompileErrorView {
    Registry(RegistryError),
    Verify(VerifyErrorView),
    Alloc(AllocError),
    Lower(LowerErrorView),
    Encode(EncodeError),
}

impl View for CompileError {
    type V = CompileErrorView;

    open spec fn view(&self) -> CompileErrorView {
        match self {
            CompileError::Registry(e) => CompileErrorView::Registry(*e),
            CompileError::Verify(e) => CompileErrorView::Verify(e@),
            CompileError::Alloc(e) => CompileErrorView::Alloc(*e),
            CompileError::Lower(e) => CompileErrorView::Lower(e@),
            CompileError::Encode(e) => CompileErrorView::Encode(*e),
        }
    }
}


impl Clone for LowerError {
    fn clone(&self) -> (r: Self)
        ensures
            r@ == self@,
    {
        match self {
            LowerError::IllegalOnTarget(m, arch) => LowerError::IllegalOnTarget(m.clone(), *arch),
            LowerError::BadOperands(m) => LowerError::BadOperands(m.clone()),
        }
    }
}

impl Clone for CompileError {
    fn clone(&self) -> (r: Self)
        ensures
            r@ == self@,
    {
        match self {
            CompileError::Registry(e) => CompileError::Registry(*e),
            CompileError::Verify(e) => CompileError::Verify(e.clone()),
            CompileError::Alloc(e) => CompileError::Alloc(*e),
            CompileError::Lower(e) => CompileError::Lower(e.clone()),
            CompileError::Encode(e) => CompileError::Encode(*e),
        }
    }
}

} // verus!
