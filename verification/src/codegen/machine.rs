//! The portable machine instructions that stand between the intermediate
//! representation and the instructions of one architecture.
use vstd::prelude::*;
use crate::ir::types::TypeMetadata;
use crate::target::x64::reg::x64Reg;
use crate::text::lower_text;

verus! {

/// A register of one of the architectures.
#[derive(Debug, Clone, Copy, PartialEq, Eq, Hash, Structural)]
pub enum Reg {
    /// A register of x86-64.
    x64(x64Reg),
}

impl Reg {
    /// The name of the register.
    pub open spec fn name_spec(self) -> Seq<char> {
        match self {
            Reg::x64(reg) => reg.name_spec(),
        }
    }

    /// The register that a text names, if it names one; letter case is
    /// ignored.
    pub open spec fn parse_spec(s: Seq<char>) -> Option<Reg> {
        match x64Reg::parse_spec(s) {
            Some(reg) => Some(Reg::x64(reg)),
            None => None,
        }
    }

    /// Parses the string to a register (Returns none if it's invalid)
    pub fn parse(string: String) -> (r: Option<Self>)
        ensures
            r == Self::parse_spec(string@),
    {
        match x64Reg::parse(string) {
            Some(reg) => Some(Reg::x64(reg)),
            None => None,
        }
    }

    /// The printed form of the register: its canonical lower-case name.
    pub fn to_string(&self) -> (r: String)
        ensures
            r@ == self.name_spec(),
    {
        match self {
            Reg::x64(reg) => reg.name(),
        }
    }

    /// Parsing the printed form of a register gives the register back, and
    /// whenever a text parses to a register, the printed form of that
    /// register is the text in ASCII lower case.
    pub proof fn lemma_parse_print_round_trip(reg: Reg, s: Seq<char>)
        ensures
            Self::parse_spec(reg.name_spec()) == Some(reg),
            Self::parse_spec(s) == Some(reg) ==> reg.name_spec() == lower_text(s),
    {
        match reg {
            Reg::x64(r) => {
                x64Reg::lemma_parse_print_round_trip(r, s);
            },
        }
    }
}

/// Where a value lives: in the instruction itself, in a register or in a
/// slot of the stack frame.
#[derive(Debug, Clone, Copy, PartialEq, Eq, Hash, Structural)]
pub enum MachineOperand {
    /// A constant.
    Imm(i64),
    /// A register.
    Reg(Reg),
    /// The stack slot at an offset below the frame pointer.
    Stack(i64),
}

/// How two values are compared.
#[derive(Debug, Clone, Copy, PartialEq, Eq, Hash, Structural)]
pub enum CmpMode {
    Eq,
    NotEq,
    GT,
    LT,
    GE,
    LE,
}

/// One entry of a switch table: the block to go to for a value.
#[derive(Debug, PartialEq, Eq, Hash)]
pub struct SwitchCase {
    /// The value that selects the entry.
    pub value: i64,
    /// The name of the block to go to.
    pub block: String,
}

impl View for SwitchCase {
    type V = (i64, Seq<char>);

    open spec fn view(&self) -> (i64, Seq<char>) {
        (self.value, self.block@)
    }
}

impl Clone for SwitchCase {
    fn clone(&self) -> (r: Self)
        ensures
            r == *self,
    {
        SwitchCase { value: self.value, block: self.block.clone() }
    }
}

impl SwitchCase {
    /// The entry that sends `value` to `block`.
    pub fn new(value: i64, block: String) -> (r: Self)
        ensures
            r == (SwitchCase { value, block }),
    {
        SwitchCase { value, block }
    }
}

/// What a switch table denotes: its entries in order.
pub open spec fn cases_view(cases: Seq<SwitchCase>) -> Seq<(i64, Seq<char>)> {
    cases.map_values(|c: SwitchCase| c@)
}

/// Copies a switch table.
pub fn clone_cases(cases: &Vec<SwitchCase>) -> (r: Vec<SwitchCase>)
    ensures
        r@ == cases@,
{
    let mut out: Vec<SwitchCase> = Vec::new();
    let mut i: usize = 0;
    while i < cases.len()
        invariant
            i <= cases@.len(),
            out@ == cases@.take(i as int),
        decreases cases@.len() - i,
    {
        out.push(cases[i].clone());
        assert(out@ =~= cases@.take(i + 1));
        i += 1;
    }
    assert(cases@.take(cases@.len() as int) =~= cases@);
    out
}

/// The operation of a portable machine instruction.
#[derive(Debug, PartialEq, Eq, Hash)]
pub enum MachineMnemonic {
    /// Copies the operand into the output.
    Move,
    Add,
    And,
    Div,
    Mul,
    Or,
    Sub,
    Xor,
    Rem,
    Neg,
    Shl,
    Shr,
    FMove,
    FAdd,
    FAnd,
    FDiv,
    FMul,
    FOr,
    FSub,
    FXor,
    FRem,
    FNeg,
    FShl,
    FShr,
    /// Compares two floating point operands.
    FCompare(CmpMode),
    /// Converts a floating point value from the given type.
    FCast(TypeMetadata),
    /// Goes to the first block if the operand is not zero, else to the second.
    BrCond(String, String),
    /// Compares the two operands; the output is 1 if the comparison holds
    /// and 0 if not.
    Compare(CmpMode),
    /// Widens a value of the given type by filling with zeros.
    Zext(TypeMetadata),
    /// Narrows a value of the given type.
    Downcast(TypeMetadata),
    /// Calls the named function.
    Call(String),
    /// Goes to the named block.
    Br(String),
    /// Puts the address of the named symbol into the output.
    AdressLoad(String),
    /// Returns from the function, with the operand as its value if there is one.
    Return,
    /// Puts the address of a stack slot into the output.
    StackAlloc,
    /// Stores the second operand where the first points to.
    Store,
    /// Loads what the operand points to into the output.
    Load,
    /// Sets up the frame; the operand is the size of the frame in bytes.
    Prolog,
    /// Takes down the frame.
    Epilog,
    /// Saves the operand across a call.
    Push,
    /// Restores what `Push` saved.
    PushCleanup,
    /// Reserves the shadow space of a call.
    CallStackPrepare,
    /// Releases the shadow space of a call.
    CallStackRedo,
    /// Copies an address into the output.
    AdrMove,
    /// Copies the second operand into the output if the first is zero.
    MovIfZero,
    /// Copies the second operand into the output if the first is not zero.
    MovIfNotZero,
    /// Goes to the block that the table gives for the value of the operand.
    Switch(Vec<SwitchCase>),
}

/// What a mnemonic denotes: names are the texts they hold, tables the
/// sequences of their entries.
pub enum MachineMnemonicView {
    Move,
    Add,
    And,
    Div,
    Mul,
    Or,
    Sub,
    Xor,
    Rem,
    Neg,
    Shl,
    Shr,
    FMove,
    FAdd,
    FAnd,
    FDiv,
    FMul,
    FOr,
    FSub,
    FXor,
    FRem,
    FNeg,
    FShl,
    FShr,
    FCompare(CmpMode),
    FCast(TypeMetadata),
    BrCond(Seq<char>, Seq<char>),
    Compare(CmpMode),
    Zext(TypeMetadata),
    Downcast(TypeMetadata),
    Call(Seq<char>),
    Br(Seq<char>),
    AdressLoad(Seq<char>),
    Return,
    StackAlloc,
    Store,
    Load,
    Prolog,
    Epilog,
    Push,
    PushCleanup,
    CallStackPrepare,
    CallStackRedo,
    AdrMove,
    MovIfZero,
    MovIfNotZero,
    Switch(Seq<(i64, Seq<char>)>),
}

impl View for MachineMnemonic {
    type V = MachineMnemonicView;

    open spec fn view(&self) -> MachineMnemonicView {
        match self {
            MachineMnemonic::Move => MachineMnemonicView::Move,
            MachineMnemonic::Add => MachineMnemonicView::Add,
            MachineMnemonic::And => MachineMnemonicView::And,
            MachineMnemonic::Div => MachineMnemonicView::Div,
            MachineMnemonic::Mul => MachineMnemonicView::Mul,
            MachineMnemonic::Or => MachineMnemonicView::Or,
            MachineMnemonic::Sub => MachineMnemonicView::Sub,
            MachineMnemonic::Xor => MachineMnemonicView::Xor,
            MachineMnemonic::Rem => MachineMnemonicView::Rem,
            MachineMnemonic::Neg => MachineMnemonicView::Neg,
            MachineMnemonic::Shl => MachineMnemonicView::Shl,
            MachineMnemonic::Shr => MachineMnemonicView::Shr,
            MachineMnemonic::FMove => MachineMnemonicView::FMove,
            MachineMnemonic::FAdd => MachineMnemonicView::FAdd,
            MachineMnemonic::FAnd => MachineMnemonicView::FAnd,
            MachineMnemonic::FDiv => MachineMnemonicView::FDiv,
            MachineMnemonic::FMul => MachineMnemonicView::FMul,
            MachineMnemonic::FOr => MachineMnemonicView::FOr,
            MachineMnemonic::FSub => MachineMnemonicView::FSub,
            MachineMnemonic::FXor => MachineMnemonicView::FXor,
            MachineMnemonic::FRem => MachineMnemonicView::FRem,
            MachineMnemonic::FNeg => MachineMnemonicView::FNeg,
            MachineMnemonic::FShl => MachineMnemonicView::FShl,
            MachineMnemonic::FShr => MachineMnemonicView::FShr,
            MachineMnemonic::Return => MachineMnemonicView::Return,
            MachineMnemonic::StackAlloc => MachineMnemonicView::StackAlloc,
            MachineMnemonic::Store => MachineMnemonicView::Store,
            MachineMnemonic::Load => MachineMnemonicView::Load,
            MachineMnemonic::Prolog => MachineMnemonicView::Prolog,
            MachineMnemonic::Epilog => MachineMnemonicView::Epilog,
            MachineMnemonic::Push => MachineMnemonicView::Push,
            MachineMnemonic::PushCleanup => MachineMnemonicView::PushCleanup,
            MachineMnemonic::CallStackPrepare => MachineMnemonicView::CallStackPrepare,
            MachineMnemonic::CallStackRedo => MachineMnemonicView::CallStackRedo,
            MachineMnemonic::AdrMove => MachineMnemonicView::AdrMove,
            MachineMnemonic::MovIfZero => MachineMnemonicView::MovIfZero,
            MachineMnemonic::MovIfNotZero => MachineMnemonicView::MovIfNotZero,
            MachineMnemonic::FCompare(mode) => MachineMnemonicView::FCompare(*mode),
            MachineMnemonic::FCast(ty) => MachineMnemonicView::FCast(*ty),
            MachineMnemonic::BrCond(a, b) => MachineMnemonicView::BrCond(a@, b@),
            MachineMnemonic::Compare(mode) => MachineMnemonicView::Compare(*mode),
            MachineMnemonic::Zext(ty) => MachineMnemonicView::Zext(*ty),
            MachineMnemonic::Downcast(ty) => MachineMnemonicView::Downcast(*ty),
            MachineMnemonic::Call(name) => MachineMnemonicView::Call(name@),
            MachineMnemonic::Br(name) => MachineMnemonicView::Br(name@),
            MachineMnemonic::AdressLoad(name) => MachineMnemonicView::AdressLoad(name@),
            MachineMnemonic::Switch(cases) => MachineMnemonicView::Switch(cases_view(cases@)),
        }
    }
}

impl Clone for MachineMnemonic {
    fn clone(&self) -> (r: Self)
        ensures
            r@ == self@,
    {
        match self {
            MachineMnemonic::Move => MachineMnemonic::Move,
            MachineMnemonic::Add => MachineMnemonic::Add,
            MachineMnemonic::And => MachineMnemonic::And,
            MachineMnemonic::Div => MachineMnemonic::Div,
            MachineMnemonic::Mul => MachineMnemonic::Mul,
            MachineMnemonic::Or => MachineMnemonic::Or,
            MachineMnemonic::Sub => MachineMnemonic::Sub,
            MachineMnemonic::Xor => MachineMnemonic::Xor,
            MachineMnemonic::Rem => MachineMnemonic::Rem,
            MachineMnemonic::Neg => MachineMnemonic::Neg,
            MachineMnemonic::Shl => MachineMnemonic::Shl,
            MachineMnemonic::Shr => MachineMnemonic::Shr,
            MachineMnemonic::FMove => MachineMnemonic::FMove,
            MachineMnemonic::FAdd => MachineMnemonic::FAdd,
            MachineMnemonic::FAnd => MachineMnemonic::FAnd,
            MachineMnemonic::FDiv => MachineMnemonic::FDiv,
            MachineMnemonic::FMul => MachineMnemonic::FMul,
            MachineMnemonic::FOr => MachineMnemonic::FOr,
            MachineMnemonic::FSub => MachineMnemonic::FSub,
            MachineMnemonic::FXor => MachineMnemonic::FXor,
            MachineMnemonic::FRem => MachineMnemonic::FRem,
            MachineMnemonic::FNeg => MachineMnemonic::FNeg,
            MachineMnemonic::FShl => MachineMnemonic::FShl,
            MachineMnemonic::FShr => MachineMnemonic::FShr,
            MachineMnemonic::Return => MachineMnemonic::Return,
            MachineMnemonic::StackAlloc => MachineMnemonic::StackAlloc,
            MachineMnemonic::Store => MachineMnemonic::Store,
            MachineMnemonic::Load => MachineMnemonic::Load,
            MachineMnemonic::Prolog => MachineMnemonic::Prolog,
            MachineMnemonic::Epilog => MachineMnemonic::Epilog,
            MachineMnemonic::Push => MachineMnemonic::Push,
            MachineMnemonic::PushCleanup => MachineMnemonic::PushCleanup,
            MachineMnemonic::CallStackPrepare => MachineMnemonic::CallStackPrepare,
            MachineMnemonic::CallStackRedo => MachineMnemonic::CallStackRedo,
            MachineMnemonic::AdrMove => MachineMnemonic::AdrMove,
            MachineMnemonic::MovIfZero => MachineMnemonic::MovIfZero,
            MachineMnemonic::MovIfNotZero => MachineMnemonic::MovIfNotZero,
            MachineMnemonic::FCompare(mode) => MachineMnemonic::FCompare(*mode),
            MachineMnemonic::FCast(ty) => MachineMnemonic::FCast(*ty),
            MachineMnemonic::BrCond(a, b) => MachineMnemonic::BrCond(a.clone(), b.clone()),
            MachineMnemonic::Compare(mode) => MachineMnemonic::Compare(*mode),
            MachineMnemonic::Zext(ty) => MachineMnemonic::Zext(*ty),
            MachineMnemonic::Downcast(ty) => MachineMnemonic::Downcast(*ty),
            MachineMnemonic::Call(name) => MachineMnemonic::Call(name.clone()),
            MachineMnemonic::Br(name) => MachineMnemonic::Br(name.clone()),
            MachineMnemonic::AdressLoad(name) => MachineMnemonic::AdressLoad(name.clone()),
            MachineMnemonic::Switch(cases) => MachineMnemonic::Switch(clone_cases(cases)),
        }
    }
}

/// A portable machine instruction.
#[derive(Debug, PartialEq, Eq, Hash)]
pub struct MachineInstr {
    /// The operation.
    pub mnemonic: MachineMnemonic,
    /// The input operands, in order.
    pub operands: Vec<MachineOperand>,
    /// The operand that receives the result.
    pub out: Option<MachineOperand>,
    /// The type of the values the instruction works on.
    pub meta: TypeMetadata,
}

/// What a portable machine instruction denotes.
pub struct MachineInstrView {
    pub mnemonic: MachineMnemonicView,
    pub operands: Seq<MachineOperand>,
    pub out: Option<MachineOperand>,
    pub meta: TypeMetadata,
}

impl View for MachineInstr {
    type V = MachineInstrView;

    open spec fn view(&self) -> MachineInstrView {
        MachineInstrView {
            mnemonic: self.mnemonic@,
            operands: self.operands@,
            out: self.out,
            meta: self.meta,
        }
    }
}

impl MachineInstrView {
    /// The instruction of a mnemonic without operands, on values of type
    /// `Void`.
    pub open spec fn new(mnemonic: MachineMnemonicView) -> MachineInstrView {
        MachineInstrView { mnemonic, operands: Seq::empty(), out: None, meta: TypeMetadata::Void }
    }

    /// The instruction with one more input operand.
    pub open spec fn with_operand(self, operand: MachineOperand) -> MachineInstrView {
        MachineInstrView { operands: self.operands.push(operand), ..self }
    }

    /// The instruction with the given output operand.
    pub open spec fn with_out(self, out: MachineOperand) -> MachineInstrView {
        MachineInstrView { out: Some(out), ..self }
    }

    /// The instruction on values of the given type.
    pub open spec fn with_meta(self, meta: TypeMetadata) -> MachineInstrView {
        MachineInstrView { meta, ..self }
    }
}

impl MachineInstr {
    /// Creates a new machine instr
    pub fn new(mnemonic: MachineMnemonic) -> (r: Self)
        ensures
            r@ == MachineInstrView::new(mnemonic@),
    {
        MachineInstr { mnemonic, operands: Vec::new(), out: None, meta: TypeMetadata::Void }
    }

    /// Adds an operand
    pub fn add_operand(&mut self, operand: MachineOperand)
        ensures
            final(self)@ == old(self)@.with_operand(operand),
    {
        self.operands.push(operand);
    }

    /// Sets the output of the machine instr
    pub fn set_out(&mut self, out: MachineOperand)
        ensures
            final(self)@ == old(self)@.with_out(out),
    {
        self.out = Some(out);
    }

    /// Sets the type of the values the instruction works on
    pub fn set_meta(&mut self, meta: TypeMetadata)
        ensures
            final(self)@ == old(self)@.with_meta(meta),
    {
        self.meta = meta;
    }
}

impl Clone for MachineInstr {
    fn clone(&self) -> (r: Self)
        ensures
            r@ == self@,
    {
        let mut operands: Vec<MachineOperand> = Vec::new();
        let mut i: usize = 0;
        while i < self.operands.len()
            invariant
                i <= self.operands@.len(),
                operands@ == self.operands@.take(i as int),
            decreases self.operands@.len() - i,
        {
            operands.push(self.operands[i]);
            assert(operands@ =~= self.operands@.take(i + 1));
            i += 1;
        }
        assert(self.operands@.take(self.operands@.len() as int) =~= self.operands@);
        MachineInstr { mnemonic: self.mnemonic.clone(), operands, out: self.out, meta: self.meta }
    }
}

/// What a list of portable machine instructions denotes.
pub open spec fn machine_view(s: Seq<MachineInstr>) -> Seq<MachineInstrView> {
    s.map_values(|i: MachineInstr| i@)
}

} // verus!
