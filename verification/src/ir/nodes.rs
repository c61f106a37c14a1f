//! The nodes of the intermediate representation and what each of them can
//! tell about itself: its inputs and output, whether its types fit, and
//! what simpler node it folds to.
use vstd::prelude::*;
use crate::codegen::machine::{CmpMode, SwitchCase, cases_view, clone_cases};
use crate::ir::types::{Type, TypeMetadata, Var, VarView, var_opt_view, vars_view};

verus! {

/// The operation of a node with two inputs.
#[derive(Debug, Clone, Copy, PartialEq, Eq, Hash, Structural)]
pub enum BinaryOp {
    Add,
    Sub,
    Mul,
    Div,
    Rem,
    And,
    Or,
    Xor,
    Shl,
    Shr,
}

/// The type of a function: the types of its arguments and of its result.
#[derive(Debug, PartialEq, Eq)]
pub struct FunctionType {
    /// The types of the arguments.
    pub args: Vec<TypeMetadata>,
    /// The type of the result.
    pub ret: TypeMetadata,
}

/// What a function type denotes.
pub struct FunctionTypeView {
    pub args: Seq<TypeMetadata>,
    pub ret: TypeMetadata,
}

impl View for FunctionType {
    type V = FunctionTypeView;

    open spec fn view(&self) -> FunctionTypeView {
        FunctionTypeView { args: self.args@, ret: self.ret }
    }
}

impl FunctionType {
    /// Creates a new function type
    pub fn new(args: Vec<TypeMetadata>, ret: TypeMetadata) -> (r: Self)
        ensures
            r@ == (FunctionTypeView { args: args@, ret }),
    {
        FunctionType { args, ret }
    }
}

/// Why a function, a block or a node is not well formed.
#[derive(Debug, PartialEq, Eq)]
pub enum VerifyError {
    /// Two types that have to be the same are not: the type found, and the
    /// type it has to be.
    Op0Op1TyNoMatch(TypeMetadata, TypeMetadata),
    /// A node reads a variable that nothing in front of it defines.
    UseOfUndefined(Var),
    /// A block does not end in a terminator, or holds one in front of its
    /// end.
    TerminatorMisplaced,
    /// A return gives a value of another type than the function's result:
    /// the type found, and the type of the result.
    ReturnTypeMismatch(TypeMetadata, TypeMetadata),
}

/// What a verification error denotes.
pub enum VerifyErrorView {
    Op0Op1TyNoMatch(TypeMetadata, TypeMetadata),
    UseOfUndefined(VarView),
    TerminatorMisplaced,
    ReturnTypeMismatch(TypeMetadata, TypeMetadata),
}

impl View for VerifyError {
    type V = VerifyErrorView;

    open spec fn view(&self) -> VerifyErrorView {
        match self {
            VerifyError::Op0Op1TyNoMatch(a, b) => VerifyErrorView::Op0Op1TyNoMatch(*a, *b),
            VerifyError::UseOfUndefined(v) => VerifyErrorView::UseOfUndefined(v@),
            VerifyError::TerminatorMisplaced => VerifyErrorView::TerminatorMisplaced,
            VerifyError::ReturnTypeMismatch(a, b) => VerifyErrorView::ReturnTypeMismatch(*a, *b),
        }
    }
}

impl Clone for VerifyError {
    fn clone(&self) -> (r: Self)
        ensures
            r@ == self@,
    {
        match self {
            VerifyError::Op0Op1TyNoMatch(a, b) => VerifyError::Op0Op1TyNoMatch(*a, *b),
            VerifyError::UseOfUndefined(v) => VerifyError::UseOfUndefined(v.clone()),
            VerifyError::TerminatorMisplaced => VerifyError::TerminatorMisplaced,
            VerifyError::ReturnTypeMismatch(a, b) => VerifyError::ReturnTypeMismatch(*a, *b),
        }
    }
}

/// A node of the intermediate representation.
#[derive(Debug, PartialEq, Eq)]
pub enum IrNode {
    /// `out = src`
    Assign { out: Var, src: Var },
    /// `out = constant`
    AssignConst { out: Var, constant: Type },
    /// `out = cast src to ty`
    Cast { src: Var, ty: TypeMetadata, out: Var },
    /// `out = -src`
    Neg { src: Var, out: Var },
    /// `out = lhs op rhs`
    Binary { op: BinaryOp, lhs: Var, rhs: Var, out: Var },
    /// `out = 1` if the comparison of `lhs` and `rhs` holds, else `out = 0`
    Compare { mode: CmpMode, lhs: Var, rhs: Var, out: Var },
    /// Goes to a block.
    Br { target: String },
    /// Goes to `if_true` if `cond` is not zero, else to `if_false`.
    BrCond { cond: Var, if_true: String, if_false: String },
    /// Goes to the block that the table gives for `value`, or to `default`.
    Switch { value: Var, cases: Vec<SwitchCase>, default: String },
    /// `out = func(args)`; `ret` is the type of the function's result.
    Call { func: String, ret: TypeMetadata, args: Vec<Var>, out: Var },
    /// Returns from the function, with a value or without.
    Return { result: Option<Var> },
    /// Stores `value` where `ptr` points to.
    Store { ptr: Var, value: Var },
    /// Stores a constant where `ptr` points to.
    StoreConst { ptr: Var, constant: Type },
    /// `out = *ptr`, read as a value of type `ty`
    Load { out: Var, ptr: Var, ty: TypeMetadata },
    /// `out` is the address of a new stack slot for a value of type `ty`.
    Alloca { out: Var, ty: TypeMetadata },
    /// `out` is the address of a symbol.
    AdressLoad { out: Var, symbol: String },
}

/// What a node denotes.
pub enum IrNodeView {
    Assign { out: VarView, src: VarView },
    AssignConst { out: VarView, constant: Type },
    Cast { src: VarView, ty: TypeMetadata, out: VarView },
    Neg { src: VarView, out: VarView },
    Binary { op: BinaryOp, lhs: VarView, rhs: VarView, out: VarView },
    Compare { mode: CmpMode, lhs: VarView, rhs: VarView, out: VarView },
    Br { target: Seq<char> },
    BrCond { cond: VarView, if_true: Seq<char>, if_false: Seq<char> },
    Switch { value: VarView, cases: Seq<(i64, Seq<char>)>, default: Seq<char> },
    Call { func: Seq<char>, ret: TypeMetadata, args: Seq<VarView>, out: VarView },
    Return { result: Option<VarView> },
    Store { ptr: VarView, value: VarView },
    StoreConst { ptr: VarView, constant: Type },
    Load { out: VarView, ptr: VarView, ty: TypeMetadata },
    Alloca { out: VarView, ty: TypeMetadata },
    AdressLoad { out: VarView, symbol: Seq<char> },
}

impl View for IrNode {
    type V = IrNodeView;

    open spec fn view(&self) -> IrNodeView {
        match self {
            IrNode::Assign { out, src } => IrNodeView::Assign { out: out@, src: src@ },
            IrNode::AssignConst { out, constant } => IrNodeView::AssignConst {
                out: out@,
                constant: *constant,
            },
            IrNode::Cast { src, ty, out } => IrNodeView::Cast { src: src@, ty: *ty, out: out@ },
            IrNode::Neg { src, out } => IrNodeView::Neg { src: src@, out: out@ },
            IrNode::Binary { op, lhs, rhs, out } => IrNodeView::Binary {
                op: *op,
                lhs: lhs@,
                rhs: rhs@,
                out: out@,
            },
            IrNode::Compare { mode, lhs, rhs, out } => IrNodeView::Compare {
                mode: *mode,
                lhs: lhs@,
                rhs: rhs@,
                out: out@,
            },
            IrNode::Br { target } => IrNodeView::Br { target: target@ },
            IrNode::BrCond { cond, if_true, if_false } => IrNodeView::BrCond {
                cond: cond@,
                if_true: if_true@,
                if_false: if_false@,
            },
            IrNode::Switch { value, cases, default } => IrNodeView::Switch {
                value: value@,
                cases: cases_view(cases@),
                default: default@,
            },
            IrNode::Call { func, ret, args, out } => IrNodeView::Call {
                func: func@,
                ret: *ret,
                args: vars_view(args@),
                out: out@,
            },
            IrNode::Return { result } => IrNodeView::Return { result: var_opt_view(*result) },
            IrNode::Store { ptr, value } => IrNodeView::Store { ptr: ptr@, value: value@ },
            IrNode::StoreConst { ptr, constant } => IrNodeView::StoreConst {
                ptr: ptr@,
                constant: *constant,
            },
            IrNode::Load { out, ptr, ty } => IrNodeView::Load { out: out@, ptr: ptr@, ty: *ty },
            IrNode::Alloca { out, ty } => IrNodeView::Alloca { out: out@, ty: *ty },
            IrNode::AdressLoad { out, symbol } => IrNodeView::AdressLoad {
                out: out@,
                symbol: symbol@,
            },
        }
    }
}

impl IrNodeView {
    /// The variables that the node reads, in the order of its operands.
    pub open spec fn inputs(self) -> Seq<VarView> {
        match self {
            IrNodeView::Assign { src, .. } => seq![src],
            IrNodeView::Cast { src, .. } => seq![src],
            IrNodeView::Neg { src, .. } => seq![src],
            IrNodeView::Binary { lhs, rhs, .. } => seq![lhs, rhs],
            IrNodeView::Compare { lhs, rhs, .. } => seq![lhs, rhs],
            IrNodeView::BrCond { cond, .. } => seq![cond],
            IrNodeView::Switch { value, .. } => seq![value],
            IrNodeView::Call { args, .. } => args,
            IrNodeView::Return { result } => match result {
                Some(v) => seq![v],
                None => seq![],
            },
            IrNodeView::Store { ptr, value } => seq![ptr, value],
            IrNodeView::StoreConst { ptr, .. } => seq![ptr],
            IrNodeView::Load { ptr, .. } => seq![ptr],
            _ => seq![],
        }
    }

    /// Whether the node reads a variable: whether the variable is among its
    /// inputs.
    pub open spec fn uses(self, var: VarView) -> bool {
        self.inputs().contains(var)
    }

    /// The variable that the node defines, if it defines one.
    pub open spec fn output(self) -> Option<VarView> {
        match self {
            IrNodeView::Assign { out, .. } => Some(out),
            IrNodeView::AssignConst { out, .. } => Some(out),
            IrNodeView::Cast { out, .. } => Some(out),
            IrNodeView::Neg { out, .. } => Some(out),
            IrNodeView::Binary { out, .. } => Some(out),
            IrNodeView::Compare { out, .. } => Some(out),
            IrNodeView::Call { out, .. } => Some(out),
            IrNodeView::Load { out, .. } => Some(out),
            IrNodeView::Alloca { out, .. } => Some(out),
            IrNodeView::AdressLoad { out, .. } => Some(out),
            _ => None,
        }
    }

    /// The type that the operation of the node gives to its result, for
    /// the nodes that have a result: the type of the source for a copy and
    /// a negation, the target type for a cast, the type of the left operand
    /// for an operation with two inputs, a byte for a comparison, the
    /// result type of the function for a call, the type read for a load, a
    /// pointer for an address.
    pub open spec fn expected_result_type(self) -> Option<TypeMetadata> {
        match self {
            IrNodeView::Assign { src, .. } => Some(src.ty),
            IrNodeView::AssignConst { constant, .. } => Some(constant.ty),
            IrNodeView::Cast { ty, .. } => Some(ty),
            IrNodeView::Neg { src, .. } => Some(src.ty),
            IrNodeView::Binary { lhs, .. } => Some(lhs.ty),
            IrNodeView::Compare { .. } => Some(TypeMetadata::u8),
            IrNodeView::Call { ret, .. } => Some(ret),
            IrNodeView::Load { ty, .. } => Some(ty),
            IrNodeView::Alloca { .. } => Some(TypeMetadata::ptr),
            IrNodeView::AdressLoad { .. } => Some(TypeMetadata::ptr),
            _ => None,
        }
    }

    /// Whether the node ends a block.
    pub open spec fn is_terminator(self) -> bool {
        self is Br || self is BrCond || self is Switch || self is Return
    }

    /// The error in the types of the operands among themselves, if there is
    /// one: the two inputs of an operation or a comparison have one type, a
    /// load reads through a pointer, and a return gives what the function
    /// returns, which is nothing for a function of type `Void`.
    pub open spec fn operand_error(self, ret: TypeMetadata) -> Option<VerifyErrorView> {
        match self {
            IrNodeView::Binary { lhs, rhs, .. } => if lhs.ty != rhs.ty {
                Some(VerifyErrorView::Op0Op1TyNoMatch(lhs.ty, rhs.ty))
            } else {
                None
            },
            IrNodeView::Compare { lhs, rhs, .. } => if lhs.ty != rhs.ty {
                Some(VerifyErrorView::Op0Op1TyNoMatch(lhs.ty, rhs.ty))
            } else {
                None
            },
            IrNodeView::Load { ptr, .. } => if ptr.ty != TypeMetadata::ptr {
                Some(VerifyErrorView::Op0Op1TyNoMatch(ptr.ty, TypeMetadata::ptr))
            } else {
                None
            },
            IrNodeView::Return { result } => match result {
                Some(v) => if v.ty != ret {
                    Some(VerifyErrorView::ReturnTypeMismatch(v.ty, ret))
                } else {
                    None
                },
                None => if ret != TypeMetadata::Void {
                    Some(VerifyErrorView::ReturnTypeMismatch(TypeMetadata::Void, ret))
                } else {
                    None
                },
            },
            _ => None,
        }
    }

    /// The error that verification finds in the node, if it finds one: an
    /// error among the operands first, then an output whose type is not
    /// the type that the operation gives.
    pub open spec fn verify_error(self, ret: TypeMetadata) -> Option<VerifyErrorView> {
        match self.operand_error(ret) {
            Some(e) => Some(e),
            None => match (self.output(), self.expected_result_type()) {
                (Some(out), Some(expected)) => if out.ty != expected {
                    Some(VerifyErrorView::Op0Op1TyNoMatch(out.ty, expected))
                } else {
                    None
                },
                _ => None,
            },
        }
    }

    /// The simpler node that does the same, if there is one: a cast to the
    /// type that its source has already is a copy.
    pub open spec fn eval(self) -> Option<IrNodeView> {
        match self {
            IrNodeView::Cast { src, ty, out } => if ty == src.ty {
                Some(IrNodeView::Assign { out, src })
            } else {
                None
            },
            _ => None,
        }
    }

    /// The inputs of a node are exactly the variables that it uses.
    pub proof fn lemma_inputs_are_uses(self, var: VarView)
        ensures
            self.uses(var) <==> exists|i: int|
                0 <= i < self.inputs().len() && self.inputs()[i] == var,
    {
    }

    /// A node that verifies has an output of the type that its operation
    /// gives, and a node whose output has another type does not verify.
    pub proof fn lemma_verify_checks_result_type(self, ret: TypeMetadata)
        ensures
            self.verify_error(ret) is None && self.output() is Some
                ==> self.expected_result_type() == Some(self.output()->0.ty),
            self.output() is Some && self.expected_result_type() != Some(self.output()->0.ty)
                ==> self.verify_error(ret) is Some,
    {
    }

    /// Folding a node keeps its output: the node it folds to defines the
    /// same variable.
    pub proof fn lemma_eval_keeps_output(self)
        ensures
            self.eval() matches Some(folded) ==> folded.output() == self.output(),
    {
    }

    /// Folding a node that verifies gives a node that verifies.
    pub proof fn lemma_eval_keeps_types(self, ret: TypeMetadata)
        ensures
            self.eval() matches Some(folded) ==> (self.verify_error(ret) is None
                ==> folded.verify_error(ret) is None),
    {
    }
}

/// What a node that may be absent denotes.
pub open spec fn node_opt_view(node: Option<IrNode>) -> Option<IrNodeView> {
    match node {
        Some(n) => Some(n@),
        None => None,
    }
}

/// Copies a list of variables.
pub fn clone_vars(vars: &Vec<Var>) -> (r: Vec<Var>)
    ensures
        r@ == vars@,
{
    let mut out: Vec<Var> = Vec::new();
    let mut i: usize = 0;
    while i < vars.len()
        invariant
            i <= vars@.len(),
            out@ == vars@.take(i as int),
        decreases vars@.len() - i,
    {
        out.push(vars[i].clone());
        assert(out@ =~= vars@.take(i + 1));
        i += 1;
    }
    assert(vars@.take(vars@.len() as int) =~= vars@);
    out
}

fn one_var(v: &Var) -> (r: Vec<Var>)
    ensures
        vars_view(r@) == seq![v@],
{
    let mut out: Vec<Var> = Vec::new();
    out.push(v.clone());
    assert(vars_view(out@) =~= seq![v@]);
    out
}

fn two_vars(a: &Var, b: &Var) -> (r: Vec<Var>)
    ensures
        vars_view(r@) == seq![a@, b@],
{
    let mut out: Vec<Var> = Vec::new();
    out.push(a.clone());
    out.push(b.clone());
    assert(vars_view(out@) =~= seq![a@, b@]);
    out
}

fn list_holds(vars: &Vec<Var>, var: &Var) -> (r: bool)
    ensures
        r == vars_view(vars@).contains(var@),
{
    let mut i: usize = 0;
    while i < vars.len()
        invariant
            i <= vars@.len(),
            forall|j: int| 0 <= j < i ==> vars_view(vars@)[j] != var@,
        decreases vars@.len() - i,
    {
        if vars[i] == *var {
            assert(vars_view(vars@)[i as int] == var@);
            return true;
        }
        i += 1;
    }
    false
}

impl Clone for IrNode {
    fn clone(&self) -> (r: Self)
        ensures
            r@ == self@,
    {
        match self {
            IrNode::Assign { out, src } => IrNode::Assign { out: out.clone(), src: src.clone() },
            IrNode::AssignConst { out, constant } => IrNode::AssignConst {
                out: out.clone(),
                constant: *constant,
            },
            IrNode::Cast { src, ty, out } => IrNode::Cast {
                src: src.clone(),
                ty: *ty,
                out: out.clone(),
            },
            IrNode::Neg { src, out } => IrNode::Neg { src: src.clone(), out: out.clone() },
            IrNode::Binary { op, lhs, rhs, out } => IrNode::Binary {
                op: *op,
                lhs: lhs.clone(),
                rhs: rhs.clone(),
                out: out.clone(),
            },
            IrNode::Compare { mode, lhs, rhs, out } => IrNode::Compare {
                mode: *mode,
                lhs: lhs.clone(),
                rhs: rhs.clone(),
                out: out.clone(),
            },
            IrNode::Br { target } => IrNode::Br { target: target.clone() },
            IrNode::BrCond { cond, if_true, if_false } => IrNode::BrCond {
                cond: cond.clone(),
                if_true: if_true.clone(),
                if_false: if_false.clone(),
            },
            IrNode::Switch { value, cases, default } => IrNode::Switch {
                value: value.clone(),
                cases: clone_cases(cases),
                default: default.clone(),
            },
            IrNode::Call { func, ret, args, out } => IrNode::Call {
                func: func.clone(),
                ret: *ret,
                args: clone_vars(args),
                out: out.clone(),
            },
            IrNode::Return { result } => IrNode::Return {
                result: match result {
                    Some(v) => Some(v.clone()),
                    None => None,
                },
            },
            IrNode::Store { ptr, value } => IrNode::Store {
                ptr: ptr.clone(),
                value: value.clone(),
            },
            IrNode::StoreConst { ptr, constant } => IrNode::StoreConst {
                ptr: ptr.clone(),
                constant: *constant,
            },
            IrNode::Load { out, ptr, ty } => IrNode::Load {
                out: out.clone(),
                ptr: ptr.clone(),
                ty: *ty,
            },
            IrNode::Alloca { out, ty } => IrNode::Alloca { out: out.clone(), ty: *ty },
            IrNode::AdressLoad { out, symbol } => IrNode::AdressLoad {
                out: out.clone(),
                symbol: symbol.clone(),
            },
        }
    }
}

impl IrNode {
    /// Returns the variables that the node reads
    pub fn inputs(&self) -> (r: Vec<Var>)
        ensures
            vars_view(r@) == self@.inputs(),
    {
        match self {
            IrNode::Assign { src, .. } => one_var(src),
            IrNode::Cast { src, .. } => one_var(src),
            IrNode::Neg { src, .. } => one_var(src),
            IrNode::Binary { lhs, rhs, .. } => two_vars(lhs, rhs),
            IrNode::Compare { lhs, rhs, .. } => two_vars(lhs, rhs),
            IrNode::BrCond { cond, .. } => one_var(cond),
            IrNode::Switch { value, .. } => one_var(value),
            IrNode::Call { args, .. } => clone_vars(args),
            IrNode::Return { result } => match result {
                Some(v) => one_var(v),
                None => {
                    let out: Vec<Var> = Vec::new();
                    assert(vars_view(out@) =~= Seq::<VarView>::empty());
                    out
                },
            },
            IrNode::Store { ptr, value } => two_vars(ptr, value),
            IrNode::StoreConst { ptr, .. } => one_var(ptr),
            IrNode::Load { ptr, .. } => one_var(ptr),
            _ => {
                let out: Vec<Var> = Vec::new();
                assert(vars_view(out@) =~= Seq::<VarView>::empty());
                out
            },
        }
    }

    /// Returns if the node reads the variable
    pub fn uses(&self, var: &Var) -> (r: bool)
        ensures
            r == self@.uses(var@),
    {
        match self {
            IrNode::Assign { src, .. } => {
                assert(seq![src@][0] == src@);
                *var == *src
            },
            IrNode::Cast { src, .. } => {
                assert(seq![src@][0] == src@);
                *var == *src
            },
            IrNode::Neg { src, .. } => {
                assert(seq![src@][0] == src@);
                *var == *src
            },
            IrNode::Binary { lhs, rhs, .. } => {
                assert(seq![lhs@, rhs@][0] == lhs@ && seq![lhs@, rhs@][1] == rhs@);
                *var == *lhs || *var == *rhs
            },
            IrNode::Compare { lhs, rhs, .. } => {
                assert(seq![lhs@, rhs@][0] == lhs@ && seq![lhs@, rhs@][1] == rhs@);
                *var == *lhs || *var == *rhs
            },
            IrNode::BrCond { cond, .. } => {
                assert(seq![cond@][0] == cond@);
                *var == *cond
            },
            IrNode::Switch { value, .. } => {
                assert(seq![value@][0] == value@);
                *var == *value
            },
            IrNode::Call { args, .. } => list_holds(args, var),
            IrNode::Return { result } => match result {
                Some(v) => {
                    assert(seq![v@][0] == v@);
                    *var == *v
                },
                None => false,
            },
            IrNode::Store { ptr, value } => {
                assert(seq![ptr@, value@][0] == ptr@ && seq![ptr@, value@][1] == value@);
                *var == *ptr || *var == *value
            },
            IrNode::StoreConst { ptr, .. } => {
                assert(seq![ptr@][0] == ptr@);
                *var == *ptr
            },
            IrNode::Load { ptr, .. } => {
                assert(seq![ptr@][0] == ptr@);
                *var == *ptr
            },
            _ => false,
        }
    }

    /// Returns the variable that the node defines
    pub fn output(&self) -> (r: Option<Var>)
        ensures
            var_opt_view(r) == self@.output(),
    {
        match self {
            IrNode::Assign { out, .. } => Some(out.clone()),
            IrNode::AssignConst { out, .. } => Some(out.clone()),
            IrNode::Cast { out, .. } => Some(out.clone()),
            IrNode::Neg { out, .. } => Some(out.clone()),
            IrNode::Binary { out, .. } => Some(out.clone()),
            IrNode::Compare { out, .. } => Some(out.clone()),
            IrNode::Call { out, .. } => Some(out.clone()),
            IrNode::Load { out, .. } => Some(out.clone()),
            IrNode::Alloca { out, .. } => Some(out.clone()),
            IrNode::AdressLoad { out, .. } => Some(out.clone()),
            _ => None,
        }
    }

    /// Returns the type that the operation of the node gives to its result
    pub fn expected_result_type(&self) -> (r: Option<TypeMetadata>)
        ensures
            r == self@.expected_result_type(),
    {
        match self {
            IrNode::Assign { src, .. } => Some(src.ty),
            IrNode::AssignConst { constant, .. } => Some(constant.ty),
            IrNode::Cast { ty, .. } => Some(*ty),
            IrNode::Neg { src, .. } => Some(src.ty),
            IrNode::Binary { lhs, .. } => Some(lhs.ty),
            IrNode::Compare { .. } => Some(TypeMetadata::u8),
            IrNode::Call { ret, .. } => Some(*ret),
            IrNode::Load { ty, .. } => Some(*ty),
            IrNode::Alloca { .. } => Some(TypeMetadata::ptr),
            IrNode::AdressLoad { .. } => Some(TypeMetadata::ptr),
            _ => None,
        }
    }

    /// Returns if the node ends a block
    pub fn is_terminator(&self) -> (r: bool)
        ensures
            r == self@.is_terminator(),
    {
        match self {
            IrNode::Br { .. } => true,
            IrNode::BrCond { .. } => true,
            IrNode::Switch { .. } => true,
            IrNode::Return { .. } => true,
            _ => false,
        }
    }

    fn check_operands(&self, ret: TypeMetadata) -> (r: Result<(), VerifyError>)
        ensures
            match r {
                Ok(()) => self@.operand_error(ret) is None,
                Err(e) => self@.operand_error(ret) == Some(e@),
            },
    {
        match self {
            IrNode::Binary { lhs, rhs, .. } => {
                if lhs.ty != rhs.ty {
                    return Err(VerifyError::Op0Op1TyNoMatch(lhs.ty, rhs.ty));
                }
            },
            IrNode::Compare { lhs, rhs, .. } => {
                if lhs.ty != rhs.ty {
                    return Err(VerifyError::Op0Op1TyNoMatch(lhs.ty, rhs.ty));
                }
            },
            IrNode::Load { ptr, .. } => {
                if ptr.ty != TypeMetadata::ptr {
                    return Err(VerifyError::Op0Op1TyNoMatch(ptr.ty, TypeMetadata::ptr));
                }
            },
            IrNode::Return { result } => match result {
                Some(v) => {
                    if v.ty != ret {
                        return Err(VerifyError::ReturnTypeMismatch(v.ty, ret));
                    }
                },
                None => {
                    if ret != TypeMetadata::Void {
                        return Err(VerifyError::ReturnTypeMismatch(TypeMetadata::Void, ret));
                    }
                },
            },
            _ => {},
        }
        Ok(())
    }

    /// Verifies the node inside a function of the given type: the types of
    /// its operands fit each other, and its output has the type that its
    /// operation gives.
    pub fn verify(&self, ty: &FunctionType) -> (r: Result<(), VerifyError>)
        ensures
            match r {
                Ok(()) => self@.verify_error(ty.ret) is None,
                Err(e) => self@.verify_error(ty.ret) == Some(e@),
            },
            r is Ok && self@.output() is Some ==> self@.expected_result_type() == Some(
                self@.output()->0.ty,
            ),
    {
        self.check_operands(ty.ret)?;
        match (self.output(), self.expected_result_type()) {
            (Some(out), Some(expected)) => {
                if out.ty != expected {
                    return Err(VerifyError::Op0Op1TyNoMatch(out.ty, expected));
                }
            },
            _ => {},
        }
        Ok(())
    }

    /// Folds the node: returns the simpler node that does the same, if
    /// there is one. The node itself stays as it is.
    pub fn eval(&self) -> (r: Option<IrNode>)
        ensures
            node_opt_view(r) == self@.eval(),
            r matches Some(folded) ==> folded@.output() == self@.output(),
    {
        match self {
            IrNode::Cast { src, ty, out } => {
                if *ty == src.ty {
                    Some(IrNode::Assign { out: out.clone(), src: src.clone() })
                } else {
                    None
                }
            },
            _ => None,
        }
    }
}


/// A variable whose value is known to be a constant.
#[derive(Debug, PartialEq, Eq)]
pub struct Known {
    /// The name of the variable.
    pub name: String,
    /// The constant that the variable holds.
    pub value: Type,
}

/// What a known variable denotes.
pub struct KnownView {
    pub name: Seq<char>,
    pub value: Type,
}

impl View for Known {
    type V = KnownView;

    open spec fn view(&self) -> KnownView {
        KnownView { name: self.name@, value: self.value }
    }
}

/// What a list of known variables denotes.
pub open spec fn knowns_view(s: Seq<Known>) -> Seq<KnownView> {
    s.map_values(|k: Known| k@)
}

/// The constant that a variable is known to hold: that of the first
/// entry of the list with the name of the variable and a constant of its
/// type.
pub open spec fn known_value(env: Seq<KnownView>, var: VarView) -> Option<Type>
    decreases env.len(),
{
    if env.len() == 0 {
        None
    } else if env[0].name == var.name && env[0].value.ty == var.ty {
        Some(env[0].value)
    } else {
        known_value(env.drop_first(), var)
    }
}

impl IrNodeView {
    /// The node with its input replaced by the constant that the input is
    /// known to hold, for the nodes that have a form with a constant: a
    /// copy and a store.
    pub open spec fn maybe_inline(self, env: Seq<KnownView>) -> Option<IrNodeView> {
        match self {
            IrNodeView::Assign { out, src } => match known_value(env, src) {
                Some(constant) => Some(IrNodeView::AssignConst { out, constant }),
                None => None,
            },
            IrNodeView::Store { ptr, value } => match known_value(env, value) {
                Some(constant) => Some(IrNodeView::StoreConst { ptr, constant }),
                None => None,
            },
            _ => None,
        }
    }

    /// The constant that a variable is known to hold has the type of the
    /// variable.
    pub proof fn lemma_known_value_type(env: Seq<KnownView>, var: VarView)
        ensures
            known_value(env, var) matches Some(constant) ==> constant.ty == var.ty,
        decreases env.len(),
    {
        if env.len() > 0 {
            Self::lemma_known_value_type(env.drop_first(), var);
        }
    }

    /// Replacing an input by its constant keeps the output of a node, and
    /// a node that verifies still verifies.
    pub proof fn lemma_inline_keeps_output(self, env: Seq<KnownView>, ret: TypeMetadata)
        ensures
            self.maybe_inline(env) matches Some(inlined) ==> inlined.output() == self.output() && (
            self.verify_error(ret) is None ==> inlined.verify_error(ret) is None),
    {
        match self {
            IrNodeView::Assign { out, src } => {
                Self::lemma_known_value_type(env, src);
            },
            IrNodeView::Store { ptr, value } => {
                Self::lemma_known_value_type(env, value);
            },
            _ => {},
        }
    }
}

fn lookup(env: &Vec<Known>, var: &Var) -> (r: Option<Type>)
    ensures
        r == known_value(knowns_view(env@), var@),
{
    let ghost all = knowns_view(env@);
    assert(all.skip(0) =~= all);
    let mut i: usize = 0;
    while i < env.len()
        invariant
            i <= env@.len(),
            all == knowns_view(env@),
            known_value(all, var@) == known_value(all.skip(i as int), var@),
        decreases env@.len() - i,
    {
        proof {
            assert(all.skip(i as int)[0] == env@[i as int]@);
            assert(all.skip(i as int).drop_first() =~= all.skip(i + 1));
        }
        if env[i].name == var.name && env[i].value.ty == var.ty {
            return Some(env[i].value);
        }
        i += 1;
    }
    proof {
        assert(all.skip(env@.len() as int) =~= Seq::<KnownView>::empty());
    }
    None
}

impl IrNode {
    /// Replaces the input of the node by the constant that it is known to
    /// hold: returns the node in its form with a constant, if it has such
    /// a form and the input is known. The node itself stays as it is.
    pub fn maybe_inline(&self, env: &Vec<Known>) -> (r: Option<IrNode>)
        ensures
            node_opt_view(r) == self@.maybe_inline(knowns_view(env@)),
            r matches Some(inlined) ==> inlined@.output() == self@.output(),
    {
        match self {
            IrNode::Assign { out, src } => match lookup(env, src) {
                Some(constant) => Some(IrNode::AssignConst { out: out.clone(), constant }),
                None => None,
            },
            IrNode::Store { ptr, value } => match lookup(env, value) {
                Some(constant) => Some(IrNode::StoreConst { ptr: ptr.clone(), constant }),
                None => None,
            },
            _ => None,
        }
    }
}

} // verus!
