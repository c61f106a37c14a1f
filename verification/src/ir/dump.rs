//! The text of the nodes, plain or in colors.
use vstd::prelude::*;
use crate::codegen::machine::{CmpMode, SwitchCase, cases_view};
use crate::ir::nodes::{BinaryOp, IrNode, IrNodeView};
use crate::ir::types::{TypeMetadata, Var, VarView, vars_view};
use crate::text::{
    ColorClass, ColorProfile, push_styled, signed_decimal, signed_decimal_text, styled,
};

verus! {

/// The name of an operation with two inputs.
pub open spec fn op_text(op: BinaryOp) -> Seq<char> {
    match op {
        BinaryOp::Add => "add"@,
        BinaryOp::Sub => "sub"@,
        BinaryOp::Mul => "mul"@,
        BinaryOp::Div => "div"@,
        BinaryOp::Rem => "rem"@,
        BinaryOp::And => "and"@,
        BinaryOp::Or => "or"@,
        BinaryOp::Xor => "xor"@,
        BinaryOp::Shl => "shl"@,
        BinaryOp::Shr => "shr"@,
    }
}

/// The name of a way to compare.
pub open spec fn mode_text(mode: CmpMode) -> Seq<char> {
    match mode {
        CmpMode::Eq => "eq"@,
        CmpMode::NotEq => "ne"@,
        CmpMode::GT => "gt"@,
        CmpMode::LT => "lt"@,
        CmpMode::GE => "ge"@,
        CmpMode::LE => "le"@,
    }
}

/// A printer: what is printed, and in which colors if in any.
pub struct Printer {
    pub profile: Option<ColorProfile>,
}

impl Printer {
    /// The name of an instruction.
    pub open spec fn instr(self, text: Seq<char>) -> Seq<char> {
        styled(self.profile, text, ColorClass::Instr)
    }

    /// A type.
    pub open spec fn ty(self, ty: TypeMetadata) -> Seq<char> {
        styled(self.profile, ty.name_spec(), ColorClass::Ty)
    }

    /// A variable.
    pub open spec fn var(self, var: VarView) -> Seq<char> {
        styled(self.profile, var.name, ColorClass::Var)
    }

    /// A constant.
    pub open spec fn value(self, value: i64) -> Seq<char> {
        styled(self.profile, signed_decimal(value as int), ColorClass::Value)
    }

    /// The name of a function, block or symbol.
    pub open spec fn name(self, name: Seq<char>) -> Seq<char> {
        styled(self.profile, name, ColorClass::Name)
    }

    /// `out = ` in front of the text of a node with an output.
    pub open spec fn assign(self, out: VarView) -> Seq<char> {
        self.var(out) + " = "@
    }

    /// A list of variables, a comma and a blank between each two.
    pub open spec fn vars(self, vars: Seq<VarView>) -> Seq<char>
        decreases vars.len(),
    {
        if vars.len() == 0 {
            ""@
        } else if vars.len() == 1 {
            self.var(vars[0])
        } else {
            self.vars(vars.drop_last()) + ", "@ + self.var(vars.last())
        }
    }

    /// The entries of a switch table: each a value, a blank and a block, a
    /// comma and a blank between each two.
    pub open spec fn cases(self, cases: Seq<(i64, Seq<char>)>) -> Seq<char>
        decreases cases.len(),
    {
        if cases.len() == 0 {
            ""@
        } else if cases.len() == 1 {
            self.value(cases[0].0) + " "@ + self.name(cases[0].1)
        } else {
            self.cases(cases.drop_last()) + ", "@ + self.value(cases.last().0) + " "@ + self.name(
                cases.last().1,
            )
        }
    }

    /// The text of a node.
    pub open spec fn node(self, node: IrNodeView) -> Seq<char> {
        match node {
            IrNodeView::Assign { out, src } => self.assign(out) + self.ty(src.ty) + " "@ + self.var(
                src,
            ),
            IrNodeView::AssignConst { out, constant } => self.assign(out) + self.ty(constant.ty)
                + " "@ + self.value(constant.value),
            IrNodeView::Cast { src, ty, out } => self.assign(out) + self.instr("cast"@) + " "@
                + self.var(src) + " "@ + self.instr("to"@) + " "@ + self.ty(ty),
            IrNodeView::Neg { src, out } => self.assign(out) + self.instr("neg"@) + " "@ + self.ty(
                src.ty,
            ) + " "@ + self.var(src),
            IrNodeView::Binary { op, lhs, rhs, out } => self.assign(out) + self.instr(op_text(op))
                + " "@ + self.ty(lhs.ty) + " "@ + self.var(lhs) + ", "@ + self.var(rhs),
            IrNodeView::Compare { mode, lhs, rhs, out } => self.assign(out) + self.instr("cmp"@)
                + " "@ + self.instr(mode_text(mode)) + " "@ + self.ty(lhs.ty) + " "@ + self.var(lhs)
                + ", "@ + self.var(rhs),
            IrNodeView::Br { target } => self.instr("br"@) + " "@ + self.name(target),
            IrNodeView::BrCond { cond, if_true, if_false } => self.instr("br"@) + " "@ + self.instr(
                "cond"@,
            ) + " "@ + self.var(cond) + " "@ + self.name(if_true) + ", "@ + self.name(if_false),
            IrNodeView::Switch { value, cases, default } => self.instr("switch"@) + " "@ + self.ty(
                value.ty,
            ) + " "@ + self.var(value) + ", "@ + self.instr("default"@) + " "@ + self.name(default)
                + " ["@ + self.cases(cases) + "]"@,
            IrNodeView::Call { func, ret, args, out } => self.assign(out) + self.instr("call"@)
                + " "@ + self.ty(ret) + " "@ + self.name(func) + " "@ + self.vars(args),
            IrNodeView::Return { result } => match result {
                Some(v) => self.instr("ret"@) + " "@ + self.ty(v.ty) + " "@ + self.var(v),
                None => self.instr("ret"@) + " "@ + self.ty(TypeMetadata::Void),
            },
            IrNodeView::Store { ptr, value } => self.instr("store"@) + " "@ + self.ty(value.ty)
                + " "@ + self.var(value) + ", "@ + self.var(ptr),
            IrNodeView::StoreConst { ptr, constant } => self.instr("store"@) + " "@ + self.ty(
                constant.ty,
            ) + " "@ + self.value(constant.value) + ", "@ + self.var(ptr),
            IrNodeView::Load { out, ptr, ty } => self.assign(out) + self.instr("load"@) + " "@
                + self.ty(ty) + " "@ + self.var(ptr),
            IrNodeView::Alloca { out, ty } => self.assign(out) + self.instr("alloca"@) + " "@
                + self.ty(ty),
            IrNodeView::AdressLoad { out, symbol } => self.assign(out) + self.instr("ptr"@) + " "@
                + self.name(symbol),
        }
    }
}

/// The text of a node without colors.
pub open spec fn dump_text(node: IrNodeView) -> Seq<char> {
    (Printer { profile: None }).node(node)
}

/// The text of a node in the colors of a profile.
pub open spec fn colored_text(node: IrNodeView, profile: ColorProfile) -> Seq<char> {
    (Printer { profile: Some(profile) }).node(node)
}

fn op_name(op: BinaryOp) -> (r: &'static str)
    ensures
        r@ == op_text(op),
{
    match op {
        BinaryOp::Add => "add",
        BinaryOp::Sub => "sub",
        BinaryOp::Mul => "mul",
        BinaryOp::Div => "div",
        BinaryOp::Rem => "rem",
        BinaryOp::And => "and",
        BinaryOp::Or => "or",
        BinaryOp::Xor => "xor",
        BinaryOp::Shl => "shl",
        BinaryOp::Shr => "shr",
    }
}

fn mode_name(mode: CmpMode) -> (r: &'static str)
    ensures
        r@ == mode_text(mode),
{
    match mode {
        CmpMode::Eq => "eq",
        CmpMode::NotEq => "ne",
        CmpMode::GT => "gt",
        CmpMode::LT => "lt",
        CmpMode::GE => "ge",
        CmpMode::LE => "le",
    }
}

fn put_instr(s: &mut String, profile: &Option<ColorProfile>, text: &str)
    ensures
        final(s)@ == old(s)@ + (Printer { profile: *profile }).instr(text@),
{
    push_styled(s, profile, text, ColorClass::Instr);
}

fn put_ty(s: &mut String, profile: &Option<ColorProfile>, ty: TypeMetadata)
    ensures
        final(s)@ == old(s)@ + (Printer { profile: *profile }).ty(ty),
{
    let name = ty.to_string();
    push_styled(s, profile, name.as_str(), ColorClass::Ty);
}

fn put_var(s: &mut String, profile: &Option<ColorProfile>, var: &Var)
    ensures
        final(s)@ == old(s)@ + (Printer { profile: *profile }).var(var@),
{
    push_styled(s, profile, var.name.as_str(), ColorClass::Var);
}

fn put_value(s: &mut String, profile: &Option<ColorProfile>, value: i64)
    ensures
        final(s)@ == old(s)@ + (Printer { profile: *profile }).value(value),
{
    let text = signed_decimal_text(value);
    push_styled(s, profile, text.as_str(), ColorClass::Value);
}

fn put_name(s: &mut String, profile: &Option<ColorProfile>, name: &String)
    ensures
        final(s)@ == old(s)@ + (Printer { profile: *profile }).name(name@),
{
    push_styled(s, profile, name.as_str(), ColorClass::Name);
}

fn put_assign(s: &mut String, profile: &Option<ColorProfile>, out: &Var)
    ensures
        final(s)@ == old(s)@ + (Printer { profile: *profile }).assign(out@),
{
    put_var(s, profile, out);
    s.append(" = ");
    assert(s@ =~= old(s)@ + (Printer { profile: *profile }).assign(out@));
}

fn put_vars(s: &mut String, profile: &Option<ColorProfile>, vars: &Vec<Var>)
    ensures
        final(s)@ == old(s)@ + (Printer { profile: *profile }).vars(vars_view(vars@)),
{
    let ghost p = Printer { profile: *profile };
    let ghost all = vars_view(vars@);
    proof {
        reveal_strlit("");
    }
    if vars.len() == 0 {
        assert(s@ =~= old(s)@ + p.vars(all));
        return ;
    }
    put_var(s, profile, &vars[0]);
    assert(all.take(1)[0] == vars@[0]@);
    let mut i: usize = 1;
    while i < vars.len()
        invariant
            1 <= i <= vars@.len(),
            p == (Printer { profile: *profile }),
            all == vars_view(vars@),
            s@ == old(s)@ + p.vars(all.take(i as int)),
        decreases vars@.len() - i,
    {
        s.append(", ");
        put_var(s, profile, &vars[i]);
        proof {
            assert(all.take(i + 1).drop_last() =~= all.take(i as int));
            assert(all.take(i + 1).last() == vars@[i as int]@);
            assert(s@ =~= old(s)@ + p.vars(all.take(i + 1)));
        }
        i += 1;
    }
    assert(all.take(vars@.len() as int) =~= all);
}

fn put_cases(s: &mut String, profile: &Option<ColorProfile>, cases: &Vec<SwitchCase>)
    ensures
        final(s)@ == old(s)@ + (Printer { profile: *profile }).cases(cases_view(cases@)),
{
    let ghost p = Printer { profile: *profile };
    let ghost all = cases_view(cases@);
    proof {
        reveal_strlit("");
    }
    if cases.len() == 0 {
        assert(s@ =~= old(s)@ + p.cases(all));
        return ;
    }
    put_value(s, profile, cases[0].value);
    s.append(" ");
    put_name(s, profile, &cases[0].block);
    assert(all.take(1)[0] == cases@[0]@);
    assert(s@ =~= old(s)@ + p.cases(all.take(1)));
    let mut i: usize = 1;
    while i < cases.len()
        invariant
            1 <= i <= cases@.len(),
            p == (Printer { profile: *profile }),
            all == cases_view(cases@),
            s@ == old(s)@ + p.cases(all.take(i as int)),
        decreases cases@.len() - i,
    {
        s.append(", ");
        put_value(s, profile, cases[i].value);
        s.append(" ");
        put_name(s, profile, &cases[i].block);
        proof {
            assert(all.take(i + 1).drop_last() =~= all.take(i as int));
            assert(all.take(i + 1).last() == cases@[i as int]@);
            assert(s@ =~= old(s)@ + p.cases(all.take(i + 1)));
        }
        i += 1;
    }
    assert(all.take(cases@.len() as int) =~= all);
}

fn render_value(node: &IrNode, profile: &Option<ColorProfile>) -> (r: String)
    requires
        node@.output() is Some,
    ensures
        r@ == (Printer { profile: *profile }).node(node@),
{
    let ghost p = Printer { profile: *profile };
    let mut s = String::new();
    match node {
        IrNode::Assign { out, src } => {
            put_assign(&mut s, profile, out);
            put_ty(&mut s, profile, src.ty);
            s.append(" ");
            put_var(&mut s, profile, src);
        },
        IrNode::AssignConst { out, constant } => {
            put_assign(&mut s, profile, out);
            put_ty(&mut s, profile, constant.ty);
            s.append(" ");
            put_value(&mut s, profile, constant.value);
        },
        IrNode::Cast { src, ty, out } => {
            put_assign(&mut s, profile, out);
            put_instr(&mut s, profile, "cast");
            s.append(" ");
            put_var(&mut s, profile, src);
            s.append(" ");
            put_instr(&mut s, profile, "to");
            s.append(" ");
            put_ty(&mut s, profile, *ty);
        },
        IrNode::Neg { src, out } => {
            put_assign(&mut s, profile, out);
            put_instr(&mut s, profile, "neg");
            s.append(" ");
            put_ty(&mut s, profile, src.ty);
            s.append(" ");
            put_var(&mut s, profile, src);
        },
        IrNode::Binary { op, lhs, rhs, out } => {
            put_assign(&mut s, profile, out);
            put_instr(&mut s, profile, op_name(*op));
            s.append(" ");
            put_ty(&mut s, profile, lhs.ty);
            s.append(" ");
            put_var(&mut s, profile, lhs);
            s.append(", ");
            put_var(&mut s, profile, rhs);
        },
        IrNode::Compare { mode, lhs, rhs, out } => {
            put_assign(&mut s, profile, out);
            put_instr(&mut s, profile, "cmp");
            s.append(" ");
            put_instr(&mut s, profile, mode_name(*mode));
            s.append(" ");
            put_ty(&mut s, profile, lhs.ty);
            s.append(" ");
            put_var(&mut s, profile, lhs);
            s.append(", ");
            put_var(&mut s, profile, rhs);
        },
        IrNode::Call { func, ret, args, out } => {
            put_assign(&mut s, profile, out);
            put_instr(&mut s, profile, "call");
            s.append(" ");
            put_ty(&mut s, profile, *ret);
            s.append(" ");
            put_name(&mut s, profile, func);
            s.append(" ");
            put_vars(&mut s, profile, args);
        },
        IrNode::Load { out, ptr, ty } => {
            put_assign(&mut s, profile, out);
            put_instr(&mut s, profile, "load");
            s.append(" ");
            put_ty(&mut s, profile, *ty);
            s.append(" ");
            put_var(&mut s, profile, ptr);
        },
        IrNode::Alloca { out, ty } => {
            put_assign(&mut s, profile, out);
            put_instr(&mut s, profile, "alloca");
            s.append(" ");
            put_ty(&mut s, profile, *ty);
        },
        IrNode::AdressLoad { out, symbol } => {
            put_assign(&mut s, profile, out);
            put_instr(&mut s, profile, "ptr");
            s.append(" ");
            put_name(&mut s, profile, symbol);
        },
        _ => {},
    }
    assert(s@ =~= p.node(node@));
    s
}

fn render_effect(node: &IrNode, profile: &Option<ColorProfile>) -> (r: String)
    requires
        node@.output() is None,
    ensures
        r@ == (Printer { profile: *profile }).node(node@),
{
    let ghost p = Printer { profile: *profile };
    let mut s = String::new();
    match node {
        IrNode::Br { target } => {
            put_instr(&mut s, profile, "br");
            s.append(" ");
            put_name(&mut s, profile, target);
        },
        IrNode::BrCond { cond, if_true, if_false } => {
            put_instr(&mut s, profile, "br");
            s.append(" ");
            put_instr(&mut s, profile, "cond");
            s.append(" ");
            put_var(&mut s, profile, cond);
            s.append(" ");
            put_name(&mut s, profile, if_true);
            s.append(", ");
            put_name(&mut s, profile, if_false);
        },
        IrNode::Switch { value, cases, default } => {
            put_instr(&mut s, profile, "switch");
            s.append(" ");
            put_ty(&mut s, profile, value.ty);
            s.append(" ");
            put_var(&mut s, profile, value);
            s.append(", ");
            put_instr(&mut s, profile, "default");
            s.append(" ");
            put_name(&mut s, profile, default);
            s.append(" [");
            put_cases(&mut s, profile, cases);
            s.append("]");
        },
        IrNode::Return { result } => {
            put_instr(&mut s, profile, "ret");
            s.append(" ");
            match result {
                Some(v) => {
                    put_ty(&mut s, profile, v.ty);
                    s.append(" ");
                    put_var(&mut s, profile, v);
                },
                None => {
                    put_ty(&mut s, profile, TypeMetadata::Void);
                },
            }
        },
        IrNode::Store { ptr, value } => {
            put_instr(&mut s, profile, "store");
            s.append(" ");
            put_ty(&mut s, profile, value.ty);
            s.append(" ");
            put_var(&mut s, profile, value);
            s.append(", ");
            put_var(&mut s, profile, ptr);
        },
        IrNode::StoreConst { ptr, constant } => {
            put_instr(&mut s, profile, "store");
            s.append(" ");
            put_ty(&mut s, profile, constant.ty);
            s.append(" ");
            put_value(&mut s, profile, constant.value);
            s.append(", ");
            put_var(&mut s, profile, ptr);
        },
        _ => {},
    }
    assert(s@ =~= p.node(node@));
    s
}

impl IrNode {
    /// Dumps the node into a string
    pub fn dump(&self) -> (r: String)
        ensures
            r@ == dump_text(self@),
    {
        let plain: Option<ColorProfile> = None;
        match self.output() {
            Some(_) => render_value(self, &plain),
            None => render_effect(self, &plain),
        }
    }

    /// Dumps the node into a string with the colors of the profile
    pub fn dumpColored(&self, profile: ColorProfile) -> (r: String)
        ensures
            r@ == colored_text(self@, profile),
    {
        let colors = Some(profile);
        match self.output() {
            Some(_) => render_value(self, &colors),
            None => render_effect(self, &colors),
        }
    }
}

} // verus!
