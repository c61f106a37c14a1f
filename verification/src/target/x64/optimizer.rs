//! The peephole optimizer: local rewrites on a stream of machine
//! instructions, taken left to right in one pass. Each instruction is held
//! against the end of what was emitted so far.
use vstd::prelude::*;
use crate::target::x64::instr::{
    Instr, InstrView, MemOp, Mnemonic, Operand, OperandView, X64MCInstr, stream_view,
};

verus! {

/// A move of an operand onto itself.
pub open spec fn is_self_move(instr: InstrView) -> bool {
    &&& instr.mnemonic == Mnemonic::Mov
    &&& instr.op1 is Some
    &&& instr.op1 == instr.op2
}

/// `mov r, a` followed by `add r, b`, all three of them registers.
pub open spec fn is_mov_add(last: InstrView, instr: InstrView) -> bool {
    &&& last.mnemonic == Mnemonic::Mov
    &&& instr.mnemonic == Mnemonic::Add
    &&& last.op1 matches Some(OperandView::Reg(r))
    &&& instr.op1 matches Some(OperandView::Reg(r2))
    &&& r == r2
    &&& last.op2 matches Some(OperandView::Reg(_))
    &&& instr.op2 matches Some(OperandView::Reg(_))
}

/// The `lea r, [a + b]` that stands for `mov r, a ; add r, b`.
pub open spec fn lea_of_mov_add(last: InstrView, instr: InstrView) -> InstrView {
    InstrView::with2(
        Mnemonic::Lea,
        last.op1->0,
        OperandView::Mem(MemOp::sum(last.op2->0->Reg_0, instr.op2->0->Reg_0)),
    )
}

/// Two moves into the same register, of which the second does not read the
/// register: what the first one moved is never used.
pub open spec fn is_dead_move(last: InstrView, instr: InstrView) -> bool {
    &&& last.mnemonic == Mnemonic::Mov
    &&& instr.mnemonic == Mnemonic::Mov
    &&& last.op1 matches Some(OperandView::Reg(r))
    &&& instr.op1 matches Some(OperandView::Reg(r2))
    &&& r == r2
    &&& instr.op2 matches Some(src)
    &&& !src.reads(r)
}

/// `mov a, b` followed by `mov b, a`: the second move brings nothing new.
pub open spec fn is_move_back(last: InstrView, instr: InstrView) -> bool {
    &&& last.mnemonic == Mnemonic::Mov
    &&& instr.mnemonic == Mnemonic::Mov
    &&& last.op1 is Some
    &&& last.op2 is Some
    &&& instr.op2 == last.op1
    &&& instr.op1 == last.op2
}

/// A call with its target operand.
pub open spec fn is_call(instr: InstrView) -> bool {
    instr.mnemonic == Mnemonic::Call && instr.op1 is Some
}

/// The jump that takes the place of a call in tail position.
pub open spec fn tail_jump(call: InstrView) -> InstrView {
    InstrView::with1(Mnemonic::Jmp, call.op1->0)
}

/// The stream after one more instruction was considered: `out` is what was
/// emitted so far, `instr` the instruction that follows in the input.
///
/// * A move of an operand onto itself is left out.
/// * `mov r, a ; add r, b` on registers becomes `lea r, [a + b]`.
/// * Of two moves into one register the earlier is dropped, unless the
///   later reads the register.
/// * After `mov a, b`, a `mov b, a` is left out.
/// * A `ret` after a call turns the call into a jump and is left out; the
///   relocation record of the call may stand between them and stays.
/// * An instruction that undoes the one in front of it is left out together
///   with that one.
///
/// The first rule that applies decides. No rule looks behind a `Link` or
/// `StartOptimization` record but the fifth, which changes the call in
/// front of its own relocation record and moves nothing.
pub open spec fn peephole_step(out: Seq<InstrView>, instr: InstrView) -> Seq<InstrView> {
    if is_self_move(instr) {
        out
    } else if out.len() == 0 {
        out.push(instr)
    } else {
        let last = out.last();
        if is_mov_add(last, instr) {
            out.drop_last().push(lea_of_mov_add(last, instr))
        } else if is_dead_move(last, instr) {
            out.drop_last().push(instr)
        } else if is_move_back(last, instr) {
            out
        } else if instr.mnemonic == Mnemonic::Ret && is_call(last) {
            out.drop_last().push(tail_jump(last))
        } else if instr.mnemonic == Mnemonic::Ret && last.mnemonic == Mnemonic::Link && out.len()
            >= 2 && is_call(out[out.len() - 2]) {
            out.update(out.len() - 2, tail_jump(out[out.len() - 2]))
        } else if instr.inverts(last) {
            out.drop_last()
        } else {
            out.push(instr)
        }
    }
}

/// The optimized form of a stream: every instruction in turn is held
/// against the end of the optimized form of what stands in front of it.
pub open spec fn peephole(input: Seq<InstrView>) -> Seq<InstrView>
    decreases input.len(),
{
    if input.len() == 0 {
        Seq::empty()
    } else {
        peephole_step(peephole(input.drop_last()), input.last())
    }
}

/// Whether an instruction is a record that the optimizer must keep in
/// place: a relocation or the start marker.
pub open spec fn is_record(instr: InstrView) -> bool {
    instr.mnemonic == Mnemonic::Link || instr.mnemonic == Mnemonic::StartOptimization
}

/// The optimized stream is never longer than its input.
pub proof fn lemma_peephole_shrinks(input: Seq<InstrView>)
    ensures
        peephole(input).len() <= input.len(),
    decreases input.len(),
{
    if input.len() > 0 {
        lemma_peephole_shrinks(input.drop_last());
    }
}

/// The optimizer keeps every relocation record and start marker, in the
/// order of the input: it drops none, adds none and moves none past another.
pub proof fn lemma_peephole_keeps_records(input: Seq<InstrView>)
    ensures
        peephole(input).filter(|i: InstrView| is_record(i)) ==
            input.filter(|i: InstrView| is_record(i)),
    decreases input.len(),
{
    let keep = |i: InstrView| is_record(i);
    if input.len() == 0 {
    } else {
        let front = input.drop_last();
        let instr = input.last();
        let out = peephole(front);
        lemma_peephole_keeps_records(front);
        assert(front.push(instr) =~= input);
        lemma_filter_push(front, instr);
        assert(input.filter(keep) == if is_record(instr) {
            front.filter(keep).push(instr)
        } else {
            front.filter(keep)
        });
        lemma_step_keeps_records(out, instr);
    }
}

proof fn lemma_filter_push(s: Seq<InstrView>, instr: InstrView)
    ensures
        s.push(instr).filter(|i: InstrView| is_record(i)) == if is_record(instr) {
            s.filter(|i: InstrView| is_record(i)).push(instr)
        } else {
            s.filter(|i: InstrView| is_record(i))
        },
{
    let keep = |i: InstrView| is_record(i);
    reveal(Seq::filter);
    assert(s.push(instr).drop_last() =~= s);
}

proof fn lemma_filter_drop_last(s: Seq<InstrView>)
    requires
        s.len() > 0,
    ensures
        s.filter(|i: InstrView| is_record(i)) == if is_record(s.last()) {
            s.drop_last().filter(|i: InstrView| is_record(i)).push(s.last())
        } else {
            s.drop_last().filter(|i: InstrView| is_record(i))
        },
{
    reveal(Seq::filter);
}

proof fn lemma_step_keeps_records(out: Seq<InstrView>, instr: InstrView)
    ensures
        peephole_step(out, instr).filter(|i: InstrView| is_record(i)) == if is_record(instr) {
            out.filter(|i: InstrView| is_record(i)).push(instr)
        } else {
            out.filter(|i: InstrView| is_record(i))
        },
{
    let keep = |i: InstrView| is_record(i);
    lemma_filter_push(out, instr);
    if is_self_move(instr) {
    } else if out.len() == 0 {
    } else {
        let last = out.last();
        let front = out.drop_last();
        lemma_filter_drop_last(out);
        if is_mov_add(last, instr) {
            lemma_filter_push(front, lea_of_mov_add(last, instr));
        } else if is_dead_move(last, instr) {
            lemma_filter_push(front, instr);
        } else if is_move_back(last, instr) {
        } else if instr.mnemonic == Mnemonic::Ret && is_call(last) {
            lemma_filter_push(front, tail_jump(last));
        } else if instr.mnemonic == Mnemonic::Ret && last.mnemonic == Mnemonic::Link && out.len()
            >= 2 && is_call(out[out.len() - 2]) {
            let call = out[out.len() - 2];
            let base = front.drop_last();
            lemma_filter_drop_last(front);
            lemma_filter_push(base, tail_jump(call));
            lemma_filter_push(base.push(tail_jump(call)), last);
            assert(out.update(out.len() - 2, tail_jump(call)) =~= base.push(tail_jump(call)).push(
                last,
            ));
        } else if instr.inverts(last) {
        } else {
        }
    }
}

/// Whether the encoding of an instruction ends in a field of 32 bits that
/// a relocation can fill: a call or a jump with its distance, or a `lea`
/// relative to the instruction pointer.
pub open spec fn is_linkable(instr: InstrView) -> bool {
    ||| {
        &&& instr.mnemonic == Mnemonic::Call || instr.mnemonic == Mnemonic::Jmp || instr.mnemonic
            == Mnemonic::Je || instr.mnemonic == Mnemonic::Jne
        &&& instr.op1 matches Some(OperandView::Imm(_))
        &&& instr.op2 is None
    }
    ||| {
        &&& instr.mnemonic == Mnemonic::Lea
        &&& instr.op1 matches Some(OperandView::Reg(_))
        &&& instr.op2 matches Some(OperandView::Mem(m))
        &&& m.rip
    }
}

/// Whether every relocation record of a stream stands behind an
/// instruction whose field it can fill.
pub open spec fn well_linked(s: Seq<InstrView>) -> bool {
    forall|k: int|
        0 <= k < s.len() && (#[trigger] s[k]).mnemonic == Mnemonic::Link ==> k > 0 && is_linkable(
            s[k - 1],
        )
}

/// The optimizer leaves every relocation record behind an instruction
/// whose field it can fill, and it leaves an instruction with such a
/// field at the end of a stream where it is.
pub proof fn lemma_peephole_keeps_links(input: Seq<InstrView>)
    requires
        well_linked(input),
    ensures
        well_linked(peephole(input)),
        input.len() > 0 && is_linkable(input.last()) ==> peephole(input).len() > 0 && peephole(
            input,
        ).last() == input.last(),
    decreases input.len(),
{
    if input.len() > 0 {
        let front = input.drop_last();
        let instr = input.last();
        let out = peephole(front);
        assert forall|k: int|
            0 <= k < front.len() && (#[trigger] front[k]).mnemonic == Mnemonic::Link implies k > 0
            && is_linkable(front[k - 1]) by {
            assert(input[k] == front[k]);
        }
        lemma_peephole_keeps_links(front);
        let next = peephole_step(out, instr);
        if instr.mnemonic == Mnemonic::Link {
            assert(input[input.len() - 1].mnemonic == Mnemonic::Link);
            assert(front.last() == input[input.len() - 2]);
            assert(next =~= out.push(instr));
            assert forall|k: int|
                0 <= k < next.len() && (#[trigger] next[k]).mnemonic == Mnemonic::Link implies k > 0
                && is_linkable(next[k - 1]) by {
                if k < out.len() {
                    assert(out[k].mnemonic == Mnemonic::Link);
                }
            }
        } else {
            assert forall|k: int|
                0 <= k < next.len() && (#[trigger] next[k]).mnemonic == Mnemonic::Link implies k > 0
                && is_linkable(next[k - 1]) by {
                if k < out.len() && next[k] == out[k] {
                    assert(out[k].mnemonic == Mnemonic::Link);
                    if k > 0 && next[k - 1] != out[k - 1] {
                        assert(k - 1 == out.len() - 2);
                        assert(is_linkable(out[k - 1]));
                    }
                }
            }
        }
    }
}

/// used for optimizing
pub trait Optimize<T>: Sized {
    /// optimizes self
    fn optimize(&mut self) -> Self;
}

impl Optimize<Instr> for Vec<Instr> {
    /// Returns the optimized form of the stream and leaves the stream itself
    /// as it is.
    fn optimize(&mut self) -> (r: Vec<Instr>)
        ensures
            stream_view(r@) == peephole(stream_view(old(self)@)),
            r@.len() <= old(self)@.len(),
            *final(self) == *old(self),
    {
        let mut out: Vec<Instr> = Vec::new();
        let n = self.len();
        let mut i: usize = 0;
        while i < n
            invariant
                *self == *old(self),
                n == self@.len(),
                i <= n,
                stream_view(out@) == peephole(stream_view(self@).take(i as int)),
            decreases n - i,
        {
            let instr = &self[i];
            proof {
                assert(stream_view(self@).take(i + 1).drop_last() =~= stream_view(self@).take(
                    i as int,
                ));
                assert(stream_view(self@).take(i + 1).last() == self@[i as int]@);
            }
            step(&mut out, instr);
            i += 1;
        }
        proof {
            assert(stream_view(self@).take(n as int) =~= stream_view(self@));
            lemma_peephole_shrinks(stream_view(self@));
        }
        out
    }
}

/// Holds one instruction against the end of the stream emitted so far.
fn step(out: &mut Vec<Instr>, instr: &Instr)
    ensures
        stream_view(final(out)@) == peephole_step(stream_view(old(out)@), instr@),
{
    let self_move = instr.mnemonic == Mnemonic::Mov && instr.op1.is_some() && Operand::opt_eq(
        &instr.op1,
        &instr.op2,
    );
    if self_move {
        return ;
    }
    let len = out.len();
    if len == 0 {
        out.push(instr.clone());
        assert(stream_view(out@) =~= stream_view(old(out)@).push(instr@));
        return ;
    }
    let last = &out[len - 1];
    if let Some(lea) = fuse_mov_add(last, instr) {
        out.pop();
        out.push(lea);
        assert(stream_view(out@) =~= stream_view(old(out)@).drop_last().push(lea@));
    } else if dead_move(last, instr) {
        out.pop();
        out.push(instr.clone());
        assert(stream_view(out@) =~= stream_view(old(out)@).drop_last().push(instr@));
    } else if move_back(last, instr) {
    } else if instr.mnemonic == Mnemonic::Ret && call_with_target(last) {
        let jump = X64MCInstr::with1(Mnemonic::Jmp, target_of(last));
        out.pop();
        out.push(jump);
        assert(stream_view(out@) =~= stream_view(old(out)@).drop_last().push(jump@));
    } else if instr.mnemonic == Mnemonic::Ret && last.mnemonic == Mnemonic::Link && len >= 2
        && call_with_target(&out[len - 2]) {
        let jump = X64MCInstr::with1(Mnemonic::Jmp, target_of(&out[len - 2]));
        out.set(len - 2, jump);
        assert(stream_view(out@) =~= stream_view(old(out)@).update(len - 2, jump@));
    } else if instr.invert_of(last) {
        out.pop();
        assert(stream_view(out@) =~= stream_view(old(out)@).drop_last());
    } else {
        out.push(instr.clone());
        assert(stream_view(out@) =~= stream_view(old(out)@).push(instr@));
    }
}

fn fuse_mov_add(last: &Instr, instr: &Instr) -> (r: Option<Instr>)
    ensures
        r is Some == is_mov_add(last@, instr@),
        r matches Some(lea) ==> lea@ == lea_of_mov_add(last@, instr@),
{
    if last.mnemonic != Mnemonic::Mov || instr.mnemonic != Mnemonic::Add {
        return None;
    }
    match (&last.op1, &instr.op1, &last.op2, &instr.op2) {
        (
            Some(Operand::Reg(r)),
            Some(Operand::Reg(r2)),
            Some(Operand::Reg(a)),
            Some(Operand::Reg(b)),
        ) => {
            if *r == *r2 {
                Some(
                    X64MCInstr::with2(
                        Mnemonic::Lea,
                        Operand::Reg(*r),
                        Operand::Mem(MemOp::base_plus(*a, *b)),
                    ),
                )
            } else {
                None
            }
        },
        _ => None,
    }
}

fn dead_move(last: &Instr, instr: &Instr) -> (r: bool)
    ensures
        r == is_dead_move(last@, instr@),
{
    if last.mnemonic != Mnemonic::Mov || instr.mnemonic != Mnemonic::Mov {
        return false;
    }
    match (&last.op1, &instr.op1, &instr.op2) {
        (Some(Operand::Reg(r)), Some(Operand::Reg(r2)), Some(src)) => *r == *r2 && !src.uses_reg(r),
        _ => false,
    }
}

fn move_back(last: &Instr, instr: &Instr) -> (r: bool)
    ensures
        r == is_move_back(last@, instr@),
{
    last.mnemonic == Mnemonic::Mov && instr.mnemonic == Mnemonic::Mov && last.op1.is_some()
        && last.op2.is_some() && Operand::opt_eq(&instr.op2, &last.op1) && Operand::opt_eq(
        &instr.op1,
        &last.op2,
    )
}

fn call_with_target(instr: &Instr) -> (r: bool)
    ensures
        r == is_call(instr@),
{
    instr.mnemonic == Mnemonic::Call && instr.op1.is_some()
}

fn target_of(call: &Instr) -> (r: Operand)
    requires
        is_call(call@),
    ensures
        Some(r@) == call@.op1,
{
    match &call.op1 {
        Some(op) => op.clone(),
        None => Operand::Imm(0),
    }
}

} // verus!
