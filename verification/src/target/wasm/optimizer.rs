//! The peephole optimizer of WebAssembly: a value that is popped into a
//! local and read from it at once stays on the stack.
use vstd::prelude::*;
use crate::target::wasm::instr::{
    WasmInstrView, WasmMCInstr, WasmMnemonic, WasmOperand, WasmOperandView, WasmPrefix,
    wasm_stream_view,
};
use crate::target::x64::optimizer::Optimize;

verus! {

/// `local.set n` followed by `local.get n`.
pub open spec fn is_set_get(last: WasmInstrView, instr: WasmInstrView) -> bool {
    &&& last.prefix == Some(WasmPrefix::Local)
    &&& instr.prefix == Some(WasmPrefix::Local)
    &&& last.mnemonic == WasmMnemonic::Put
    &&& instr.mnemonic == WasmMnemonic::Get
    &&& last.op1 matches Some(WasmOperandView::Var(_))
    &&& last.op1 == instr.op1
}

/// The `local.tee n` that stands for `local.set n ; local.get n`.
pub open spec fn tee_of(last: WasmInstrView) -> WasmInstrView {
    WasmInstrView { mnemonic: WasmMnemonic::Tee, ..last }
}

/// The stream after one more instruction was considered.
pub open spec fn wasm_peephole_step(out: Seq<WasmInstrView>, instr: WasmInstrView) -> Seq<
    WasmInstrView,
> {
    if out.len() > 0 && is_set_get(out.last(), instr) {
        out.drop_last().push(tee_of(out.last()))
    } else {
        out.push(instr)
    }
}

/// The optimized form of a stream: every instruction in turn is held
/// against the end of the optimized form of what stands in front of it.
pub open spec fn wasm_peephole(input: Seq<WasmInstrView>) -> Seq<WasmInstrView>
    decreases input.len(),
{
    if input.len() == 0 {
        Seq::empty()
    } else {
        wasm_peephole_step(wasm_peephole(input.drop_last()), input.last())
    }
}

/// The optimized stream is never longer than its input.
pub proof fn lemma_wasm_peephole_shrinks(input: Seq<WasmInstrView>)
    ensures
        wasm_peephole(input).len() <= input.len(),
    decreases input.len(),
{
    if input.len() > 0 {
        lemma_wasm_peephole_shrinks(input.drop_last());
    }
}

fn set_get(last: &WasmMCInstr, instr: &WasmMCInstr) -> (r: bool)
    ensures
        r == is_set_get(last@, instr@),
{
    let locals = match (last.prefix, instr.prefix) {
        (Some(WasmPrefix::Local), Some(WasmPrefix::Local)) => true,
        _ => false,
    };
    if !locals || last.mnemonic != WasmMnemonic::Put || instr.mnemonic != WasmMnemonic::Get {
        return false;
    }
    match (&last.op1, &instr.op1) {
        (Some(WasmOperand::Var(a)), Some(WasmOperand::Var(b))) => *a == *b,
        _ => false,
    }
}

impl Optimize<WasmMCInstr> for Vec<WasmMCInstr> {
    /// Returns the optimized form of the stream and leaves the stream itself
    /// as it is.
    fn optimize(&mut self) -> (r: Vec<WasmMCInstr>)
        ensures
            wasm_stream_view(r@) == wasm_peephole(wasm_stream_view(old(self)@)),
            r@.len() <= old(self)@.len(),
            *final(self) == *old(self),
    {
        let mut out: Vec<WasmMCInstr> = Vec::new();
        let ghost all = wasm_stream_view(self@);
        let n = self.len();
        let mut i: usize = 0;
        while i < n
            invariant
                *self == *old(self),
                n == self@.len(),
                i <= n,
                all == wasm_stream_view(self@),
                wasm_stream_view(out@) == wasm_peephole(all.take(i as int)),
            decreases n - i,
        {
            let instr = &self[i];
            proof {
                assert(all.take(i + 1).drop_last() =~= all.take(i as int));
                assert(all.take(i + 1).last() == self@[i as int]@);
            }
            let len = out.len();
            let ghost before = wasm_stream_view(out@);
            if len > 0 && set_get(&out[len - 1], instr) {
                let mut tee = out[len - 1].clone();
                tee.mnemonic = WasmMnemonic::Tee;
                out.set(len - 1, tee);
                assert(wasm_stream_view(out@) =~= before.drop_last().push(tee_of(before.last())));
            } else {
                out.push(instr.clone());
                assert(wasm_stream_view(out@) =~= before.push(instr@));
            }
            i += 1;
        }
        proof {
            assert(all.take(n as int) =~= all);
            lemma_wasm_peephole_shrinks(all);
        }
        out
    }
}

} // verus!
