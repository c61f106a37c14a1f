//! Machine code instructions of any target: what lowering hands to the
//! printer and the encoder.
use vstd::prelude::*;
use crate::codegen::error::EncodeError;
use crate::obj::link::{Link, LinkView, link_opt_view};
use crate::target::wasm::encode::{lemma_label_length, wasm_carried_link, wasm_encoded};
use crate::target::wasm::instr::{WasmInstrView, WasmMCInstr, WasmOperand, wasm_stream_view};
use crate::target::wasm::print::wasm_instr_text;
use crate::target::x64::encode::{carried_link, encoded_bytes, lemma_linkable_length};
use crate::target::x64::instr::{InstrView, X64MCInstr, stream_view};
use crate::target::x64::optimizer::is_linkable;
use crate::target::x64::print::instr_text;

verus! {

/// An instruction of one of the targets.
#[derive(Debug, PartialEq, Eq)]
pub enum MCInstr {
    /// An instruction of x86-64.
    X64(X64MCInstr),
    /// An instruction of WebAssembly.
    Wasm(WasmMCInstr),
}

/// What an instruction of a target denotes.
pub enum MCInstrView {
    X64(InstrView),
    Wasm(WasmInstrView),
}

impl View for MCInstr {
    type V = MCInstrView;

    open spec fn view(&self) -> MCInstrView {
        match self {
            MCInstr::X64(i) => MCInstrView::X64(i@),
            MCInstr::Wasm(i) => MCInstrView::Wasm(i@),
        }
    }
}

impl MCInstrView {
    /// The bytes of the instruction, or the reason why it has none.
    pub open spec fn encoded(self) -> Result<Seq<u8>, EncodeError> {
        match self {
            MCInstrView::X64(i) => encoded_bytes(i),
            MCInstrView::Wasm(i) => wasm_encoded(i),
        }
    }

    /// The relocation that the instruction carries.
    pub open spec fn link(self) -> Option<LinkView> {
        match self {
            MCInstrView::X64(i) => carried_link(i),
            MCInstrView::Wasm(i) => wasm_carried_link(i),
        }
    }

    /// The number of bytes at the end of the encoding that await an
    /// address: four behind a call, a jump or an address relative to the
    /// instruction pointer of x86-64, five for the padded number behind
    /// an instruction of WebAssembly that holds a name, and none
    /// otherwise.
    pub open spec fn field_len(self) -> nat {
        match self {
            MCInstrView::X64(i) => if is_linkable(i) {
                4
            } else {
                0
            },
            MCInstrView::Wasm(i) => if wasm_carried_link(i) is Some {
                5
            } else {
                0
            },
        }
    }

    /// The text of the instruction.
    pub open spec fn text(self) -> Seq<char> {
        match self {
            MCInstrView::X64(i) => instr_text(i),
            MCInstrView::Wasm(i) => wasm_instr_text(i),
        }
    }
}

/// The field of an instruction lies in its encoding, behind at least one
/// other byte.
pub proof fn lemma_field_in_encoding(instr: MCInstrView)
    requires
        instr.encoded() is Ok,
        instr.field_len() > 0,
    ensures
        instr.field_len() < instr.encoded()->Ok_0.len(),
{
    match instr {
        MCInstrView::X64(i) => {
            lemma_linkable_length(i);
        },
        MCInstrView::Wasm(i) => {
            lemma_label_length(i);
        },
    }
}

/// What a stream of instructions of a target denotes.
pub open spec fn mc_view(s: Seq<MCInstr>) -> Seq<MCInstrView> {
    s.map_values(|i: MCInstr| i@)
}

/// A stream of instructions of x86-64 as a stream of instructions of any
/// target.
pub open spec fn from_x64(s: Seq<InstrView>) -> Seq<MCInstrView> {
    s.map_values(|i: InstrView| MCInstrView::X64(i))
}

/// A stream of instructions of WebAssembly as a stream of instructions of
/// any target.
pub open spec fn from_wasm(s: Seq<WasmInstrView>) -> Seq<MCInstrView> {
    s.map_values(|i: WasmInstrView| MCInstrView::Wasm(i))
}

impl MCInstr {
    /// Encodes the instruction: its bytes, and the relocation it carries
    /// if it carries one.
    pub fn encode(&self) -> (r: Result<(Vec<u8>, Option<Link>), EncodeError>)
        ensures
            match r {
                Ok((bytes, link)) => self@.encoded() == Ok::<Seq<u8>, EncodeError>(bytes@)
                    && link_opt_view(link) == self@.link(),
                Err(e) => self@.encoded() == Err::<Seq<u8>, EncodeError>(e),
            },
    {
        match self {
            MCInstr::X64(i) => i.encode(),
            MCInstr::Wasm(i) => i.encode(),
        }
    }

    /// The number of bytes at the end of the encoding that await an
    /// address.
    pub fn field_len(&self) -> (r: usize)
        ensures
            r == self@.field_len(),
    {
        match self {
            MCInstr::X64(i) => if i.has_field() {
                4
            } else {
                0
            },
            MCInstr::Wasm(i) => match &i.op1 {
                Some(WasmOperand::Label(_)) => 5,
                _ => 0,
            },
        }
    }

    /// The text of the instruction.
    pub fn to_string(&self) -> (r: String)
        ensures
            r@ == self@.text(),
    {
        match self {
            MCInstr::X64(i) => i.to_string(),
            MCInstr::Wasm(i) => i.to_string(),
        }
    }
}

/// Wraps a stream of instructions of x86-64.
pub fn wrap_x64(code: Vec<X64MCInstr>) -> (r: Vec<MCInstr>)
    ensures
        mc_view(r@) == from_x64(stream_view(code@)),
{
    let ghost all = stream_view(code@);
    let mut out: Vec<MCInstr> = Vec::new();
    let n = code.len();
    let mut i: usize = 0;
    while i < n
        invariant
            i <= n,
            n == code@.len(),
            all == stream_view(code@),
            mc_view(out@) == from_x64(all.take(i as int)),
        decreases n - i,
    {
        let instr = code[i].clone();
        let ghost before = mc_view(out@);
        out.push(MCInstr::X64(instr));
        assert(mc_view(out@) =~= before.push(MCInstrView::X64(instr@)));
        assert(before.push(MCInstrView::X64(instr@)) =~= from_x64(all.take(i + 1)));
        i += 1;
    }
    assert(all.take(n as int) =~= all);
    out
}

/// Wraps a stream of instructions of WebAssembly.
pub fn wrap_wasm(code: Vec<WasmMCInstr>) -> (r: Vec<MCInstr>)
    ensures
        mc_view(r@) == from_wasm(wasm_stream_view(code@)),
{
    let ghost all = wasm_stream_view(code@);
    let mut out: Vec<MCInstr> = Vec::new();
    let n = code.len();
    let mut i: usize = 0;
    while i < n
        invariant
            i <= n,
            n == code@.len(),
            all == wasm_stream_view(code@),
            mc_view(out@) == from_wasm(all.take(i as int)),
        decreases n - i,
    {
        let instr = code[i].clone();
        let ghost before = mc_view(out@);
        out.push(MCInstr::Wasm(instr));
        assert(mc_view(out@) =~= before.push(MCInstrView::Wasm(instr@)));
        assert(before.push(MCInstrView::Wasm(instr@)) =~= from_wasm(all.take(i + 1)));
        i += 1;
    }
    assert(all.take(n as int) =~= all);
    out
}

} // verus!
