//! The target registry: one backend per architecture, and the pipeline from
//! a block of the intermediate representation to text or bytes.
use vstd::prelude::*;
use std::collections::HashMap;
use crate::codegen::error::{CompileError, CompileErrorView, EncodeError};
use crate::codegen::machine::{MachineInstr, MachineInstrView, machine_view};
use crate::codegen::mc::{
    MCInstr, MCInstrView, from_wasm, from_x64, lemma_field_in_encoding, mc_view,
};
use crate::codegen::compile::compiled_all;
use crate::codegen::reg_alloc::{RegAllocView, is_wasm};
use crate::ir::func::{Block, BlockView, Function, FunctionView};
use crate::ir::nodes::IrNodeView;
use crate::obj::link::{Link, LinkKind, LinkView, links_view};
use crate::target::backend::{
    BackendState, BackendView, TargetBackendDescr, built, frame_of, lowered,
};
use crate::target::triple::{Arch, CallConv, Triple};
use crate::target::wasm::instr::WasmInstrView;
use crate::target::wasm::lower::wasm_lower_spec;
use crate::target::x64::instr::{InstrView, Mnemonic};
use crate::target::x64::lower::{lemma_lower_keeps_links, x64_lower_spec};
use crate::target::x64::optimizer::{is_linkable, well_linked};

verus! {

/// Stores errors which can occure in the `getBasedOnTriple` function in the `TargetRegistry`
#[derive(Debug, Clone, Copy, PartialEq, Eq, Structural)]
pub enum RegistryError {
    /// An unsupported architecture
    UnsuportedArch(Arch),
}

impl RegistryError {
    /// The text of the error.
    pub open spec fn text(self) -> Seq<char> {
        match self {
            RegistryError::UnsuportedArch(arch) => "unsuported architecture: "@ + arch_text(arch),
        }
    }

    /// The text of the error.
    pub fn to_string(&self) -> (r: String)
        ensures
            r@ == self.text(),
    {
        match self {
            RegistryError::UnsuportedArch(arch) => {
                let mut s = String::from_str("unsuported architecture: ");
                s.append(arch_name(*arch));
                s
            },
        }
    }
}

/// The name of an architecture.
pub open spec fn arch_text(arch: Arch) -> Seq<char> {
    match arch {
        Arch::Unknown => "Unknown"@,
        Arch::Arm => "Arm"@,
        Arch::Aarch64 => "Aarch64"@,
        Arch::Riscv32 => "Riscv32"@,
        Arch::Riscv64 => "Riscv64"@,
        Arch::X86 => "X86"@,
        Arch::X86_64 => "X86_64"@,
        Arch::Wasm32 => "Wasm32"@,
        Arch::Wasm64 => "Wasm64"@,
    }
}

fn arch_name(arch: Arch) -> (r: &'static str)
    ensures
        r@ == arch_text(arch),
{
    match arch {
        Arch::Unknown => "Unknown",
        Arch::Arm => "Arm",
        Arch::Aarch64 => "Aarch64",
        Arch::Riscv32 => "Riscv32",
        Arch::Riscv64 => "Riscv64",
        Arch::X86 => "X86",
        Arch::X86_64 => "X86_64",
        Arch::Wasm32 => "Wasm32",
        Arch::Wasm64 => "Wasm64",
    }
}

/// The target registry: manages different targets
pub struct TargetRegistry {
    /// The backends, each under the number of its architecture.
    targets: HashMap<u64, TargetBackendDescr>,
}

/// Calls `HashMap::get_mut`. Trusted: the result is a mutable reference
/// to the value stored under the key if there is one, and nothing if
/// there is none; what the caller writes through the reference is what
/// the map holds under the key afterwards, and nothing else in the map
/// changes.
#[verifier::external_body]
fn map_get_mut<'a>(m: &'a mut HashMap<u64, TargetBackendDescr>, k: u64) -> (r: Option<
    &'a mut TargetBackendDescr,
>)
    ensures
        match r {
            Some(v) => old(m)@.contains_key(k) && *v == old(m)@[k] && final(m)@ == old(m)@.insert(
                k,
                *final(v),
            ),
            None => !old(m)@.contains_key(k) && final(m)@ == old(m)@,
        },
{
    m.get_mut(&k)
}

/// The number of bytes of the field that the relocation of the last
/// instruction of a stream fills. A relocation record of x86-64 fills
/// the field at the end of the instruction in front of it, an
/// instruction of WebAssembly the field at its own end. Where there is
/// no such field the number is zero.
pub open spec fn link_width(instrs: Seq<MCInstrView>) -> nat
    recommends
        instrs.len() > 0,
{
    match instrs.last() {
        MCInstrView::X64(_) => if instrs.len() >= 2 {
            instrs[instrs.len() - 2].field_len()
        } else {
            0
        },
        MCInstrView::Wasm(_) => instrs.last().field_len(),
    }
}

/// The bytes and relocations of a stream of instructions: the bytes of
/// the instructions one after the other, and for each instruction that
/// carries a relocation the relocation, with the function it stands in
/// and with the offset at which the field begins that it fills. The
/// first instruction without an encoding makes the whole stream fail,
/// and so does the first relocation without a field.
pub open spec fn assembled(instrs: Seq<MCInstrView>, from: Seq<char>) -> Result<
    (Seq<u8>, Seq<LinkView>),
    EncodeError,
>
    decreases instrs.len(),
{
    if instrs.len() == 0 {
        Ok((seq![], seq![]))
    } else {
        match assembled(instrs.drop_last(), from) {
            Err(e) => Err(e),
            Ok((bytes, links)) => match instrs.last().encoded() {
                Err(e) => Err(e),
                Ok(more) => match instrs.last().link() {
                    None => Ok((bytes + more, links)),
                    Some(link) => if link_width(instrs) == 0 {
                        Err(EncodeError::LinkWithoutField)
                    } else {
                        Ok(
                            (
                                bytes + more,
                                links.push(
                                    LinkView {
                                        from,
                                        at: ((bytes + more).len() - link_width(instrs)) as usize,
                                        ..link
                                    },
                                ),
                            ),
                        )
                    },
                },
            },
        }
    }
}

/// The number of bytes that a stream of instructions encodes to, where
/// every instruction has an encoding.
pub open spec fn encoded_len(instrs: Seq<MCInstrView>) -> nat
    decreases instrs.len(),
{
    if instrs.len() == 0 {
        0
    } else {
        encoded_len(instrs.drop_last()) + (match instrs.last().encoded() {
            Ok(bytes) => bytes.len(),
            Err(_) => 0,
        })
    }
}

/// The number of relocations that a stream of instructions carries.
pub open spec fn link_count(instrs: Seq<MCInstrView>) -> nat
    decreases instrs.len(),
{
    if instrs.len() == 0 {
        0
    } else {
        link_count(instrs.drop_last()) + (if instrs.last().link() is Some {
            1nat
        } else {
            0nat
        })
    }
}

/// The texts of a stream of instructions.
pub open spec fn texts(instrs: Seq<MCInstrView>) -> Seq<Seq<char>> {
    instrs.map_values(|i: MCInstrView| i.text())
}

/// What a list of strings denotes.
pub open spec fn strings_view(s: Seq<String>) -> Seq<Seq<char>> {
    s.map_values(|t: String| t@)
}

/// The length of the bytes of a stream is the sum of the lengths of the
/// encodings of its instructions, and the stream has one relocation for
/// each instruction that carries one.
pub proof fn lemma_assembled_length(instrs: Seq<MCInstrView>, from: Seq<char>)
    requires
        assembled(instrs, from) is Ok,
    ensures
        assembled(instrs, from)->Ok_0.0.len() == encoded_len(instrs),
        assembled(instrs, from)->Ok_0.1.len() == link_count(instrs),
    decreases instrs.len(),
{
    if instrs.len() > 0 {
        lemma_assembled_length(instrs.drop_last(), from);
    }
}

/// The bytes and relocations of a stream continue those of each of its
/// prefixes: the bytes of the prefix stand at the start of the bytes of
/// the stream, the relocations of the prefix at the start of its
/// relocations, and the rest of the bytes are those of the instructions
/// behind the prefix.
pub proof fn lemma_assembled_extends(instrs: Seq<MCInstrView>, from: Seq<char>, n: int)
    requires
        0 <= n <= instrs.len(),
        assembled(instrs, from) is Ok,
    ensures
        assembled(instrs.take(n), from) is Ok,
        assembled(instrs.take(n), from)->Ok_0.0.len() + encoded_len(instrs.skip(n)) == assembled(
            instrs,
            from,
        )->Ok_0.0.len(),
        assembled(instrs.take(n), from)->Ok_0.1.len() <= assembled(instrs, from)->Ok_0.1.len(),
        forall|k: int|
            0 <= k < assembled(instrs.take(n), from)->Ok_0.1.len() ==> assembled(
                instrs,
                from,
            )->Ok_0.1[k] == assembled(instrs.take(n), from)->Ok_0.1[k],
    decreases instrs.len(),
{
    if n == instrs.len() {
        assert(instrs.take(n) =~= instrs);
        assert(instrs.skip(n) =~= Seq::<MCInstrView>::empty());
    } else {
        let front = instrs.drop_last();
        assert(front.take(n) =~= instrs.take(n));
        assert(instrs.skip(n).drop_last() =~= front.skip(n));
        assert(instrs.skip(n).last() == instrs.last());
        lemma_assembled_extends(front, from, n);
    }
}

/// What the pipeline comes to up to the portable machine instructions:
/// the block is verified, then built.
pub open spec fn machine_instrs(
    backend: BackendView,
    conv: CallConv,
    block: BlockView,
    f: FunctionView,
) -> Result<
    Seq<MachineInstrView>,
    CompileErrorView,
> {
    match block.verify_error(f.ret) {
        Some(e) => Err(CompileErrorView::Verify(e)),
        None => built(conv, backend.arch, block, f),
    }
}

/// What the pipeline comes to up to the instructions of the target.
pub open spec fn machine_code(
    backend: BackendView,
    conv: CallConv,
    block: BlockView,
    f: FunctionView,
) -> Result<
    Seq<MCInstrView>,
    CompileErrorView,
> {
    match machine_instrs(backend, conv, block, f) {
        Err(e) => Err(e),
        Ok(instrs) => match lowered(backend.arch, conv, instrs) {
            Err(e) => Err(CompileErrorView::Lower(e)),
            Ok(code) => Ok(code),
        },
    }
}

/// What the pipeline comes to up to bytes and relocations.
pub open spec fn machine_bytes(
    backend: BackendView,
    conv: CallConv,
    block: BlockView,
    f: FunctionView,
) -> Result<
    (Seq<u8>, Seq<LinkView>),
    CompileErrorView,
> {
    match machine_code(backend, conv, block, f) {
        Err(e) => Err(e),
        Ok(code) => match assembled(code, f.name) {
            Err(e) => Err(CompileErrorView::Encode(e)),
            Ok(out) => Ok(out),
        },
    }
}

/// The field that the relocation of the last instruction of an assembled
/// stream fills has four bytes or five, and it lies in the bytes of the
/// stream behind at least one other byte.
pub proof fn lemma_field_fits(instrs: Seq<MCInstrView>, from: Seq<char>)
    requires
        instrs.len() > 0,
        assembled(instrs, from) is Ok,
        instrs.last().link() is Some,
    ensures
        4 <= link_width(instrs) <= 5,
        link_width(instrs) < assembled(instrs, from)->Ok_0.0.len(),
{
    let front = instrs.drop_last();
    match instrs.last() {
        MCInstrView::X64(_) => {
            let before = instrs[instrs.len() - 2];
            assert(front.last() == before);
            assert(assembled(front, from) is Ok);
            assert(assembled(front.drop_last(), from) is Ok);
            lemma_field_in_encoding(before);
        },
        MCInstrView::Wasm(_) => {
            lemma_field_in_encoding(instrs.last());
        },
    }
}

/// Every relocation of an assembled stream names the function that the
/// stream stands in, and its offset is that of the field it fills: the
/// field lies in the bytes of the stream, it ends where the instruction
/// ends that holds it, and the bytes behind it are those of the
/// instructions behind the one that carries the relocation.
pub proof fn lemma_link_bounds(instrs: Seq<MCInstrView>, from: Seq<char>, n: int)
    requires
        0 < n <= instrs.len(),
        assembled(instrs, from) is Ok,
        assembled(instrs, from)->Ok_0.0.len() <= usize::MAX,
        instrs[n - 1].link() is Some,
    ensures
        0 < link_count(instrs.take(n)) <= assembled(instrs, from)->Ok_0.1.len(),
        ({
            let (bytes, links) = assembled(instrs, from)->Ok_0;
            let link = links[link_count(instrs.take(n)) - 1];
            &&& link.from == from
            &&& link.at < bytes.len()
            &&& link.at + 4 <= bytes.len()
            &&& link.at + link_width(instrs.take(n)) + encoded_len(instrs.skip(n)) == bytes.len()
        }),
{
    let prefix = instrs.take(n);
    lemma_assembled_extends(instrs, from, n);
    lemma_assembled_length(prefix, from);
    assert(prefix.last() == instrs[n - 1]);
    lemma_field_fits(prefix, from);
    let (bytes, links) = assembled(prefix, from)->Ok_0;
    assert(links.last().at == (bytes.len() - link_width(prefix)) as usize);
}

/// In the bytes of a stream of x86-64 every relocation is one relative
/// to the instruction pointer, and it lies at the field of four bytes
/// that it fills: the field begins in the bytes and ends in them.
pub proof fn lemma_x64_links_in_bytes(code: Seq<InstrView>, from: Seq<char>)
    requires
        assembled(from_x64(code), from) is Ok,
        assembled(from_x64(code), from)->Ok_0.0.len() <= usize::MAX,
    ensures
        forall|k: int|
            0 <= k < assembled(from_x64(code), from)->Ok_0.1.len() ==> {
                let link = #[trigger] assembled(from_x64(code), from)->Ok_0.1[k];
                &&& link.kind == LinkKind::PcRelative32
                &&& link.from == from
                &&& link.at < assembled(from_x64(code), from)->Ok_0.0.len()
                &&& link.at + 4 <= assembled(from_x64(code), from)->Ok_0.0.len()
            },
    decreases code.len(),
{
    if code.len() > 0 {
        let stream = from_x64(code);
        let front = code.drop_last();
        assert(stream.drop_last() =~= from_x64(front));
        assert(stream.last() == MCInstrView::X64(code.last()));
        lemma_x64_links_in_bytes(front, from);
        if stream.last().link() is Some {
            lemma_field_fits(stream, from);
        }
    }
}

/// In the bytes of a stream of WebAssembly every relocation lies at the
/// padded number of five bytes that it fills: the number begins in the
/// bytes and ends in them.
pub proof fn lemma_wasm_links_in_bytes(code: Seq<WasmInstrView>, from: Seq<char>)
    requires
        assembled(from_wasm(code), from) is Ok,
        assembled(from_wasm(code), from)->Ok_0.0.len() <= usize::MAX,
    ensures
        forall|k: int|
            0 <= k < assembled(from_wasm(code), from)->Ok_0.1.len() ==> {
                let link = #[trigger] assembled(from_wasm(code), from)->Ok_0.1[k];
                &&& link.from == from
                &&& link.at < assembled(from_wasm(code), from)->Ok_0.0.len()
                &&& link.at + 5 <= assembled(from_wasm(code), from)->Ok_0.0.len()
            },
    decreases code.len(),
{
    if code.len() > 0 {
        let stream = from_wasm(code);
        let front = code.drop_last();
        assert(stream.drop_last() =~= from_wasm(front));
        assert(stream.last() == MCInstrView::Wasm(code.last()));
        lemma_wasm_links_in_bytes(front, from);
        if stream.last().link() is Some {
            lemma_field_fits(stream, from);
        }
    }
}

/// A stream of x86-64 whose relocation records stand behind instructions
/// with a field for them never fails for want of a field.
pub proof fn lemma_well_linked_has_fields(code: Seq<InstrView>, from: Seq<char>)
    requires
        well_linked(code),
    ensures
        assembled(from_x64(code), from) != Err::<(Seq<u8>, Seq<LinkView>), EncodeError>(
            EncodeError::LinkWithoutField,
        ),
    decreases code.len(),
{
    if code.len() > 0 {
        let stream = from_x64(code);
        let front = code.drop_last();
        assert(stream.drop_last() =~= from_x64(front));
        assert(stream.last() == MCInstrView::X64(code.last()));
        assert forall|k: int|
            0 <= k < front.len() && (#[trigger] front[k]).mnemonic == Mnemonic::Link implies k > 0
            && is_linkable(front[k - 1]) by {
            assert(code[k] == front[k]);
        }
        lemma_well_linked_has_fields(front, from);
        if stream.last().link() is Some {
            assert(code[code.len() - 1].mnemonic == Mnemonic::Link);
            let before = code[code.len() - 2];
            assert(is_linkable(before));
            assert(stream[stream.len() - 2] == MCInstrView::X64(before));
        }
    }
}

/// A stream of WebAssembly never fails for want of a field: every
/// instruction that carries a relocation ends in the number it fills.
pub proof fn lemma_wasm_has_fields(code: Seq<WasmInstrView>, from: Seq<char>)
    ensures
        assembled(from_wasm(code), from) != Err::<(Seq<u8>, Seq<LinkView>), EncodeError>(
            EncodeError::LinkWithoutField,
        ),
    decreases code.len(),
{
    if code.len() > 0 {
        let stream = from_wasm(code);
        let front = code.drop_last();
        assert(stream.drop_last() =~= from_wasm(front));
        assert(stream.last() == MCInstrView::Wasm(code.last()));
        lemma_wasm_has_fields(front, from);
    }
}

/// In the bytes that the pipeline gives for a block on x86-64, every
/// relocation is one relative to the instruction pointer, names the
/// function, and lies at the field of 32 bits that it fills: the field
/// begins in the code and ends in it.
pub proof fn lemma_relocations_lie_in_the_code(
    backend: BackendView,
    conv: CallConv,
    block: BlockView,
    f: FunctionView,
)
    requires
        backend.arch == Arch::X86_64,
        machine_bytes(backend, conv, block, f) is Ok,
        machine_bytes(backend, conv, block, f)->Ok_0.0.len() <= usize::MAX,
    ensures
        forall|k: int|
            0 <= k < machine_bytes(backend, conv, block, f)->Ok_0.1.len() ==> {
                let link = #[trigger] machine_bytes(backend, conv, block, f)->Ok_0.1[k];
                &&& link.kind == LinkKind::PcRelative32
                &&& link.from == f.name
                &&& link.at < machine_bytes(backend, conv, block, f)->Ok_0.0.len()
                &&& link.at + 4 <= machine_bytes(backend, conv, block, f)->Ok_0.0.len()
            },
{
    let instrs = machine_instrs(backend, conv, block, f)->Ok_0;
    lemma_x64_links_in_bytes(x64_lower_spec(conv, instrs)->Ok_0, f.name);
}

/// In the bytes that the pipeline gives for a block on WebAssembly, every
/// relocation names the function and lies at the padded number of five
/// bytes that it fills: the number begins in the code and ends in it.
pub proof fn lemma_wasm_relocations_lie_in_the_code(
    backend: BackendView,
    conv: CallConv,
    block: BlockView,
    f: FunctionView,
)
    requires
        is_wasm(backend.arch),
        machine_bytes(backend, conv, block, f) is Ok,
        machine_bytes(backend, conv, block, f)->Ok_0.0.len() <= usize::MAX,
    ensures
        forall|k: int|
            0 <= k < machine_bytes(backend, conv, block, f)->Ok_0.1.len() ==> {
                let link = #[trigger] machine_bytes(backend, conv, block, f)->Ok_0.1[k];
                &&& link.from == f.name
                &&& link.at < machine_bytes(backend, conv, block, f)->Ok_0.0.len()
                &&& link.at + 5 <= machine_bytes(backend, conv, block, f)->Ok_0.0.len()
            },
{
    let instrs = machine_instrs(backend, conv, block, f)->Ok_0;
    lemma_wasm_links_in_bytes(wasm_lower_spec(instrs)->Ok_0, f.name);
}

/// Compiling the nodes of a block never fails with an error of the
/// encoder.
proof fn lemma_compiling_does_not_encode(
    conv: CallConv,
    arch: Arch,
    frame: RegAllocView,
    nodes: Seq<IrNodeView>,
)
    ensures
        compiled_all(conv, arch, frame, nodes) matches Err(e) ==> !(e is Encode),
    decreases nodes.len(),
{
    if nodes.len() > 0 {
        lemma_compiling_does_not_encode(conv, arch, frame, nodes.drop_last());
    }
}

/// The pipeline never fails for want of a field: on every target each
/// relocation of the code it lowers to has a field to fill.
pub proof fn lemma_relocations_have_fields(
    backend: BackendView,
    conv: CallConv,
    block: BlockView,
    f: FunctionView,
)
    ensures
        machine_bytes(backend, conv, block, f) != Err::<
            (Seq<u8>, Seq<LinkView>),
            CompileErrorView,
        >(CompileErrorView::Encode(EncodeError::LinkWithoutField)),
{
    if machine_code(backend, conv, block, f) is Err {
        if frame_of(backend.arch, f) is Ok {
            lemma_compiling_does_not_encode(
                conv,
                backend.arch,
                frame_of(backend.arch, f)->Ok_0,
                block.nodes,
            );
        }
    } else {
        let instrs = machine_instrs(backend, conv, block, f)->Ok_0;
        if backend.arch == Arch::X86_64 {
            lemma_lower_keeps_links(conv, instrs);
            lemma_well_linked_has_fields(x64_lower_spec(conv, instrs)->Ok_0, f.name);
        } else if is_wasm(backend.arch) {
            lemma_wasm_has_fields(wasm_lower_spec(instrs)->Ok_0, f.name);
        } else {
            assert(machine_code(backend, conv, block, f)->Ok_0 =~= Seq::<MCInstrView>::empty());
        }
    }
}

impl TargetRegistry {
    /// The backends of the registry, by architecture.
    pub closed spec fn backends(self) -> Map<Arch, BackendView> {
        Map::new(
            |arch: Arch| self.targets@.contains_key(arch.code_spec()),
            |arch: Arch| self.targets@[arch.code_spec()]@,
        )
    }

    /// The backend that a triple selects and the calling convention of the
    /// triple, if the registry has a backend for the architecture of the
    /// triple and the triple has a calling convention.
    pub open spec fn selects(self, triple: Triple) -> Option<(BackendView, CallConv)> {
        if self.backends().contains_key(triple.arch) && triple.call_conv() is Some {
            Some((self.backends()[triple.arch], triple.call_conv()->0))
        } else {
            None
        }
    }

    /// The backends after a compilation for a triple: the backend that the
    /// triple selects has the calling convention of the triple and is at
    /// rest; where the triple selects none, nothing changes.
    pub open spec fn after_build(self, triple: Triple) -> Map<Arch, BackendView> {
        match self.selects(triple) {
            Some((backend, conv)) => self.backends().insert(
                triple.arch,
                BackendView { call: conv, block: None, state: BackendState::Idle, ..backend },
            ),
            None => self.backends(),
        }
    }

    /// Creates an new backend registry
    pub fn new() -> (r: Self)
        ensures
            r.backends() == Map::<Arch, BackendView>::empty(),
    {
        let r = Self { targets: HashMap::new() };
        assert(r.backends() =~= Map::<Arch, BackendView>::empty());
        r
    }

    /// Adds an new target architecture
    pub fn add(&mut self, arch: Arch, descr: TargetBackendDescr)
        ensures
            final(self).backends() == old(self).backends().insert(arch, descr@),
    {
        self.targets.insert(arch.code(), descr);
        assert(self.backends() =~= old(self).backends().insert(arch, descr@));
    }

    /// Sets the calling convention to use for the specified architecture
    /// If it isn't found the function does noting
    pub fn setCallingConventionForTarget(&mut self, arch: Arch, call: CallConv)
        ensures
            final(self).backends() == if old(self).backends().contains_key(arch) {
                old(self).backends().insert(
                    arch,
                    BackendView { call, ..old(self).backends()[arch] },
                )
            } else {
                old(self).backends()
            },
    {
        if let Some(target) = map_get_mut(&mut self.targets, arch.code()) {
            target.call = call;
        }
        assert(self.backends() =~= if old(self).backends().contains_key(arch) {
            old(self).backends().insert(arch, BackendView { call, ..old(self).backends()[arch] })
        } else {
            old(self).backends()
        });
    }

    /// returns the `TargetBackendDescr` for the triple (also it adjusts it's calling
    /// convention ...)
    pub fn getBasedOnTriple(&mut self, triple: Triple) -> (r: Result<
        &mut TargetBackendDescr,
        RegistryError,
    >)
        ensures
            match r {
                Ok(descr) => old(self).selects(triple) matches Some((backend, conv)) && descr@ == (
                BackendView { call: conv, ..backend }) && final(self).backends() == old(
                    self,
                ).backends().insert(triple.arch, final(descr)@),
                Err(e) => old(self).selects(triple) is None && e == RegistryError::UnsuportedArch(
                    triple.arch,
                ) && final(self).backends() == old(self).backends(),
            },
    {
        let conv = triple.getCallConv();
        match map_get_mut(&mut self.targets, triple.arch.code()) {
            Some(descr) => match conv {
                Ok(call) => {
                    descr.call = call;
                    Ok(descr)
                },
                Err(e) => Err(e),
            },
            None => Err(RegistryError::UnsuportedArch(triple.arch)),
        }
    }
}

/// Once a prefix of a stream fails, the stream fails with the error of
/// the prefix.
pub proof fn lemma_encode_error_stays(instrs: Seq<MCInstrView>, from: Seq<char>, n: int)
    requires
        0 <= n <= instrs.len(),
        assembled(instrs.take(n), from) is Err,
    ensures
        assembled(instrs, from) == assembled(instrs.take(n), from),
    decreases instrs.len(),
{
    if n == instrs.len() {
        assert(instrs.take(n) =~= instrs);
    } else {
        assert(instrs.drop_last().take(n) =~= instrs.take(n));
        lemma_encode_error_stays(instrs.drop_last(), from, n);
    }
}

/// Encodes a stream of instructions of a function: the bytes one after
/// the other, and the relocations with the name of the function and the
/// offset at which the field begins that they fill. A relocation record
/// that does not stand behind an instruction with a field is refused.
pub fn assemble(instrs: &Vec<MCInstr>, from: &String) -> (r: Result<
    (Vec<u8>, Vec<Link>),
    EncodeError,
>)
    ensures
        match r {
            Ok((bytes, links)) => assembled(mc_view(instrs@), from@) == Ok::<
                (Seq<u8>, Seq<LinkView>),
                EncodeError,
            >((bytes@, links_view(links@))) && bytes@.len() == encoded_len(mc_view(instrs@))
                && links@.len() == link_count(mc_view(instrs@)) && forall|k: int|
                0 <= k < links@.len() ==> (#[trigger] links@[k]).at < bytes@.len() && links@[k].at
                    + 4 <= bytes@.len() && links@[k].from@ == from@,
            Err(e) => assembled(mc_view(instrs@), from@) == Err::<
                (Seq<u8>, Seq<LinkView>),
                EncodeError,
            >(e),
        },
{
    let ghost all = mc_view(instrs@);
    let mut res: Vec<u8> = Vec::new();
    let mut links: Vec<Link> = Vec::new();
    let mut field_in_front: usize = 0;
    assert(links_view(links@) =~= Seq::<LinkView>::empty());
    let mut i: usize = 0;
    while i < instrs.len()
        invariant
            i <= instrs@.len(),
            all == mc_view(instrs@),
            assembled(all.take(i as int), from@) == Ok::<(Seq<u8>, Seq<LinkView>), EncodeError>(
                (res@, links_view(links@)),
            ),
            field_in_front == (if i > 0 {
                all[i - 1].field_len()
            } else {
                0
            }),
            field_in_front <= res@.len(),
            forall|k: int|
                0 <= k < links@.len() ==> (#[trigger] links@[k]).at + 4 <= res@.len()
                    && links@[k].from@ == from@,
        decreases instrs@.len() - i,
    {
        let ghost stream = all.take(i + 1);
        proof {
            assert(stream.drop_last() =~= all.take(i as int));
            assert(stream.last() == instrs@[i as int]@);
            assert(i > 0 ==> stream[stream.len() - 2] == all[i - 1]);
        }
        match instrs[i].encode() {
            Ok((mut encoded, link)) => {
                let ghost before_links = links_view(links@);
                let field = instrs[i].field_len();
                proof {
                    if field > 0 {
                        lemma_field_in_encoding(instrs@[i as int]@);
                    }
                }
                res.append(&mut encoded);
                if let Some(link) = link {
                    let width = match &instrs[i] {
                        MCInstr::X64(_) => field_in_front,
                        MCInstr::Wasm(_) => field,
                    };
                    assert(width == link_width(stream));
                    if width == 0 {
                        proof {
                            lemma_encode_error_stays(all, from@, i + 1);
                        }
                        return Err(EncodeError::LinkWithoutField);
                    }
                    let placed = Link {
                        from: from.clone(),
                        to: link.to,
                        at: res.len() - width,
                        addend: link.addend,
                        kind: link.kind,
                        to_block: link.to_block,
                    };
                    links.push(placed);
                    assert(links_view(links@) =~= before_links.push(placed@));
                }
                field_in_front = field;
            },
            Err(e) => {
                proof {
                    lemma_encode_error_stays(all, from@, i + 1);
                }
                return Err(e);
            },
        }
        i += 1;
    }
    proof {
        assert(all.take(instrs@.len() as int) =~= all);
        lemma_assembled_length(all, from@);
    }
    Ok((res, links))
}

fn run_build(org: &mut TargetBackendDescr, block: &Block, funct: &Function) -> (r: Result<
    Vec<MachineInstr>,
    CompileError,
>)
    ensures
        final(org)@ == (BackendView { block: None, state: BackendState::Idle, ..old(org)@ }),
        match r {
            Ok(instrs) => machine_instrs(old(org)@, old(org).call, block@, funct@) == Ok::<
                Seq<MachineInstrView>,
                CompileErrorView,
            >(machine_view(instrs@)),
            Err(e) => machine_instrs(old(org)@, old(org).call, block@, funct@) == Err::<
                Seq<MachineInstrView>,
                CompileErrorView,
            >(e@),
        },
{
    match block.verify(&funct.ty) {
        Ok(()) => {},
        Err(e) => {
            org.reset();
            return Err(CompileError::Verify(e));
        },
    }
    org.set_block(block.clone());
    let built = org.build_instrs(funct);
    org.reset();
    built
}

fn run_lower(org: &mut TargetBackendDescr, block: &Block, funct: &Function) -> (r: Result<
    Vec<MCInstr>,
    CompileError,
>)
    ensures
        match r {
            Ok(_) => final(org)@ == (BackendView {
                block: Some(block@),
                state: BackendState::Lowered,
                ..old(org)@
            }),
            Err(_) => final(org)@ == (BackendView {
                block: None,
                state: BackendState::Idle,
                ..old(org)@
            }),
        },
        match r {
            Ok(code) => machine_code(old(org)@, old(org).call, block@, funct@) == Ok::<
                Seq<MCInstrView>,
                CompileErrorView,
            >(mc_view(code@)),
            Err(e) => machine_code(old(org)@, old(org).call, block@, funct@) == Err::<
                Seq<MCInstrView>,
                CompileErrorView,
            >(e@),
        },
{
    match block.verify(&funct.ty) {
        Ok(()) => {},
        Err(e) => {
            org.reset();
            return Err(CompileError::Verify(e));
        },
    }
    org.set_block(block.clone());
    let instrs = match org.build_instrs(funct) {
        Ok(instrs) => instrs,
        Err(e) => {
            org.reset();
            return Err(e);
        },
    };
    match org.lower(instrs) {
        Ok(code) => Ok(code),
        Err(e) => {
            org.reset();
            Err(CompileError::Lower(e))
        },
    }
}

fn run_encode(org: &mut TargetBackendDescr, block: &Block, funct: &Function) -> (r: Result<
    (Vec<u8>, Vec<Link>),
    CompileError,
>)
    ensures
        final(org)@ == (BackendView { block: None, state: BackendState::Idle, ..old(org)@ }),
        match r {
            Ok((bytes, links)) => machine_bytes(old(org)@, old(org).call, block@, funct@) == Ok::<
                (Seq<u8>, Seq<LinkView>),
                CompileErrorView,
            >((bytes@, links_view(links@))) && forall|k: int|
                0 <= k < links@.len() ==> (#[trigger] links@[k]).at < bytes@.len() && links@[k].at
                    + 4 <= bytes@.len() && links@[k].from@ == funct.name@ && (old(org).arch
                    == Arch::X86_64 ==> links@[k].kind == LinkKind::PcRelative32) && (is_wasm(
                    old(org).arch,
                ) ==> links@[k].at + 5 <= bytes@.len()),
            Err(e) => machine_bytes(old(org)@, old(org).call, block@, funct@) == Err::<
                (Seq<u8>, Seq<LinkView>),
                CompileErrorView,
            >(e@) && e@ != CompileErrorView::Encode(EncodeError::LinkWithoutField),
        },
{
    proof {
        lemma_relocations_have_fields(old(org)@, old(org).call, block@, funct@);
    }
    let instrs = run_lower(org, block, funct)?;
    match assemble(&instrs, &funct.name) {
        Ok((bytes, links)) => {
            org.set_encoded();
            org.reset();
            let total = bytes.len();
            proof {
                assert(bytes@.len() == total);
                if old(org).arch == Arch::X86_64 {
                    lemma_relocations_lie_in_the_code(old(org)@, old(org).call, block@, funct@);
                    assert forall|k: int| 0 <= k < links@.len() implies (#[trigger] links@[k]).kind
                        == LinkKind::PcRelative32 by {
                        assert(links_view(links@)[k] == links@[k]@);
                    }
                }
                if is_wasm(old(org).arch) {
                    lemma_wasm_relocations_lie_in_the_code(
                        old(org)@,
                        old(org).call,
                        block@,
                        funct@,
                    );
                    assert forall|k: int| 0 <= k < links@.len() implies (#[trigger] links@[k]).at
                        + 5 <= bytes@.len() by {
                        assert(links_view(links@)[k] == links@[k]@);
                    }
                }
            }
            Ok((bytes, links))
        },
        Err(e) => {
            org.reset();
            Err(CompileError::Encode(e))
        },
    }
}

impl TargetRegistry {
    /// emits machine instrs for target
    /// note: machine instrs are portable over all platforms
    pub fn buildMachineInstrsForTarget(
        &mut self,
        triple: Triple,
        block: &Block,
        funct: &Function,
    ) -> (r: Result<Vec<MachineInstr>, CompileError>)
        ensures
            final(self).backends() == old(self).after_build(triple),
            match old(self).selects(triple) {
                None => r matches Err(e) && e@ == CompileErrorView::Registry(
                    RegistryError::UnsuportedArch(triple.arch),
                ),
                Some((backend, conv)) => match r {
                    Ok(instrs) => machine_instrs(backend, conv, block@, funct@) == Ok::<
                        Seq<MachineInstrView>,
                        CompileErrorView,
                    >(machine_view(instrs@)),
                    Err(e) => machine_instrs(backend, conv, block@, funct@) == Err::<
                        Seq<MachineInstrView>,
                        CompileErrorView,
                    >(e@),
                },
            },
    {
        let org = match self.getBasedOnTriple(triple) {
            Ok(org) => org,
            Err(e) => {
                return Err(CompileError::Registry(e));
            },
        };
        run_build(org, block, funct)
    }

    /// Builds the ir of the given triple into text assembly code
    pub fn buildAsmForTarget(&mut self, triple: Triple, block: &Block, funct: &Function) -> (r:
        Result<Vec<String>, CompileError>)
        ensures
            final(self).backends() == old(self).after_build(triple),
            match old(self).selects(triple) {
                None => r matches Err(e) && e@ == CompileErrorView::Registry(
                    RegistryError::UnsuportedArch(triple.arch),
                ),
                Some((backend, conv)) => match r {
                    Ok(lines) => machine_code(backend, conv, block@, funct@) matches Ok(code)
                        && strings_view(lines@) == texts(code),
                    Err(e) => machine_code(backend, conv, block@, funct@) == Err::<
                        Seq<MCInstrView>,
                        CompileErrorView,
                    >(e@),
                },
            },
    {
        let org = match self.getBasedOnTriple(triple) {
            Ok(org) => org,
            Err(e) => {
                return Err(CompileError::Registry(e));
            },
        };
        let instrs = run_lower(org, block, funct)?;
        org.reset();
        let ghost code = mc_view(instrs@);
        let mut lines: Vec<String> = Vec::new();
        assert(strings_view(lines@) =~= texts(code).take(0));
        let mut i: usize = 0;
        while i < instrs.len()
            invariant
                i <= instrs@.len(),
                code == mc_view(instrs@),
                strings_view(lines@) == texts(code).take(i as int),
            decreases instrs@.len() - i,
        {
            let line = instrs[i].to_string();
            let ghost before = strings_view(lines@);
            lines.push(line);
            assert(strings_view(lines@) =~= before.push(line@));
            assert(before.push(line@) =~= texts(code).take(i + 1));
            i += 1;
        }
        assert(texts(code).take(instrs@.len() as int) =~= texts(code));
        Ok(lines)
    }

    /// Builds the ir of the given triple into machine code
    pub fn buildMachineCodeForTarget(
        &mut self,
        triple: Triple,
        block: &Block,
        funct: &Function,
    ) -> (r: Result<(Vec<u8>, Vec<Link>), CompileError>)
        ensures
            final(self).backends() == old(self).after_build(triple),
            match old(self).selects(triple) {
                None => r matches Err(e) && e@ == CompileErrorView::Registry(
                    RegistryError::UnsuportedArch(triple.arch),
                ),
                Some((backend, conv)) => match r {
                    Ok((bytes, links)) => machine_bytes(backend, conv, block@, funct@) == Ok::<
                        (Seq<u8>, Seq<LinkView>),
                        CompileErrorView,
                    >((bytes@, links_view(links@))) && forall|k: int|
                        0 <= k < links@.len() ==> (#[trigger] links@[k]).at < bytes@.len()
                            && links@[k].at + 4 <= bytes@.len() && links@[k].from@
                            == funct.name@ && (backend.arch == Arch::X86_64 ==> links@[k].kind
                            == LinkKind::PcRelative32) && (is_wasm(backend.arch) ==> links@[k].at
                            + 5 <= bytes@.len()),
                    Err(e) => machine_bytes(backend, conv, block@, funct@) == Err::<
                        (Seq<u8>, Seq<LinkView>),
                        CompileErrorView,
                    >(e@) && e@ != CompileErrorView::Encode(EncodeError::LinkWithoutField),
                },
            },
    {
        let org = match self.getBasedOnTriple(triple) {
            Ok(org) => org,
            Err(e) => {
                return Err(CompileError::Registry(e));
            },
        };
        run_encode(org, block, funct)
    }
}

} // verus!
