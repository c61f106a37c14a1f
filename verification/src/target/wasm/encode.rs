//! The encoder of WebAssembly: the bytes of each instruction in the
//! binary format, with numbers in LEB128. A name stands as a padded zero
//! that a relocation fills in.
use vstd::prelude::*;
use crate::codegen::error::EncodeError;
use crate::obj::link::{Link, LinkKind, LinkView, link_opt_view};
use crate::target::wasm::instr::{
    WasmInstrView, WasmMCInstr, WasmMnemonic, WasmOperand, WasmOperandView, WasmPrefix,
};

verus! {

/// A natural number in unsigned LEB128: seven bits to a byte, lowest
/// first, the high bit set on every byte but the last.
pub open spec fn uleb(n: nat) -> Seq<u8>
    decreases n,
{
    if n < 128 {
        seq![n as u8]
    } else {
        seq![(n % 128 + 128) as u8] + uleb(n / 128)
    }
}

/// An integer in signed LEB128: seven bits to a byte, lowest first, until
/// the rest is the sign of the last byte.
pub open spec fn sleb(v: int) -> Seq<u8>
    decreases (if v < 0 {
        -v
    } else {
        v
    }),
{
    if -64 <= v < 64 {
        seq![(v % 128) as u8]
    } else {
        seq![(v % 128 + 128) as u8] + sleb(v / 128)
    }
}

/// The five bytes of a zero in padded LEB128, which leave room for any
/// number of 32 bits.
pub open spec fn padded_zero() -> Seq<u8> {
    seq![0x80u8, 0x80u8, 0x80u8, 0x80u8, 0x00u8]
}

/// The opcode of an operation on `i32`, if the operation exists there.
/// The opcode of the same operation on `i64` lies `0x12` higher for the
/// arithmetic and `0x0B` higher for the comparisons.
pub open spec fn int_opcode(m: WasmMnemonic, signed: bool) -> Option<int> {
    match m {
        WasmMnemonic::Add => Some(0x6A),
        WasmMnemonic::Sub => Some(0x6B),
        WasmMnemonic::Mul => Some(0x6C),
        WasmMnemonic::Div => Some(
            if signed {
                0x6D
            } else {
                0x6E
            },
        ),
        WasmMnemonic::Rem => Some(
            if signed {
                0x6F
            } else {
                0x70
            },
        ),
        WasmMnemonic::And => Some(0x71),
        WasmMnemonic::Or => Some(0x72),
        WasmMnemonic::Xor => Some(0x73),
        WasmMnemonic::Shl => Some(0x74),
        WasmMnemonic::Shr => Some(
            if signed {
                0x75
            } else {
                0x76
            },
        ),
        WasmMnemonic::Eq => Some(0x46),
        WasmMnemonic::Ne => Some(0x47),
        WasmMnemonic::Lt => Some(
            if signed {
                0x48
            } else {
                0x49
            },
        ),
        WasmMnemonic::Gt => Some(
            if signed {
                0x4A
            } else {
                0x4B
            },
        ),
        WasmMnemonic::Le => Some(
            if signed {
                0x4C
            } else {
                0x4D
            },
        ),
        WasmMnemonic::Ge => Some(
            if signed {
                0x4E
            } else {
                0x4F
            },
        ),
        WasmMnemonic::Load => Some(0x28),
        WasmMnemonic::Store => Some(0x36),
        _ => None,
    }
}

/// Whether an operation on integers is a comparison.
pub open spec fn is_comparison(m: WasmMnemonic) -> bool {
    m == WasmMnemonic::Eq || m == WasmMnemonic::Ne || m == WasmMnemonic::Lt || m
        == WasmMnemonic::Gt || m == WasmMnemonic::Le || m == WasmMnemonic::Ge
}

/// Whether an operation reads or writes memory.
pub open spec fn is_memory(m: WasmMnemonic) -> bool {
    m == WasmMnemonic::Load || m == WasmMnemonic::Store
}

/// The opcode of an operation on the shorter floating point type, if the
/// operation exists there. The opcode of the same operation on the longer
/// one lies `0x0E` higher for the arithmetic and 6 higher for the
/// comparisons.
pub open spec fn float_opcode(m: WasmMnemonic) -> Option<int> {
    match m {
        WasmMnemonic::Neg => Some(0x8C),
        WasmMnemonic::Add => Some(0x92),
        WasmMnemonic::Sub => Some(0x93),
        WasmMnemonic::Mul => Some(0x94),
        WasmMnemonic::Div => Some(0x95),
        WasmMnemonic::Eq => Some(0x5B),
        WasmMnemonic::Ne => Some(0x5C),
        WasmMnemonic::Lt => Some(0x5D),
        WasmMnemonic::Gt => Some(0x5E),
        WasmMnemonic::Le => Some(0x5F),
        WasmMnemonic::Ge => Some(0x60),
        WasmMnemonic::Load => Some(0x2A),
        WasmMnemonic::Store => Some(0x38),
        _ => None,
    }
}

/// The opcode of a conversion to a type from a type, if there is one;
/// `signed` tells how an integer source is read.
pub open spec fn convert_opcode(to: WasmPrefix, from: WasmPrefix, signed: bool) -> Option<int> {
    let pick = |s: int, u: int| if signed {
        s
    } else {
        u
    };
    match (to, from) {
        (WasmPrefix::i32, WasmPrefix::i64) => Some(0xA7),
        (WasmPrefix::i32, WasmPrefix::fp32) => Some(pick(0xA8, 0xA9)),
        (WasmPrefix::i32, WasmPrefix::fp64) => Some(pick(0xAA, 0xAB)),
        (WasmPrefix::i64, WasmPrefix::i32) => Some(pick(0xAC, 0xAD)),
        (WasmPrefix::i64, WasmPrefix::fp32) => Some(pick(0xAE, 0xAF)),
        (WasmPrefix::i64, WasmPrefix::fp64) => Some(pick(0xB0, 0xB1)),
        (WasmPrefix::fp32, WasmPrefix::i32) => Some(pick(0xB2, 0xB3)),
        (WasmPrefix::fp32, WasmPrefix::i64) => Some(pick(0xB4, 0xB5)),
        (WasmPrefix::fp32, WasmPrefix::fp64) => Some(0xB6),
        (WasmPrefix::fp64, WasmPrefix::i32) => Some(pick(0xB7, 0xB8)),
        (WasmPrefix::fp64, WasmPrefix::i64) => Some(pick(0xB9, 0xBA)),
        (WasmPrefix::fp64, WasmPrefix::fp32) => Some(0xBB),
        _ => None,
    }
}

/// The opcode of an operation on values of a type, if there is one.
pub open spec fn typed_opcode(t: WasmPrefix, m: WasmMnemonic, signed: bool) -> Option<int> {
    match m {
        WasmMnemonic::Convert(from) => convert_opcode(t, from, signed),
        _ => match t {
            WasmPrefix::i32 => int_opcode(m, signed),
            WasmPrefix::i64 => match int_opcode(m, signed) {
                Some(code) => Some(
                    if is_memory(m) {
                        code + 1
                    } else if is_comparison(m) {
                        code + 0x0B
                    } else {
                        code + 0x12
                    },
                ),
                None => None,
            },
            WasmPrefix::fp32 => float_opcode(m),
            WasmPrefix::fp64 => match float_opcode(m) {
                Some(code) => Some(
                    if is_memory(m) {
                        code + 1
                    } else if is_comparison(m) {
                        code + 6
                    } else {
                        code + 0x0E
                    },
                ),
                None => None,
            },
            WasmPrefix::Local => None,
        },
    }
}

/// The alignment of an access to memory, as the power of two that the
/// binary format asks for.
pub open spec fn align_of(t: WasmPrefix) -> u8 {
    match t {
        WasmPrefix::i64 | WasmPrefix::fp64 => 3,
        _ => 2,
    }
}

/// The opcode of an instruction that names a function or block.
pub open spec fn label_opcode(m: WasmMnemonic) -> Option<u8> {
    match m {
        WasmMnemonic::Br => Some(0x0Cu8),
        WasmMnemonic::BrIf => Some(0x0Du8),
        WasmMnemonic::Call => Some(0x10u8),
        _ => None,
    }
}

/// The bytes of an instruction, or the reason why it has none: no
/// operation of that name exists on the type, or the operand is not of
/// the kind that the operation takes.
pub open spec fn wasm_encoded(instr: WasmInstrView) -> Result<Seq<u8>, EncodeError> {
    let invalid = Err::<Seq<u8>, EncodeError>(EncodeError::OperandClassInvalid);
    match (instr.prefix, instr.op1) {
        (Some(WasmPrefix::Local), Some(WasmOperandView::Var(n))) => if n < 0 {
            invalid
        } else {
            match instr.mnemonic {
                WasmMnemonic::Get => Ok(seq![0x20u8] + uleb(n as nat)),
                WasmMnemonic::Put => Ok(seq![0x21u8] + uleb(n as nat)),
                WasmMnemonic::Tee => Ok(seq![0x22u8] + uleb(n as nat)),
                _ => invalid,
            }
        },
        (Some(t), Some(WasmOperandView::Const(v))) => if instr.mnemonic != WasmMnemonic::Const {
            invalid
        } else if t == WasmPrefix::i32 && -0x8000_0000 <= v <= 0x7fff_ffff {
            Ok(seq![0x41u8] + sleb(v as int))
        } else if t == WasmPrefix::i64 {
            Ok(seq![0x42u8] + sleb(v as int))
        } else {
            invalid
        },
        (Some(WasmPrefix::i64), Some(WasmOperandView::Label(_))) => if instr.mnemonic
            == WasmMnemonic::Const {
            Ok(seq![0x42u8] + padded_zero())
        } else {
            invalid
        },
        (None, Some(WasmOperandView::Label(_))) => match label_opcode(instr.mnemonic) {
            Some(code) => Ok(seq![code] + padded_zero()),
            None => invalid,
        },
        (Some(t), None) => match typed_opcode(t, instr.mnemonic, instr.signed) {
            Some(code) => if is_memory(instr.mnemonic) {
                Ok(seq![code as u8, align_of(t), 0u8])
            } else {
                Ok(seq![code as u8])
            },
            None => invalid,
        },
        (None, None) => match instr.mnemonic {
            WasmMnemonic::Select => Ok(seq![0x1Bu8]),
            WasmMnemonic::Return => Ok(seq![0x0Fu8]),
            _ => invalid,
        },
        _ => invalid,
    }
}

/// The relocation that an instruction carries: one for the name it
/// holds, to be written into the padded zero.
pub open spec fn wasm_carried_link(instr: WasmInstrView) -> Option<LinkView> {
    match instr.op1 {
        Some(WasmOperandView::Label(name)) => Some(
            LinkView {
                from: Seq::empty(),
                to: name,
                at: 0,
                addend: 0,
                kind: LinkKind::Absolute32,
                to_block: instr.mnemonic == WasmMnemonic::Br || instr.mnemonic
                    == WasmMnemonic::BrIf,
            },
        ),
        _ => None,
    }
}

/// An instruction that carries a relocation encodes to six bytes: its
/// opcode and the padded zero that the relocation fills.
pub proof fn lemma_label_length(instr: WasmInstrView)
    requires
        wasm_carried_link(instr) is Some,
        wasm_encoded(instr) is Ok,
    ensures
        wasm_encoded(instr)->Ok_0.len() == 6,
{
}

/// Appends a natural number in unsigned LEB128.
pub fn push_uleb(out: &mut Vec<u8>, n: u64)
    ensures
        final(out)@ == old(out)@ + uleb(n as nat),
    decreases n,
{
    if n < 128 {
        out.push(n as u8);
    } else {
        out.push((n % 128 + 128) as u8);
        push_uleb(out, n / 128);
        assert(out@ =~= old(out)@ + uleb(n as nat));
    }
}

/// Appends an integer in signed LEB128.
pub fn push_sleb(out: &mut Vec<u8>, v: i64)
    ensures
        final(out)@ == old(out)@ + sleb(v as int),
    decreases (if v < 0 {
        -v
    } else {
        v as int
    }),
{
    let (quot, rem): (i64, i64) = if v >= 0 {
        (v / 128, v % 128)
    } else {
        let m = -(v + 1);
        (-(m / 128) - 1, 127 - (m % 128))
    };
    assert(quot == v as int / 128 && rem == v as int % 128);
    if -64 <= v && v < 64 {
        out.push(rem as u8);
    } else {
        out.push((rem + 128) as u8);
        push_sleb(out, quot);
        assert(out@ =~= old(out)@ + sleb(v as int));
    }
}

fn push_padded_zero(out: &mut Vec<u8>)
    ensures
        final(out)@ == old(out)@ + padded_zero(),
{
    out.push(0x80);
    out.push(0x80);
    out.push(0x80);
    out.push(0x80);
    out.push(0x00);
    assert(out@ =~= old(out)@ + padded_zero());
}

fn int_opcode_of(m: WasmMnemonic, signed: bool) -> (r: Option<u8>)
    ensures
        match r {
            Some(code) => int_opcode(m, signed) == Some(code as int) && code <= 0x76,
            None => int_opcode(m, signed) is None,
        },
{
    match m {
        WasmMnemonic::Add => Some(0x6A),
        WasmMnemonic::Sub => Some(0x6B),
        WasmMnemonic::Mul => Some(0x6C),
        WasmMnemonic::Div => Some(
            if signed {
                0x6D
            } else {
                0x6E
            },
        ),
        WasmMnemonic::Rem => Some(
            if signed {
                0x6F
            } else {
                0x70
            },
        ),
        WasmMnemonic::And => Some(0x71),
        WasmMnemonic::Or => Some(0x72),
        WasmMnemonic::Xor => Some(0x73),
        WasmMnemonic::Shl => Some(0x74),
        WasmMnemonic::Shr => Some(
            if signed {
                0x75
            } else {
                0x76
            },
        ),
        WasmMnemonic::Eq => Some(0x46),
        WasmMnemonic::Ne => Some(0x47),
        WasmMnemonic::Lt => Some(
            if signed {
                0x48
            } else {
                0x49
            },
        ),
        WasmMnemonic::Gt => Some(
            if signed {
                0x4A
            } else {
                0x4B
            },
        ),
        WasmMnemonic::Le => Some(
            if signed {
                0x4C
            } else {
                0x4D
            },
        ),
        WasmMnemonic::Ge => Some(
            if signed {
                0x4E
            } else {
                0x4F
            },
        ),
        WasmMnemonic::Load => Some(0x28),
        WasmMnemonic::Store => Some(0x36),
        _ => None,
    }
}

fn float_opcode_of(m: WasmMnemonic) -> (r: Option<u8>)
    ensures
        match r {
            Some(code) => float_opcode(m) == Some(code as int) && code <= 0x95,
            None => float_opcode(m) is None,
        },
{
    match m {
        WasmMnemonic::Neg => Some(0x8C),
        WasmMnemonic::Add => Some(0x92),
        WasmMnemonic::Sub => Some(0x93),
        WasmMnemonic::Mul => Some(0x94),
        WasmMnemonic::Div => Some(0x95),
        WasmMnemonic::Eq => Some(0x5B),
        WasmMnemonic::Ne => Some(0x5C),
        WasmMnemonic::Lt => Some(0x5D),
        WasmMnemonic::Gt => Some(0x5E),
        WasmMnemonic::Le => Some(0x5F),
        WasmMnemonic::Ge => Some(0x60),
        WasmMnemonic::Load => Some(0x2A),
        WasmMnemonic::Store => Some(0x38),
        _ => None,
    }
}

fn convert_opcode_of(to: WasmPrefix, from: WasmPrefix, signed: bool) -> (r: Option<u8>)
    ensures
        match r {
            Some(code) => convert_opcode(to, from, signed) == Some(code as int),
            None => convert_opcode(to, from, signed) is None,
        },
{
    let add: u8 = if signed {
        0
    } else {
        1
    };
    match (to, from) {
        (WasmPrefix::i32, WasmPrefix::i64) => Some(0xA7),
        (WasmPrefix::i32, WasmPrefix::fp32) => Some(0xA8 + add),
        (WasmPrefix::i32, WasmPrefix::fp64) => Some(0xAA + add),
        (WasmPrefix::i64, WasmPrefix::i32) => Some(0xAC + add),
        (WasmPrefix::i64, WasmPrefix::fp32) => Some(0xAE + add),
        (WasmPrefix::i64, WasmPrefix::fp64) => Some(0xB0 + add),
        (WasmPrefix::fp32, WasmPrefix::i32) => Some(0xB2 + add),
        (WasmPrefix::fp32, WasmPrefix::i64) => Some(0xB4 + add),
        (WasmPrefix::fp32, WasmPrefix::fp64) => Some(0xB6),
        (WasmPrefix::fp64, WasmPrefix::i32) => Some(0xB7 + add),
        (WasmPrefix::fp64, WasmPrefix::i64) => Some(0xB9 + add),
        (WasmPrefix::fp64, WasmPrefix::fp32) => Some(0xBB),
        _ => None,
    }
}

fn comparison(m: WasmMnemonic) -> (r: bool)
    ensures
        r == is_comparison(m),
{
    match m {
        WasmMnemonic::Eq
        | WasmMnemonic::Ne
        | WasmMnemonic::Lt
        | WasmMnemonic::Gt
        | WasmMnemonic::Le
        | WasmMnemonic::Ge => true,
        _ => false,
    }
}

fn memory(m: WasmMnemonic) -> (r: bool)
    ensures
        r == is_memory(m),
{
    match m {
        WasmMnemonic::Load | WasmMnemonic::Store => true,
        _ => false,
    }
}

fn typed_opcode_of(t: WasmPrefix, m: WasmMnemonic, signed: bool) -> (r: Option<u8>)
    ensures
        match r {
            Some(code) => typed_opcode(t, m, signed) == Some(code as int),
            None => typed_opcode(t, m, signed) is None,
        },
{
    if let WasmMnemonic::Convert(from) = m {
        return convert_opcode_of(t, from, signed);
    }
    match t {
        WasmPrefix::i32 => int_opcode_of(m, signed),
        WasmPrefix::i64 => match int_opcode_of(m, signed) {
            Some(code) => Some(
                if memory(m) {
                    code + 1
                } else if comparison(m) {
                    code + 0x0B
                } else {
                    code + 0x12
                },
            ),
            None => None,
        },
        WasmPrefix::fp32 => float_opcode_of(m),
        WasmPrefix::fp64 => match float_opcode_of(m) {
            Some(code) => Some(
                if memory(m) {
                    code + 1
                } else if comparison(m) {
                    code + 6
                } else {
                    code + 0x0E
                },
            ),
            None => None,
        },
        WasmPrefix::Local => None,
    }
}

fn encode_bytes(instr: &WasmMCInstr) -> (r: Result<Vec<u8>, EncodeError>)
    ensures
        match r {
            Ok(bytes) => wasm_encoded(instr@) == Ok::<Seq<u8>, EncodeError>(bytes@),
            Err(e) => wasm_encoded(instr@) == Err::<Seq<u8>, EncodeError>(e),
        },
{
    let mut out: Vec<u8> = Vec::new();
    match (&instr.prefix, &instr.op1) {
        (Some(WasmPrefix::Local), Some(WasmOperand::Var(n))) => {
            if *n < 0 {
                return Err(EncodeError::OperandClassInvalid);
            }
            let code: u8 = match instr.mnemonic {
                WasmMnemonic::Get => 0x20,
                WasmMnemonic::Put => 0x21,
                WasmMnemonic::Tee => 0x22,
                _ => {
                    return Err(EncodeError::OperandClassInvalid);
                },
            };
            out.push(code);
            push_uleb(&mut out, *n as u64);
            assert(out@ =~= seq![code] + uleb(*n as nat));
            Ok(out)
        },
        (Some(t), Some(WasmOperand::Const(v))) => {
            if instr.mnemonic != WasmMnemonic::Const {
                return Err(EncodeError::OperandClassInvalid);
            }
            let small = match t {
                WasmPrefix::i32 => true,
                _ => false,
            };
            let wide = match t {
                WasmPrefix::i64 => true,
                _ => false,
            };
            if small && -0x8000_0000 <= *v && *v <= 0x7fff_ffff {
                out.push(0x41);
                push_sleb(&mut out, *v);
                assert(out@ =~= seq![0x41u8] + sleb(*v as int));
                Ok(out)
            } else if wide {
                out.push(0x42);
                push_sleb(&mut out, *v);
                assert(out@ =~= seq![0x42u8] + sleb(*v as int));
                Ok(out)
            } else {
                Err(EncodeError::OperandClassInvalid)
            }
        },
        (Some(WasmPrefix::i64), Some(WasmOperand::Label(_))) => {
            if instr.mnemonic == WasmMnemonic::Const {
                out.push(0x42);
                push_padded_zero(&mut out);
                assert(out@ =~= seq![0x42u8] + padded_zero());
                Ok(out)
            } else {
                Err(EncodeError::OperandClassInvalid)
            }
        },
        (None, Some(WasmOperand::Label(_))) => {
            let code: u8 = match instr.mnemonic {
                WasmMnemonic::Br => 0x0C,
                WasmMnemonic::BrIf => 0x0D,
                WasmMnemonic::Call => 0x10,
                _ => {
                    return Err(EncodeError::OperandClassInvalid);
                },
            };
            out.push(code);
            push_padded_zero(&mut out);
            assert(out@ =~= seq![code] + padded_zero());
            Ok(out)
        },
        (Some(t), None) => match typed_opcode_of(*t, instr.mnemonic, instr.signed) {
            Some(code) => {
                out.push(code);
                if memory(instr.mnemonic) {
                    let align: u8 = match t {
                        WasmPrefix::i64 | WasmPrefix::fp64 => 3,
                        _ => 2,
                    };
                    out.push(align);
                    out.push(0);
                    assert(out@ =~= seq![code, align, 0u8]);
                } else {
                    assert(out@ =~= seq![code]);
                }
                Ok(out)
            },
            None => Err(EncodeError::OperandClassInvalid),
        },
        (None, None) => match instr.mnemonic {
            WasmMnemonic::Select => {
                out.push(0x1B);
                assert(out@ =~= seq![0x1Bu8]);
                Ok(out)
            },
            WasmMnemonic::Return => {
                out.push(0x0F);
                assert(out@ =~= seq![0x0Fu8]);
                Ok(out)
            },
            _ => Err(EncodeError::OperandClassInvalid),
        },
        _ => Err(EncodeError::OperandClassInvalid),
    }
}

impl WasmMCInstr {
    /// Encodes the instruction: its bytes, and the relocation for the
    /// name it holds if it holds one.
    pub fn encode(&self) -> (r: Result<(Vec<u8>, Option<Link>), EncodeError>)
        ensures
            match r {
                Ok((bytes, link)) => wasm_encoded(self@) == Ok::<Seq<u8>, EncodeError>(bytes@)
                    && link_opt_view(link) == wasm_carried_link(self@),
                Err(e) => wasm_encoded(self@) == Err::<Seq<u8>, EncodeError>(e),
            },
    {
        let bytes = encode_bytes(self)?;
        let link = match &self.op1 {
            Some(WasmOperand::Label(name)) => Some(
                Link {
                    from: String::new(),
                    to: name.clone(),
                    at: 0,
                    addend: 0,
                    kind: LinkKind::Absolute32,
                    to_block: match self.mnemonic {
                        WasmMnemonic::Br | WasmMnemonic::BrIf => true,
                        _ => false,
                    },
                },
            ),
            _ => None,
        };
        Ok((bytes, link))
    }
}

} // verus!
