//! The encoder of x86-64: the bytes of each instruction, and the
//! relocation that a `Link` record carries.
use vstd::prelude::*;
use crate::codegen::error::EncodeError;
use crate::obj::link::{Link, LinkKind, LinkView, link_opt_view};
use crate::target::x64::instr::{InstrView, Mnemonic, Operand, OperandView, X64MCInstr};
use crate::target::x64::isa::{
    MandatoryPrefix, ModRm, RexPrefix, buildOpcode, le_bytes, modrm_byte, opcode_bytes,
    lemma_le_bytes_len, push_le_bytes, rex_byte,
};
use crate::target::x64::optimizer::is_linkable;
use crate::target::x64::reg::x64Reg;

verus! {

/// The prefix that an operand size takes: `0x66` for 16 bits.
pub open spec fn size_prefix(size: int) -> Option<MandatoryPrefix> {
    if size == 16 {
        Some(MandatoryPrefix::t16BitOps)
    } else {
        None
    }
}

/// The byte registers that can only be named with a REX prefix.
pub open spec fn is_rex_byte_reg(reg: x64Reg) -> bool {
    reg == x64Reg::Spl || reg == x64Reg::Bpl || reg == x64Reg::Sil || reg == x64Reg::Dil
}

/// Whether an operand can stand in the field of register or memory of a
/// ModR/M byte.
pub open spec fn is_rm(op: OperandView) -> bool {
    op is Reg || op is Mem
}

/// The REX prefix of an instruction with a ModR/M byte: `W` for 64 bit
/// operands, `R` for the register field, `X` and `B` for the index and the
/// base or the register in the other field. It is left out where no bit
/// is set and no byte register asks for it.
pub open spec fn rex_of(wide: bool, reg: Option<x64Reg>, rm: OperandView) -> Option<RexPrefix> {
    let r = reg matches Some(q) && q.is_extended();
    let x = rm matches OperandView::Mem(m) && m.index matches Some(i) && i.is_extended();
    let b = match rm {
        OperandView::Reg(q) => q.is_extended(),
        OperandView::Mem(m) => m.base matches Some(q) && q.is_extended(),
        _ => false,
    };
    let forced = (reg matches Some(q) && is_rex_byte_reg(q)) || (rm matches OperandView::Reg(q)
        && is_rex_byte_reg(q));
    if wide || r || x || b || forced {
        Some(RexPrefix { w: wide, r, x, b })
    } else {
        None
    }
}

/// The address size prefix `0x67` of a memory operand built from registers
/// of 32 bits.
pub open spec fn addr_prefix(rm: OperandView) -> Seq<u8> {
    if rm matches OperandView::Mem(m) && m.addr32() {
        seq![0x67u8]
    } else {
        seq![]
    }
}

/// The ModR/M byte and what follows it, with `digit` in the register
/// field.
pub open spec fn rm_bytes(digit: int, rm: OperandView) -> Seq<u8> {
    match rm {
        OperandView::Reg(q) => seq![modrm_byte(3, digit, q.enc_spec())],
        OperandView::Mem(m) => m.modrm(digit),
        _ => seq![],
    }
}

/// An instruction with a ModR/M byte: address size prefix, operand size
/// prefix, REX prefix, opcode, ModR/M byte with what follows it, and the
/// immediate.
pub open spec fn modrm_instr(
    size: int,
    opcode: Seq<u8>,
    reg: Option<x64Reg>,
    digit: int,
    rm: OperandView,
    imm: Seq<u8>,
) -> Seq<u8> {
    addr_prefix(rm) + opcode_bytes(size_prefix(size), rex_of(size == 64, reg, rm), opcode)
        + rm_bytes(digit, rm) + imm
}

/// The opcode of the form `op r/m, r` of a two operand instruction, for
/// operands of 16, 32 or 64 bits. The form for 8 bits is one less, the
/// form `op r, r/m` two more.
pub open spec fn binary_opcode(m: Mnemonic) -> Option<int> {
    match m {
        Mnemonic::Add => Some(0x01),
        Mnemonic::Or => Some(0x09),
        Mnemonic::And => Some(0x21),
        Mnemonic::Sub => Some(0x29),
        Mnemonic::Xor => Some(0x31),
        Mnemonic::Cmp => Some(0x39),
        Mnemonic::Mov => Some(0x89),
        _ => None,
    }
}

/// The opcode of the form with an immediate: `0xC7` for a move, `0x81`
/// for the arithmetic instructions; one less for 8 bits.
pub open spec fn imm_opcode(m: Mnemonic) -> int {
    if m == Mnemonic::Mov {
        0xC7
    } else {
        0x81
    }
}

/// The digit in the register field of the form with an immediate.
pub open spec fn imm_digit(m: Mnemonic) -> int {
    match m {
        Mnemonic::Or => 1,
        Mnemonic::And => 4,
        Mnemonic::Sub => 5,
        Mnemonic::Xor => 6,
        Mnemonic::Cmp => 7,
        _ => 0,
    }
}

/// The digit of the one operand instructions of opcode `0xF7` (`0xF6` for
/// 8 bits).
pub open spec fn unary_digit(m: Mnemonic) -> Option<int> {
    match m {
        Mnemonic::Neg => Some(3),
        Mnemonic::Mul => Some(4),
        Mnemonic::Imul => Some(5),
        Mnemonic::Div => Some(6),
        Mnemonic::Idiv => Some(7),
        _ => None,
    }
}

/// The second opcode byte of the instructions that set a byte from the
/// flags; the first is `0x0F`.
pub open spec fn set_opcode(m: Mnemonic) -> Option<int> {
    match m {
        Mnemonic::Sete => Some(0x94),
        Mnemonic::Setne => Some(0x95),
        Mnemonic::Setl => Some(0x9C),
        Mnemonic::Setge => Some(0x9D),
        Mnemonic::Setle => Some(0x9E),
        Mnemonic::Setg => Some(0x9F),
        _ => None,
    }
}

/// The opcode of the jumps and the call, which take a distance of 32 bits.
pub open spec fn jump_opcode(m: Mnemonic) -> Option<Seq<u8>> {
    match m {
        Mnemonic::Call => Some(seq![0xE8u8]),
        Mnemonic::Jmp => Some(seq![0xE9u8]),
        Mnemonic::Je => Some(seq![0x0Fu8, 0x84u8]),
        Mnemonic::Jne => Some(seq![0x0Fu8, 0x85u8]),
        _ => None,
    }
}

/// The opcode of a size: the one given for 16, 32 and 64 bits, one less
/// for 8 bits.
pub open spec fn sized(opcode: int, size: int) -> u8 {
    if size == 8 {
        (opcode - 1) as u8
    } else {
        opcode as u8
    }
}

/// The number of bytes of an immediate for operands of a size: one, two
/// or four. Operands of 64 bits take four bytes, extended by the sign.
pub open spec fn imm_len(size: int) -> nat {
    if size == 8 {
        1
    } else if size == 16 {
        2
    } else {
        4
    }
}

/// Whether an immediate can be written for operands of a size: as a
/// signed or an unsigned number of that size up to 32 bits, as a signed
/// number of 32 bits for 64 bits.
pub open spec fn imm_fits(v: int, size: int) -> bool {
    if size == 8 {
        -0x80 <= v <= 0xff
    } else if size == 16 {
        -0x8000 <= v <= 0xffff
    } else if size == 32 {
        -0x8000_0000 <= v <= 0xffff_ffff
    } else {
        -0x8000_0000 <= v <= 0x7fff_ffff
    }
}

/// Whether a value fits into a signed number of 32 bits.
pub open spec fn fits_i32(v: int) -> bool {
    -0x8000_0000 <= v <= 0x7fff_ffff
}

/// The error of a memory operand, if the operand is one and has one.
pub open spec fn operand_error(op: OperandView) -> Option<EncodeError> {
    match op {
        OperandView::Mem(m) => m.encode_error(),
        _ => None,
    }
}

/// The bytes of an instruction with two operands: a move, an arithmetic
/// or bitwise instruction or a comparison.
pub open spec fn encoded_binary(m: Mnemonic, dst: OperandView, src: OperandView) -> Result<
    Seq<u8>,
    EncodeError,
> {
    let base = binary_opcode(m)->0;
    match (dst, src) {
        (OperandView::Reg(d), OperandView::Reg(s)) => if d.bits() != s.bits() {
            Err(EncodeError::OperandClassInvalid)
        } else {
            Ok(modrm_instr(d.bits(), seq![sized(base, d.bits())], Some(s), s.enc_spec(), dst,
                seq![]))
        },
        (OperandView::Reg(d), OperandView::Mem(mem)) => match mem.encode_error() {
            Some(e) => Err(e),
            None => Ok(
                modrm_instr(
                    d.bits(),
                    seq![sized(base + 2, d.bits())],
                    Some(d),
                    d.enc_spec(),
                    src,
                    seq![],
                ),
            ),
        },
        (OperandView::Mem(mem), OperandView::Reg(s)) => match mem.encode_error() {
            Some(e) => Err(e),
            None => Ok(
                modrm_instr(s.bits(), seq![sized(base, s.bits())], Some(s), s.enc_spec(), dst,
                    seq![]),
            ),
        },
        (OperandView::Reg(d), OperandView::Imm(v)) => if imm_fits(v as int, d.bits()) {
            Ok(
                modrm_instr(
                    d.bits(),
                    seq![sized(imm_opcode(m), d.bits())],
                    None,
                    imm_digit(m),
                    dst,
                    le_bytes(v as int, imm_len(d.bits())),
                ),
            )
        } else if m == Mnemonic::Mov && d.bits() == 64 {
            Ok(
                seq![
                    rex_byte(RexPrefix { w: true, r: false, x: false, b: d.is_extended() }),
                    (0xB8 + d.enc_spec()) as u8,
                ] + le_bytes(v as int, 8),
            )
        } else {
            Err(EncodeError::OperandClassInvalid)
        },
        (OperandView::Mem(mem), OperandView::Imm(v)) => match mem.encode_error() {
            Some(e) => Err(e),
            None => if fits_i32(v as int) {
                Ok(
                    modrm_instr(
                        64,
                        seq![imm_opcode(m) as u8],
                        None,
                        imm_digit(m),
                        dst,
                        le_bytes(v as int, 4),
                    ),
                )
            } else {
                Err(EncodeError::OperandClassInvalid)
            },
        },
        _ => Err(EncodeError::OperandClassInvalid),
    }
}

/// The bytes of an instruction with one operand in a register or in
/// memory: opcode `0xF7` (`0xF6` for 8 bits) with a digit. An operand in
/// memory is taken as 64 bits wide.
pub open spec fn encoded_unary(digit: int, op: OperandView) -> Result<Seq<u8>, EncodeError> {
    match op {
        OperandView::Reg(r) => Ok(
            modrm_instr(r.bits(), seq![sized(0xF7, r.bits())], None, digit, op, seq![]),
        ),
        OperandView::Mem(mem) => match mem.encode_error() {
            Some(e) => Err(e),
            None => Ok(modrm_instr(64, seq![0xF7u8], None, digit, op, seq![])),
        },
        _ => Err(EncodeError::OperandClassInvalid),
    }
}

/// The bytes of an instruction that sets a byte from the flags: the
/// operand is a register of 8 bits or a byte in memory.
pub open spec fn encoded_set(opcode: int, op: OperandView) -> Result<Seq<u8>, EncodeError> {
    match op {
        OperandView::Reg(r) => if r.bits() == 8 {
            Ok(modrm_instr(8, seq![0x0Fu8, opcode as u8], None, 0, op, seq![]))
        } else {
            Err(EncodeError::OperandClassInvalid)
        },
        OperandView::Mem(mem) => match mem.encode_error() {
            Some(e) => Err(e),
            None => Ok(modrm_instr(8, seq![0x0Fu8, opcode as u8], None, 0, op, seq![])),
        },
        _ => Err(EncodeError::OperandClassInvalid),
    }
}

/// The bytes of `lea`: a register of 16, 32 or 64 bits and a memory
/// operand.
pub open spec fn encoded_lea(dst: OperandView, src: OperandView) -> Result<Seq<u8>, EncodeError> {
    match (dst, src) {
        (OperandView::Reg(d), OperandView::Mem(mem)) => if d.bits() == 8 {
            Err(EncodeError::OperandClassInvalid)
        } else {
            match mem.encode_error() {
                Some(e) => Err(e),
                None => Ok(modrm_instr(d.bits(), seq![0x8Du8], Some(d), d.enc_spec(), src, seq![])),
            }
        },
        _ => Err(EncodeError::OperandClassInvalid),
    }
}

/// The bytes of `movzx`: from a register of 8 or 16 bits into a wider
/// register.
pub open spec fn encoded_movzx(dst: OperandView, src: OperandView) -> Result<Seq<u8>, EncodeError> {
    match (dst, src) {
        (OperandView::Reg(d), OperandView::Reg(s)) => if (s.bits() == 8 || s.bits() == 16)
            && d.bits() > s.bits() {
            Ok(
                modrm_instr(
                    d.bits(),
                    seq![
                        0x0Fu8,
                        if s.bits() == 8 {
                            0xB6u8
                        } else {
                            0xB7u8
                        },
                    ],
                    Some(d),
                    d.enc_spec(),
                    src,
                    seq![],
                ),
            )
        } else {
            Err(EncodeError::OperandClassInvalid)
        },
        _ => Err(EncodeError::OperandClassInvalid),
    }
}

/// The bytes of `push` (`0x50` plus the register) and `pop` (`0x58` plus
/// the register) of a register of 64 bits, and of `push` of a constant of
/// 32 bits.
pub open spec fn encoded_stack(m: Mnemonic, op: OperandView) -> Result<Seq<u8>, EncodeError> {
    match op {
        OperandView::Reg(r) => if r.bits() == 64 {
            let code: int = if m == Mnemonic::Push {
                0x50
            } else {
                0x58
            };
            Ok(
                (if r.is_extended() {
                    seq![0x41u8]
                } else {
                    seq![]
                }) + seq![(code + r.enc_spec()) as u8],
            )
        } else {
            Err(EncodeError::OperandClassInvalid)
        },
        OperandView::Imm(v) => if m == Mnemonic::Push && fits_i32(v as int) {
            Ok(seq![0x68u8] + le_bytes(v as int, 4))
        } else {
            Err(EncodeError::OperandClassInvalid)
        },
        _ => Err(EncodeError::OperandClassInvalid),
    }
}

/// The bytes of a call or a jump: the opcode and the distance in 32 bits.
pub open spec fn encoded_jump(opcode: Seq<u8>, op: OperandView) -> Result<Seq<u8>, EncodeError> {
    match op {
        OperandView::Imm(v) => if fits_i32(v as int) {
            Ok(opcode + le_bytes(v as int, 4))
        } else {
            Err(EncodeError::OperandClassInvalid)
        },
        _ => Err(EncodeError::OperandClassInvalid),
    }
}

/// The bytes of an instruction. The two records `Link` and
/// `StartOptimization` have none.
pub open spec fn encoded_bytes(instr: InstrView) -> Result<Seq<u8>, EncodeError> {
    let m = instr.mnemonic;
    match (instr.op1, instr.op2) {
        (None, None) => match m {
            Mnemonic::Ret => Ok(seq![0xC3u8]),
            Mnemonic::Cqo => Ok(seq![0x48u8, 0x99u8]),
            Mnemonic::StartOptimization => Ok(seq![]),
            _ => Err(EncodeError::OperandClassInvalid),
        },
        (Some(op), None) => if m == Mnemonic::Link {
            if op is LinkDestination || op is BlockLinkDestination {
                Ok(seq![])
            } else {
                Err(EncodeError::OperandClassInvalid)
            }
        } else if unary_digit(m) is Some {
            encoded_unary(unary_digit(m)->0, op)
        } else if set_opcode(m) is Some {
            encoded_set(set_opcode(m)->0, op)
        } else if jump_opcode(m) is Some {
            encoded_jump(jump_opcode(m)->0, op)
        } else if m == Mnemonic::Push || m == Mnemonic::Pop {
            encoded_stack(m, op)
        } else {
            Err(EncodeError::OperandClassInvalid)
        },
        (Some(dst), Some(src)) => if binary_opcode(m) is Some {
            encoded_binary(m, dst, src)
        } else if m == Mnemonic::Lea {
            encoded_lea(dst, src)
        } else if m == Mnemonic::Movzx {
            encoded_movzx(dst, src)
        } else {
            Err(EncodeError::OperandClassInvalid)
        },
        (None, Some(_)) => Err(EncodeError::OperandClassInvalid),
    }
}

/// The relocation that an instruction carries: a `Link` record carries
/// one for its symbol or block, relative to the instruction pointer, with
/// its place and its function still to be filled in.
pub open spec fn carried_link(instr: InstrView) -> Option<LinkView> {
    if instr.mnemonic == Mnemonic::Link && instr.op2 is None {
        match instr.op1 {
            Some(OperandView::LinkDestination(name, addend)) => Some(
                LinkView {
                    from: Seq::empty(),
                    to: name,
                    at: 0,
                    addend,
                    kind: LinkKind::PcRelative32,
                    to_block: false,
                },
            ),
            Some(OperandView::BlockLinkDestination(name, addend)) => Some(
                LinkView {
                    from: Seq::empty(),
                    to: name,
                    at: 0,
                    addend,
                    kind: LinkKind::PcRelative32,
                    to_block: true,
                },
            ),
            _ => None,
        }
    } else {
        None
    }
}

/// An instruction whose field a relocation can fill encodes to at least
/// five bytes, of which the last four are the field.
pub proof fn lemma_linkable_length(instr: InstrView)
    requires
        is_linkable(instr),
        encoded_bytes(instr) is Ok,
    ensures
        encoded_bytes(instr)->Ok_0.len() >= 5,
{
    if instr.mnemonic == Mnemonic::Lea {
        let mem = instr.op2->0->Mem_0;
        lemma_le_bytes_len(mem.displ as int, 4);
    } else {
        let v = instr.op1->0->Imm_0;
        lemma_le_bytes_len(v as int, 4);
    }
}

fn rex_byte_reg(reg: &x64Reg) -> (r: bool)
    ensures
        r == is_rex_byte_reg(*reg),
{
    match reg {
        x64Reg::Spl | x64Reg::Bpl | x64Reg::Sil | x64Reg::Dil => true,
        _ => false,
    }
}

fn rex_for(wide: bool, reg: &Option<x64Reg>, rm: &Operand) -> (r: Option<RexPrefix>)
    ensures
        r == rex_of(wide, *reg, rm@),
{
    let (r, reg_forced) = match reg {
        Some(q) => (q.extended(), rex_byte_reg(q)),
        None => (false, false),
    };
    let (x, b, rm_forced) = match rm {
        Operand::Reg(q) => (false, q.extended(), rex_byte_reg(q)),
        Operand::Mem(m) => {
            let x = match &m.index {
                Some(i) => i.extended(),
                None => false,
            };
            let b = match &m.base {
                Some(q) => q.extended(),
                None => false,
            };
            (x, b, false)
        },
        _ => (false, false, false),
    };
    if wide || r || x || b || reg_forced || rm_forced {
        Some(RexPrefix { w: wide, r, x, b })
    } else {
        None
    }
}

fn bits_of(reg: &x64Reg) -> (r: u8)
    ensures
        r == reg.bits(),
{
    if reg.is_gr64() {
        64
    } else if reg.is_gr32() {
        32
    } else if reg.is_gr16() {
        16
    } else {
        8
    }
}

fn check_operand(op: &Operand) -> (r: Result<(), EncodeError>)
    ensures
        match r {
            Ok(()) => operand_error(op@) is None,
            Err(e) => operand_error(op@) == Some(e),
        },
{
    match op {
        Operand::Mem(m) => m.check(),
        _ => Ok(()),
    }
}

/// Puts together an instruction with a ModR/M byte.
fn build_modrm(
    size: u8,
    opcode: Vec<u8>,
    reg: Option<x64Reg>,
    digit: u8,
    rm: &Operand,
    imm: i64,
    imm_bytes: usize,
) -> (r: Vec<u8>)
    requires
        is_rm(rm@),
        operand_error(rm@) is None,
        digit < 8,
        imm_bytes <= 8,
    ensures
        r@ == modrm_instr(
            size as int,
            opcode@,
            reg,
            digit as int,
            rm@,
            le_bytes(imm as int, imm_bytes as nat),
        ),
{
    let mut out: Vec<u8> = Vec::new();
    if let Operand::Mem(m) = rm {
        if m.uses_addr32() {
            out.push(0x67);
        }
    }
    let mandatory = if size == 16 {
        Some(MandatoryPrefix::t16BitOps)
    } else {
        None
    };
    let mut head = buildOpcode(mandatory, rex_for(size == 64, &reg, rm), opcode);
    out.append(&mut head);
    let mut tail = match rm {
        Operand::Reg(q) => ModRm::digitR(digit, *q),
        Operand::Mem(m) => match ModRm::digitM(digit, *m) {
            Ok(bytes) => bytes,
            Err(_) => Vec::new(),
        },
        _ => Vec::new(),
    };
    out.append(&mut tail);
    push_le_bytes(&mut out, imm, imm_bytes);
    assert(out@ =~= modrm_instr(
        size as int,
        opcode@,
        reg,
        digit as int,
        rm@,
        le_bytes(imm as int, imm_bytes as nat),
    ));
    out
}

fn one_byte(b: u8) -> (r: Vec<u8>)
    ensures
        r@ == seq![b],
{
    let mut v: Vec<u8> = Vec::new();
    v.push(b);
    v
}

fn two_bytes(a: u8, b: u8) -> (r: Vec<u8>)
    ensures
        r@ == seq![a, b],
{
    let mut v: Vec<u8> = Vec::new();
    v.push(a);
    v.push(b);
    v
}

fn opcode_for(opcode: u8, size: u8) -> (r: u8)
    requires
        opcode >= 1,
    ensures
        r == sized(opcode as int, size as int),
{
    if size == 8 {
        opcode - 1
    } else {
        opcode
    }
}

fn binary_opcode_of(m: Mnemonic) -> (r: Option<u8>)
    ensures
        match r {
            Some(op) => binary_opcode(m) == Some(op as int) && 1 <= op <= 0x89,
            None => binary_opcode(m) is None,
        },
{
    match m {
        Mnemonic::Add => Some(0x01),
        Mnemonic::Or => Some(0x09),
        Mnemonic::And => Some(0x21),
        Mnemonic::Sub => Some(0x29),
        Mnemonic::Xor => Some(0x31),
        Mnemonic::Cmp => Some(0x39),
        Mnemonic::Mov => Some(0x89),
        _ => None,
    }
}

fn imm_opcode_of(m: Mnemonic) -> (r: u8)
    ensures
        r == imm_opcode(m),
{
    match m {
        Mnemonic::Mov => 0xC7,
        _ => 0x81,
    }
}

fn imm_digit_of(m: Mnemonic) -> (r: u8)
    ensures
        r == imm_digit(m),
        r < 8,
{
    match m {
        Mnemonic::Or => 1,
        Mnemonic::And => 4,
        Mnemonic::Sub => 5,
        Mnemonic::Xor => 6,
        Mnemonic::Cmp => 7,
        _ => 0,
    }
}

fn unary_digit_of(m: Mnemonic) -> (r: Option<u8>)
    ensures
        match r {
            Some(d) => unary_digit(m) == Some(d as int) && d < 8,
            None => unary_digit(m) is None,
        },
{
    match m {
        Mnemonic::Neg => Some(3),
        Mnemonic::Mul => Some(4),
        Mnemonic::Imul => Some(5),
        Mnemonic::Div => Some(6),
        Mnemonic::Idiv => Some(7),
        _ => None,
    }
}

fn set_opcode_of(m: Mnemonic) -> (r: Option<u8>)
    ensures
        match r {
            Some(op) => set_opcode(m) == Some(op as int),
            None => set_opcode(m) is None,
        },
{
    match m {
        Mnemonic::Sete => Some(0x94),
        Mnemonic::Setne => Some(0x95),
        Mnemonic::Setl => Some(0x9C),
        Mnemonic::Setge => Some(0x9D),
        Mnemonic::Setle => Some(0x9E),
        Mnemonic::Setg => Some(0x9F),
        _ => None,
    }
}

fn jump_opcode_of(m: Mnemonic) -> (r: Option<Vec<u8>>)
    ensures
        match r {
            Some(op) => jump_opcode(m) == Some(op@),
            None => jump_opcode(m) is None,
        },
{
    match m {
        Mnemonic::Call => Some(one_byte(0xE8)),
        Mnemonic::Jmp => Some(one_byte(0xE9)),
        Mnemonic::Je => Some(two_bytes(0x0F, 0x84)),
        Mnemonic::Jne => Some(two_bytes(0x0F, 0x85)),
        _ => None,
    }
}

fn imm_bytes_for(size: u8) -> (r: usize)
    ensures
        r == imm_len(size as int),
        r <= 4,
{
    if size == 8 {
        1
    } else if size == 16 {
        2
    } else {
        4
    }
}

fn imm_in_range(v: i64, size: u8) -> (r: bool)
    ensures
        r == imm_fits(v as int, size as int),
{
    if size == 8 {
        -0x80 <= v && v <= 0xff
    } else if size == 16 {
        -0x8000 <= v && v <= 0xffff
    } else if size == 32 {
        -0x8000_0000 <= v && v <= 0xffff_ffff
    } else {
        -0x8000_0000 <= v && v <= 0x7fff_ffff
    }
}

fn in_i32(v: i64) -> (r: bool)
    ensures
        r == fits_i32(v as int),
{
    -0x8000_0000 <= v && v <= 0x7fff_ffff
}

fn encode_binary(m: Mnemonic, base: u8, dst: &Operand, src: &Operand) -> (r: Result<
    Vec<u8>,
    EncodeError,
>)
    requires
        binary_opcode(m) == Some(base as int),
        1 <= base <= 0x89,
    ensures
        match r {
            Ok(bytes) => encoded_binary(m, dst@, src@) == Ok::<Seq<u8>, EncodeError>(bytes@),
            Err(e) => encoded_binary(m, dst@, src@) == Err::<Seq<u8>, EncodeError>(e),
        },
{
    match (dst, src) {
        (Operand::Reg(d), Operand::Reg(s)) => {
            let size = bits_of(d);
            if size != bits_of(s) {
                return Err(EncodeError::OperandClassInvalid);
            }
            proof {
                assert(le_bytes(0, 0) =~= Seq::<u8>::empty());
            }
            Ok(build_modrm(size, one_byte(opcode_for(base, size)), Some(*s), s.enc(), dst, 0, 0))
        },
        (Operand::Reg(d), Operand::Mem(mem)) => {
            mem.check()?;
            let size = bits_of(d);
            proof {
                assert(le_bytes(0, 0) =~= Seq::<u8>::empty());
            }
            Ok(
                build_modrm(
                    size,
                    one_byte(opcode_for(base + 2, size)),
                    Some(*d),
                    d.enc(),
                    src,
                    0,
                    0,
                ),
            )
        },
        (Operand::Mem(mem), Operand::Reg(s)) => {
            mem.check()?;
            let size = bits_of(s);
            proof {
                assert(le_bytes(0, 0) =~= Seq::<u8>::empty());
            }
            Ok(build_modrm(size, one_byte(opcode_for(base, size)), Some(*s), s.enc(), dst, 0, 0))
        },
        (Operand::Reg(d), Operand::Imm(v)) => {
            let size = bits_of(d);
            if imm_in_range(*v, size) {
                Ok(
                    build_modrm(
                        size,
                        one_byte(opcode_for(imm_opcode_of(m), size)),
                        None,
                        imm_digit_of(m),
                        dst,
                        *v,
                        imm_bytes_for(size),
                    ),
                )
            } else if m == Mnemonic::Mov && size == 64 {
                let rex = RexPrefix { w: true, r: false, x: false, b: d.extended() };
                let mut out = buildOpcode(None, Some(rex), one_byte(0xB8 + d.enc()));
                push_le_bytes(&mut out, *v, 8);
                assert(out@ =~= seq![
                    rex_byte(rex),
                    (0xB8 + d.enc_spec()) as u8,
                ] + le_bytes(*v as int, 8));
                Ok(out)
            } else {
                Err(EncodeError::OperandClassInvalid)
            }
        },
        (Operand::Mem(mem), Operand::Imm(v)) => {
            mem.check()?;
            if in_i32(*v) {
                Ok(build_modrm(64, one_byte(imm_opcode_of(m)), None, imm_digit_of(m), dst, *v, 4))
            } else {
                Err(EncodeError::OperandClassInvalid)
            }
        },
        _ => Err(EncodeError::OperandClassInvalid),
    }
}

fn encode_unary(digit: u8, op: &Operand) -> (r: Result<Vec<u8>, EncodeError>)
    requires
        digit < 8,
    ensures
        match r {
            Ok(bytes) => encoded_unary(digit as int, op@) == Ok::<Seq<u8>, EncodeError>(bytes@),
            Err(e) => encoded_unary(digit as int, op@) == Err::<Seq<u8>, EncodeError>(e),
        },
{
    proof {
        assert(le_bytes(0, 0) =~= Seq::<u8>::empty());
    }
    match op {
        Operand::Reg(reg) => {
            let size = bits_of(reg);
            Ok(build_modrm(size, one_byte(opcode_for(0xF7, size)), None, digit, op, 0, 0))
        },
        Operand::Mem(mem) => {
            mem.check()?;
            Ok(build_modrm(64, one_byte(0xF7), None, digit, op, 0, 0))
        },
        _ => Err(EncodeError::OperandClassInvalid),
    }
}

fn encode_set(opcode: u8, op: &Operand) -> (r: Result<Vec<u8>, EncodeError>)
    ensures
        match r {
            Ok(bytes) => encoded_set(opcode as int, op@) == Ok::<Seq<u8>, EncodeError>(bytes@),
            Err(e) => encoded_set(opcode as int, op@) == Err::<Seq<u8>, EncodeError>(e),
        },
{
    proof {
        assert(le_bytes(0, 0) =~= Seq::<u8>::empty());
    }
    match op {
        Operand::Reg(reg) => {
            if bits_of(reg) == 8 {
                Ok(build_modrm(8, two_bytes(0x0F, opcode), None, 0, op, 0, 0))
            } else {
                Err(EncodeError::OperandClassInvalid)
            }
        },
        Operand::Mem(mem) => {
            mem.check()?;
            Ok(build_modrm(8, two_bytes(0x0F, opcode), None, 0, op, 0, 0))
        },
        _ => Err(EncodeError::OperandClassInvalid),
    }
}

fn encode_lea(dst: &Operand, src: &Operand) -> (r: Result<Vec<u8>, EncodeError>)
    ensures
        match r {
            Ok(bytes) => encoded_lea(dst@, src@) == Ok::<Seq<u8>, EncodeError>(bytes@),
            Err(e) => encoded_lea(dst@, src@) == Err::<Seq<u8>, EncodeError>(e),
        },
{
    proof {
        assert(le_bytes(0, 0) =~= Seq::<u8>::empty());
    }
    match (dst, src) {
        (Operand::Reg(d), Operand::Mem(mem)) => {
            let size = bits_of(d);
            if size == 8 {
                return Err(EncodeError::OperandClassInvalid);
            }
            mem.check()?;
            Ok(build_modrm(size, one_byte(0x8D), Some(*d), d.enc(), src, 0, 0))
        },
        _ => Err(EncodeError::OperandClassInvalid),
    }
}

fn encode_movzx(dst: &Operand, src: &Operand) -> (r: Result<Vec<u8>, EncodeError>)
    ensures
        match r {
            Ok(bytes) => encoded_movzx(dst@, src@) == Ok::<Seq<u8>, EncodeError>(bytes@),
            Err(e) => encoded_movzx(dst@, src@) == Err::<Seq<u8>, EncodeError>(e),
        },
{
    proof {
        assert(le_bytes(0, 0) =~= Seq::<u8>::empty());
    }
    match (dst, src) {
        (Operand::Reg(d), Operand::Reg(s)) => {
            let from = bits_of(s);
            let to = bits_of(d);
            if (from == 8 || from == 16) && to > from {
                let second: u8 = if from == 8 {
                    0xB6
                } else {
                    0xB7
                };
                Ok(build_modrm(to, two_bytes(0x0F, second), Some(*d), d.enc(), src, 0, 0))
            } else {
                Err(EncodeError::OperandClassInvalid)
            }
        },
        _ => Err(EncodeError::OperandClassInvalid),
    }
}

fn encode_stack(m: Mnemonic, op: &Operand) -> (r: Result<Vec<u8>, EncodeError>)
    ensures
        match r {
            Ok(bytes) => encoded_stack(m, op@) == Ok::<Seq<u8>, EncodeError>(bytes@),
            Err(e) => encoded_stack(m, op@) == Err::<Seq<u8>, EncodeError>(e),
        },
{
    match op {
        Operand::Reg(reg) => {
            if bits_of(reg) != 64 {
                return Err(EncodeError::OperandClassInvalid);
            }
            let code: u8 = if m == Mnemonic::Push {
                0x50
            } else {
                0x58
            };
            let mut out: Vec<u8> = Vec::new();
            if reg.extended() {
                out.push(0x41);
            }
            out.push(code + reg.enc());
            assert(out@ =~= (if reg.is_extended() {
                seq![0x41u8]
            } else {
                seq![]
            }) + seq![(code + reg.enc_spec()) as u8]);
            Ok(out)
        },
        Operand::Imm(v) => {
            if m == Mnemonic::Push && in_i32(*v) {
                let mut out = one_byte(0x68);
                push_le_bytes(&mut out, *v, 4);
                Ok(out)
            } else {
                Err(EncodeError::OperandClassInvalid)
            }
        },
        _ => Err(EncodeError::OperandClassInvalid),
    }
}

fn encode_jump(opcode: Vec<u8>, op: &Operand) -> (r: Result<Vec<u8>, EncodeError>)
    ensures
        match r {
            Ok(bytes) => encoded_jump(opcode@, op@) == Ok::<Seq<u8>, EncodeError>(bytes@),
            Err(e) => encoded_jump(opcode@, op@) == Err::<Seq<u8>, EncodeError>(e),
        },
{
    match op {
        Operand::Imm(v) => {
            if in_i32(*v) {
                let mut out = opcode;
                push_le_bytes(&mut out, *v, 4);
                Ok(out)
            } else {
                Err(EncodeError::OperandClassInvalid)
            }
        },
        _ => Err(EncodeError::OperandClassInvalid),
    }
}

fn encode_bytes(instr: &X64MCInstr) -> (r: Result<Vec<u8>, EncodeError>)
    ensures
        match r {
            Ok(bytes) => encoded_bytes(instr@) == Ok::<Seq<u8>, EncodeError>(bytes@),
            Err(e) => encoded_bytes(instr@) == Err::<Seq<u8>, EncodeError>(e),
        },
{
    let m = instr.mnemonic;
    match (&instr.op1, &instr.op2) {
        (None, None) => match m {
            Mnemonic::Ret => Ok(one_byte(0xC3)),
            Mnemonic::Cqo => Ok(two_bytes(0x48, 0x99)),
            Mnemonic::StartOptimization => Ok(Vec::new()),
            _ => Err(EncodeError::OperandClassInvalid),
        },
        (Some(op), None) => {
            if m == Mnemonic::Link {
                match op {
                    Operand::LinkDestination(_, _) => Ok(Vec::new()),
                    Operand::BlockLinkDestination(_, _) => Ok(Vec::new()),
                    _ => Err(EncodeError::OperandClassInvalid),
                }
            } else if let Some(digit) = unary_digit_of(m) {
                encode_unary(digit, op)
            } else if let Some(opcode) = set_opcode_of(m) {
                encode_set(opcode, op)
            } else if let Some(opcode) = jump_opcode_of(m) {
                encode_jump(opcode, op)
            } else if m == Mnemonic::Push || m == Mnemonic::Pop {
                encode_stack(m, op)
            } else {
                Err(EncodeError::OperandClassInvalid)
            }
        },
        (Some(dst), Some(src)) => {
            if let Some(base) = binary_opcode_of(m) {
                encode_binary(m, base, dst, src)
            } else if m == Mnemonic::Lea {
                encode_lea(dst, src)
            } else if m == Mnemonic::Movzx {
                encode_movzx(dst, src)
            } else {
                Err(EncodeError::OperandClassInvalid)
            }
        },
        (None, Some(_)) => Err(EncodeError::OperandClassInvalid),
    }
}

fn link_of(instr: &X64MCInstr) -> (r: Option<Link>)
    ensures
        link_opt_view(r) == carried_link(instr@),
{
    if instr.mnemonic != Mnemonic::Link || instr.op2.is_some() {
        return None;
    }
    match &instr.op1 {
        Some(Operand::LinkDestination(name, addend)) => Some(
            Link {
                from: String::new(),
                to: name.clone(),
                at: 0,
                addend: *addend,
                kind: LinkKind::PcRelative32,
                to_block: false,
            },
        ),
        Some(Operand::BlockLinkDestination(name, addend)) => Some(
            Link {
                from: String::new(),
                to: name.clone(),
                at: 0,
                addend: *addend,
                kind: LinkKind::PcRelative32,
                to_block: true,
            },
        ),
        _ => None,
    }
}

impl X64MCInstr {
    /// Whether the encoding of the instruction ends in a field of four
    /// bytes that a relocation can fill: the distance of a call or a
    /// jump, or the displacement of an address relative to the
    /// instruction pointer.
    pub fn has_field(&self) -> (r: bool)
        ensures
            r == is_linkable(self@),
    {
        match self.mnemonic {
            Mnemonic::Call | Mnemonic::Jmp | Mnemonic::Je | Mnemonic::Jne => match (
                &self.op1,
                &self.op2,
            ) {
                (Some(Operand::Imm(_)), None) => true,
                _ => false,
            },
            Mnemonic::Lea => match (&self.op1, &self.op2) {
                (Some(Operand::Reg(_)), Some(Operand::Mem(m))) => m.rip,
                _ => false,
            },
            _ => false,
        }
    }

    /// Encodes the instruction: its bytes, and the relocation it carries
    /// if it is a `Link` record. An instruction without a form for its
    /// operands is refused.
    pub fn encode(&self) -> (r: Result<(Vec<u8>, Option<Link>), EncodeError>)
        ensures
            match r {
                Ok((bytes, link)) => encoded_bytes(self@) == Ok::<Seq<u8>, EncodeError>(bytes@)
                    && link_opt_view(link) == carried_link(self@),
                Err(e) => encoded_bytes(self@) == Err::<Seq<u8>, EncodeError>(e),
            },
    {
        let bytes = encode_bytes(self)?;
        Ok((bytes, link_of(self)))
    }
}

} // verus!
