//! The building blocks of an encoded x86-64 instruction: prefixes, the
//! ModR/M byte, the SIB byte and the displacement of a memory operand.
use vstd::prelude::*;
use crate::codegen::error::EncodeError;
use crate::target::x64::instr::MemOp;
use crate::target::x64::reg::x64Reg;

verus! {

/// The four bits of a REX prefix.
#[derive(Debug, Clone, Copy, PartialEq, Eq, Structural)]
pub struct RexPrefix {
    pub w: bool,
    pub r: bool,
    pub x: bool,
    pub b: bool,
}

/// A prefix that belongs to the opcode.
#[derive(Debug, Clone, Copy, PartialEq, Eq, Structural)]
pub enum MandatoryPrefix {
    t16BitOps,
}

/// The REX prefix byte: `0100WRXB`.
pub open spec fn rex_byte(rex: RexPrefix) -> u8 {
    (0x40 + (if rex.w {
        8int
    } else {
        0
    }) + (if rex.r {
        4int
    } else {
        0
    }) + (if rex.x {
        2int
    } else {
        0
    }) + (if rex.b {
        1int
    } else {
        0
    })) as u8
}

/// The bytes of a mandatory prefix: `0x66` overrides the operand size to
/// 16 bits.
pub open spec fn mandatory_bytes(mandatory: Option<MandatoryPrefix>) -> Seq<u8> {
    match mandatory {
        Some(MandatoryPrefix::t16BitOps) => seq![0x66u8],
        None => seq![],
    }
}

/// The bytes of an optional REX prefix.
pub open spec fn rex_bytes(rex: Option<RexPrefix>) -> Seq<u8> {
    match rex {
        Some(rex) => seq![rex_byte(rex)],
        None => seq![],
    }
}

/// An opcode with its prefixes: the mandatory prefix, the REX prefix, the
/// opcode bytes.
pub open spec fn opcode_bytes(
    mandatory: Option<MandatoryPrefix>,
    rex: Option<RexPrefix>,
    op: Seq<u8>,
) -> Seq<u8> {
    mandatory_bytes(mandatory) + rex_bytes(rex) + op
}

/// The ModR/M byte: two bits of mode, three bits of register, three bits
/// of register or memory.
pub open spec fn modrm_byte(mode: int, reg: int, rm: int) -> u8 {
    (mode * 64 + reg * 8 + rm) as u8
}

/// `n` bytes of an integer in two's complement, lowest byte first.
pub open spec fn le_bytes(v: int, n: nat) -> Seq<u8>
    decreases n,
{
    if n == 0 {
        seq![]
    } else {
        seq![(v % 256) as u8] + le_bytes(v / 256, (n - 1) as nat)
    }
}

/// 256 to the power of `n`.
pub open spec fn pow256(n: nat) -> int
    decreases n,
{
    if n == 0 {
        1
    } else {
        256 * pow256((n - 1) as nat)
    }
}

/// The low `n` bytes of an integer do not change when a multiple of
/// `256^n` is added to it.
pub proof fn lemma_le_bytes_wrap(v: int, k: int, n: nat)
    ensures
        le_bytes(v + k * pow256(n), n) == le_bytes(v, n),
    decreases n,
{
    if n > 0 {
        let m = (n - 1) as nat;
        let p = pow256(m);
        assert(k * pow256(n) == (k * p) * 256) by (nonlinear_arith)
            requires
                pow256(n) == 256 * p,
        ;
        assert((v + (k * p) * 256) % 256 == v % 256);
        assert((v + (k * p) * 256) / 256 == v / 256 + k * p);
        lemma_le_bytes_wrap(v / 256, k, m);
    }
}

/// The length of `le_bytes` is the number of bytes asked for.
pub proof fn lemma_le_bytes_len(v: int, n: nat)
    ensures
        le_bytes(v, n).len() == n,
    decreases n,
{
    if n > 0 {
        lemma_le_bytes_len(v / 256, (n - 1) as nat);
    }
}

impl MemOp {
    /// Why the operand cannot be encoded, if it cannot: its scale is none
    /// of 1, 2, 4 and 8; it is relative to the instruction pointer and
    /// names a register; its index is the stack pointer; its registers are
    /// not all of 64 bits or all of 32 bits; or its displacement does not
    /// fit into 32 bits.
    pub open spec fn encode_error(self) -> Option<EncodeError> {
        if !(self.scale == 1 || self.scale == 2 || self.scale == 4 || self.scale == 8) {
            Some(EncodeError::OperandClassInvalid)
        } else if self.rip && (self.base is Some || self.index is Some) {
            Some(EncodeError::OperandClassInvalid)
        } else if self.index matches Some(i) && i.family() == x64Reg::Rsp.family() {
            Some(EncodeError::OperandClassInvalid)
        } else if self.base matches Some(b) && b.bits() != 64 && b.bits() != 32 {
            Some(EncodeError::OperandClassInvalid)
        } else if self.index matches Some(i) && i.bits() != 64 && i.bits() != 32 {
            Some(EncodeError::OperandClassInvalid)
        } else if self.base matches Some(b) && self.index matches Some(i) && b.bits() != i.bits() {
            Some(EncodeError::OperandClassInvalid)
        } else if !(-0x8000_0000 <= self.displ <= 0x7fff_ffff) {
            Some(EncodeError::DisplacementOutOfRange)
        } else {
            None
        }
    }

    /// Whether the address is built from registers of 32 bits, which takes
    /// the address size prefix `0x67`.
    pub open spec fn addr32(self) -> bool {
        ||| (self.base matches Some(b) && b.bits() == 32)
        ||| (self.index matches Some(i) && i.bits() == 32)
    }

    /// Whether a SIB byte follows the ModR/M byte: where there is an index,
    /// where there is no base, and where the base is `rsp` or `r12`, whose
    /// number in the ModR/M byte announces the SIB byte.
    pub open spec fn has_sib(self) -> bool {
        !self.rip && (self.index is Some || self.base is None || self.base->0.enc_spec() == 4)
    }

    /// The mode bits of the ModR/M byte: 0 without displacement, 1 with a
    /// displacement of one byte, 2 with one of four bytes. Without a base
    /// the mode is 0 and four bytes follow; `rbp` and `r13` as base always
    /// take a displacement.
    pub open spec fn mode(self) -> int {
        if self.rip || self.base is None {
            0
        } else if self.displ == 0 && self.base->0.enc_spec() != 5 {
            0
        } else if -128 <= self.displ <= 127 {
            1
        } else {
            2
        }
    }

    /// The low three bits of the ModR/M byte: 5 for an address relative to
    /// the instruction pointer, 4 where a SIB byte follows, else the base.
    pub open spec fn rm(self) -> int {
        if self.rip {
            5
        } else if self.has_sib() {
            4
        } else {
            self.base->0.enc_spec()
        }
    }

    /// The two bits of the scale in the SIB byte.
    pub open spec fn scale_bits(self) -> int {
        if self.scale == 2 {
            1
        } else if self.scale == 4 {
            2
        } else if self.scale == 8 {
            3
        } else {
            0
        }
    }

    /// The SIB byte: scale, index (4 for none) and base (5 for none).
    pub open spec fn sib_byte(self) -> u8 {
        let index = match self.index {
            Some(i) => i.enc_spec(),
            None => 4,
        };
        let base = match self.base {
            Some(b) => b.enc_spec(),
            None => 5,
        };
        (self.scale_bits() * 64 + index * 8 + base) as u8
    }

    /// The number of displacement bytes.
    pub open spec fn disp_len(self) -> nat {
        if self.rip || self.base is None {
            4
        } else if self.mode() == 0 {
            0
        } else if self.mode() == 1 {
            1
        } else {
            4
        }
    }

    /// What follows the ModR/M byte: the SIB byte if there is one, and the
    /// displacement.
    pub open spec fn tail(self) -> Seq<u8> {
        (if self.has_sib() {
            seq![self.sib_byte()]
        } else {
            seq![]
        }) + le_bytes(self.displ as int, self.disp_len())
    }

    /// The ModR/M byte with `reg` in its register field, and what follows
    /// it.
    pub open spec fn modrm(self, reg: int) -> Seq<u8> {
        seq![modrm_byte(self.mode(), reg, self.rm())] + self.tail()
    }

    /// Checks that the operand can be encoded.
    pub fn check(&self) -> (r: Result<(), EncodeError>)
        ensures
            match r {
                Ok(()) => self.encode_error() is None,
                Err(e) => self.encode_error() == Some(e),
            },
    {
        if !(self.scale == 1 || self.scale == 2 || self.scale == 4 || self.scale == 8) {
            return Err(EncodeError::OperandClassInvalid);
        }
        if self.rip && (self.base.is_some() || self.index.is_some()) {
            return Err(EncodeError::OperandClassInvalid);
        }
        if let Some(i) = &self.index {
            if i.same_family(&x64Reg::Rsp) {
                return Err(EncodeError::OperandClassInvalid);
            }
        }
        if let Some(b) = &self.base {
            if !b.is_gr64() && !b.is_gr32() {
                return Err(EncodeError::OperandClassInvalid);
            }
        }
        if let Some(i) = &self.index {
            if !i.is_gr64() && !i.is_gr32() {
                return Err(EncodeError::OperandClassInvalid);
            }
        }
        if let (Some(b), Some(i)) = (&self.base, &self.index) {
            if b.is_gr64() != i.is_gr64() {
                return Err(EncodeError::OperandClassInvalid);
            }
        }
        if self.displ < -0x8000_0000 || self.displ > 0x7fff_ffff {
            return Err(EncodeError::DisplacementOutOfRange);
        }
        Ok(())
    }

    /// Returns if the address takes the address size prefix
    pub fn uses_addr32(&self) -> (r: bool)
        ensures
            r == self.addr32(),
    {
        let base32 = match &self.base {
            Some(b) => b.is_gr32(),
            None => false,
        };
        let index32 = match &self.index {
            Some(i) => i.is_gr32(),
            None => false,
        };
        base32 || index32
    }

    /// Encodes the operand: the mode bits of the ModR/M byte, and the bytes
    /// that follow the ModR/M byte.
    pub fn encode(&self) -> (r: Result<(u8, Vec<u8>), EncodeError>)
        ensures
            match r {
                Ok((mode, tail)) => self.encode_error() is None && mode == self.mode() && tail@
                    == self.tail(),
                Err(e) => self.encode_error() == Some(e),
            },
    {
        self.check()?;
        let base_enc: u8 = match &self.base {
            Some(b) => b.enc(),
            None => 5,
        };
        let index_enc: u8 = match &self.index {
            Some(i) => i.enc(),
            None => 4,
        };
        let sib = !self.rip && (self.index.is_some() || self.base.is_none() || base_enc == 4);
        let (mode, disp_len): (u8, usize) = if self.rip || self.base.is_none() {
            (0, 4)
        } else if self.displ == 0 && base_enc != 5 {
            (0, 0)
        } else if -128 <= self.displ && self.displ <= 127 {
            (1, 1)
        } else {
            (2, 4)
        };
        let mut tail: Vec<u8> = Vec::new();
        if sib {
            let scale_bits: u8 = if self.scale == 2 {
                1
            } else if self.scale == 4 {
                2
            } else if self.scale == 8 {
                3
            } else {
                0
            };
            tail.push(scale_bits * 64 + index_enc * 8 + base_enc);
        }
        push_le_bytes(&mut tail, self.displ, disp_len);
        assert(tail@ =~= self.tail());
        Ok((mode, tail))
    }
}

/// Appends `n` bytes of an integer in two's complement, lowest byte first.
pub fn push_le_bytes(out: &mut Vec<u8>, v: i64, n: usize)
    requires
        n <= 8,
    ensures
        final(out)@ == old(out)@ + le_bytes(v as int, n as nat),
{
    let mut rest: u64 = if v >= 0 {
        v as u64
    } else {
        ((v - i64::MIN) as u64) + 0x8000_0000_0000_0000u64
    };
    proof {
        if v < 0 {
            assert(pow256(8) == 0x1_0000_0000_0000_0000int) by {
                reveal_with_fuel(pow256, 9);
            }
            lemma_le_bytes_wrap(v as int, 1, 8);
            lemma_le_bytes_prefix(v as int, v + pow256(8), n as nat, 8);
        }
    }
    let ghost start = rest as int;
    let mut i: usize = 0;
    assert(out@ + le_bytes(start, 0) =~= out@);
    while i < n
        invariant
            i <= n <= 8,
            out@ + le_bytes(rest as int, (n - i) as nat) == old(out)@ + le_bytes(start, n as nat),
        decreases n - i,
    {
        let ghost before = out@;
        out.push((rest % 256) as u8);
        proof {
            assert(before + le_bytes(rest as int, (n - i) as nat) =~= before.push(
                (rest % 256) as u8,
            ) + le_bytes(rest as int / 256, (n - i - 1) as nat));
        }
        rest = rest / 256;
        i += 1;
    }
    assert(out@ + le_bytes(rest as int, 0) =~= out@);
}

/// Two integers with the same low `m` bytes have the same low `n` bytes
/// for every `n` up to `m`.
pub proof fn lemma_le_bytes_prefix(a: int, b: int, n: nat, m: nat)
    requires
        n <= m,
        le_bytes(a, m) == le_bytes(b, m),
    ensures
        le_bytes(a, n) == le_bytes(b, n),
    decreases n,
{
    if n > 0 {
        assert(le_bytes(a, m)[0] == (a % 256) as u8);
        assert(le_bytes(b, m)[0] == (b % 256) as u8);
        assert(a % 256 == b % 256);
        assert(le_bytes(a / 256, (m - 1) as nat) =~= le_bytes(a, m).subrange(1, m as int)) by {
            lemma_le_bytes_len(a / 256, (m - 1) as nat);
            lemma_le_bytes_len(a, m);
        }
        assert(le_bytes(b / 256, (m - 1) as nat) =~= le_bytes(b, m).subrange(1, m as int)) by {
            lemma_le_bytes_len(b / 256, (m - 1) as nat);
            lemma_le_bytes_len(b, m);
        }
        lemma_le_bytes_prefix(a / 256, b / 256, (n - 1) as nat, (m - 1) as nat);
    }
}

/// Puts the prefixes in front of an opcode: the mandatory prefix if there
/// is one, then the REX prefix if there is one, then the opcode.
pub fn buildOpcode(mandatory: Option<MandatoryPrefix>, rex: Option<RexPrefix>, op: Vec<u8>) -> (r:
    Vec<u8>)
    ensures
        r@ == opcode_bytes(mandatory, rex, op@),
{
    let mut out: Vec<u8> = Vec::new();

    if let Some(man) = mandatory {
        match man {
            MandatoryPrefix::t16BitOps => out.push(0x66),
        }
    }

    if let Some(rex) = rex {
        let mut enc: u8 = 1 << 6;
        assert(1u8 << 6 == 0x40) by (bit_vector);
        if rex.w {
            assert(0x40u8 | (1u8 << 3) == 0x48) by (bit_vector);
            enc |= 1 << 3;
        }
        if rex.r {
            assert(enc | (1u8 << 2) == enc + 4) by (bit_vector)
                requires
                    enc == 0x40 || enc == 0x48,
            ;
            enc |= 1 << 2;
        }
        if rex.x {
            assert(enc | (1u8 << 1) == enc + 2) by (bit_vector)
                requires
                    enc == 0x40 || enc == 0x48 || enc == 0x44 || enc == 0x4c,
            ;
            enc |= 1 << 1;
        }
        if rex.b {
            assert(enc | (1u8 << 0) == enc + 1) by (bit_vector)
                requires
                    enc == 0x40 || enc == 0x48 || enc == 0x44 || enc == 0x4c || enc == 0x42 || enc
                        == 0x4a || enc == 0x46 || enc == 0x4e,
            ;
            enc |= 1 << 0;
        }
        out.push(enc);
    }
    let mut i: usize = 0;
    let ghost head = out@;
    while i < op.len()
        invariant
            i <= op@.len(),
            out@ == head + op@.take(i as int),
        decreases op@.len() - i,
    {
        out.push(op[i]);
        assert(out@ =~= head + op@.take(i + 1));
        i += 1;
    }
    assert(op@.take(op@.len() as int) =~= op@);
    assert(out@ =~= opcode_bytes(mandatory, rex, op@));
    out
}

/// The functions that build ModR/M bytes.
#[derive(Debug, Clone, Copy, PartialEq, Eq, Structural)]
pub struct ModRm {}

impl ModRm {
    /// The ModR/M byte of two registers: mode 3, `reg2` in the register
    /// field and `reg1` in the field of register or memory.
    pub fn reg2(reg1: x64Reg, reg2: x64Reg) -> (r: Vec<u8>)
        ensures
            r@ == seq![modrm_byte(3, reg2.enc_spec(), reg1.enc_spec())],
    {
        let a = reg1.enc();
        let b = reg2.enc();
        assert((0b11u8 << 6 | b << 3 | a) == 192 + 8 * b + a) by (bit_vector)
            requires
                a < 8,
                b < 8,
        ;
        let mut out: Vec<u8> = Vec::new();
        out.push(0b11 << 6 | b << 3 | a);
        out
    }

    /// The ModR/M byte, the SIB byte and the displacement of a register
    /// and a memory operand, the register first.
    pub fn regM(reg: x64Reg, mem: MemOp) -> (r: Result<Vec<u8>, EncodeError>)
        ensures
            match r {
                Ok(bytes) => mem.encode_error() is None && bytes@ == mem.modrm(reg.enc_spec()),
                Err(e) => mem.encode_error() == Some(e),
            },
    {
        Self::digitM(reg.enc(), mem)
    }

    /// The ModR/M byte, the SIB byte and the displacement of a memory
    /// operand and a register, the memory operand first. The bytes do not
    /// depend on the order: the opcode tells which is the destination.
    pub fn memR(mem: MemOp, reg: x64Reg) -> (r: Result<Vec<u8>, EncodeError>)
        ensures
            match r {
                Ok(bytes) => mem.encode_error() is None && bytes@ == mem.modrm(reg.enc_spec()),
                Err(e) => mem.encode_error() == Some(e),
            },
    {
        Self::digitM(reg.enc(), mem)
    }

    /// The ModR/M byte, the SIB byte and the displacement of a memory
    /// operand, with three given bits in the register field.
    pub fn digitM(digit: u8, mem: MemOp) -> (r: Result<Vec<u8>, EncodeError>)
        requires
            digit < 8,
        ensures
            match r {
                Ok(bytes) => mem.encode_error() is None && bytes@ == mem.modrm(digit as int),
                Err(e) => mem.encode_error() == Some(e),
            },
    {
        let (mode, tail) = mem.encode()?;
        let base_enc: u8 = match &mem.base {
            Some(b) => b.enc(),
            None => 5,
        };
        let sib = !mem.rip && (mem.index.is_some() || mem.base.is_none() || base_enc == 4);
        let rm: u8 = if mem.rip {
            5
        } else if sib {
            4
        } else {
            base_enc
        };
        assert((mode << 6 | digit << 3 | rm) == mode * 64 + digit * 8 + rm) by (bit_vector)
            requires
                mode < 4,
                digit < 8,
                rm < 8,
        ;
        let mut out: Vec<u8> = Vec::new();
        out.push(mode << 6 | digit << 3 | rm);
        let mut i: usize = 0;
        while i < tail.len()
            invariant
                i <= tail@.len(),
                out@ == seq![modrm_byte(mem.mode(), digit as int, mem.rm())] + tail@.take(i as int),
            decreases tail@.len() - i,
        {
            out.push(tail[i]);
            assert(out@ =~= seq![modrm_byte(mem.mode(), digit as int, mem.rm())] + tail@.take(
                i + 1,
            ));
            i += 1;
        }
        assert(tail@.take(tail@.len() as int) =~= tail@);
        Ok(out)
    }

    /// The ModR/M byte of one register, with three given bits in the
    /// register field.
    pub fn digitR(digit: u8, reg: x64Reg) -> (r: Vec<u8>)
        requires
            digit < 8,
        ensures
            r@ == seq![modrm_byte(3, digit as int, reg.enc_spec())],
    {
        let a = reg.enc();
        assert((0b11u8 << 6 | digit << 3 | a) == 192 + 8 * digit + a) by (bit_vector)
            requires
                a < 8,
                digit < 8,
        ;
        let mut out: Vec<u8> = Vec::new();
        out.push(0b11 << 6 | digit << 3 | a);
        out
    }
}

} // verus!
