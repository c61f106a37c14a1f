//! The registers of x86-64: sixteen families of four aliases each (64, 32, 16
//! and 8 bits wide), their names and their encoding numbers.
use vstd::prelude::*;
use crate::ir::types::TypeMetadata;
use crate::text::{ascii_lowercase, lower_text};

verus! {

/// A x64 register
#[derive(Debug, Clone, Copy, PartialEq, Eq, Hash, Structural)]
#[allow(missing_docs)]
pub enum x64Reg {
    Rax, Eax, Ax, Al,
    Rbx, Ebx, Bx, Bl,
    Rcx, Ecx, Cx, Cl,
    Rdx, Edx, Dx, Dl,
    Rsi, Esi, Si, Sil,
    Rdi, Edi, Di, Dil,
    Rsp, Esp, Sp, Spl,
    Rbp, Ebp, Bp, Bpl,
    R8, R8d, R8w, R8b,
    R9, R9d, R9w, R9b,
    R10, R10d, R10w, R10b,
    R11, R11d, R11w, R11b,
    R12, R12d, R12w, R12b,
    R13, R13d, R13w, R13b,
    R14, R14d, R14w, R14b,
    R15, R15d, R15w, R15b,
}

impl x64Reg {
    /// Position of the register in the declaration order of the enum: the
    /// families follow each other, each from its widest alias to its narrowest.
    pub open spec fn index(self) -> int {
        match self {
            x64Reg::Rax => 0,
            x64Reg::Eax => 1,
            x64Reg::Ax => 2,
            x64Reg::Al => 3,
            x64Reg::Rbx => 4,
            x64Reg::Ebx => 5,
            x64Reg::Bx => 6,
            x64Reg::Bl => 7,
            x64Reg::Rcx => 8,
            x64Reg::Ecx => 9,
            x64Reg::Cx => 10,
            x64Reg::Cl => 11,
            x64Reg::Rdx => 12,
            x64Reg::Edx => 13,
            x64Reg::Dx => 14,
            x64Reg::Dl => 15,
            x64Reg::Rsi => 16,
            x64Reg::Esi => 17,
            x64Reg::Si => 18,
            x64Reg::Sil => 19,
            x64Reg::Rdi => 20,
            x64Reg::Edi => 21,
            x64Reg::Di => 22,
            x64Reg::Dil => 23,
            x64Reg::Rsp => 24,
            x64Reg::Esp => 25,
            x64Reg::Sp => 26,
            x64Reg::Spl => 27,
            x64Reg::Rbp => 28,
            x64Reg::Ebp => 29,
            x64Reg::Bp => 30,
            x64Reg::Bpl => 31,
            x64Reg::R8 => 32,
            x64Reg::R8d => 33,
            x64Reg::R8w => 34,
            x64Reg::R8b => 35,
            x64Reg::R9 => 36,
            x64Reg::R9d => 37,
            x64Reg::R9w => 38,
            x64Reg::R9b => 39,
            x64Reg::R10 => 40,
            x64Reg::R10d => 41,
            x64Reg::R10w => 42,
            x64Reg::R10b => 43,
            x64Reg::R11 => 44,
            x64Reg::R11d => 45,
            x64Reg::R11w => 46,
            x64Reg::R11b => 47,
            x64Reg::R12 => 48,
            x64Reg::R12d => 49,
            x64Reg::R12w => 50,
            x64Reg::R12b => 51,
            x64Reg::R13 => 52,
            x64Reg::R13d => 53,
            x64Reg::R13w => 54,
            x64Reg::R13b => 55,
            x64Reg::R14 => 56,
            x64Reg::R14d => 57,
            x64Reg::R14w => 58,
            x64Reg::R14b => 59,
            x64Reg::R15 => 60,
            x64Reg::R15d => 61,
            x64Reg::R15w => 62,
            x64Reg::R15b => 63,
        }
    }

    /// The register at a position of the declaration order.
    pub open spec fn of_index(i: int) -> x64Reg {
        if i == 0 {
            x64Reg::Rax
        } else if i == 1 {
            x64Reg::Eax
        } else if i == 2 {
            x64Reg::Ax
        } else if i == 3 {
            x64Reg::Al
        } else if i == 4 {
            x64Reg::Rbx
        } else if i == 5 {
            x64Reg::Ebx
        } else if i == 6 {
            x64Reg::Bx
        } else if i == 7 {
            x64Reg::Bl
        } else if i == 8 {
            x64Reg::Rcx
        } else if i == 9 {
            x64Reg::Ecx
        } else if i == 10 {
            x64Reg::Cx
        } else if i == 11 {
            x64Reg::Cl
        } else if i == 12 {
            x64Reg::Rdx
        } else if i == 13 {
            x64Reg::Edx
        } else if i == 14 {
            x64Reg::Dx
        } else if i == 15 {
            x64Reg::Dl
        } else if i == 16 {
            x64Reg::Rsi
        } else if i == 17 {
            x64Reg::Esi
        } else if i == 18 {
            x64Reg::Si
        } else if i == 19 {
            x64Reg::Sil
        } else if i == 20 {
            x64Reg::Rdi
        } else if i == 21 {
            x64Reg::Edi
        } else if i == 22 {
            x64Reg::Di
        } else if i == 23 {
            x64Reg::Dil
        } else if i == 24 {
            x64Reg::Rsp
        } else if i == 25 {
            x64Reg::Esp
        } else if i == 26 {
            x64Reg::Sp
        } else if i == 27 {
            x64Reg::Spl
        } else if i == 28 {
            x64Reg::Rbp
        } else if i == 29 {
            x64Reg::Ebp
        } else if i == 30 {
            x64Reg::Bp
        } else if i == 31 {
            x64Reg::Bpl
        } else if i == 32 {
            x64Reg::R8
        } else if i == 33 {
            x64Reg::R8d
        } else if i == 34 {
            x64Reg::R8w
        } else if i == 35 {
            x64Reg::R8b
        } else if i == 36 {
            x64Reg::R9
        } else if i == 37 {
            x64Reg::R9d
        } else if i == 38 {
            x64Reg::R9w
        } else if i == 39 {
            x64Reg::R9b
        } else if i == 40 {
            x64Reg::R10
        } else if i == 41 {
            x64Reg::R10d
        } else if i == 42 {
            x64Reg::R10w
        } else if i == 43 {
            x64Reg::R10b
        } else if i == 44 {
            x64Reg::R11
        } else if i == 45 {
            x64Reg::R11d
        } else if i == 46 {
            x64Reg::R11w
        } else if i == 47 {
            x64Reg::R11b
        } else if i == 48 {
            x64Reg::R12
        } else if i == 49 {
            x64Reg::R12d
        } else if i == 50 {
            x64Reg::R12w
        } else if i == 51 {
            x64Reg::R12b
        } else if i == 52 {
            x64Reg::R13
        } else if i == 53 {
            x64Reg::R13d
        } else if i == 54 {
            x64Reg::R13w
        } else if i == 55 {
            x64Reg::R13b
        } else if i == 56 {
            x64Reg::R14
        } else if i == 57 {
            x64Reg::R14d
        } else if i == 58 {
            x64Reg::R14w
        } else if i == 59 {
            x64Reg::R14b
        } else if i == 60 {
            x64Reg::R15
        } else if i == 61 {
            x64Reg::R15d
        } else if i == 62 {
            x64Reg::R15w
        } else {
            x64Reg::R15b
        }
    }

    /// The family of aliases the register belongs to: 0 for `rax`, 1 for
    /// `rbx`, 2 for `rcx`, 3 for `rdx`, 4 for `rsi`, 5 for `rdi`, 6 for `rsp`,
    /// 7 for `rbp`, and 8 to 15 for `r8` to `r15`.
    pub open spec fn family(self) -> int {
        self.index() / 4
    }

    /// The width of the register in bits.
    pub open spec fn bits(self) -> int {
        if self.index() % 4 == 0 {
            64
        } else if self.index() % 4 == 1 {
            32
        } else if self.index() % 4 == 2 {
            16
        } else {
            8
        }
    }

    /// The alias of the register's family that is 64 bits wide.
    pub open spec fn alias64(self) -> x64Reg {
        Self::of_index(self.family() * 4)
    }

    /// The alias of the register's family that is 32 bits wide.
    pub open spec fn alias32(self) -> x64Reg {
        Self::of_index(self.family() * 4 + 1)
    }

    /// The alias of the register's family that is 16 bits wide.
    pub open spec fn alias16(self) -> x64Reg {
        Self::of_index(self.family() * 4 + 2)
    }

    /// The alias of the register's family that is 8 bits wide.
    pub open spec fn alias8(self) -> x64Reg {
        Self::of_index(self.family() * 4 + 3)
    }

    /// Whether the register belongs to the extended bank `r8` to `r15`.
    pub open spec fn is_extended(self) -> bool {
        self.family() >= 8
    }

    /// The three low bits of the register number in an instruction's
    /// encoding; the fourth bit is `is_extended` and travels in a prefix.
    pub open spec fn enc_spec(self) -> int {
        let f = self.family();
        if f == 0 {
            0
        } else if f == 1 {
            3
        } else if f == 2 {
            1
        } else if f == 3 {
            2
        } else if f == 4 {
            6
        } else if f == 5 {
            7
        } else if f == 6 {
            4
        } else if f == 7 {
            5
        } else {
            f - 8
        }
    }

    /// The canonical name of the register, in lower case.
    pub open spec fn name_spec(self) -> Seq<char> {
        match self {
            x64Reg::Rax => "rax"@,
            x64Reg::Eax => "eax"@,
            x64Reg::Ax => "ax"@,
            x64Reg::Al => "al"@,
            x64Reg::Rbx => "rbx"@,
            x64Reg::Ebx => "ebx"@,
            x64Reg::Bx => "bx"@,
            x64Reg::Bl => "bl"@,
            x64Reg::Rcx => "rcx"@,
            x64Reg::Ecx => "ecx"@,
            x64Reg::Cx => "cx"@,
            x64Reg::Cl => "cl"@,
            x64Reg::Rdx => "rdx"@,
            x64Reg::Edx => "edx"@,
            x64Reg::Dx => "dx"@,
            x64Reg::Dl => "dl"@,
            x64Reg::Rsi => "rsi"@,
            x64Reg::Esi => "esi"@,
            x64Reg::Si => "si"@,
            x64Reg::Sil => "sil"@,
            x64Reg::Rdi => "rdi"@,
            x64Reg::Edi => "edi"@,
            x64Reg::Di => "di"@,
            x64Reg::Dil => "dil"@,
            x64Reg::Rsp => "rsp"@,
            x64Reg::Esp => "esp"@,
            x64Reg::Sp => "sp"@,
            x64Reg::Spl => "spl"@,
            x64Reg::Rbp => "rbp"@,
            x64Reg::Ebp => "ebp"@,
            x64Reg::Bp => "bp"@,
            x64Reg::Bpl => "bpl"@,
            x64Reg::R8 => "r8"@,
            x64Reg::R8d => "r8d"@,
            x64Reg::R8w => "r8w"@,
            x64Reg::R8b => "r8b"@,
            x64Reg::R9 => "r9"@,
            x64Reg::R9d => "r9d"@,
            x64Reg::R9w => "r9w"@,
            x64Reg::R9b => "r9b"@,
            x64Reg::R10 => "r10"@,
            x64Reg::R10d => "r10d"@,
            x64Reg::R10w => "r10w"@,
            x64Reg::R10b => "r10b"@,
            x64Reg::R11 => "r11"@,
            x64Reg::R11d => "r11d"@,
            x64Reg::R11w => "r11w"@,
            x64Reg::R11b => "r11b"@,
            x64Reg::R12 => "r12"@,
            x64Reg::R12d => "r12d"@,
            x64Reg::R12w => "r12w"@,
            x64Reg::R12b => "r12b"@,
            x64Reg::R13 => "r13"@,
            x64Reg::R13d => "r13d"@,
            x64Reg::R13w => "r13w"@,
            x64Reg::R13b => "r13b"@,
            x64Reg::R14 => "r14"@,
            x64Reg::R14d => "r14d"@,
            x64Reg::R14w => "r14w"@,
            x64Reg::R14b => "r14b"@,
            x64Reg::R15 => "r15"@,
            x64Reg::R15d => "r15d"@,
            x64Reg::R15w => "r15w"@,
            x64Reg::R15b => "r15b"@,
        }
    }

    /// The register that a text names, if it names one: letter case is
    /// ignored, nothing else is.
    pub open spec fn parse_spec(s: Seq<char>) -> Option<x64Reg> {
        if exists|reg: x64Reg| reg.name_spec() == lower_text(s) {
            Some(choose|reg: x64Reg| reg.name_spec() == lower_text(s))
        } else {
            None
        }
    }

    /// The position of the register in the declaration order.
    pub fn ordinal(&self) -> (r: u8)
        ensures
            r == self.index(),
            r < 64,
    {
        match self {
            x64Reg::Rax => 0,
            x64Reg::Eax => 1,
            x64Reg::Ax => 2,
            x64Reg::Al => 3,
            x64Reg::Rbx => 4,
            x64Reg::Ebx => 5,
            x64Reg::Bx => 6,
            x64Reg::Bl => 7,
            x64Reg::Rcx => 8,
            x64Reg::Ecx => 9,
            x64Reg::Cx => 10,
            x64Reg::Cl => 11,
            x64Reg::Rdx => 12,
            x64Reg::Edx => 13,
            x64Reg::Dx => 14,
            x64Reg::Dl => 15,
            x64Reg::Rsi => 16,
            x64Reg::Esi => 17,
            x64Reg::Si => 18,
            x64Reg::Sil => 19,
            x64Reg::Rdi => 20,
            x64Reg::Edi => 21,
            x64Reg::Di => 22,
            x64Reg::Dil => 23,
            x64Reg::Rsp => 24,
            x64Reg::Esp => 25,
            x64Reg::Sp => 26,
            x64Reg::Spl => 27,
            x64Reg::Rbp => 28,
            x64Reg::Ebp => 29,
            x64Reg::Bp => 30,
            x64Reg::Bpl => 31,
            x64Reg::R8 => 32,
            x64Reg::R8d => 33,
            x64Reg::R8w => 34,
            x64Reg::R8b => 35,
            x64Reg::R9 => 36,
            x64Reg::R9d => 37,
            x64Reg::R9w => 38,
            x64Reg::R9b => 39,
            x64Reg::R10 => 40,
            x64Reg::R10d => 41,
            x64Reg::R10w => 42,
            x64Reg::R10b => 43,
            x64Reg::R11 => 44,
            x64Reg::R11d => 45,
            x64Reg::R11w => 46,
            x64Reg::R11b => 47,
            x64Reg::R12 => 48,
            x64Reg::R12d => 49,
            x64Reg::R12w => 50,
            x64Reg::R12b => 51,
            x64Reg::R13 => 52,
            x64Reg::R13d => 53,
            x64Reg::R13w => 54,
            x64Reg::R13b => 55,
            x64Reg::R14 => 56,
            x64Reg::R14d => 57,
            x64Reg::R14w => 58,
            x64Reg::R14b => 59,
            x64Reg::R15 => 60,
            x64Reg::R15d => 61,
            x64Reg::R15w => 62,
            x64Reg::R15b => 63,
        }
    }

    /// The register at a position of the declaration order.
    pub fn from_ordinal(i: u8) -> (r: x64Reg)
        requires
            i < 64,
        ensures
            r == Self::of_index(i as int),
            r.index() == i,
    {
        match i {
            0 => x64Reg::Rax,
            1 => x64Reg::Eax,
            2 => x64Reg::Ax,
            3 => x64Reg::Al,
            4 => x64Reg::Rbx,
            5 => x64Reg::Ebx,
            6 => x64Reg::Bx,
            7 => x64Reg::Bl,
            8 => x64Reg::Rcx,
            9 => x64Reg::Ecx,
            10 => x64Reg::Cx,
            11 => x64Reg::Cl,
            12 => x64Reg::Rdx,
            13 => x64Reg::Edx,
            14 => x64Reg::Dx,
            15 => x64Reg::Dl,
            16 => x64Reg::Rsi,
            17 => x64Reg::Esi,
            18 => x64Reg::Si,
            19 => x64Reg::Sil,
            20 => x64Reg::Rdi,
            21 => x64Reg::Edi,
            22 => x64Reg::Di,
            23 => x64Reg::Dil,
            24 => x64Reg::Rsp,
            25 => x64Reg::Esp,
            26 => x64Reg::Sp,
            27 => x64Reg::Spl,
            28 => x64Reg::Rbp,
            29 => x64Reg::Ebp,
            30 => x64Reg::Bp,
            31 => x64Reg::Bpl,
            32 => x64Reg::R8,
            33 => x64Reg::R8d,
            34 => x64Reg::R8w,
            35 => x64Reg::R8b,
            36 => x64Reg::R9,
            37 => x64Reg::R9d,
            38 => x64Reg::R9w,
            39 => x64Reg::R9b,
            40 => x64Reg::R10,
            41 => x64Reg::R10d,
            42 => x64Reg::R10w,
            43 => x64Reg::R10b,
            44 => x64Reg::R11,
            45 => x64Reg::R11d,
            46 => x64Reg::R11w,
            47 => x64Reg::R11b,
            48 => x64Reg::R12,
            49 => x64Reg::R12d,
            50 => x64Reg::R12w,
            51 => x64Reg::R12b,
            52 => x64Reg::R13,
            53 => x64Reg::R13d,
            54 => x64Reg::R13w,
            55 => x64Reg::R13b,
            56 => x64Reg::R14,
            57 => x64Reg::R14d,
            58 => x64Reg::R14w,
            59 => x64Reg::R14b,
            60 => x64Reg::R15,
            61 => x64Reg::R15d,
            62 => x64Reg::R15w,
            _ => x64Reg::R15b,
        }
    }

    /// Parses the string to an register (Returns none if it's invalid)
    pub fn parse(string: String) -> (r: Option<Self>)
        ensures
            r == Self::parse_spec(string@),
            match r {
                Some(reg) => reg.name_spec() == lower_text(string@),
                None => forall|reg: x64Reg| reg.name_spec() != lower_text(string@),
            },
    {
        let lowered = ascii_lowercase(string.as_str());
        let mut i: u8 = 0;
        while i < 64
            invariant
                i <= 64,
                lowered@ == lower_text(string@),
                forall|j: int| 0 <= j < i ==> Self::of_index(j).name_spec() != lowered@,
            decreases 64 - i,
        {
            let reg = Self::from_ordinal(i);
            if reg.name() == lowered {
                proof {
                    Self::lemma_names_distinct();
                }
                return Some(reg);
            }
            i += 1;
        }
        proof {
            assert forall|reg: x64Reg| reg.name_spec() != lower_text(string@) by {
                Self::lemma_index_round_trip(reg);
            }
        }
        None
    }

    /// Returns if the reg is in the extendet region (r8->r15)
    pub fn extended(&self) -> (r: bool)
        ensures
            r == self.is_extended(),
    {
        match self {
            Self::R8 | Self::R8d | Self::R8w | Self::R8b |
            Self::R9 | Self::R9d | Self::R9w | Self::R9b |
            Self::R10 | Self::R10d | Self::R10w | Self::R10b |
            Self::R11 | Self::R11d | Self::R11w | Self::R11b |
            Self::R12 | Self::R12d | Self::R12w | Self::R12b |
            Self::R13 | Self::R13d | Self::R13w | Self::R13b |
            Self::R14 | Self::R14d | Self::R14w | Self::R14b |
            Self::R15 | Self::R15d | Self::R15w | Self::R15b => true,
            _ => false,
        }
    }

    /// The printed form of the register: its canonical lower-case name.
    pub fn name(&self) -> (r: String)
        ensures
            r@ == self.name_spec(),
    {
        match self {
            x64Reg::Rax => String::from_str("rax"),
            x64Reg::Eax => String::from_str("eax"),
            x64Reg::Ax => String::from_str("ax"),
            x64Reg::Al => String::from_str("al"),
            x64Reg::Rbx => String::from_str("rbx"),
            x64Reg::Ebx => String::from_str("ebx"),
            x64Reg::Bx => String::from_str("bx"),
            x64Reg::Bl => String::from_str("bl"),
            x64Reg::Rcx => String::from_str("rcx"),
            x64Reg::Ecx => String::from_str("ecx"),
            x64Reg::Cx => String::from_str("cx"),
            x64Reg::Cl => String::from_str("cl"),
            x64Reg::Rdx => String::from_str("rdx"),
            x64Reg::Edx => String::from_str("edx"),
            x64Reg::Dx => String::from_str("dx"),
            x64Reg::Dl => String::from_str("dl"),
            x64Reg::Rsi => String::from_str("rsi"),
            x64Reg::Esi => String::from_str("esi"),
            x64Reg::Si => String::from_str("si"),
            x64Reg::Sil => String::from_str("sil"),
            x64Reg::Rdi => String::from_str("rdi"),
            x64Reg::Edi => String::from_str("edi"),
            x64Reg::Di => String::from_str("di"),
            x64Reg::Dil => String::from_str("dil"),
            x64Reg::Rsp => String::from_str("rsp"),
            x64Reg::Esp => String::from_str("esp"),
            x64Reg::Sp => String::from_str("sp"),
            x64Reg::Spl => String::from_str("spl"),
            x64Reg::Rbp => String::from_str("rbp"),
            x64Reg::Ebp => String::from_str("ebp"),
            x64Reg::Bp => String::from_str("bp"),
            x64Reg::Bpl => String::from_str("bpl"),
            x64Reg::R8 => String::from_str("r8"),
            x64Reg::R8d => String::from_str("r8d"),
            x64Reg::R8w => String::from_str("r8w"),
            x64Reg::R8b => String::from_str("r8b"),
            x64Reg::R9 => String::from_str("r9"),
            x64Reg::R9d => String::from_str("r9d"),
            x64Reg::R9w => String::from_str("r9w"),
            x64Reg::R9b => String::from_str("r9b"),
            x64Reg::R10 => String::from_str("r10"),
            x64Reg::R10d => String::from_str("r10d"),
            x64Reg::R10w => String::from_str("r10w"),
            x64Reg::R10b => String::from_str("r10b"),
            x64Reg::R11 => String::from_str("r11"),
            x64Reg::R11d => String::from_str("r11d"),
            x64Reg::R11w => String::from_str("r11w"),
            x64Reg::R11b => String::from_str("r11b"),
            x64Reg::R12 => String::from_str("r12"),
            x64Reg::R12d => String::from_str("r12d"),
            x64Reg::R12w => String::from_str("r12w"),
            x64Reg::R12b => String::from_str("r12b"),
            x64Reg::R13 => String::from_str("r13"),
            x64Reg::R13d => String::from_str("r13d"),
            x64Reg::R13w => String::from_str("r13w"),
            x64Reg::R13b => String::from_str("r13b"),
            x64Reg::R14 => String::from_str("r14"),
            x64Reg::R14d => String::from_str("r14d"),
            x64Reg::R14w => String::from_str("r14w"),
            x64Reg::R14b => String::from_str("r14b"),
            x64Reg::R15 => String::from_str("r15"),
            x64Reg::R15d => String::from_str("r15d"),
            x64Reg::R15w => String::from_str("r15w"),
            x64Reg::R15b => String::from_str("r15b"),
        }
    }

    /// The printed form of the register: its canonical lower-case name.
    pub fn to_string(&self) -> (r: String)
        ensures
            r@ == self.name_spec(),
    {
        self.name()
    }

    /// The alias of the register that is 64 bits wide.
    pub fn to64(&self) -> (r: x64Reg)
        ensures
            r == self.alias64(),
            r.family() == self.family(),
            r.bits() == 64,
    {
        match self {
            Self::Rax | Self::Eax | Self::Ax | Self::Al => Self::Rax,
            Self::Rbx | Self::Ebx | Self::Bx | Self::Bl => Self::Rbx,
            Self::Rcx | Self::Ecx | Self::Cx | Self::Cl => Self::Rcx,
            Self::Rdx | Self::Edx | Self::Dx | Self::Dl => Self::Rdx,
            Self::Rsi | Self::Esi | Self::Si | Self::Sil => Self::Rsi,
            Self::Rdi | Self::Edi | Self::Di | Self::Dil => Self::Rdi,
            Self::Rsp | Self::Esp | Self::Sp | Self::Spl => Self::Rsp,
            Self::Rbp | Self::Ebp | Self::Bp | Self::Bpl => Self::Rbp,
            Self::R8 | Self::R8d | Self::R8w | Self::R8b => Self::R8,
            Self::R9 | Self::R9d | Self::R9w | Self::R9b => Self::R9,
            Self::R10 | Self::R10d | Self::R10w | Self::R10b => Self::R10,
            Self::R11 | Self::R11d | Self::R11w | Self::R11b => Self::R11,
            Self::R12 | Self::R12d | Self::R12w | Self::R12b => Self::R12,
            Self::R13 | Self::R13d | Self::R13w | Self::R13b => Self::R13,
            Self::R14 | Self::R14d | Self::R14w | Self::R14b => Self::R14,
            Self::R15 | Self::R15d | Self::R15w | Self::R15b => Self::R15,
        }
    }


    /// The name of the alias of the register that is 64 bits wide.
    pub fn sub64(&self) -> (r: String)
        ensures
            r@ == self.alias64().name_spec(),
    {
        self.to64().name()
    }

    /// The alias of the register that is 32 bits wide.
    pub fn to32(&self) -> (r: x64Reg)
        ensures
            r == self.alias32(),
            r.family() == self.family(),
            r.bits() == 32,
    {
        match self {
            Self::Rax | Self::Eax | Self::Ax | Self::Al => Self::Eax,
            Self::Rbx | Self::Ebx | Self::Bx | Self::Bl => Self::Ebx,
            Self::Rcx | Self::Ecx | Self::Cx | Self::Cl => Self::Ecx,
            Self::Rdx | Self::Edx | Self::Dx | Self::Dl => Self::Edx,
            Self::Rsi | Self::Esi | Self::Si | Self::Sil => Self::Esi,
            Self::Rdi | Self::Edi | Self::Di | Self::Dil => Self::Edi,
            Self::Rsp | Self::Esp | Self::Sp | Self::Spl => Self::Esp,
            Self::Rbp | Self::Ebp | Self::Bp | Self::Bpl => Self::Ebp,
            Self::R8 | Self::R8d | Self::R8w | Self::R8b => Self::R8d,
            Self::R9 | Self::R9d | Self::R9w | Self::R9b => Self::R9d,
            Self::R10 | Self::R10d | Self::R10w | Self::R10b => Self::R10d,
            Self::R11 | Self::R11d | Self::R11w | Self::R11b => Self::R11d,
            Self::R12 | Self::R12d | Self::R12w | Self::R12b => Self::R12d,
            Self::R13 | Self::R13d | Self::R13w | Self::R13b => Self::R13d,
            Self::R14 | Self::R14d | Self::R14w | Self::R14b => Self::R14d,
            Self::R15 | Self::R15d | Self::R15w | Self::R15b => Self::R15d,
        }
    }


    /// The name of the alias of the register that is 32 bits wide.
    pub fn sub32(&self) -> (r: String)
        ensures
            r@ == self.alias32().name_spec(),
    {
        self.to32().name()
    }

    /// The alias of the register that is 16 bits wide.
    pub fn to16(&self) -> (r: x64Reg)
        ensures
            r == self.alias16(),
            r.family() == self.family(),
            r.bits() == 16,
    {
        match self {
            Self::Rax | Self::Eax | Self::Ax | Self::Al => Self::Ax,
            Self::Rbx | Self::Ebx | Self::Bx | Self::Bl => Self::Bx,
            Self::Rcx | Self::Ecx | Self::Cx | Self::Cl => Self::Cx,
            Self::Rdx | Self::Edx | Self::Dx | Self::Dl => Self::Dx,
            Self::Rsi | Self::Esi | Self::Si | Self::Sil => Self::Si,
            Self::Rdi | Self::Edi | Self::Di | Self::Dil => Self::Di,
            Self::Rsp | Self::Esp | Self::Sp | Self::Spl => Self::Sp,
            Self::Rbp | Self::Ebp | Self::Bp | Self::Bpl => Self::Bp,
            Self::R8 | Self::R8d | Self::R8w | Self::R8b => Self::R8w,
            Self::R9 | Self::R9d | Self::R9w | Self::R9b => Self::R9w,
            Self::R10 | Self::R10d | Self::R10w | Self::R10b => Self::R10w,
            Self::R11 | Self::R11d | Self::R11w | Self::R11b => Self::R11w,
            Self::R12 | Self::R12d | Self::R12w | Self::R12b => Self::R12w,
            Self::R13 | Self::R13d | Self::R13w | Self::R13b => Self::R13w,
            Self::R14 | Self::R14d | Self::R14w | Self::R14b => Self::R14w,
            Self::R15 | Self::R15d | Self::R15w | Self::R15b => Self::R15w,
        }
    }


    /// The name of the alias of the register that is 16 bits wide.
    pub fn sub16(&self) -> (r: String)
        ensures
            r@ == self.alias16().name_spec(),
    {
        self.to16().name()
    }

    /// The alias of the register that is 8 bits wide.
    pub fn to8(&self) -> (r: x64Reg)
        ensures
            r == self.alias8(),
            r.family() == self.family(),
            r.bits() == 8,
    {
        match self {
            Self::Rax | Self::Eax | Self::Ax | Self::Al => Self::Al,
            Self::Rbx | Self::Ebx | Self::Bx | Self::Bl => Self::Bl,
            Self::Rcx | Self::Ecx | Self::Cx | Self::Cl => Self::Cl,
            Self::Rdx | Self::Edx | Self::Dx | Self::Dl => Self::Dl,
            Self::Rsi | Self::Esi | Self::Si | Self::Sil => Self::Sil,
            Self::Rdi | Self::Edi | Self::Di | Self::Dil => Self::Dil,
            Self::Rsp | Self::Esp | Self::Sp | Self::Spl => Self::Spl,
            Self::Rbp | Self::Ebp | Self::Bp | Self::Bpl => Self::Bpl,
            Self::R8 | Self::R8d | Self::R8w | Self::R8b => Self::R8b,
            Self::R9 | Self::R9d | Self::R9w | Self::R9b => Self::R9b,
            Self::R10 | Self::R10d | Self::R10w | Self::R10b => Self::R10b,
            Self::R11 | Self::R11d | Self::R11w | Self::R11b => Self::R11b,
            Self::R12 | Self::R12d | Self::R12w | Self::R12b => Self::R12b,
            Self::R13 | Self::R13d | Self::R13w | Self::R13b => Self::R13b,
            Self::R14 | Self::R14d | Self::R14w | Self::R14b => Self::R14b,
            Self::R15 | Self::R15d | Self::R15w | Self::R15b => Self::R15b,
        }
    }


    /// The name of the alias of the register that is 8 bits wide.
    pub fn sub8(&self) -> (r: String)
        ensures
            r@ == self.alias8().name_spec(),
    {
        self.to8().name()
    }

    /// Whether the register is a general purpose register of 64 bits.
    pub fn is_gr64(&self) -> (r: bool)
        ensures
            r == (self.bits() == 64),
    {
        match self {
            Self::Rax | Self::Rbx | Self::Rcx | Self::Rdx | Self::Rsi | Self::Rdi |
            Self::Rsp | Self::Rbp | Self::R8 | Self::R9 | Self::R10 | Self::R11 |
            Self::R12 | Self::R13 | Self::R14 | Self::R15 => true,

            _ => false,
        }
    }

    /// Whether the register is a general purpose register of 32 bits.
    pub fn is_gr32(&self) -> (r: bool)
        ensures
            r == (self.bits() == 32),
    {
        match self {
            Self::Eax | Self::Ebx | Self::Ecx | Self::Edx | Self::Esi | Self::Edi |
            Self::Esp | Self::Ebp | Self::R8d | Self::R9d | Self::R10d | Self::R11d |
            Self::R12d | Self::R13d | Self::R14d | Self::R15d => true,

            _ => false,
        }
    }

    /// Whether the register is a general purpose register of 16 bits.
    pub fn is_gr16(&self) -> (r: bool)
        ensures
            r == (self.bits() == 16),
    {
        match self {
            Self::Ax | Self::Bx | Self::Cx | Self::Dx | Self::Si | Self::Di |
            Self::Sp | Self::Bp | Self::R8w | Self::R9w | Self::R10w | Self::R11w |
            Self::R12w | Self::R13w | Self::R14w | Self::R15w => true,

            _ => false,
        }
    }

    /// Whether the register is a general purpose register of 8 bits.
    pub fn is_gr8(&self) -> (r: bool)
        ensures
            r == (self.bits() == 8),
    {
        match self {
            Self::Al | Self::Bl | Self::Cl | Self::Dl | Self::Sil | Self::Dil |
            Self::Spl | Self::Bpl | Self::R8b | Self::R9b | Self::R10b | Self::R11b |
            Self::R12b | Self::R13b | Self::R14b | Self::R15b => true,

            _ => false,
        }
    }

    /// The encoding number of the register: its three low bits.
    pub fn enc(&self) -> (r: u8)
        ensures
            r == self.enc_spec(),
            r < 8,
    {
        match self {
            x64Reg::Rax | x64Reg::Eax | x64Reg::Ax | x64Reg::Al => 0,
            x64Reg::Rcx | x64Reg::Ecx | x64Reg::Cx | x64Reg::Cl => 1,
            x64Reg::Rdx | x64Reg::Edx | x64Reg::Dx | x64Reg::Dl => 2,
            x64Reg::Rbx | x64Reg::Ebx | x64Reg::Bx | x64Reg::Bl => 3,
            x64Reg::Rsi | x64Reg::Esi | x64Reg::Si | x64Reg::Sil => 6,
            x64Reg::Rbp | x64Reg::Ebp | x64Reg::Bp | x64Reg::Bpl => 5,
            x64Reg::Rsp | x64Reg::Esp | x64Reg::Sp | x64Reg::Spl => 4,
            x64Reg::Rdi | x64Reg::Edi | x64Reg::Di | x64Reg::Dil => 7,

            // this here use a prefix
            x64Reg::R8 | x64Reg::R8d | x64Reg::R8w | x64Reg::R8b => 0,
            x64Reg::R9 | x64Reg::R9d | x64Reg::R9w | x64Reg::R9b => 1,
            x64Reg::R10 | x64Reg::R10d | x64Reg::R10w | x64Reg::R10b => 2,
            x64Reg::R11 | x64Reg::R11d | x64Reg::R11w | x64Reg::R11b => 3,
            x64Reg::R12 | x64Reg::R12d | x64Reg::R12w | x64Reg::R12b => 4,
            x64Reg::R13 | x64Reg::R13d | x64Reg::R13w | x64Reg::R13b => 5,
            x64Reg::R14 | x64Reg::R14d | x64Reg::R14w | x64Reg::R14b => 6,
            x64Reg::R15 | x64Reg::R15d | x64Reg::R15w | x64Reg::R15b => 7,
        }
    }

    /// The alias of the register's family that holds a value of the type:
    /// the alias of the type's width for 8, 16 and 32 bits, and the alias of
    /// 64 bits for every other type.
    pub open spec fn alias_for(self, ty: TypeMetadata) -> x64Reg {
        if ty.bits() == 8 {
            self.alias8()
        } else if ty.bits() == 16 {
            self.alias16()
        } else if ty.bits() == 32 {
            self.alias32()
        } else {
            self.alias64()
        }
    }

    /// The alias of the register that holds a value of the type.
    pub fn sub_ty(&self, ty: TypeMetadata) -> (r: x64Reg)
        ensures
            r == self.alias_for(ty),
            r.family() == self.family(),
    {
        let bits = ty.bitSize();
        if bits == 8 {
            self.to8()
        } else if bits == 16 {
            self.to16()
        } else if bits == 32 {
            self.to32()
        } else {
            self.to64()
        }
    }

    /// Whether two registers share storage: they are aliases of one family.
    pub fn same_family(&self, other: &x64Reg) -> (r: bool)
        ensures
            r == (self.family() == other.family()),
    {
        self.ordinal() / 4 == other.ordinal() / 4
    }

    /// The register at a position stands at that position.
    pub proof fn lemma_of_index(i: int)
        requires
            0 <= i < 64,
        ensures
            Self::of_index(i).index() == i,
    {
    }

    /// An alias of a register belongs to the family of the register.
    pub proof fn lemma_alias_family(reg: x64Reg, ty: TypeMetadata)
        ensures
            reg.alias_for(ty).family() == reg.family(),
    {
        Self::lemma_index_round_trip(reg);
        let f = reg.family();
        Self::lemma_of_index(f * 4);
        Self::lemma_of_index(f * 4 + 1);
        Self::lemma_of_index(f * 4 + 2);
        Self::lemma_of_index(f * 4 + 3);
    }

    /// An alias of an alias of a register is an alias of the register.
    pub proof fn lemma_alias_of_alias(reg: x64Reg, first: TypeMetadata, then: TypeMetadata)
        ensures
            reg.alias_for(first).alias_for(then) == reg.alias_for(then),
    {
        Self::lemma_alias_family(reg, first);
    }

    /// Every register stands at its own position of the declaration order.
    pub proof fn lemma_index_round_trip(reg: x64Reg)
        ensures
            0 <= reg.index() < 64,
            Self::of_index(reg.index()) == reg,
    {
    }

    /// No two registers have the same name.
    pub proof fn lemma_names_distinct()
        ensures
            forall|a: x64Reg, b: x64Reg| a.name_spec() == b.name_spec() ==> a == b,
    {
        assert forall|a: x64Reg, b: x64Reg| a.name_spec() == b.name_spec() implies a == b by {
            Self::lemma_name_shape(a);
            Self::lemma_name_shape(b);
        }
    }

    /// The canonical names are written in lower case: lowering their case
    /// changes nothing.
    pub proof fn lemma_names_are_lowercase(reg: x64Reg)
        ensures
            lower_text(reg.name_spec()) == reg.name_spec(),
    {
        Self::lemma_name_shape(reg);
        assert(lower_text(reg.name_spec()) =~= reg.name_spec());
    }

    /// Parsing the printed form of a register gives the register back, and
    /// whenever a text parses to a register, the printed form of that
    /// register is the text in ASCII lower case.
    pub proof fn lemma_parse_print_round_trip(reg: x64Reg, s: Seq<char>)
        ensures
            Self::parse_spec(reg.name_spec()) == Some(reg),
            Self::parse_spec(s) == Some(reg) ==> reg.name_spec() == lower_text(s),
    {
        Self::lemma_names_are_lowercase(reg);
        Self::lemma_names_distinct();
    }

    /// What a name is made of: its length and its characters, packed into
    /// one number that differs from register to register.
    pub open spec fn name_code(s: Seq<char>) -> int {
        let c0 = if s.len() > 0 { s[0] as int } else { 0 };
        let c1 = if s.len() > 1 { s[1] as int } else { 0 };
        let c2 = if s.len() > 2 { s[2] as int } else { 0 };
        let c3 = if s.len() > 3 { s[3] as int } else { 0 };
        s.len() + 8 * (c0 + 256 * (c1 + 256 * (c2 + 256 * c3)))
    }

    /// The code of each register's name.
    pub open spec fn code_spec(self) -> int {
        match self {
            x64Reg::Rax => 63114131,
            x64Reg::Eax => 63114027,
            x64Reg::Ax => 246538,
            x64Reg::Al => 221962,
            x64Reg::Rbx => 63116179,
            x64Reg::Ebx => 63116075,
            x64Reg::Bx => 246546,
            x64Reg::Bl => 221970,
            x64Reg::Rcx => 63118227,
            x64Reg::Ecx => 63118123,
            x64Reg::Cx => 246554,
            x64Reg::Cl => 221978,
            x64Reg::Rdx => 63120275,
            x64Reg::Edx => 63120171,
            x64Reg::Dx => 246562,
            x64Reg::Dl => 221986,
            x64Reg::Rsi => 55286675,
            x64Reg::Esi => 55286571,
            x64Reg::Si => 215962,
            x64Reg::Sil => 56839067,
            x64Reg::Rdi => 55255955,
            x64Reg::Edi => 55255851,
            x64Reg::Di => 215842,
            x64Reg::Dil => 56838947,
            x64Reg::Rsp => 58956691,
            x64Reg::Esp => 58956587,
            x64Reg::Sp => 230298,
            x64Reg::Spl => 56853403,
            x64Reg::Rbp => 58921875,
            x64Reg::Ebp => 58921771,
            x64Reg::Bp => 230162,
            x64Reg::Bpl => 56853267,
            x64Reg::R8 => 115602,
            x64Reg::R8d => 52544403,
            x64Reg::R8w => 62505875,
            x64Reg::R8b => 51495827,
            x64Reg::R9 => 117650,
            x64Reg::R9d => 52546451,
            x64Reg::R9w => 62507923,
            x64Reg::R9b => 51497875,
            x64Reg::R10 => 25267091,
            x64Reg::R10d => 13447039892,
            x64Reg::R10w => 15997176724,
            x64Reg::R10b => 13178604436,
            x64Reg::R11 => 25791379,
            x64Reg::R11d => 13447564180,
            x64Reg::R11w => 15997701012,
            x64Reg::R11b => 13179128724,
            x64Reg::R12 => 26315667,
            x64Reg::R12d => 13448088468,
            x64Reg::R12w => 15998225300,
            x64Reg::R12b => 13179653012,
            x64Reg::R13 => 26839955,
            x64Reg::R13d => 13448612756,
            x64Reg::R13w => 15998749588,
            x64Reg::R13b => 13180177300,
            x64Reg::R14 => 27364243,
            x64Reg::R14d => 13449137044,
            x64Reg::R14w => 15999273876,
            x64Reg::R14b => 13180701588,
            x64Reg::R15 => 27888531,
            x64Reg::R15d => 13449661332,
            x64Reg::R15w => 15999798164,
            x64Reg::R15b => 13181225876,
        }
    }

    proof fn lemma_name_shape(reg: x64Reg)
        ensures
            Self::name_code(reg.name_spec()) == reg.code_spec(),
            reg.name_spec().len() <= 4,
            forall|i: int|
                0 <= i < reg.name_spec().len() ==> !('A' <= #[trigger] reg.name_spec()[i]
                    && reg.name_spec()[i] <= 'Z'),
    {
        match reg {
            x64Reg::Rax => {
                reveal_strlit("rax");
            },
            x64Reg::Eax => {
                reveal_strlit("eax");
            },
            x64Reg::Ax => {
                reveal_strlit("ax");
            },
            x64Reg::Al => {
                reveal_strlit("al");
            },
            x64Reg::Rbx => {
                reveal_strlit("rbx");
            },
            x64Reg::Ebx => {
                reveal_strlit("ebx");
            },
            x64Reg::Bx => {
                reveal_strlit("bx");
            },
            x64Reg::Bl => {
                reveal_strlit("bl");
            },
            x64Reg::Rcx => {
                reveal_strlit("rcx");
            },
            x64Reg::Ecx => {
                reveal_strlit("ecx");
            },
            x64Reg::Cx => {
                reveal_strlit("cx");
            },
            x64Reg::Cl => {
                reveal_strlit("cl");
            },
            x64Reg::Rdx => {
                reveal_strlit("rdx");
            },
            x64Reg::Edx => {
                reveal_strlit("edx");
            },
            x64Reg::Dx => {
                reveal_strlit("dx");
            },
            x64Reg::Dl => {
                reveal_strlit("dl");
            },
            x64Reg::Rsi => {
                reveal_strlit("rsi");
            },
            x64Reg::Esi => {
                reveal_strlit("esi");
            },
            x64Reg::Si => {
                reveal_strlit("si");
            },
            x64Reg::Sil => {
                reveal_strlit("sil");
            },
            x64Reg::Rdi => {
                reveal_strlit("rdi");
            },
            x64Reg::Edi => {
                reveal_strlit("edi");
            },
            x64Reg::Di => {
                reveal_strlit("di");
            },
            x64Reg::Dil => {
                reveal_strlit("dil");
            },
            x64Reg::Rsp => {
                reveal_strlit("rsp");
            },
            x64Reg::Esp => {
                reveal_strlit("esp");
            },
            x64Reg::Sp => {
                reveal_strlit("sp");
            },
            x64Reg::Spl => {
                reveal_strlit("spl");
            },
            x64Reg::Rbp => {
                reveal_strlit("rbp");
            },
            x64Reg::Ebp => {
                reveal_strlit("ebp");
            },
            x64Reg::Bp => {
                reveal_strlit("bp");
            },
            x64Reg::Bpl => {
                reveal_strlit("bpl");
            },
            x64Reg::R8 => {
                reveal_strlit("r8");
            },
            x64Reg::R8d => {
                reveal_strlit("r8d");
            },
            x64Reg::R8w => {
                reveal_strlit("r8w");
            },
            x64Reg::R8b => {
                reveal_strlit("r8b");
            },
            x64Reg::R9 => {
                reveal_strlit("r9");
            },
            x64Reg::R9d => {
                reveal_strlit("r9d");
            },
            x64Reg::R9w => {
                reveal_strlit("r9w");
            },
            x64Reg::R9b => {
                reveal_strlit("r9b");
            },
            x64Reg::R10 => {
                reveal_strlit("r10");
            },
            x64Reg::R10d => {
                reveal_strlit("r10d");
            },
            x64Reg::R10w => {
                reveal_strlit("r10w");
            },
            x64Reg::R10b => {
                reveal_strlit("r10b");
            },
            x64Reg::R11 => {
                reveal_strlit("r11");
            },
            x64Reg::R11d => {
                reveal_strlit("r11d");
            },
            x64Reg::R11w => {
                reveal_strlit("r11w");
            },
            x64Reg::R11b => {
                reveal_strlit("r11b");
            },
            x64Reg::R12 => {
                reveal_strlit("r12");
            },
            x64Reg::R12d => {
                reveal_strlit("r12d");
            },
            x64Reg::R12w => {
                reveal_strlit("r12w");
            },
            x64Reg::R12b => {
                reveal_strlit("r12b");
            },
            x64Reg::R13 => {
                reveal_strlit("r13");
            },
            x64Reg::R13d => {
                reveal_strlit("r13d");
            },
            x64Reg::R13w => {
                reveal_strlit("r13w");
            },
            x64Reg::R13b => {
                reveal_strlit("r13b");
            },
            x64Reg::R14 => {
                reveal_strlit("r14");
            },
            x64Reg::R14d => {
                reveal_strlit("r14d");
            },
            x64Reg::R14w => {
                reveal_strlit("r14w");
            },
            x64Reg::R14b => {
                reveal_strlit("r14b");
            },
            x64Reg::R15 => {
                reveal_strlit("r15");
            },
            x64Reg::R15d => {
                reveal_strlit("r15d");
            },
            x64Reg::R15w => {
                reveal_strlit("r15w");
            },
            x64Reg::R15b => {
                reveal_strlit("r15b");
            },
        }
    }
}

} // verus!
