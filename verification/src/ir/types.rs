//! Value types, variables and typed constants of the intermediate
//! representation.
use vstd::prelude::*;
use vstd::std_specs::cmp::PartialEqSpecImpl;

verus! {

/// Stores type metadata: the width and the signedness of a value.
#[derive(Debug, Clone, Copy, PartialEq, Eq, Hash, Structural)]
pub enum TypeMetadata {
    u8,
    u16,
    u32,
    u64,
    i8,
    i16,
    i32,
    i64,
    ptr,
    Void,
    fp32,
    fp64,
}

impl TypeMetadata {
    /// The width of a value of the type in bits; `Void` has none.
    pub open spec fn bits(self) -> int {
        match self {
            TypeMetadata::u8 | TypeMetadata::i8 => 8,
            TypeMetadata::u16 | TypeMetadata::i16 => 16,
            TypeMetadata::u32 | TypeMetadata::i32 | TypeMetadata::fp32 => 32,
            TypeMetadata::u64 | TypeMetadata::i64 | TypeMetadata::ptr | TypeMetadata::fp64 => 64,
            TypeMetadata::Void => 0,
        }
    }

    /// Whether the type is a signed integer or a floating point type.
    pub open spec fn is_signed(self) -> bool {
        match self {
            TypeMetadata::i8 | TypeMetadata::i16 | TypeMetadata::i32 | TypeMetadata::i64
            | TypeMetadata::fp32 | TypeMetadata::fp64 => true,
            _ => false,
        }
    }

    /// Whether the type is a floating point type.
    pub open spec fn is_float(self) -> bool {
        self == TypeMetadata::fp32 || self == TypeMetadata::fp64
    }

    /// The name of the type as it is printed.
    pub open spec fn name_spec(self) -> Seq<char> {
        match self {
            TypeMetadata::u8 => "u8"@,
            TypeMetadata::u16 => "u16"@,
            TypeMetadata::u32 => "u32"@,
            TypeMetadata::u64 => "u64"@,
            TypeMetadata::i8 => "i8"@,
            TypeMetadata::i16 => "i16"@,
            TypeMetadata::i32 => "i32"@,
            TypeMetadata::i64 => "i64"@,
            TypeMetadata::ptr => "ptr"@,
            TypeMetadata::Void => "void"@,
            TypeMetadata::fp32 => "fp32"@,
            TypeMetadata::fp64 => "fp64"@,
        }
    }

    /// Returns the size of the type in bits
    pub fn bitSize(&self) -> (r: usize)
        ensures
            r == self.bits(),
    {
        match self {
            TypeMetadata::u8 | TypeMetadata::i8 => 8,
            TypeMetadata::u16 | TypeMetadata::i16 => 16,
            TypeMetadata::u32 | TypeMetadata::i32 | TypeMetadata::fp32 => 32,
            TypeMetadata::u64 | TypeMetadata::i64 | TypeMetadata::ptr | TypeMetadata::fp64 => 64,
            TypeMetadata::Void => 0,
        }
    }

    /// Returns the size of the type in bytes
    pub fn byteSize(&self) -> (r: usize)
        ensures
            r == self.bits() / 8,
    {
        self.bitSize() / 8
    }

    /// Returns if the type is signed
    pub fn signed(&self) -> (r: bool)
        ensures
            r == self.is_signed(),
    {
        match self {
            TypeMetadata::i8 | TypeMetadata::i16 | TypeMetadata::i32 | TypeMetadata::i64
            | TypeMetadata::fp32 | TypeMetadata::fp64 => true,
            _ => false,
        }
    }

    /// Returns if the type is a floating point type
    pub fn float(&self) -> (r: bool)
        ensures
            r == self.is_float(),
    {
        match self {
            TypeMetadata::fp32 | TypeMetadata::fp64 => true,
            _ => false,
        }
    }

    /// The printed form of the type.
    pub fn to_string(&self) -> (r: String)
        ensures
            r@ == self.name_spec(),
    {
        match self {
            TypeMetadata::u8 => String::from_str("u8"),
            TypeMetadata::u16 => String::from_str("u16"),
            TypeMetadata::u32 => String::from_str("u32"),
            TypeMetadata::u64 => String::from_str("u64"),
            TypeMetadata::i8 => String::from_str("i8"),
            TypeMetadata::i16 => String::from_str("i16"),
            TypeMetadata::i32 => String::from_str("i32"),
            TypeMetadata::i64 => String::from_str("i64"),
            TypeMetadata::ptr => String::from_str("ptr"),
            TypeMetadata::Void => String::from_str("void"),
            TypeMetadata::fp32 => String::from_str("fp32"),
            TypeMetadata::fp64 => String::from_str("fp64"),
        }
    }
}

/// A typed integer constant.
#[derive(Debug, Clone, Copy, PartialEq, Eq, Hash, Structural)]
pub struct Type {
    /// The type of the constant.
    pub ty: TypeMetadata,
    /// The value of the constant.
    pub value: i64,
}

impl Type {
    /// A constant of the given type.
    pub fn new(ty: TypeMetadata, value: i64) -> (r: Self)
        ensures
            r == (Type { ty, value }),
    {
        Type { ty, value }
    }

    /// The value of the constant.
    pub fn val(&self) -> (r: i64)
        ensures
            r == self.value,
    {
        self.value
    }
}

/// A variable: a name that is unique inside its function, and a type.
#[derive(Debug, Eq, Hash)]
pub struct Var {
    /// The name of the variable.
    pub name: String,
    /// The type of the variable.
    pub ty: TypeMetadata,
}

/// What a variable denotes: the text of its name, and its type.
pub struct VarView {
    pub name: Seq<char>,
    pub ty: TypeMetadata,
}

impl View for Var {
    type V = VarView;

    open spec fn view(&self) -> VarView {
        VarView { name: self.name@, ty: self.ty }
    }
}

/// What a list of variables denotes.
pub open spec fn vars_view(s: Seq<Var>) -> Seq<VarView> {
    s.map_values(|v: Var| v@)
}

/// What a variable that may be absent denotes.
pub open spec fn var_opt_view(v: Option<Var>) -> Option<VarView> {
    match v {
        Some(v) => Some(v@),
        None => None,
    }
}

impl Clone for Var {
    fn clone(&self) -> (r: Self)
        ensures
            r == *self,
    {
        Var { name: self.name.clone(), ty: self.ty }
    }
}

impl PartialEq for Var {
    fn eq(&self, other: &Self) -> (r: bool) {
        self.name == other.name && self.ty == other.ty
    }
}

impl PartialEqSpecImpl for Var {
    open spec fn obeys_eq_spec() -> bool {
        true
    }

    open spec fn eq_spec(&self, other: &Self) -> bool {
        self@ == other@
    }
}

impl Var {
    /// A variable of the given name and type.
    pub fn new(name: String, ty: TypeMetadata) -> (r: Self)
        ensures
            r == (Var { name, ty }),
    {
        Var { name, ty }
    }
}

} // verus!
