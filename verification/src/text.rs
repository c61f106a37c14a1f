//! Text helpers shared by the printers and parsers of the backend.
use vstd::prelude::*;

verus! {

/// The ASCII lower-case form of one character: `'A'..='Z'` move to
/// `'a'..='z'`, every other character stays.
pub open spec fn lower_char(c: char) -> char {
    if 'A' <= c && c <= 'Z' {
        ((c as u8) + 32) as char
    } else {
        c
    }
}

/// The ASCII lower-case form of a text, character by character.
pub open spec fn lower_text(s: Seq<char>) -> Seq<char> {
    Seq::new(s.len(), |i: int| lower_char(s[i]))
}

/// Calls `str::to_ascii_lowercase`. Trusted: the result has the length of the
/// input, with each ASCII upper-case letter replaced by its lower-case letter
/// and all other characters unchanged.
#[verifier::external_body]
pub(crate) fn ascii_lowercase(s: &str) -> (r: String)
    ensures
        r@ == lower_text(s@),
{
    s.to_ascii_lowercase()
}

/// The character of one decimal digit.
pub open spec fn digit_char(d: nat) -> char {
    if d == 0 {
        '0'
    } else if d == 1 {
        '1'
    } else if d == 2 {
        '2'
    } else if d == 3 {
        '3'
    } else if d == 4 {
        '4'
    } else if d == 5 {
        '5'
    } else if d == 6 {
        '6'
    } else if d == 7 {
        '7'
    } else if d == 8 {
        '8'
    } else {
        '9'
    }
}

/// Decimal notation of a natural number, most significant digit first and
/// without leading zeros.
pub open spec fn decimal(n: nat) -> Seq<char>
    decreases n,
{
    if n < 10 {
        seq![digit_char(n)]
    } else {
        decimal(n / 10).push(digit_char(n % 10))
    }
}

/// Decimal notation of an integer: a minus sign in front of negative numbers.
pub open spec fn signed_decimal(v: int) -> Seq<char> {
    if v < 0 {
        seq!['-'] + decimal((-v) as nat)
    } else {
        decimal(v as nat)
    }
}

fn digit_text(d: u64) -> (r: &'static str)
    requires
        d < 10,
    ensures
        r@ == seq![digit_char(d as nat)],
{
    proof {
        reveal_strlit("0");
        reveal_strlit("1");
        reveal_strlit("2");
        reveal_strlit("3");
        reveal_strlit("4");
        reveal_strlit("5");
        reveal_strlit("6");
        reveal_strlit("7");
        reveal_strlit("8");
        reveal_strlit("9");
    }
    let r = if d == 0 {
        "0"
    } else if d == 1 {
        "1"
    } else if d == 2 {
        "2"
    } else if d == 3 {
        "3"
    } else if d == 4 {
        "4"
    } else if d == 5 {
        "5"
    } else if d == 6 {
        "6"
    } else if d == 7 {
        "7"
    } else if d == 8 {
        "8"
    } else {
        "9"
    };
    assert(r@ =~= seq![digit_char(d as nat)]);
    r
}

/// Appends the decimal notation of `n` to `s`.
pub fn push_decimal(s: &mut String, n: u64)
    ensures
        final(s)@ == old(s)@ + decimal(n as nat),
    decreases n,
{
    if n >= 10 {
        push_decimal(s, n / 10);
    }
    s.append(digit_text(n % 10));
}

/// Appends the decimal notation of `v` to `s`, with a minus sign if `v` is
/// negative.
pub fn push_signed_decimal(s: &mut String, v: i64)
    ensures
        final(s)@ == old(s)@ + signed_decimal(v as int),
{
    if v < 0 {
        proof {
            reveal_strlit("-");
        }
        s.append("-");
        let magnitude: u64 = if v == i64::MIN {
            9223372036854775808u64
        } else {
            (-v) as u64
        };
        push_decimal(s, magnitude);
        assert(final(s)@ =~= old(s)@ + signed_decimal(v as int));
    } else {
        push_decimal(s, v as u64);
    }
}

/// The decimal notation of `v` as a new string.
pub fn signed_decimal_text(v: i64) -> (r: String)
    ensures
        r@ == signed_decimal(v as int),
{
    let mut s = String::new();
    push_signed_decimal(&mut s, v);
    assert(s@ =~= signed_decimal(v as int));
    s
}


/// What a piece of printed text is: the classes that a color profile tells
/// apart.
#[derive(Debug, Clone, Copy, PartialEq, Eq, Hash, Structural)]
pub enum ColorClass {
    /// The name of an instruction.
    Instr,
    /// A type.
    Ty,
    /// A variable.
    Var,
    /// A constant.
    Value,
    /// The name of a function, block or symbol.
    Name,
}

/// The colors in which the classes of text are printed: for each class the
/// number of a terminal color.
#[derive(Debug, Clone, Copy, PartialEq, Eq, Hash, Structural)]
pub struct ColorProfile {
    pub instr: u8,
    pub ty: u8,
    pub var: u8,
    pub value: u8,
    pub name: u8,
}

impl ColorProfile {
    /// The color of a class.
    pub open spec fn color_of(self, class: ColorClass) -> u8 {
        match class {
            ColorClass::Instr => self.instr,
            ColorClass::Ty => self.ty,
            ColorClass::Var => self.var,
            ColorClass::Value => self.value,
            ColorClass::Name => self.name,
        }
    }

    /// A text in the color of its class: the escape sequence that selects
    /// the color, the text, and the escape sequence that resets the color.
    pub open spec fn markup_spec(self, text: Seq<char>, class: ColorClass) -> Seq<char> {
        "\x1b["@ + decimal(self.color_of(class) as nat) + "m"@ + text + "\x1b[0m"@
    }

    /// The profile with the usual colors: instructions blue, types cyan,
    /// variables magenta, constants green and names yellow.
    pub fn default() -> (r: Self)
        ensures
            r == (ColorProfile { instr: 34, ty: 36, var: 35, value: 32, name: 33 }),
    {
        ColorProfile { instr: 34, ty: 36, var: 35, value: 32, name: 33 }
    }

    /// Returns the text in the color of its class
    pub fn markup(&self, text: &str, class: ColorClass) -> (r: String)
        ensures
            r@ == self.markup_spec(text@, class),
    {
        let code = match class {
            ColorClass::Instr => self.instr,
            ColorClass::Ty => self.ty,
            ColorClass::Var => self.var,
            ColorClass::Value => self.value,
            ColorClass::Name => self.name,
        };
        let mut s = String::new();
        s.append("\x1b[");
        push_decimal(&mut s, code as u64);
        s.append("m");
        s.append(text);
        s.append("\x1b[0m");
        assert(s@ =~= self.markup_spec(text@, class));
        s
    }
}

/// A text as it is printed with or without colors.
pub open spec fn styled(profile: Option<ColorProfile>, text: Seq<char>, class: ColorClass) -> Seq<
    char,
> {
    match profile {
        Some(p) => p.markup_spec(text, class),
        None => text,
    }
}

/// Appends a text to `s`, in the color of its class if there is a profile.
pub fn push_styled(s: &mut String, profile: &Option<ColorProfile>, text: &str, class: ColorClass)
    ensures
        final(s)@ == old(s)@ + styled(*profile, text@, class),
{
    match profile {
        Some(p) => {
            let colored = p.markup(text, class);
            s.append(colored.as_str());
        },
        None => {
            s.append(text);
        },
    }
}

} // verus!
