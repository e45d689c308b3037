//! Literals that generated source code embeds, and their source text.
use vstd::prelude::*;
use vstd::string::StringExecFns;

verus! {

/// A resolved value, ready to be written into generated source.
#[derive(Debug)]
pub enum EmbeddedLiteral {
    /// A text literal.
    Text(String),
    /// A byte-sequence literal.
    Bytes(Vec<u8>),
}

/// The mathematical value of an `EmbeddedLiteral`.
pub enum LiteralValue {
    Text(Seq<char>),
    Bytes(Seq<u8>),
}

impl View for EmbeddedLiteral {
    type V = LiteralValue;

    open spec fn view(&self) -> LiteralValue {
        match self {
            EmbeddedLiteral::Text(s) => LiteralValue::Text(s@),
            EmbeddedLiteral::Bytes(b) => LiteralValue::Bytes(b@),
        }
    }
}

/// The value of the hexadecimal digit `c`, in either case.
pub open spec fn hex_digit(c: char) -> Option<nat> {
    let v = c as u32;
    if 48 <= v <= 57 {
        Some((v - 48) as nat)
    } else if 97 <= v <= 102 {
        Some((v - 87) as nat)
    } else if 65 <= v <= 70 {
        Some((v - 55) as nat)
    } else {
        None
    }
}

/// The value of the hexadecimal numeral `ds`, if every character of it is a
/// digit.
pub open spec fn hex_value(ds: Seq<char>) -> Option<nat>
    decreases ds.len(),
{
    if ds.len() == 0 {
        Some(0)
    } else {
        match (hex_value(ds.drop_last()), hex_digit(ds.last())) {
            (Some(h), Some(d)) => Some(h * 16 + d),
            _ => None,
        }
    }
}

/// The code of what the one-character escape `\e` stands for, in a string
/// or a byte string: `\n \r \t \\ \' \" \0`.
pub open spec fn simple_escape(e: char) -> Option<u8> {
    if e == 'n' {
        Some(10u8)
    } else if e == 'r' {
        Some(13u8)
    } else if e == 't' {
        Some(9u8)
    } else if e == '\\' {
        Some(92u8)
    } else if e == '\'' {
        Some(39u8)
    } else if e == '"' {
        Some(34u8)
    } else if e == '0' {
        Some(0u8)
    } else {
        None
    }
}

/// For `t` that starts with `\u{`, the number of characters, from `n` up to
/// six, before the first closing brace.
pub open spec fn closing_brace(t: Seq<char>, n: nat) -> Option<nat>
    decreases 7 - n,
{
    if n > 6 || t.len() <= 3 + n {
        None
    } else if t[3 + n as int] == '}' {
        Some(n)
    } else {
        closing_brace(t, n + 1)
    }
}

/// Whether `v` is a Unicode scalar value, which a `char` holds.
pub open spec fn is_scalar_value(v: nat) -> bool {
    v <= 0x10ffff && !(0xd800 <= v <= 0xdfff)
}

/// `c` followed by what `rest` reads as, if it reads.
pub open spec fn then_chars(c: char, rest: Option<Seq<char>>) -> Option<Seq<char>> {
    match rest {
        Some(r) => Some(seq![c] + r),
        None => None,
    }
}

/// `b` followed by what `rest` reads as, if it reads.
pub open spec fn then_bytes(b: u8, rest: Option<Seq<u8>>) -> Option<Seq<u8>> {
    match rest {
        Some(r) => Some(seq![b] + r),
        None => None,
    }
}

/// The characters that the body of a Rust string literal stands for: each
/// character but a backslash or a double quote stands for itself, and the
/// escapes `\n \r \t \\ \' \" \0`, `\xHH` (at most 0x7f) and `\u{H...}` (one
/// to six digits, a scalar value) for the character they name. `None` where
/// the body holds anything else.
pub open spec fn str_body_value(t: Seq<char>) -> Option<Seq<char>>
    decreases t.len(),
{
    if t.len() == 0 {
        Some(seq![])
    } else if t[0] == '"' {
        None
    } else if t[0] != '\\' {
        then_chars(t[0], str_body_value(t.drop_first()))
    } else if t.len() < 2 {
        None
    } else if simple_escape(t[1]) is Some {
        then_chars(
            (simple_escape(t[1])->0) as char,
            str_body_value(t.subrange(2, t.len() as int)),
        )
    } else if t[1] == 'x' {
        if t.len() >= 4 && hex_value(t.subrange(2, 4)) is Some && hex_value(t.subrange(2, 4))->0
            <= 0x7f {
            then_chars(
                ((hex_value(t.subrange(2, 4))->0) as u8) as char,
                str_body_value(t.subrange(4, t.len() as int)),
            )
        } else {
            None
        }
    } else if t[1] == 'u' && t.len() >= 3 && t[2] == '{' {
        match closing_brace(t, 1) {
            Some(n) => match hex_value(t.subrange(3, 3 + n as int)) {
                Some(v) => if is_scalar_value(v) && 4 + n <= t.len() {
                    then_chars(
                        (v as u32) as char,
                        str_body_value(t.subrange(4 + n as int, t.len() as int)),
                    )
                } else {
                    None
                },
                None => None,
            },
            None => None,
        }
    } else {
        None
    }
}

/// The value of the Rust string literal written `t`: its body between double
/// quotes, read by `str_body_value`.
pub open spec fn str_literal_value(t: Seq<char>) -> Option<Seq<char>> {
    if t.len() >= 2 && t[0] == '"' && t.last() == '"' {
        str_body_value(t.subrange(1, t.len() - 1))
    } else {
        None
    }
}

/// The bytes that the body of a Rust byte-string literal stands for: each
/// ASCII character but a backslash or a double quote stands for its code, and
/// the escapes `\n \r \t \\ \' \" \0` and `\xHH` for the byte they name.
/// `None` where the body holds anything else.
pub open spec fn byte_str_body_value(t: Seq<char>) -> Option<Seq<u8>>
    decreases t.len(),
{
    if t.len() == 0 {
        Some(seq![])
    } else if t[0] == '"' {
        None
    } else if t[0] != '\\' {
        if (t[0] as u32) < 0x80 {
            then_bytes((t[0] as u32) as u8, byte_str_body_value(t.drop_first()))
        } else {
            None
        }
    } else if t.len() < 2 {
        None
    } else if simple_escape(t[1]) is Some {
        then_bytes(simple_escape(t[1])->0, byte_str_body_value(t.subrange(2, t.len() as int)))
    } else if t[1] == 'x' && t.len() >= 4 && hex_value(t.subrange(2, 4)) is Some {
        then_bytes(
            (hex_value(t.subrange(2, 4))->0) as u8,
            byte_str_body_value(t.subrange(4, t.len() as int)),
        )
    } else {
        None
    }
}

/// The value of the Rust byte-string literal written `t`: its body between
/// `b"` and `"`, read by `byte_str_body_value`.
pub open spec fn byte_str_literal_value(t: Seq<char>) -> Option<Seq<u8>> {
    if t.len() >= 3 && t[0] == 'b' && t[1] == '"' && t.last() == '"' {
        byte_str_body_value(t.subrange(2, t.len() - 1))
    } else {
        None
    }
}

/// The source text of an explicitly typed empty byte array.
pub open spec fn empty_bytes_source() -> Seq<char> {
    "&[0u8; 0]"@
}

/// Whether `t` is source text for a literal of value `v`: a string literal
/// for text, the empty array for no bytes, and a byte-string literal for
/// other bytes.
pub open spec fn is_source_of(t: Seq<char>, v: LiteralValue) -> bool {
    match v {
        LiteralValue::Text(s) => str_literal_value(t) == Some(s),
        LiteralValue::Bytes(b) => if b.len() == 0 {
            t == empty_bytes_source()
        } else {
            byte_str_literal_value(t) == Some(b)
        },
    }
}

/// Relies on `proc_macro2::Literal::string` and its `Display`: a Rust string
/// literal whose value is `s`. Both of its renderers, its own fallback and,
/// inside a procedural macro, the compiler's, quote `s` and escape it with
/// Rust's string escapes.
#[verifier::external_body]
fn string_literal(s: &str) -> (r: String)
    ensures
        str_literal_value(r@) == Some(s@),
{
    proc_macro2::Literal::string(s).to_string()
}

/// Relies on `proc_macro2::Literal::byte_string` and its `Display`: a Rust
/// byte-string literal whose value is `b`. Both of its renderers, its own
/// fallback and, inside a procedural macro, the compiler's, write `b"`, the
/// bytes as printable ASCII or escapes, and `"`.
#[verifier::external_body]
fn byte_string_literal(b: &[u8]) -> (r: String)
    ensures
        byte_str_literal_value(r@) == Some(b@),
{
    proc_macro2::Literal::byte_string(b).to_string()
}

impl EmbeddedLiteral {
    /// The literal as source text. Empty bytes become an explicitly typed
    /// empty array, so that the generated code keeps its type.
    pub fn to_source(&self) -> (r: String)
        ensures
            is_source_of(r@, self@),
    {
        match self {
            EmbeddedLiteral::Text(s) => string_literal(s.as_str()),
            EmbeddedLiteral::Bytes(b) => {
                if b.len() == 0 {
                    String::from_str("&[0u8; 0]")
                } else {
                    byte_string_literal(b.as_slice())
                }
            },
        }
    }
}

} // verus!
