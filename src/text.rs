//! Characters and strings: decimal numerals, line-break escapes and UTF-8
//! decoding.
use vstd::prelude::*;
use vstd::string::{StrSliceExecFns, StringExecFns};
use vstd::utf8::{
    decode_first_scalar, decode_utf8, is_leading_byte_width_1, is_leading_byte_width_2,
    is_leading_byte_width_3, length_of_first_scalar,
    pop_first_scalar, valid_utf8,
};

use crate::normalize::NEWLINE;

verus! {

/// The decimal digit of `d`, for `0 <= d < 10`.
pub open spec fn digit_char(d: nat) -> char {
    ((d + 48) as u8) as char
}

/// The decimal numeral of `n`, without sign or leading zeros.
pub open spec fn digits(n: nat) -> Seq<char>
    decreases n,
{
    if n < 10 {
        seq![digit_char(n)]
    } else {
        digits(n / 10) + seq![digit_char(n % 10)]
    }
}

/// The decimal numeral of `n`, with a leading minus sign when it is negative.
pub open spec fn decimal(n: int) -> Seq<char> {
    if n < 0 {
        seq!['-'] + digits((-n) as nat)
    } else {
        digits(n as nat)
    }
}

/// `c` as it stands in a single-line message: a line feed or a carriage
/// return becomes its backslash escape.
pub open spec fn escape_char(c: char) -> Seq<char> {
    if c == '\n' {
        seq!['\\', 'n']
    } else if c == '\r' {
        seq!['\\', 'r']
    } else {
        seq![c]
    }
}

/// `s` with every line feed and carriage return escaped.
pub open spec fn escaped(s: Seq<char>) -> Seq<char>
    decreases s.len(),
{
    if s.len() == 0 {
        seq![]
    } else {
        escaped(s.drop_last()) + escape_char(s.last())
    }
}

/// Writes `s` on one line: line feeds become `\n` and carriage returns `\r`.
pub fn escape_line_breaks(s: &str) -> (r: String)
    ensures
        r@ == escaped(s@),
{
    let n = s.unicode_len();
    let mut out = String::new();
    let mut i: usize = 0;
    while i < n
        invariant
            n == s@.len(),
            i <= n,
            out@ == escaped(s@.subrange(0, i as int)),
        decreases n - i,
    {
        let c = s.get_char(i);
        proof {
            reveal_strlit("\\n");
            reveal_strlit("\\r");
            assert(s@.subrange(0, i + 1).drop_last() =~= s@.subrange(0, i as int));
        }
        if c == '\n' {
            out.append("\\n");
        } else if c == '\r' {
            out.append("\\r");
        } else {
            let single = s.substring_char(i, i + 1);
            assert(single@ =~= seq![c]);
            out.append(single);
        }
        i = i + 1;
    }
    assert(s@.subrange(0, n as int) =~= s@);
    out
}

/// Neither of two sequences holds `c`, so their concatenation does not.
pub proof fn lemma_concat_lacks(a: Seq<char>, b: Seq<char>, c: char)
    requires
        !a.contains(c),
        !b.contains(c),
    ensures
        !(a + b).contains(c),
{
    assert forall|i: int| 0 <= i < (a + b).len() implies (a + b)[i] != c by {
        if i < a.len() {
            assert((a + b)[i] == a[i]);
        } else {
            assert((a + b)[i] == b[i - a.len()]);
        }
    }
}

/// A numeral holds no line feed.
pub proof fn lemma_digits_single_line(n: nat)
    ensures
        !digits(n).contains('\n'),
    decreases n,
{
    if n >= 10 {
        lemma_digits_single_line(n / 10);
        lemma_concat_lacks(digits(n / 10), seq![digit_char(n % 10)], '\n');
    }
}

/// A signed numeral holds no line feed.
pub proof fn lemma_decimal_single_line(n: int)
    ensures
        !decimal(n).contains('\n'),
{
    if n < 0 {
        lemma_digits_single_line((-n) as nat);
        lemma_concat_lacks(seq!['-'], digits((-n) as nat), '\n');
    } else {
        lemma_digits_single_line(n as nat);
    }
}

/// An escaped sequence holds no line feed.
pub proof fn lemma_escaped_single_line(s: Seq<char>)
    ensures
        !escaped(s).contains('\n'),
    decreases s.len(),
{
    if s.len() > 0 {
        lemma_escaped_single_line(s.drop_last());
        lemma_concat_lacks(escaped(s.drop_last()), escape_char(s.last()), '\n');
    }
}

/// Valid UTF-8 without a line-feed byte decodes to characters without a line
/// feed.
pub proof fn lemma_decode_single_line(m: Seq<u8>)
    requires
        valid_utf8(m),
        !m.contains(NEWLINE),
    ensures
        !decode_utf8(m).contains('\n'),
    decreases m.len(),
{
    if m.len() > 0 {
        let rest = pop_first_scalar(m);
        let k = length_of_first_scalar(m);
        assert forall|j: int| 0 <= j < rest.len() implies rest[j] != NEWLINE by {
            assert(rest[j] == m[j + k]);
        }
        lemma_decode_single_line(rest);
        let b0 = m[0];
        if b0 == NEWLINE {
            assert(m.contains(NEWLINE));
        }
        let cp = decode_first_scalar(m);
        if is_leading_byte_width_1(b0) {
            assert(b0 & 0x7f == b0) by (bit_vector)
                requires
                    b0 <= 0x7f,
            ;
        } else if is_leading_byte_width_2(b0) {
            let b1 = m[1];
            assert((((b0 & 0x1f) as u32) << 6u32 | ((b1 & 0x3f) as u32)) <= 0x7ff) by (bit_vector);
        } else if is_leading_byte_width_3(b0) {
            let (b1, b2) = (m[1], m[2]);
            assert((((b0 & 0x0f) as u32) << 12u32 | (((b1 & 0x3f) as u32) << 6u32) | ((b2
                & 0x3f) as u32)) <= 0xffff) by (bit_vector);
        }
        assert(cp != 10 && cp < 0x110000 && !(0xD800 <= cp <= 0xDFFF));
        let c = decode_first_scalar(m) as char;
        assert(c != '\n');
        assert(decode_utf8(m) == seq![c] + decode_utf8(rest));
        lemma_concat_lacks(seq![c], decode_utf8(rest), '\n');
    }
}

/// Relies on `i32`'s `Display` through `ToString::to_string`: the decimal
/// numeral, with a minus sign for negative values.
#[verifier::external_body]
pub(crate) fn decimal_string(n: i32) -> (r: String)
    ensures
        r@ == decimal(n as int),
{
    n.to_string()
}

/// Relies on `String::from_utf8`: it succeeds exactly on valid UTF-8 and then
/// holds the decoded characters.
#[verifier::external_body]
pub(crate) fn utf8_string(bytes: Vec<u8>) -> (r: Option<String>)
    ensures
        r is Some <==> valid_utf8(bytes@),
        r matches Some(s) ==> s@ == decode_utf8(bytes@),
{
    String::from_utf8(bytes).ok()
}

} // verus!
