//! Small verified operations on text: comparing, collecting characters and
//! building strings one character at a time.

use vstd::prelude::*;

verus! {

/// Calls `String::push`.
///
/// Trusted: the character is appended at the end and nothing else changes.
#[verifier::external_body]
pub(crate) fn push_char(target: &mut String, c: char)
    ensures
        final(target)@ == old(target)@.push(c),
{
    target.push(c)
}

/// The characters of `text`, in order.
pub fn chars_of(text: &str) -> (out: Vec<char>)
    ensures
        out@ == text@,
{
    let mut out: Vec<char> = Vec::new();
    for c in it: text.chars()
        invariant
            it.seq() == text@,
            out@ == text@.subrange(0, it.index() as int),
    {
        out.push(c);
        assert(out@ =~= text@.subrange(0, it.index() + 1));
    }
    assert(out@ =~= text@);
    out
}

/// Whether two texts hold the same characters.
pub fn same_text(a: &str, b: &str) -> (same: bool)
    ensures
        same == (a@ == b@),
{
    broadcast use vstd::utf8::encode_utf8_decode_utf8;

    let x = a.as_bytes();
    let y = b.as_bytes();
    if x.len() != y.len() {
        return false;
    }
    let mut i: usize = 0;
    while i < x.len()
        invariant
            i <= x.len(),
            x.len() == y.len(),
            x@ == vstd::utf8::encode_utf8(a@),
            y@ == vstd::utf8::encode_utf8(b@),
            forall|j: int| 0 <= j < i ==> x@[j] == y@[j],
        decreases x.len() - i,
    {
        if x[i] != y[i] {
            return false;
        }
        i += 1;
    }
    proof {
        assert(x@ =~= y@);
        assert(vstd::utf8::decode_utf8(vstd::utf8::encode_utf8(a@)) == a@);
        assert(vstd::utf8::decode_utf8(vstd::utf8::encode_utf8(b@)) == b@);
    }
    true
}

/// The character that writes the digit `d` in bases up to sixteen, in lower case.
pub open spec fn digit_char(d: int) -> char {
    if d < 10 {
        (48 + d) as u8 as char
    } else {
        (87 + d) as u8 as char
    }
}

/// The decimal numeral of `n`, without leading zeros.
pub open spec fn decimal_text(n: nat) -> Seq<char>
    decreases n,
{
    if n < 10 {
        seq![digit_char(n as int)]
    } else {
        decimal_text(n / 10).push(digit_char((n % 10) as int))
    }
}

/// The last `width` hexadecimal digits of `value`, most significant first,
/// padded with zeros on the left.
pub open spec fn hex_text(value: nat, width: nat) -> Seq<char>
    decreases width,
{
    if width == 0 {
        Seq::<char>::empty()
    } else {
        hex_text(value / 16, (width - 1) as nat).push(digit_char((value % 16) as int))
    }
}

/// The character for a digit below sixteen.
pub fn digit_of(d: u8) -> (c: char)
    requires
        d < 16,
    ensures
        c == digit_char(d as int),
{
    if d < 10 {
        (48u8 + d) as char
    } else {
        (87u8 + d) as char
    }
}

/// Appends the decimal numeral of `n`.
pub fn push_decimal(target: &mut String, n: u64)
    ensures
        final(target)@ == old(target)@ + decimal_text(n as nat),
    decreases n,
{
    if n >= 10 {
        push_decimal(target, n / 10);
    }
    push_char(target, digit_of((n % 10) as u8));
    assert(final(target)@ =~= old(target)@ + decimal_text(n as nat));
}

/// Appends the last `width` hexadecimal digits of `value`.
pub fn push_hex(target: &mut String, value: u64, width: u32)
    ensures
        final(target)@ == old(target)@ + hex_text(value as nat, width as nat),
    decreases width,
{
    if width > 0 {
        push_hex(target, value / 16, width - 1);
        push_char(target, digit_of((value % 16) as u8));
    }
    assert(final(target)@ =~= old(target)@ + hex_text(value as nat, width as nat));
}

/// Whether `needle` occurs in `haystack` as a contiguous run of characters.
pub open spec fn contains_text(haystack: Seq<char>, needle: Seq<char>) -> bool {
    exists|start: int|
        0 <= start && start + needle.len() <= haystack.len() && #[trigger] haystack.subrange(
            start,
            start + needle.len(),
        ) == needle
}

} // verus!
