//! Rendering of integers as text, the way Rust's `{}`, `{:x}` and `{:#x}`
//! format them, and small string comparisons.
use vstd::prelude::*;

verus! {

/// The character of a digit below sixteen (lower-case for ten and above).
pub open spec fn digit_char(d: nat) -> char {
    if d == 0 { '0' }
    else if d == 1 { '1' }
    else if d == 2 { '2' }
    else if d == 3 { '3' }
    else if d == 4 { '4' }
    else if d == 5 { '5' }
    else if d == 6 { '6' }
    else if d == 7 { '7' }
    else if d == 8 { '8' }
    else if d == 9 { '9' }
    else if d == 10 { 'a' }
    else if d == 11 { 'b' }
    else if d == 12 { 'c' }
    else if d == 13 { 'd' }
    else if d == 14 { 'e' }
    else { 'f' }
}

/// The digits of `n` in base `b`, most significant first, without leading zeros
/// (`0` is the single digit `0`).
pub open spec fn digits(n: nat, b: nat) -> Seq<char>
    recommends
        2 <= b <= 16,
    decreases n,
{
    if n < b || b < 2 {
        seq![digit_char(n)]
    } else {
        proof {
            assert(n / b < n) by (nonlinear_arith)
                requires
                    b >= 2,
                    n >= b,
            ;
        }
        digits(n / b, b).push(digit_char(n % b))
    }
}

/// Decimal text of a natural number, as `{}` writes it.
pub open spec fn dec_text(n: nat) -> Seq<char> {
    digits(n, 10)
}

/// Lower-case hexadecimal text of a natural number, as `{:x}` writes it.
pub open spec fn hex_text(n: nat) -> Seq<char> {
    digits(n, 16)
}

/// Hexadecimal text with the `0x` prefix, as `{:#x}` writes it.
pub open spec fn alt_hex_text(n: nat) -> Seq<char> {
    seq!['0', 'x'] + hex_text(n)
}

/// Decimal text of an integer, with a leading minus sign when it is negative.
pub open spec fn int_text(v: int) -> Seq<char> {
    if v < 0 {
        seq!['-'] + dec_text((-v) as nat)
    } else {
        dec_text(v as nat)
    }
}

/// The bit pattern of a 32-bit signed integer read as unsigned (two's complement);
/// this is the number that `{:x}` prints for an `i32`.
pub open spec fn twos_complement_32(v: int) -> nat {
    if v < 0 {
        (v + 0x1_0000_0000) as nat
    } else {
        v as nat
    }
}

/// The text of a single digit below sixteen.
pub fn digit_str(d: u64) -> (s: &'static str)
    requires
        d < 16,
    ensures
        s@ == seq![digit_char(d as nat)],
{
    if d == 0 {
        proof { reveal_strlit("0"); }
        "0"
    } else if d == 1 {
        proof { reveal_strlit("1"); }
        "1"
    } else if d == 2 {
        proof { reveal_strlit("2"); }
        "2"
    } else if d == 3 {
        proof { reveal_strlit("3"); }
        "3"
    } else if d == 4 {
        proof { reveal_strlit("4"); }
        "4"
    } else if d == 5 {
        proof { reveal_strlit("5"); }
        "5"
    } else if d == 6 {
        proof { reveal_strlit("6"); }
        "6"
    } else if d == 7 {
        proof { reveal_strlit("7"); }
        "7"
    } else if d == 8 {
        proof { reveal_strlit("8"); }
        "8"
    } else if d == 9 {
        proof { reveal_strlit("9"); }
        "9"
    } else if d == 10 {
        proof { reveal_strlit("a"); }
        "a"
    } else if d == 11 {
        proof { reveal_strlit("b"); }
        "b"
    } else if d == 12 {
        proof { reveal_strlit("c"); }
        "c"
    } else if d == 13 {
        proof { reveal_strlit("d"); }
        "d"
    } else if d == 14 {
        proof { reveal_strlit("e"); }
        "e"
    } else {
        proof { reveal_strlit("f"); }
        "f"
    }
}

/// Appends the digits of `n` in base `base` (ten or sixteen).
fn push_digits(out: &mut String, n: u64, base: u64)
    requires
        base == 10 || base == 16,
    ensures
        final(out)@ == old(out)@ + digits(n as nat, base as nat),
    decreases n,
{
    if n >= base {
        push_digits(out, n / base, base);
    }
    out.append(digit_str(n % base));
    proof {
        if n >= base {
            assert(digits(n as nat, base as nat) == digits((n / base) as nat, base as nat).push(
                digit_char((n % base) as nat),
            ));
        }
        assert(final(out)@ =~= old(out)@ + digits(n as nat, base as nat));
    }
}

/// Appends `n` in decimal (`{}`).
pub fn push_dec(out: &mut String, n: u64)
    ensures
        final(out)@ == old(out)@ + dec_text(n as nat),
{
    push_digits(out, n, 10);
}

/// Appends `n` in lower-case hexadecimal without prefix (`{:x}`).
pub fn push_hex(out: &mut String, n: u64)
    ensures
        final(out)@ == old(out)@ + hex_text(n as nat),
{
    push_digits(out, n, 16);
}

/// Appends `n` in lower-case hexadecimal with the `0x` prefix (`{:#x}`).
pub fn push_alt_hex(out: &mut String, n: u64)
    ensures
        final(out)@ == old(out)@ + alt_hex_text(n as nat),
{
    proof { reveal_strlit("0x"); }
    out.append("0x");
    push_digits(out, n, 16);
    proof {
        assert(final(out)@ =~= old(out)@ + alt_hex_text(n as nat));
    }
}

/// Appends a signed integer in decimal (`{}`).
pub fn push_int(out: &mut String, v: i64)
    ensures
        final(out)@ == old(out)@ + int_text(v as int),
{
    if v < 0 {
        proof { reveal_strlit("-"); }
        out.append("-");
        let m: u64 = if v == i64::MIN { 0x8000_0000_0000_0000u64 } else { (-v) as u64 };
        push_digits(out, m, 10);
        proof {
            assert(final(out)@ =~= old(out)@ + int_text(v as int));
        }
    } else {
        push_digits(out, v as u64, 10);
    }
}

/// What the codestream dump writes for a field that is printed as `{:#x}`
/// unless it is zero, in which case it is printed as `0`.
pub open spec fn hex_or_zero(v: nat) -> Seq<char> {
    if v != 0 {
        alt_hex_text(v)
    } else {
        hex_text(0)
    }
}

/// Appends `v` as `{:#x}` when it is not zero, and `0` otherwise.
pub fn push_hex_or_zero(out: &mut String, v: u64)
    ensures
        final(out)@ == old(out)@ + hex_or_zero(v as nat),
{
    if v != 0 {
        push_alt_hex(out, v);
    } else {
        push_hex(out, 0);
    }
}

/// A line made of a label, the decimal text of a number and a line break.
pub open spec fn dec_line(label: Seq<char>, v: nat) -> Seq<char> {
    label + dec_text(v) + "\n"@
}

/// A line made of a label, the decimal text of a signed number and a line break.
pub open spec fn int_line(label: Seq<char>, v: int) -> Seq<char> {
    label + int_text(v) + "\n"@
}

/// A line made of a label, a field printed by [`hex_or_zero`] and a line break.
pub open spec fn hex0_line(label: Seq<char>, v: nat) -> Seq<char> {
    label + hex_or_zero(v) + "\n"@
}

/// Appends [`dec_line`].
pub fn push_dec_line(out: &mut String, label: &str, v: u64)
    ensures
        final(out)@ == old(out)@ + dec_line(label@, v as nat),
{
    out.append(label);
    push_dec(out, v);
    out.append("\n");
    proof {
        assert(final(out)@ =~= old(out)@ + dec_line(label@, v as nat));
    }
}

/// Appends [`int_line`].
pub fn push_int_line(out: &mut String, label: &str, v: i64)
    ensures
        final(out)@ == old(out)@ + int_line(label@, v as int),
{
    out.append(label);
    push_int(out, v);
    out.append("\n");
    proof {
        assert(final(out)@ =~= old(out)@ + int_line(label@, v as int));
    }
}

/// Appends [`hex0_line`].
pub fn push_hex0_line(out: &mut String, label: &str, v: u64)
    ensures
        final(out)@ == old(out)@ + hex0_line(label@, v as nat),
{
    out.append(label);
    push_hex_or_zero(out, v);
    out.append("\n");
    proof {
        assert(final(out)@ =~= old(out)@ + hex0_line(label@, v as nat));
    }
}

/// A line with two labelled decimal numbers: `label_a`, `a`, `label_b`, `b` and a
/// line break.
pub open spec fn dec_pair_line(label_a: Seq<char>, a: nat, label_b: Seq<char>, b: nat) -> Seq<
    char,
> {
    label_a + dec_text(a) + label_b + dec_text(b) + "\n"@
}

/// Appends [`dec_pair_line`].
pub fn push_dec_pair_line(out: &mut String, label_a: &str, a: u64, label_b: &str, b: u64)
    ensures
        final(out)@ == old(out)@ + dec_pair_line(label_a@, a as nat, label_b@, b as nat),
{
    out.append(label_a);
    push_dec(out, a);
    out.append(label_b);
    push_dec(out, b);
    out.append("\n");
    proof {
        assert(final(out)@ =~= old(out)@ + dec_pair_line(label_a@, a as nat, label_b@, b as nat));
    }
}

/// Whether two strings hold the same characters.
pub fn str_equals(a: &str, b: &str) -> (r: bool)
    ensures
        r == (a@ == b@),
{
    let n = a.unicode_len();
    if n != b.unicode_len() {
        return false;
    }
    let mut i: usize = 0;
    while i < n
        invariant
            n == a@.len(),
            n == b@.len(),
            i <= n,
            forall|j: int| 0 <= j < i ==> a@[j] == b@[j],
        decreases n - i,
    {
        if a.get_char(i) != b.get_char(i) {
            return false;
        }
        i = i + 1;
    }
    assert(a@ =~= b@);
    true
}

/// Whether `s` ends with the characters of `suffix`.
pub open spec fn ends_with_spec(s: Seq<char>, suffix: Seq<char>) -> bool {
    suffix.len() <= s.len() && s.subrange(s.len() - suffix.len(), s.len() as int) == suffix
}

/// Whether `s` ends with `suffix` (`str::ends_with`).
pub fn str_ends_with(s: &str, suffix: &str) -> (r: bool)
    ensures
        r == ends_with_spec(s@, suffix@),
{
    let n = s.unicode_len();
    let k = suffix.unicode_len();
    if k > n {
        return false;
    }
    let start = n - k;
    let mut i: usize = 0;
    while i < k
        invariant
            n == s@.len(),
            k == suffix@.len(),
            k <= n,
            start == n - k,
            i <= k,
            forall|j: int| 0 <= j < i ==> s@[start + j] == suffix@[j],
        decreases k - i,
    {
        if s.get_char(start + i) != suffix.get_char(i) {
            assert(s@.subrange(start as int, n as int)[i as int] != suffix@[i as int]);
            return false;
        }
        i = i + 1;
    }
    assert(s@.subrange(start as int, n as int) =~= suffix@);
    true
}

/// Name for what `str::to_uppercase` returns for a string: its characters
/// mapped to upper case by the Unicode rules that std follows (a character may
/// become several).
pub uninterp spec fn uppercase_of(s: Seq<char>) -> Seq<char>;

/// Name for what `str::to_lowercase` returns for a string: its characters
/// mapped to lower case by the Unicode rules that std follows (a character may
/// become several).
pub uninterp spec fn lowercase_of(s: Seq<char>) -> Seq<char>;

/// Whether every character of `s` is ASCII (code below 128).
pub open spec fn is_ascii_text(s: Seq<char>) -> bool {
    forall|i: int| 0 <= i < s.len() ==> (#[trigger] s[i] as int) < 128
}

/// The code of an ASCII character mapped to lower case: `A`..`Z` become
/// `a`..`z`, every other character keeps its code.
pub open spec fn ascii_lower_code(c: char) -> int {
    if 65 <= (c as int) <= 90 {
        (c as int) + 32
    } else {
        c as int
    }
}

/// The code of an ASCII character mapped to upper case: `a`..`z` become
/// `A`..`Z`, every other character keeps its code.
pub open spec fn ascii_upper_code(c: char) -> int {
    if 97 <= (c as int) <= 122 {
        (c as int) - 32
    } else {
        c as int
    }
}

/// Calls std's `str::to_uppercase`. The contract names the result by the
/// characters of `s`, and states the one part of the Unicode mapping that std's
/// documentation of `str::to_ascii_uppercase` spells out: on ASCII text each
/// letter `a`..`z` becomes `A`..`Z` and every other character stays, one for one.
/// What it does to other characters is not stated.
#[verifier::external_body]
pub(crate) fn to_uppercase(s: &str) -> (r: String)
    ensures
        r@ == uppercase_of(s@),
        is_ascii_text(s@) ==> r@.len() == s@.len(),
        is_ascii_text(s@) ==> forall|i: int|
            0 <= i < s@.len() ==> (#[trigger] r@[i] as int) == ascii_upper_code(s@[i]),
{
    s.to_uppercase()
}

/// Calls std's `str::to_lowercase`. The contract names the result by the
/// characters of `s`, and states the one part of the Unicode mapping that std's
/// documentation of `str::to_ascii_lowercase` spells out: on ASCII text each
/// letter `A`..`Z` becomes `a`..`z` and every other character stays, one for one.
/// What it does to other characters is not stated.
#[verifier::external_body]
pub(crate) fn to_lowercase(s: &str) -> (r: String)
    ensures
        r@ == lowercase_of(s@),
        is_ascii_text(s@) ==> r@.len() == s@.len(),
        is_ascii_text(s@) ==> forall|i: int|
            0 <= i < s@.len() ==> (#[trigger] r@[i] as int) == ascii_lower_code(s@[i]),
{
    s.to_lowercase()
}

} // verus!
