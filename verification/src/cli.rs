//! Command-line decisions of the converter and of the quality tester: usage
//! texts, arguments, the output format, the quality range and the names of the
//! files written at each quality level.
use vstd::prelude::*;
use crate::encode::CodecFormat;
use crate::text::{
    ascii_lower_code, dec_text, digit_char, ends_with_spec, is_ascii_text, lowercase_of, push_dec,
    str_ends_with, str_equals, to_lowercase,
};

verus! {

/// The converter's usage line for a program named `program`.
pub open spec fn png2jp2_usage_text(program: Seq<char>) -> Seq<char> {
    "Usage: "@ + program + " <input.png> <output.jp2|output.j2k> [quality 0-100] [jp2|j2k]"@
}

/// The converter's usage line.
pub fn png2jp2_usage(program: &str) -> (r: String)
    ensures
        r@ == png2jp2_usage_text(program@),
{
    let mut r = String::from_str("Usage: ");
    r.append(program);
    r.append(" <input.png> <output.jp2|output.j2k> [quality 0-100] [jp2|j2k]");
    r
}

/// The program name that usage messages show: the first argument, or
/// `png2jp2` where there is none.
pub open spec fn program_name(args: Seq<String>) -> Seq<char> {
    if args.len() > 0 {
        args[0]@
    } else {
        "png2jp2"@
    }
}

/// The format argument taken when none is given: `j2k` for an output whose
/// lower-cased name ends in `.j2k`, else `jp2`.
pub open spec fn default_format_text(output: Seq<char>) -> Seq<char> {
    if ends_with_spec(lowercase_of(output), ".j2k"@) {
        "j2k"@
    } else {
        "jp2"@
    }
}

/// Whether the last four characters of `s`, with ASCII letters lower-cased,
/// are `.j2k` (codes 46, 106, 50, 107).
pub open spec fn ends_in_j2k_ignoring_ascii_case(s: Seq<char>) -> bool {
    let n = s.len() as int;
    &&& n >= 4
    &&& ascii_lower_code(s[n - 4]) == 46
    &&& ascii_lower_code(s[n - 3]) == 106
    &&& ascii_lower_code(s[n - 2]) == 50
    &&& ascii_lower_code(s[n - 1]) == 107
}

/// The format argument taken when none is given (see [`default_format_text`]):
/// for an ASCII output name, `j2k` exactly when the name ends in `.j2k` in any
/// letter case, else `jp2`.
pub fn default_format_arg(output: &str) -> (r: String)
    ensures
        r@ == default_format_text(output@),
        is_ascii_text(output@) ==> r@ == (if ends_in_j2k_ignoring_ascii_case(output@) {
            "j2k"@
        } else {
            "jp2"@
        }),
{
    let lower = to_lowercase(output);
    proof {
        if is_ascii_text(output@) {
            reveal_strlit(".j2k");
            let l = lower@;
            let n = l.len() as int;
            if ends_with_spec(l, ".j2k"@) {
                assert(l.subrange(n - 4, n)[0] == l[n - 4]);
                assert(l.subrange(n - 4, n)[1] == l[n - 3]);
                assert(l.subrange(n - 4, n)[2] == l[n - 2]);
                assert(l.subrange(n - 4, n)[3] == l[n - 1]);
                assert(l[n - 4] as int == ascii_lower_code(output@[n - 4]));
                assert(l[n - 3] as int == ascii_lower_code(output@[n - 3]));
                assert(l[n - 2] as int == ascii_lower_code(output@[n - 2]));
                assert(l[n - 1] as int == ascii_lower_code(output@[n - 1]));
            }
            if ends_in_j2k_ignoring_ascii_case(output@) {
                assert(l[n - 4] as int == ascii_lower_code(output@[n - 4]));
                assert(l[n - 3] as int == ascii_lower_code(output@[n - 3]));
                assert(l[n - 2] as int == ascii_lower_code(output@[n - 2]));
                assert(l[n - 1] as int == ascii_lower_code(output@[n - 1]));
                assert(l.subrange(n - 4, n) =~= ".j2k"@);
            }
        }
    }
    if str_ends_with(lower.as_str(), ".j2k") {
        String::from_str("j2k")
    } else {
        String::from_str("jp2")
    }
}

/// The converter's arguments: `program input output [quality] [format]`.
#[derive(Debug)]
pub struct Png2Jp2Args {
    pub program: String,
    pub input: String,
    pub output: String,
    /// The quality argument as given, where there is one.
    pub quality: Option<String>,
    /// The format argument, or the default for the output's name.
    pub format: String,
}

/// Reads the converter's arguments (the program name first). Fewer than an
/// input and an output give the usage line; arguments after the format are ignored.
pub fn parse_png2jp2_args(args: &Vec<String>) -> (r: Result<Png2Jp2Args, String>)
    ensures
        args@.len() < 3 ==> (r matches Err(m) && m@ == png2jp2_usage_text(program_name(args@))),
        args@.len() >= 3 ==> (r matches Ok(a) && {
            &&& a.program@ == args@[0]@
            &&& a.input@ == args@[1]@
            &&& a.output@ == args@[2]@
            &&& args@.len() > 3 ==> (a.quality matches Some(q) && q@ == args@[3]@)
            &&& args@.len() <= 3 ==> a.quality is None
            &&& a.format@ == if args@.len() > 4 {
                args@[4]@
            } else {
                default_format_text(args@[2]@)
            }
            &&& (args@.len() <= 4 && is_ascii_text(args@[2]@)) ==> a.format@ == (
            if ends_in_j2k_ignoring_ascii_case(args@[2]@) {
                "j2k"@
            } else {
                "jp2"@
            })
        }),
{
    if args.len() < 3 {
        if args.len() > 0 {
            return Err(png2jp2_usage(args[0].as_str()));
        } else {
            return Err(png2jp2_usage("png2jp2"));
        }
    }
    let program = args[0].clone();
    let input = args[1].clone();
    let output = args[2].clone();
    let quality = if args.len() > 3 {
        Some(args[3].clone())
    } else {
        None
    };
    let format = if args.len() > 4 {
        args[4].clone()
    } else {
        default_format_arg(output.as_str())
    };
    Ok(Png2Jp2Args { program, input, output, quality, format })
}

/// The format named by a lower-cased format argument, if any.
pub open spec fn codec_format_named(lower: Seq<char>) -> Option<CodecFormat> {
    if lower == "j2k"@ || lower == "codestream"@ {
        Some(CodecFormat::J2k)
    } else if lower == "jp2"@ || lower == "container"@ {
        Some(CodecFormat::Jp2)
    } else {
        None
    }
}

/// The message for a format argument that names no format, quoting it lower-cased.
pub open spec fn unknown_format_message(lower: Seq<char>) -> Seq<char> {
    "ERROR: Unknown format '"@ + lower + "'; use 'jp2' or 'j2k'"@
}

/// The format named by `lower`, a lower-cased format argument.
pub fn codec_format_from_lower(lower: &str) -> (r: Result<CodecFormat, String>)
    ensures
        codec_format_named(lower@) matches Some(f) ==> r == Ok::<CodecFormat, String>(f),
        codec_format_named(lower@) is None ==> (r matches Err(m) && m@ == unknown_format_message(
            lower@,
        )),
{
    if str_equals(lower, "j2k") || str_equals(lower, "codestream") {
        Ok(CodecFormat::J2k)
    } else if str_equals(lower, "jp2") || str_equals(lower, "container") {
        Ok(CodecFormat::Jp2)
    } else {
        let mut m = String::from_str("ERROR: Unknown format '");
        m.append(lower);
        m.append("'; use 'jp2' or 'j2k'");
        Err(m)
    }
}

/// The format named by a format argument, in any letter case.
pub fn codec_format_for_arg(fmt_arg: &str) -> (r: Result<CodecFormat, String>)
    ensures
        codec_format_named(lowercase_of(fmt_arg@)) matches Some(f) ==> r == Ok::<
            CodecFormat,
            String,
        >(f),
        codec_format_named(lowercase_of(fmt_arg@)) is None ==> (r matches Err(m) && m@
            == unknown_format_message(lowercase_of(fmt_arg@))),
        is_ascii_text(fmt_arg@) ==> ((r == Ok::<CodecFormat, String>(CodecFormat::J2k)) <==> (
        ascii_lower_codes(fmt_arg@) == j2k_codes() || ascii_lower_codes(fmt_arg@)
            == codestream_codes())),
        is_ascii_text(fmt_arg@) ==> ((r == Ok::<CodecFormat, String>(CodecFormat::Jp2)) <==> (
        ascii_lower_codes(fmt_arg@) == jp2_codes() || ascii_lower_codes(fmt_arg@)
            == container_codes())),
{
    let lower = to_lowercase(fmt_arg);
    proof {
        if is_ascii_text(fmt_arg@) {
            reveal_strlit("j2k");
            reveal_strlit("codestream");
            reveal_strlit("jp2");
            reveal_strlit("container");
            let m = ascii_lower_codes(fmt_arg@);
            assert forall|i: int| 0 <= i < lower@.len() implies (#[trigger] lower@[i] as int) == m[i] by {
            }
            lemma_codes_equal_literal(lower@, m, "j2k"@, j2k_codes());
            lemma_codes_equal_literal(lower@, m, "codestream"@, codestream_codes());
            lemma_codes_equal_literal(lower@, m, "jp2"@, jp2_codes());
            lemma_codes_equal_literal(lower@, m, "container"@, container_codes());
            assert(j2k_codes() != jp2_codes() && j2k_codes() != container_codes()
                && codestream_codes() != jp2_codes() && codestream_codes() != container_codes()) by {
                assert(j2k_codes()[1] != jp2_codes()[1]);
                assert(j2k_codes().len() != container_codes().len());
                assert(codestream_codes().len() != jp2_codes().len());
                assert(codestream_codes().len() != container_codes().len());
            }
        }
    }
    codec_format_from_lower(lower.as_str())
}

/// The codes of a text with its ASCII letters lower-cased.
pub open spec fn ascii_lower_codes(s: Seq<char>) -> Seq<int> {
    Seq::new(s.len(), |i: int| ascii_lower_code(s[i]))
}

/// The codes of `j2k`.
pub open spec fn j2k_codes() -> Seq<int> {
    seq![106int, 50, 107]
}

/// The codes of `codestream`.
pub open spec fn codestream_codes() -> Seq<int> {
    seq![99int, 111, 100, 101, 115, 116, 114, 101, 97, 109]
}

/// The codes of `jp2`.
pub open spec fn jp2_codes() -> Seq<int> {
    seq![106int, 112, 50]
}

/// The codes of `container`.
pub open spec fn container_codes() -> Seq<int> {
    seq![99int, 111, 110, 116, 97, 105, 110, 101, 114]
}

proof fn lemma_codes_equal_literal(u: Seq<char>, m: Seq<int>, lit: Seq<char>, codes: Seq<int>)
    requires
        u.len() == m.len(),
        forall|i: int| 0 <= i < u.len() ==> (#[trigger] u[i] as int) == m[i],
        lit.len() == codes.len(),
        forall|i: int| 0 <= i < lit.len() ==> (#[trigger] lit[i] as int) == codes[i],
    ensures
        (u == lit) <==> (m == codes),
{
    if m == codes {
        assert forall|i: int| 0 <= i < u.len() implies u[i] == lit[i] by {
            assert(u[i] as int == lit[i] as int);
        }
        assert(u =~= lit);
    }
    if u == lit {
        assert forall|i: int| 0 <= i < m.len() implies m[i] == codes[i] by {
            assert(u[i] as int == lit[i] as int);
        }
        assert(m =~= codes);
    }
}

/// Whether the 32-bit float with bit pattern `bits` lies in `0.0 ..= 100.0`:
/// it is `-0.0`, or a non-negative float no greater than `100.0` (whose bit
/// pattern is `0x42c8_0000`; non-negative floats order as their bit patterns,
/// and NaN patterns lie above that of infinity).
pub open spec fn quality_in_range_spec(bits: u32) -> bool {
    bits == 0x8000_0000 || bits <= 0x42c8_0000
}

/// Whether a quality, given by its float bit pattern, lies in `0.0 ..= 100.0`.
pub fn quality_in_range(bits: u32) -> (r: bool)
    ensures
        r == quality_in_range_spec(bits),
{
    bits == 0x8000_0000 || bits <= 0x42c8_0000
}

/// The quality tester's usage text (three lines) for a program named `program`.
pub open spec fn quality_tester_usage_text(program: Seq<char>) -> Seq<char> {
    "Usage: "@ + program + " <input.png> <output_dir>\n"@
        + "  input.png: Input image file (PNG, JPEG, etc. - any format supported by the `image` crate)\n"@
        + "  output_dir: Directory where output JP2 files will be saved"@
}

/// The quality tester's usage text.
pub fn quality_tester_usage(program: &str) -> (r: String)
    ensures
        r@ == quality_tester_usage_text(program@),
{
    let mut r = String::from_str("Usage: ");
    r.append(program);
    r.append(" <input.png> <output_dir>\n");
    r.append(
        "  input.png: Input image file (PNG, JPEG, etc. - any format supported by the `image` crate)\n",
    );
    r.append("  output_dir: Directory where output JP2 files will be saved");
    r
}

/// Reads the quality tester's arguments (the program name first): exactly an
/// input image and an output directory, else the usage text.
pub fn check_quality_tester_args(args: &Vec<String>) -> (r: Result<(String, String), String>)
    requires
        args@.len() >= 1,
    ensures
        args@.len() == 3 ==> (r matches Ok((i, o)) && i@ == args@[1]@ && o@ == args@[2]@),
        args@.len() != 3 ==> (r matches Err(m) && m@ == quality_tester_usage_text(args@[0]@)),
{
    if args.len() != 3 {
        return Err(quality_tester_usage(args[0].as_str()));
    }
    Ok((args[1].clone(), args[2].clone()))
}

/// The quality levels at which the tester writes a file, in the order written.
pub open spec fn quality_levels_seq() -> Seq<u32> {
    seq![20u32, 30, 40, 50, 60, 75, 80, 85, 90, 95]
}

/// The quality levels at which the tester writes a file, in the order written.
pub fn quality_levels() -> (r: Vec<u32>)
    ensures
        r@ == quality_levels_seq(),
        forall|i: int, j: int| 0 <= i < j < r@.len() ==> r@[i] < r@[j],
        forall|i: int| 0 <= i < r@.len() ==> r@[i] <= 100,
{
    let r = vec![20u32, 30, 40, 50, 60, 75, 80, 85, 90, 95];
    assert(r@ =~= quality_levels_seq());
    r
}

/// A number's decimal text padded with zeros on the left to three characters
/// (`{:03}`).
pub open spec fn pad3(s: Seq<char>) -> Seq<char> {
    if s.len() < 3 {
        Seq::new((3 - s.len()) as nat, |i: int| '0') + s
    } else {
        s
    }
}

/// The name of the file written at quality `q`.
pub open spec fn quality_file_name_text(q: u32) -> Seq<char> {
    "quality_"@ + pad3(dec_text(q as nat)) + ".jp2"@
}

proof fn lemma_dec_len(n: nat)
    ensures
        n < 10 ==> dec_text(n).len() == 1,
        10 <= n < 100 ==> dec_text(n).len() == 2,
        100 <= n ==> dec_text(n).len() >= 3,
    decreases n,
{
    if n >= 10 {
        lemma_dec_len(n / 10);
    }
}

/// The name of the file written at quality `q` (`quality_{q:03}.jp2`).
pub fn quality_file_name(q: u32) -> (r: String)
    ensures
        r@ == quality_file_name_text(q),
{
    proof {
        lemma_dec_len(q as nat);
        reveal_strlit("00");
        reveal_strlit("0");
    }
    let mut r = String::from_str("quality_");
    if q < 10 {
        r.append("00");
    } else if q < 100 {
        r.append("0");
    }
    push_dec(&mut r, q as u64);
    r.append(".jp2");
    proof {
        let d = dec_text(q as nat);
        if q < 10 {
            assert(Seq::new(2, |i: int| '0') =~= "00"@);
        } else if q < 100 {
            assert(Seq::new(1, |i: int| '0') =~= "0"@);
        }
        assert(r@ =~= quality_file_name_text(q));
    }
    r
}

proof fn lemma_pad3_digits(q: nat)
    requires
        q < 1000,
    ensures
        pad3(dec_text(q)) == seq![digit_char(q / 100), digit_char((q / 10) % 10), digit_char(q % 10)],
{
    reveal_with_fuel(crate::text::digits, 3);
    lemma_dec_len(q);
    if q < 10 {
        assert(pad3(dec_text(q)) =~= seq![digit_char(q / 100), digit_char((q / 10) % 10), digit_char(q % 10)]);
    } else if q < 100 {
        assert(dec_text(q) == dec_text(q / 10).push(digit_char(q % 10)));
        assert(pad3(dec_text(q)) =~= seq![digit_char(q / 100), digit_char((q / 10) % 10), digit_char(q % 10)]);
    } else {
        assert(dec_text(q) == dec_text(q / 10).push(digit_char(q % 10)));
        assert(dec_text(q / 10) == dec_text(q / 100).push(digit_char((q / 10) % 10)));
        assert(pad3(dec_text(q)) =~= seq![digit_char(q / 100), digit_char((q / 10) % 10), digit_char(q % 10)]);
    }
}

/// Distinct quality levels below 1000 get distinct file names, so no file
/// written by the tester replaces another.
pub proof fn lemma_file_names_distinct(a: u32, b: u32)
    requires
        a < 1000,
        b < 1000,
        a != b,
    ensures
        quality_file_name_text(a) != quality_file_name_text(b),
{
    lemma_pad3_digits(a as nat);
    lemma_pad3_digits(b as nat);
    let pa = pad3(dec_text(a as nat));
    let pb = pad3(dec_text(b as nat));
    if quality_file_name_text(a) == quality_file_name_text(b) {
        let pre = "quality_"@;
        let n = pre.len() as int;
        assert(quality_file_name_text(a)[n] == pa[0]);
        assert(quality_file_name_text(b)[n] == pb[0]);
        assert(quality_file_name_text(a)[n + 1] == pa[1]);
        assert(quality_file_name_text(b)[n + 1] == pb[1]);
        assert(quality_file_name_text(a)[n + 2] == pa[2]);
        assert(quality_file_name_text(b)[n + 2] == pb[2]);
        assert(a == 100 * (a / 100) + 10 * ((a / 10) % 10) + a % 10);
        assert(b == 100 * (b / 100) + 10 * ((b / 10) % 10) + b % 10);
    }
}

/// A quality passes the range check exactly when, as an IEEE 754 float, it is
/// negative zero or has a clear sign bit and a bit pattern no greater than that
/// of `100.0` (`0x42c8_0000`), which leaves out every negative number, every
/// number above 100, infinity and NaN.
pub proof fn lemma_quality_range_bits(b: u32)
    ensures
        quality_in_range_spec(b) <==> (b == 0x8000_0000 || (b & 0x8000_0000 == 0 && b
            <= 0x42c8_0000)),
        quality_in_range_spec(b) ==> !(b & 0x7f80_0000 == 0x7f80_0000),
{
    assert((b == 0x8000_0000 || b <= 0x42c8_0000) <==> (b == 0x8000_0000 || (b & 0x8000_0000 == 0
        && b <= 0x42c8_0000))) by (bit_vector);
    assert((b == 0x8000_0000 || b <= 0x42c8_0000) ==> !(b & 0x7f80_0000 == 0x7f80_0000)) by (bit_vector);
}

} // verus!
