//! Encoder parameter sets: the progression orders that the command line
//! accepts, the named parameter sets and how command-line overrides change them.
//!
//! A 32-bit float setting is held as its IEEE 754 bit pattern (`u32`), which
//! the caller takes with `f32::to_bits` and gives back with `f32::from_bits`.
use vstd::prelude::*;
use crate::text::{
    ascii_lower_code, ascii_upper_code, is_ascii_text, str_equals, to_uppercase, uppercase_of,
};

verus! {

/// Progression orders of a JPEG 2000 codestream.
#[derive(Clone, Copy, Debug, PartialEq, Eq)]
pub enum ProgOrder {
    Lrcp,
    Rlcp,
    Rpcl,
    Pcrl,
    Cprl,
}

impl ProgOrder {
    /// The codec's number for the order.
    pub open spec fn code_of(self) -> i32 {
        match self {
            ProgOrder::Lrcp => 0,
            ProgOrder::Rlcp => 1,
            ProgOrder::Rpcl => 2,
            ProgOrder::Pcrl => 3,
            ProgOrder::Cprl => 4,
        }
    }

    /// The codec's number for the order (`OPJ_LRCP` .. `OPJ_CPRL`).
    pub fn code(&self) -> (c: i32)
        ensures
            c == self.code_of(),
    {
        match self {
            ProgOrder::Lrcp => 0,
            ProgOrder::Rlcp => 1,
            ProgOrder::Rpcl => 2,
            ProgOrder::Pcrl => 3,
            ProgOrder::Cprl => 4,
        }
    }
}

/// The progression order named by an upper-cased string, if any.
pub open spec fn prog_order_named(upper: Seq<char>) -> Option<ProgOrder> {
    if upper == "LRCP"@ {
        Some(ProgOrder::Lrcp)
    } else if upper == "RLCP"@ {
        Some(ProgOrder::Rlcp)
    } else if upper == "RPCL"@ {
        Some(ProgOrder::Rpcl)
    } else if upper == "PCRL"@ {
        Some(ProgOrder::Pcrl)
    } else if upper == "CPRL"@ {
        Some(ProgOrder::Cprl)
    } else {
        None
    }
}

/// The message for a progression order that is not known.
pub open spec fn invalid_prog_order_message(s: Seq<char>) -> Seq<char> {
    "Invalid progression order: "@ + s
}

/// The progression order named by `upper`, the upper-cased form of the
/// command-line value `s`; the error quotes `s` as given.
pub fn prog_order_from_upper(upper: &str, s: &str) -> (r: Result<ProgOrder, String>)
    ensures
        prog_order_named(upper@) matches Some(p) ==> r == Ok::<ProgOrder, String>(p),
        prog_order_named(upper@) is None ==> (r matches Err(m) && m@ == invalid_prog_order_message(s@)),
{
    if str_equals(upper, "LRCP") {
        Ok(ProgOrder::Lrcp)
    } else if str_equals(upper, "RLCP") {
        Ok(ProgOrder::Rlcp)
    } else if str_equals(upper, "RPCL") {
        Ok(ProgOrder::Rpcl)
    } else if str_equals(upper, "PCRL") {
        Ok(ProgOrder::Pcrl)
    } else if str_equals(upper, "CPRL") {
        Ok(ProgOrder::Cprl)
    } else {
        let mut m = String::from_str("Invalid progression order: ");
        m.append(s);
        Err(m)
    }
}

/// The character codes of an order's name: `LRCP`, `RLCP`, `RPCL`, `PCRL`, `CPRL`.
pub open spec fn prog_order_name_codes(p: ProgOrder) -> Seq<int> {
    match p {
        ProgOrder::Lrcp => seq![76int, 82, 67, 80],
        ProgOrder::Rlcp => seq![82int, 76, 67, 80],
        ProgOrder::Rpcl => seq![82int, 80, 67, 76],
        ProgOrder::Pcrl => seq![80int, 67, 82, 76],
        ProgOrder::Cprl => seq![67int, 80, 82, 76],
    }
}

/// Whether `s`, with its ASCII letters upper-cased, has exactly the character
/// codes `name`.
pub open spec fn names_ignoring_ascii_case(s: Seq<char>, name: Seq<int>) -> bool {
    &&& s.len() == name.len()
    &&& forall|i: int| 0 <= i < s.len() ==> ascii_upper_code(#[trigger] s[i]) == name[i]
}

proof fn lemma_upper_equals_literal(s: Seq<char>, u: Seq<char>, lit: Seq<char>, codes: Seq<int>)
    requires
        u.len() == s.len(),
        forall|i: int| 0 <= i < s.len() ==> (#[trigger] u[i] as int) == ascii_upper_code(s[i]),
        lit.len() == codes.len(),
        forall|i: int| 0 <= i < lit.len() ==> (#[trigger] lit[i] as int) == codes[i],
    ensures
        (u == lit) <==> names_ignoring_ascii_case(s, codes),
{
    if names_ignoring_ascii_case(s, codes) {
        assert forall|i: int| 0 <= i < u.len() implies u[i] == lit[i] by {
            assert(u[i] as int == lit[i] as int);
        }
        assert(u =~= lit);
    }
    if u == lit {
        assert forall|i: int| 0 <= i < s.len() implies ascii_upper_code(#[trigger] s[i]) == codes[i] by {
            assert(u[i] as int == lit[i] as int);
        }
    }
}

/// Parses a progression order given on the command line, in any letter case.
/// On ASCII text this means: the value names an order exactly when, with its
/// letters upper-cased, it spells that order's name.
pub fn parse_prog_order_str(s: &str) -> (r: Result<ProgOrder, String>)
    ensures
        prog_order_named(uppercase_of(s@)) matches Some(p) ==> r == Ok::<ProgOrder, String>(p),
        prog_order_named(uppercase_of(s@)) is None ==> (r matches Err(m) && m@
            == invalid_prog_order_message(s@)),
        is_ascii_text(s@) ==> forall|p: ProgOrder|
            (r == Ok::<ProgOrder, String>(p)) <==> #[trigger] names_ignoring_ascii_case(
                s@,
                prog_order_name_codes(p),
            ),
        is_ascii_text(s@) && (forall|p: ProgOrder|
            !#[trigger] names_ignoring_ascii_case(s@, prog_order_name_codes(p))) ==> (r matches Err(
            m,
        ) && m@ == invalid_prog_order_message(s@)),
{
    let upper = to_uppercase(s);
    proof {
        if is_ascii_text(s@) {
            reveal_strlit("LRCP");
            reveal_strlit("RLCP");
            reveal_strlit("RPCL");
            reveal_strlit("PCRL");
            reveal_strlit("CPRL");
            lemma_upper_equals_literal(s@, upper@, "LRCP"@, prog_order_name_codes(ProgOrder::Lrcp));
            lemma_upper_equals_literal(s@, upper@, "RLCP"@, prog_order_name_codes(ProgOrder::Rlcp));
            lemma_upper_equals_literal(s@, upper@, "RPCL"@, prog_order_name_codes(ProgOrder::Rpcl));
            lemma_upper_equals_literal(s@, upper@, "PCRL"@, prog_order_name_codes(ProgOrder::Pcrl));
            lemma_upper_equals_literal(s@, upper@, "CPRL"@, prog_order_name_codes(ProgOrder::Cprl));
        }
    }
    let r = prog_order_from_upper(upper.as_str(), s);
    proof {
        if is_ascii_text(s@) {
            assert forall|p: ProgOrder|
                (r == Ok::<ProgOrder, String>(p)) <==> #[trigger] names_ignoring_ascii_case(
                    s@,
                    prog_order_name_codes(p),
                ) by {
                lemma_names_exclusive(s@, p);
            }
        }
    }
    r
}

proof fn lemma_names_exclusive(s: Seq<char>, p: ProgOrder)
    ensures
        names_ignoring_ascii_case(s, prog_order_name_codes(p)) ==> forall|q: ProgOrder|
            #[trigger] names_ignoring_ascii_case(s, prog_order_name_codes(q)) ==> q == p,
{
    if names_ignoring_ascii_case(s, prog_order_name_codes(p)) {
        assert forall|q: ProgOrder| #[trigger]
            names_ignoring_ascii_case(s, prog_order_name_codes(q)) implies q == p by {
            assert(ascii_upper_code(s[0]) == prog_order_name_codes(p)[0]);
            assert(ascii_upper_code(s[0]) == prog_order_name_codes(q)[0]);
            assert(ascii_upper_code(s[1]) == prog_order_name_codes(p)[1]);
            assert(ascii_upper_code(s[1]) == prog_order_name_codes(q)[1]);
        }
    }
}

/// Letter case does not matter to parsing: two ASCII values that are equal
/// once their letters are lower-cased (in particular a value and its
/// lower-cased form) name the same progression order, or both name none.
pub proof fn lemma_parse_ignores_ascii_case(a: Seq<char>, b: Seq<char>, p: ProgOrder)
    requires
        is_ascii_text(a),
        is_ascii_text(b),
        a.len() == b.len(),
        forall|i: int| 0 <= i < a.len() ==> ascii_lower_code(#[trigger] a[i]) == ascii_lower_code(b[i]),
    ensures
        names_ignoring_ascii_case(a, prog_order_name_codes(p)) <==> names_ignoring_ascii_case(
            b,
            prog_order_name_codes(p),
        ),
{
    let name = prog_order_name_codes(p);
    assert forall|i: int| 0 <= i < a.len() implies ascii_upper_code(#[trigger] a[i]) == ascii_upper_code(
        b[i],
    ) by {
        assert(ascii_lower_code(a[i]) == ascii_lower_code(b[i]));
        assert((a[i] as int) < 128);
        assert((b[i] as int) < 128);
    }
    if names_ignoring_ascii_case(a, name) {
        assert forall|i: int| 0 <= i < b.len() implies ascii_upper_code(#[trigger] b[i]) == name[i] by {
            assert(ascii_upper_code(a[i]) == ascii_upper_code(b[i]));
        }
    }
    if names_ignoring_ascii_case(b, name) {
        assert forall|i: int| 0 <= i < a.len() implies ascii_upper_code(#[trigger] a[i]) == name[i] by {
            assert(ascii_upper_code(a[i]) == ascii_upper_code(b[i]));
        }
    }
}

/// Parsing ignores letter case as far as upper-casing does: two values with the
/// same upper-cased form name the same progression order, or both name none.
/// In particular a value parses as its lower-cased form does whenever the two
/// upper-case alike.
pub proof fn lemma_parse_depends_on_upper_case_only(a: Seq<char>, b: Seq<char>)
    requires
        uppercase_of(a) == uppercase_of(b),
    ensures
        prog_order_named(uppercase_of(a)) == prog_order_named(uppercase_of(b)),
{
}

/// Whether the float with bit pattern `bits` is greater than `0.0` (positive
/// numbers and positive infinity; not zero, negatives or NaN).
pub open spec fn f32_bits_positive(bits: u32) -> bool {
    1 <= bits <= 0x7f80_0000
}

/// Bit pattern of the float `10.0`.
pub open spec fn f32_bits_ten() -> u32 {
    0x4120_0000
}

/// Whether the float with bit pattern `bits` is greater than `0.0`.
pub fn f32_bits_is_positive(bits: u32) -> (r: bool)
    ensures
        r == f32_bits_positive(bits),
{
    1 <= bits && bits <= 0x7f80_0000
}

/// The encoder settings that the parameter sets and overrides decide; each is
/// the field of the same name of the codec's compression parameters, and
/// `tcp_rate0` is the bit pattern of the first layer's rate (`tcp_rates[0]`).
#[derive(Clone, Copy, Debug, PartialEq, Eq)]
pub struct EncoderSettings {
    pub irreversible: i32,
    pub tcp_numlayers: i32,
    pub tcp_rate0: u32,
    pub cp_disto_alloc: i32,
    pub cp_fixed_quality: i32,
    pub numresolution: i32,
    pub prog_order: i32,
}

/// Command-line overrides of a parameter set; `rate` is the bit pattern of the
/// rate given.
#[derive(Clone, Copy, Debug, PartialEq, Eq)]
pub struct EncodingOverrides {
    pub num_resolutions: Option<i32>,
    pub prog_order: Option<ProgOrder>,
    pub rate: Option<u32>,
    pub irreversible: Option<bool>,
}

/// Named encoder parameter sets.
#[derive(Clone, Copy, Debug, PartialEq, Eq)]
pub enum ParamSet {
    /// Irreversible wavelet, one layer at a 10:1 rate.
    DefaultLossy,
    /// Reversible wavelet, one layer, no rate.
    DefaultLossless,
    /// Irreversible wavelet, everything else left to the overrides.
    Custom,
}

/// The settings of a parameter set, starting from the codec's defaults `base`.
pub open spec fn param_set_settings(ps: ParamSet, base: EncoderSettings) -> EncoderSettings {
    match ps {
        ParamSet::DefaultLossy => EncoderSettings {
            irreversible: 1,
            tcp_numlayers: 1,
            tcp_rate0: f32_bits_ten(),
            cp_disto_alloc: 1,
            ..base
        },
        ParamSet::DefaultLossless => EncoderSettings {
            tcp_numlayers: 1,
            tcp_rate0: 0,
            cp_disto_alloc: 0,
            cp_fixed_quality: 0,
            irreversible: 0,
            ..base
        },
        ParamSet::Custom => EncoderSettings { irreversible: 1, ..base },
    }
}

/// The settings after the overrides, applied to `s` in the order resolutions,
/// progression order, rate, irreversibility. A positive rate asks for one lossy
/// layer at that rate; any other rate for one lossless layer. An irreversibility
/// override sets the wavelet; turning it off without a rate also drops the rate.
pub open spec fn overridden_settings(s: EncoderSettings, o: EncodingOverrides) -> EncoderSettings {
    let s1 = match o.num_resolutions {
        Some(n) => EncoderSettings { numresolution: n, ..s },
        None => s,
    };
    let s2 = match o.prog_order {
        Some(p) => EncoderSettings { prog_order: p.code_of(), ..s1 },
        None => s1,
    };
    let s3 = match o.rate {
        Some(r) => if f32_bits_positive(r) {
            EncoderSettings { tcp_numlayers: 1, tcp_rate0: r, cp_disto_alloc: 1, irreversible: 1, ..s2 }
        } else {
            EncoderSettings { tcp_numlayers: 1, tcp_rate0: 0, cp_disto_alloc: 0, irreversible: 0, ..s2 }
        },
        None => s2,
    };
    match o.irreversible {
        Some(b) => if !b && o.rate is None {
            EncoderSettings { irreversible: 0, tcp_rate0: 0, cp_disto_alloc: 0, ..s3 }
        } else {
            EncoderSettings { irreversible: if b { 1 } else { 0 }, ..s3 }
        },
        None => s3,
    }
}

impl ParamSet {
    /// The compression settings of this parameter set with the overrides,
    /// starting from the codec's default settings `defaults`.
    pub fn to_opj_cparameters(&self, defaults: EncoderSettings, overrides: &EncodingOverrides) -> (r:
        EncoderSettings)
        ensures
            r == overridden_settings(param_set_settings(*self, defaults), *overrides),
    {
        let mut params = defaults;
        match self {
            ParamSet::DefaultLossy => {
                params.irreversible = 1;
                params.tcp_numlayers = 1;
                params.tcp_rate0 = 0x4120_0000;
                params.cp_disto_alloc = 1;
            },
            ParamSet::DefaultLossless => {
                params.tcp_numlayers = 1;
                params.tcp_rate0 = 0;
                params.cp_disto_alloc = 0;
                params.cp_fixed_quality = 0;
                params.irreversible = 0;
            },
            ParamSet::Custom => {
                params.irreversible = 1;
            },
        }
        if let Some(num_res) = overrides.num_resolutions {
            params.numresolution = num_res;
        }
        if let Some(prog_order_val) = overrides.prog_order {
            params.prog_order = prog_order_val.code();
        }
        if let Some(rate_val) = overrides.rate {
            if f32_bits_is_positive(rate_val) {
                params.tcp_numlayers = 1;
                params.tcp_rate0 = rate_val;
                params.cp_disto_alloc = 1;
                params.irreversible = 1;
            } else {
                params.tcp_numlayers = 1;
                params.tcp_rate0 = 0;
                params.cp_disto_alloc = 0;
                params.irreversible = 0;
            }
        }
        if let Some(irreversible_override) = overrides.irreversible {
            params.irreversible = if irreversible_override {
                1
            } else {
                0
            };
            if !irreversible_override && overrides.rate.is_none() {
                params.tcp_rate0 = 0;
                params.cp_disto_alloc = 0;
            }
        }
        params
    }
}

/// Whatever the parameter set and the other overrides, an irreversibility
/// override decides the wavelet: irreversible (1) when asked, reversible (0) when not.
pub proof fn lemma_irreversible_override_decides(
    ps: ParamSet,
    base: EncoderSettings,
    o: EncodingOverrides,
    b: bool,
)
    requires
        o.irreversible == Some(b),
    ensures
        overridden_settings(param_set_settings(ps, base), o).irreversible == (if b { 1i32 } else { 0i32 }),
{
}

/// Without an irreversibility override, a positive rate gives one irreversible
/// layer at that rate with rate allocation on, and any other rate one reversible
/// layer with no rate and no rate allocation, whatever the parameter set.
pub proof fn lemma_rate_override_decides(ps: ParamSet, base: EncoderSettings, o: EncodingOverrides, r: u32)
    requires
        o.rate == Some(r),
        o.irreversible is None,
    ensures
        ({
            let s = overridden_settings(param_set_settings(ps, base), o);
            &&& s.tcp_numlayers == 1
            &&& f32_bits_positive(r) ==> s.tcp_rate0 == r && s.irreversible == 1 && s.cp_disto_alloc == 1
            &&& !f32_bits_positive(r) ==> s.tcp_rate0 == 0 && s.irreversible == 0 && s.cp_disto_alloc == 0
        }),
{
}

/// The resolution and progression-order overrides are applied whatever the
/// parameter set and the other overrides: a given number of resolutions is
/// the one used, a given order is the one used (LRCP 0, RLCP 1, RPCL 2, PCRL 3,
/// CPRL 4), and where none is given the codec's default stays.
pub proof fn lemma_resolution_and_order_overrides(ps: ParamSet, base: EncoderSettings, o: EncodingOverrides)
    ensures
        ({
            let s = overridden_settings(param_set_settings(ps, base), o);
            &&& o.num_resolutions matches Some(n) ==> s.numresolution == n
            &&& o.num_resolutions is None ==> s.numresolution == base.numresolution
            &&& o.prog_order is None ==> s.prog_order == base.prog_order
            &&& o.prog_order == Some(ProgOrder::Lrcp) ==> s.prog_order == 0
            &&& o.prog_order == Some(ProgOrder::Rlcp) ==> s.prog_order == 1
            &&& o.prog_order == Some(ProgOrder::Rpcl) ==> s.prog_order == 2
            &&& o.prog_order == Some(ProgOrder::Pcrl) ==> s.prog_order == 3
            &&& o.prog_order == Some(ProgOrder::Cprl) ==> s.prog_order == 4
        }),
{
}

/// Without overrides the parameter sets give: lossy, one irreversible layer at
/// the rate 10.0 (bit pattern `0x4120_0000`) with rate allocation on; lossless,
/// one reversible layer with rate 0 and neither rate allocation nor fixed
/// quality; custom, the defaults with the irreversible wavelet. Resolutions and
/// progression order are the defaults in every set.
pub proof fn lemma_param_sets_alone(base: EncoderSettings, o: EncodingOverrides)
    requires
        (o.num_resolutions is None),
        (o.prog_order is None),
        (o.rate is None),
        (o.irreversible is None),
    ensures
        overridden_settings(param_set_settings(ParamSet::DefaultLossy, base), o) == (EncoderSettings {
            irreversible: 1,
            tcp_numlayers: 1,
            tcp_rate0: 0x4120_0000,
            cp_disto_alloc: 1,
            ..base
        }),
        overridden_settings(param_set_settings(ParamSet::DefaultLossless, base), o) == (
        EncoderSettings {
            irreversible: 0,
            tcp_numlayers: 1,
            tcp_rate0: 0,
            cp_disto_alloc: 0,
            cp_fixed_quality: 0,
            ..base
        }),
        overridden_settings(param_set_settings(ParamSet::Custom, base), o) == (EncoderSettings {
            irreversible: 1,
            ..base
        }),
{
}

/// A rate counts as positive exactly when, as an IEEE 754 float, its sign bit
/// is clear, it is not zero, and it is not a NaN (all exponent bits set with a
/// nonzero fraction); positive infinity counts.
pub proof fn lemma_positive_rate_bits(b: u32)
    ensures
        f32_bits_positive(b) <==> (b & 0x8000_0000 == 0 && b != 0 && !(b & 0x7f80_0000 == 0x7f80_0000
            && b & 0x007f_ffff != 0)),
{
    assert((1 <= b && b <= 0x7f80_0000) <==> (b & 0x8000_0000 == 0 && b != 0 && !(b & 0x7f80_0000
        == 0x7f80_0000 && b & 0x007f_ffff != 0))) by (bit_vector);
}

} // verus!
