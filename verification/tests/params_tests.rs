use png2jp2::params::{
    f32_bits_is_positive, parse_prog_order_str, prog_order_from_upper, EncoderSettings,
    EncodingOverrides, ParamSet, ProgOrder,
};

fn defaults() -> EncoderSettings {
    EncoderSettings {
        irreversible: 0,
        tcp_numlayers: 0,
        tcp_rate0: 0,
        cp_disto_alloc: 0,
        cp_fixed_quality: 0,
        numresolution: 6,
        prog_order: 0,
    }
}

fn no_overrides() -> EncodingOverrides {
    EncodingOverrides { num_resolutions: None, prog_order: None, rate: None, irreversible: None }
}

#[test]
fn prog_orders_in_any_case() {
    assert_eq!(parse_prog_order_str("LRCP"), Ok(ProgOrder::Lrcp));
    assert_eq!(parse_prog_order_str("rlcp"), Ok(ProgOrder::Rlcp));
    assert_eq!(parse_prog_order_str("RpCl"), Ok(ProgOrder::Rpcl));
    assert_eq!(parse_prog_order_str("pcrl"), Ok(ProgOrder::Pcrl));
    assert_eq!(parse_prog_order_str("Cprl"), Ok(ProgOrder::Cprl));
}

#[test]
fn unknown_prog_order_quotes_the_value() {
    assert_eq!(
        parse_prog_order_str("lrc"),
        Err("Invalid progression order: lrc".to_string())
    );
    assert_eq!(
        parse_prog_order_str(" LRCP"),
        Err("Invalid progression order:  LRCP".to_string())
    );
    assert_eq!(prog_order_from_upper("XYZ", "xyz"), Err("Invalid progression order: xyz".to_string()));
}

#[test]
fn prog_order_codes() {
    assert_eq!(ProgOrder::Lrcp.code(), 0);
    assert_eq!(ProgOrder::Rlcp.code(), 1);
    assert_eq!(ProgOrder::Rpcl.code(), 2);
    assert_eq!(ProgOrder::Pcrl.code(), 3);
    assert_eq!(ProgOrder::Cprl.code(), 4);
}

#[test]
fn float_positivity_from_bits() {
    for (v, pos) in [
        (1.0f32, true),
        (f32::MIN_POSITIVE, true),
        (f32::INFINITY, true),
        (0.0f32, false),
        (-0.0f32, false),
        (-2.5f32, false),
        (f32::NAN, false),
        (f32::NEG_INFINITY, false),
        (1e-45f32, true),
    ] {
        assert_eq!(f32_bits_is_positive(v.to_bits()), v > 0.0, "{}", v);
        assert_eq!(f32_bits_is_positive(v.to_bits()), pos);
    }
}

#[test]
fn default_lossy_set() {
    let s = ParamSet::DefaultLossy.to_opj_cparameters(defaults(), &no_overrides());
    assert_eq!(s.irreversible, 1);
    assert_eq!(s.tcp_numlayers, 1);
    assert_eq!(f32::from_bits(s.tcp_rate0), 10.0);
    assert_eq!(s.cp_disto_alloc, 1);
    assert_eq!(s.numresolution, 6);
}

#[test]
fn default_lossless_set() {
    let mut base = defaults();
    base.cp_fixed_quality = 1;
    base.irreversible = 1;
    base.tcp_rate0 = 5.0f32.to_bits();
    let s = ParamSet::DefaultLossless.to_opj_cparameters(base, &no_overrides());
    assert_eq!(s, EncoderSettings {
        irreversible: 0,
        tcp_numlayers: 1,
        tcp_rate0: 0,
        cp_disto_alloc: 0,
        cp_fixed_quality: 0,
        numresolution: 6,
        prog_order: 0,
    });
}

#[test]
fn custom_set_keeps_defaults() {
    let s = ParamSet::Custom.to_opj_cparameters(defaults(), &no_overrides());
    assert_eq!(s, EncoderSettings { irreversible: 1, ..defaults() });
}

#[test]
fn positive_rate_override() {
    let o = EncodingOverrides {
        num_resolutions: Some(3),
        prog_order: Some(ProgOrder::Cprl),
        rate: Some(20.0f32.to_bits()),
        irreversible: None,
    };
    let s = ParamSet::DefaultLossless.to_opj_cparameters(defaults(), &o);
    assert_eq!(s.irreversible, 1);
    assert_eq!(s.tcp_numlayers, 1);
    assert_eq!(f32::from_bits(s.tcp_rate0), 20.0);
    assert_eq!(s.cp_disto_alloc, 1);
    assert_eq!(s.numresolution, 3);
    assert_eq!(s.prog_order, 4);
}

#[test]
fn zero_rate_override_is_lossless() {
    let o = EncodingOverrides { rate: Some(0.0f32.to_bits()), ..no_overrides() };
    let s = ParamSet::DefaultLossy.to_opj_cparameters(defaults(), &o);
    assert_eq!(s.irreversible, 0);
    assert_eq!(s.tcp_rate0, 0);
    assert_eq!(s.cp_disto_alloc, 0);
    assert_eq!(s.tcp_numlayers, 1);
}

#[test]
fn irreversible_off_without_rate_drops_rate() {
    let o = EncodingOverrides { irreversible: Some(false), ..no_overrides() };
    let s = ParamSet::DefaultLossy.to_opj_cparameters(defaults(), &o);
    assert_eq!(s.irreversible, 0);
    assert_eq!(s.tcp_rate0, 0);
    assert_eq!(s.cp_disto_alloc, 0);
    assert_eq!(s.tcp_numlayers, 1);
}

#[test]
fn irreversible_off_with_rate_keeps_rate() {
    let o = EncodingOverrides {
        rate: Some(8.0f32.to_bits()),
        irreversible: Some(false),
        ..no_overrides()
    };
    let s = ParamSet::Custom.to_opj_cparameters(defaults(), &o);
    assert_eq!(s.irreversible, 0);
    assert_eq!(f32::from_bits(s.tcp_rate0), 8.0);
    assert_eq!(s.cp_disto_alloc, 1);
}

#[test]
fn irreversible_on_override() {
    let o = EncodingOverrides { irreversible: Some(true), ..no_overrides() };
    let s = ParamSet::DefaultLossless.to_opj_cparameters(defaults(), &o);
    assert_eq!(s.irreversible, 1);
    assert_eq!(s.tcp_rate0, 0);
}

#[test]
fn parsing_agrees_with_lower_cased_form() {
    for s in ["LRCP", "Rlcp", "rPcL", "pcrl", "CPRL", "LRCQ", " lrcp", "", "LRCPX"] {
        let lower = s.to_lowercase();
        let a = parse_prog_order_str(s);
        let b = parse_prog_order_str(&lower);
        assert_eq!(a.is_ok(), b.is_ok(), "{}", s);
        if a.is_ok() {
            assert_eq!(a, b);
        }
    }
}
