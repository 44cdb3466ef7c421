use png2jp2::cli::{
    check_quality_tester_args, codec_format_for_arg, codec_format_from_lower, default_format_arg,
    parse_png2jp2_args, png2jp2_usage, quality_file_name, quality_in_range, quality_levels,
    quality_tester_usage,
};
use png2jp2::encode::CodecFormat;

fn args(v: &[&str]) -> Vec<String> {
    v.iter().map(|s| s.to_string()).collect()
}

#[test]
fn usage_line() {
    assert_eq!(
        png2jp2_usage("png2jp2"),
        "Usage: png2jp2 <input.png> <output.jp2|output.j2k> [quality 0-100] [jp2|j2k]"
    );
}

#[test]
fn missing_arguments_give_usage() {
    let e = parse_png2jp2_args(&args(&["conv", "in.png"])).unwrap_err();
    assert_eq!(e, png2jp2_usage("conv"));
    let e = parse_png2jp2_args(&args(&[])).unwrap_err();
    assert_eq!(e, png2jp2_usage("png2jp2"));
}

#[test]
fn arguments_with_defaults() {
    let a = parse_png2jp2_args(&args(&["conv", "in.png", "OUT.J2K"])).unwrap();
    assert_eq!(a.program, "conv");
    assert_eq!(a.input, "in.png");
    assert_eq!(a.output, "OUT.J2K");
    assert_eq!(a.quality, None);
    assert_eq!(a.format, "j2k");
    let b = parse_png2jp2_args(&args(&["conv", "in.png", "out.png", "75"])).unwrap();
    assert_eq!(b.quality, Some("75".to_string()));
    assert_eq!(b.format, "jp2");
}

#[test]
fn arguments_with_format() {
    let a = parse_png2jp2_args(&args(&["conv", "in.png", "o.j2k", "50", "container", "extra"])).unwrap();
    assert_eq!(a.format, "container");
    assert_eq!(a.quality, Some("50".to_string()));
}

#[test]
fn default_formats() {
    assert_eq!(default_format_arg("a.j2k"), "j2k");
    assert_eq!(default_format_arg("A.J2K"), "j2k");
    assert_eq!(default_format_arg("a.jp2"), "jp2");
    assert_eq!(default_format_arg("a.j2k.png"), "jp2");
    assert_eq!(default_format_arg("j2k"), "jp2");
    assert_eq!(default_format_arg(""), "jp2");
}

#[test]
fn format_names_in_any_case() {
    assert_eq!(codec_format_for_arg("j2k"), Ok(CodecFormat::J2k));
    assert_eq!(codec_format_for_arg("J2K"), Ok(CodecFormat::J2k));
    assert_eq!(codec_format_for_arg("J2\u{212A}"), Ok(CodecFormat::J2k));
    assert_eq!(codec_format_for_arg("CodeStream"), Ok(CodecFormat::J2k));
    assert_eq!(codec_format_for_arg("JP2"), Ok(CodecFormat::Jp2));
    assert_eq!(codec_format_for_arg("container"), Ok(CodecFormat::Jp2));
}

#[test]
fn unknown_format_message_is_lower_cased() {
    assert_eq!(
        codec_format_for_arg("PNG"),
        Err("ERROR: Unknown format 'png'; use 'jp2' or 'j2k'".to_string())
    );
    assert_eq!(
        codec_format_from_lower("tiff"),
        Err("ERROR: Unknown format 'tiff'; use 'jp2' or 'j2k'".to_string())
    );
}

#[test]
fn quality_range_by_bits() {
    for (q, ok) in [
        (0.0f32, true),
        (-0.0f32, true),
        (100.0f32, true),
        (50.5f32, true),
        (1e-40f32, true),
        (100.00001f32, false),
        (-1.0f32, false),
        (-1e-40f32, false),
        (f32::NAN, false),
        (f32::INFINITY, false),
    ] {
        assert_eq!(quality_in_range(q.to_bits()), ok, "{}", q);
        assert_eq!(quality_in_range(q.to_bits()), (0.0..=100.0).contains(&q));
    }
}

#[test]
fn tester_usage_text() {
    assert_eq!(
        quality_tester_usage("qt"),
        "Usage: qt <input.png> <output_dir>\n  input.png: Input image file (PNG, JPEG, etc. - any format supported by the `image` crate)\n  output_dir: Directory where output JP2 files will be saved"
    );
}

#[test]
fn tester_arguments() {
    assert_eq!(
        check_quality_tester_args(&args(&["qt", "a.png", "out"])),
        Ok(("a.png".to_string(), "out".to_string()))
    );
    assert_eq!(check_quality_tester_args(&args(&["qt", "a.png"])), Err(quality_tester_usage("qt")));
    assert_eq!(
        check_quality_tester_args(&args(&["qt", "a", "b", "c"])),
        Err(quality_tester_usage("qt"))
    );
}

#[test]
fn levels_and_file_names() {
    assert_eq!(quality_levels(), vec![20, 30, 40, 50, 60, 75, 80, 85, 90, 95]);
    assert_eq!(quality_file_name(20), "quality_020.jp2");
    assert_eq!(quality_file_name(5), "quality_005.jp2");
    assert_eq!(quality_file_name(0), "quality_000.jp2");
    assert_eq!(quality_file_name(100), "quality_100.jp2");
    assert_eq!(quality_file_name(1234), "quality_1234.jp2");
    let names: std::collections::HashSet<String> =
        quality_levels().into_iter().map(quality_file_name).collect();
    assert_eq!(names.len(), 10);
    for q in [0u32, 7, 42, 99, 100, 999, 1000, 4294967295] {
        assert_eq!(quality_file_name(q), format!("quality_{:03}.jp2", q));
    }
}
