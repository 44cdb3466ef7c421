use png2jp2::encode::{
    advance, codec_format_for_extension, compress_outcome, setup_outcome, CodecFormat, EncodeStage, StageStep,
};

#[test]
fn extension_formats() {
    assert_eq!(codec_format_for_extension(Some("j2k"), "o.j2k"), Ok(CodecFormat::J2k));
    assert_eq!(codec_format_for_extension(Some("jp2"), "o.jp2"), Ok(CodecFormat::Jp2));
    assert_eq!(
        codec_format_for_extension(Some("J2K"), "o.J2K"),
        Err("Output file extension must be .j2k or .jp2: o.J2K".to_string())
    );
    assert_eq!(
        codec_format_for_extension(None, "dir/out"),
        Err("Output file extension must be .j2k or .jp2: dir/out".to_string())
    );
}

#[test]
fn stages_run_in_order_and_finish() {
    let mut stage = EncodeStage::first();
    let mut seen = vec![stage.name().to_string()];
    loop {
        match advance(stage, 1) {
            StageStep::Run(next) => {
                stage = next;
                seen.push(stage.name().to_string());
            }
            StageStep::Finished => break,
            StageStep::Failed(m) => panic!("{}", m),
        }
    }
    assert_eq!(seen, vec!["setup_encoder", "start_compress", "encode", "end_compress"]);
}

#[test]
fn zero_status_fails_the_step() {
    match advance(EncodeStage::SetupEncoder, 0) {
        StageStep::Failed(m) => assert_eq!(m, "setup_encoder failed"),
        other => panic!("{:?}", other),
    }
    match advance(EncodeStage::EndCompress, 0) {
        StageStep::Failed(m) => assert_eq!(m, "end_compress failed"),
        other => panic!("{:?}", other),
    }
    assert!(matches!(advance(EncodeStage::Encode, -1), StageStep::Run(EncodeStage::EndCompress)));
}

#[test]
fn compress_outcomes() {
    assert_eq!(compress_outcome(1, 1, 1, "a.jp2"), Ok(()));
    assert_eq!(
        compress_outcome(1, 0, 1, "a.jp2"),
        Err("OpenJPEG encoding failed for: a.jp2".to_string())
    );
    assert_eq!(
        compress_outcome(2, 1, 1, "b.j2k"),
        Err("OpenJPEG encoding failed for: b.j2k".to_string())
    );
}

#[test]
fn setup_outcomes() {
    assert_eq!(setup_outcome(1), Ok(()));
    assert_eq!(setup_outcome(-1), Ok(()));
    assert_eq!(setup_outcome(0), Err("Failed to setup OpenJPEG encoder".to_string()));
}
