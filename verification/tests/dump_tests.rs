use png2jp2::dump::{
    j2k_dump, j2k_dump_image_comp_header, j2k_dump_image_header, opj_j2k_dump_MH_index,
    opj_j2k_dump_MH_info, opj_j2k_dump_tile_info, CodestreamIndex, CodingParams, ImageCompHeader,
    ImageHeader, J2kCodestream, MarkerInfo, StepSize, TileCodingParams, TileCompCodingParams,
    TileIndex, TilePartIndex,
};

fn comp(dx: u32, dy: u32) -> ImageCompHeader {
    ImageCompHeader { dx, dy, prec: 8, sgnd: 0 }
}

fn sample_tccp() -> TileCompCodingParams {
    TileCompCodingParams {
        csty: 1,
        numresolutions: 2,
        cblkw: 6,
        cblkh: 5,
        cblksty: 0,
        qmfbid: 0,
        qntsty: 2,
        stepsizes: vec![
            StepSize { expn: 13, mant: 0 },
            StepSize { expn: 14, mant: 1 },
            StepSize { expn: 14, mant: 2 },
            StepSize { expn: 15, mant: 3 },
            StepSize { expn: 99, mant: 99 },
        ],
        numgbits: 2,
        roishift: -3,
        prcw: vec![15, 14, 99],
        prch: vec![15, 13, 99],
    }
}

fn sample_tcp() -> TileCodingParams {
    TileCodingParams { csty: 0, prg: 0, numlayers: 3, mct: 0, tccps: vec![sample_tccp()] }
}

const SAMPLE_COMP_BLOCK: &str = "\t\t comp 0 {\n\
\t\t\t csty=0x1\n\
\t\t\t numresolutions=2\n\
\t\t\t cblkw=2^6\n\
\t\t\t cblkh=2^5\n\
\t\t\t cblksty=0\n\
\t\t\t qmfbid=0\n\
\t\t\t preccintsize (w,h)=(15,15) (14,13) \n\
\t\t\t qntsty=2\n\
\t\t\t numgbits=2\n\
\t\t\t stepsizes (m,e)=(0,13) (1,14) (2,14) (3,15) \n\
\t\t\t roishift=-3\n\
\t\t }\n";

fn sample_tile_text() -> String {
    format!(
        "\t default tile {{\n\t\t csty=0\n\t\t prg=0\n\t\t numlayers=3\n\t\t mct=0\n{}\t }}\n",
        SAMPLE_COMP_BLOCK
    )
}

fn sample_index() -> CodestreamIndex {
    CodestreamIndex {
        main_head_start: 0,
        main_head_end: 123,
        marknum: 2,
        marker: Some(vec![
            MarkerInfo { type_: 0xff51, pos: 2, len: 41 },
            MarkerInfo { type_: 0, pos: 45, len: -1 },
            MarkerInfo { type_: 0xffff, pos: 0, len: 0 },
        ]),
        nb_of_tiles: 2,
        tile_index: Some(vec![
            TileIndex {
                nb_tps: 1,
                tp_index: Some(vec![TilePartIndex { start_pos: 100, end_header: 120, end_pos: 500 }]),
                marknum: 2,
                marker: Some(vec![
                    MarkerInfo { type_: 0xff90, pos: 100, len: 10 },
                    MarkerInfo { type_: 0, pos: 110, len: 2 },
                ]),
            },
            TileIndex { nb_tps: 0, tp_index: None, marknum: 0, marker: None },
        ]),
    }
}

const SAMPLE_INDEX_TEXT: &str = "Codestream index from main header: {\n\
\t Main header start position=0\n\
\t Main header end position=123\n\
\t Marker list: {\n\
\t\t type=0xff51, pos=2, len=41\n\
\t\t type=0, pos=45, len=-1\n\
\t }\n\
\t Tile index: {\n\
\t\t nb of tile-part in tile [0]=1\n\
\t\t\t tile-part[0]: star_pos=100, end_header=120, end_pos=500.\n\
\t\t type=0xff90, pos=100, len=10\n\
\t\t type=0x0, pos=110, len=2\n\
\t\t nb of tile-part in tile [1]=0\n\
\t }\n\
}\n";

fn sample_codestream(with_image: bool) -> J2kCodestream {
    J2kCodestream {
        private_image: if with_image {
            Some(ImageHeader {
                x0: 0,
                y0: 0,
                x1: 640,
                y1: 480,
                numcomps: 1,
                comps: Some(vec![comp(1, 1)]),
            })
        } else {
            None
        },
        cp: CodingParams {
            tx0: 0,
            ty0: 0,
            tdx: 640,
            tdy: 480,
            tw: 1,
            th: 2,
            tcps: Some(vec![sample_tcp(), sample_tcp()]),
        },
        default_tcp: sample_tcp(),
        cstr_index: sample_index(),
    }
}

const SAMPLE_IMAGE_TEXT: &str = "Image info {\n\
\t x0=0, y0=0\n\
\t x1=640, y1=480\n\
\t numcomps=1\n\
\t\t component 0 {\n\
\t\t dx=1, dy=1\n\
\t\t prec=8\n\
\t\t sgnd=0\n\
\t}\n\
}\n";

#[test]
fn comp_header_plain_form() {
    let mut out = String::new();
    j2k_dump_image_comp_header(&comp(1, 2), 0, &mut out);
    assert_eq!(out, "\t\t dx=1, dy=2\n\t\t prec=8\n\t\t sgnd=0\n");
}

#[test]
fn comp_header_developer_form() {
    let mut out = String::new();
    j2k_dump_image_comp_header(&ImageCompHeader { dx: 4, dy: 1, prec: 12, sgnd: 1 }, 7, &mut out);
    assert_eq!(
        out,
        "[DEV] Dump an image_comp_header struct {\n dx=4, dy=1\n prec=12\n sgnd=1\n}\n"
    );
}

#[test]
fn image_header_lists_each_component() {
    let img = ImageHeader {
        x0: 0,
        y0: 0,
        x1: 640,
        y1: 480,
        numcomps: 2,
        comps: Some(vec![comp(1, 1), comp(2, 2), comp(9, 9)]),
    };
    let mut out = String::from("before\n");
    j2k_dump_image_header(&img, 0, &mut out);
    assert_eq!(
        out,
        "before\nImage info {\n\t x0=0, y0=0\n\t x1=640, y1=480\n\t numcomps=2\n\
\t\t component 0 {\n\t\t dx=1, dy=1\n\t\t prec=8\n\t\t sgnd=0\n\t}\n\
\t\t component 1 {\n\t\t dx=2, dy=2\n\t\t prec=8\n\t\t sgnd=0\n\t}\n}\n"
    );
}

#[test]
fn image_header_developer_form_without_components() {
    let img = ImageHeader { x0: 1, y0: 2, x1: 3, y1: 4, numcomps: 5, comps: None };
    let mut out = String::new();
    j2k_dump_image_header(&img, 1, &mut out);
    assert_eq!(
        out,
        "[DEV] Dump an image_header struct {\n x0=1, y0=2\n x1=3, y1=4\n numcomps=5\n}\n"
    );
}

#[test]
fn tile_info_block() {
    let mut out = String::new();
    opj_j2k_dump_tile_info(&sample_tcp(), 1, &mut out);
    assert_eq!(out, sample_tile_text());
}

#[test]
fn tile_info_hex_fields_and_unknown_order() {
    let mut tccp = sample_tccp();
    tccp.qntsty = 1;
    tccp.csty = 0;
    tccp.cblksty = 0x48;
    let tcp = TileCodingParams { csty: 7, prg: -1, numlayers: 1, mct: 0xff, tccps: vec![tccp] };
    let mut out = String::new();
    opj_j2k_dump_tile_info(&tcp, 1, &mut out);
    assert_eq!(
        out,
        "\t default tile {\n\t\t csty=0x7\n\t\t prg=0xffffffff\n\t\t numlayers=1\n\t\t mct=ff\n\
\t\t comp 0 {\n\
\t\t\t csty=0\n\
\t\t\t numresolutions=2\n\
\t\t\t cblkw=2^6\n\
\t\t\t cblkh=2^5\n\
\t\t\t cblksty=0x48\n\
\t\t\t qmfbid=0\n\
\t\t\t preccintsize (w,h)=(15,15) (14,13) \n\
\t\t\t qntsty=1\n\
\t\t\t numgbits=2\n\
\t\t\t stepsizes (m,e)=(0,13) \n\
\t\t\t roishift=-3\n\
\t\t }\n\t }\n"
    );
}

#[test]
fn tile_info_with_no_components_or_negative_count() {
    let mut out = String::new();
    opj_j2k_dump_tile_info(&sample_tcp(), -4, &mut out);
    assert_eq!(out, "\t default tile {\n\t\t csty=0\n\t\t prg=0\n\t\t numlayers=3\n\t\t mct=0\n\t }\n");
}

#[test]
fn tile_info_progression_order_code() {
    let mut tcp = sample_tcp();
    tcp.prg = 4;
    let mut out = String::new();
    opj_j2k_dump_tile_info(&tcp, 0, &mut out);
    assert!(out.contains("\t\t prg=0x4\n"));
}

#[test]
fn codestream_index_block() {
    let mut out = String::new();
    opj_j2k_dump_MH_index(&sample_index(), &mut out);
    assert_eq!(out, SAMPLE_INDEX_TEXT);
}

#[test]
fn codestream_index_without_tile_parts_has_no_tile_section() {
    let mut idx = sample_index();
    idx.marker = None;
    idx.tile_index = Some(vec![
        TileIndex { nb_tps: 0x8000_0000, tp_index: None, marknum: 0, marker: None },
        TileIndex { nb_tps: 0x8000_0000, tp_index: None, marknum: 0, marker: None },
    ]);
    let mut out = String::new();
    opj_j2k_dump_MH_index(&idx, &mut out);
    assert_eq!(
        out,
        "Codestream index from main header: {\n\t Main header start position=0\n\
\t Main header end position=123\n\t Marker list: {\n\t }\n}\n"
    );
}

#[test]
fn codestream_index_negative_positions() {
    let idx = CodestreamIndex {
        main_head_start: i64::MIN,
        main_head_end: -1,
        marknum: 0,
        marker: None,
        nb_of_tiles: 0,
        tile_index: None,
    };
    let mut out = String::new();
    opj_j2k_dump_MH_index(&idx, &mut out);
    assert_eq!(
        out,
        "Codestream index from main header: {\n\t Main header start position=-9223372036854775808\n\
\t Main header end position=-1\n\t Marker list: {\n\t }\n}\n"
    );
}

#[test]
fn main_header_info_block() {
    let mut out = String::new();
    opj_j2k_dump_MH_info(&sample_codestream(true), &mut out);
    assert_eq!(
        out,
        format!(
            "Codestream info from main header: {{\n\t tx0=0, ty0=0\n\t tdx=640, tdy=480\n\t tw=1, th=2\n{}}}\n",
            sample_tile_text()
        )
    );
}

#[test]
fn main_header_info_without_image() {
    let mut out = String::new();
    opj_j2k_dump_MH_info(&sample_codestream(false), &mut out);
    assert_eq!(
        out,
        "Codestream info from main header: {\n\t tx0=0, ty0=0\n\t tdx=640, tdy=480\n\t tw=1, th=2\n}\n"
    );
}

#[test]
fn dump_rejects_other_kinds_of_flag() {
    for flag in [128, 256, 128 | 1, 256 | 16 | 2] {
        let mut out = String::new();
        j2k_dump(&sample_codestream(true), flag, &mut out);
        assert_eq!(out, "Wrong flag\n");
    }
}

#[test]
fn dump_sections_in_order() {
    let j = sample_codestream(true);
    let mut out = String::new();
    j2k_dump(&j, 1 | 2 | 4 | 8 | 16 | 32, &mut out);
    let expected = format!(
        "{}Codestream info from main header: {{\n\t tx0=0, ty0=0\n\t tdx=640, tdy=480\n\t tw=1, th=2\n{}}}\n{}{}{}",
        SAMPLE_IMAGE_TEXT,
        sample_tile_text(),
        sample_tile_text(),
        sample_tile_text(),
        SAMPLE_INDEX_TEXT
    );
    assert_eq!(out, expected);
}

#[test]
fn dump_equals_its_sections_one_at_a_time() {
    let j = sample_codestream(true);
    let mut whole = String::new();
    j2k_dump(&j, 27, &mut whole);
    let mut parts = String::new();
    for bit in [1, 2, 8, 16] {
        j2k_dump(&j, bit, &mut parts);
    }
    assert_eq!(whole, parts);
}

#[test]
fn dump_without_image_keeps_only_the_index() {
    let j = sample_codestream(false);
    let mut out = String::new();
    j2k_dump(&j, 1 | 2 | 8 | 16, &mut out);
    assert_eq!(out, SAMPLE_INDEX_TEXT);
    let mut none = String::new();
    j2k_dump(&j, 4 | 32, &mut none);
    assert_eq!(none, "");
}

#[test]
fn dump_tiles_count_wraps_and_missing_tile_array() {
    let mut j = sample_codestream(true);
    j.cp.tcps = None;
    j.cp.tw = 1;
    j.cp.th = 1;
    let mut out = String::new();
    j2k_dump(&j, 8, &mut out);
    assert_eq!(out, "");
    let mut j2 = sample_codestream(true);
    j2.cp.tw = 0x10000;
    j2.cp.th = 0x10000;
    let mut out2 = String::new();
    j2k_dump(&j2, 8, &mut out2);
    assert_eq!(out2, "");
}

#[test]
fn readiness_checks() {
    let j = sample_codestream(true);
    assert!(j.is_dump_ready(1 | 2 | 8 | 16));
    let mut short = sample_codestream(true);
    short.cstr_index.marknum = 4;
    assert!(!short.is_dump_ready(16));
    assert!(short.is_dump_ready(1 | 2 | 8));
    assert!(short.is_dump_ready(128 | 16));
    let mut few_tiles = sample_codestream(true);
    few_tiles.cp.th = 3;
    assert!(!few_tiles.is_dump_ready(8));
    assert!(few_tiles.is_dump_ready(2));
    let mut bad_comp = sample_tccp();
    bad_comp.numresolutions = 3;
    assert!(!bad_comp.is_dump_ready());
    bad_comp.qntsty = 1;
    bad_comp.numresolutions = 2;
    bad_comp.stepsizes.truncate(1);
    assert!(bad_comp.is_dump_ready());
    let img = ImageHeader { x0: 0, y0: 0, x1: 1, y1: 1, numcomps: 2, comps: Some(vec![comp(1, 1)]) };
    assert!(!img.is_dump_ready());
}
