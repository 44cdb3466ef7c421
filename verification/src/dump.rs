//! The codestream dump: the text that a JPEG 2000 codestream codec writes about
//! its image header, its main-header coding parameters and its codestream index.
//!
//! The types here hold, as plain values, the fields of the codec's state that
//! the dump reads. A list that the codec keeps behind a pointer that may be
//! null is an `Option<Vec<..>>`; a count that bounds how much of such a list
//! is read is kept beside it, as the codec keeps it.
use vstd::prelude::*;
use vstd::seq_lib::lemma_concat_associative;
use crate::text::{
    alt_hex_text, dec_pair_line, hex_or_zero, push_alt_hex, push_dec_pair_line, push_hex_or_zero,
    dec_line, dec_text, hex0_line, hex_text, int_line, int_text, push_dec, push_dec_line, push_hex,
    push_hex0_line, push_int, push_int_line, twos_complement_32,
};

verus! {

/// Quantization step size of one sub-band.
#[derive(Clone, Copy, Debug)]
pub struct StepSize {
    pub expn: i32,
    pub mant: i32,
}

/// Coding parameters of one component of a tile.
#[derive(Debug)]
pub struct TileCompCodingParams {
    pub csty: u32,
    pub numresolutions: u32,
    pub cblkw: u32,
    pub cblkh: u32,
    pub cblksty: u32,
    pub qmfbid: u32,
    pub qntsty: u32,
    pub stepsizes: Vec<StepSize>,
    pub numgbits: u32,
    pub roishift: i32,
    pub prcw: Vec<u32>,
    pub prch: Vec<u32>,
}

/// Coding parameters of a tile.
#[derive(Debug)]
pub struct TileCodingParams {
    pub csty: u32,
    /// Progression order code (`-1` for unknown, `0..=4` for LRCP..CPRL).
    pub prg: i32,
    pub numlayers: u32,
    pub mct: u32,
    pub tccps: Vec<TileCompCodingParams>,
}

impl TileCompCodingParams {
    /// Number of sub-bands whose step sizes the dump lists: one under scalar
    /// derived quantization (`qntsty == 1`), else three per resolution but the
    /// first, which has one.
    pub open spec fn band_count(&self) -> int {
        if self.qntsty == 1 {
            1
        } else {
            self.numresolutions * 3 - 2
        }
    }

    /// What the dump needs of a component: a precinct size for each
    /// resolution, a step size for each band, and a band count that fits `i32`.
    pub open spec fn dump_ready(&self) -> bool {
        &&& self.numresolutions <= self.prcw@.len()
        &&& self.numresolutions <= self.prch@.len()
        &&& self.numresolutions <= 0x2aaa_aaaa
        &&& self.band_count() <= self.stepsizes@.len()
    }
}

impl TileCodingParams {
    /// What the dump needs of a tile whose image has `numcomps` components.
    pub open spec fn dump_ready(&self, numcomps: int) -> bool {
        &&& numcomps <= self.tccps@.len()
        &&& forall|i: int| 0 <= i < numcomps ==> (#[trigger] self.tccps@[i]).dump_ready()
    }
}

/// `(w,h) ` for each of the first `n` resolutions.
pub open spec fn precinct_sizes_text(c: TileCompCodingParams, n: nat) -> Seq<char>
    decreases n,
{
    if n == 0 {
        Seq::empty()
    } else {
        precinct_sizes_text(c, (n - 1) as nat) + "("@ + dec_text(c.prcw@[n - 1] as nat) + ","@
            + dec_text(c.prch@[n - 1] as nat) + ") "@
    }
}

/// `(m,e) ` for each of the first `n` step sizes.
pub open spec fn step_sizes_text(c: TileCompCodingParams, n: nat) -> Seq<char>
    decreases n,
{
    if n == 0 {
        Seq::empty()
    } else {
        step_sizes_text(c, (n - 1) as nat) + "("@ + int_text(c.stepsizes@[n - 1].mant as int) + ","@
            + int_text(c.stepsizes@[n - 1].expn as int) + ") "@
    }
}

/// The first lines of a component's block: its number and its code-block style.
pub open spec fn tile_comp_head_text(c: TileCompCodingParams, compno: int) -> Seq<char> {
    "\t\t comp "@ + int_text(compno) + " {\n"@
        + hex0_line("\t\t\t csty="@, c.csty as nat)
        + dec_line("\t\t\t numresolutions="@, c.numresolutions as nat)
        + dec_line("\t\t\t cblkw=2^"@, c.cblkw as nat)
        + dec_line("\t\t\t cblkh=2^"@, c.cblkh as nat)
        + hex0_line("\t\t\t cblksty="@, c.cblksty as nat)
        + dec_line("\t\t\t qmfbid="@, c.qmfbid as nat)
}

/// The step sizes listed for a component: none when its band count is not positive.
pub open spec fn tile_comp_steps_text(c: TileCompCodingParams) -> Seq<char> {
    step_sizes_text(c, if c.band_count() > 0 { c.band_count() as nat } else { 0 })
}

/// The last lines of a component's block: precincts, quantization and region of interest.
pub open spec fn tile_comp_tail_text(c: TileCompCodingParams) -> Seq<char> {
    "\t\t\t preccintsize (w,h)="@ + precinct_sizes_text(c, c.numresolutions as nat) + "\n"@
        + dec_line("\t\t\t qntsty="@, c.qntsty as nat)
        + dec_line("\t\t\t numgbits="@, c.numgbits as nat)
        + "\t\t\t stepsizes (m,e)="@ + tile_comp_steps_text(c) + "\n"@
        + int_line("\t\t\t roishift="@, c.roishift as int)
        + "\t\t }\n"@
}

/// The block that the dump writes for component `compno` of a tile.
pub open spec fn tile_comp_text(c: TileCompCodingParams, compno: int) -> Seq<char> {
    tile_comp_head_text(c, compno) + tile_comp_tail_text(c)
}

/// The component blocks of the first `n` components of a tile.
pub open spec fn tile_comps_text(t: TileCodingParams, n: nat) -> Seq<char>
    decreases n,
{
    if n == 0 {
        Seq::empty()
    } else {
        tile_comps_text(t, (n - 1) as nat) + tile_comp_text(t.tccps@[n - 1], n - 1)
    }
}

/// The first lines of a tile's block: its coding style, progression order,
/// number of layers and multiple-component transform.
pub open spec fn tile_head_text(t: TileCodingParams) -> Seq<char> {
    "\t default tile {\n"@
        + hex0_line("\t\t csty="@, t.csty as nat)
        + hex0_line("\t\t prg="@, twos_complement_32(t.prg as int))
        + dec_line("\t\t numlayers="@, t.numlayers as nat)
        + "\t\t mct="@ + hex_text(t.mct as nat) + "\n"@
}

/// The block that the dump writes for a tile of an image of `numcomps` components.
pub open spec fn tile_info_text(t: TileCodingParams, numcomps: int) -> Seq<char> {
    tile_head_text(t)
        + tile_comps_text(t, if numcomps > 0 { numcomps as nat } else { 0 })
        + "\t }\n"@
}

/// Appends the precinct sizes of the first `c.numresolutions` resolutions.
fn push_precinct_sizes(out: &mut String, c: &TileCompCodingParams)
    requires
        c.dump_ready(),
    ensures
        final(out)@ == old(out)@ + precinct_sizes_text(*c, c.numresolutions as nat),
{
    let mut resno: u32 = 0;
    while resno < c.numresolutions
        invariant
            c.dump_ready(),
            resno <= c.numresolutions,
            out@ == old(out)@ + precinct_sizes_text(*c, resno as nat),
        decreases c.numresolutions - resno,
    {
        out.append("(");
        push_dec(out, c.prcw[resno as usize] as u64);
        out.append(",");
        push_dec(out, c.prch[resno as usize] as u64);
        out.append(") ");
        resno = resno + 1;
        proof {
            assert(out@ =~= old(out)@ + precinct_sizes_text(*c, resno as nat));
        }
    }
}

/// Appends the first `numbands` step sizes.
fn push_step_sizes(out: &mut String, c: &TileCompCodingParams, numbands: i32)
    requires
        c.dump_ready(),
        numbands == c.band_count(),
    ensures
        final(out)@ == old(out)@ + step_sizes_text(
            *c,
            if numbands > 0 { numbands as nat } else { 0 },
        ),
{
    let mut bandno: i32 = 0;
    while bandno < numbands
        invariant
            c.dump_ready(),
            numbands == c.band_count(),
            0 <= bandno,
            numbands > 0 ==> bandno <= numbands,
            numbands <= 0 ==> bandno == 0,
            out@ == old(out)@ + step_sizes_text(*c, bandno as nat),
        decreases numbands - bandno,
    {
        let s = c.stepsizes[bandno as usize];
        out.append("(");
        push_int(out, s.mant as i64);
        out.append(",");
        push_int(out, s.expn as i64);
        out.append(") ");
        bandno = bandno + 1;
        proof {
            assert(out@ =~= old(out)@ + step_sizes_text(*c, bandno as nat));
        }
    }
}

/// Appends the first lines of the block of component `compno` of a tile.
fn push_tile_comp_head(out: &mut String, c: &TileCompCodingParams, compno: i32)
    ensures
        final(out)@ == old(out)@ + tile_comp_head_text(*c, compno as int),
{
    out.append("\t\t comp ");
    push_int(out, compno as i64);
    out.append(" {\n");
    push_hex0_line(out, "\t\t\t csty=", c.csty as u64);
    push_dec_line(out, "\t\t\t numresolutions=", c.numresolutions as u64);
    push_dec_line(out, "\t\t\t cblkw=2^", c.cblkw as u64);
    push_dec_line(out, "\t\t\t cblkh=2^", c.cblkh as u64);
    push_hex0_line(out, "\t\t\t cblksty=", c.cblksty as u64);
    push_dec_line(out, "\t\t\t qmfbid=", c.qmfbid as u64);
    proof {
        assert(final(out)@ =~= old(out)@ + tile_comp_head_text(*c, compno as int));
    }
}

/// Appends the last lines of the block of a component of a tile.
fn push_tile_comp_tail(out: &mut String, c: &TileCompCodingParams)
    requires
        c.dump_ready(),
    ensures
        final(out)@ == old(out)@ + tile_comp_tail_text(*c),
{
    out.append("\t\t\t preccintsize (w,h)=");
    push_precinct_sizes(out, c);
    out.append("\n");
    push_dec_line(out, "\t\t\t qntsty=", c.qntsty as u64);
    push_dec_line(out, "\t\t\t numgbits=", c.numgbits as u64);
    out.append("\t\t\t stepsizes (m,e)=");
    let numbands: i32 = if c.qntsty == 1 {
        1
    } else {
        let nr: i32 = c.numresolutions as i32;
        assert(nr == c.numresolutions);
        nr * 3 - 2
    };
    push_step_sizes(out, c, numbands);
    out.append("\n");
    push_int_line(out, "\t\t\t roishift=", c.roishift as i64);
    out.append("\t\t }\n");
    proof {
        assert(final(out)@ =~= old(out)@ + tile_comp_tail_text(*c));
    }
}

/// Appends the block of component `compno` of a tile.
fn push_tile_comp(out: &mut String, c: &TileCompCodingParams, compno: i32)
    requires
        c.dump_ready(),
    ensures
        final(out)@ == old(out)@ + tile_comp_text(*c, compno as int),
{
    push_tile_comp_head(out, c, compno);
    push_tile_comp_tail(out, c);
    proof {
        assert(final(out)@ =~= old(out)@ + tile_comp_text(*c, compno as int));
    }
}

/// Appends the block that the dump writes for a tile of an image of `numcomps`
/// components.
pub fn opj_j2k_dump_tile_info(l_default_tile: &TileCodingParams, numcomps: i32, out: &mut String)
    requires
        l_default_tile.dump_ready(numcomps as int),
    ensures
        final(out)@ == old(out)@ + tile_info_text(*l_default_tile, numcomps as int),
{
    let t = l_default_tile;
    out.append("\t default tile {\n");
    push_hex0_line(out, "\t\t csty=", t.csty as u64);
    let prg: i32 = t.prg;
    let prg_bits: u64 = if prg < 0 {
        (prg as i64 + 0x1_0000_0000i64) as u64
    } else {
        prg as u64
    };
    push_hex0_line(out, "\t\t prg=", prg_bits);
    push_dec_line(out, "\t\t numlayers=", t.numlayers as u64);
    out.append("\t\t mct=");
    push_hex(out, t.mct as u64);
    out.append("\n");
    let ghost head = out@;
    proof {
        assert(head =~= old(out)@ + tile_head_text(*t));
        assert(tile_comps_text(*t, 0) =~= Seq::<char>::empty());
        assert(head =~= head + tile_comps_text(*t, 0));
    }
    let mut compno: i32 = 0;
    while compno < numcomps
        invariant
            t.dump_ready(numcomps as int),
            0 <= compno,
            numcomps > 0 ==> compno <= numcomps,
            numcomps <= 0 ==> compno == 0,
            out@ == head + tile_comps_text(*t, compno as nat),
        decreases numcomps - compno,
    {
        assert(t.tccps@[compno as int].dump_ready());
        push_tile_comp(out, &t.tccps[compno as usize], compno);
        proof {
            lemma_concat_associative(
                head,
                tile_comps_text(*t, compno as nat),
                tile_comp_text(t.tccps@[compno as int], compno as int),
            );
            assert(tile_comps_text(*t, (compno + 1) as nat) == tile_comps_text(*t, compno as nat)
                + tile_comp_text(t.tccps@[compno as int], compno as int));
        }
        compno = compno + 1;
    }
    out.append("\t }\n");
    proof {
        let comps = tile_comps_text(*t, if numcomps > 0 { numcomps as nat } else { 0 });
        lemma_concat_associative(old(out)@, tile_head_text(*t), comps);
        lemma_concat_associative(old(out)@, tile_head_text(*t) + comps, "\t }\n"@);
    }
}

/// Header fields of one image component that the dump reads.
#[derive(Clone, Copy, Debug)]
pub struct ImageCompHeader {
    pub dx: u32,
    pub dy: u32,
    pub prec: u32,
    pub sgnd: u32,
}

/// Header fields of an image that the dump reads.
#[derive(Debug)]
pub struct ImageHeader {
    pub x0: u32,
    pub y0: u32,
    pub x1: u32,
    pub y1: u32,
    pub numcomps: u32,
    /// The component headers; `None` where the image holds no component array.
    pub comps: Option<Vec<ImageCompHeader>>,
}

impl ImageHeader {
    /// What the dump needs of an image header: a component for each of `numcomps`.
    pub open spec fn dump_ready(&self) -> bool {
        self.comps matches Some(v) ==> self.numcomps <= v@.len()
    }
}

/// The indentation of a component header's lines.
pub open spec fn comp_tab(dev: bool) -> Seq<char> {
    if dev {
        ""@
    } else {
        "\t\t"@
    }
}

/// The indentation of an image header's lines.
pub open spec fn image_tab(dev: bool) -> Seq<char> {
    if dev {
        ""@
    } else {
        "\t"@
    }
}

/// What the dump writes for an image component header; `dev` selects the
/// developer form, framed by its own title and closing brace.
pub open spec fn image_comp_header_text(c: ImageCompHeader, dev: bool) -> Seq<char> {
    (if dev { "[DEV] Dump an image_comp_header struct {\n"@ } else { Seq::empty() })
        + comp_tab(dev) + dec_pair_line(" dx="@, c.dx as nat, ", dy="@, c.dy as nat)
        + comp_tab(dev) + dec_line(" prec="@, c.prec as nat)
        + comp_tab(dev) + dec_line(" sgnd="@, c.sgnd as nat)
        + (if dev { "}\n"@ } else { Seq::empty() })
}

/// The block of component `compno` within an image header's dump.
pub open spec fn image_comp_block_text(c: ImageCompHeader, compno: nat, dev: bool) -> Seq<char> {
    image_tab(dev) + "\t component "@ + dec_text(compno) + " {\n"@ + image_comp_header_text(c, dev)
        + image_tab(dev) + "}\n"@
}

/// The component blocks of the first `n` components of an image header.
pub open spec fn image_comps_text(comps: Seq<ImageCompHeader>, n: nat, dev: bool) -> Seq<char>
    decreases n,
{
    if n == 0 {
        Seq::empty()
    } else {
        image_comps_text(comps, (n - 1) as nat, dev) + image_comp_block_text(
            comps[n - 1],
            (n - 1) as nat,
            dev,
        )
    }
}

/// The first lines of what the dump writes for an image header.
pub open spec fn image_header_head_text(img: ImageHeader, dev: bool) -> Seq<char> {
    (if dev { "[DEV] Dump an image_header struct {\n"@ } else { "Image info {\n"@ })
        + image_tab(dev) + dec_pair_line(" x0="@, img.x0 as nat, ", y0="@, img.y0 as nat)
        + image_tab(dev) + dec_pair_line(" x1="@, img.x1 as nat, ", y1="@, img.y1 as nat)
        + image_tab(dev) + dec_line(" numcomps="@, img.numcomps as nat)
}

/// The component blocks of an image header: none where it holds no component array.
pub open spec fn image_comps_part(img: ImageHeader, dev: bool) -> Seq<char> {
    match img.comps {
        Some(v) => image_comps_text(v@, img.numcomps as nat, dev),
        None => Seq::empty(),
    }
}

/// What the dump writes for an image header; `dev` selects the developer form.
pub open spec fn image_header_text(img: ImageHeader, dev: bool) -> Seq<char> {
    image_header_head_text(img, dev) + image_comps_part(img, dev) + "}\n"@
}

/// Appends what the dump writes for an image component header; a nonzero
/// `dev_dump_flag` selects the developer form.
pub fn j2k_dump_image_comp_header(comp_header: &ImageCompHeader, dev_dump_flag: i32, out: &mut String)
    ensures
        final(out)@ == old(out)@ + image_comp_header_text(*comp_header, dev_dump_flag != 0),
{
    let dev = dev_dump_flag != 0;
    let tab = if dev {
        out.append("[DEV] Dump an image_comp_header struct {\n");
        ""
    } else {
        "\t\t"
    };
    out.append(tab);
    push_dec_pair_line(out, " dx=", comp_header.dx as u64, ", dy=", comp_header.dy as u64);
    out.append(tab);
    push_dec_line(out, " prec=", comp_header.prec as u64);
    out.append(tab);
    push_dec_line(out, " sgnd=", comp_header.sgnd as u64);
    if dev {
        out.append("}\n");
    }
    proof {
        assert(final(out)@ =~= old(out)@ + image_comp_header_text(*comp_header, dev));
    }
}

/// Appends the block of component `compno` within an image header's dump.
fn push_image_comp_block(out: &mut String, tab: &str, compno: u32, c: &ImageCompHeader, dev_dump_flag: i32)
    requires
        tab@ == image_tab(dev_dump_flag != 0),
    ensures
        final(out)@ == old(out)@ + image_comp_block_text(*c, compno as nat, dev_dump_flag != 0),
{
    out.append(tab);
    out.append("\t component ");
    push_dec(out, compno as u64);
    out.append(" {\n");
    j2k_dump_image_comp_header(c, dev_dump_flag, out);
    out.append(tab);
    out.append("}\n");
    proof {
        assert(final(out)@ =~= old(out)@ + image_comp_block_text(*c, compno as nat, dev_dump_flag != 0));
    }
}

/// Appends what the dump writes for an image header; a nonzero `dev_dump_flag`
/// selects the developer form.
pub fn j2k_dump_image_header(img_header: &ImageHeader, dev_dump_flag: i32, out: &mut String)
    requires
        img_header.dump_ready(),
    ensures
        final(out)@ == old(out)@ + image_header_text(*img_header, dev_dump_flag != 0),
{
    let dev = dev_dump_flag != 0;
    let tab = if dev {
        out.append("[DEV] Dump an image_header struct {\n");
        ""
    } else {
        out.append("Image info {\n");
        "\t"
    };
    out.append(tab);
    push_dec_pair_line(out, " x0=", img_header.x0 as u64, ", y0=", img_header.y0 as u64);
    out.append(tab);
    push_dec_pair_line(out, " x1=", img_header.x1 as u64, ", y1=", img_header.y1 as u64);
    out.append(tab);
    push_dec_line(out, " numcomps=", img_header.numcomps as u64);
    let ghost head = out@;
    proof {
        assert(head =~= old(out)@ + image_header_head_text(*img_header, dev));
    }
    match &img_header.comps {
        Some(comps) => {
            let mut compno: u32 = 0;
            proof {
                assert(image_comps_text(comps@, 0, dev) =~= Seq::<char>::empty());
                assert(out@ =~= head + image_comps_text(comps@, 0, dev));
            }
            while compno < img_header.numcomps
                invariant
                    img_header.dump_ready(),
                    img_header.comps == Some(*comps),
                    dev == (dev_dump_flag != 0),
                    tab@ == image_tab(dev),
                    compno <= img_header.numcomps,
                    out@ == head + image_comps_text(comps@, compno as nat, dev),
                decreases img_header.numcomps - compno,
            {
                push_image_comp_block(out, tab, compno, &comps[compno as usize], dev_dump_flag);
                proof {
                    let piece = image_comp_block_text(comps@[compno as int], compno as nat, dev);
                    lemma_concat_associative(head, image_comps_text(comps@, compno as nat, dev), piece);
                    assert(image_comps_text(comps@, (compno + 1) as nat, dev) == image_comps_text(
                        comps@,
                        compno as nat,
                        dev,
                    ) + piece);
                }
                compno = compno + 1;
            }
        },
        None => {
            assert(out@ =~= head + Seq::<char>::empty());
        },
    }
    let ghost mid = out@;
    out.append("}\n");
    proof {
        let comps_part = image_comps_part(*img_header, dev);
        assert(mid == old(out)@ + image_header_head_text(*img_header, dev) + comps_part);
        lemma_concat_associative(old(out)@, image_header_head_text(*img_header, dev), comps_part);
        lemma_concat_associative(
            old(out)@,
            image_header_head_text(*img_header, dev) + comps_part,
            "}\n"@,
        );
    }
}

/// Coding parameters of the codestream that the dump reads.
#[derive(Debug)]
pub struct CodingParams {
    pub tx0: u32,
    pub ty0: u32,
    pub tdx: u32,
    pub tdy: u32,
    pub tw: u32,
    pub th: u32,
    /// Coding parameters of each tile; `None` where the codec holds no tile array.
    pub tcps: Option<Vec<TileCodingParams>>,
}

impl CodingParams {
    /// Number of tiles, `th * tw` wrapped to 32 bits as the codec computes it.
    pub open spec fn nb_tiles(&self) -> nat {
        ((self.th * self.tw) % 0x1_0000_0000) as nat
    }

    /// What the dump of every tile needs: tile parameters for each tile, each
    /// ready for an image of `numcomps` components. Without a tile array the
    /// codec steps past the first, missing, tile to memory it does not own, so
    /// then there must be at most one tile.
    pub open spec fn tiles_ready(&self, numcomps: int) -> bool {
        match self.tcps {
            Some(v) => {
                &&& self.nb_tiles() <= v@.len()
                &&& forall|i: int| 0 <= i < self.nb_tiles() ==> (#[trigger] v@[i]).dump_ready(numcomps)
            },
            None => self.nb_tiles() <= 1,
        }
    }
}

/// The blocks of the first `n` tiles.
pub open spec fn tiles_text(tcps: Seq<TileCodingParams>, n: nat, numcomps: int) -> Seq<char>
    decreases n,
{
    if n == 0 {
        Seq::empty()
    } else {
        tiles_text(tcps, (n - 1) as nat, numcomps) + tile_info_text(tcps[n - 1], numcomps)
    }
}

/// What the dump writes for all tiles of the codestream.
pub open spec fn all_tiles_text(cp: CodingParams, numcomps: int) -> Seq<char> {
    match cp.tcps {
        Some(v) => tiles_text(v@, cp.nb_tiles(), numcomps),
        None => Seq::empty(),
    }
}

/// Appends the blocks of all tiles of the codestream.
fn push_all_tiles(out: &mut String, cp: &CodingParams, numcomps: i32)
    requires
        cp.tiles_ready(numcomps as int),
    ensures
        final(out)@ == old(out)@ + all_tiles_text(*cp, numcomps as int),
{
    let nb_tiles: u32 = cp.th.wrapping_mul(cp.tw);
    assert(nb_tiles == cp.nb_tiles()) by {
        assert(nb_tiles == (cp.th * cp.tw) % 0x1_0000_0000);
    }
    match &cp.tcps {
        Some(tcps) => {
            let mut i: u32 = 0;
            proof {
                assert(tiles_text(tcps@, 0, numcomps as int) =~= Seq::<char>::empty());
                assert(out@ =~= old(out)@ + tiles_text(tcps@, 0, numcomps as int));
            }
            while i < nb_tiles
                invariant
                    cp.tiles_ready(numcomps as int),
                    cp.tcps == Some(*tcps),
                    nb_tiles == cp.nb_tiles(),
                    i <= nb_tiles,
                    out@ == old(out)@ + tiles_text(tcps@, i as nat, numcomps as int),
                decreases nb_tiles - i,
            {
                assert(tcps@[i as int].dump_ready(numcomps as int));
                opj_j2k_dump_tile_info(&tcps[i as usize], numcomps, out);
                proof {
                    let piece = tile_info_text(tcps@[i as int], numcomps as int);
                    lemma_concat_associative(old(out)@, tiles_text(tcps@, i as nat, numcomps as int), piece);
                    assert(tiles_text(tcps@, (i + 1) as nat, numcomps as int) == tiles_text(
                        tcps@,
                        i as nat,
                        numcomps as int,
                    ) + piece);
                }
                i = i + 1;
            }
        },
        None => {
            assert(out@ =~= old(out)@ + all_tiles_text(*cp, numcomps as int));
        },
    }
}

/// One marker of a marker list.
#[derive(Clone, Copy, Debug)]
pub struct MarkerInfo {
    pub type_: u16,
    pub pos: i64,
    pub len: i32,
}

/// Position of one tile-part in the codestream.
#[derive(Clone, Copy, Debug)]
pub struct TilePartIndex {
    pub start_pos: i64,
    pub end_header: i64,
    pub end_pos: i64,
}

/// Index of one tile: its tile-parts and its markers.
#[derive(Debug)]
pub struct TileIndex {
    pub nb_tps: u32,
    pub tp_index: Option<Vec<TilePartIndex>>,
    pub marknum: u32,
    pub marker: Option<Vec<MarkerInfo>>,
}

/// Index of the codestream: its main header, its markers and its tiles.
#[derive(Debug)]
pub struct CodestreamIndex {
    pub main_head_start: i64,
    pub main_head_end: i64,
    pub marknum: u32,
    pub marker: Option<Vec<MarkerInfo>>,
    pub nb_of_tiles: u32,
    pub tile_index: Option<Vec<TileIndex>>,
}

impl TileIndex {
    /// What the dump needs of a tile index: an entry for each counted tile-part
    /// and marker, where the list is there.
    pub open spec fn dump_ready(&self) -> bool {
        &&& self.tp_index matches Some(v) ==> self.nb_tps <= v@.len()
        &&& self.marker matches Some(v) ==> self.marknum <= v@.len()
    }
}

impl CodestreamIndex {
    /// What the dump needs of a codestream index: an entry for each counted
    /// marker and tile, where the list is there, and each tile index ready.
    pub open spec fn dump_ready(&self) -> bool {
        &&& self.marker matches Some(v) ==> self.marknum <= v@.len()
        &&& self.tile_index matches Some(t) ==> {
            &&& self.nb_of_tiles <= t@.len()
            &&& forall|i: int| 0 <= i < self.nb_of_tiles ==> (#[trigger] t@[i]).dump_ready()
        }
    }
}

/// A marker line: the marker type as rendered by `type_text`, its position and length.
pub open spec fn marker_line(type_text: Seq<char>, m: MarkerInfo) -> Seq<char> {
    "\t\t type="@ + type_text + ", pos="@ + int_text(m.pos as int) + ", len="@ + int_text(m.len as int)
        + "\n"@
}

/// The main header's marker lines for the first `n` markers; a zero type is
/// written as `0`, any other in `0x` form.
pub open spec fn main_markers_text(markers: Seq<MarkerInfo>, n: nat) -> Seq<char>
    decreases n,
{
    if n == 0 {
        Seq::empty()
    } else {
        main_markers_text(markers, (n - 1) as nat) + marker_line(
            hex_or_zero(markers[n - 1].type_ as nat),
            markers[n - 1],
        )
    }
}

/// A tile's marker lines for the first `n` markers, types always in `0x` form.
pub open spec fn tile_markers_text(markers: Seq<MarkerInfo>, n: nat) -> Seq<char>
    decreases n,
{
    if n == 0 {
        Seq::empty()
    } else {
        tile_markers_text(markers, (n - 1) as nat) + marker_line(
            alt_hex_text(markers[n - 1].type_ as nat),
            markers[n - 1],
        )
    }
}

/// The line of tile-part `p`.
pub open spec fn tile_part_line(p: nat, tp: TilePartIndex) -> Seq<char> {
    "\t\t\t tile-part["@ + dec_text(p) + "]: star_pos="@ + int_text(tp.start_pos as int)
        + ", end_header="@ + int_text(tp.end_header as int) + ", end_pos="@ + int_text(
        tp.end_pos as int,
    ) + ".\n"@
}

/// The lines of the first `n` tile-parts.
pub open spec fn tile_parts_text(parts: Seq<TilePartIndex>, n: nat) -> Seq<char>
    decreases n,
{
    if n == 0 {
        Seq::empty()
    } else {
        tile_parts_text(parts, (n - 1) as nat) + tile_part_line((n - 1) as nat, parts[n - 1])
    }
}

/// The block of tile `k` of the tile index.
pub open spec fn tile_index_block_text(k: nat, t: TileIndex) -> Seq<char> {
    "\t\t nb of tile-part in tile ["@ + dec_text(k) + "]="@ + dec_text(t.nb_tps as nat) + "\n"@
        + (match t.tp_index {
        Some(v) => tile_parts_text(v@, t.nb_tps as nat),
        None => Seq::empty(),
    }) + (match t.marker {
        Some(v) => tile_markers_text(v@, t.marknum as nat),
        None => Seq::empty(),
    })
}

/// The blocks of the first `n` tiles of the tile index.
pub open spec fn tile_index_text(tiles: Seq<TileIndex>, n: nat) -> Seq<char>
    decreases n,
{
    if n == 0 {
        Seq::empty()
    } else {
        tile_index_text(tiles, (n - 1) as nat) + tile_index_block_text((n - 1) as nat, tiles[n - 1])
    }
}

/// The total number of tile-parts of the first `n` tiles.
pub open spec fn tile_part_total(tiles: Seq<TileIndex>, n: nat) -> nat
    decreases n,
{
    if n == 0 {
        0
    } else {
        tile_part_total(tiles, (n - 1) as nat) + tiles[n - 1].nb_tps as nat
    }
}

/// The first lines of the codestream index dump: main header positions and marker list.
pub open spec fn mh_index_head_text(idx: CodestreamIndex) -> Seq<char> {
    "Codestream index from main header: {\n"@ + "\t Main header start position="@ + int_text(
        idx.main_head_start as int,
    ) + "\n\t Main header end position="@ + int_text(idx.main_head_end as int) + "\n"@
        + "\t Marker list: {\n"@ + (match idx.marker {
        Some(v) => main_markers_text(v@, idx.marknum as nat),
        None => Seq::empty(),
    }) + "\t }\n"@
}

/// The tile index part of the codestream index dump: written only where the
/// tile index is there and its tile-part count, wrapped to 32 bits, is not zero.
pub open spec fn mh_index_tiles_text(idx: CodestreamIndex) -> Seq<char> {
    match idx.tile_index {
        Some(t) => if tile_part_total(t@, idx.nb_of_tiles as nat) % 0x1_0000_0000 != 0 {
            "\t Tile index: {\n"@ + tile_index_text(t@, idx.nb_of_tiles as nat) + "\t }\n"@
        } else {
            Seq::empty()
        },
        None => Seq::empty(),
    }
}

/// What the dump writes for the codestream index.
pub open spec fn mh_index_text(idx: CodestreamIndex) -> Seq<char> {
    mh_index_head_text(idx) + mh_index_tiles_text(idx) + "}\n"@
}

/// Appends the main header's marker lines for the first `marknum` markers.
fn push_main_markers(out: &mut String, markers: &Vec<MarkerInfo>, marknum: u32)
    requires
        marknum <= markers@.len(),
    ensures
        final(out)@ == old(out)@ + main_markers_text(markers@, marknum as nat),
{
    let mut k: u32 = 0;
    proof {
        assert(out@ =~= old(out)@ + main_markers_text(markers@, 0));
    }
    while k < marknum
        invariant
            marknum <= markers@.len(),
            k <= marknum,
            out@ == old(out)@ + main_markers_text(markers@, k as nat),
        decreases marknum - k,
    {
        let ghost before = out@;
        let m = markers[k as usize];
        out.append("\t\t type=");
        push_hex_or_zero(out, m.type_ as u64);
        out.append(", pos=");
        push_int(out, m.pos);
        out.append(", len=");
        push_int(out, m.len as i64);
        out.append("\n");
        proof {
            let piece = marker_line(hex_or_zero(m.type_ as nat), m);
            assert(out@ =~= before + piece);
            lemma_concat_associative(old(out)@, main_markers_text(markers@, k as nat), piece);
        }
        k = k + 1;
    }
}

/// Appends a tile's marker lines for the first `marknum` markers.
fn push_tile_markers(out: &mut String, markers: &Vec<MarkerInfo>, marknum: u32)
    requires
        marknum <= markers@.len(),
    ensures
        final(out)@ == old(out)@ + tile_markers_text(markers@, marknum as nat),
{
    let mut k: u32 = 0;
    proof {
        assert(out@ =~= old(out)@ + tile_markers_text(markers@, 0));
    }
    while k < marknum
        invariant
            marknum <= markers@.len(),
            k <= marknum,
            out@ == old(out)@ + tile_markers_text(markers@, k as nat),
        decreases marknum - k,
    {
        let ghost before = out@;
        let m = markers[k as usize];
        out.append("\t\t type=");
        push_alt_hex(out, m.type_ as u64);
        out.append(", pos=");
        push_int(out, m.pos);
        out.append(", len=");
        push_int(out, m.len as i64);
        out.append("\n");
        proof {
            let piece = marker_line(alt_hex_text(m.type_ as nat), m);
            assert(out@ =~= before + piece);
            lemma_concat_associative(old(out)@, tile_markers_text(markers@, k as nat), piece);
        }
        k = k + 1;
    }
}

/// Appends the lines of the first `nb_tps` tile-parts.
fn push_tile_parts(out: &mut String, parts: &Vec<TilePartIndex>, nb_tps: u32)
    requires
        nb_tps <= parts@.len(),
    ensures
        final(out)@ == old(out)@ + tile_parts_text(parts@, nb_tps as nat),
{
    let mut p: u32 = 0;
    proof {
        assert(out@ =~= old(out)@ + tile_parts_text(parts@, 0));
    }
    while p < nb_tps
        invariant
            nb_tps <= parts@.len(),
            p <= nb_tps,
            out@ == old(out)@ + tile_parts_text(parts@, p as nat),
        decreases nb_tps - p,
    {
        let ghost before = out@;
        let tp = parts[p as usize];
        out.append("\t\t\t tile-part[");
        push_dec(out, p as u64);
        out.append("]: star_pos=");
        push_int(out, tp.start_pos);
        out.append(", end_header=");
        push_int(out, tp.end_header);
        out.append(", end_pos=");
        push_int(out, tp.end_pos);
        out.append(".\n");
        proof {
            let piece = tile_part_line(p as nat, tp);
            assert(out@ =~= before + piece);
            lemma_concat_associative(old(out)@, tile_parts_text(parts@, p as nat), piece);
        }
        p = p + 1;
    }
}

/// Appends the block of tile `k` of the tile index.
fn push_tile_index_block(out: &mut String, k: u32, t: &TileIndex)
    requires
        t.dump_ready(),
    ensures
        final(out)@ == old(out)@ + tile_index_block_text(k as nat, *t),
{
    out.append("\t\t nb of tile-part in tile [");
    push_dec(out, k as u64);
    out.append("]=");
    push_dec(out, t.nb_tps as u64);
    out.append("\n");
    match &t.tp_index {
        Some(parts) => push_tile_parts(out, parts, t.nb_tps),
        None => {},
    }
    match &t.marker {
        Some(markers) => push_tile_markers(out, markers, t.marknum),
        None => {},
    }
    proof {
        assert(final(out)@ =~= old(out)@ + tile_index_block_text(k as nat, *t));
    }
}

/// Total number of tile-parts of the first `n` tiles, as a 64-bit number.
fn count_tile_parts(tiles: &Vec<TileIndex>, n: u32) -> (total: u64)
    requires
        n <= tiles@.len(),
    ensures
        total == tile_part_total(tiles@, n as nat),
{
    let mut acc: u64 = 0;
    let mut i: u32 = 0;
    while i < n
        invariant
            n <= tiles@.len(),
            i <= n,
            acc == tile_part_total(tiles@, i as nat),
            acc <= i * 0xffff_ffffu64,
        decreases n - i,
    {
        acc = acc + tiles[i as usize].nb_tps as u64;
        i = i + 1;
    }
    acc
}

/// Appends what the dump writes for the codestream index.
pub fn opj_j2k_dump_MH_index(cstr_index: &CodestreamIndex, out: &mut String)
    requires
        cstr_index.dump_ready(),
    ensures
        final(out)@ == old(out)@ + mh_index_text(*cstr_index),
{
    let idx = cstr_index;
    out.append("Codestream index from main header: {\n");
    out.append("\t Main header start position=");
    push_int(out, idx.main_head_start);
    out.append("\n\t Main header end position=");
    push_int(out, idx.main_head_end);
    out.append("\n");
    out.append("\t Marker list: {\n");
    match &idx.marker {
        Some(markers) => push_main_markers(out, markers, idx.marknum),
        None => {},
    }
    out.append("\t }\n");
    let ghost head = out@;
    proof {
        assert(head =~= old(out)@ + mh_index_head_text(*idx));
    }
    match &idx.tile_index {
        Some(tiles) => {
            let total = count_tile_parts(tiles, idx.nb_of_tiles);
            if total % 0x1_0000_0000u64 != 0 {
                out.append("\t Tile index: {\n");
                let ghost start = out@;
                let mut k: u32 = 0;
                proof {
                    assert(out@ =~= start + tile_index_text(tiles@, 0));
                }
                while k < idx.nb_of_tiles
                    invariant
                        idx.dump_ready(),
                        idx.tile_index == Some(*tiles),
                        k <= idx.nb_of_tiles,
                        out@ == start + tile_index_text(tiles@, k as nat),
                    decreases idx.nb_of_tiles - k,
                {
                    assert(tiles@[k as int].dump_ready());
                    push_tile_index_block(out, k, &tiles[k as usize]);
                    proof {
                        let piece = tile_index_block_text(k as nat, tiles@[k as int]);
                        lemma_concat_associative(start, tile_index_text(tiles@, k as nat), piece);
                    }
                    k = k + 1;
                }
                out.append("\t }\n");
                proof {
                    assert(out@ =~= head + mh_index_tiles_text(*idx));
                }
            } else {
                assert(out@ =~= head + mh_index_tiles_text(*idx));
            }
        },
        None => {
            assert(out@ =~= head + mh_index_tiles_text(*idx));
        },
    }
    out.append("}\n");
    proof {
        lemma_concat_associative(old(out)@, mh_index_head_text(*idx), mh_index_tiles_text(*idx));
        lemma_concat_associative(
            old(out)@,
            mh_index_head_text(*idx) + mh_index_tiles_text(*idx),
            "}\n"@,
        );
    }
}

/// The state of a JPEG 2000 codestream codec that the dump reads.
#[derive(Debug)]
pub struct J2kCodestream {
    /// Header of the image being coded; `None` where the codec holds none.
    pub private_image: Option<ImageHeader>,
    pub cp: CodingParams,
    /// Default tile coding parameters read from the main header.
    pub default_tcp: TileCodingParams,
    pub cstr_index: CodestreamIndex,
}

/// The number of components that the dump passes on for tile blocks: the
/// image's component count read as a 32-bit signed number.
pub open spec fn dump_numcomps(img: ImageHeader) -> int {
    (img.numcomps as i32) as int
}

/// What the dump writes for the coding parameters of the main header.
pub open spec fn mh_info_text(j: J2kCodestream) -> Seq<char> {
    "Codestream info from main header: {\n"@ + dec_pair_line(
        "\t tx0="@,
        j.cp.tx0 as nat,
        ", ty0="@,
        j.cp.ty0 as nat,
    ) + dec_pair_line("\t tdx="@, j.cp.tdx as nat, ", tdy="@, j.cp.tdy as nat) + dec_pair_line(
        "\t tw="@,
        j.cp.tw as nat,
        ", th="@,
        j.cp.th as nat,
    ) + (match j.private_image {
        Some(img) => tile_info_text(j.default_tcp, dump_numcomps(img)),
        None => Seq::empty(),
    }) + "}\n"@
}

/// Whether a dump flag asks for something that a codestream cannot give
/// (bits 128 and 256 belong to other kinds of dump).
pub open spec fn wrong_flag(flag: i32) -> bool {
    flag & 128 != 0 || flag & 256 != 0
}

impl J2kCodestream {
    /// What the main header info dump needs: a default tile ready for the image.
    pub open spec fn mh_info_ready(&self) -> bool {
        match self.private_image {
            Some(img) => self.default_tcp.dump_ready(dump_numcomps(img)),
            None => true,
        }
    }

    /// What a dump with `flag` needs of the codec, section by section.
    pub open spec fn dump_ready(&self, flag: i32) -> bool {
        !wrong_flag(flag) ==> {
            &&& flag & 1 != 0 ==> (match self.private_image {
                Some(img) => img.dump_ready(),
                None => true,
            })
            &&& flag & 2 != 0 ==> self.mh_info_ready()
            &&& flag & 8 != 0 ==> (match self.private_image {
                Some(img) => self.cp.tiles_ready(dump_numcomps(img)),
                None => true,
            })
            &&& flag & 16 != 0 ==> self.cstr_index.dump_ready()
        }
    }
}

/// The image header section of a dump with `flag` (bit 1).
pub open spec fn image_section_text(j: J2kCodestream, flag: i32) -> Seq<char> {
    match j.private_image {
        Some(img) => if flag & 1 != 0 { image_header_text(img, false) } else { Seq::empty() },
        None => Seq::empty(),
    }
}

/// The main header info section of a dump with `flag` (bit 2).
pub open spec fn mh_info_section_text(j: J2kCodestream, flag: i32) -> Seq<char> {
    if flag & 2 != 0 && j.private_image is Some {
        mh_info_text(j)
    } else {
        Seq::empty()
    }
}

/// The tiles section of a dump with `flag` (bit 8).
pub open spec fn tiles_section_text(j: J2kCodestream, flag: i32) -> Seq<char> {
    match j.private_image {
        Some(img) => if flag & 8 != 0 { all_tiles_text(j.cp, dump_numcomps(img)) } else { Seq::empty() },
        None => Seq::empty(),
    }
}

/// The codestream index section of a dump with `flag` (bit 16).
pub open spec fn index_section_text(j: J2kCodestream, flag: i32) -> Seq<char> {
    if flag & 16 != 0 {
        mh_index_text(j.cstr_index)
    } else {
        Seq::empty()
    }
}

/// What the dump writes for a codestream and a flag: `Wrong flag` for a flag
/// with bit 128 or 256, else the sections that the flag's bits ask for, in the
/// order image header (1), main header info (2), tiles (8), codestream index (16).
/// Bits 4 and 32 ask for nothing.
pub open spec fn j2k_dump_text(j: J2kCodestream, flag: i32) -> Seq<char> {
    if wrong_flag(flag) {
        "Wrong flag\n"@
    } else {
        image_section_text(j, flag) + mh_info_section_text(j, flag) + tiles_section_text(j, flag)
            + index_section_text(j, flag)
    }
}

/// Appends what the dump writes for the coding parameters of the main header.
pub fn opj_j2k_dump_MH_info(p_j2k: &J2kCodestream, out: &mut String)
    requires
        p_j2k.mh_info_ready(),
    ensures
        final(out)@ == old(out)@ + mh_info_text(*p_j2k),
{
    out.append("Codestream info from main header: {\n");
    push_dec_pair_line(out, "\t tx0=", p_j2k.cp.tx0 as u64, ", ty0=", p_j2k.cp.ty0 as u64);
    push_dec_pair_line(out, "\t tdx=", p_j2k.cp.tdx as u64, ", tdy=", p_j2k.cp.tdy as u64);
    push_dec_pair_line(out, "\t tw=", p_j2k.cp.tw as u64, ", th=", p_j2k.cp.th as u64);
    match &p_j2k.private_image {
        Some(img) => {
            let numcomps: i32 = img.numcomps as i32;
            opj_j2k_dump_tile_info(&p_j2k.default_tcp, numcomps, out);
        },
        None => {},
    }
    out.append("}\n");
    proof {
        assert(final(out)@ =~= old(out)@ + mh_info_text(*p_j2k));
    }
}

/// Appends what the dump writes for a codestream and a flag (see [`j2k_dump_text`]).
pub fn j2k_dump(p_j2k: &J2kCodestream, flag: i32, out: &mut String)
    requires
        p_j2k.dump_ready(flag),
    ensures
        final(out)@ == old(out)@ + j2k_dump_text(*p_j2k, flag),
{
    if flag & 128i32 != 0 || flag & 256i32 != 0 {
        out.append("Wrong flag\n");
        return;
    }
    let ghost s0 = out@;
    if flag & 1i32 != 0 {
        match &p_j2k.private_image {
            Some(img) => j2k_dump_image_header(img, 0, out),
            None => {},
        }
    }
    let ghost s1 = out@;
    assert(s1 == s0 + image_section_text(*p_j2k, flag));
    if flag & 2i32 != 0 {
        match &p_j2k.private_image {
            Some(img) => opj_j2k_dump_MH_info(p_j2k, out),
            None => {},
        }
    }
    let ghost s2 = out@;
    assert(s2 == s1 + mh_info_section_text(*p_j2k, flag));
    if flag & 8i32 != 0 {
        match &p_j2k.private_image {
            Some(img) => {
                let numcomps: i32 = img.numcomps as i32;
                push_all_tiles(out, &p_j2k.cp, numcomps);
            },
            None => {},
        }
    }
    let ghost s3 = out@;
    assert(s3 == s2 + tiles_section_text(*p_j2k, flag));
    if flag & 16i32 != 0 {
        opj_j2k_dump_MH_index(&p_j2k.cstr_index, out);
    }
    proof {
        let a = image_section_text(*p_j2k, flag);
        let b = mh_info_section_text(*p_j2k, flag);
        let c = tiles_section_text(*p_j2k, flag);
        let d = index_section_text(*p_j2k, flag);
        assert(out@ == s3 + d);
        lemma_concat_associative(s0, a, b);
        lemma_concat_associative(s0, a + b, c);
        lemma_concat_associative(s0, a + b + c, d);
    }
}

impl TileCompCodingParams {
    /// Whether the component is ready for the dump (see [`TileCompCodingParams::dump_ready`]).
    pub fn is_dump_ready(&self) -> (r: bool)
        ensures
            r == self.dump_ready(),
    {
        let n = self.numresolutions;
        if n as usize > self.prcw.len() || n as usize > self.prch.len() || n > 0x2aaa_aaaa {
            return false;
        }
        let bands: u64 = if self.qntsty == 1 {
            1
        } else if n == 0 {
            0
        } else {
            n as u64 * 3 - 2
        };
        bands <= self.stepsizes.len() as u64
    }
}

impl TileCodingParams {
    /// Whether the tile is ready for a dump with `numcomps` components.
    pub fn is_dump_ready(&self, numcomps: i32) -> (r: bool)
        ensures
            r == self.dump_ready(numcomps as int),
    {
        if numcomps <= 0 {
            return true;
        }
        if numcomps as usize > self.tccps.len() {
            return false;
        }
        let mut i: usize = 0;
        while i < numcomps as usize
            invariant
                0 < numcomps <= self.tccps@.len(),
                i <= numcomps,
                forall|k: int| 0 <= k < i ==> (#[trigger] self.tccps@[k]).dump_ready(),
            decreases numcomps - i,
        {
            if !self.tccps[i].is_dump_ready() {
                return false;
            }
            i = i + 1;
        }
        true
    }
}

impl ImageHeader {
    /// Whether the image header is ready for the dump.
    pub fn is_dump_ready(&self) -> (r: bool)
        ensures
            r == self.dump_ready(),
    {
        match &self.comps {
            Some(v) => self.numcomps as usize <= v.len(),
            None => true,
        }
    }
}

impl CodingParams {
    /// Whether every tile is ready for a dump with `numcomps` components.
    pub fn is_tiles_ready(&self, numcomps: i32) -> (r: bool)
        ensures
            r == self.tiles_ready(numcomps as int),
    {
        let nb_tiles: u32 = self.th.wrapping_mul(self.tw);
        assert(nb_tiles == self.nb_tiles());
        match &self.tcps {
            Some(v) => {
                if nb_tiles as usize > v.len() {
                    return false;
                }
                let mut i: usize = 0;
                while i < nb_tiles as usize
                    invariant
                        self.tcps == Some(*v),
                        nb_tiles == self.nb_tiles(),
                        nb_tiles <= v@.len(),
                        i <= nb_tiles,
                        forall|k: int| 0 <= k < i ==> (#[trigger] v@[k]).dump_ready(numcomps as int),
                    decreases nb_tiles - i,
                {
                    if !v[i].is_dump_ready(numcomps) {
                        return false;
                    }
                    i = i + 1;
                }
                true
            },
            None => nb_tiles <= 1,
        }
    }
}

impl TileIndex {
    /// Whether the tile index is ready for the dump.
    pub fn is_dump_ready(&self) -> (r: bool)
        ensures
            r == self.dump_ready(),
    {
        let parts_ok = match &self.tp_index {
            Some(v) => self.nb_tps as usize <= v.len(),
            None => true,
        };
        let markers_ok = match &self.marker {
            Some(v) => self.marknum as usize <= v.len(),
            None => true,
        };
        parts_ok && markers_ok
    }
}

impl CodestreamIndex {
    /// Whether the codestream index is ready for the dump.
    pub fn is_dump_ready(&self) -> (r: bool)
        ensures
            r == self.dump_ready(),
    {
        match &self.marker {
            Some(v) => {
                if self.marknum as usize > v.len() {
                    return false;
                }
            },
            None => {},
        }
        match &self.tile_index {
            Some(t) => {
                if self.nb_of_tiles as usize > t.len() {
                    return false;
                }
                let mut i: usize = 0;
                while i < self.nb_of_tiles as usize
                    invariant
                        self.tile_index == Some(*t),
                        self.nb_of_tiles <= t@.len(),
                        i <= self.nb_of_tiles,
                        forall|k: int| 0 <= k < i ==> (#[trigger] t@[k]).dump_ready(),
                    decreases self.nb_of_tiles - i,
                {
                    if !t[i].is_dump_ready() {
                        return false;
                    }
                    i = i + 1;
                }
                true
            },
            None => true,
        }
    }
}

impl J2kCodestream {
    /// Whether the codec is ready for a dump with `flag` (see [`J2kCodestream::dump_ready`]).
    pub fn is_dump_ready(&self, flag: i32) -> (r: bool)
        ensures
            r == self.dump_ready(flag),
    {
        if flag & 128i32 != 0 || flag & 256i32 != 0 {
            return true;
        }
        if let Some(img) = &self.private_image {
            let numcomps: i32 = img.numcomps as i32;
            if flag & 1i32 != 0 && !img.is_dump_ready() {
                return false;
            }
            if flag & 2i32 != 0 && !self.default_tcp.is_dump_ready(numcomps) {
                return false;
            }
            if flag & 8i32 != 0 && !self.cp.is_tiles_ready(numcomps) {
                return false;
            }
        }
        if flag & 16i32 != 0 && !self.cstr_index.is_dump_ready() {
            return false;
        }
        true
    }
}

/// The sections of a dump are independent of each other: for a flag without
/// bits 128 and 256, the dump is the dumps asked for by its bits 1, 2, 8 and 16
/// one at a time, in that order; no other bit changes it.
pub proof fn lemma_dump_sections_compose(j: J2kCodestream, flag: i32)
    requires
        !wrong_flag(flag),
    ensures
        j2k_dump_text(j, flag) == j2k_dump_text(j, flag & 1) + j2k_dump_text(j, flag & 2)
            + j2k_dump_text(j, flag & 8) + j2k_dump_text(j, flag & 16),
{
    let b1 = flag & 1;
    let b2 = flag & 2;
    let b8 = flag & 8;
    let b16 = flag & 16;
    assert(b1 & 128 == 0 && b1 & 256 == 0 && b1 & 1 == b1 && b1 & 2 == 0 && b1 & 8 == 0 && b1 & 16
        == 0) by (bit_vector)
        requires
            b1 == flag & 1,
    ;
    assert(b2 & 128 == 0 && b2 & 256 == 0 && b2 & 1 == 0 && b2 & 2 == b2 && b2 & 8 == 0 && b2 & 16
        == 0) by (bit_vector)
        requires
            b2 == flag & 2,
    ;
    assert(b8 & 128 == 0 && b8 & 256 == 0 && b8 & 1 == 0 && b8 & 2 == 0 && b8 & 8 == b8 && b8 & 16
        == 0) by (bit_vector)
        requires
            b8 == flag & 8,
    ;
    assert(b16 & 128 == 0 && b16 & 256 == 0 && b16 & 1 == 0 && b16 & 2 == 0 && b16 & 8 == 0 && b16
        & 16 == b16) by (bit_vector)
        requires
            b16 == flag & 16,
    ;
    assert((b1 != 0) == (flag & 1 != 0) && (b2 != 0) == (flag & 2 != 0) && (b8 != 0) == (flag & 8
        != 0) && (b16 != 0) == (flag & 16 != 0)) by (bit_vector)
        requires
            b1 == flag & 1,
            b2 == flag & 2,
            b8 == flag & 8,
            b16 == flag & 16,
    ;
    assert(j2k_dump_text(j, b1) =~= image_section_text(j, flag));
    assert(j2k_dump_text(j, b2) =~= mh_info_section_text(j, flag));
    assert(j2k_dump_text(j, b8) =~= tiles_section_text(j, flag));
    assert(j2k_dump_text(j, b16) =~= index_section_text(j, flag));
}

/// How many step sizes a component lists: one where quantization is scalar
/// derived (`qntsty == 1`); for any other style (none, scalar expounded) one
/// for the lowest resolution and three for each further one, `3 * numresolutions - 2`.
pub proof fn lemma_band_count_rule(c: TileCompCodingParams)
    ensures
        c.qntsty == 1 ==> c.band_count() == 1,
        c.qntsty != 1 ==> c.band_count() == 3 * (c.numresolutions as int) - 2,
        tile_comp_steps_text(c) == step_sizes_text(
            c,
            if c.qntsty == 1 {
                1
            } else if c.numresolutions == 0 {
                0
            } else {
                (3 * (c.numresolutions as int) - 2) as nat
            },
        ),
{
}

/// The step-size list names entry `k` in its `k`-th pair, as `(mant,expn) `.
pub proof fn lemma_step_size_entry(c: TileCompCodingParams, k: nat)
    ensures
        step_sizes_text(c, 0) == Seq::<char>::empty(),
        step_sizes_text(c, k + 1) == step_sizes_text(c, k) + "("@ + int_text(
            c.stepsizes@[k as int].mant as int,
        ) + ","@ + int_text(c.stepsizes@[k as int].expn as int) + ") "@,
{
}

/// The precinct list names resolution `k` in its `k`-th pair, as `(w,h) `.
pub proof fn lemma_precinct_entry(c: TileCompCodingParams, k: nat)
    ensures
        precinct_sizes_text(c, 0) == Seq::<char>::empty(),
        precinct_sizes_text(c, k + 1) == precinct_sizes_text(c, k) + "("@ + dec_text(
            c.prcw@[k as int] as nat,
        ) + ","@ + dec_text(c.prch@[k as int] as nat) + ") "@,
{
}

/// A tile's component blocks: block `k` is that of component `k`, numbered `k`.
pub proof fn lemma_tile_comp_entry(t: TileCodingParams, k: nat)
    ensures
        tile_comps_text(t, 0) == Seq::<char>::empty(),
        tile_comps_text(t, k + 1) == tile_comps_text(t, k) + tile_comp_text(t.tccps@[k as int], k as int),
{
}

/// The tiles section: block `k` is that of tile `k`.
pub proof fn lemma_tile_entry(tcps: Seq<TileCodingParams>, k: nat, numcomps: int)
    ensures
        tiles_text(tcps, 0, numcomps) == Seq::<char>::empty(),
        tiles_text(tcps, k + 1, numcomps) == tiles_text(tcps, k, numcomps) + tile_info_text(
            tcps[k as int],
            numcomps,
        ),
{
}

/// An image header's component blocks: block `k` is that of component `k`,
/// numbered `k`.
pub proof fn lemma_image_comp_entry(comps: Seq<ImageCompHeader>, k: nat, dev: bool)
    ensures
        image_comps_text(comps, 0, dev) == Seq::<char>::empty(),
        image_comps_text(comps, k + 1, dev) == image_comps_text(comps, k, dev) + image_tab(dev)
            + "\t component "@ + dec_text(k) + " {\n"@ + image_comp_header_text(comps[k as int], dev)
            + image_tab(dev) + "}\n"@,
{
}

/// Line `p` of a tile's tile-part list shows the positions of tile-part `p`.
pub proof fn lemma_tile_part_entry(parts: Seq<TilePartIndex>, p: nat)
    ensures
        tile_parts_text(parts, 0) == Seq::<char>::empty(),
        tile_parts_text(parts, p + 1) == tile_parts_text(parts, p) + "\t\t\t tile-part["@ + dec_text(p)
            + "]: star_pos="@ + int_text(parts[p as int].start_pos as int) + ", end_header="@
            + int_text(parts[p as int].end_header as int) + ", end_pos="@ + int_text(
            parts[p as int].end_pos as int,
        ) + ".\n"@,
{
}

/// Line `k` of the main header's marker list shows marker `k`: its type as
/// `0` when zero and in `0x` form otherwise, its position and its length.
pub proof fn lemma_main_marker_entry(markers: Seq<MarkerInfo>, k: nat)
    ensures
        main_markers_text(markers, 0) == Seq::<char>::empty(),
        main_markers_text(markers, k + 1) == main_markers_text(markers, k) + "\t\t type="@ + (
        if markers[k as int].type_ == 0 {
            seq!['0']
        } else {
            seq!['0', 'x'] + hex_text(markers[k as int].type_ as nat)
        }) + ", pos="@ + int_text(markers[k as int].pos as int) + ", len="@ + int_text(
            markers[k as int].len as int,
        ) + "\n"@,
{
    reveal_with_fuel(crate::text::digits, 1);
}

/// Line `k` of a tile's marker list shows marker `k`: its type always in `0x`
/// form, its position and its length.
pub proof fn lemma_tile_marker_entry(markers: Seq<MarkerInfo>, k: nat)
    ensures
        tile_markers_text(markers, 0) == Seq::<char>::empty(),
        tile_markers_text(markers, k + 1) == tile_markers_text(markers, k) + "\t\t type="@ + seq![
            '0',
            'x',
        ] + hex_text(markers[k as int].type_ as nat) + ", pos="@ + int_text(
            markers[k as int].pos as int,
        ) + ", len="@ + int_text(markers[k as int].len as int) + "\n"@,
{
}

/// Block `k` of the tile index is that of tile `k`: its number and tile-part
/// count, then the lines of its first `nb_tps` tile-parts and of its first
/// `marknum` markers, each where its list is there.
pub proof fn lemma_tile_index_entry(tiles: Seq<TileIndex>, k: nat)
    ensures
        tile_index_text(tiles, 0) == Seq::<char>::empty(),
        tile_index_text(tiles, k + 1) == tile_index_text(tiles, k) + "\t\t nb of tile-part in tile ["@
            + dec_text(k) + "]="@ + dec_text(tiles[k as int].nb_tps as nat) + "\n"@ + (
        match tiles[k as int].tp_index {
            Some(v) => tile_parts_text(v@, tiles[k as int].nb_tps as nat),
            None => Seq::empty(),
        }) + (match tiles[k as int].marker {
            Some(v) => tile_markers_text(v@, tiles[k as int].marknum as nat),
            None => Seq::empty(),
        }),
        tile_part_total(tiles, 0) == 0,
        tile_part_total(tiles, k + 1) == tile_part_total(tiles, k) + tiles[k as int].nb_tps,
{
    assert(tile_index_text(tiles, k + 1) == tile_index_text(tiles, k) + tile_index_block_text(
        k,
        tiles[k as int],
    ));
    assert(tile_part_total(tiles, k + 1) == tile_part_total(tiles, k) + tiles[k as int].nb_tps);
}

/// The tile index section of the codestream index dump is written exactly when
/// the tile index is there and the tile-part count of its tiles, wrapped to
/// 32 bits, is not zero; it frames the blocks of all `nb_of_tiles` tiles.
pub proof fn lemma_tile_index_section(idx: CodestreamIndex)
    ensures
        (idx.tile_index matches Some(t) && tile_part_total(t@, idx.nb_of_tiles as nat) % 0x1_0000_0000
            != 0) ==> mh_index_tiles_text(idx) == "\t Tile index: {\n"@ + tile_index_text(
            idx.tile_index->0@,
            idx.nb_of_tiles as nat,
        ) + "\t }\n"@,
        !(idx.tile_index matches Some(t) && tile_part_total(t@, idx.nb_of_tiles as nat)
            % 0x1_0000_0000 != 0) ==> mh_index_tiles_text(idx) == Seq::<char>::empty(),
{
}

} // verus!
