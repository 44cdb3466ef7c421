//! How an 8-bit interleaved image becomes the components of a JPEG 2000
//! image: the number of components and colour space of each pixel layout, the
//! component parameters, and the split of interleaved samples into planes.
use vstd::prelude::*;

verus! {

/// Pixel layouts of a decoded image.
#[derive(Clone, Copy, Debug, PartialEq, Eq)]
pub enum PixelKind {
    /// 8-bit grey.
    Luma8,
    /// 8-bit grey with alpha.
    LumaA8,
    /// 8-bit red, green, blue.
    Rgb8,
    /// 8-bit red, green, blue, alpha.
    Rgba8,
    /// Any other layout (16-bit or float samples, ...).
    Other,
}

/// Colour spaces that the encoder is told about.
#[derive(Clone, Copy, Debug, PartialEq, Eq)]
pub enum ColorSpace {
    Gray,
    Srgb,
}

/// Parameters of one image component, as the codec takes them.
#[derive(Clone, Copy, Debug, PartialEq, Eq)]
pub struct ComponentParams {
    pub dx: u32,
    pub dy: u32,
    pub w: u32,
    pub h: u32,
    pub x0: u32,
    pub y0: u32,
    pub prec: u32,
    pub bpp: u32,
    pub sgnd: u32,
}

/// The number of components and the colour space of a layout, or `None` for
/// a layout that the conversion does not take.
pub open spec fn layout_of(kind: PixelKind) -> Option<(usize, ColorSpace)> {
    match kind {
        PixelKind::Luma8 => Some((1usize, ColorSpace::Gray)),
        PixelKind::LumaA8 => Some((2usize, ColorSpace::Gray)),
        PixelKind::Rgb8 => Some((3usize, ColorSpace::Srgb)),
        PixelKind::Rgba8 => Some((4usize, ColorSpace::Srgb)),
        PixelKind::Other => None,
    }
}

/// The message for a layout that the conversion does not take.
pub open spec fn unsupported_layout_message() -> Seq<char> {
    "Unsupported image type for OpenJPEG conversion"@
}

/// The number of components and the colour space of a pixel layout.
pub fn image_layout(kind: PixelKind) -> (r: Result<(usize, ColorSpace), String>)
    ensures
        layout_of(kind) matches Some(l) ==> r == Ok::<(usize, ColorSpace), String>(l),
        layout_of(kind) is None ==> (r matches Err(m) && m@ == unsupported_layout_message()),
{
    match kind {
        PixelKind::Luma8 => Ok((1, ColorSpace::Gray)),
        PixelKind::LumaA8 => Ok((2, ColorSpace::Gray)),
        PixelKind::Rgb8 => Ok((3, ColorSpace::Srgb)),
        PixelKind::Rgba8 => Ok((4, ColorSpace::Srgb)),
        PixelKind::Other => Err(String::from_str("Unsupported image type for OpenJPEG conversion")),
    }
}

/// The parameters of an unsigned 8-bit, unsubsampled component of a
/// `width` by `height` image at the origin, with `bpp` bits per pixel recorded.
pub open spec fn component_params_of(width: u32, height: u32, bpp: u32) -> ComponentParams {
    ComponentParams { dx: 1, dy: 1, w: width, h: height, x0: 0, y0: 0, prec: 8, bpp, sgnd: 0 }
}

/// `num_comps` copies of [`component_params_of`].
pub fn component_params(num_comps: usize, width: u32, height: u32, bpp: u32) -> (r: Vec<
    ComponentParams,
>)
    ensures
        r@.len() == num_comps,
        forall|c: int| 0 <= c < num_comps ==> r@[c] == component_params_of(width, height, bpp),
{
    let mut v: Vec<ComponentParams> = Vec::new();
    let mut k: usize = 0;
    while k < num_comps
        invariant
            k <= num_comps,
            v@.len() == k,
            forall|c: int| 0 <= c < k ==> v@[c] == component_params_of(width, height, bpp),
        decreases num_comps - k,
    {
        v.push(ComponentParams { dx: 1, dy: 1, w: width, h: height, x0: 0, y0: 0, prec: 8, bpp, sgnd: 0 });
        k = k + 1;
    }
    v
}

proof fn lemma_sample_index(i: int, c: int, n: int, np: int)
    requires
        0 <= i < np,
        0 <= c < n,
    ensures
        0 <= i * n + c < np * n,
        i * n + c == n * i + c,
{
    assert(0 <= i * n + c < np * n) by (nonlinear_arith)
        requires
            0 <= i < np,
            0 <= c < n,
    ;
    assert(i * n == n * i) by (nonlinear_arith);
}

/// Whether `planes` holds, for each of `n` components, the `np` samples of that
/// component taken from the interleaved `pixels` (sample `c` of pixel `i` is
/// `pixels[i * n + c]`).
pub open spec fn planes_of(planes: Seq<Seq<i32>>, pixels: Seq<u8>, n: nat, np: nat) -> bool {
    &&& planes.len() == n
    &&& forall|c: int| 0 <= c < n ==> (#[trigger] planes[c]).len() == np
    &&& forall|c: int, i: int|
        0 <= c < n && 0 <= i < np ==> (#[trigger] planes[c][i]) == pixels[i * n + c] as i32
}

/// Splits `num_pixels` interleaved pixels of `num_comps` 8-bit samples each
/// into one plane of samples per component.
pub fn split_channels(pixels: &Vec<u8>, num_comps: usize, num_pixels: usize) -> (r: Vec<Vec<i32>>)
    requires
        num_comps * num_pixels <= pixels@.len(),
    ensures
        planes_of(r@.map_values(|p: Vec<i32>| p@), pixels@, num_comps as nat, num_pixels as nat),
{
    let total = pixels.len();
    let mut planes: Vec<Vec<i32>> = Vec::new();
    let mut c: usize = 0;
    while c < num_comps
        invariant
            total == pixels@.len(),
            num_comps * num_pixels <= pixels@.len(),
            c <= num_comps,
            planes@.len() == c,
            forall|k: int| 0 <= k < c ==> (#[trigger] planes@[k])@.len() == num_pixels,
            forall|k: int, i: int|
                0 <= k < c && 0 <= i < num_pixels ==> (#[trigger] planes@[k]@[i]) == pixels@[i
                    * num_comps + k] as i32,
        decreases num_comps - c,
    {
        let mut plane: Vec<i32> = Vec::new();
        let mut i: usize = 0;
        while i < num_pixels
            invariant
                total == pixels@.len(),
                num_comps * num_pixels <= pixels@.len(),
                c < num_comps,
                i <= num_pixels,
                plane@.len() == i,
                forall|j: int| 0 <= j < i ==> plane@[j] == pixels@[j * num_comps + c] as i32,
            decreases num_pixels - i,
        {
            proof {
                lemma_sample_index(i as int, c as int, num_comps as int, num_pixels as int);
                assert(num_pixels * num_comps == num_comps * num_pixels) by (nonlinear_arith);
            }
            let idx: usize = i * num_comps + c;
            plane.push(pixels[idx] as i32);
            i = i + 1;
        }
        planes.push(plane);
        c = c + 1;
    }
    let ghost mapped = planes@.map_values(|p: Vec<i32>| p@);
    assert forall|k: int, i: int|
        0 <= k < num_comps && 0 <= i < num_pixels implies (#[trigger] mapped[k][i]) == pixels@[i
        * num_comps + k] as i32 by {
        assert(mapped[k] == planes@[k]@);
    }
    assert forall|k: int| 0 <= k < num_comps implies (#[trigger] mapped[k]).len() == num_pixels by {
        assert(mapped[k] == planes@[k]@);
    }
    planes
}

/// Every sample of the interleaved pixels lands in exactly one place of the
/// planes: sample `k` is sample `k / n` of component `k % n`.
pub proof fn lemma_planes_hold_every_sample(planes: Seq<Seq<i32>>, pixels: Seq<u8>, n: nat, np: nat, k: int)
    requires
        planes_of(planes, pixels, n, np),
        0 <= k < n * np,
    ensures
        planes[k % (n as int)][k / (n as int)] == pixels[k] as i32,
{
    let ni = n as int;
    let npi = np as int;
    assert(ni > 0) by (nonlinear_arith)
        requires
            0 <= k < ni * npi,
            npi >= 0,
            ni >= 0,
    ;
    assert(k == (k / ni) * ni + k % ni && 0 <= k % ni < ni && 0 <= k / ni < npi) by (nonlinear_arith)
        requires
            ni > 0,
            0 <= k < ni * npi,
    ;
    assert(planes[k % ni][k / ni] == pixels[(k / ni) * ni + k % ni] as i32);
}

proof fn lemma_pixel_count_fits(n: int, w: int, h: int, len: int)
    requires
        n >= 1,
        w >= 0,
        h >= 0,
        n * (w * h) <= len,
    ensures
        w * h <= len,
{
    assert(w * h <= n * (w * h)) by (nonlinear_arith)
        requires
            n >= 1,
            w >= 0,
            h >= 0,
    ;
}

/// What the conversion hands to the encoder: the colour space, the parameters
/// of each component and the samples of each component.
#[derive(Debug)]
pub struct ImagePlan {
    pub color_space: ColorSpace,
    pub comp_params: Vec<ComponentParams>,
    pub planes: Vec<Vec<i32>>,
}

impl ImagePlan {
    /// The plan holds `n` components of a `width` by `height` image taken from
    /// `pixels`, each with the parameters of [`component_params_of`].
    pub open spec fn describes(
        &self,
        pixels: Seq<u8>,
        n: nat,
        width: u32,
        height: u32,
        bpp: u32,
    ) -> bool {
        &&& self.comp_params@.len() == n
        &&& forall|c: int| 0 <= c < n ==> self.comp_params@[c] == component_params_of(width, height, bpp)
        &&& planes_of(self.planes@.map_values(|p: Vec<i32>| p@), pixels, n, (width * height) as nat)
    }
}

/// The plan for a decoded 8-bit image of layout `kind`, `width` by `height`,
/// whose interleaved samples are `pixels`; components record no bit depth.
pub fn create_opj_image_from_image_crate(kind: PixelKind, width: u32, height: u32, pixels: &Vec<u8>) -> (r:
    Result<ImagePlan, String>)
    requires
        layout_of(kind) matches Some(l) ==> l.0 * (width * height) <= pixels@.len(),
    ensures
        layout_of(kind) matches Some(l) ==> (r matches Ok(plan) && plan.color_space == l.1
            && plan.describes(pixels@, l.0 as nat, width, height, 0)),
        layout_of(kind) is None ==> (r matches Err(m) && m@ == unsupported_layout_message()),
{
    let (num_comps, color_space) = match image_layout(kind) {
        Ok(l) => l,
        Err(e) => return Err(e),
    };
    let len = pixels.len();
    proof {
        lemma_pixel_count_fits(num_comps as int, width as int, height as int, len as int);
    }
    let num_pixels: usize = width as usize * height as usize;
    let comp_params = component_params(num_comps, width, height, 0);
    let planes = split_channels(pixels, num_comps, num_pixels);
    Ok(ImagePlan { color_space, comp_params, planes })
}

/// The plan for a `width` by `height` image of interleaved 8-bit red, green and
/// blue samples, with 8 bits per pixel recorded in each component.
pub fn rgb_image_plan(width: u32, height: u32, pixels: &Vec<u8>) -> (r: ImagePlan)
    requires
        3 * (width * height) <= pixels@.len(),
    ensures
        r.color_space == ColorSpace::Srgb,
        r.describes(pixels@, 3, width, height, 8),
{
    let len = pixels.len();
    proof {
        lemma_pixel_count_fits(3, width as int, height as int, len as int);
    }
    let num_pixels: usize = width as usize * height as usize;
    let comp_params = component_params(3, width, height, 8);
    let planes = split_channels(pixels, 3, num_pixels);
    ImagePlan { color_space: ColorSpace::Srgb, comp_params, planes }
}

/// Each 8-bit layout gives one component per sample of a pixel (grey 1, grey
/// with alpha 2, RGB 3, RGBA 4), grey layouts in the grey colour space and
/// colour ones in sRGB; every component is an unsigned 8-bit, unsubsampled
/// plane of the whole image at the origin.
pub proof fn lemma_layouts_and_components(width: u32, height: u32, bpp: u32)
    ensures
        layout_of(PixelKind::Luma8) == Some((1usize, ColorSpace::Gray)),
        layout_of(PixelKind::LumaA8) == Some((2usize, ColorSpace::Gray)),
        layout_of(PixelKind::Rgb8) == Some((3usize, ColorSpace::Srgb)),
        layout_of(PixelKind::Rgba8) == Some((4usize, ColorSpace::Srgb)),
        layout_of(PixelKind::Other) is None,
        ({
            let p = component_params_of(width, height, bpp);
            &&& p.dx == 1 && p.dy == 1
            &&& p.w == width && p.h == height
            &&& p.x0 == 0 && p.y0 == 0
            &&& p.prec == 8 && p.sgnd == 0 && p.bpp == bpp
        }),
{
}

} // verus!
