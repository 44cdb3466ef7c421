use png2jp2::pixels::{
    component_params, create_opj_image_from_image_crate, image_layout, rgb_image_plan,
    split_channels, ColorSpace, ComponentParams, PixelKind,
};

#[test]
fn layouts() {
    assert_eq!(image_layout(PixelKind::Luma8), Ok((1, ColorSpace::Gray)));
    assert_eq!(image_layout(PixelKind::LumaA8), Ok((2, ColorSpace::Gray)));
    assert_eq!(image_layout(PixelKind::Rgb8), Ok((3, ColorSpace::Srgb)));
    assert_eq!(image_layout(PixelKind::Rgba8), Ok((4, ColorSpace::Srgb)));
    assert_eq!(
        image_layout(PixelKind::Other),
        Err("Unsupported image type for OpenJPEG conversion".to_string())
    );
}

#[test]
fn component_parameters() {
    let p = component_params(2, 7, 5, 8);
    let expected =
        ComponentParams { dx: 1, dy: 1, w: 7, h: 5, x0: 0, y0: 0, prec: 8, bpp: 8, sgnd: 0 };
    assert_eq!(p, vec![expected, expected]);
    assert!(component_params(0, 1, 1, 0).is_empty());
}

#[test]
fn split_interleaved_rgb() {
    let pixels: Vec<u8> = vec![1, 2, 3, 4, 5, 6, 250, 251, 255];
    let planes = split_channels(&pixels, 3, 3);
    assert_eq!(planes, vec![vec![1, 4, 250], vec![2, 5, 251], vec![3, 6, 255]]);
}

#[test]
fn split_keeps_every_sample() {
    let pixels: Vec<u8> = (0..=255u8).collect();
    for n in 1..=4usize {
        let np = 256 / n;
        let planes = split_channels(&pixels, n, np);
        for k in 0..n * np {
            assert_eq!(planes[k % n][k / n], pixels[k] as i32);
        }
    }
}

#[test]
fn luma_alpha_plan() {
    let pixels: Vec<u8> = vec![10, 200, 20, 100, 30, 0, 40, 255];
    let plan = create_opj_image_from_image_crate(PixelKind::LumaA8, 2, 2, &pixels).unwrap();
    assert_eq!(plan.color_space, ColorSpace::Gray);
    assert_eq!(plan.planes, vec![vec![10, 20, 30, 40], vec![200, 100, 0, 255]]);
    assert_eq!(plan.comp_params.len(), 2);
    assert_eq!(plan.comp_params[1].bpp, 0);
    assert_eq!(plan.comp_params[1].w, 2);
}

#[test]
fn unsupported_plan() {
    let r = create_opj_image_from_image_crate(PixelKind::Other, 2, 2, &vec![0; 24]);
    assert_eq!(r.unwrap_err(), "Unsupported image type for OpenJPEG conversion");
}

#[test]
fn rgb_plan() {
    let pixels: Vec<u8> = vec![1, 2, 3, 4, 5, 6];
    let plan = rgb_image_plan(2, 1, &pixels);
    assert_eq!(plan.color_space, ColorSpace::Srgb);
    assert_eq!(plan.planes, vec![vec![1, 4], vec![2, 5], vec![3, 6]]);
    assert_eq!(plan.comp_params[0].bpp, 8);
    assert_eq!(plan.comp_params[2].prec, 8);
}
