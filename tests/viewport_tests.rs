use gpu_image4::viewport::{fit_viewport, full_surface_viewport, Viewport, VIEWPORT_UNIT};

const U: u64 = VIEWPORT_UNIT;

fn vp(x: u64, y: u64, width: u64, height: u64) -> Viewport {
    Viewport { x, y, width, height }
}

#[test]
fn landscape_image_on_square_surface_fits_width() {
    assert_eq!(fit_viewport((512, 512), (640, 480)), vp(0, 64 * U, 512 * U, 384 * U));
}

#[test]
fn portrait_image_on_square_surface_fits_height() {
    assert_eq!(fit_viewport((512, 512), (480, 640)), vp(64 * U, 0, 384 * U, 512 * U));
}

#[test]
fn same_aspect_fills_the_surface() {
    assert_eq!(fit_viewport((1024, 768), (640, 480)), vp(0, 0, 1024 * U, 768 * U));
    assert_eq!(fit_viewport((512, 512), (512, 512)), vp(0, 0, 512 * U, 512 * U));
}

#[test]
fn sizes_keep_sub_pixel_precision() {
    // 300 x 200 on 101 x 100: width fits, height 67.333333, margins 16.333333 and 16.333334.
    assert_eq!(fit_viewport((101, 100), (300, 200)), vp(0, 16_333_333, 101 * U, 67_333_333));
    // 3 x 1 on 10 x 10: height 3.333333, so the ratio stays 3 to within a millionth.
    assert_eq!(fit_viewport((10, 10), (3, 1)), vp(0, 3_333_333, 10 * U, 3_333_333));
}

#[test]
fn empty_image_gets_empty_viewport() {
    assert_eq!(fit_viewport((512, 512), (0, 480)), vp(0, 0, 0, 0));
    assert_eq!(fit_viewport((512, 512), (640, 0)), vp(0, 0, 0, 0));
}

#[test]
fn full_surface() {
    assert_eq!(full_surface_viewport((300, 200)), vp(0, 0, 300 * U, 200 * U));
}

#[test]
fn letterbox_law_on_many_sizes() {
    let sizes = [(1u32, 1u32), (3, 7), (640, 480), (480, 640), (1920, 1080), (100, 100), (4096, 17)];
    let surfaces = [(512u32, 512u32), (1080, 2340), (2340, 1080), (1, 1), (0, 0), (800, 600)];
    for &(sw, sh) in surfaces.iter() {
        for &(iw, ih) in sizes.iter() {
            let v = fit_viewport((sw, sh), (iw, ih));
            let (x, y, w, h) = (v.x as i128, v.y as i128, v.width as i128, v.height as i128);
            let (sw, sh) = (sw as i128 * U as i128, sh as i128 * U as i128);
            let (iw, ih) = (iw as i128, ih as i128);
            assert!(x + w <= sw && y + h <= sh);
            assert!((x == 0 && w == sw) || (y == 0 && h == sh));
            assert!((0..=1).contains(&((sw - (x + w)) - x)));
            assert!((0..=1).contains(&((sh - (y + h)) - y)));
            let skew = w * ih - h * iw;
            assert!(-ih < skew && skew < iw);
            if h > 0 {
                let ratio = w as f64 / h as f64;
                let image_ratio = iw as f64 / ih as f64;
                assert!((ratio - image_ratio).abs() <= 1e-3 * image_ratio.max(1.0), "{} vs {}", ratio, image_ratio);
            }
        }
    }
}

#[test]
fn huge_sizes_do_not_overflow() {
    let v = fit_viewport((u32::MAX, u32::MAX), (u32::MAX, 1));
    assert_eq!(v, vp(0, (u32::MAX as u64 - 1) / 2 * U, u32::MAX as u64 * U, U));
}
