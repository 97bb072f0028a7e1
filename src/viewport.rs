use vstd::prelude::*;
use vstd::arithmetic::div_mod::{lemma_div_is_ordered, lemma_div_multiples_vanish, lemma_fundamental_div_mod};

verus! {

/// Viewport coordinates are fixed-point numbers counted in millionths of a
/// pixel: `VIEWPORT_UNIT` stands for one pixel.
pub const VIEWPORT_UNIT: u64 = 1_000_000;

/// A rectangle of the target surface, in millionths of a pixel.
#[derive(Clone, Copy, Debug, PartialEq, Eq, Structural)]
pub struct Viewport {
    pub x: u64,
    pub y: u64,
    pub width: u64,
    pub height: u64,
}

impl Viewport {
    /// The rectangle as `(x, y, width, height)`.
    pub open spec fn rect(self) -> (int, int, int, int) {
        (self.x as int, self.y as int, self.width as int, self.height as int)
    }
}

/// The whole of a surface of `surface_size` pixels.
pub open spec fn full_surface(surface_size: (u32, u32)) -> Viewport {
    Viewport {
        x: 0,
        y: 0,
        width: (surface_size.0 * VIEWPORT_UNIT) as u64,
        height: (surface_size.1 * VIEWPORT_UNIT) as u64,
    }
}

/// The whole of a surface of `surface_size` pixels.
pub fn full_surface_viewport(surface_size: (u32, u32)) -> (r: Viewport)
    ensures
        r == full_surface(surface_size),
{
    proof {
        lemma_product_bound(surface_size.0 as int, VIEWPORT_UNIT as int, u32::MAX as int, VIEWPORT_UNIT as int);
        lemma_product_bound(surface_size.1 as int, VIEWPORT_UNIT as int, u32::MAX as int, VIEWPORT_UNIT as int);
    }
    Viewport {
        x: 0,
        y: 0,
        width: surface_size.0 as u64 * VIEWPORT_UNIT,
        height: surface_size.1 as u64 * VIEWPORT_UNIT,
    }
}

/// The letterboxed rectangle for an image of `iw` by `ih` pixels on a surface
/// of `sw` by `sh` (the surface and the result in one unit, the image in
/// another): the image is scaled by the smaller of the two ratios `sw / iw`
/// and `sh / ih`, so that it fills one axis of the surface, and is centred on
/// the other. Sizes are rounded down to whole units. An image without pixels
/// gets an empty rectangle.
pub open spec fn letterbox(sw: int, sh: int, iw: int, ih: int) -> (int, int, int, int) {
    if iw == 0 || ih == 0 {
        (0, 0, 0, 0)
    } else if sw * ih <= sh * iw {
        let h = sw * ih / iw;
        (0, (sh - h) / 2, sw, h)
    } else {
        let w = sh * iw / ih;
        ((sw - w) / 2, 0, w, sh)
    }
}

proof fn lemma_scaled_side(a: int, b: int, c: int, d: int)
    requires
        a >= 0,
        b >= 0,
        c > 0,
        d >= 0,
        a * b <= d * c,
    ensures
        0 <= a * b / c <= d,
        0 <= a * b - (a * b / c) * c < c,
{
    assert(a * b >= 0) by (nonlinear_arith)
        requires
            a >= 0,
            b >= 0,
    ;
    lemma_div_is_ordered(a * b, d * c, c);
    lemma_div_multiples_vanish(d, c);
    assert(d * c == c * d) by (nonlinear_arith);
    lemma_fundamental_div_mod(a * b, c);
    assert(0 <= a * b / c) by (nonlinear_arith)
        requires
            a * b >= 0,
            c > 0,
    ;
    assert((a * b / c) * c == c * (a * b / c)) by (nonlinear_arith);
}

proof fn lemma_product_bound(a: int, b: int, a_max: int, b_max: int)
    requires
        0 <= a <= a_max,
        0 <= b <= b_max,
    ensures
        0 <= a * b <= a_max * b_max,
{
    assert(0 <= a * b <= a_max * b_max) by (nonlinear_arith)
        requires
            0 <= a <= a_max,
            0 <= b <= b_max,
    ;
}

/// The viewport, in millionths of a pixel, that shows an image of `image`
/// pixels letterboxed on a surface of `surface` pixels.
pub fn fit_viewport(surface: (u32, u32), image: (u32, u32)) -> (r: Viewport)
    ensures
        r.rect() == letterbox(
            surface.0 * VIEWPORT_UNIT,
            surface.1 * VIEWPORT_UNIT,
            image.0 as int,
            image.1 as int,
        ),
{
    let (iw, ih) = image;
    if iw == 0 || ih == 0 {
        return Viewport { x: 0, y: 0, width: 0, height: 0 };
    }
    proof {
        lemma_product_bound(surface.0 as int, VIEWPORT_UNIT as int, u32::MAX as int, VIEWPORT_UNIT as int);
        lemma_product_bound(surface.1 as int, VIEWPORT_UNIT as int, u32::MAX as int, VIEWPORT_UNIT as int);
    }
    let sw: u64 = surface.0 as u64 * VIEWPORT_UNIT;
    let sh: u64 = surface.1 as u64 * VIEWPORT_UNIT;
    proof {
        lemma_product_bound(sw as int, ih as int, u64::MAX as int, u32::MAX as int);
        lemma_product_bound(sh as int, iw as int, u64::MAX as int, u32::MAX as int);
        assert(u64::MAX * u32::MAX <= u128::MAX) by (nonlinear_arith);
    }
    let wide: u128 = sw as u128 * ih as u128;
    let tall: u128 = sh as u128 * iw as u128;
    if wide <= tall {
        proof {
            lemma_scaled_side(sw as int, ih as int, iw as int, sh as int);
        }
        let h = (wide / iw as u128) as u64;
        Viewport { x: 0, y: (sh - h) / 2, width: sw, height: h }
    } else {
        proof {
            lemma_scaled_side(sh as int, iw as int, ih as int, sw as int);
            assert(sh * iw <= sw * ih);
        }
        let w = (tall / ih as u128) as u64;
        Viewport { x: (sw - w) / 2, y: 0, width: w, height: sh }
    }
}

/// The letterboxed rectangle lies inside the surface, fills it along one
/// axis, is centred along the other (the two margins differ by at most one
/// unit), and keeps the image's aspect ratio up to the rounding to whole
/// units: `-ih < width * ih - height * iw < iw`, so `width / height` and
/// `iw / ih` differ by less than `max(iw, ih) / (height * ih)`. With sizes in
/// millionths of a pixel, as `fit_viewport` gives them, that is a relative
/// error of about a millionth of a pixel over the image's height.
pub proof fn lemma_letterbox_fits(sw: int, sh: int, iw: int, ih: int)
    requires
        sw >= 0,
        sh >= 0,
        iw > 0,
        ih > 0,
    ensures
        ({
            let (x, y, w, h) = letterbox(sw, sh, iw, ih);
            &&& 0 <= x && 0 <= y && 0 <= w && 0 <= h
            &&& x + w <= sw && y + h <= sh
            &&& (x == 0 && w == sw) || (y == 0 && h == sh)
            &&& 0 <= (sw - (x + w)) - x <= 1
            &&& 0 <= (sh - (y + h)) - y <= 1
            &&& -ih < w * ih - h * iw < iw
        }),
{
    if sw * ih <= sh * iw {
        lemma_scaled_side(sw, ih, iw, sh);
        assert(sw * ih == ih * sw) by (nonlinear_arith);
    } else {
        lemma_scaled_side(sh, iw, ih, sw);
        assert(sh * iw == iw * sh) by (nonlinear_arith);
    }
}

} // verus!
