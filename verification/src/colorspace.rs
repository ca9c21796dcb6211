//! Colorspaces and the table that drives plane sizing.
//!
//! Each colorspace fixes a plane count and, per plane, a horizontal and a
//! vertical scale factor expressed in 256ths of the frame dimension. A plane's
//! byte size is the frame dimensions scaled by those factors and by the bytes
//! per sample. This table is the correctness-critical core of frame
//! allocation: an off-by-factor error silently corrupts every encoded frame.

use vstd::prelude::*;
use vstd::arithmetic::div_mod::{
    lemma_div_multiples_vanish, lemma_div_multiples_vanish_fancy, lemma_fundamental_div_mod,
};
use vstd::arithmetic::mul::{lemma_mul_nonnegative, lemma_mul_upper_bound};

verus! {

/// Largest frame dimension the library accepts; keeps every plane-size
/// computation inside 64 bits.
pub const MAX_DIM: usize = 65536;

/// The closed set of supported pixel formats. Planar YUV formats carry three
/// planes, the semi-planar NV formats two, the packed RGB formats one.
#[derive(Clone, Copy, Debug, PartialEq, Eq, Structural)]
pub enum Colorspace {
    /// 4:2:0 planar, U then V.
    I420,
    /// 4:2:0 planar, V then U.
    YV12,
    /// 4:2:0 semi-planar, interleaved UV.
    NV12,
    /// 4:2:0 semi-planar, interleaved VU.
    NV21,
    /// 4:2:2 planar, U then V.
    I422,
    /// 4:2:2 planar, V then U.
    YV16,
    /// 4:2:2 semi-planar, interleaved UV.
    NV16,
    /// 4:4:4 planar, U then V.
    I444,
    /// 4:4:4 planar, V then U.
    YV24,
    /// Packed blue-green-red, three bytes per pixel.
    Bgr,
    /// Packed blue-green-red-alpha, four bytes per pixel.
    Bgra,
    /// Packed red-green-blue, three bytes per pixel.
    Rgb,
}

/// How many planes a frame of this colorspace carries.
pub open spec fn spec_plane_count(csp: Colorspace) -> int {
    match csp {
        Colorspace::I420 => 3,
        Colorspace::YV12 => 3,
        Colorspace::NV12 => 2,
        Colorspace::NV21 => 2,
        Colorspace::I422 => 3,
        Colorspace::YV16 => 3,
        Colorspace::NV16 => 2,
        Colorspace::I444 => 3,
        Colorspace::YV24 => 3,
        Colorspace::Bgr => 1,
        Colorspace::Bgra => 1,
        Colorspace::Rgb => 1,
    }
}

/// Horizontal scale of plane `i`, in 256ths of the frame width.
pub open spec fn spec_scale_w(csp: Colorspace, i: int) -> int {
    match csp {
        Colorspace::I420 => if i == 0 { 256 } else { 128 },
        Colorspace::YV12 => if i == 0 { 256 } else { 128 },
        Colorspace::NV12 => if i == 2 { 0 } else { 256 },
        Colorspace::NV21 => if i == 2 { 0 } else { 256 },
        Colorspace::I422 => if i == 0 { 256 } else { 128 },
        Colorspace::YV16 => if i == 0 { 256 } else { 128 },
        Colorspace::NV16 => if i == 2 { 0 } else { 256 },
        Colorspace::I444 => 256,
        Colorspace::YV24 => 256,
        Colorspace::Bgr => if i == 0 { 768 } else { 0 },
        Colorspace::Bgra => if i == 0 { 1024 } else { 0 },
        Colorspace::Rgb => if i == 0 { 768 } else { 0 },
    }
}

/// Vertical scale of plane `i`, in 256ths of the frame height.
pub open spec fn spec_scale_h(csp: Colorspace, i: int) -> int {
    match csp {
        Colorspace::I420 => if i == 0 { 256 } else { 128 },
        Colorspace::YV12 => if i == 0 { 256 } else { 128 },
        Colorspace::NV12 => if i == 0 { 256 } else if i == 1 { 128 } else { 0 },
        Colorspace::NV21 => if i == 0 { 256 } else if i == 1 { 128 } else { 0 },
        Colorspace::I422 => 256,
        Colorspace::YV16 => 256,
        Colorspace::NV16 => if i == 2 { 0 } else { 256 },
        Colorspace::I444 => 256,
        Colorspace::YV24 => 256,
        Colorspace::Bgr => if i == 0 { 256 } else { 0 },
        Colorspace::Bgra => if i == 0 { 256 } else { 0 },
        Colorspace::Rgb => if i == 0 { 256 } else { 0 },
    }
}

/// Bytes per sample: one for 8-bit formats, two for high-bit-depth formats.
pub open spec fn spec_bytes_per_sample(high_depth: bool) -> int {
    if high_depth {
        2
    } else {
        1
    }
}

/// Byte size of plane `i` of a `width` by `height` frame: both dimensions are
/// scaled by the plane's factors (in 256ths), and the width additionally by
/// the bytes per sample. The divisions truncate, in this exact order.
pub open spec fn spec_plane_size(
    csp: Colorspace,
    high_depth: bool,
    width: int,
    height: int,
    i: int,
) -> int {
    width * spec_scale_w(csp, i) / 256 * spec_bytes_per_sample(high_depth) * height * spec_scale_h(
        csp,
        i,
    ) / 256
}

/// The byte size of a whole frame: the sum over its planes. Planes past the
/// plane count have zero scales and contribute nothing, so the sum may run
/// over all three slots.
pub open spec fn spec_total_size(csp: Colorspace, high_depth: bool, width: int, height: int) -> int {
    spec_plane_size(csp, high_depth, width, height, 0) + spec_plane_size(
        csp,
        high_depth,
        width,
        height,
        1,
    ) + spec_plane_size(csp, high_depth, width, height, 2)
}

/// Per-plane scale factors of one colorspace, in 256ths.
pub struct ColorspaceScale {
    /// Horizontal factors, one per plane slot.
    pub w: [usize; 3],
    /// Vertical factors, one per plane slot.
    pub h: [usize; 3],
}

/// The number of planes of `csp`.
pub fn plane_count(csp: Colorspace) -> (r: usize)
    ensures
        r == spec_plane_count(csp),
{
    match csp {
        Colorspace::I420 => 3,
        Colorspace::YV12 => 3,
        Colorspace::NV12 => 2,
        Colorspace::NV21 => 2,
        Colorspace::I422 => 3,
        Colorspace::YV16 => 3,
        Colorspace::NV16 => 2,
        Colorspace::I444 => 3,
        Colorspace::YV24 => 3,
        Colorspace::Bgr => 1,
        Colorspace::Bgra => 1,
        Colorspace::Rgb => 1,
    }
}

/// The scale table entry of `csp`.
pub fn scale_from_csp(csp: Colorspace) -> (r: ColorspaceScale)
    ensures
        forall|i: int| 0 <= i < 3 ==> r.w[i] == spec_scale_w(csp, i),
        forall|i: int| 0 <= i < 3 ==> r.h[i] == spec_scale_h(csp, i),
{
    match csp {
        Colorspace::I420 => ColorspaceScale { w: [256, 128, 128], h: [256, 128, 128] },
        Colorspace::YV12 => ColorspaceScale { w: [256, 128, 128], h: [256, 128, 128] },
        Colorspace::NV12 => ColorspaceScale { w: [256, 256, 0], h: [256, 128, 0] },
        Colorspace::NV21 => ColorspaceScale { w: [256, 256, 0], h: [256, 128, 0] },
        Colorspace::I422 => ColorspaceScale { w: [256, 128, 128], h: [256, 256, 256] },
        Colorspace::YV16 => ColorspaceScale { w: [256, 128, 128], h: [256, 256, 256] },
        Colorspace::NV16 => ColorspaceScale { w: [256, 256, 0], h: [256, 256, 0] },
        Colorspace::I444 => ColorspaceScale { w: [256, 256, 256], h: [256, 256, 256] },
        Colorspace::YV24 => ColorspaceScale { w: [256, 256, 256], h: [256, 256, 256] },
        Colorspace::Bgr => ColorspaceScale { w: [768, 0, 0], h: [256, 0, 0] },
        Colorspace::Bgra => ColorspaceScale { w: [1024, 0, 0], h: [256, 0, 0] },
        Colorspace::Rgb => ColorspaceScale { w: [768, 0, 0], h: [256, 0, 0] },
    }
}

/// Byte size of plane `i`, computed in 64 bits. For dimensions up to
/// `MAX_DIM` no intermediate step can overflow.
pub fn plane_size_u64(
    csp: Colorspace,
    high_depth: bool,
    width: usize,
    height: usize,
    i: usize,
) -> (r: u64)
    requires
        width <= MAX_DIM,
        height <= MAX_DIM,
        i < 3,
    ensures
        r == spec_plane_size(csp, high_depth, width as int, height as int, i as int),
{
    let scale = scale_from_csp(csp);
    let sw = scale.w[i] as u64;
    let sh = scale.h[i] as u64;
    let b: u64 = if high_depth {
        2
    } else {
        1
    };
    proof {
        assert(0 <= spec_scale_w(csp, i as int) <= 1024);
        assert(0 <= spec_scale_h(csp, i as int) <= 256);
        lemma_mul_upper_bound(width as int, 65536, sw as int, 1024);
    }
    let t1 = (width as u64) * sw;
    let t2 = t1 / 256;
    proof {
        lemma_mul_upper_bound(t2 as int, 0x4000000, b as int, 2);
    }
    let t3 = t2 * b;
    proof {
        lemma_mul_upper_bound(t3 as int, 0x8000000, height as int, 65536);
    }
    let t4 = t3 * (height as u64);
    proof {
        lemma_mul_upper_bound(t4 as int, 0x80000000000, sh as int, 256);
    }
    let t5 = t4 * sh;
    t5 / 256
}

/// Whether the dimensions line up with the colorspace's subsampling: chroma
/// planes at half resolution need the halved dimension to be even.
pub open spec fn spec_dims_aligned(csp: Colorspace, width: int, height: int) -> bool {
    match csp {
        Colorspace::I420 => width % 2 == 0 && height % 2 == 0,
        Colorspace::YV12 => width % 2 == 0 && height % 2 == 0,
        Colorspace::NV12 => height % 2 == 0,
        Colorspace::NV21 => height % 2 == 0,
        Colorspace::I422 => width % 2 == 0,
        Colorspace::YV16 => width % 2 == 0,
        _ => true,
    }
}

/// Twice the number of samples per pixel: 3 for 4:2:0 (one luma plus a
/// quarter of chroma each), 4 for 4:2:2, 6 for 4:4:4 and the three-byte
/// packed formats, 8 for the four-byte packed format.
pub open spec fn spec_double_samples_per_pixel(csp: Colorspace) -> int {
    match csp {
        Colorspace::I420 => 3,
        Colorspace::YV12 => 3,
        Colorspace::NV12 => 3,
        Colorspace::NV21 => 3,
        Colorspace::I422 => 4,
        Colorspace::YV16 => 4,
        Colorspace::NV16 => 4,
        Colorspace::I444 => 6,
        Colorspace::YV24 => 6,
        Colorspace::Bgr => 6,
        Colorspace::Bgra => 8,
        Colorspace::Rgb => 6,
    }
}

proof fn lemma_exact_scale(x: int)
    ensures
        x * 256 / 256 == x,
{
    lemma_div_multiples_vanish(x, 256);
}

proof fn lemma_triple_scale(x: int)
    ensures
        x * 768 / 256 == 3 * x,
{
    lemma_div_multiples_vanish(3 * x, 256);
}

proof fn lemma_quad_scale(x: int)
    ensures
        x * 1024 / 256 == 4 * x,
{
    lemma_div_multiples_vanish(4 * x, 256);
}

proof fn lemma_halve_scale(x: int)
    requires
        x >= 0,
    ensures
        x * 128 / 256 == x / 2,
{
    let q = x / 2;
    let r = x % 2;
    lemma_fundamental_div_mod(x, 2);
    assert(x * 128 == 256 * q + 128 * r) by (nonlinear_arith)
        requires
            x == 2 * q + r,
    ;
    lemma_div_multiples_vanish_fancy(q, 128 * r, 256);
}

proof fn lemma_even_halves(x: int, y: int)
    requires
        x == 2 * y,
    ensures
        x / 2 == y,
{
    lemma_div_multiples_vanish(y, 2);
}

/// Law: for every colorspace, the plane sizes of an aligned frame sum to
/// width times height times bytes-per-sample times the samples-per-pixel
/// factor of the colorspace — three halves for 4:2:0 formats, two for 4:2:2
/// formats, three for 4:4:4 and the packed three-byte formats, four for the
/// packed four-byte format. The equation is stated doubled to stay in
/// integers.
pub proof fn lemma_total_plane_size(csp: Colorspace, high_depth: bool, width: int, height: int)
    requires
        width >= 0,
        height >= 0,
        spec_dims_aligned(csp, width, height),
    ensures
        2 * spec_total_size(csp, high_depth, width, height) == width * height
            * spec_bytes_per_sample(high_depth) * spec_double_samples_per_pixel(csp),
{
    let b = spec_bytes_per_sample(high_depth);
    let w = width;
    let h = height;
    lemma_mul_nonnegative(w, b);
    lemma_mul_nonnegative(w * b, h);
    match csp {
        Colorspace::I420 | Colorspace::YV12 => {
            let k = w / 2;
            let m = h / 2;
            lemma_fundamental_div_mod(w, 2);
            lemma_fundamental_div_mod(h, 2);
            lemma_exact_scale(w);
            lemma_exact_scale(w * b * h);
            lemma_halve_scale(w);
            lemma_mul_nonnegative(k, b);
            lemma_mul_nonnegative(k * b, h);
            assert(k * b * h == 2 * (k * b * m)) by (nonlinear_arith)
                requires
                    h == 2 * m,
            ;
            lemma_halve_scale(k * b * h);
            lemma_even_halves(k * b * h, k * b * m);
            assert(2 * ((w * b * h) + (k * b * m) + (k * b * m)) == w * h * b * 3)
                by (nonlinear_arith)
                requires
                    w == 2 * k,
                    h == 2 * m,
            ;
        },
        Colorspace::NV12 | Colorspace::NV21 => {
            let m = h / 2;
            lemma_fundamental_div_mod(h, 2);
            lemma_exact_scale(w);
            lemma_exact_scale(w * b * h);
            assert(w * b * h == 2 * (w * b * m)) by (nonlinear_arith)
                requires
                    h == 2 * m,
            ;
            lemma_halve_scale(w * b * h);
            lemma_even_halves(w * b * h, w * b * m);
            assert(2 * ((w * b * h) + (w * b * m)) == w * h * b * 3) by (nonlinear_arith)
                requires
                    h == 2 * m,
            ;
        },
        Colorspace::I422 | Colorspace::YV16 => {
            let k = w / 2;
            lemma_fundamental_div_mod(w, 2);
            lemma_exact_scale(w);
            lemma_exact_scale(w * b * h);
            lemma_halve_scale(w);
            lemma_mul_nonnegative(k, b);
            lemma_mul_nonnegative(k * b, h);
            lemma_exact_scale(k * b * h);
            assert(2 * ((w * b * h) + (k * b * h) + (k * b * h)) == w * h * b * 4)
                by (nonlinear_arith)
                requires
                    w == 2 * k,
            ;
        },
        Colorspace::NV16 => {
            lemma_exact_scale(w);
            lemma_exact_scale(w * b * h);
            assert(2 * ((w * b * h) + (w * b * h)) == w * h * b * 4) by (nonlinear_arith);
        },
        Colorspace::I444 | Colorspace::YV24 => {
            lemma_exact_scale(w);
            lemma_exact_scale(w * b * h);
            assert(2 * ((w * b * h) + (w * b * h) + (w * b * h)) == w * h * b * 6)
                by (nonlinear_arith);
        },
        Colorspace::Bgr | Colorspace::Rgb => {
            lemma_triple_scale(w);
            lemma_mul_nonnegative(3 * w, b);
            lemma_mul_nonnegative(3 * w * b, h);
            lemma_exact_scale(3 * w * b * h);
            assert(2 * (3 * w * b * h) == w * h * b * 6) by (nonlinear_arith);
        },
        Colorspace::Bgra => {
            lemma_quad_scale(w);
            lemma_mul_nonnegative(4 * w, b);
            lemma_mul_nonnegative(4 * w * b, h);
            lemma_exact_scale(4 * w * b * h);
            assert(2 * (4 * w * b * h) == w * h * b * 8) by (nonlinear_arith);
        },
    }
}

} // verus!
