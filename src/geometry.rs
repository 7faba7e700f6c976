//! Shared geometry types: positions, sizes, output scales and image fitting.
use vstd::prelude::*;

verus! {

/// 2D object position.
#[derive(PartialEq, Eq, Structural, Copy, Clone, Debug)]
pub struct Position<T> {
    pub x: T,
    pub y: T,
}

impl<T> Position<T> {
    pub fn new(x: T, y: T) -> (r: Self)
        ensures
            r.x == x,
            r.y == y,
    {
        Position { x, y }
    }
}

impl<T> From<(T, T)> for Position<T> {
    fn from(pair: (T, T)) -> (r: Self) {
        Position { x: pair.0, y: pair.1 }
    }
}

impl<T> vstd::std_specs::convert::FromSpecImpl<(T, T)> for Position<T> {
    open spec fn obeys_from_spec() -> bool {
        true
    }

    open spec fn from_spec(pair: (T, T)) -> Self {
        Position { x: pair.0, y: pair.1 }
    }
}

/// Why a point string was rejected.
#[derive(PartialEq, Eq, Structural, Copy, Clone, Debug)]
pub enum PointError {
    /// The string holds no `+` between its X and Y parts.
    MissingSeparator,
}

impl PointError {
    /// Human-readable description of the error.
    pub fn message(&self) -> (r: &'static str) {
        match self {
            PointError::MissingSeparator => "X and Y must be separated by `+`",
        }
    }
}

/// Whether `(x, y)` is `s` cut at its first `+`, which belongs to neither part.
pub open spec fn is_point_split(s: Seq<char>, x: Seq<char>, y: Seq<char>) -> bool {
    let i = x.len() as int;
    &&& i < s.len()
    &&& s[i] == '+'
    &&& x == s.subrange(0, i)
    &&& y == s.subrange(i + 1, s.len() as int)
    &&& forall|j: int| 0 <= j < i ==> s[j] != '+'
}

/// Split a point written as `X+Y` into its X and Y texts, at the first `+`.
pub fn split_point(s: &str) -> (r: Result<(&str, &str), PointError>)
    ensures
        r is Err <==> !s@.contains('+'),
        r matches Ok((x, y)) ==> is_point_split(s@, x@, y@),
{
    let len = s.unicode_len();
    let mut i: usize = 0;
    while i < len
        invariant
            len == s@.len(),
            i <= len,
            forall|j: int| 0 <= j < i ==> s@[j] != '+',
        decreases len - i,
    {
        if s.get_char(i) == '+' {
            let x = s.substring_char(0, i);
            let y = s.substring_char(i + 1, len);
            return Ok((x, y));
        }
        i = i + 1;
    }
    Err(PointError::MissingSeparator)
}

/// 2D object size.
#[derive(PartialEq, Eq, Structural, Copy, Clone, Debug)]
pub struct Size<T> {
    pub width: T,
    pub height: T,
}

impl<T> Size<T> {
    pub fn new(width: T, height: T) -> (r: Self)
        ensures
            r.width == width,
            r.height == height,
    {
        Size { width, height }
    }
}

impl<T> From<(T, T)> for Size<T> {
    fn from(pair: (T, T)) -> (r: Self) {
        Size { width: pair.0, height: pair.1 }
    }
}

impl<T> vstd::std_specs::convert::FromSpecImpl<(T, T)> for Size<T> {
    open spec fn obeys_from_spec() -> bool {
        true
    }

    open spec fn from_spec(pair: (T, T)) -> Self {
        Size { width: pair.0, height: pair.1 }
    }
}

/// Denominator of a [`Scale`]: output scales are expressed in 120ths.
pub const SCALE_DENOMINATOR: u64 = 120;

/// Output scale factor, as a whole number of 120ths (`120` is a scale of 1).
///
/// Both the integer scale notification and the fractional one are exact in
/// this unit.
#[derive(PartialEq, Eq, Structural, Copy, Clone, Debug)]
pub struct Scale {
    pub per120: u64,
}

impl Scale {
    /// The scale of a surface before the compositor reports one.
    pub fn unit() -> (r: Scale)
        ensures
            r.per120 == SCALE_DENOMINATOR,
    {
        Scale { per120: SCALE_DENOMINATOR }
    }

    /// Scale from an integer factor; a factor of zero or below is no scale at all.
    pub fn from_integer(factor: i32) -> (r: Scale)
        ensures
            r.per120 == integer_scale_per120(factor as int),
    {
        if factor <= 0 {
            Scale { per120: 0 }
        } else {
            Scale { per120: factor as u64 * SCALE_DENOMINATOR }
        }
    }

    /// Scale from a fractional-scale notification, which counts in 120ths.
    pub fn from_fractional(per120: u32) -> (r: Scale)
        ensures
            r.per120 == per120,
    {
        Scale { per120: per120 as u64 }
    }
}

/// Integer factor `factor` in 120ths, with non-positive factors mapped to zero.
pub open spec fn integer_scale_per120(factor: int) -> nat {
    if factor <= 0 {
        0
    } else {
        (factor * 120) as nat
    }
}

/// `length * per120 / 120`, rounded to the nearest integer (halves up), and
/// saturated to the largest `u32`.
pub open spec fn scaled_length(length: nat, per120: nat) -> nat {
    let rounded = (length * per120 + 60) / 120;
    if rounded > u32::MAX {
        u32::MAX as nat
    } else {
        rounded as nat
    }
}

pub open spec fn scaled_size(size: Size<u32>, scale: Scale) -> Size<u32> {
    Size {
        width: scaled_length(size.width as nat, scale.per120 as nat) as u32,
        height: scaled_length(size.height as nat, scale.per120 as nat) as u32,
    }
}

fn scale_length(length: u32, scale: Scale) -> (r: u32)
    ensures
        r == scaled_length(length as nat, scale.per120 as nat),
{
    assert((length as nat) * (scale.per120 as nat) <= 0xffff_ffffnat * 0xffff_ffff_ffff_ffffnat)
        by (nonlinear_arith);
    let product: u128 = length as u128 * scale.per120 as u128;
    let rounded: u128 = (product + 60) / 120;
    if rounded > u32::MAX as u128 {
        u32::MAX
    } else {
        rounded as u32
    }
}

impl Size<u32> {
    /// Physical size of a logical size at an output scale: each side is scaled
    /// and rounded to the nearest integer.
    pub fn scaled(self, scale: Scale) -> (r: Size<u32>)
        ensures
            r == scaled_size(self, scale),
    {
        Size { width: scale_length(self.width, scale), height: scale_length(self.height, scale) }
    }

    /// Whether either side of this size is zero.
    pub fn is_empty(&self) -> (r: bool)
        ensures
            r == (self.width == 0 || self.height == 0),
    {
        self.width == 0 || self.height == 0
    }
}

/// How an image is scaled to cover a viewport.
///
/// Every length is a fraction over `denominator`: the image is scaled by
/// `scale / denominator`, becomes `width x height`, and exceeds the viewport
/// by `overflow_x` horizontally and `overflow_y` vertically. Placing the image
/// at offset `-overflow * focus` on each axis distributes that excess around
/// the focus point.
#[derive(PartialEq, Eq, Structural, Copy, Clone, Debug)]
pub struct ImageFit {
    pub scale: u64,
    pub denominator: u64,
    pub width: u64,
    pub height: u64,
    pub overflow_x: u64,
    pub overflow_y: u64,
}

/// Whether the viewport's width ratio `v.width / i.width` is below its height
/// ratio `v.height / i.height`, compared without division.
pub open spec fn width_ratio_below(viewport: Size<u32>, image: Size<u32>) -> bool {
    (viewport.width as int) * (image.height as int) < (viewport.height as int) * (image.width as int)
}

/// The cover fit of `image` into `viewport`: the larger of the two ratios
/// scales the image, so it covers the viewport on both axes and matches it on
/// one.
pub open spec fn cover_fit(viewport: Size<u32>, image: Size<u32>) -> ImageFit {
    let (scale, denominator) = if width_ratio_below(viewport, image) {
        (viewport.height, image.height)
    } else {
        (viewport.width, image.width)
    };
    let width = image.width as int * scale as int;
    let height = image.height as int * scale as int;
    ImageFit {
        scale: scale as u64,
        denominator: denominator as u64,
        width: width as u64,
        height: height as u64,
        overflow_x: (width - viewport.width as int * denominator as int) as u64,
        overflow_y: (height - viewport.height as int * denominator as int) as u64,
    }
}

/// The cover fit scales by the larger ratio, covers the viewport on both axes,
/// matches it on at least one, and the offset `overflow * p / q` for any focus
/// fraction `p / q` in `[0, 1]` lies between zero and the overflow: zero for a
/// focus of `0` and the whole overflow for a focus of `1`.
pub proof fn lemma_cover_fit(viewport: Size<u32>, image: Size<u32>, p: nat, q: nat)
    requires
        image.width > 0,
        image.height > 0,
        p <= q,
        q > 0,
    ensures
        ({
            let fit = cover_fit(viewport, image);
            &&& fit.scale as int * image.width as int >= viewport.width as int * fit.denominator as int
            &&& fit.scale as int * image.height as int >= viewport.height as int * fit.denominator as int
            &&& fit.width as int == viewport.width as int * fit.denominator as int + fit.overflow_x as int
            &&& fit.height as int == viewport.height as int * fit.denominator as int + fit.overflow_y as int
            &&& fit.overflow_x == 0 || fit.overflow_y == 0
            &&& 0 <= fit.overflow_x * p <= fit.overflow_x * q
            &&& 0 <= fit.overflow_y * p <= fit.overflow_y * q
        }),
{
    let fit = cover_fit(viewport, image);
    let vw = viewport.width as int;
    let vh = viewport.height as int;
    let iw = image.width as int;
    let ih = image.height as int;
    assert(0 <= iw * vh <= 0xffff_ffff * 0xffff_ffff && 0 <= ih * vh <= 0xffff_ffff * 0xffff_ffff
        && 0 <= iw * vw <= 0xffff_ffff * 0xffff_ffff && 0 <= ih * vw <= 0xffff_ffff * 0xffff_ffff)
        by (nonlinear_arith)
        requires
            0 <= vw <= 0xffff_ffff,
            0 <= vh <= 0xffff_ffff,
            0 <= iw <= 0xffff_ffff,
            0 <= ih <= 0xffff_ffff,
    ;
    if width_ratio_below(viewport, image) {
        assert(iw * vh - vw * ih > 0 && ih * vh - vh * ih == 0 && vh * iw == iw * vh) by (nonlinear_arith)
            requires
                vw * ih < vh * iw,
        ;
    } else {
        assert(iw * vw - vw * iw == 0 && ih * vw - vh * iw >= 0 && vw * ih == ih * vw) by (nonlinear_arith)
            requires
                vw * ih >= vh * iw,
        ;
    }
    let ox = fit.overflow_x as int;
    let oy = fit.overflow_y as int;
    assert(0 <= ox * p <= ox * q && 0 <= oy * p <= oy * q) by (nonlinear_arith)
        requires
            ox >= 0,
            oy >= 0,
            p <= q,
    ;
}

/// Fit an image of natural size `image` to cover `viewport`.
pub fn fit_image(viewport: Size<u32>, image: Size<u32>) -> (r: ImageFit)
    requires
        image.width > 0,
        image.height > 0,
    ensures
        r == cover_fit(viewport, image),
        r.denominator > 0,
{
    let vw = viewport.width as u64;
    let vh = viewport.height as u64;
    let iw = image.width as u64;
    let ih = image.height as u64;
    assert(vw * ih <= 0xffff_ffff_ffff_ffff && vh * iw <= 0xffff_ffff_ffff_ffff) by (nonlinear_arith)
        requires
            vw <= 0xffff_ffff,
            vh <= 0xffff_ffff,
            iw <= 0xffff_ffff,
            ih <= 0xffff_ffff,
    ;
    if vw * ih < vh * iw {
        assert(iw * vh <= 0xffff_ffff_ffff_ffff && ih * vh <= 0xffff_ffff_ffff_ffff) by (nonlinear_arith)
            requires
                vh <= 0xffff_ffff,
                iw <= 0xffff_ffff,
                ih <= 0xffff_ffff,
        ;
        let width = iw * vh;
        let height = ih * vh;
        assert(vw * ih <= width && vh * ih <= height) by (nonlinear_arith)
            requires
                vw * ih < vh * iw,
                width == iw * vh,
                height == ih * vh,
        ;
        ImageFit {
            scale: vh,
            denominator: ih,
            width,
            height,
            overflow_x: width - vw * ih,
            overflow_y: height - vh * ih,
        }
    } else {
        assert(iw * vw <= 0xffff_ffff_ffff_ffff && ih * vw <= 0xffff_ffff_ffff_ffff) by (nonlinear_arith)
            requires
                vw <= 0xffff_ffff,
                iw <= 0xffff_ffff,
                ih <= 0xffff_ffff,
        ;
        let width = iw * vw;
        let height = ih * vw;
        assert(vw * iw <= width && vh * iw <= height) by (nonlinear_arith)
            requires
                vw * ih >= vh * iw,
                width == iw * vw,
                height == ih * vw,
        ;
        ImageFit {
            scale: vw,
            denominator: iw,
            width,
            height,
            overflow_x: width - vw * iw,
            overflow_y: height - vh * iw,
        }
    }
}

} // verus!
