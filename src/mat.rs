use vstd::prelude::*;

use crate::error::NcnnError;

verus! {

/// Interleaved pixel layouts accepted by pixel-buffer construction.
#[derive(Debug, Clone, Copy, PartialEq, Eq, Structural)]
pub enum MatPixelType {
    BGR,
    BGRA,
    GRAY,
    RGB,
    RGBA,
}

/// The native library's code for each pixel layout.
pub open spec fn pixel_code(t: MatPixelType) -> i32 {
    match t {
        MatPixelType::RGB => 1,
        MatPixelType::BGR => 2,
        MatPixelType::GRAY => 3,
        MatPixelType::RGBA => 4,
        MatPixelType::BGRA => 5,
    }
}

/// Bytes per pixel of each layout.
pub open spec fn pixel_stride(t: MatPixelType) -> int {
    match t {
        MatPixelType::BGR => 3,
        MatPixelType::BGRA => 4,
        MatPixelType::GRAY => 1,
        MatPixelType::RGB => 3,
        MatPixelType::RGBA => 4,
    }
}

impl MatPixelType {
    pub fn to_int(&self) -> (r: i32)
        ensures
            r == pixel_code(*self),
    {
        match self {
            MatPixelType::BGR => 2,
            MatPixelType::BGRA => 5,
            MatPixelType::GRAY => 3,
            MatPixelType::RGB => 1,
            MatPixelType::RGBA => 4,
        }
    }

    /// Bytes per image row of `width` pixels, when that fits in an `i32`.
    pub fn row_stride(&self, width: i32) -> (r: Option<i32>)
        ensures
            r is Some <==> i32::MIN <= width * pixel_stride(*self) <= i32::MAX,
            r matches Some(b) ==> b == width * pixel_stride(*self),
    {
        let b: i64 = (width as i64) * (self.stride() as i64);
        if b < i32::MIN as i64 || b > i32::MAX as i64 {
            None
        } else {
            Some(b as i32)
        }
    }

    pub fn stride(&self) -> (r: i32)
        ensures
            r as int == pixel_stride(*self),
            1 <= r <= 4,
    {
        match self {
            MatPixelType::BGR => 3,
            MatPixelType::BGRA => 4,
            MatPixelType::GRAY => 1,
            MatPixelType::RGB => 3,
            MatPixelType::RGBA => 4,
        }
    }
}

/// A native allocator as seen by matrix construction. Matrices built with it
/// do not own it: it is handed in by reference and must outlive them.
#[derive(Debug)]
pub struct Allocator {}

impl Allocator {
    pub fn new() -> (r: Allocator) {
        Allocator {}
    }
}

/// The shape of a matrix: everything its queries report.
#[derive(Debug, Clone, Copy, PartialEq, Eq, Structural)]
pub struct MatShape {
    pub dims: i32,
    pub w: i32,
    pub h: i32,
    pub c: i32,
    pub elemsize: u64,
    pub elempack: i32,
    pub cstep: u64,
    /// Whether the element buffer belongs to the caller rather than to the
    /// matrix; such a buffer is never released with the matrix.
    pub external: bool,
}

/// Elements per channel of a three-dimensional float matrix: `w * h`
/// rounded up so that each channel starts on a 16-byte boundary.
pub open spec fn aligned_cstep(w: int, h: int) -> int {
    let n = w * h;
    if n % 4 == 0 {
        n
    } else {
        n + (4 - n % 4)
    }
}

/// The shape of an empty matrix.
pub open spec fn empty_shape() -> MatShape {
    MatShape { dims: 0, w: 0, h: 0, c: 0, elemsize: 0, elempack: 0, cstep: 0, external: false }
}

/// The shape of a float matrix with `dims` dimensions (unused ones are 1).
pub open spec fn float_shape(dims: int, w: int, h: int, c: int, external: bool) -> MatShape {
    MatShape {
        dims: dims as i32,
        w: w as i32,
        h: h as i32,
        c: c as i32,
        elemsize: 4,
        elempack: 1,
        cstep: (if dims == 1 {
            w
        } else if dims == 2 {
            w * h
        } else {
            aligned_cstep(w, h)
        }) as u64,
        external,
    }
}

/// Whether `len` bytes make a whole image of `width` by `height` pixels.
pub open spec fn pixels_fit(len: int, t: MatPixelType, width: int, height: int) -> bool {
    len == width * height * pixel_stride(t)
}

/// The shape that pixel-buffer construction gives: one planar channel per
/// byte of a pixel.
pub open spec fn pixels_shape(t: MatPixelType, width: int, height: int) -> MatShape {
    float_shape(3, width, height, pixel_stride(t), false)
}

/// A buffer of exactly `width * height * stride` bytes, for any layout and any
/// size, is accepted, and the matrix built from it reports that
/// width and height, three dimensions, and one channel per byte of a pixel.
pub proof fn lemma_pixels_accepted(len: int, t: MatPixelType, width: int, height: int)
    requires
        i32::MIN <= width <= i32::MAX,
        i32::MIN <= height <= i32::MAX,
        len == width * height * pixel_stride(t),
    ensures
        pixels_fit(len, t, width, height),
        pixels_shape(t, width, height).dims == 3,
        pixels_shape(t, width, height).w == width,
        pixels_shape(t, width, height).h == height,
        pixels_shape(t, width, height).c == pixel_stride(t),
{
}

/// A buffer whose length differs from `width * height * stride` is never
/// accepted, whatever the layout and size.
pub proof fn lemma_pixels_rejected(len: int, t: MatPixelType, width: int, height: int)
    requires
        len != width * height * pixel_stride(t),
    ensures
        !pixels_fit(len, t, width, height),
{
}

/// Shape record of a native matrix.
#[derive(Debug)]
pub struct Mat {
    shape: MatShape,
}

impl View for Mat {
    type V = MatShape;

    closed spec fn view(&self) -> MatShape {
        self.shape
    }
}

fn cstep_3d(w: i32, h: i32) -> (r: u64)
    requires
        0 <= w * h,
    ensures
        r as int == aligned_cstep(w as int, h as int),
{
    assert(-0x4000_0000_0000_0000 <= (w as int) * (h as int) <= 0x4000_0000_0000_0000) by (nonlinear_arith)
        requires
            -0x8000_0000 <= w <= 0x7fff_ffff,
            -0x8000_0000 <= h <= 0x7fff_ffff,
    ;
    let n: u64 = ((w as i64) * (h as i64)) as u64;
    let rem: u64 = n % 4;
    if rem == 0 {
        n
    } else {
        n + (4 - rem)
    }
}

impl Mat {
    /// An empty matrix.
    pub fn new() -> (m: Mat)
        ensures
            m@ == empty_shape(),
    {
        Mat { shape: MatShape { dims: 0, w: 0, h: 0, c: 0, elemsize: 0, elempack: 0, cstep: 0, external: false } }
    }

    fn float(dims: i32, w: i32, h: i32, c: i32, external: bool) -> (m: Mat)
        requires
            1 <= dims <= 3,
            dims < 3 ==> 0 <= w && 0 <= h,
            dims == 3 ==> 0 <= w * h,
            0 <= c,
            dims == 1 ==> h == 1 && c == 1,
            dims == 2 ==> c == 1,
        ensures
            m@ == float_shape(dims as int, w as int, h as int, c as int, external),
    {
        let cstep: u64 = if dims == 1 {
            w as u64
        } else if dims == 2 {
            assert(0 <= (w as int) * (h as int) <= 0x4000_0000_0000_0000) by (nonlinear_arith)
                requires
                    0 <= w <= 0x7fff_ffff,
                    0 <= h <= 0x7fff_ffff,
            ;
            (w as u64) * (h as u64)
        } else {
            cstep_3d(w, h)
        };
        Mat { shape: MatShape { dims, w, h, c, elemsize: 4, elempack: 1, cstep, external } }
    }

    /// The record of a matrix whose shape was read back from the native side,
    /// as after an extraction wrote into it.
    pub fn from_native(shape: MatShape) -> (m: Mat)
        ensures
            m@ == shape,
    {
        Mat { shape }
    }

    /// A one-dimensional float matrix of `w` elements.
    pub fn create_1d(w: i32, alloc: &Allocator) -> (m: Mat)
        requires
            0 <= w,
        ensures
            m@ == float_shape(1, w as int, 1, 1, false),
    {
        Mat::float(1, w, 1, 1, false)
    }

    /// A two-dimensional float matrix of `w` by `h` elements.
    pub fn create_2d(w: i32, h: i32, alloc: &Allocator) -> (m: Mat)
        requires
            0 <= w,
            0 <= h,
        ensures
            m@ == float_shape(2, w as int, h as int, 1, false),
    {
        Mat::float(2, w, h, 1, false)
    }

    /// A three-dimensional float matrix of `c` channels of `w` by `h`.
    pub fn create_3d(w: i32, h: i32, c: i32, alloc: &Allocator) -> (m: Mat)
        requires
            0 <= w,
            0 <= h,
            0 <= c,
        ensures
            m@ == float_shape(3, w as int, h as int, c as int, false),
    {
        Mat::float(3, w, h, c, false)
    }

    /// A one-dimensional view over caller-owned memory.
    pub fn create_external_1d(w: i32, alloc: &Allocator) -> (m: Mat)
        requires
            0 <= w,
        ensures
            m@ == float_shape(1, w as int, 1, 1, true),
    {
        Mat::float(1, w, 1, 1, true)
    }

    /// A two-dimensional view over caller-owned memory.
    pub fn create_external_2d(w: i32, h: i32, alloc: &Allocator) -> (m: Mat)
        requires
            0 <= w,
            0 <= h,
        ensures
            m@ == float_shape(2, w as int, h as int, 1, true),
    {
        Mat::float(2, w, h, 1, true)
    }

    /// A three-dimensional view over caller-owned memory.
    pub fn create_external_3d(w: i32, h: i32, c: i32, alloc: &Allocator) -> (m: Mat)
        requires
            0 <= w,
            0 <= h,
            0 <= c,
        ensures
            m@ == float_shape(3, w as int, h as int, c as int, true),
    {
        Mat::float(3, w, h, c, true)
    }

    /// A matrix from an interleaved pixel buffer. The buffer must hold exactly
    /// `width * height * stride` bytes, the product taken exactly; any other
    /// length is a size mismatch, and nothing is allocated.
    pub fn from_pixels(
        data: &[u8],
        pixel_type: MatPixelType,
        width: i32,
        height: i32,
        alloc: &Allocator,
    ) -> (r: Result<Mat, NcnnError>)
        ensures
            !pixels_fit(data@.len() as int, pixel_type, width as int, height as int) <==> (r
                == Err::<Mat, NcnnError>(NcnnError::SizeMismatch {
                expected: (width * height * pixel_stride(pixel_type)) as i128,
                provided: data@.len() as usize,
            })),
            pixels_fit(data@.len() as int, pixel_type, width as int, height as int) <==> r is Ok,
            r matches Ok(m) ==> m@ == pixels_shape(pixel_type, width as int, height as int),
    {
        let stride = pixel_type.stride();
        assert(-0x4000_0000_0000_0000 <= (width as int) * (height as int) <= 0x4000_0000_0000_0000) by (nonlinear_arith)
            requires
                -0x8000_0000 <= width <= 0x7fff_ffff,
                -0x8000_0000 <= height <= 0x7fff_ffff,
        ;
        let area: i128 = (width as i128) * (height as i128);
        assert(-0x1_0000_0000_0000_0000 <= (area as int) * (stride as int) <= 0x1_0000_0000_0000_0000) by (nonlinear_arith)
            requires
                -0x4000_0000_0000_0000 <= area <= 0x4000_0000_0000_0000,
                1 <= stride <= 4,
        ;
        let expected: i128 = area * (stride as i128);
        let provided: usize = data.len();
        if provided as i128 != expected {
            return Err(NcnnError::SizeMismatch { expected, provided });
        }
        assert(0 <= (width as int) * (height as int)) by (nonlinear_arith)
            requires
                0 <= (width as int) * (height as int) * (stride as int),
                1 <= stride,
        ;
        Ok(Mat::float(3, width, height, stride, false))
    }

    /// Everything the queries below report, at once.
    pub fn shape(&self) -> (r: MatShape)
        ensures
            r == self@,
    {
        self.shape
    }

    /// Number of dimensions: 0 when empty, else 1 to 3.
    pub fn get_dims(&self) -> (r: i32)
        ensures
            r == self@.dims,
    {
        self.shape.dims
    }

    pub fn get_w(&self) -> (r: i32)
        ensures
            r == self@.w,
    {
        self.shape.w
    }

    pub fn get_h(&self) -> (r: i32)
        ensures
            r == self@.h,
    {
        self.shape.h
    }

    pub fn get_c(&self) -> (r: i32)
        ensures
            r == self@.c,
    {
        self.shape.c
    }

    /// Bytes per element.
    pub fn get_elemsize(&self) -> (r: u64)
        ensures
            r == self@.elemsize,
    {
        self.shape.elemsize
    }

    pub fn get_elempack(&self) -> (r: i32)
        ensures
            r == self@.elempack,
    {
        self.shape.elempack
    }

    /// Elements from the start of one channel to the start of the next.
    pub fn get_cstep(&self) -> (r: u64)
        ensures
            r == self@.cstep,
    {
        self.shape.cstep
    }

    /// Whether releasing this matrix releases its element buffer too.
    pub fn owns_data(&self) -> (r: bool)
        ensures
            r == !self@.external,
    {
        !self.shape.external
    }
}

} // verus!
