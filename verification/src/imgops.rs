//! Pixel buffers for the composition pipeline, backed by the `image` crate.
//!
//! The backing `image::ImageBuffer` is opaque to the verifier, so each buffer
//! is held in a private field; the uninterpreted functions below name its
//! dimensions and pixel contents, and each trusted call states over those
//! names what the crate's source shows. Everything that crosses the boundary
//! in and out of a buffer is a plain value (raw channel bytes, row-major).

use vstd::prelude::*;
use image::buffer::ConvertBuffer;

verus! {

/// A buffer of RGBA pixels (four channels, the last one alpha).
#[verifier::external_body]
pub struct RgbaBuffer {
    inner: image::RgbaImage,
}

/// A buffer of opaque RGB pixels (three channels, no alpha).
#[verifier::external_body]
pub struct RgbBuffer {
    inner: image::RgbImage,
}

/// The (width, height) of an RGBA buffer.
pub uninterp spec fn rgba_dims(img: RgbaBuffer) -> (u32, u32);

/// The pixels of an RGBA buffer, each as (red, green, blue, alpha), by
/// (column, row) coordinate.
pub uninterp spec fn rgba_pix(img: RgbaBuffer) -> Map<(int, int), (u8, u8, u8, u8)>;

/// The (width, height) of an RGB buffer.
pub uninterp spec fn rgb_dims(img: RgbBuffer) -> (u32, u32);

/// The pixels of an RGB buffer, each as (red, green, blue), by
/// (column, row) coordinate.
pub uninterp spec fn rgb_pix(img: RgbBuffer) -> Map<(int, int), (u8, u8, u8)>;

/// What `image::Rgba::blend` (source-over alpha compositing) returns for a
/// top pixel that is neither fully opaque nor fully transparent.
pub uninterp spec fn blend_of(bottom: (u8, u8, u8, u8), top: (u8, u8, u8, u8)) -> (u8, u8, u8, u8);

impl RgbaBuffer {
    /// Relies on `image::RgbaImage::new`: a buffer of the given dimensions
    /// with every pixel fully transparent black. The size bound keeps the
    /// call from panicking while it allocates the backing vector.
    #[verifier::external_body]
    pub(crate) fn new_blank(width: u32, height: u32) -> (r: RgbaBuffer)
        requires
            4 * width as int * height as int <= usize::MAX as int,
        ensures
            rgba_dims(r) == (width, height),
            forall|x: int, y: int|
                0 <= x < width && 0 <= y < height ==> #[trigger] rgba_pix(r)[(x, y)] == (
                0u8,
                0u8,
                0u8,
                0u8,
                ),
    {
        RgbaBuffer { inner: image::RgbaImage::new(width, height) }
    }

    /// Relies on `image::RgbaImage::from_raw`: the bytes are taken as
    /// row-major pixels of four channels each, so the pixel at (x, y) starts
    /// at byte 4 * (y * width + x).
    #[verifier::external_body]
    fn from_raw_exact(width: u32, height: u32, data: Vec<u8>) -> (r: RgbaBuffer)
        requires
            4 * width as int * height as int <= usize::MAX as int,
            data@.len() == 4 * width as int * height as int,
        ensures
            rgba_dims(r) == (width, height),
            forall|x: int, y: int|
                0 <= x < width && 0 <= y < height ==> #[trigger] rgba_pix(r)[(x, y)] == (
                data@[4 * (y * width + x)],
                data@[4 * (y * width + x) + 1],
                data@[4 * (y * width + x) + 2],
                data@[4 * (y * width + x) + 3],
                ),
    {
        match image::RgbaImage::from_raw(width, height, data) {
            Some(inner) => RgbaBuffer { inner },
            None => RgbaBuffer { inner: image::RgbaImage::new(0, 0) },
        }
    }

    /// Builds a buffer from raw row-major RGBA bytes; `None` exactly when the
    /// byte count is not four bytes per pixel of the given dimensions.
    pub fn from_bytes(width: u32, height: u32, data: Vec<u8>) -> (r: Option<RgbaBuffer>)
        ensures
            match r {
                Some(b) => {
                    &&& data@.len() == 4 * width as int * height as int
                    &&& rgba_dims(b) == (width, height)
                    &&& forall|x: int, y: int|
                        0 <= x < width && 0 <= y < height ==> #[trigger] rgba_pix(b)[(x, y)] == (
                        data@[4 * (y * width + x)],
                        data@[4 * (y * width + x) + 1],
                        data@[4 * (y * width + x) + 2],
                        data@[4 * (y * width + x) + 3],
                        )
                },
                None => data@.len() != 4 * width as int * height as int,
            },
    {
        let w128: u128 = width as u128;
        let h128: u128 = height as u128;
        assert(w128 * h128 <= 0xFFFF_FFFF * 0xFFFF_FFFF) by (nonlinear_arith)
            requires
                w128 <= 0xFFFF_FFFF,
                h128 <= 0xFFFF_FFFF,
        ;
        let wh: u128 = w128 * h128;
        let need: u128 = 4u128 * wh;
        proof {
            assert(need as int == 4 * width as int * height as int) by (nonlinear_arith)
                requires
                    wh as int == w128 as int * h128 as int,
                    need as int == 4 * wh as int,
                    w128 as int == width as int,
                    h128 as int == height as int,
            ;
        }
        if need == data.len() as u128 {
            Some(Self::from_raw_exact(width, height, data))
        } else {
            None
        }
    }

    /// Relies on `image::ImageBuffer::dimensions`.
    #[verifier::external_body]
    fn dims_raw(&self) -> (r: (u32, u32))
        ensures
            r == rgba_dims(*self),
    {
        self.inner.dimensions()
    }

    /// The buffer's (width, height).
    pub fn dims(&self) -> (r: (u32, u32))
        ensures
            r == rgba_dims(*self),
    {
        self.dims_raw()
    }

    /// Relies on `image::ImageBuffer::get_pixel`, which panics out of bounds.
    #[verifier::external_body]
    fn pixel_raw(&self, x: u32, y: u32) -> (r: (u8, u8, u8, u8))
        requires
            x < rgba_dims(*self).0,
            y < rgba_dims(*self).1,
        ensures
            r == rgba_pix(*self)[(x as int, y as int)],
    {
        let p = self.inner.get_pixel(x, y);
        (p.0[0], p.0[1], p.0[2], p.0[3])
    }

    /// The pixel at (x, y), or `None` exactly when (x, y) is out of bounds.
    pub fn pixel(&self, x: u32, y: u32) -> (r: Option<(u8, u8, u8, u8)>)
        ensures
            match r {
                Some(p) => x < rgba_dims(*self).0 && y < rgba_dims(*self).1 && p == rgba_pix(
                    *self,
                )[(x as int, y as int)],
                None => x >= rgba_dims(*self).0 || y >= rgba_dims(*self).1,
            },
    {
        let (w, h) = self.dims_raw();
        if x < w && y < h {
            Some(self.pixel_raw(x, y))
        } else {
            None
        }
    }

    /// Relies on the `Clone` impl of `image::ImageBuffer`, which copies the
    /// dimensions and the pixel data.
    #[verifier::external_body]
    fn clone_raw(&self) -> (r: RgbaBuffer)
        ensures
            rgba_dims(r) == rgba_dims(*self),
            rgba_pix(r) == rgba_pix(*self),
    {
        RgbaBuffer { inner: self.inner.clone() }
    }

    /// A copy with the same dimensions and pixels.
    pub fn duplicate(&self) -> (r: RgbaBuffer)
        ensures
            rgba_dims(r) == rgba_dims(*self),
            rgba_pix(r) == rgba_pix(*self),
    {
        self.clone_raw()
    }

    /// Relies on `image::imageops::overlay` at offset (0, 0): each pixel of
    /// this buffer that the top buffer covers is blended source-over, by
    /// `image::Rgba::blend` — a fully opaque top pixel replaces the bottom
    /// one and a fully transparent one leaves it unchanged; uncovered pixels
    /// and the dimensions stay as they were.
    #[verifier::external_body]
    pub(crate) fn overlay_at_origin(&mut self, top: &RgbaBuffer)
        ensures
            rgba_dims(*final(self)) == rgba_dims(*old(self)),
            forall|x: int, y: int|
                0 <= x < rgba_dims(*old(self)).0 && 0 <= y < rgba_dims(*old(self)).1
                    ==> #[trigger] rgba_pix(*final(self))[(x, y)] == (if x < rgba_dims(*top).0 && y
                    < rgba_dims(*top).1 {
                    if rgba_pix(*top)[(x, y)].3 == 0 {
                        rgba_pix(*old(self))[(x, y)]
                    } else if rgba_pix(*top)[(x, y)].3 == 255 {
                        rgba_pix(*top)[(x, y)]
                    } else {
                        blend_of(rgba_pix(*old(self))[(x, y)], rgba_pix(*top)[(x, y)])
                    }
                } else {
                    rgba_pix(*old(self))[(x, y)]
                }),
    {
        image::imageops::overlay(&mut self.inner, &top.inner, 0, 0);
    }

    /// Relies on `ConvertBuffer::convert` from RGBA to RGB: the dimensions
    /// are kept and each pixel keeps its red, green and blue channels and
    /// drops its alpha channel.
    #[verifier::external_body]
    pub(crate) fn flatten_to_rgb(&self) -> (r: RgbBuffer)
        ensures
            rgb_dims(r) == rgba_dims(*self),
            forall|x: int, y: int|
                0 <= x < rgba_dims(*self).0 && 0 <= y < rgba_dims(*self).1
                    ==> #[trigger] rgb_pix(r)[(x, y)] == (
                rgba_pix(*self)[(x, y)].0,
                rgba_pix(*self)[(x, y)].1,
                rgba_pix(*self)[(x, y)].2,
                ),
    {
        RgbBuffer { inner: self.inner.convert() }
    }
}

impl RgbBuffer {
    /// Relies on `image::ImageBuffer::dimensions`.
    #[verifier::external_body]
    fn dims_raw(&self) -> (r: (u32, u32))
        ensures
            r == rgb_dims(*self),
    {
        self.inner.dimensions()
    }

    /// The buffer's (width, height).
    pub fn dims(&self) -> (r: (u32, u32))
        ensures
            r == rgb_dims(*self),
    {
        self.dims_raw()
    }

    /// Relies on `image::ImageBuffer::get_pixel`, which panics out of bounds.
    #[verifier::external_body]
    fn pixel_raw(&self, x: u32, y: u32) -> (r: (u8, u8, u8))
        requires
            x < rgb_dims(*self).0,
            y < rgb_dims(*self).1,
        ensures
            r == rgb_pix(*self)[(x as int, y as int)],
    {
        let p = self.inner.get_pixel(x, y);
        (p.0[0], p.0[1], p.0[2])
    }

    /// The pixel at (x, y), or `None` exactly when (x, y) is out of bounds.
    pub fn pixel(&self, x: u32, y: u32) -> (r: Option<(u8, u8, u8)>)
        ensures
            match r {
                Some(p) => x < rgb_dims(*self).0 && y < rgb_dims(*self).1 && p == rgb_pix(*self)[
                    (x as int, y as int)
                ],
                None => x >= rgb_dims(*self).0 || y >= rgb_dims(*self).1,
            },
    {
        let (w, h) = self.dims_raw();
        if x < w && y < h {
            Some(self.pixel_raw(x, y))
        } else {
            None
        }
    }

    /// Relies on `image::ImageBuffer::into_raw`: the backing bytes are
    /// row-major pixels of three channels each, so the pixel at (x, y)
    /// starts at byte 3 * (y * width + x).
    #[verifier::external_body]
    fn into_raw_inner(self) -> (r: Vec<u8>)
        ensures
            r@.len() == 3 * rgb_dims(self).0 as int * rgb_dims(self).1 as int,
            forall|x: int, y: int|
                0 <= x < rgb_dims(self).0 && 0 <= y < rgb_dims(self).1 ==> {
                    let w = rgb_dims(self).0 as int;
                    #[trigger] rgb_pix(self)[(x, y)] == (
                    r@[3 * (y * w + x)],
                    r@[3 * (y * w + x) + 1],
                    r@[3 * (y * w + x) + 2],
                    )
                },
    {
        self.inner.into_raw()
    }

    /// The buffer's bytes, row-major, three channels per pixel.
    pub fn into_bytes(self) -> (r: Vec<u8>)
        ensures
            r@.len() == 3 * rgb_dims(self).0 as int * rgb_dims(self).1 as int,
            forall|x: int, y: int|
                0 <= x < rgb_dims(self).0 && 0 <= y < rgb_dims(self).1 ==> {
                    let w = rgb_dims(self).0 as int;
                    #[trigger] rgb_pix(self)[(x, y)] == (
                    r@[3 * (y * w + x)],
                    r@[3 * (y * w + x) + 1],
                    r@[3 * (y * w + x) + 2],
                    )
                },
    {
        self.into_raw_inner()
    }
}

} // verus!
