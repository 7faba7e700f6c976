//! Wallpaper images: decoded pixel data and its one-way move onto the GPU.
use vstd::prelude::*;

use crate::geometry::Size;

verus! {

/// OpenGL ES 2 pixel format names.
pub const GL_LUMINANCE: u32 = 0x1909;
pub const GL_LUMINANCE_ALPHA: u32 = 0x190A;
pub const GL_RGB: u32 = 0x1907;
pub const GL_RGBA: u32 = 0x1908;

/// Channel layout of decoded pixel data.
#[derive(PartialEq, Eq, Structural, Copy, Clone, Debug)]
pub enum ChannelLayout {
    /// One luminance byte per pixel.
    Luma,
    /// Luminance and alpha bytes.
    LumaAlpha,
    /// Red, green and blue bytes.
    Rgb,
    /// Red, green, blue and alpha bytes.
    Rgba,
}

impl ChannelLayout {
    pub open spec fn spec_channels(self) -> nat {
        match self {
            ChannelLayout::Luma => 1,
            ChannelLayout::LumaAlpha => 2,
            ChannelLayout::Rgb => 3,
            ChannelLayout::Rgba => 4,
        }
    }

    /// OpenGL pixel format that uploads data in this layout.
    pub fn gl_format(&self) -> (r: u32)
        ensures
            r == match self {
                ChannelLayout::Luma => GL_LUMINANCE,
                ChannelLayout::LumaAlpha => GL_LUMINANCE_ALPHA,
                ChannelLayout::Rgb => GL_RGB,
                ChannelLayout::Rgba => GL_RGBA,
            },
    {
        match self {
            ChannelLayout::Luma => GL_LUMINANCE,
            ChannelLayout::LumaAlpha => GL_LUMINANCE_ALPHA,
            ChannelLayout::Rgb => GL_RGB,
            ChannelLayout::Rgba => GL_RGBA,
        }
    }

    /// Bytes per pixel.
    pub fn channels(&self) -> (r: usize)
        ensures
            r == self.spec_channels(),
    {
        match self {
            ChannelLayout::Luma => 1,
            ChannelLayout::LumaAlpha => 2,
            ChannelLayout::Rgb => 3,
            ChannelLayout::Rgba => 4,
        }
    }
}

/// Why decoded pixel data was rejected.
#[derive(PartialEq, Eq, Structural, Copy, Clone, Debug)]
pub enum PixelDataError {
    /// The image has no width or no height.
    Empty,
    /// The byte count is not `width * height * channels`.
    LengthMismatch,
}

impl PixelDataError {
    /// Human-readable description of the error.
    pub fn message(&self) -> (r: &'static str) {
        match self {
            PixelDataError::Empty => "image has no pixels",
            PixelDataError::LengthMismatch => "pixel data does not match the image dimensions",
        }
    }
}

/// Byte count of a `width x height` image in `layout`.
pub open spec fn pixel_bytes(width: u32, height: u32, layout: ChannelLayout) -> nat {
    width as nat * height as nat * layout.spec_channels()
}

/// Decoded pixel data of a non-empty image, waiting to be uploaded.
pub struct RawImage {
    bytes: Vec<u8>,
    width: u32,
    height: u32,
    layout: ChannelLayout,
}

impl RawImage {
    #[verifier::type_invariant]
    closed spec fn well_formed(self) -> bool {
        &&& self.width > 0
        &&& self.height > 0
        &&& self.bytes@.len() == pixel_bytes(self.width, self.height, self.layout)
    }

    pub closed spec fn spec_bytes(&self) -> Seq<u8> {
        self.bytes@
    }

    pub closed spec fn spec_size(&self) -> Size<u32> {
        Size { width: self.width, height: self.height }
    }

    pub closed spec fn spec_layout(&self) -> ChannelLayout {
        self.layout
    }

    /// Take decoded pixel data of a `width x height` image in `layout`.
    pub fn new(bytes: Vec<u8>, width: u32, height: u32, layout: ChannelLayout) -> (r: Result<
        RawImage,
        PixelDataError,
    >)
        ensures
            (width == 0 || height == 0) ==> r == Err::<RawImage, PixelDataError>(
                PixelDataError::Empty,
            ),
            (width > 0 && height > 0 && bytes@.len() != pixel_bytes(width, height, layout)) ==> r
                == Err::<RawImage, PixelDataError>(PixelDataError::LengthMismatch),
            r is Ok <==> (width > 0 && height > 0 && bytes@.len() == pixel_bytes(
                width,
                height,
                layout,
            )),
            r matches Ok(image) ==> image.spec_bytes() == bytes@ && image.spec_size() == (Size {
                width,
                height,
            }) && image.spec_layout() == layout,
    {
        if width == 0 || height == 0 {
            return Err(PixelDataError::Empty);
        }
        let channels = layout.channels();
        assert(width as nat * height as nat * channels as nat <= 0xffff_ffff * 0xffff_ffff * 4)
            by (nonlinear_arith)
            requires
                channels <= 4,
        ;
        let expected: u128 = width as u128 * height as u128 * channels as u128;
        if bytes.len() as u128 != expected {
            return Err(PixelDataError::LengthMismatch);
        }
        Ok(RawImage { bytes, width, height, layout })
    }

    pub fn size(&self) -> (r: Size<u32>)
        ensures
            r == self.spec_size(),
            r.width > 0,
            r.height > 0,
    {
        proof {
            use_type_invariant(self);
        }
        Size { width: self.width, height: self.height }
    }

    pub fn layout(&self) -> (r: ChannelLayout)
        ensures
            r == self.spec_layout(),
    {
        self.layout
    }

    pub fn bytes(&self) -> (r: &[u8])
        ensures
            r@ == self.spec_bytes(),
            r@.len() == pixel_bytes(self.spec_size().width, self.spec_size().height, self.spec_layout()),
    {
        proof {
            use_type_invariant(self);
        }
        self.bytes.as_slice()
    }
}

/// An image uploaded to the GPU: the texture's name in its context and the
/// image's size.
#[derive(PartialEq, Eq, Structural, Copy, Clone, Debug)]
pub struct Texture {
    pub id: u32,
    pub width: u32,
    pub height: u32,
}

impl Texture {
    pub fn new(id: u32, width: u32, height: u32) -> (r: Texture)
        ensures
            r == (Texture { id, width, height }),
    {
        Texture { id, width, height }
    }
}

/// A wallpaper image, decoded at startup and uploaded on first draw.
pub enum Image {
    Unloaded(RawImage),
    Loaded(Texture),
}

impl Image {
    pub open spec fn spec_size(&self) -> Size<u32> {
        match self {
            Image::Unloaded(raw) => raw.spec_size(),
            Image::Loaded(texture) => Size { width: texture.width, height: texture.height },
        }
    }

    /// Source image dimensions.
    pub fn size(&self) -> (r: Size<u32>)
        ensures
            r == self.spec_size(),
    {
        match self {
            Image::Unloaded(raw) => raw.size(),
            Image::Loaded(texture) => Size { width: texture.width, height: texture.height },
        }
    }

    /// Pixel data still to upload, if the image is not on the GPU yet.
    pub fn pending_upload(&self) -> (r: Option<&RawImage>)
        ensures
            r is Some <==> self is Unloaded,
            r matches Some(raw) ==> self == Image::Unloaded(*raw),
    {
        match self {
            Image::Unloaded(raw) => Some(raw),
            Image::Loaded(_) => None,
        }
    }

    /// Record that the pixel data now lives in texture `id`; an image that is
    /// already loaded keeps its texture.
    pub fn mark_loaded(&mut self, id: u32)
        ensures
            *old(self) is Unloaded ==> *final(self) == Image::Loaded(
                Texture { id, width: old(self).spec_size().width, height: old(self).spec_size().height },
            ),
            *old(self) is Loaded ==> *final(self) == *old(self),
            final(self).spec_size() == old(self).spec_size(),
    {
        if let Image::Unloaded(raw) = self {
            let size = raw.size();
            *self = Image::Loaded(Texture { id, width: size.width, height: size.height });
        }
    }

    /// The texture, once the image has been uploaded.
    pub fn texture(&self) -> (r: Option<Texture>)
        ensures
            r is Some <==> self is Loaded,
            r matches Some(t) ==> *self == Image::Loaded(t),
    {
        match self {
            Image::Unloaded(_) => None,
            Image::Loaded(texture) => Some(*texture),
        }
    }
}

} // verus!
