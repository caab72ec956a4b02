//! Texture upload decisions.
//!
//! Image decoding and the GPU upload are host work; the engine decides
//! here which GPU formats an image's pixel layout maps to and whether
//! the texture carries an alpha channel.  An unrecognised layout falls
//! back to the opaque three-channel format.

use vstd::prelude::*;

verus! {

/// The GPU's four-channel internal format.
pub const GL_RGBA8: u32 = 0x8058;

/// The GPU's three-channel internal format.
pub const GL_RGB8: u32 = 0x8051;

/// The four-channel pixel transfer format.
pub const GL_RGBA: u32 = 0x1908;

/// The three-channel pixel transfer format.
pub const GL_RGB: u32 = 0x1907;

/// The pixel layout of a decoded image, as far as the upload cares.
#[derive(Debug, Clone, Copy, PartialEq, Eq, Structural)]
pub enum PixelLayout {
    /// Four 8-bit channels.
    Rgba8,
    /// Three 8-bit channels.
    Rgb8,
    /// Anything else; uploaded as three channels.
    Other,
}

/// The GPU formats and the alpha flag for one layout.
#[derive(Debug, Clone, Copy, PartialEq, Eq, Structural)]
pub struct UploadFormat {
    pub internal_format: u32,
    pub format: u32,
    pub has_alpha: bool,
}

/// The formats a layout maps to: four-channel images keep their alpha,
/// everything else is uploaded opaque as three channels.
pub open spec fn upload_format_spec(layout: PixelLayout) -> UploadFormat {
    match layout {
        PixelLayout::Rgba8 => UploadFormat {
            internal_format: 0x8058,
            format: 0x1908,
            has_alpha: true,
        },
        _ => UploadFormat { internal_format: 0x8051, format: 0x1907, has_alpha: false },
    }
}

/// Decides the GPU formats for one pixel layout.
pub fn upload_format(layout: PixelLayout) -> (r: UploadFormat)
    ensures
        r == upload_format_spec(layout),
{
    match layout {
        PixelLayout::Rgba8 => UploadFormat {
            internal_format: GL_RGBA8,
            format: GL_RGBA,
            has_alpha: true,
        },
        _ => UploadFormat { internal_format: GL_RGB8, format: GL_RGB, has_alpha: false },
    }
}

/// One texture: the GPU handles the host fills in, the source path and
/// the upload options.  A handle of zero means allocation has not
/// happened or failed (which the engine reports and survives).
#[derive(Debug, Clone)]
pub struct Texture {
    pub id: u32,
    pub src: String,
    pub flipv: bool,
    pub linear_sampler: u32,
    pub has_alpha: bool,
}

impl Texture {
    /// A texture not yet uploaded, to be read from the given path and
    /// optionally flipped vertically.
    pub fn new(path: &str, flip_verticall: bool) -> (r: Self)
        ensures
            r.id == 0,
            r.linear_sampler == 0,
            !r.has_alpha,
            r.flipv == flip_verticall,
            r.src@ == path@,
    {
        Texture { id: 0, src: path.to_owned(), flipv: flip_verticall, linear_sampler: 0, has_alpha: false }
    }

    /// Records what the host's upload produced: the texture and sampler
    /// handles and the alpha flag of the chosen format.
    pub fn record_upload(&mut self, id: u32, linear_sampler: u32, has_alpha: bool)
        ensures
            final(self).id == id,
            final(self).linear_sampler == linear_sampler,
            final(self).has_alpha == has_alpha,
            final(self).src == old(self).src,
            final(self).flipv == old(self).flipv,
    {
        self.id = id;
        self.linear_sampler = linear_sampler;
        self.has_alpha = has_alpha;
    }
}

} // verus!
