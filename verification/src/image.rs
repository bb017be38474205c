//! Images, pixels and texture deltas as the renderer consumes them.
//!
//! Every value here is plain data. Coverage images carry their intensities
//! already quantised to eight bits, so that the expansion into pixels is exact
//! integer work.

use vstd::prelude::*;

verus! {

/// One RGBA8 pixel with premultiplied alpha: red, green, blue, alpha.
pub type Pixel = [u8; 4];

/// The opaque identifier under which the GUI layer knows a texture.
#[derive(Clone, Copy, PartialEq, Eq, Structural, Debug, Hash)]
pub enum TextureId {
    /// Issued by the GUI layer's own texture manager.
    Managed(u64),
    /// Issued by the embedding application.
    User(u64),
}

/// A full-colour image, row by row from the top, already premultiplied.
#[derive(Clone, PartialEq, Eq, Debug)]
pub struct ColorImage {
    pub width: usize,
    pub height: usize,
    pub pixels: Vec<Pixel>,
}

/// A single-channel coverage image, row by row from the top. Each entry is
/// the coverage of one pixel on the scale 0 (none) to 255 (full).
#[derive(Clone, PartialEq, Eq, Debug)]
pub struct FontImage {
    pub width: usize,
    pub height: usize,
    pub pixels: Vec<u8>,
}

/// The two kinds of image a texture can be built from.
#[derive(Clone, PartialEq, Eq, Debug)]
pub enum ImageData {
    Color(ColorImage),
    Font(FontImage),
}

/// One change to one texture: the whole image when `pos` is `None`, else a
/// window whose top-left corner lies at `pos` (column, row).
#[derive(Clone, PartialEq, Eq, Debug)]
pub struct ImageDelta {
    pub image: ImageData,
    pub pos: Option<(usize, usize)>,
}

/// What one frame asks of the texture pool: images to set, in the order in
/// which they were submitted, and textures to free afterwards.
#[derive(Clone, PartialEq, Eq, Debug)]
pub struct TexturesDelta {
    pub set: Vec<(TextureId, ImageDelta)>,
    pub free: Vec<TextureId>,
}

/// The pixel that stands for coverage `a`: white, with `a` as premultiplied
/// alpha.
pub open spec fn white(a: u8) -> Pixel {
    [255u8, 255u8, 255u8, a]
}

/// The pixel that a window leaves in the part of an upload it does not cover.
pub open spec fn blank() -> Pixel {
    [0u8, 0u8, 0u8, 0u8]
}

/// The pixels of an image as a texture caches them.
pub open spec fn decoded(image: ImageData) -> Seq<Pixel> {
    match image {
        ImageData::Color(c) => c.pixels@,
        ImageData::Font(f) => Seq::new(f.pixels@.len(), |i: int| white(f.pixels@[i])),
    }
}

impl ColorImage {
    /// The image holds exactly one pixel per position.
    pub open spec fn valid(&self) -> bool {
        self.pixels@.len() == self.width * self.height
    }
}

impl FontImage {
    /// The image holds exactly one coverage value per position.
    pub open spec fn valid(&self) -> bool {
        self.pixels@.len() == self.width * self.height
    }
}

impl ImageData {
    pub open spec fn spec_width(&self) -> usize {
        match *self {
            ImageData::Color(c) => c.width,
            ImageData::Font(f) => f.width,
        }
    }

    pub open spec fn spec_height(&self) -> usize {
        match *self {
            ImageData::Color(c) => c.height,
            ImageData::Font(f) => f.height,
        }
    }

    pub open spec fn spec_len(&self) -> nat {
        match *self {
            ImageData::Color(c) => c.pixels@.len(),
            ImageData::Font(f) => f.pixels@.len(),
        }
    }

    /// The image holds exactly one entry per position.
    pub open spec fn valid(&self) -> bool {
        self.spec_len() == self.spec_width() * self.spec_height()
    }

    #[verifier::when_used_as_spec(spec_width)]
    pub fn width(&self) -> (w: usize)
        ensures
            w == self.spec_width(),
    {
        match self {
            ImageData::Color(c) => c.width,
            ImageData::Font(f) => f.width,
        }
    }

    #[verifier::when_used_as_spec(spec_height)]
    pub fn height(&self) -> (h: usize)
        ensures
            h == self.spec_height(),
    {
        match self {
            ImageData::Color(c) => c.height,
            ImageData::Font(f) => f.height,
        }
    }

    /// Tells whether the number of entries is width times height.
    pub fn is_valid(&self) -> (ok: bool)
        ensures
            ok == self.valid(),
    {
        let len: usize = match self {
            ImageData::Color(c) => c.pixels.len(),
            ImageData::Font(f) => f.pixels.len(),
        };
        match self.width().checked_mul(self.height()) {
            Some(n) => n == len,
            None => false,
        }
    }

    /// Expands the image into the pixels a texture caches: a colour image as
    /// it stands, a coverage image as white of that coverage.
    pub fn decode(&self) -> (pixels: Vec<Pixel>)
        ensures
            pixels@ == decoded(*self),
    {
        match self {
            ImageData::Color(c) => {
                let mut out: Vec<Pixel> = Vec::new();
                let mut i: usize = 0;
                while i < c.pixels.len()
                    invariant
                        i <= c.pixels@.len(),
                        out@ == c.pixels@.take(i as int),
                    decreases c.pixels@.len() - i,
                {
                    out.push(c.pixels[i]);
                    assert(c.pixels@.take(i as int).push(c.pixels@[i as int]) =~= c.pixels@.take(
                        i + 1,
                    ));
                    i += 1;
                }
                assert(c.pixels@.take(i as int) =~= c.pixels@);
                out
            },
            ImageData::Font(f) => {
                let mut out: Vec<Pixel> = Vec::new();
                let mut i: usize = 0;
                while i < f.pixels.len()
                    invariant
                        i <= f.pixels@.len(),
                        out@.len() == i,
                        forall|j: int| 0 <= j < i ==> out@[j] == white(f.pixels@[j]),
                    decreases f.pixels@.len() - i,
                {
                    out.push(coverage_pixel(f.pixels[i]));
                    i += 1;
                }
                assert(out@ =~= decoded(*self));
                out
            },
        }
    }
}

impl ImageDelta {
    pub open spec fn spec_is_whole(&self) -> bool {
        self.pos is None
    }

    /// Whether the delta replaces the texture rather than a window of it.
    #[verifier::when_used_as_spec(spec_is_whole)]
    pub fn is_whole(&self) -> (whole: bool)
        ensures
            whole == self.spec_is_whole(),
    {
        self.pos.is_none()
    }
}

/// `egui::Color32::from_rgba_premultiplied` followed by `Color32::to_array`:
/// the four channels are stored as given and handed back in the order red,
/// green, blue, alpha.
#[verifier::external_body]
fn premultiplied(r: u8, g: u8, b: u8, a: u8) -> (px: Pixel)
    ensures
        px@ == seq![r, g, b, a],
{
    egui::Color32::from_rgba_premultiplied(r, g, b, a).to_array()
}

/// The pixel for coverage `a`: white at that premultiplied alpha.
pub fn coverage_pixel(a: u8) -> (px: Pixel)
    ensures
        px == white(a),
{
    let px = premultiplied(255, 255, 255, a);
    assert(px@ =~= white(a)@);
    px
}

} // verus!
