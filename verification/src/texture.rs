//! The pool of GPU textures, keyed by the GUI layer's identifiers.
//!
//! The pool owns one resource per identifier together with a CPU copy of its
//! pixels. Resources are made and written by the caller's device, which the
//! pool reaches through two functions handed to `update`.

use vstd::prelude::*;
use vstd::arithmetic::div_mod::lemma_fundamental_div_mod;
use vstd::arithmetic::div_mod::lemma_fundamental_div_mod_converse;
use std::collections::HashMap;
use crate::image::{
    blank, coverage_pixel, decoded, white, FontImage, ImageData, ImageDelta, Pixel, TextureId,
    TexturesDelta,
};

verus! {

/// One live texture: the device's resource, the pixels it was last given,
/// and its size in pixels.
#[derive(Debug)]
pub struct Texture<R> {
    pub resource: R,
    pub pixels: Vec<Pixel>,
    pub width: usize,
    pub height: usize,
}

/// The box of a texture that an upload overwrites. `right`, `bottom` and
/// `back` are exclusive.
#[derive(Clone, Copy, PartialEq, Eq, Structural, Debug)]
pub struct Region {
    pub left: usize,
    pub top: usize,
    pub front: usize,
    pub right: usize,
    pub bottom: usize,
    pub back: usize,
}

/// The write that brings a texture's resource up to date after a window of
/// it changed. `data` holds one row per row of `region`; rows lie
/// `row_pitch` pixels apart, which is the full width of the texture.
#[derive(Clone, PartialEq, Eq, Debug)]
pub struct Upload {
    pub region: Region,
    pub data: Vec<Pixel>,
    pub row_pitch: usize,
}

/// Whether position `i` of a row-major buffer with `stride` pixels per row
/// lies in the window of `w` by `h` pixels whose corner is at (`nx`, `ny`).
pub open spec fn in_window(i: int, stride: int, nx: int, ny: int, w: int, h: int) -> bool {
    nx <= i % stride < nx + w && ny <= i / stride < ny + h
}

/// The cached pixels after coverage image `f` was written at (`nx`, `ny`):
/// inside the window each pixel is white at the coverage given for it,
/// outside it nothing changes.
pub open spec fn patched(before: Seq<Pixel>, stride: int, f: FontImage, nx: int, ny: int) -> Seq<
    Pixel,
> {
    Seq::new(
        before.len(),
        |i: int|
            if in_window(i, stride, nx, ny, f.width as int, f.height as int) {
                white(f.pixels@[(i / stride - ny) * f.width + (i % stride - nx)])
            } else {
                before[i]
            },
    )
}

/// The rows handed to the device for that write: the new pixels of each row
/// of the window, followed by blanks up to the stride.
pub open spec fn staged(stride: int, f: FontImage) -> Seq<Pixel> {
    Seq::new(
        (f.height * stride) as nat,
        |j: int|
            if j % stride < f.width {
                white(f.pixels@[(j / stride) * f.width + j % stride])
            } else {
                blank()
            },
    )
}

/// The box that a window of `w` by `h` pixels at (`nx`, `ny`) covers.
pub open spec fn window_region(nx: int, ny: int, w: int, h: int) -> Region {
    Region {
        left: nx as usize,
        top: ny as usize,
        front: 0,
        right: (nx + w) as usize,
        bottom: (ny + h) as usize,
        back: 1,
    }
}

impl<R> Texture<R> {
    /// The cache holds one pixel per position.
    pub open spec fn wf(&self) -> bool {
        self.pixels@.len() == self.width * self.height
    }

    /// Whether a window of `f`'s size at (`nx`, `ny`) lies inside the texture.
    pub open spec fn holds_window(&self, f: FontImage, nx: int, ny: int) -> bool {
        nx + f.width <= self.width && ny + f.height <= self.height
    }
}

proof fn lemma_cell(row: int, col: int, stride: int, rows: int)
    requires
        0 <= row < rows,
        0 <= col < stride,
    ensures
        0 <= row * stride + col < rows * stride,
        (row * stride + col) / stride == row,
        (row * stride + col) % stride == col,
{
    assert(row * stride + col < rows * stride && 0 <= row * stride) by (nonlinear_arith)
        requires
            0 <= row < rows,
            0 <= col < stride,
    ;
    lemma_fundamental_div_mod_converse(row * stride + col, stride, row, col);
}

proof fn lemma_cell_of(i: int, stride: int)
    requires
        0 < stride,
        0 <= i,
    ensures
        i == (i / stride) * stride + i % stride,
        0 <= i % stride < stride,
        0 <= i / stride,
{
    lemma_fundamental_div_mod(i, stride);
    assert(stride * (i / stride) == (i / stride) * stride) by (nonlinear_arith);
    assert(0 <= i / stride) by (nonlinear_arith)
        requires
            0 < stride,
            0 <= i,
    ;
}

/// Writes coverage image `f` into the cache of `tex` with its corner at
/// (`nx`, `ny`) and returns the upload that does the same to the resource.
pub fn update_partial<R>(tex: &mut Texture<R>, f: &FontImage, nx: usize, ny: usize) -> (up: Upload)
    requires
        old(tex).wf(),
        f.valid(),
        old(tex).holds_window(*f, nx as int, ny as int),
    ensures
        final(tex).wf(),
        final(tex).resource == old(tex).resource,
        final(tex).width == old(tex).width,
        final(tex).height == old(tex).height,
        final(tex).pixels@ == patched(old(tex).pixels@, old(tex).width as int, *f, nx as int, ny as int),
        up.data@ == staged(old(tex).width as int, *f),
        up.region == window_region(nx as int, ny as int, f.width as int, f.height as int),
        up.row_pitch == old(tex).width,
{
    let row_pitch = tex.width;
    let ghost stride = tex.width as int;
    let ghost before = tex.pixels@;
    let mut data: Vec<Pixel> = Vec::new();
    let mut y: usize = 0;
    while y < f.height
        invariant
            y <= f.height,
            f.valid(),
            row_pitch == tex.width,
            stride == tex.width as int,
            tex.width == old(tex).width,
            tex.height == old(tex).height,
            tex.resource == old(tex).resource,
            tex.pixels@.len() == before.len(),
            before.len() == tex.width * tex.height,
            nx + f.width <= tex.width,
            ny + f.height <= tex.height,
            data@.len() == y * stride,
            forall|j: int| 0 <= j < data@.len() ==> data@[j] == staged(stride, *f)[j],
            forall|i: int|
                0 <= i < before.len() ==> tex.pixels@[i] == (if in_window(
                    i,
                    stride,
                    nx as int,
                    ny as int,
                    f.width as int,
                    y as int,
                ) {
                    patched(before, stride, *f, nx as int, ny as int)[i]
                } else {
                    before[i]
                }),
        decreases f.height - y,
    {
        let mut x: usize = 0;
        while x < f.width
            invariant
                y < f.height,
                x <= f.width,
                f.valid(),
                row_pitch == tex.width,
                stride == tex.width as int,
                tex.width == old(tex).width,
                tex.height == old(tex).height,
                tex.resource == old(tex).resource,
                tex.pixels@.len() == before.len(),
                before.len() == tex.width * tex.height,
                nx + f.width <= tex.width,
                ny + f.height <= tex.height,
                data@.len() == y * stride + x,
                forall|j: int| 0 <= j < data@.len() ==> data@[j] == staged(stride, *f)[j],
                forall|i: int|
                    0 <= i < before.len() ==> tex.pixels@[i] == (if in_window(
                        i,
                        stride,
                        nx as int,
                        ny as int,
                        f.width as int,
                        y as int,
                    ) || (i / stride == ny + y && nx <= i % stride < nx + x) {
                        patched(before, stride, *f, nx as int, ny as int)[i]
                    } else {
                        before[i]
                    }),
            decreases f.width - x,
        {
            proof {
                lemma_cell(y as int, x as int, f.width as int, f.height as int);
                lemma_cell((ny + y) as int, (nx + x) as int, stride, tex.height as int);
                lemma_cell(y as int, x as int, stride, f.height as int);
                assert(f.height * f.width == f.width * f.height) by (nonlinear_arith);
                assert(f.pixels.len() == f.pixels@.len());
                assert(tex.pixels.len() == tex.pixels@.len());
                assert(tex.height * stride == tex.width * tex.height) by (nonlinear_arith)
                    requires
                        stride == tex.width as int,
                ;
            }
            let frac = y * f.width + x;
            let whole = (ny + y) * tex.width + nx + x;
            let new_color = coverage_pixel(f.pixels[frac]);
            let ghost prev = tex.pixels@;
            tex.pixels.set(whole, new_color);
            data.push(new_color);
            proof {
                assert forall|i: int| 0 <= i < before.len() implies tex.pixels@[i] == (if in_window(
                    i,
                    stride,
                    nx as int,
                    ny as int,
                    f.width as int,
                    y as int,
                ) || (i / stride == ny + y && nx <= i % stride < nx + x + 1) {
                    patched(before, stride, *f, nx as int, ny as int)[i]
                } else {
                    before[i]
                }) by {
                    lemma_cell_of(i, stride);
                    if i != whole {
                        assert(tex.pixels@[i] == prev[i]);
                    }
                }
            }
            x += 1;
        }
        let mut pad: usize = f.width;
        while pad < row_pitch
            invariant
                y < f.height,
                f.width <= pad <= row_pitch,
                row_pitch == stride,
                data@.len() == y * stride + pad,
                forall|j: int| 0 <= j < data@.len() ==> data@[j] == staged(stride, *f)[j],
            decreases row_pitch - pad,
        {
            proof {
                lemma_cell(y as int, pad as int, stride, f.height as int);
            }
            data.push([0u8, 0u8, 0u8, 0u8]);
            assert(data@[data@.len() - 1] =~= blank());
            pad += 1;
        }
        proof {
            assert((y + 1) * stride == y * stride + stride) by (nonlinear_arith);
            assert forall|i: int| 0 <= i < before.len() implies tex.pixels@[i] == (if in_window(
                i,
                stride,
                nx as int,
                ny as int,
                f.width as int,
                y + 1,
            ) {
                patched(before, stride, *f, nx as int, ny as int)[i]
            } else {
                before[i]
            }) by {}
        }
        y += 1;
    }
    proof {
        assert(tex.pixels@ =~= patched(before, stride, *f, nx as int, ny as int));
        assert(data@ =~= staged(stride, *f));
    }
    Upload {
        region: Region {
            left: nx,
            top: ny,
            front: 0,
            right: nx + f.width,
            bottom: ny + f.height,
            back: 1,
        },
        data,
        row_pitch,
    }
}

/// The pixel layouts the renderer hands to the device.
#[derive(Clone, Copy, PartialEq, Eq, Structural, Debug)]
pub enum Format {
    /// Four 8-bit channels, unsigned normalised, sRGB encoded.
    R8G8B8A8UnormSrgb,
    /// One 32-bit unsigned integer.
    R32Uint,
    /// Two 32-bit floats.
    R32G32Float,
    /// Four 32-bit floats.
    R32G32B32A32Float,
}

/// How the device may reach a resource.
#[derive(Clone, Copy, PartialEq, Eq, Structural, Debug)]
pub enum Usage {
    /// Written once at creation, then read by the GPU only.
    Immutable,
    /// Read by the GPU, written by the CPU.
    Dynamic,
}

/// What the device is asked for when a texture is made.
#[derive(Clone, Copy, PartialEq, Eq, Structural, Debug)]
pub struct TextureDesc {
    pub width: usize,
    pub height: usize,
    pub mip_levels: u32,
    pub array_size: u32,
    pub format: Format,
    pub sample_count: u32,
    pub sample_quality: u32,
    pub usage: Usage,
    /// The texture is bound as a shader resource.
    pub shader_resource: bool,
    /// The CPU may write to it.
    pub cpu_write: bool,
    /// Pixels between the starts of two rows of the initial data.
    pub row_pitch: usize,
}

/// The descriptor of the texture for an image of `width` by `height`: one
/// mip level, one slice, sRGB, one sample, dynamic, readable by shaders and
/// writable by the CPU, rows tightly packed.
pub open spec fn texture_desc(width: usize, height: usize) -> TextureDesc {
    TextureDesc {
        width,
        height,
        mip_levels: 1,
        array_size: 1,
        format: Format::R8G8B8A8UnormSrgb,
        sample_count: 1,
        sample_quality: 0,
        usage: Usage::Dynamic,
        shader_resource: true,
        cpu_write: true,
        row_pitch: width,
    }
}

/// `res` is what `create` may hand back for `image`.
pub open spec fn made_by<R, E, C: Fn(&TextureDesc, &Vec<Pixel>) -> Result<R, E>>(
    create: C,
    image: ImageData,
    res: Result<R, E>,
) -> bool {
    exists|px: Vec<Pixel>|
        px@ == decoded(image) && #[trigger] call_ensures(
            create,
            (&texture_desc(image.width(), image.height()), &px),
            res,
        )
}

/// Decodes `image` and has the device make a texture of it.
pub fn create_texture<R, E, C: Fn(&TextureDesc, &Vec<Pixel>) -> Result<R, E>>(
    create: &C,
    image: &ImageData,
) -> (r: Result<Texture<R>, E>)
    requires
        image.valid(),
        forall|d: &TextureDesc, px: &Vec<Pixel>| call_requires(*create, (d, px)),
    ensures
        match r {
            Ok(t) => {
                &&& t.wf()
                &&& t.width == image.width()
                &&& t.height == image.height()
                &&& t.pixels@ == decoded(*image)
                &&& made_by(*create, *image, Ok::<R, E>(t.resource))
            },
            Err(e) => made_by(*create, *image, Err::<R, E>(e)),
        },
{
    let width = image.width();
    let height = image.height();
    let pixels = image.decode();
    let desc = TextureDesc {
        width,
        height,
        mip_levels: 1,
        array_size: 1,
        format: Format::R8G8B8A8UnormSrgb,
        sample_count: 1,
        sample_quality: 0,
        usage: Usage::Dynamic,
        shader_resource: true,
        cpu_write: true,
        row_pitch: width,
    };
    match create(&desc, &pixels) {
        Ok(resource) => Ok(Texture { resource, pixels, width, height }),
        Err(e) => Err(e),
    }
}

/// What the pool knows of one texture besides its resource.
pub struct TextureView {
    pub pixels: Seq<Pixel>,
    pub width: usize,
    pub height: usize,
}

impl TextureView {
    /// One pixel per position.
    pub open spec fn wf(&self) -> bool {
        self.pixels.len() == self.width * self.height
    }
}

impl<R> View for Texture<R> {
    type V = TextureView;

    open spec fn view(&self) -> TextureView {
        TextureView { pixels: self.pixels@, width: self.width, height: self.height }
    }
}

/// Why an image delta cannot be applied.
#[derive(Clone, Copy, PartialEq, Eq, Structural, Debug)]
pub enum Fault {
    /// The image does not hold one entry per position.
    Malformed,
    /// A window was given as a colour image; only coverage images may
    /// change part of a texture.
    NotCoverage,
    /// The window does not lie inside the texture it is written to.
    OutOfBounds,
}

/// Why `update` stopped.
#[derive(Clone, PartialEq, Eq, Debug)]
pub enum UpdateError<E> {
    /// The device could not make a texture.
    Device(E),
    /// The delta asks for something that has no meaning.
    Rejected(Fault),
}

/// What a texture made from the whole of `image` caches.
pub open spec fn texture_of(image: ImageData) -> TextureView {
    TextureView { pixels: decoded(image), width: image.width(), height: image.height() }
}

/// What is wrong with delta `d` for `id` on a pool that holds `pool`, if
/// anything. A window for an identifier that is not live is never at fault:
/// it is ignored.
pub open spec fn fault(pool: Map<TextureId, TextureView>, id: TextureId, d: ImageDelta) -> Option<
    Fault,
> {
    match d.pos {
        None => if d.image.valid() {
            None
        } else {
            Some(Fault::Malformed)
        },
        Some((nx, ny)) => if !pool.contains_key(id) {
            None
        } else {
            match d.image {
                ImageData::Color(_) => Some(Fault::NotCoverage),
                ImageData::Font(f) => if !f.valid() {
                    Some(Fault::Malformed)
                } else if nx + f.width <= pool[id].width && ny + f.height <= pool[id].height {
                    None
                } else {
                    Some(Fault::OutOfBounds)
                },
            }
        },
    }
}

/// The pool after delta `d` for `id`: a whole image replaces what was live
/// under `id`; a window changes the pixels it covers; a window for an
/// identifier that is not live changes nothing.
pub open spec fn applied(pool: Map<TextureId, TextureView>, id: TextureId, d: ImageDelta) -> Map<
    TextureId,
    TextureView,
> {
    match d.pos {
        None => pool.insert(id, texture_of(d.image)),
        Some((nx, ny)) => match d.image {
            ImageData::Font(f) => if pool.contains_key(id) {
                pool.insert(
                    id,
                    TextureView {
                        pixels: patched(
                            pool[id].pixels,
                            pool[id].width as int,
                            f,
                            nx as int,
                            ny as int,
                        ),
                        width: pool[id].width,
                        height: pool[id].height,
                    },
                )
            } else {
                pool
            },
            ImageData::Color(_) => pool,
        },
    }
}

/// The pool after the first `k` deltas of `set`, in order.
pub open spec fn after_set(
    pool: Map<TextureId, TextureView>,
    set: Seq<(TextureId, ImageDelta)>,
    k: int,
) -> Map<TextureId, TextureView>
    decreases k,
{
    if k <= 0 {
        pool
    } else {
        applied(after_set(pool, set, k - 1), set[k - 1].0, set[k - 1].1)
    }
}

/// None of the first `k` deltas of `set` is at fault when its turn comes.
pub open spec fn clean(
    pool: Map<TextureId, TextureView>,
    set: Seq<(TextureId, ImageDelta)>,
    k: int,
) -> bool {
    forall|j: int|
        0 <= j < k ==> (#[trigger] fault(after_set(pool, set, j), set[j].0, set[j].1)) is None
}

/// The entries of `pool` whose identifier is not in `free`.
pub open spec fn after_free<V>(pool: Map<TextureId, V>, free: Seq<TextureId>) -> Map<TextureId, V> {
    Map::new(|id: TextureId| pool.contains_key(id) && !free.contains(id), |id: TextureId| pool[id])
}

/// `up` is the write for coverage image `f` at (`nx`, `ny`) on a texture
/// that is `stride` pixels wide.
pub open spec fn is_upload(up: Upload, stride: usize, f: FontImage, nx: usize, ny: usize) -> bool {
    &&& up.data@ == staged(stride as int, f)
    &&& up.region == window_region(nx as int, ny as int, f.width as int, f.height as int)
    &&& up.row_pitch == stride
}

/// Where the resource `now` of `id` comes from after the first `k` deltas
/// of `set` on a pool that cached `before` and held `before_res`.
///
/// A whole image for `id` has the device make a new resource. A window for
/// `id`, when a texture is live under it, hands the resource to `upload`
/// with the write for that window, and keeps what comes back. Any other
/// delta leaves the resource of `id` alone.
pub open spec fn resource_origin<R, E, C, U>(
    create: C,
    upload: U,
    before: Map<TextureId, TextureView>,
    before_res: Map<TextureId, R>,
    set: Seq<(TextureId, ImageDelta)>,
    k: int,
    id: TextureId,
    now: R,
) -> bool where C: Fn(&TextureDesc, &Vec<Pixel>) -> Result<R, E>, U: Fn(R, &Upload) -> R
    decreases k,
{
    if k <= 0 {
        before_res.contains_key(id) && now == before_res[id]
    } else {
        let entry = set[k - 1];
        let pool = after_set(before, set, k - 1);
        if entry.0 != id {
            resource_origin::<R, E, C, U>(create, upload, before, before_res, set, k - 1, id, now)
        } else {
            match entry.1.pos {
                None => made_by(create, entry.1.image, Ok::<R, E>(now)),
                Some((nx, ny)) => match entry.1.image {
                    ImageData::Font(f) => if pool.contains_key(id) {
                        exists|prev: R, up: Upload|
                            {
                                &&& resource_origin::<R, E, C, U>(
                                    create,
                                    upload,
                                    before,
                                    before_res,
                                    set,
                                    k - 1,
                                    id,
                                    prev,
                                )
                                &&& is_upload(up, pool[id].width, f, nx, ny)
                                &&& #[trigger] call_ensures(upload, (prev, &up), now)
                            }
                    } else {
                        resource_origin::<R, E, C, U>(
                            create,
                            upload,
                            before,
                            before_res,
                            set,
                            k - 1,
                            id,
                            now,
                        )
                    },
                    ImageData::Color(_) => resource_origin::<R, E, C, U>(
                        create,
                        upload,
                        before,
                        before_res,
                        set,
                        k - 1,
                        id,
                        now,
                    ),
                },
            }
        }
    }
}

/// Delta `entry` ended an update on a pool that holds `pool`, with error
/// `e`: either the entry is at fault, and `e` says how, or it is a sound whole
/// image for which `create` failed with the error that `e` carries.
pub open spec fn stopped_at<R, E, C: Fn(&TextureDesc, &Vec<Pixel>) -> Result<R, E>>(
    create: C,
    pool: Map<TextureId, TextureView>,
    entry: (TextureId, ImageDelta),
    e: UpdateError<E>,
) -> bool {
    match e {
        UpdateError::Rejected(why) => fault(pool, entry.0, entry.1) == Some(why),
        UpdateError::Device(cause) => {
            &&& entry.1.pos is None
            &&& entry.1.image.valid()
            &&& made_by(create, entry.1.image, Err::<R, E>(cause))
        },
    }
}

/// How an update that ended in `r` leaves the pool. `before` and `after`
/// are what the pool caches before and after the call, `before_res` and
/// `after_res` the resources it holds.
///
/// On success no delta was at fault, all of `set` was applied in order, then
/// `free` was freed. On an error some delta ended the call: the deltas
/// before it were sound and are applied, nothing else is. Either way every
/// resource in the pool is accounted for.
pub open spec fn updated<R, E, C, U>(
    create: C,
    upload: U,
    before: Map<TextureId, TextureView>,
    before_res: Map<TextureId, R>,
    set: Seq<(TextureId, ImageDelta)>,
    free: Seq<TextureId>,
    after: Map<TextureId, TextureView>,
    after_res: Map<TextureId, R>,
    r: Result<(), UpdateError<E>>,
) -> bool where C: Fn(&TextureDesc, &Vec<Pixel>) -> Result<R, E>, U: Fn(R, &Upload) -> R {
    match r {
        Ok(()) => {
            &&& clean(before, set, set.len() as int)
            &&& after == after_free(after_set(before, set, set.len() as int), free)
            &&& forall|id: TextureId| #[trigger]
                after.contains_key(id) ==> resource_origin::<R, E, C, U>(
                    create,
                    upload,
                    before,
                    before_res,
                    set,
                    set.len() as int,
                    id,
                    after_res[id],
                )
        },
        Err(e) => exists|k: int|
            {
                &&& 0 <= k < set.len()
                &&& clean(before, set, k)
                &&& after == after_set(before, set, k)
                &&& forall|id: TextureId| #[trigger]
                    after.contains_key(id) ==> resource_origin::<R, E, C, U>(
                        create,
                        upload,
                        before,
                        before_res,
                        set,
                        k,
                        id,
                        after_res[id],
                    )
                &&& stopped_at(create, #[trigger] after_set(before, set, k), set[k], e)
            },
    }
}

/// Whether `len` positions starting at `start` lie within `limit`.
fn window_fits(start: usize, len: usize, limit: usize) -> (ok: bool)
    ensures
        ok == (start + len <= limit),
{
    match start.checked_add(len) {
        Some(end) => end <= limit,
        None => false,
    }
}

/// The textures that are live, each under the identifier it was set with.
pub struct TexturePool<R> {
    managed: HashMap<u64, Texture<R>>,
    user: HashMap<u64, Texture<R>>,
}

impl<R> TexturePool<R> {
    spec fn has(&self, id: TextureId) -> bool {
        match id {
            TextureId::Managed(k) => self.managed@.contains_key(k),
            TextureId::User(k) => self.user@.contains_key(k),
        }
    }

    spec fn at(&self, id: TextureId) -> Texture<R> {
        match id {
            TextureId::Managed(k) => self.managed@[k],
            TextureId::User(k) => self.user@[k],
        }
    }

    /// The size and cached pixels of every live texture.
    pub closed spec fn view(&self) -> Map<TextureId, TextureView> {
        Map::new(|id: TextureId| self.has(id), |id: TextureId| self.at(id)@)
    }

    /// The device's resource of every live texture.
    pub closed spec fn resources(&self) -> Map<TextureId, R> {
        Map::new(|id: TextureId| self.has(id), |id: TextureId| self.at(id).resource)
    }

    /// Every live texture has one cached pixel per position and a resource.
    pub open spec fn wf(&self) -> bool {
        &&& self.resources().dom() == self@.dom()
        &&& forall|id: TextureId| #[trigger] self@.contains_key(id) ==> self@[id].wf()
    }

    /// An empty pool.
    pub fn new() -> (pool: Self)
        ensures
            pool@ == Map::<TextureId, TextureView>::empty(),
            pool.resources() == Map::<TextureId, R>::empty(),
            pool.wf(),
    {
        let pool = TexturePool { managed: HashMap::new(), user: HashMap::new() };
        assert(pool@ =~= Map::<TextureId, TextureView>::empty());
        assert(pool.resources() =~= Map::<TextureId, R>::empty());
        pool
    }

    /// The resource to bind for `tid`, if a texture is live under it.
    pub fn get_srv(&self, tid: TextureId) -> (srv: Option<&R>)
        ensures
            match srv {
                Some(r) => self@.contains_key(tid) && *r == self.resources()[tid],
                None => !self@.contains_key(tid),
            },
    {
        match self.get(tid) {
            Some(t) => Some(&t.resource),
            None => None,
        }
    }

    /// Applies one frame's texture changes: the images of `delta.set` in
    /// the order given, then the frees. `create` makes the device's texture
    /// for a whole image, `upload` writes a changed window to it.
    ///
    /// The first delta that is at fault, or for which the device fails, ends
    /// the call: what came before it stays applied, nothing after it is
    /// looked at, and nothing is freed.
    pub fn update<E, C, U>(&mut self, delta: TexturesDelta, create: &C, upload: &U) -> (r: Result<
        (),
        UpdateError<E>,
    >) where C: Fn(&TextureDesc, &Vec<Pixel>) -> Result<R, E>, U: Fn(R, &Upload) -> R
        requires
            old(self).wf(),
            forall|d: &TextureDesc, px: &Vec<Pixel>| call_requires(*create, (d, px)),
            forall|res: R, up: &Upload| call_requires(*upload, (res, up)),
        ensures
            final(self).wf(),
            updated(
                *create,
                *upload,
                old(self)@,
                old(self).resources(),
                delta.set@,
                delta.free@,
                final(self)@,
                final(self).resources(),
                r,
            ),
    {
        let ghost set = delta.set@;
        let ghost pool0 = old(self)@;
        let ghost res0 = old(self).resources();
        let mut i: usize = 0;
        while i < delta.set.len()
            invariant
                i <= set.len(),
                set == delta.set@,
                pool0 == old(self)@,
                res0 == old(self).resources(),
                self.wf(),
                forall|d: &TextureDesc, px: &Vec<Pixel>| call_requires(*create, (d, px)),
                forall|res: R, up: &Upload| call_requires(*upload, (res, up)),
                clean(pool0, set, i as int),
                self@ == after_set(pool0, set, i as int),
                forall|id: TextureId| #[trigger]
                    self@.contains_key(id) ==> resource_origin::<R, E, C, U>(
                        *create,
                        *upload,
                        pool0,
                        res0,
                        set,
                        i as int,
                        id,
                        self.resources()[id],
                    ),
            decreases set.len() - i,
        {
            let tid = delta.set[i].0;
            let d = &delta.set[i].1;
            let ghost here = self@;
            let ghost res_here = self.resources();
            let ghost mut written: Option<(R, Upload)> = None;
            if d.is_whole() {
                if !d.image.is_valid() {
                    return Err(UpdateError::Rejected(Fault::Malformed));
                }
                match create_texture(create, &d.image) {
                    Ok(tex) => {
                        self.put(tid, tex);
                    },
                    Err(e) => {
                        return Err(UpdateError::Device(e));
                    },
                }
            } else {
                let (nx, ny) = d.pos.unwrap();
                let wrong = match self.get(tid) {
                    None => None,
                    Some(tex) => match &d.image {
                        ImageData::Color(_) => Some(Fault::NotCoverage),
                        ImageData::Font(f) => if !d.image.is_valid() {
                            Some(Fault::Malformed)
                        } else if window_fits(nx, f.width, tex.width) && window_fits(
                            ny,
                            f.height,
                            tex.height,
                        ) {
                            None
                        } else {
                            Some(Fault::OutOfBounds)
                        },
                    },
                };
                assert(wrong == fault(here, tid, *d));
                match wrong {
                    Some(why) => {
                        return Err(UpdateError::Rejected(why));
                    },
                    None => {},
                }
                match &d.image {
                    ImageData::Font(f) => {
                        match self.take(tid) {
                            Some(tex) => {
                                let mut tex = tex;
                                let up = update_partial(&mut tex, f, nx, ny);
                                let Texture { resource, pixels, width, height } = tex;
                                let ghost prev = resource;
                                let resource = upload(resource, &up);
                                proof {
                                    written = Some((prev, up));
                                }
                                self.put(tid, Texture { resource, pixels, width, height });
                            },
                            None => {},
                        }
                    },
                    ImageData::Color(_) => {},
                }
            }
            proof {
                assert(self@ =~= applied(here, tid, *d));
                assert(self.resources().dom() =~= self@.dom());
                assert(set[i as int] == (tid, *d));
                assert forall|id: TextureId| #[trigger] self@.contains_key(id) implies resource_origin::<
                    R,
                    E,
                    C,
                    U,
                >(*create, *upload, pool0, res0, set, i + 1, id, self.resources()[id]) by {
                    if id != tid {
                        assert(here.contains_key(id));
                        assert(self.resources()[id] == res_here[id]);
                    } else if d.pos is Some {
                        assert(here.contains_key(id));
                        match d.image {
                            ImageData::Font(f) => {
                                let (prev, up) = written->Some_0;
                                assert(resource_origin::<R, E, C, U>(
                                    *create,
                                    *upload,
                                    pool0,
                                    res0,
                                    set,
                                    i as int,
                                    id,
                                    prev,
                                ));
                                assert(is_upload(up, here[id].width, f, d.pos->Some_0.0, d.pos->Some_0.1));
                                assert(call_ensures(*upload, (prev, &up), self.resources()[id]));
                            },
                            ImageData::Color(_) => {},
                        }
                    }
                }
            }
            i += 1;
        }
        let ghost mid = self@;
        let ghost res_mid = self.resources();
        let mut j: usize = 0;
        while j < delta.free.len()
            invariant
                j <= delta.free@.len(),
                self.wf(),
                self@ == after_free(mid, delta.free@.take(j as int)),
                forall|id: TextureId| #[trigger]
                    self@.contains_key(id) ==> self.resources()[id] == res_mid[id],
            decreases delta.free@.len() - j,
        {
            let tid = delta.free[j];
            self.take(tid);
            proof {
                let done = delta.free@.take(j as int);
                let next = delta.free@.take(j + 1);
                assert(next =~= done.push(tid));
                assert forall|id: TextureId| next.contains(id) <==> (done.contains(id) || id
                    == tid) by {
                    if done.contains(id) {
                        let n = choose|n: int| 0 <= n < done.len() && done[n] == id;
                        assert(next[n] == id);
                    }
                    if id == tid {
                        assert(next[j as int] == id);
                    }
                }
                assert(self@ =~= after_free(mid, next));
                assert(self.resources().dom() =~= self@.dom());
            }
            j += 1;
        }
        proof {
            assert(delta.free@.take(j as int) =~= delta.free@);
        }
        Ok(())
    }

    /// The texture that is live under `tid`, if there is one.
    pub fn get(&self, tid: TextureId) -> (found: Option<&Texture<R>>)
        ensures
            match found {
                Some(t) => self@.contains_key(tid) && t@ == self@[tid] && t.resource
                    == self.resources()[tid],
                None => !self@.contains_key(tid),
            },
    {
        broadcast use vstd::std_specs::hash::group_hash_axioms;

        match tid {
            TextureId::Managed(k) => self.managed.get(&k),
            TextureId::User(k) => self.user.get(&k),
        }
    }

    fn put(&mut self, tid: TextureId, tex: Texture<R>)
        ensures
            final(self)@ == old(self)@.insert(tid, tex@),
            final(self).resources() == old(self).resources().insert(tid, tex.resource),
    {
        broadcast use vstd::std_specs::hash::group_hash_axioms;

        match tid {
            TextureId::Managed(k) => {
                self.managed.insert(k, tex);
            },
            TextureId::User(k) => {
                self.user.insert(k, tex);
            },
        }
        assert(self@ =~= old(self)@.insert(tid, tex@));
        assert(self.resources() =~= old(self).resources().insert(tid, tex.resource));
    }

    fn take(&mut self, tid: TextureId) -> (found: Option<Texture<R>>)
        ensures
            final(self)@ == old(self)@.remove(tid),
            final(self).resources() == old(self).resources().remove(tid),
            match found {
                Some(t) => old(self)@.contains_key(tid) && t@ == old(self)@[tid] && t.resource
                    == old(self).resources()[tid],
                None => !old(self)@.contains_key(tid),
            },
    {
        broadcast use vstd::std_specs::hash::group_hash_axioms;

        let found = match tid {
            TextureId::Managed(k) => self.managed.remove(&k),
            TextureId::User(k) => self.user.remove(&k),
        };
        assert(self@ =~= old(self)@.remove(tid));
        assert(self.resources() =~= old(self).resources().remove(tid));
        found
    }
}

/// Deltas never remove a texture: what is live before one is live after it.
pub proof fn lemma_set_keeps(
    pool: Map<TextureId, TextureView>,
    set: Seq<(TextureId, ImageDelta)>,
    j: int,
    k: int,
    id: TextureId,
)
    requires
        0 <= j <= k,
        after_set(pool, set, j).contains_key(id),
    ensures
        after_set(pool, set, k).contains_key(id),
    decreases k - j,
{
    if j < k {
        lemma_set_keeps(pool, set, j, k - 1, id);
    }
}

/// A whole image makes its identifier resolve: after an update a texture is
/// live under every identifier for which the delta held a whole image,
/// unless the same delta frees that identifier.
pub proof fn lemma_whole_image_resolves(
    pool: Map<TextureId, TextureView>,
    set: Seq<(TextureId, ImageDelta)>,
    free: Seq<TextureId>,
    j: int,
)
    requires
        0 <= j < set.len(),
        set[j].1.pos is None,
        !free.contains(set[j].0),
    ensures
        after_free(after_set(pool, set, set.len() as int), free).contains_key(set[j].0),
{
    assert(after_set(pool, set, j + 1).contains_key(set[j].0));
    lemma_set_keeps(pool, set, j + 1, set.len() as int, set[j].0);
}

/// A freed identifier does not resolve, whatever was live before and
/// whatever the same delta set.
pub proof fn lemma_freed_is_gone(pool: Map<TextureId, TextureView>, free: Seq<TextureId>, i: int)
    requires
        0 <= i < free.len(),
    ensures
        !after_free(pool, free).contains_key(free[i]),
{
}

/// Inside the window of a partial update every cached pixel is white at the
/// coverage given for it; every pixel of the texture outside the window is
/// what it was.
pub proof fn lemma_patched_pixel(
    before: Seq<Pixel>,
    width: int,
    height: int,
    f: FontImage,
    nx: int,
    ny: int,
    col: int,
    row: int,
)
    requires
        before.len() == width * height,
        f.valid(),
        0 <= nx,
        0 <= ny,
        nx + f.width <= width,
        ny + f.height <= height,
        0 <= col < width,
        0 <= row < height,
    ensures
        0 <= row * width + col < before.len(),
        nx <= col < nx + f.width && ny <= row < ny + f.height ==> patched(
            before,
            width,
            f,
            nx,
            ny,
        )[row * width + col] == white(f.pixels@[(row - ny) * f.width + (col - nx)]),
        !(nx <= col < nx + f.width && ny <= row < ny + f.height) ==> patched(
            before,
            width,
            f,
            nx,
            ny,
        )[row * width + col] == before[row * width + col],
{
    lemma_cell(row, col, width, height);
    assert(height * width == width * height) by (nonlinear_arith);
}

/// A window for an identifier that is not live is no fault and leaves the
/// pool as it was.
pub proof fn lemma_unknown_window_ignored(
    pool: Map<TextureId, TextureView>,
    id: TextureId,
    d: ImageDelta,
)
    requires
        d.pos is Some,
        !pool.contains_key(id),
    ensures
        clean(pool, seq![(id, d)], 1),
        after_free(after_set(pool, seq![(id, d)], 1), Seq::<TextureId>::empty()) == pool,
{
    let set = seq![(id, d)];
    assert(after_set(pool, set, 0) == pool);
    assert(after_set(pool, set, 1) == applied(after_set(pool, set, 0), set[0].0, set[0].1));
    assert(after_free(pool, Seq::<TextureId>::empty()) =~= pool);
}

} // verus!
