//! Image data and image identity.
use crate::geometry::Size;
use vstd::prelude::*;

verus! {

/// Layout of the components of one pixel.
#[derive(Debug, Clone, Copy, PartialEq, Eq, Structural, Hash)]
pub enum PixelFormat {
    Luma,
    LumaA,
    Rgb,
    Rgba,
}

pub open spec fn components_of(f: PixelFormat) -> nat {
    match f {
        PixelFormat::Luma => 1,
        PixelFormat::LumaA => 2,
        PixelFormat::Rgb => 3,
        PixelFormat::Rgba => 4,
    }
}

impl PixelFormat {
    /// Number of components per pixel.
    pub fn num_components(self) -> (r: usize)
        ensures
            r == components_of(self),
    {
        match self {
            PixelFormat::Luma => 1,
            PixelFormat::LumaA => 2,
            PixelFormat::Rgb => 3,
            PixelFormat::Rgba => 4,
        }
    }
}

/// Handle naming an image, used to tell textures apart.
#[derive(Debug, Clone, Copy, PartialEq, Eq, Structural, Hash)]
pub struct ImageId(pub u64);

/// Source of fresh image ids: a counter that starts at 1 and only grows,
/// so every id it hands out is larger than all ids handed out before.
#[derive(Debug)]
pub struct ImageIdSource {
    next: u64,
}

impl ImageIdSource {
    /// The value the next id will carry.
    pub closed spec fn upcoming(&self) -> u64 {
        self.next
    }

    pub fn new() -> (r: Self)
        ensures
            r.upcoming() == 1,
    {
        ImageIdSource { next: 1 }
    }

    /// Checks whether the counter has run out.
    pub fn exhausted(&self) -> (r: bool)
        ensures
            r == (self.upcoming() == u64::MAX),
    {
        self.next == u64::MAX
    }

    fn issue(&mut self) -> (r: ImageId)
        requires
            old(self).upcoming() < u64::MAX,
        ensures
            r.0 == old(self).upcoming(),
            final(self).upcoming() == old(self).upcoming() + 1,
    {
        let id = ImageId(self.next);
        self.next = self.next + 1;
        id
    }
}

/// Pixel components of an image.
#[derive(Debug, Clone, PartialEq, Eq)]
pub enum ImageData {
    /// No pixel data.
    Empty,
    /// 8 bits per component.
    Bpp8(Vec<u8>),
    /// 16 bits per component.
    Bpp16(Vec<u16>),
}

pub open spec fn data_len(d: ImageData) -> nat {
    match d {
        ImageData::Empty => 0,
        ImageData::Bpp8(v) => v@.len(),
        ImageData::Bpp16(v) => v@.len(),
    }
}

impl ImageData {
    fn len(&self) -> (r: usize)
        ensures
            r == data_len(*self),
    {
        match self {
            ImageData::Empty => 0,
            ImageData::Bpp8(v) => v.len(),
            ImageData::Bpp16(v) => v.len(),
        }
    }

    /// Resizes the data to `new_len` components, cutting the end or filling
    /// it with zeros. Empty data stays empty.
    fn resize(&mut self, new_len: usize)
        ensures
            *old(self) is Empty ==> *final(self) is Empty,
            *old(self) matches ImageData::Bpp8(v) ==> (*final(self) matches ImageData::Bpp8(w)
                && w@ == resized(v@, new_len as nat, 0u8)),
            *old(self) matches ImageData::Bpp16(v) ==> (*final(self) matches ImageData::Bpp16(w)
                && w@ == resized(v@, new_len as nat, 0u16)),
    {
        match self {
            ImageData::Empty => {},
            ImageData::Bpp8(v) => resize_vec(v, new_len, 0u8),
            ImageData::Bpp16(v) => resize_vec(v, new_len, 0u16),
        }
    }
}

/// `s` cut to `n` items, or extended to `n` items with copies of `fill`.
pub open spec fn resized<T>(s: Seq<T>, n: nat, fill: T) -> Seq<T> {
    if n <= s.len() {
        s.subrange(0, n as int)
    } else {
        s + Seq::new((n - s.len()) as nat, |i: int| fill)
    }
}

fn resize_vec<T: Copy>(v: &mut Vec<T>, n: usize, fill: T)
    ensures
        final(v)@ == resized(old(v)@, n as nat, fill),
{
    if n <= v.len() {
        v.truncate(n);
    } else {
        let ghost orig = v@;
        while v.len() < n
            invariant
                orig.len() <= v@.len() <= n,
                v@.subrange(0, orig.len() as int) == orig,
                forall|i: int| orig.len() <= i < v@.len() ==> v@[i] == fill,
            decreases n - v@.len(),
        {
            v.push(fill);
        }
        assert(v@ =~= resized(orig, n as nat, fill));
    }
}

/// An image: pixel data with its size and format, and an id that names it
/// as a texture.
#[derive(Debug)]
pub struct Image {
    pub data: ImageData,
    pub size: Size,
    pub format: PixelFormat,
    pub id: ImageId,
}

impl Image {
    /// Creates an image with a fresh id from `ids`; non-empty data is cut or
    /// zero-filled to hold exactly `size.w * size.h` pixels of `format`.
    pub fn new(data: ImageData, size: Size, format: PixelFormat, ids: &mut ImageIdSource) -> (r: Self)
        requires
            size.w * size.h * components_of(format) <= usize::MAX,
            old(ids).upcoming() < u64::MAX,
        ensures
            r.size == size,
            r.format == format,
            r.id.0 == old(ids).upcoming(),
            final(ids).upcoming() == old(ids).upcoming() + 1,
            data is Empty ==> r.data is Empty,
            data matches ImageData::Bpp8(v) ==> (r.data matches ImageData::Bpp8(w) && w@ == resized(
                v@,
                (size.w * size.h * components_of(format)) as nat,
                0u8,
            )),
            data matches ImageData::Bpp16(v) ==> (r.data matches ImageData::Bpp16(w) && w@ == resized(
                v@,
                (size.w * size.h * components_of(format)) as nat,
                0u16,
            )),
    {
        let mut data = data;
        let area = size.area();
        let expected_len = area as usize * format.num_components();
        let is_empty = match &data {
            ImageData::Empty => true,
            _ => false,
        };
        if !is_empty {
            let data_len = data.len();
            if data_len != expected_len {
                data.resize(expected_len);
            }
        }
        proof {
            if let ImageData::Bpp8(v) = &data {
                assert(v@.subrange(0, v@.len() as int) =~= v@);
            }
            if let ImageData::Bpp16(v) = &data {
                assert(v@.subrange(0, v@.len() as int) =~= v@);
            }
        }
        let id = ids.issue();
        Image { data, size, format, id }
    }
}

impl PartialEq for Image {
    fn eq(&self, other: &Image) -> (r: bool) {
        self.id == other.id
    }
}

impl vstd::std_specs::cmp::PartialEqSpecImpl for Image {
    open spec fn obeys_eq_spec() -> bool {
        true
    }

    open spec fn eq_spec(&self, other: &Image) -> bool {
        self.id == other.id
    }
}

} // verus!
