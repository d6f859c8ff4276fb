//! The editor's image as plain values: an RGBA raster, four bytes per
//! pixel, row by row.

use vstd::prelude::*;

use image::{DynamicImage, ImageBuffer, Rgba};

verus! {

/// An RGBA image: `width` × `height` pixels of four bytes, row by row.
pub struct Raster {
    width: u32,
    height: u32,
    data: Vec<u8>,
}

impl View for Raster {
    type V = (u32, u32, Seq<u8>);

    closed spec fn view(&self) -> (u32, u32, Seq<u8>) {
        (self.width, self.height, self.data@)
    }
}

impl Raster {
    #[verifier::type_invariant]
    spec fn well_formed(self) -> bool {
        self.data@.len() == self.width * self.height * 4
    }

    /// The raster of `data`, when it holds exactly `width` × `height`
    /// pixels.
    pub fn from_raw(width: u32, height: u32, data: Vec<u8>) -> (r: Option<Raster>)
        ensures
            r is Some <==> data@.len() == width * height * 4,
            r matches Some(img) ==> img@ == (width, height, data@),
    {
        let len = data.len();
        assert(width * height <= 0xFFFF_FFFE_0000_0001) by (nonlinear_arith)
            requires
                width <= 0xFFFF_FFFF,
                height <= 0xFFFF_FFFF,
        ;
        let n: u64 = (width as u64) * (height as u64);
        if n <= (usize::MAX / 4) as u64 && len == (n as usize) * 4 {
            Some(Raster { width, height, data })
        } else {
            proof {
                if data@.len() == width * height * 4 {
                    assert(n == width * height);
                    assert(len <= usize::MAX);
                }
            }
            None
        }
    }

    /// The raster of `data`, known to hold `width` × `height` pixels.
    pub(crate) fn from_parts(width: u32, height: u32, data: Vec<u8>) -> (r: Raster)
        requires
            data@.len() == width * height * 4,
        ensures
            r@ == (width, height, data@),
    {
        Raster { width, height, data }
    }

    pub fn width(&self) -> (w: u32)
        ensures
            w == self@.0,
    {
        self.width
    }

    pub fn height(&self) -> (h: u32)
        ensures
            h == self@.1,
    {
        self.height
    }

    /// The pixel bytes, row by row.
    pub fn data(&self) -> (data: &Vec<u8>)
        ensures
            data@ == self@.2,
            data@.len() == self@.0 * self@.1 * 4,
    {
        proof {
            use_type_invariant(self);
        }
        &self.data
    }

    /// The pixel bytes, row by row.
    pub fn into_raw(self) -> (data: Vec<u8>)
        ensures
            data@ == self@.2,
            data@.len() == self@.0 * self@.1 * 4,
    {
        proof {
            use_type_invariant(&self);
        }
        self.data
    }
}

/// Channel `k` of pixel `i` of a buffer of `n`-channel pixels.
pub open spec fn pixel_channel(data: Seq<u8>, n: int, i: int, k: int) -> u8 {
    data[i * n + k]
}

/// `rgb` holds the `pixels` pixels of the RGBA buffer `rgba` without their
/// alpha: red, green and blue of each pixel, in order.
pub open spec fn is_rgb_of(rgb: Seq<u8>, rgba: Seq<u8>, pixels: int) -> bool {
    &&& rgb.len() == pixels * 3
    &&& forall|i: int, k: int|
        0 <= i < pixels && 0 <= k < 3 ==> #[trigger] pixel_channel(rgb, 3, i, k) == pixel_channel(
            rgba,
            4,
            i,
            k,
        )
}

/// `image::DynamicImage::to_rgb8` on the RGBA image made of `data`, as raw
/// bytes. From RGBA8 to RGB8 the crate casts channel by channel: it keeps
/// red, green and blue of every pixel and drops alpha.
#[verifier::external_body]
fn rgb8_raw(width: u32, height: u32, data: &Vec<u8>) -> (out: Vec<u8>)
    requires
        data@.len() == width * height * 4,
    ensures
        is_rgb_of(out@, data@, width * height),
{
    let img = ImageBuffer::<Rgba<u8>, Vec<u8>>::from_raw(width, height, data.clone()).unwrap();
    DynamicImage::ImageRgba8(img).to_rgb8().into_raw()
}

/// The image without its alpha channel, as JPEG is saved: the red, green and
/// blue bytes of every pixel, row by row.
pub fn to_rgb(img: &Raster) -> (rgb: Vec<u8>)
    ensures
        is_rgb_of(rgb@, img@.2, img@.0 * img@.1),
{
    rgb8_raw(img.width(), img.height(), img.data())
}

} // verus!
