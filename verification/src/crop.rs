//! Cropping the edited image to a selection; the crop itself is done by the
//! `image` crate.

use vstd::prelude::*;

use image::{ImageBuffer, Rgba, RgbaImage};

use crate::raster::Raster;

verus! {

/// Channel `k` of the pixel at column `c`, row `r` of a row-major RGBA
/// buffer `width` pixels wide.
pub open spec fn channel_at(data: Seq<u8>, width: int, c: int, r: int, k: int) -> u8 {
    data[(r * width + c) * 4 + k]
}

/// The region `crop_imm` keeps of a `width` × `height` image: the corner is
/// moved into the image, the size cut to what lies inside.
pub open spec fn clamp_region(width: u32, height: u32, x: u32, y: u32, w: u32, h: u32) -> (
    u32,
    u32,
    u32,
    u32,
) {
    let x1 = if x <= width { x } else { width };
    let y1 = if y <= height { y } else { height };
    let w1 = if w <= (width - x1) as u32 { w } else { (width - x1) as u32 };
    let h1 = if h <= (height - y1) as u32 { h } else { (height - y1) as u32 };
    (x1, y1, w1, h1)
}

/// `out` holds the `w` × `h` pixels of `data` (a `width` pixels wide
/// raster) whose corner is at column `x`, row `y`.
pub open spec fn is_crop_of(
    out: Seq<u8>,
    data: Seq<u8>,
    width: u32,
    x: u32,
    y: u32,
    w: u32,
    h: u32,
) -> bool {
    &&& out.len() == w * h * 4
    &&& forall|c: int, r: int, k: int|
        0 <= c < w && 0 <= r < h && 0 <= k < 4 ==> #[trigger] channel_at(out, w as int, c, r, k)
            == channel_at(data, width as int, x + c, y + r, k)
}

/// `image::imageops::crop_imm(..).to_image()` on the image made of `data`:
/// the pixels of the region `clamp_region` gives, row by row.
#[verifier::external_body]
fn crop_raw(width: u32, height: u32, data: &Vec<u8>, x: u32, y: u32, w: u32, h: u32) -> (out: Vec<
    u8,
>)
    requires
        data@.len() == width * height * 4,
    ensures
        ({
            let (x1, y1, w1, h1) = clamp_region(width, height, x, y, w, h);
            is_crop_of(out@, data@, width, x1, y1, w1, h1)
        }),
{
    let img: RgbaImage = ImageBuffer::<Rgba<u8>, Vec<u8>>::from_raw(width, height, data.clone()).unwrap();
    image::imageops::crop_imm(&img, x, y, w, h).to_image().into_raw()
}

/// Crop `img` to the selection with corner (`x`, `y`) and size `w` × `h`,
/// given in whole pixels. A selection narrower or lower than 2 pixels is
/// dropped (`None`); otherwise the size is cut to what lies inside the image
/// and the result holds exactly those pixels.
pub fn crop_selection(img: &Raster, x: u32, y: u32, w: u32, h: u32) -> (out: Option<Raster>)
    requires
        w >= 2 && h >= 2 ==> x <= img@.0 && y <= img@.1,
    ensures
        out is None <==> (w < 2 || h < 2),
        out matches Some(o) ==> {
            let w1 = if w <= img@.0 - x { w } else { (img@.0 - x) as u32 };
            let h1 = if h <= img@.1 - y { h } else { (img@.1 - y) as u32 };
            &&& o@.0 == w1
            &&& o@.1 == h1
            &&& is_crop_of(o@.2, img@.2, img@.0, x, y, w1, h1)
        },
{
    if w < 2 || h < 2 {
        return None;
    }
    let (iw, ih) = (img.width(), img.height());
    let w1 = if w <= iw - x { w } else { iw - x };
    let h1 = if h <= ih - y { h } else { ih - y };
    let data = crop_raw(iw, ih, img.data(), x, y, w1, h1);
    Some(Raster::from_parts(w1, h1, data))
}

} // verus!
