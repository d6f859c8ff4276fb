use screenshit::crop::crop_selection;
use screenshit::raster::{to_rgb, Raster};

fn gradient(w: u32, h: u32) -> Raster {
    let mut data = Vec::new();
    for y in 0..h {
        for x in 0..w {
            data.extend_from_slice(&[x as u8, y as u8, 7, 255]);
        }
    }
    Raster::from_raw(w, h, data).unwrap()
}

#[test]
fn from_raw_checks_the_length() {
    assert!(Raster::from_raw(2, 2, vec![0; 16]).is_some());
    assert!(Raster::from_raw(2, 2, vec![0; 15]).is_none());
    assert!(Raster::from_raw(2, 2, vec![0; 17]).is_none());
    assert!(Raster::from_raw(0, 5, vec![]).is_some());
}

#[test]
fn crop_keeps_the_selected_pixels() {
    let img = gradient(10, 8);
    let out = crop_selection(&img, 3, 2, 4, 5).unwrap();
    assert_eq!((out.width(), out.height()), (4, 5));
    let data = out.into_raw();
    assert_eq!(data.len(), 4 * 5 * 4);
    for r in 0..5u32 {
        for c in 0..4u32 {
            let i = ((r * 4 + c) * 4) as usize;
            assert_eq!(&data[i..i + 4], &[(3 + c) as u8, (2 + r) as u8, 7, 255]);
        }
    }
}

#[test]
fn crop_is_cut_to_the_image() {
    let img = gradient(10, 8);
    let out = crop_selection(&img, 7, 6, 50, 50).unwrap();
    assert_eq!((out.width(), out.height()), (3, 2));
    let data = out.into_raw();
    assert_eq!(&data[0..4], &[7, 6, 7, 255]);
    assert_eq!(&data[data.len() - 4..], &[9, 7, 7, 255]);
}

#[test]
fn tiny_selection_is_dropped() {
    let img = gradient(10, 8);
    assert!(crop_selection(&img, 1, 1, 1, 5).is_none());
    assert!(crop_selection(&img, 1, 1, 5, 0).is_none());
    assert!(crop_selection(&img, 1, 1, 2, 2).is_some());
}

#[test]
fn rgb_drops_alpha() {
    let img = Raster::from_raw(2, 1, vec![1, 2, 3, 4, 5, 6, 7, 8]).unwrap();
    assert_eq!(to_rgb(&img), vec![1, 2, 3, 5, 6, 7]);
    let img = gradient(3, 2);
    let rgb = to_rgb(&img);
    assert_eq!(rgb.len(), 3 * 2 * 3);
    assert_eq!(&rgb[rgb.len() - 3..], &[2, 1, 7]);
}
