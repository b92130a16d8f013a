use lightpdf::fit::PageRenderer;
use lightpdf::raster::bgra_to_rgba;
use lightpdf::raster::pack_rgba;
use lightpdf::raster::PageImage;

fn image(width: u32, height: u32, pixels: &[u32]) -> PageImage {
    PageImage { width, height, pixels: pixels.to_vec() }
}

#[test]
fn test_rotate90_permutes_pixels() {
    // 3 wide, 2 tall:          becomes 2 wide, 3 tall:
    //   1 2 3                    4 1
    //   4 5 6                    5 2
    //                            6 3
    let img = image(3, 2, &[1, 2, 3, 4, 5, 6]);
    let rotated = img.rotate90();
    assert_eq!((rotated.width, rotated.height), (2, 3));
    assert_eq!(rotated.pixels, [4, 1, 5, 2, 6, 3]);
}

#[test]
fn test_rotate180_reverses_pixels() {
    let img = image(3, 2, &[1, 2, 3, 4, 5, 6]);
    let rotated = img.rotate180();
    assert_eq!((rotated.width, rotated.height), (3, 2));
    assert_eq!(rotated.pixels, [6, 5, 4, 3, 2, 1]);
}

#[test]
fn test_rotate270_permutes_pixels() {
    // 3 wide, 2 tall:          becomes 2 wide, 3 tall:
    //   1 2 3                    3 6
    //   4 5 6                    2 5
    //                            1 4
    let img = image(3, 2, &[1, 2, 3, 4, 5, 6]);
    let rotated = img.rotate270();
    assert_eq!((rotated.width, rotated.height), (2, 3));
    assert_eq!(rotated.pixels, [3, 6, 2, 5, 1, 4]);
}

#[test]
fn test_four_quarter_turns_return_home() {
    let img = image(3, 2, &[1, 2, 3, 4, 5, 6]);
    let back = img.rotate90().rotate90().rotate90().rotate90();
    assert_eq!((back.width, back.height), (3, 2));
    assert_eq!(back.pixels, img.pixels);
}

#[test]
fn test_pack_rgba_orders_bytes() {
    assert_eq!(pack_rgba(0x12, 0x34, 0x56, 0x78), 0x12345678);
    assert_eq!(pack_rgba(0xff, 0, 0, 0xff), 0xff0000ff);
}

#[test]
fn test_from_rgba_bytes_packs_pixels() {
    let bytes = vec![1, 2, 3, 4, 5, 6, 7, 8];
    let img = PageImage::from_rgba_bytes(&bytes, 2, 1).unwrap();
    assert_eq!(img.pixels, [0x01020304, 0x05060708]);
}

#[test]
fn test_from_rgba_bytes_rejects_wrong_length() {
    let bytes = vec![1, 2, 3, 4, 5];
    assert!(PageImage::from_rgba_bytes(&bytes, 2, 1).is_none());
    assert!(PageImage::from_rgba_bytes(&Vec::new(), 1, 1).is_none());
}

#[test]
fn test_bgra_to_rgba_swaps_channels() {
    let bgra = vec![10, 20, 30, 40, 50, 60, 70, 80];
    let rgba = bgra_to_rgba(&bgra);
    assert_eq!(rgba, [30, 20, 10, 40, 70, 60, 50, 80]);
}

#[test]
fn test_fit_calculators_exact_values() {
    // An 800-point viewport doubles a 400-point-wide page.
    assert_eq!(PageRenderer::calculate_zoom_to_fit_width(400, 800), 200);
    assert_eq!(PageRenderer::calculate_zoom_to_fit_height(1000, 500), 50);
    // The whole-page fit is the smaller of the two fits.
    assert_eq!(PageRenderer::calculate_zoom_to_fit_page(300, 400, 600, 600), 150);
    assert_eq!(PageRenderer::calculate_zoom_to_fit_page(600, 400, 600, 600), 100);
}

#[test]
fn test_fit_rounds_down() {
    assert_eq!(PageRenderer::calculate_zoom_to_fit_width(3, 2), 66);
}
