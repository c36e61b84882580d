use anti_window_snap::icon::{icon_bitmaps_to_png, icon_dimensions, merge_icon_bitmaps};

#[test]
fn icon_size_is_twice_the_hotspot() {
    assert_eq!(icon_dimensions(16, 16), (32, 32));
    assert_eq!(icon_dimensions(0, 7), (0, 14));
}

#[test]
fn merge_swaps_blue_and_red_and_sets_alpha_from_mask() {
    // 2 x 2 pixels; mask bits 1,0,0,1 (most significant first).
    let mask = [0b1001_0000u8, 0, 0, 0];
    let color = [
        1u8, 2, 3, 4, // pixel 0: blue 1, green 2, red 3
        5, 6, 7, 8, //
        9, 10, 11, 12, //
        13, 14, 15, 16,
    ];
    let pixels = merge_icon_bitmaps(2, 2, &mask, &color);
    assert_eq!(
        pixels,
        vec![3, 2, 1, 0, 7, 6, 5, 255, 11, 10, 9, 255, 15, 14, 13, 0]
    );
}

#[test]
fn merge_reads_mask_bits_across_bytes() {
    // 3 x 3 pixels: nine mask bits over two bytes.
    let mask = [0b0000_0001u8, 0b1000_0000];
    let color: Vec<u8> = (0..36).collect();
    let pixels = merge_icon_bitmaps(3, 3, &mask, &color);
    assert_eq!(pixels.len(), 36);
    let alphas: Vec<u8> = pixels.chunks(4).map(|p| p[3]).collect();
    assert_eq!(alphas, vec![255, 255, 255, 255, 255, 255, 255, 0, 0]);
    for p in 0..9 {
        assert_eq!(pixels[4 * p], color[4 * p + 2]);
        assert_eq!(pixels[4 * p + 1], color[4 * p + 1]);
        assert_eq!(pixels[4 * p + 2], color[4 * p]);
    }
}

#[test]
fn merge_of_empty_icon_is_empty() {
    assert!(merge_icon_bitmaps(0, 5, &[], &[]).is_empty());
}

#[test]
fn png_of_icon_decodes_to_merged_pixels() {
    let mask = [0b0110_0000u8, 0, 0, 0];
    let color: Vec<u8> = (100..116).collect();
    let png = icon_bitmaps_to_png(1, 1, &mask, &color).expect("encoded");
    assert_eq!(&png[..8], &[0x89, b'P', b'N', b'G', 0x0D, 0x0A, 0x1A, 0x0A]);
    let img = image::load_from_memory_with_format(&png, image::ImageFormat::Png)
        .expect("decodes")
        .to_rgba8();
    assert_eq!(img.dimensions(), (2, 2));
    assert_eq!(img.into_raw(), merge_icon_bitmaps(2, 2, &mask, &color));
}

#[test]
fn png_of_empty_icon_is_refused() {
    assert!(icon_bitmaps_to_png(0, 3, &[0u8; 1], &[0u8; 4]).is_none());
    assert!(icon_bitmaps_to_png(0, 0, &[], &[]).is_none());
}
