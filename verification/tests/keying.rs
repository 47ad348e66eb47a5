use vtracer::buffer::PixelBuffer;
use vtracer::color::Color;
use vtracer::keying::{
    apply_key, color_exists_in_image, find_unused_color_among, find_unused_color_in_image,
    first_unused_color, should_key_image, special_color_list, NUM_UNUSED_COLOR_ITERATIONS,
};
use vtracer::random::random_colors;

fn opaque(width: usize, height: usize) -> PixelBuffer {
    let mut pixels = Vec::new();
    for i in 0..width * height {
        pixels.extend_from_slice(&[(i % 200) as u8, 10, 20, 255]);
    }
    PixelBuffer::new(width, height, pixels).unwrap()
}

fn clear(image: &mut PixelBuffer, x: usize, y: usize) {
    let at = (y * image.width + x) * 4 + 3;
    image.pixels[at] = 0;
}

fn with_colors(colors: &[[u8; 4]]) -> PixelBuffer {
    let mut pixels = Vec::new();
    for color in colors {
        pixels.extend_from_slice(color);
    }
    PixelBuffer::new(colors.len(), 1, pixels).unwrap()
}

const SATURATED: [[u8; 4]; 6] = [
    [255, 0, 0, 255],
    [0, 255, 0, 255],
    [0, 0, 255, 255],
    [255, 255, 0, 255],
    [0, 255, 255, 255],
    [255, 0, 255, 255],
];

#[test]
fn buffer_without_pixels_is_not_keyed() {
    assert!(!should_key_image(&PixelBuffer::new(0, 0, vec![]).unwrap()));
    assert!(!should_key_image(&PixelBuffer::new(0, 9, vec![]).unwrap()));
    assert!(!should_key_image(&PixelBuffer::new(9, 0, vec![]).unwrap()));
}

#[test]
fn opaque_image_is_not_keyed() {
    assert!(!should_key_image(&opaque(10, 20)));
    assert!(!should_key_image(&opaque(1, 1)));
}

#[test]
fn image_is_keyed_at_the_threshold_and_not_below() {
    // Width 10: a fifth of two rows is 4 pixels. Height 20 samples rows 0, 5, 10, 15, 19.
    let mut image = opaque(10, 20);
    clear(&mut image, 0, 0);
    clear(&mut image, 3, 5);
    clear(&mut image, 9, 15);
    assert!(!should_key_image(&image));
    clear(&mut image, 4, 19);
    assert!(should_key_image(&image));
}

#[test]
fn threshold_is_rounded_up() {
    // Width 6: a fifth of two rows is 2.4 pixels, so 3 are needed.
    let mut image = opaque(6, 20);
    clear(&mut image, 0, 0);
    clear(&mut image, 1, 10);
    assert!(!should_key_image(&image));
    clear(&mut image, 2, 10);
    assert!(should_key_image(&image));
    // Width 1: one transparent sampled pixel is needed.
    let mut narrow = opaque(1, 20);
    assert!(!should_key_image(&narrow));
    clear(&mut narrow, 0, 10);
    assert!(should_key_image(&narrow));
}

#[test]
fn only_the_five_sample_rows_count() {
    let mut image = opaque(10, 20);
    for y in [1, 2, 3, 4, 6, 7, 8, 9, 11, 12, 13, 14, 16, 17, 18] {
        for x in 0..10 {
            clear(&mut image, x, y);
        }
    }
    assert!(!should_key_image(&image));
}

#[test]
fn a_row_that_is_sampled_twice_counts_twice() {
    // Height 2 samples rows 0, 0, 1, 1, 1: two transparent pixels of row 0 count as four.
    let mut image = opaque(10, 2);
    clear(&mut image, 0, 0);
    assert!(!should_key_image(&image));
    clear(&mut image, 1, 0);
    assert!(should_key_image(&image));
}

#[test]
fn a_fifth_of_transparent_sample_pixels_is_enough() {
    // 50 sampled pixels, 10 of them transparent.
    let mut image = opaque(10, 20);
    for y in [0, 5] {
        for x in 0..5 {
            clear(&mut image, x, y);
        }
    }
    assert!(should_key_image(&image));
}

#[test]
fn color_is_found_by_red_green_and_blue_alone() {
    let image = with_colors(&[[1, 2, 3, 0], [4, 5, 6, 255]]);
    assert!(color_exists_in_image(&image, Color::new(1, 2, 3)));
    assert!(color_exists_in_image(&image, Color::new_rgba(4, 5, 6, 17)));
    assert!(!color_exists_in_image(&image, Color::new(1, 2, 4)));
    assert!(!color_exists_in_image(&image, Color::new(3, 2, 1)));
    assert!(!color_exists_in_image(&PixelBuffer::new(0, 0, vec![]).unwrap(), Color::new(0, 0, 0)));
}

#[test]
fn saturated_colors_are_tried_in_order() {
    assert_eq!(
        special_color_list(),
        vec![
            Color::new(255, 0, 0),
            Color::new(0, 255, 0),
            Color::new(0, 0, 255),
            Color::new(255, 255, 0),
            Color::new(0, 255, 255),
            Color::new(255, 0, 255),
        ]
    );
    let image = with_colors(&[[255, 0, 0, 255], [0, 255, 0, 9], [0, 0, 0, 255]]);
    assert_eq!(find_unused_color_in_image(&image), Ok(Color::new(0, 0, 255)));
    assert_eq!(find_unused_color_among(&image, &vec![]), Ok(Color::new(0, 0, 255)));
    assert_eq!(find_unused_color_in_image(&opaque(3, 3)), Ok(Color::new(255, 0, 0)));
}

#[test]
fn search_falls_through_to_the_drawn_colors() {
    let mut colors = SATURATED.to_vec();
    colors.push([7, 7, 7, 255]);
    let image = with_colors(&colors);
    let drawn = vec![Color::new(7, 7, 7), Color::new(255, 0, 0), Color::new(9, 8, 7), Color::new(1, 1, 1)];
    assert_eq!(find_unused_color_among(&image, &drawn), Ok(Color::new(9, 8, 7)));
    assert_eq!(first_unused_color(&image, &drawn), Some(Color::new(9, 8, 7)));
}

#[test]
fn search_fails_when_every_candidate_is_used() {
    let mut colors = SATURATED.to_vec();
    colors.push([7, 7, 7, 255]);
    let image = with_colors(&colors);
    let expected = Err(String::from("unable to find unused color in image to use as key"));
    assert_eq!(find_unused_color_among(&image, &vec![Color::new(7, 7, 7)]), expected);
    assert_eq!(find_unused_color_among(&image, &vec![]), expected);
    assert_eq!(first_unused_color(&image, &vec![]), None);
}

#[test]
fn found_color_is_never_in_the_image() {
    let image = with_colors(&SATURATED);
    for _ in 0..20 {
        if let Ok(color) = find_unused_color_in_image(&image) {
            assert!(!color_exists_in_image(&image, color));
            assert_eq!(color.a, 255);
        }
    }
}

#[test]
fn drawn_colors_are_opaque_and_as_many_as_asked_for() {
    assert_eq!(NUM_UNUSED_COLOR_ITERATIONS, 6);
    let colors = random_colors(NUM_UNUSED_COLOR_ITERATIONS);
    assert_eq!(colors.len(), 6);
    assert!(colors.iter().all(|c| c.a == 255));
    assert_eq!(random_colors(0).len(), 0);
    // Forty bytes that all agree would mean that nothing is drawn at all.
    let many = random_colors(40);
    assert!(many.iter().any(|c| *c != many[0]));
}

#[test]
fn keying_paints_transparent_pixels_and_keeps_alpha() {
    let mut image = with_colors(&[[1, 2, 3, 0], [4, 5, 6, 255], [7, 8, 9, 1], [0, 0, 0, 0]]);
    apply_key(&mut image, Color::new(255, 0, 255));
    assert_eq!(
        image.pixels,
        vec![255, 0, 255, 0, 4, 5, 6, 255, 7, 8, 9, 1, 255, 0, 255, 0]
    );
    assert_eq!((image.width, image.height), (4, 1));
}

#[test]
fn keying_twice_is_keying_once() {
    let mut image = with_colors(&[[1, 2, 3, 0], [4, 5, 6, 255], [0, 0, 0, 0]]);
    apply_key(&mut image, Color::new(0, 255, 0));
    let once = image.pixels.clone();
    apply_key(&mut image, Color::new(0, 255, 0));
    assert_eq!(image.pixels, once);
}

#[test]
fn black_is_a_candidate_like_any_other() {
    let mut colors = SATURATED.to_vec();
    colors.push([7, 7, 7, 255]);
    let image = with_colors(&colors);
    let drawn = vec![Color::new(7, 7, 7), Color::new(0, 0, 0), Color::new(0, 0, 1)];
    assert!(!color_exists_in_image(&image, Color::new(0, 0, 0)));
    assert_eq!(first_unused_color(&image, &drawn), Some(Color::new(0, 0, 0)));
    assert_eq!(find_unused_color_among(&image, &drawn), Ok(Color::new(0, 0, 0)));
    colors.push([0, 0, 0, 3]);
    let image = with_colors(&colors);
    assert_eq!(find_unused_color_among(&image, &drawn), Ok(Color::new(0, 0, 1)));
}
