use vtracer::buffer::{pixels_to_buffer, PixelBuffer};
use vtracer::color::Color;
use vtracer::segmentation::{count_seeds, first_pass_tuning, second_pass_tuning, KeyingAction, Tuning, any_other_pixel};
use vtracer::config::{Config, Hierarchical};
use vtracer::svg::{render_document, PathElement, SvgFile};
use vtracer::text::{
    chars_of, decimal_string, is_space, parse_signed, parse_unsigned, same_text, text_between,
    trim_range,
};

#[test]
fn hex_text_of_a_color() {
    assert_eq!(Color::new(0, 0, 0).to_hex_string(), "#000000");
    assert_eq!(Color::new(255, 255, 255).to_hex_string(), "#FFFFFF");
    assert_eq!(Color::new_rgba(1, 171, 9, 3).to_hex_string(), "#01AB09");
    assert_eq!(Color::new(18, 52, 86).to_hex_string(), "#123456");
    assert_eq!(Color::new(222, 173, 190).to_hex_string(), "#DEADBE");
    for v in 0..=255u8 {
        assert_eq!(Color::new(v, 0, v).to_hex_string(), format!("#{:02X}00{:02X}", v, v));
    }
}

#[test]
fn colors_made_in_three_ways() {
    assert_eq!(Color::new(1, 2, 3), Color { r: 1, g: 2, b: 3, a: 255 });
    assert_eq!(Color::new_rgba(1, 2, 3, 4), Color { r: 1, g: 2, b: 3, a: 4 });
    assert_eq!(Color::default(), Color { r: 0, g: 0, b: 0, a: 0 });
    assert_eq!(Color::black(), Color { r: 0, g: 0, b: 0, a: 255 });
    assert!(Color::new(1, 2, 3).has_same_rgb(&Color::new_rgba(1, 2, 3, 0)));
    assert!(!Color::new(1, 2, 3).has_same_rgb(&Color::new(1, 2, 4)));
}

#[test]
fn decimal_text_of_a_number() {
    assert_eq!(decimal_string(0), "0");
    assert_eq!(decimal_string(7), "7");
    assert_eq!(decimal_string(10), "10");
    assert_eq!(decimal_string(1905), "1905");
    assert_eq!(decimal_string(u128::MAX), u128::MAX.to_string());
}

#[test]
fn texts_are_compared_by_their_characters() {
    assert!(same_text("", ""));
    assert!(same_text("bw", "bw"));
    assert!(!same_text("bw", "BW"));
    assert!(!same_text("bw", "bw "));
    assert!(same_text("é", "é"));
    assert!(!same_text("é", "e"));
    assert_eq!(chars_of("añb"), vec!['a', 'ñ', 'b']);
}

#[test]
fn white_space_is_what_unicode_says() {
    for code in 0..=0x3100u32 {
        if let Some(c) = char::from_u32(code) {
            assert_eq!(is_space(c), c.is_whitespace(), "{:x}", code);
        }
    }
    for text in ["", " ", "a", " a", "a ", "\u{3000}a b\u{85}\n", "\u{feff}a", "   "] {
        let chars: Vec<char> = text.chars().collect();
        let (start, end) = trim_range(&chars);
        assert_eq!(text_between(&chars, start, end), text.trim());
    }
}

#[test]
fn numbers_without_a_sign_are_read() {
    assert_eq!(parse_unsigned("0"), Some(0));
    assert_eq!(parse_unsigned(" 42\n"), Some(42));
    assert_eq!(parse_unsigned("+42"), Some(42));
    assert_eq!(parse_unsigned("0042"), Some(42));
    assert_eq!(parse_unsigned("18446744073709551615"), Some(u64::MAX));
    assert_eq!(parse_unsigned("18446744073709551616"), None);
    assert_eq!(parse_unsigned("000018446744073709551615"), Some(u64::MAX));
    assert_eq!(parse_unsigned("-1"), None);
    assert_eq!(parse_unsigned("-0"), None);
    assert_eq!(parse_unsigned("++1"), None);
    assert_eq!(parse_unsigned("+"), None);
    assert_eq!(parse_unsigned(""), None);
    assert_eq!(parse_unsigned("4 2"), None);
    assert_eq!(parse_unsigned("4a"), None);
    assert_eq!(parse_unsigned("４"), None);
}

#[test]
fn numbers_with_a_sign_are_read() {
    assert_eq!(parse_signed("0"), Some(0));
    assert_eq!(parse_signed("-0"), Some(0));
    assert_eq!(parse_signed(" -17 "), Some(-17));
    assert_eq!(parse_signed("+17"), Some(17));
    assert_eq!(parse_signed("9223372036854775807"), Some(i64::MAX));
    assert_eq!(parse_signed("9223372036854775808"), None);
    assert_eq!(parse_signed("-9223372036854775808"), Some(i64::MIN));
    assert_eq!(parse_signed("-9223372036854775809"), None);
    assert_eq!(parse_signed("-"), None);
    assert_eq!(parse_signed("--1"), None);
    assert_eq!(parse_signed("-+1"), None);
    assert_eq!(parse_signed("1-"), None);
    assert_eq!(parse_signed(""), None);
}

#[test]
fn buffer_is_built_only_with_the_right_number_of_bytes() {
    assert!(PixelBuffer::new(2, 3, vec![0; 24]).is_some());
    assert!(PixelBuffer::new(2, 3, vec![0; 23]).is_none());
    assert!(PixelBuffer::new(0, 3, vec![]).is_some());
    assert!(PixelBuffer::new(usize::MAX, 2, vec![0; 8]).is_none());
    assert!(PixelBuffer::new(usize::MAX, usize::MAX, vec![]).is_none());
    assert!(PixelBuffer::fits(1, 1, 4));
    assert!(!PixelBuffer::fits(1, 1, 5));
    let image = PixelBuffer::new(2, 2, (0..16).collect()).unwrap();
    assert!(image.is_well_formed());
    assert_eq!(image.pixel_count(), 4);
    assert_eq!(image.get_pixel(0, 0), Color::new_rgba(0, 1, 2, 3));
    assert_eq!(image.get_pixel(1, 0), Color::new_rgba(4, 5, 6, 7));
    assert_eq!(image.get_pixel(0, 1), Color::new_rgba(8, 9, 10, 11));
    assert_eq!(image.get_pixel(1, 1), Color::new_rgba(12, 13, 14, 15));
    let broken = PixelBuffer { pixels: vec![0; 3], width: 1, height: 1 };
    assert!(!broken.is_well_formed());
}

#[test]
fn list_of_pixels_becomes_a_buffer() {
    let pixels = vec![(1, 2, 3, 4), (5, 6, 7, 8), (9, 10, 11, 12), (13, 14, 15, 16), (0, 0, 0, 0), (1, 1, 1, 1)];
    let image = pixels_to_buffer(&pixels, (3, 2)).unwrap();
    assert_eq!((image.width, image.height), (3, 2));
    assert_eq!(
        image.pixels,
        vec![1, 2, 3, 4, 5, 6, 7, 8, 9, 10, 11, 12, 13, 14, 15, 16, 0, 0, 0, 0, 1, 1, 1, 1]
    );
    assert!(image.is_well_formed());
    let empty = pixels_to_buffer(&vec![], (0, 5)).unwrap();
    assert_eq!(empty.pixels.len(), 0);
}

#[test]
fn list_of_pixels_of_the_wrong_length_is_turned_down() {
    let pixels = vec![(1, 2, 3, 4); 5];
    assert_eq!(
        pixels_to_buffer(&pixels, (3, 2)).unwrap_err(),
        "Length of rgba_pixels does not match given image size. Expected 6 (3 * 2), got 5. "
    );
    assert_eq!(
        pixels_to_buffer(&pixels, (usize::MAX, 2)).unwrap_err(),
        format!(
            "Length of rgba_pixels does not match given image size. Expected {} ({} * 2), got 5. ",
            usize::MAX as u128 * 2,
            usize::MAX
        )
    );
}

#[test]
fn document_is_written_line_by_line() {
    assert_eq!(
        render_document(3, 20, &vec![]),
        "<?xml version=\"1.0\" encoding=\"UTF-8\"?>\n\
         <!-- Generator: visioncortex VTracer 0.1.0 -->\n\
         <svg version=\"1.1\" xmlns=\"http://www.w3.org/2000/svg\" width=\"3\" height=\"20\">\n\
         </svg>\n"
    );
    let elements = vec![
        PathElement {
            data: String::from("M0,0 L1,0 Z "),
            fill: String::from("#010203"),
            x: String::from("4"),
            y: String::from("5.5"),
        },
        PathElement {
            data: String::new(),
            fill: String::from("#FFFFFF"),
            x: String::from("0"),
            y: String::from("-1"),
        },
    ];
    assert_eq!(
        render_document(0, 1, &elements),
        "<?xml version=\"1.0\" encoding=\"UTF-8\"?>\n\
         <!-- Generator: visioncortex VTracer 0.1.0 -->\n\
         <svg version=\"1.1\" xmlns=\"http://www.w3.org/2000/svg\" width=\"0\" height=\"1\">\n\
         <path d=\"M0,0 L1,0 Z \" fill=\"#010203\" transform=\"translate(4,5.5)\"/>\n\
         <path d=\"\" fill=\"#FFFFFF\" transform=\"translate(0,-1)\"/>\n\
         </svg>\n"
    );
}

#[test]
fn paths_are_kept_in_the_order_in_which_they_are_added() {
    let mut svg = SvgFile::new(7, 9, Some(3));
    assert_eq!((svg.width, svg.height, svg.path_precision), (7, 9, Some(3)));
    assert!(svg.paths.is_empty());
    svg.add_path(visioncortex::CompoundPath::new(), Color::new(1, 1, 1));
    svg.add_path(visioncortex::CompoundPath::new(), Color::new(2, 2, 2));
    svg.add_path(visioncortex::CompoundPath::new(), Color::new(3, 3, 3));
    let fills: Vec<Color> = svg.paths.iter().map(|p| p.color).collect();
    assert_eq!(fills, vec![Color::new(1, 1, 1), Color::new(2, 2, 2), Color::new(3, 3, 3)]);
    assert_eq!((svg.width, svg.height, svg.path_precision), (7, 9, Some(3)));
}

#[test]
fn tuning_of_the_two_passes() {
    let params = Config { hierarchical: Hierarchical::Cutout, layer_difference: 0, ..Config::default() }
        .into_converter_config();
    let key = Color::new_rgba(255, 0, 0, 0);
    assert_eq!(
        first_pass_tuning(&params, 30, 20, key),
        Tuning {
            diagonal: true,
            hierarchical: u32::MAX,
            batch_size: 25600,
            good_min_area: 16,
            good_max_area: 600,
            is_same_color_a: 2,
            is_same_color_b: 1,
            deepen_diff: 0,
            hollow_neighbours: 1,
            key_color: key,
            keying_action: KeyingAction::Keep,
        }
    );
    let stacked = Config::default().into_converter_config();
    let first = first_pass_tuning(&stacked, 30, 20, Color::default());
    assert_eq!(first.keying_action, KeyingAction::Discard);
    assert!(!first.diagonal);
    assert_eq!(first.deepen_diff, 16);
    assert_eq!(
        second_pass_tuning(30, 20, key),
        Tuning {
            diagonal: false,
            hierarchical: 64,
            batch_size: 25600,
            good_min_area: 0,
            good_max_area: 600,
            is_same_color_a: 0,
            is_same_color_b: 1,
            deepen_diff: 0,
            hollow_neighbours: 0,
            key_color: key,
            keying_action: KeyingAction::Discard,
        }
    );
}

#[test]
fn seeds_of_a_two_level_image() {
    // . # # .
    // # . . #
    // . . # #
    let dark = [0u8, 0, 0, 255];
    let light = [255u8, 255, 255, 255];
    let rows = [[0, 1, 1, 0], [1, 0, 0, 1], [0, 0, 1, 1]];
    let mut pixels = Vec::new();
    for row in rows {
        for cell in row {
            pixels.extend_from_slice(if cell == 1 { &dark } else { &light });
        }
    }
    let image = PixelBuffer::new(4, 3, pixels).unwrap();
    assert_eq!(count_seeds(&image), 4);
    assert_eq!(count_seeds(&PixelBuffer::new(0, 0, vec![]).unwrap()), 0);
    assert!(any_other_pixel(&image, Color::new(0, 0, 0)));
    let plain = PixelBuffer::new(2, 1, vec![1, 2, 3, 4, 1, 2, 3, 4]).unwrap();
    assert!(!any_other_pixel(&plain, Color::new_rgba(1, 2, 3, 4)));
    assert!(any_other_pixel(&plain, Color::new_rgba(1, 2, 3, 5)));
}
