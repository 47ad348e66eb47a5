use visioncortex::color_clusters::{KeyingAction, Runner, RunnerConfig, HIERARCHICAL_MAX};
use visioncortex::{ColorImage, CompoundPath, PathSimplifyMode as Fitting};
use vtracer::buffer::PixelBuffer;
use vtracer::color::Color;
use vtracer::config::{ColorMode, Config, ConverterConfig, Hierarchical, PathSimplifyMode, Preset};
use vtracer::converter::{
    convert, convert_in_one_go, convert_in_steps, is_convertible, key_image, BinaryImageConverter, ColorImageConverter, Conversion, Phase,
};
use vtracer::emission::RegionList;
use vtracer::keying::{apply_key, find_unused_color_in_image, should_key_image};
use vtracer::svg::{PathText, SvgFile};

fn radians(degrees: i32) -> f64 {
    degrees as f64 / 180.0 * std::f64::consts::PI
}

fn fitting(mode: PathSimplifyMode) -> Fitting {
    match mode {
        PathSimplifyMode::Pixel => Fitting::None,
        PathSimplifyMode::Polygon => Fitting::Polygon,
        PathSimplifyMode::Spline => Fitting::Spline,
    }
}

fn fit(list: &RegionList, place: usize, params: &ConverterConfig) -> CompoundPath {
    let length = f64::from_bits(params.length_threshold.to_bits());
    match list {
        RegionList::Color(clusters) => {
            let view = clusters.view();
            let cluster = view.get_cluster(view.clusters_output[place]);
            cluster.to_compound_path(
                &view,
                false,
                fitting(params.mode),
                radians(params.corner_threshold),
                length,
                params.max_iterations,
                radians(params.splice_threshold),
            )
        }
        RegionList::Binary(clusters) => clusters.get_cluster(place).to_compound_path(
            fitting(params.mode),
            radians(params.corner_threshold),
            length,
            params.max_iterations,
            radians(params.splice_threshold),
        ),
    }
}

fn run_color(converter: &mut ColorImageConverter, params: &ConverterConfig) -> Vec<i32> {
    let mut seen = vec![converter.progress()];
    for _ in 0..100_000 {
        if let Some(place) = converter.path_request() {
            let path = fit(converter.regions().unwrap(), place, params);
            converter.add_path(path);
            seen.push(converter.progress());
        } else {
            let done = converter.tick();
            seen.push(converter.progress());
            if done {
                return seen;
            }
        }
    }
    panic!("the conversion did not end");
}

fn run_binary(converter: &mut BinaryImageConverter, params: &ConverterConfig) -> Vec<u32> {
    let mut seen = vec![converter.progress()];
    for _ in 0..100_000 {
        if let Some(place) = converter.path_request() {
            let path = fit(converter.regions().unwrap(), place, params);
            converter.add_path(path);
            seen.push(converter.progress());
        } else {
            let done = converter.tick();
            seen.push(converter.progress());
            if done {
                return seen;
            }
        }
    }
    panic!("the conversion did not end");
}

fn convert_fully(image: PixelBuffer, config: Config) -> SvgFile {
    let params = config.into_converter_config();
    assert!(is_convertible(&image, config.color_mode));
    match convert(image, config).unwrap() {
        Conversion::Color(mut converter) => {
            run_color(&mut converter, &params);
            converter.into_svg().unwrap()
        }
        Conversion::Binary(mut converter) => {
            run_binary(&mut converter, &params);
            converter.into_svg().unwrap()
        }
    }
}

fn step_by_step(image: PixelBuffer, config: Config) -> SvgFile {
    let params = config.into_converter_config();
    let mut converter = ColorImageConverter::new(params);
    converter.init(image).unwrap();
    run_color(&mut converter, &params);
    converter.into_svg().unwrap()
}

fn solid(width: usize, height: usize, color: [u8; 4]) -> PixelBuffer {
    let mut pixels = Vec::new();
    for _ in 0..width * height {
        pixels.extend_from_slice(&color);
    }
    PixelBuffer::new(width, height, pixels).unwrap()
}

fn set(image: &mut PixelBuffer, x: usize, y: usize, color: [u8; 4]) {
    let at = (y * image.width + x) * 4;
    image.pixels[at..at + 4].copy_from_slice(&color);
}

/// Two colored halves with a square of a third color in the left half.
fn picture() -> PixelBuffer {
    let mut image = solid(16, 12, [200, 30, 30, 255]);
    for y in 0..12 {
        for x in 8..16 {
            set(&mut image, x, y, [20, 40, 220, 255]);
        }
    }
    for y in 3..8 {
        for x in 2..6 {
            set(&mut image, x, y, [240, 240, 10, 255]);
        }
    }
    image
}

/// The picture with its right half fully transparent.
fn picture_with_hole() -> PixelBuffer {
    let mut image = picture();
    for y in 0..12 {
        for x in 8..16 {
            set(&mut image, x, y, [0, 0, 0, 0]);
        }
    }
    image
}

/// The conversion done in one go on the engine's blocking calls.
fn in_one_go(image: &PixelBuffer, config: Config) -> SvgFile {
    let params = config.into_converter_config();
    let mut image = PixelBuffer::new(image.width, image.height, image.pixels.clone()).unwrap();
    let (width, height) = (image.width, image.height);
    let key = if should_key_image(&image) {
        let key = find_unused_color_in_image(&image).unwrap();
        apply_key(&mut image, key);
        visioncortex::Color::new_rgba(key.r, key.g, key.b, 0)
    } else {
        visioncortex::Color::default()
    };
    let runner = Runner::new(
        RunnerConfig {
            diagonal: params.layer_difference == 0,
            hierarchical: HIERARCHICAL_MAX,
            batch_size: 25600,
            good_min_area: params.filter_speckle_area,
            good_max_area: width * height,
            is_same_color_a: params.color_precision_loss,
            is_same_color_b: 1,
            deepen_diff: params.layer_difference,
            hollow_neighbours: 1,
            key_color: key,
            keying_action: if params.hierarchical == Hierarchical::Cutout {
                KeyingAction::Keep
            } else {
                KeyingAction::Discard
            },
        },
        ColorImage { pixels: image.pixels, width, height },
    );
    let mut clusters = runner.run();
    if params.hierarchical == Hierarchical::Cutout {
        let merged = clusters.view().to_color_image();
        let runner = Runner::new(
            RunnerConfig {
                diagonal: false,
                hierarchical: 64,
                batch_size: 25600,
                good_min_area: 0,
                good_max_area: merged.width * merged.height,
                is_same_color_a: 0,
                is_same_color_b: 1,
                deepen_diff: 0,
                hollow_neighbours: 0,
                key_color: key,
                keying_action: KeyingAction::Discard,
            },
            merged,
        );
        clusters = runner.run();
    }
    let view = clusters.view();
    let mut svg = SvgFile::new(width, height, params.path_precision);
    for &index in view.clusters_output.iter().rev() {
        let cluster = view.get_cluster(index);
        if cluster.area() >= params.filter_speckle_area {
            let path = cluster.to_compound_path(
                &view,
                false,
                fitting(params.mode),
                radians(params.corner_threshold),
                f64::from_bits(params.length_threshold.to_bits()),
                params.max_iterations,
                radians(params.splice_threshold),
            );
            let color = cluster.residue_color();
            svg.add_path(path, Color::new_rgba(color.r, color.g, color.b, color.a));
        }
    }
    svg
}

fn document(svg: &SvgFile) -> String {
    let texts: Vec<PathText> = svg
        .paths
        .iter()
        .map(|entry| {
            let (data, offset) =
                entry.path.to_svg_string(true, visioncortex::PointF64::default(), svg.path_precision);
            PathText { data, x: format!("{}", offset.x), y: format!("{}", offset.y) }
        })
        .collect();
    svg.to_svg_string(&texts)
}

fn count(text: &str, piece: &str) -> usize {
    text.matches(piece).count()
}

#[test]
fn opaque_square_in_binary_mode_gives_a_black_path() {
    let image = solid(2, 2, [0, 0, 0, 255]);
    let config = Config { filter_speckle: 2, ..Config::from_preset(Preset::Bw) };
    let svg = convert_fully(image, config);
    let text = document(&svg);
    assert!(text.contains("<svg version=\"1.1\" xmlns=\"http://www.w3.org/2000/svg\" width=\"2\" height=\"2\">"));
    assert_eq!(count(&text, "<path "), 1);
    assert!(text.contains("fill=\"#000000\""));
    assert_eq!(svg.paths.len(), 1);
    assert_eq!(svg.paths[0].color, Color::new(0, 0, 0));
}

#[test]
fn default_bw_preset_keeps_a_region_of_sixteen_pixels() {
    let mut image = solid(6, 6, [255, 255, 255, 255]);
    for y in 1..5 {
        for x in 1..5 {
            set(&mut image, x, y, [0, 0, 0, 255]);
        }
    }
    let svg = convert_fully(image, Config::from_preset(Preset::Bw));
    let text = document(&svg);
    assert!(text.contains("width=\"6\" height=\"6\""));
    assert_eq!(count(&text, "<path "), 1);
    assert!(text.contains("fill=\"#000000\""));
    assert!(text.contains("transform=\"translate(1,1)\""));
}

#[test]
fn default_bw_preset_filters_a_region_of_four_pixels() {
    // The preset's speckle size of 4 gives a smallest area of 16 pixels.
    let image = solid(2, 2, [0, 0, 0, 255]);
    let svg = convert_fully(image, Config::from_preset(Preset::Bw));
    let text = document(&svg);
    assert!(text.contains("width=\"2\" height=\"2\""));
    assert_eq!(count(&text, "<path "), 0);
    assert_eq!(svg.paths.len(), 0);
}

#[test]
fn speckle_filter_above_the_region_gives_no_path() {
    let image = solid(2, 2, [0, 0, 0, 255]);
    let config = Config { filter_speckle: 3, ..Config::from_preset(Preset::Bw) };
    let svg = convert_fully(image, config);
    assert_eq!(count(&document(&svg), "<path "), 0);
}

#[test]
fn light_image_in_binary_mode_has_no_region() {
    let image = solid(3, 3, [200, 200, 200, 255]);
    let config = Config { filter_speckle: 0, ..Config::from_preset(Preset::Bw) };
    let params = config.into_converter_config();
    let mut converter = BinaryImageConverter::new(params);
    converter.init(image);
    assert_eq!(converter.regions().unwrap().len(), 0);
    assert_eq!(converter.progress(), 100);
    assert!(!converter.is_done());
    assert!(converter.tick());
    assert!(converter.is_done());
    assert_eq!(converter.progress(), 100);
    assert_eq!(converter.into_svg().unwrap().paths.len(), 0);
}

#[test]
fn binary_regions_are_walked_from_the_last_to_the_first() {
    // Two separate dark regions: one pixel at the top left, three at the bottom right.
    let mut image = solid(5, 5, [255, 255, 255, 255]);
    set(&mut image, 0, 0, [0, 0, 0, 255]);
    set(&mut image, 2, 4, [10, 0, 0, 255]);
    set(&mut image, 3, 4, [127, 0, 0, 255]);
    set(&mut image, 4, 4, [0, 0, 0, 255]);
    set(&mut image, 4, 0, [128, 0, 0, 255]);
    let config = Config { filter_speckle: 0, ..Config::from_preset(Preset::Bw) };
    let params = config.into_converter_config();
    let mut converter = BinaryImageConverter::new(params);
    converter.init(image);
    let list = converter.regions().unwrap();
    assert_eq!(list.len(), 2);
    assert_eq!(list.region(0).area, 1);
    assert_eq!(list.region(1).area, 3);
    assert_eq!(list.region(1).color, Color::new(0, 0, 0));
    assert_eq!(converter.progress(), 0);
    assert_eq!(converter.path_request(), Some(1));
    let path = fit(converter.regions().unwrap(), 1, &params);
    converter.add_path(path);
    assert_eq!(converter.progress(), 50);
    assert_eq!(converter.path_request(), Some(0));
    let path = fit(converter.regions().unwrap(), 0, &params);
    converter.add_path(path);
    assert_eq!(converter.progress(), 100);
    assert_eq!(converter.path_request(), None);
    assert!(converter.tick());
    assert_eq!(converter.output().unwrap().paths.len(), 2);
}

#[test]
fn binary_walk_skips_a_region_that_is_too_small() {
    let mut image = solid(5, 5, [255, 255, 255, 255]);
    set(&mut image, 0, 0, [0, 0, 0, 255]);
    for x in 1..5 {
        set(&mut image, x, 4, [0, 0, 0, 255]);
    }
    let config = Config { filter_speckle: 2, ..Config::from_preset(Preset::Bw) };
    let params = config.into_converter_config();
    let mut converter = BinaryImageConverter::new(params);
    converter.init(image);
    assert_eq!(converter.regions().unwrap().len(), 2);
    assert_eq!(converter.path_request(), Some(1));
    converter.add_path(fit(converter.regions().unwrap(), 1, &params));
    assert_eq!(converter.path_request(), None);
    assert!(!converter.tick());
    assert_eq!(converter.progress(), 100);
    assert!(converter.tick());
    assert_eq!(converter.into_svg().unwrap().paths.len(), 1);
}

#[test]
fn color_progress_never_falls_and_ends_at_100() {
    for hierarchical in [Hierarchical::Stacked, Hierarchical::Cutout] {
        let config = Config { hierarchical, filter_speckle: 2, ..Config::default() };
        let params = config.into_converter_config();
        let mut converter = ColorImageConverter::new(params);
        assert_eq!(converter.progress(), 0);
        converter.init(picture()).unwrap();
        let seen = run_color(&mut converter, &params);
        assert!(seen.windows(2).all(|pair| pair[0] <= pair[1]), "{:?}", seen);
        assert!(seen.iter().all(|&p| (0..=100).contains(&p)));
        assert_eq!(*seen.last().unwrap(), 100);
        assert_eq!(converter.progress(), 100);
        assert!(converter.is_done());
        assert!(converter.path_request().is_none());
    }
}

#[test]
fn stacked_conversion_finds_the_colors_of_the_picture() {
    let config = Config { filter_speckle: 2, ..Config::default() };
    let svg = convert_fully(picture(), config);
    let fills: Vec<Color> = svg.paths.iter().map(|p| p.color).collect();
    assert!(fills.contains(&Color::new(200, 30, 30)));
    assert!(fills.contains(&Color::new(20, 40, 220)));
    assert!(fills.contains(&Color::new(240, 240, 10)));
    assert_eq!(svg.width, 16);
    assert_eq!(svg.height, 12);
    assert_eq!(svg.path_precision, Some(2));
    let text = document(&svg);
    assert_eq!(count(&text, "<path "), svg.paths.len());
    assert!(text.contains("fill=\"#C81E1E\""));
}

#[test]
fn steps_give_what_the_conversion_in_one_go_gives() {
    for hierarchical in [Hierarchical::Stacked, Hierarchical::Cutout] {
        for mode in [PathSimplifyMode::Spline, PathSimplifyMode::Polygon, PathSimplifyMode::Pixel] {
            for image in [picture(), picture_with_hole()] {
                let config = Config { hierarchical, mode, filter_speckle: 2, ..Config::default() };
                let expected = in_one_go(&image, config);
                let copy = PixelBuffer::new(image.width, image.height, image.pixels.clone()).unwrap();
                let stepped = step_by_step(copy, config);
                let whole = convert_fully(image, config);
                assert!(expected.paths.len() >= 1);
                assert_eq!(stepped.paths.len(), whole.paths.len());
                for (left, right) in stepped.paths.iter().zip(whole.paths.iter()) {
                    assert_eq!(left.color, right.color);
                }
                assert_eq!(document(&stepped), document(&whole));
                assert_eq!(document(&whole), document(&expected));
            }
        }
    }
}

#[test]
fn transparent_half_is_keyed_and_left_out_when_stacked() {
    let config = Config { filter_speckle: 2, ..Config::default() };
    let svg = convert_fully(picture_with_hole(), config);
    let fills: Vec<Color> = svg.paths.iter().map(|p| p.color).collect();
    assert!(fills.contains(&Color::new(200, 30, 30)));
    assert!(fills.contains(&Color::new(240, 240, 10)));
    // Red is used by no pixel, so it is the key; no path is filled with it.
    assert!(fills.iter().all(|c| !(c.r == 255 && c.g == 0 && c.b == 0)));
    assert_eq!(fills.len(), 2);
}

#[test]
fn fully_transparent_image_gives_no_region() {
    let config = Config { filter_speckle: 0, ..Config::default() };
    let params = config.into_converter_config();
    let mut converter = ColorImageConverter::new(params);
    converter.init(solid(4, 4, [9, 9, 9, 0])).unwrap();
    let seen = run_color(&mut converter, &params);
    assert_eq!(*seen.last().unwrap(), 100);
    assert!(seen.windows(2).all(|pair| pair[0] <= pair[1]));
    assert_eq!(converter.regions().unwrap().len(), 0);
    assert_eq!(converter.into_svg().unwrap().paths.len(), 0);
}

#[test]
fn empty_image_gives_an_empty_document() {
    let config = Config::default();
    let params = config.into_converter_config();
    let mut converter = ColorImageConverter::new(params);
    converter.init(PixelBuffer::new(0, 0, vec![]).unwrap()).unwrap();
    let seen = run_color(&mut converter, &params);
    assert_eq!(*seen.last().unwrap(), 100);
    let svg = converter.into_svg().unwrap();
    assert_eq!(svg.paths.len(), 0);
    assert!(document(&svg).contains("width=\"0\" height=\"0\""));
}

#[test]
fn conversion_does_not_start_when_every_candidate_is_used() {
    // All six saturated colors occur, and so does the one color offered beyond them.
    let mut image = solid(10, 1, [0, 0, 0, 0]);
    let used = [
        [255, 0, 0, 255],
        [0, 255, 0, 255],
        [0, 0, 255, 255],
        [255, 255, 0, 255],
        [0, 255, 255, 255],
        [255, 0, 255, 255],
    ];
    for (x, color) in used.iter().enumerate() {
        set(&mut image, x, 0, *color);
    }
    set(&mut image, 6, 0, [7, 7, 7, 0]);
    let params = Config::default().into_converter_config();
    let mut converter = ColorImageConverter::new(params);
    let turned_down = converter.init_with(
        PixelBuffer::new(10, 1, image.pixels.clone()).unwrap(),
        &vec![Color::new(7, 7, 7)],
    );
    assert_eq!(
        turned_down,
        Err(String::from("unable to find unused color in image to use as key"))
    );
    assert_eq!(converter.progress(), 0);
    assert!(converter.regions().is_none());
    // With a free color among the candidates the conversion starts.
    assert!(converter.init_with(image, &vec![Color::new(7, 7, 7), Color::new(8, 8, 8)]).is_ok());
    let seen = run_color(&mut converter, &params);
    assert_eq!(*seen.last().unwrap(), 100);
}

#[test]
fn convert_picks_the_converter_by_color_mode() {
    let color = convert(picture(), Config::default()).unwrap();
    match color {
        Conversion::Color(converter) => {
            assert_eq!(converter.current_phase(), Phase::Emitting);
            assert_eq!(converter.progress(), 50);
            assert!(converter.output().unwrap().paths.is_empty());
        }
        Conversion::Binary(_) => panic!("a color image was converted in binary mode"),
    }
    let binary = convert(picture(), Config::from_preset(Preset::Bw)).unwrap();
    assert!(matches!(binary, Conversion::Binary(_)));
    assert_eq!(Config::from_preset(Preset::Bw).color_mode, ColorMode::Binary);
}

#[test]
fn images_beyond_the_limits_of_the_engine_are_not_convertible() {
    let odd = PixelBuffer { pixels: vec![0; 7], width: 1, height: 1 };
    assert!(!is_convertible(&odd, ColorMode::Color));
    assert!(!is_convertible(&odd, ColorMode::Binary));
    assert!(is_convertible(&picture(), ColorMode::Color));
    assert!(is_convertible(&picture(), ColorMode::Binary));
}

#[test]
fn first_pass_counts_for_half_of_its_own_progress() {
    let params = Config { filter_speckle: 2, ..Config::default() }.into_converter_config();
    let mut converter = ColorImageConverter::new(params);
    assert_eq!(converter.current_phase(), Phase::Uninitialized);
    converter.init(picture()).unwrap();
    assert_eq!(converter.current_phase(), Phase::Segmenting);
    assert_eq!(converter.progress(), 0);
    // One piece of work is enough for the first half of the pass on so small an image:
    // the engine then says 50.
    assert!(!converter.tick());
    assert_eq!(converter.current_phase(), Phase::Segmenting);
    assert_eq!(converter.progress(), 25);
}

#[test]
fn progress_is_half_of_the_furthest_that_the_first_pass_has_said() {
    let params = Config { filter_speckle: 2, ..Config::default() }.into_converter_config();
    let mut converter = ColorImageConverter::new(params);
    assert_eq!(converter.pass_progress(), None);
    converter.init(picture()).unwrap();
    assert_eq!(converter.pass_progress(), Some(0));
    assert_eq!(converter.progress(), 0);
    let mut furthest = 0;
    while converter.current_phase() == Phase::Segmenting {
        assert!(!converter.tick());
        if let Some(said) = converter.pass_progress() {
            assert!(said <= 100);
            furthest = furthest.max(said);
            assert_eq!(converter.progress(), (furthest / 2) as i32);
        }
    }
    assert!(furthest >= 50);
    assert_eq!(converter.pass_progress(), None);
}

#[test]
fn pass_that_is_not_done_is_left_as_it_is() {
    let params = Config { filter_speckle: 2, ..Config::default() }.into_converter_config();
    let mut converter = ColorImageConverter::new(params);
    converter.init(picture()).unwrap();
    converter.settle(false);
    assert_eq!(converter.current_phase(), Phase::Segmenting);
    assert_eq!(converter.progress(), 0);
    assert_eq!(converter.pass_progress(), Some(0));
    let seen = run_color(&mut converter, &params);
    assert_eq!(*seen.last().unwrap(), 100);
    assert_eq!(converter.output().unwrap().width, 16);
    assert_eq!(converter.output().unwrap().height, 12);
}

#[test]
fn pass_without_pixels_cannot_say_how_far_it_is() {
    let params = Config::default().into_converter_config();
    let mut converter = ColorImageConverter::new(params);
    converter.init(PixelBuffer::new(0, 0, vec![]).unwrap()).unwrap();
    assert_eq!(converter.pass_progress(), None);
    assert_eq!(converter.progress(), 0);
    let mut transparent = ColorImageConverter::new(params);
    transparent.init(solid(4, 4, [9, 9, 9, 0])).unwrap();
    assert_eq!(transparent.pass_progress(), None);
    assert!(!transparent.tick());
    assert_eq!(transparent.progress(), 0);
}

#[test]
fn cutout_mode_has_a_second_pass_at_the_midpoint() {
    let config = Config { hierarchical: Hierarchical::Cutout, filter_speckle: 2, ..Config::default() };
    let params = config.into_converter_config();
    let mut converter = ColorImageConverter::new(params);
    converter.init(picture()).unwrap();
    let mut phases = vec![converter.current_phase()];
    for _ in 0..10_000 {
        if converter.current_phase() == Phase::Emitting {
            break;
        }
        assert!(!converter.tick());
        if converter.current_phase() == Phase::Resegmenting {
            assert_eq!(converter.progress(), 50);
        }
        if *phases.last().unwrap() != converter.current_phase() {
            phases.push(converter.current_phase());
        }
    }
    assert_eq!(phases, vec![Phase::Segmenting, Phase::Resegmenting, Phase::Emitting]);
    assert_eq!(converter.key(), Color::default());
}

#[test]
fn stacked_mode_goes_from_the_first_pass_to_the_emission() {
    let params = Config { filter_speckle: 2, ..Config::default() }.into_converter_config();
    let mut converter = ColorImageConverter::new(params);
    converter.init(picture_with_hole()).unwrap();
    assert_eq!(converter.key(), Color::new_rgba(255, 0, 0, 0));
    assert_eq!(*converter.parameters(), params);
    let mut phases = vec![converter.current_phase()];
    for _ in 0..10_000 {
        if converter.current_phase() == Phase::Emitting {
            break;
        }
        assert!(!converter.tick());
        if *phases.last().unwrap() != converter.current_phase() {
            phases.push(converter.current_phase());
        }
    }
    assert_eq!(phases, vec![Phase::Segmenting, Phase::Emitting]);
}

#[test]
fn conversion_in_one_go_does_not_start_when_every_candidate_is_used() {
    let mut image = solid(10, 1, [0, 0, 0, 0]);
    let used = [
        [255, 0, 0, 255],
        [0, 255, 0, 255],
        [0, 0, 255, 255],
        [255, 255, 0, 255],
        [0, 255, 255, 255],
        [255, 0, 255, 255],
    ];
    for (x, color) in used.iter().enumerate() {
        set(&mut image, x, 0, *color);
    }
    let params = Config::default().into_converter_config();
    let mut converter = ColorImageConverter::new(params);
    let copy = PixelBuffer::new(10, 1, image.pixels.clone()).unwrap();
    assert_eq!(
        converter.segment_with(copy, &vec![Color::new(255, 0, 0)]),
        Err(String::from("unable to find unused color in image to use as key"))
    );
    assert_eq!(converter.current_phase(), Phase::Uninitialized);
    assert!(converter.segment_with(image, &vec![Color::new(1, 2, 3)]).is_ok());
    assert_eq!(converter.current_phase(), Phase::Emitting);
    assert_eq!(converter.key(), Color::new_rgba(1, 2, 3, 0));
}

#[test]
fn keyed_image_and_key_color() {
    let image = picture_with_hole();
    let (painted, key) = key_image(image, &vec![]).unwrap();
    assert_eq!(key, Color::new_rgba(255, 0, 0, 0));
    assert_eq!(painted.get_pixel(8, 0), Color::new_rgba(255, 0, 0, 0));
    assert_eq!(painted.get_pixel(0, 0), Color::new(200, 30, 30));
    let (same, none) = key_image(picture(), &vec![]).unwrap();
    assert_eq!(none, Color::default());
    assert_eq!(same.pixels, picture().pixels);
}

#[test]
fn black_key_is_handed_to_the_engine_as_no_key() {
    let mut image = solid(10, 1, [9, 9, 9, 0]);
    let used = [
        [255, 0, 0, 255],
        [0, 255, 0, 255],
        [0, 0, 255, 255],
        [255, 255, 0, 255],
        [0, 255, 255, 255],
        [255, 0, 255, 255],
    ];
    for (x, color) in used.iter().enumerate() {
        set(&mut image, x, 0, *color);
    }
    let copy = PixelBuffer::new(10, 1, image.pixels.clone()).unwrap();
    let (painted, key) = key_image(copy, &vec![Color::new(0, 0, 0), Color::new(5, 0, 0)]).unwrap();
    assert_eq!(key, Color::default());
    assert_eq!(painted.get_pixel(6, 0), Color::new_rgba(0, 0, 0, 0));
    assert_eq!(painted.get_pixel(0, 0), Color::new(255, 0, 0));
    let copy = PixelBuffer::new(10, 1, image.pixels.clone()).unwrap();
    let (_, key) = key_image(copy, &vec![Color::new(255, 0, 0), Color::new(5, 0, 0)]).unwrap();
    assert_eq!(key, Color::new_rgba(5, 0, 0, 0));
    // With the black key the conversion goes on, with no key for the engine.
    let params = Config { filter_speckle: 1, ..Config::default() }.into_converter_config();
    let mut black = ColorImageConverter::new(params);
    black.segment_with(image, &vec![Color::new(0, 0, 0)]).unwrap();
    assert_eq!(black.key(), Color::default());
    assert_eq!(black.current_phase(), Phase::Emitting);
    let seen = run_color(&mut black, &params);
    assert_eq!(*seen.last().unwrap(), 100);
}

#[test]
fn whole_runs_in_steps_and_in_one_go_give_the_same_drawing() {
    for hierarchical in [Hierarchical::Stacked, Hierarchical::Cutout] {
        for image in [picture(), picture_with_hole()] {
            let config = Config { hierarchical, filter_speckle: 2, ..Config::default() };
            let params = config.into_converter_config();
            let fitter = |list: &RegionList, place: usize| fit(list, place, &params);
            let copy = PixelBuffer::new(image.width, image.height, image.pixels.clone()).unwrap();
            let stepped = convert_in_steps(copy, params, &vec![], &fitter, 10_000).unwrap();
            let copy = PixelBuffer::new(image.width, image.height, image.pixels.clone()).unwrap();
            let whole = convert_in_one_go(copy, params, &vec![], &fitter).unwrap();
            assert!(!whole.paths.is_empty());
            assert_eq!(stepped.paths.len(), whole.paths.len());
            for (left, right) in stepped.paths.iter().zip(whole.paths.iter()) {
                assert_eq!(left.color, right.color);
            }
            assert_eq!(document(&stepped), document(&whole));
            assert_eq!(document(&whole), document(&in_one_go(&image, config)));
            // Without steps the passes do not end.
            assert!(convert_in_steps(image, params, &vec![], &fitter, 0).is_none());
        }
    }
}

#[test]
fn whole_runs_are_turned_down_when_every_candidate_is_used() {
    let mut image = solid(10, 1, [9, 9, 9, 0]);
    let used = [
        [255, 0, 0, 255],
        [0, 255, 0, 255],
        [0, 0, 255, 255],
        [255, 255, 0, 255],
        [0, 255, 255, 255],
        [255, 0, 255, 255],
    ];
    for (x, color) in used.iter().enumerate() {
        set(&mut image, x, 0, *color);
    }
    let params = Config::default().into_converter_config();
    let fitter = |list: &RegionList, place: usize| fit(list, place, &params);
    let copy = PixelBuffer::new(10, 1, image.pixels.clone()).unwrap();
    assert!(convert_in_one_go(copy, params, &vec![Color::new(9, 9, 9)], &fitter).is_none());
    let copy = PixelBuffer::new(10, 1, image.pixels.clone()).unwrap();
    assert!(convert_in_steps(copy, params, &vec![Color::new(9, 9, 9)], &fitter, 1000).is_none());
    assert!(convert_in_one_go(image, params, &vec![Color::new(9, 9, 8)], &fitter).is_some());
}

#[test]
fn binary_regions_are_emitted_all_at_once() {
    let mut image = solid(5, 5, [255, 255, 255, 255]);
    set(&mut image, 0, 0, [0, 0, 0, 255]);
    for x in 1..5 {
        set(&mut image, x, 4, [0, 0, 0, 255]);
    }
    let params = Config { filter_speckle: 2, ..Config::from_preset(Preset::Bw) }.into_converter_config();
    let fitter = |list: &RegionList, place: usize| fit(list, place, &params);
    let mut converter = BinaryImageConverter::new(params);
    converter.init(image);
    converter.emit_all(&fitter);
    assert!(converter.is_done());
    assert_eq!(converter.progress(), 100);
    assert_eq!(converter.into_svg().unwrap().paths.len(), 1);
}
