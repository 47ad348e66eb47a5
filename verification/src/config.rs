//! What a caller can set, and the parameters that a conversion works with.

use vstd::prelude::*;
use vstd::string::*;
use crate::text::same_text;

verus! {

/// A named bundle of settings.
#[derive(Debug, Clone, Copy, PartialEq, Eq, Structural)]
pub enum Preset {
    Bw,
    Poster,
    Photo,
}

/// Whether colors are kept or the image is reduced to two levels.
#[derive(Debug, Clone, Copy, PartialEq, Eq, Structural)]
pub enum ColorMode {
    Color,
    Binary,
}

/// How regions of a color image relate: stacked on each other, or cut out of
/// each other. It has no effect on a two-level image.
#[derive(Debug, Clone, Copy, PartialEq, Eq, Structural)]
pub enum Hierarchical {
    Stacked,
    Cutout,
}

/// How the outline of a region is simplified.
#[derive(Debug, Clone, Copy, PartialEq, Eq, Structural)]
pub enum PathSimplifyMode {
    /// The outline follows the pixels.
    Pixel,
    Polygon,
    Spline,
}

/// A segment length, held as the bit pattern of a binary64 number. For
/// numbers that are not negative, a larger number has the larger pattern.
#[derive(Debug, Clone, Copy, PartialEq, Eq, Structural)]
pub struct SegmentLength {
    pub bits: u64,
}

/// The pattern of 3.5, the shortest segment length.
pub const MIN_SEGMENT_LENGTH_BITS: u64 = 0x400C_0000_0000_0000;

/// The pattern of 4.0.
pub const DEFAULT_SEGMENT_LENGTH_BITS: u64 = 0x4010_0000_0000_0000;

/// The pattern of 10.0, the longest segment length.
pub const MAX_SEGMENT_LENGTH_BITS: u64 = 0x4024_0000_0000_0000;

impl SegmentLength {
    /// Between 3.5 and 10.
    pub open spec fn in_range(self) -> bool {
        MIN_SEGMENT_LENGTH_BITS <= self.bits <= MAX_SEGMENT_LENGTH_BITS
    }

    /// The segment length with this bit pattern.
    pub fn from_bits(bits: u64) -> (length: SegmentLength)
        ensures
            length.bits == bits,
    {
        SegmentLength { bits }
    }

    /// The bit pattern of the segment length.
    pub fn to_bits(&self) -> (bits: u64)
        ensures
            bits == self.bits,
    {
        self.bits
    }

    /// Whether the segment length is between 3.5 and 10.
    pub fn is_in_range(&self) -> (ok: bool)
        ensures
            ok == self.in_range(),
    {
        MIN_SEGMENT_LENGTH_BITS <= self.bits && self.bits <= MAX_SEGMENT_LENGTH_BITS
    }
}

/// The settings of a conversion as a caller gives them.
#[derive(Debug, Clone, Copy, PartialEq, Eq, Structural)]
pub struct Config {
    pub color_mode: ColorMode,
    pub hierarchical: Hierarchical,
    /// Regions with fewer pixels than the square of this are left out.
    pub filter_speckle: usize,
    /// Significant bits of a color channel.
    pub color_precision: i32,
    /// Color difference between two layers of a gradient.
    pub layer_difference: i32,
    pub mode: PathSimplifyMode,
    /// In degrees.
    pub corner_threshold: i32,
    pub length_threshold: SegmentLength,
    pub max_iterations: usize,
    /// In degrees.
    pub splice_threshold: i32,
    /// Decimal places of the numbers in a path; `None` for all of them.
    pub path_precision: Option<u32>,
}

/// The parameters that a conversion works with.
#[derive(Debug, Clone, Copy, PartialEq, Eq, Structural)]
pub struct ConverterConfig {
    pub color_mode: ColorMode,
    pub hierarchical: Hierarchical,
    /// Regions with fewer pixels than this are left out.
    pub filter_speckle_area: usize,
    /// Bits of a color channel that are set aside.
    pub color_precision_loss: i32,
    pub layer_difference: i32,
    pub mode: PathSimplifyMode,
    /// In degrees.
    pub corner_threshold: i32,
    pub length_threshold: SegmentLength,
    pub max_iterations: usize,
    /// In degrees.
    pub splice_threshold: i32,
    pub path_precision: Option<u32>,
}

/// The settings when nothing is chosen.
pub open spec fn default_config() -> Config {
    Config {
        color_mode: ColorMode::Color,
        hierarchical: Hierarchical::Stacked,
        filter_speckle: 4,
        color_precision: 6,
        layer_difference: 16,
        mode: PathSimplifyMode::Spline,
        corner_threshold: 60,
        length_threshold: SegmentLength { bits: DEFAULT_SEGMENT_LENGTH_BITS },
        max_iterations: 10,
        splice_threshold: 45,
        path_precision: Some(2u32),
    }
}

/// The settings of a preset.
pub open spec fn preset_config(preset: Preset) -> Config {
    match preset {
        Preset::Bw => Config { color_mode: ColorMode::Binary, ..default_config() },
        Preset::Poster => Config { color_precision: 8, ..default_config() },
        Preset::Photo => Config {
            filter_speckle: 10,
            color_precision: 8,
            layer_difference: 48,
            corner_threshold: 180,
            ..default_config()
        },
    }
}

/// The parameters that follow from a caller's settings.
pub open spec fn derived(config: Config) -> ConverterConfig {
    ConverterConfig {
        color_mode: config.color_mode,
        hierarchical: config.hierarchical,
        filter_speckle_area: (config.filter_speckle * config.filter_speckle) as usize,
        color_precision_loss: (8 - config.color_precision) as i32,
        layer_difference: config.layer_difference,
        mode: config.mode,
        corner_threshold: config.corner_threshold,
        length_threshold: config.length_threshold,
        max_iterations: config.max_iterations,
        splice_threshold: config.splice_threshold,
        path_precision: config.path_precision,
    }
}

impl Config {
    /// Every setting is within its range.
    pub open spec fn valid(self) -> bool {
        &&& self.filter_speckle <= 16
        &&& 1 <= self.color_precision <= 8
        &&& 0 <= self.layer_difference <= 255
        &&& 0 <= self.corner_threshold <= 180
        &&& self.length_threshold.in_range()
        &&& 0 <= self.splice_threshold <= 180
    }

    /// Whether every setting is within its range.
    pub fn is_valid(&self) -> (ok: bool)
        ensures
            ok == self.valid(),
    {
        self.filter_speckle <= 16 && 1 <= self.color_precision && self.color_precision <= 8 && 0
            <= self.layer_difference && self.layer_difference <= 255 && 0
            <= self.corner_threshold && self.corner_threshold <= 180
            && self.length_threshold.is_in_range() && 0 <= self.splice_threshold
            && self.splice_threshold <= 180
    }

    /// The settings of a preset.
    pub fn from_preset(preset: Preset) -> (config: Config)
        ensures
            config == preset_config(preset),
            config.valid(),
    {
        let base = Config::default();
        match preset {
            Preset::Bw => Config { color_mode: ColorMode::Binary, ..base },
            Preset::Poster => Config { color_precision: 8, ..base },
            Preset::Photo => Config {
                filter_speckle: 10,
                color_precision: 8,
                layer_difference: 48,
                corner_threshold: 180,
                ..base
            },
        }
    }

    /// Derives the working parameters: the speckle size becomes an area, the
    /// color precision becomes the number of bits set aside, everything else
    /// is carried over.
    pub fn into_converter_config(self) -> (params: ConverterConfig)
        requires
            self.valid(),
        ensures
            params == derived(self),
            params.filter_speckle_area == self.filter_speckle * self.filter_speckle,
            params.color_precision_loss == 8 - self.color_precision,
            params.valid(),
    {
        assert(self.filter_speckle * self.filter_speckle <= 256) by (nonlinear_arith)
            requires
                self.filter_speckle <= 16,
        ;
        ConverterConfig {
            color_mode: self.color_mode,
            hierarchical: self.hierarchical,
            filter_speckle_area: self.filter_speckle * self.filter_speckle,
            color_precision_loss: 8 - self.color_precision,
            layer_difference: self.layer_difference,
            mode: self.mode,
            corner_threshold: self.corner_threshold,
            length_threshold: self.length_threshold,
            max_iterations: self.max_iterations,
            splice_threshold: self.splice_threshold,
            path_precision: self.path_precision,
        }
    }
}

impl Default for Config {
    fn default() -> (config: Config)
        ensures
            config == default_config(),
            config.valid(),
    {
        Config {
            color_mode: ColorMode::Color,
            hierarchical: Hierarchical::Stacked,
            filter_speckle: 4,
            color_precision: 6,
            layer_difference: 16,
            mode: PathSimplifyMode::Spline,
            corner_threshold: 60,
            length_threshold: SegmentLength { bits: DEFAULT_SEGMENT_LENGTH_BITS },
            max_iterations: 10,
            splice_threshold: 45,
            path_precision: Some(2),
        }
    }
}

impl ConverterConfig {
    /// Every parameter is within the range that valid settings give it.
    pub open spec fn valid(self) -> bool {
        &&& self.filter_speckle_area <= 256
        &&& 0 <= self.color_precision_loss <= 7
        &&& 0 <= self.layer_difference <= 255
        &&& 0 <= self.corner_threshold <= 180
        &&& self.length_threshold.in_range()
        &&& 0 <= self.splice_threshold <= 180
    }

    /// Whether every parameter is within its range.
    pub fn is_valid(&self) -> (ok: bool)
        ensures
            ok == self.valid(),
    {
        self.filter_speckle_area <= 256 && 0 <= self.color_precision_loss
            && self.color_precision_loss <= 7 && 0 <= self.layer_difference
            && self.layer_difference <= 255 && 0 <= self.corner_threshold
            && self.corner_threshold <= 180 && self.length_threshold.is_in_range() && 0
            <= self.splice_threshold && self.splice_threshold <= 180
    }
}

/// The derived parameters are a function of the settings alone: the speckle
/// area is the square of the speckle size, the precision loss is what the
/// color precision leaves of eight bits, and every other parameter is the
/// setting itself.
pub proof fn lemma_derived_parameters(config: Config)
    requires
        config.valid(),
    ensures
        derived(config).filter_speckle_area == config.filter_speckle * config.filter_speckle,
        derived(config).color_precision_loss == 8 - config.color_precision,
        derived(config).color_mode == config.color_mode,
        derived(config).hierarchical == config.hierarchical,
        derived(config).layer_difference == config.layer_difference,
        derived(config).mode == config.mode,
        derived(config).corner_threshold == config.corner_threshold,
        derived(config).length_threshold == config.length_threshold,
        derived(config).max_iterations == config.max_iterations,
        derived(config).splice_threshold == config.splice_threshold,
        derived(config).path_precision == config.path_precision,
        derived(config).valid(),
{
    assert(config.filter_speckle * config.filter_speckle <= 256) by (nonlinear_arith)
        requires
            config.filter_speckle <= 16,
    ;
}

/// What a text names as a color mode.
pub open spec fn color_mode_named(s: Seq<char>) -> Option<ColorMode> {
    if s == "color"@ {
        Some(ColorMode::Color)
    } else if s == "binary"@ {
        Some(ColorMode::Binary)
    } else {
        None
    }
}

/// What a text names as a hierarchical mode.
pub open spec fn hierarchical_named(s: Seq<char>) -> Option<Hierarchical> {
    if s == "stacked"@ {
        Some(Hierarchical::Stacked)
    } else if s == "cutout"@ {
        Some(Hierarchical::Cutout)
    } else {
        None
    }
}

/// What a text names as a preset.
pub open spec fn preset_named(s: Seq<char>) -> Option<Preset> {
    if s == "bw"@ {
        Some(Preset::Bw)
    } else if s == "poster"@ {
        Some(Preset::Poster)
    } else if s == "photo"@ {
        Some(Preset::Photo)
    } else {
        None
    }
}

/// What a text names as a way to simplify paths.
pub open spec fn path_simplify_mode_named(s: Seq<char>) -> Option<PathSimplifyMode> {
    if s == "polygon"@ {
        Some(PathSimplifyMode::Polygon)
    } else if s == "spline"@ {
        Some(PathSimplifyMode::Spline)
    } else if s == "none"@ {
        Some(PathSimplifyMode::Pixel)
    } else {
        None
    }
}

impl ColorMode {
    /// Reads `color` or `binary`; any other text is turned down with a message
    /// that holds it.
    pub fn from_str(s: &str) -> (mode: Result<ColorMode, String>)
        ensures
            match color_mode_named(s@) {
                Some(m) => mode == Ok::<ColorMode, String>(m),
                None => mode matches Err(message) && message@ == "unknown ColorMode "@ + s@,
            },
    {
        if same_text(s, "color") {
            Ok(ColorMode::Color)
        } else if same_text(s, "binary") {
            Ok(ColorMode::Binary)
        } else {
            Err(String::from_str("unknown ColorMode ").concat(s))
        }
    }
}

impl Hierarchical {
    /// Reads `stacked` or `cutout`; any other text is turned down with a
    /// message that holds it.
    pub fn from_str(s: &str) -> (mode: Result<Hierarchical, String>)
        ensures
            match hierarchical_named(s@) {
                Some(m) => mode == Ok::<Hierarchical, String>(m),
                None => mode matches Err(message) && message@ == "unknown Hierarchical "@ + s@,
            },
    {
        if same_text(s, "stacked") {
            Ok(Hierarchical::Stacked)
        } else if same_text(s, "cutout") {
            Ok(Hierarchical::Cutout)
        } else {
            Err(String::from_str("unknown Hierarchical ").concat(s))
        }
    }
}

impl Preset {
    /// Reads `bw`, `poster` or `photo`; any other text is turned down with a
    /// message that holds it.
    pub fn from_str(s: &str) -> (preset: Result<Preset, String>)
        ensures
            match preset_named(s@) {
                Some(p) => preset == Ok::<Preset, String>(p),
                None => preset matches Err(message) && message@ == "unknown Preset "@ + s@,
            },
    {
        if same_text(s, "bw") {
            Ok(Preset::Bw)
        } else if same_text(s, "poster") {
            Ok(Preset::Poster)
        } else if same_text(s, "photo") {
            Ok(Preset::Photo)
        } else {
            Err(String::from_str("unknown Preset ").concat(s))
        }
    }
}

impl std::str::FromStr for ColorMode {
    type Err = String;

    /// Reads `color` or `binary`, as the function of the same name on the
    /// type does; any other text is turned down with a message that holds
    /// it.
    fn from_str(s: &str) -> (mode: Result<Self, Self::Err>)
        ensures
            match color_mode_named(s@) {
                Some(m) => mode == Ok::<ColorMode, String>(m),
                None => mode matches Err(message) && message@ == "unknown ColorMode "@ + s@,
            },
    {
        ColorMode::from_str(s)
    }
}

impl std::str::FromStr for Hierarchical {
    type Err = String;

    /// Reads `stacked` or `cutout`, as the function of the same name on the
    /// type does; any other text is turned down with a message that holds
    /// it.
    fn from_str(s: &str) -> (mode: Result<Self, Self::Err>)
        ensures
            match hierarchical_named(s@) {
                Some(m) => mode == Ok::<Hierarchical, String>(m),
                None => mode matches Err(message) && message@ == "unknown Hierarchical "@ + s@,
            },
    {
        Hierarchical::from_str(s)
    }
}

impl std::str::FromStr for Preset {
    type Err = String;

    /// Reads `bw`, `poster` or `photo`, as the function of the same name on
    /// the type does; any other text is turned down with a message that
    /// holds it.
    fn from_str(s: &str) -> (preset: Result<Self, Self::Err>)
        ensures
            match preset_named(s@) {
                Some(p) => preset == Ok::<Preset, String>(p),
                None => preset matches Err(message) && message@ == "unknown Preset "@ + s@,
            },
    {
        Preset::from_str(s)
    }
}

impl PathSimplifyMode {
    /// Reads `polygon`, `spline` or `none`.
    pub fn from_name(s: &str) -> (mode: Option<PathSimplifyMode>)
        ensures
            mode == path_simplify_mode_named(s@),
    {
        if same_text(s, "polygon") {
            Some(PathSimplifyMode::Polygon)
        } else if same_text(s, "spline") {
            Some(PathSimplifyMode::Spline)
        } else if same_text(s, "none") {
            Some(PathSimplifyMode::Pixel)
        } else {
            None
        }
    }
}

/// The preset that a text names.
pub fn preset(s: &str) -> (preset: Preset)
    requires
        preset_named(s@) is Some,
    ensures
        Some(preset) == preset_named(s@),
{
    if same_text(s, "bw") {
        Preset::Bw
    } else if same_text(s, "poster") {
        Preset::Poster
    } else {
        Preset::Photo
    }
}

/// The way to simplify paths that a text names.
pub fn path_simplify_mode(s: &str) -> (mode: PathSimplifyMode)
    requires
        path_simplify_mode_named(s@) is Some,
    ensures
        Some(mode) == path_simplify_mode_named(s@),
{
    if same_text(s, "polygon") {
        PathSimplifyMode::Polygon
    } else if same_text(s, "spline") {
        PathSimplifyMode::Spline
    } else {
        PathSimplifyMode::Pixel
    }
}

} // verus!
