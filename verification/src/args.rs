//! From the texts of a command line, or the optional values of an embedding
//! call, to a checked set of settings.

use vstd::prelude::*;
use vstd::string::*;
use crate::config::{
    color_mode_named,
    default_config,
    hierarchical_named,
    path_simplify_mode_named,
    preset_config,
    preset_named,
    ColorMode,
    Config,
    Hierarchical,
    PathSimplifyMode,
    Preset,
    SegmentLength,
};
use crate::text::{
    decimal, parse_signed, parse_unsigned, push_decimal, same_text, signed_value, trimmed,
    unsigned_value,
};

verus! {

/// The settings that a caller can give, in the order in which they are read.
#[derive(Debug, Clone, Copy, PartialEq, Eq, Structural)]
pub enum Setting {
    Preset,
    ColorMode,
    Hierarchical,
    Mode,
    FilterSpeckle,
    ColorPrecision,
    GradientStep,
    CornerThreshold,
    SegmentLength,
    SpliceThreshold,
    PathPrecision,
}

/// What is wrong with the text of a setting.
#[derive(Debug, Clone, Copy, PartialEq, Eq, Structural)]
pub enum Fault {
    /// The text is none of the names that the setting knows.
    Unknown,
    /// The text does not write a number of the setting's kind.
    NotNumeric,
    /// The number is outside the setting's range.
    OutOfRange,
}

/// A setting that was turned down, with the text that was given for it.
#[derive(Debug, Clone)]
pub struct ConfigError {
    pub setting: Setting,
    pub fault: Fault,
    pub value: String,
}

/// The text of the segment length and the number it writes, as the caller
/// read it; `None` when the text writes no number.
#[derive(Debug, Clone)]
pub struct LengthArgument {
    pub text: String,
    pub value: Option<SegmentLength>,
}

/// The texts that a command line gave, one for each setting that it named.
#[derive(Debug, Clone)]
pub struct Arguments {
    pub preset: Option<String>,
    pub color_mode: Option<String>,
    pub hierarchical: Option<String>,
    pub mode: Option<String>,
    pub filter_speckle: Option<String>,
    pub color_precision: Option<String>,
    pub gradient_step: Option<String>,
    pub corner_threshold: Option<String>,
    pub segment_length: Option<LengthArgument>,
    pub splice_threshold: Option<String>,
    pub path_precision: Option<String>,
}

/// The place of a setting in the order of reading.
pub open spec fn rank(setting: Setting) -> int {
    match setting {
        Setting::Preset => 0,
        Setting::ColorMode => 1,
        Setting::Hierarchical => 2,
        Setting::Mode => 3,
        Setting::FilterSpeckle => 4,
        Setting::ColorPrecision => 5,
        Setting::GradientStep => 6,
        Setting::CornerThreshold => 7,
        Setting::SegmentLength => 8,
        Setting::SpliceThreshold => 9,
        Setting::PathPrecision => 10,
    }
}

/// The name of a setting in messages.
pub open spec fn setting_name(setting: Setting) -> Seq<char> {
    match setting {
        Setting::Preset => "Preset"@,
        Setting::ColorMode => "ColorMode"@,
        Setting::Hierarchical => "Hierarchical"@,
        Setting::Mode => "PathSimplifyMode"@,
        Setting::FilterSpeckle => "Filter speckle"@,
        Setting::ColorPrecision => "Color precision"@,
        Setting::GradientStep => "Gradient step"@,
        Setting::CornerThreshold => "Corner threshold"@,
        Setting::SegmentLength => "Segment length"@,
        Setting::SpliceThreshold => "Splice threshold"@,
        Setting::PathPrecision => "Path precision"@,
    }
}

/// The range of a setting in messages; empty for a setting without one.
pub open spec fn setting_range(setting: Setting) -> Seq<char> {
    match setting {
        Setting::FilterSpeckle => "[0,16]"@,
        Setting::ColorPrecision => "[1,8]"@,
        Setting::GradientStep => "[0,255]"@,
        Setting::CornerThreshold => "[0,180]"@,
        Setting::SegmentLength => "[3.5,10]"@,
        Setting::SpliceThreshold => "[0,180]"@,
        _ => ""@,
    }
}

/// What a text should have been for a setting that takes a number.
pub open spec fn number_kind(setting: Setting) -> Seq<char> {
    match setting {
        Setting::FilterSpeckle => " is not a positive integer: "@,
        Setting::ColorPrecision => " is not an integer: "@,
        Setting::GradientStep => " is not an integer: "@,
        Setting::PathPrecision => " is not an unsigned integer: "@,
        _ => " is not numeric: "@,
    }
}

/// The message for a setting that was turned down.
pub open spec fn message_text(setting: Setting, fault: Fault, value: Seq<char>) -> Seq<char> {
    match fault {
        Fault::Unknown => if setting == Setting::Mode {
            "Parser Error: Curve fitting mode is invalid: "@ + value
        } else {
            "unknown "@ + setting_name(setting) + " "@ + value
        },
        Fault::NotNumeric => "Parser Error: "@ + setting_name(setting) + number_kind(setting)
            + value + "."@,
        Fault::OutOfRange => "Out of Range Error: "@ + setting_name(setting) + " is invalid at "@
            + value + ". It must be within "@ + setting_range(setting) + "."@,
    }
}

/// The color mode that a command line names: `color`, or `bw` for two levels.
pub open spec fn read_color_mode(text: Seq<char>) -> Result<ColorMode, Fault> {
    let t = trimmed(text);
    if t == "bw"@ || t == "BW"@ {
        Ok(ColorMode::Binary)
    } else if t == "color"@ {
        Ok(ColorMode::Color)
    } else {
        Err(Fault::Unknown)
    }
}

/// The hierarchical mode that a command line names: `stacked` or `cutout`.
pub open spec fn read_hierarchical(text: Seq<char>) -> Result<Hierarchical, Fault> {
    match hierarchical_named(text) {
        Some(h) => Ok(h),
        None => Err(Fault::Unknown),
    }
}

/// The preset that a command line names: `bw`, `poster` or `photo`.
pub open spec fn read_preset(text: Seq<char>) -> Result<Preset, Fault> {
    match preset_named(text) {
        Some(p) => Ok(p),
        None => Err(Fault::Unknown),
    }
}

/// The way to simplify paths that a command line names: `pixel`, `polygon`
/// or `spline`.
pub open spec fn read_mode(text: Seq<char>) -> Result<PathSimplifyMode, Fault> {
    let t = trimmed(text);
    if t == "pixel"@ {
        Ok(PathSimplifyMode::Pixel)
    } else if t == "polygon"@ {
        Ok(PathSimplifyMode::Polygon)
    } else if t == "spline"@ {
        Ok(PathSimplifyMode::Spline)
    } else {
        Err(Fault::Unknown)
    }
}

/// A speckle size: a number without a minus sign, at most 16.
pub open spec fn read_filter_speckle(text: Seq<char>) -> Result<usize, Fault> {
    match unsigned_value(trimmed(text)) {
        Some(v) => if v > usize::MAX {
            Err(Fault::NotNumeric)
        } else if v > 16 {
            Err(Fault::OutOfRange)
        } else {
            Ok(v as usize)
        },
        None => Err(Fault::NotNumeric),
    }
}

/// A number of 32 bits between `low` and `high`.
pub open spec fn read_ranged(text: Seq<char>, low: int, high: int) -> Result<i32, Fault> {
    match signed_value(trimmed(text)) {
        Some(v) => if v < i32::MIN || v > i32::MAX {
            Err(Fault::NotNumeric)
        } else if v < low || v > high {
            Err(Fault::OutOfRange)
        } else {
            Ok(v as i32)
        },
        None => Err(Fault::NotNumeric),
    }
}

/// A count of decimal places: any number of 32 bits without a minus sign.
pub open spec fn read_path_precision(text: Seq<char>) -> Result<u32, Fault> {
    match unsigned_value(trimmed(text)) {
        Some(v) => if v > u32::MAX {
            Err(Fault::NotNumeric)
        } else {
            Ok(v as u32)
        },
        None => Err(Fault::NotNumeric),
    }
}

/// A segment length: a number between 3.5 and 10.
pub open spec fn read_segment_length(value: Option<SegmentLength>) -> Result<
    SegmentLength,
    Fault,
> {
    match value {
        Some(length) => if length.in_range() {
            Ok(length)
        } else {
            Err(Fault::OutOfRange)
        },
        None => Err(Fault::NotNumeric),
    }
}

/// The fault of what is given, if something is given and faulty.
pub open spec fn fault_of<T>(read: Option<Result<T, Fault>>) -> Option<Fault> {
    match read {
        Some(Err(fault)) => Some(fault),
        _ => None,
    }
}

/// What is given if something is given and sound, else `base`.
pub open spec fn value_or<T>(read: Option<Result<T, Fault>>, base: T) -> T {
    match read {
        Some(Ok(value)) => value,
        _ => base,
    }
}

/// The characters of a text that may be absent; none if it is.
pub open spec fn text_of(text: Option<String>) -> Seq<char> {
    match text {
        Some(t) => t@,
        None => Seq::empty(),
    }
}

/// What each setting's text was read as; `None` for a setting that was not
/// given.
#[derive(Debug, Clone, Copy)]
pub struct Reads {
    pub preset: Option<Result<Preset, Fault>>,
    pub color_mode: Option<Result<ColorMode, Fault>>,
    pub hierarchical: Option<Result<Hierarchical, Fault>>,
    pub mode: Option<Result<PathSimplifyMode, Fault>>,
    pub filter_speckle: Option<Result<usize, Fault>>,
    pub color_precision: Option<Result<i32, Fault>>,
    pub gradient_step: Option<Result<i32, Fault>>,
    pub corner_threshold: Option<Result<i32, Fault>>,
    pub segment_length: Option<Result<SegmentLength, Fault>>,
    pub splice_threshold: Option<Result<i32, Fault>>,
    pub path_precision: Option<Result<u32, Fault>>,
}

impl Reads {
    /// What is wrong with a setting; `None` if the setting was not given or
    /// its text is sound.
    pub open spec fn fault(self, setting: Setting) -> Option<Fault> {
        match setting {
            Setting::Preset => fault_of(self.preset),
            Setting::ColorMode => fault_of(self.color_mode),
            Setting::Hierarchical => fault_of(self.hierarchical),
            Setting::Mode => fault_of(self.mode),
            Setting::FilterSpeckle => fault_of(self.filter_speckle),
            Setting::ColorPrecision => fault_of(self.color_precision),
            Setting::GradientStep => fault_of(self.gradient_step),
            Setting::CornerThreshold => fault_of(self.corner_threshold),
            Setting::SegmentLength => fault_of(self.segment_length),
            Setting::SpliceThreshold => fault_of(self.splice_threshold),
            Setting::PathPrecision => fault_of(self.path_precision),
        }
    }

    /// No setting is faulty.
    pub open spec fn sound(self) -> bool {
        forall|setting: Setting| self.fault(setting) is None
    }

    /// The settings to start from: those of the preset, if one is named.
    pub open spec fn base(self) -> Config {
        match self.preset {
            Some(Ok(preset)) => preset_config(preset),
            _ => default_config(),
        }
    }

    /// The settings that sound reads give: each setting that was given has
    /// its value, every other one that of the preset, or the default.
    pub open spec fn resolved(self) -> Config {
        let base = self.base();
        Config {
            color_mode: value_or(self.color_mode, base.color_mode),
            hierarchical: value_or(self.hierarchical, base.hierarchical),
            filter_speckle: value_or(self.filter_speckle, base.filter_speckle),
            color_precision: value_or(self.color_precision, base.color_precision),
            layer_difference: value_or(self.gradient_step, base.layer_difference),
            mode: value_or(self.mode, base.mode),
            corner_threshold: value_or(self.corner_threshold, base.corner_threshold),
            length_threshold: value_or(self.segment_length, base.length_threshold),
            max_iterations: base.max_iterations,
            splice_threshold: value_or(self.splice_threshold, base.splice_threshold),
            path_precision: match self.path_precision {
                Some(Ok(places)) => Some(places),
                _ => base.path_precision,
            },
        }
    }

    /// Every value that was read is within its setting's range.
    pub open spec fn in_range(self) -> bool {
        &&& self.filter_speckle matches Some(Ok(v)) ==> v <= 16
        &&& self.color_precision matches Some(Ok(v)) ==> 1 <= v <= 8
        &&& self.gradient_step matches Some(Ok(v)) ==> 0 <= v <= 255
        &&& self.corner_threshold matches Some(Ok(v)) ==> 0 <= v <= 180
        &&& self.segment_length matches Some(Ok(v)) ==> v.in_range()
        &&& self.splice_threshold matches Some(Ok(v)) ==> 0 <= v <= 180
    }
}

impl Arguments {
    /// The text that was given for a setting; empty if none was.
    pub open spec fn text(self, setting: Setting) -> Seq<char> {
        match setting {
            Setting::Preset => text_of(self.preset),
            Setting::ColorMode => text_of(self.color_mode),
            Setting::Hierarchical => text_of(self.hierarchical),
            Setting::Mode => text_of(self.mode),
            Setting::FilterSpeckle => text_of(self.filter_speckle),
            Setting::ColorPrecision => text_of(self.color_precision),
            Setting::GradientStep => text_of(self.gradient_step),
            Setting::CornerThreshold => text_of(self.corner_threshold),
            Setting::SegmentLength => match self.segment_length {
                Some(length) => length.text@,
                None => Seq::empty(),
            },
            Setting::SpliceThreshold => text_of(self.splice_threshold),
            Setting::PathPrecision => text_of(self.path_precision),
        }
    }

    /// What each text is read as.
    pub open spec fn reads(self) -> Reads {
        Reads {
            preset: match self.preset {
                Some(t) => Some(read_preset(t@)),
                None => None,
            },
            color_mode: match self.color_mode {
                Some(t) => Some(read_color_mode(t@)),
                None => None,
            },
            hierarchical: match self.hierarchical {
                Some(t) => Some(read_hierarchical(t@)),
                None => None,
            },
            mode: match self.mode {
                Some(t) => Some(read_mode(t@)),
                None => None,
            },
            filter_speckle: match self.filter_speckle {
                Some(t) => Some(read_filter_speckle(t@)),
                None => None,
            },
            color_precision: match self.color_precision {
                Some(t) => Some(read_ranged(t@, 1, 8)),
                None => None,
            },
            gradient_step: match self.gradient_step {
                Some(t) => Some(read_ranged(t@, 0, 255)),
                None => None,
            },
            corner_threshold: match self.corner_threshold {
                Some(t) => Some(read_ranged(t@, 0, 180)),
                None => None,
            },
            segment_length: match self.segment_length {
                Some(length) => Some(read_segment_length(length.value)),
                None => None,
            },
            splice_threshold: match self.splice_threshold {
                Some(t) => Some(read_ranged(t@, 0, 180)),
                None => None,
            },
            path_precision: match self.path_precision {
                Some(t) => Some(read_path_precision(t@)),
                None => None,
            },
        }
    }
}

fn setting_name_text(setting: Setting) -> (name: &'static str)
    ensures
        name@ == setting_name(setting),
{
    match setting {
        Setting::Preset => "Preset",
        Setting::ColorMode => "ColorMode",
        Setting::Hierarchical => "Hierarchical",
        Setting::Mode => "PathSimplifyMode",
        Setting::FilterSpeckle => "Filter speckle",
        Setting::ColorPrecision => "Color precision",
        Setting::GradientStep => "Gradient step",
        Setting::CornerThreshold => "Corner threshold",
        Setting::SegmentLength => "Segment length",
        Setting::SpliceThreshold => "Splice threshold",
        Setting::PathPrecision => "Path precision",
    }
}

fn setting_range_text(setting: Setting) -> (range: &'static str)
    ensures
        range@ == setting_range(setting),
{
    match setting {
        Setting::FilterSpeckle => "[0,16]",
        Setting::ColorPrecision => "[1,8]",
        Setting::GradientStep => "[0,255]",
        Setting::CornerThreshold => "[0,180]",
        Setting::SegmentLength => "[3.5,10]",
        Setting::SpliceThreshold => "[0,180]",
        _ => "",
    }
}

fn number_kind_text(setting: Setting) -> (kind: &'static str)
    ensures
        kind@ == number_kind(setting),
{
    match setting {
        Setting::FilterSpeckle => " is not a positive integer: ",
        Setting::ColorPrecision => " is not an integer: ",
        Setting::GradientStep => " is not an integer: ",
        Setting::PathPrecision => " is not an unsigned integer: ",
        _ => " is not numeric: ",
    }
}

impl ConfigError {
    /// What is wrong with which setting, and the text that was given for it.
    pub fn new(setting: Setting, fault: Fault, value: &str) -> (error: ConfigError)
        ensures
            error.setting == setting,
            error.fault == fault,
            error.value@ == value@,
    {
        ConfigError { setting, fault, value: String::from_str(value) }
    }

    /// The message that tells a user what was turned down and why.
    pub fn message(&self) -> (text: String)
        ensures
            text@ == message_text(self.setting, self.fault, self.value@),
    {
        let name = setting_name_text(self.setting);
        let value = self.value.as_str();
        match self.fault {
            Fault::Unknown => match self.setting {
                Setting::Mode => String::from_str(
                    "Parser Error: Curve fitting mode is invalid: ",
                ).concat(value),
                _ => String::from_str("unknown ").concat(name).concat(" ").concat(value),
            },
            Fault::NotNumeric => String::from_str("Parser Error: ").concat(name).concat(
                number_kind_text(self.setting),
            ).concat(value).concat("."),
            Fault::OutOfRange => String::from_str("Out of Range Error: ").concat(name).concat(
                " is invalid at ",
            ).concat(value).concat(". It must be within ").concat(
                setting_range_text(self.setting),
            ).concat("."),
        }
    }
}

fn color_mode_of(text: &str) -> (read: Result<ColorMode, Fault>)
    ensures
        read == read_color_mode(text@),
{
    let chars = crate::text::chars_of(text);
    let (start, end) = crate::text::trim_range(&chars);
    let t = crate::text::text_between(&chars, start, end);
    if same_text(t.as_str(), "bw") || same_text(t.as_str(), "BW") {
        Ok(ColorMode::Binary)
    } else if same_text(t.as_str(), "color") {
        Ok(ColorMode::Color)
    } else {
        Err(Fault::Unknown)
    }
}

fn mode_of(text: &str) -> (read: Result<PathSimplifyMode, Fault>)
    ensures
        read == read_mode(text@),
{
    let chars = crate::text::chars_of(text);
    let (start, end) = crate::text::trim_range(&chars);
    let t = crate::text::text_between(&chars, start, end);
    if same_text(t.as_str(), "pixel") {
        Ok(PathSimplifyMode::Pixel)
    } else if same_text(t.as_str(), "polygon") {
        Ok(PathSimplifyMode::Polygon)
    } else if same_text(t.as_str(), "spline") {
        Ok(PathSimplifyMode::Spline)
    } else {
        Err(Fault::Unknown)
    }
}

fn filter_speckle_of(text: &str) -> (read: Result<usize, Fault>)
    ensures
        read == read_filter_speckle(text@),
{
    match parse_unsigned(text) {
        Some(v) => if v > usize::MAX as u64 {
            Err(Fault::NotNumeric)
        } else if v > 16 {
            Err(Fault::OutOfRange)
        } else {
            Ok(v as usize)
        },
        None => Err(Fault::NotNumeric),
    }
}

fn ranged_of(text: &str, low: i32, high: i32) -> (read: Result<i32, Fault>)
    ensures
        read == read_ranged(text@, low as int, high as int),
{
    match parse_signed(text) {
        Some(v) => if v < i32::MIN as i64 || v > i32::MAX as i64 {
            Err(Fault::NotNumeric)
        } else if v < low as i64 || v > high as i64 {
            Err(Fault::OutOfRange)
        } else {
            Ok(v as i32)
        },
        None => Err(Fault::NotNumeric),
    }
}

fn path_precision_of(text: &str) -> (read: Result<u32, Fault>)
    ensures
        read == read_path_precision(text@),
{
    match parse_unsigned(text) {
        Some(v) => if v > u32::MAX as u64 {
            Err(Fault::NotNumeric)
        } else {
            Ok(v as u32)
        },
        None => Err(Fault::NotNumeric),
    }
}

fn segment_length_of(value: Option<SegmentLength>) -> (read: Result<SegmentLength, Fault>)
    ensures
        read == read_segment_length(value),
{
    match value {
        Some(length) => if length.is_in_range() {
            Ok(length)
        } else {
            Err(Fault::OutOfRange)
        },
        None => Err(Fault::NotNumeric),
    }
}

fn preset_of(text: &str) -> (read: Result<Preset, Fault>)
    ensures
        read == read_preset(text@),
{
    match Preset::from_str(text) {
        Ok(preset) => Ok(preset),
        Err(_) => Err(Fault::Unknown),
    }
}

fn hierarchical_of(text: &str) -> (read: Result<Hierarchical, Fault>)
    ensures
        read == read_hierarchical(text@),
{
    match Hierarchical::from_str(text) {
        Ok(hierarchical) => Ok(hierarchical),
        Err(_) => Err(Fault::Unknown),
    }
}

/// Reads each text that was given.
pub fn read_arguments(args: &Arguments) -> (reads: Reads)
    ensures
        reads == args.reads(),
        reads.in_range(),
{
    Reads {
        preset: match &args.preset {
            Some(t) => Some(preset_of(t.as_str())),
            None => None,
        },
        color_mode: match &args.color_mode {
            Some(t) => Some(color_mode_of(t.as_str())),
            None => None,
        },
        hierarchical: match &args.hierarchical {
            Some(t) => Some(hierarchical_of(t.as_str())),
            None => None,
        },
        mode: match &args.mode {
            Some(t) => Some(mode_of(t.as_str())),
            None => None,
        },
        filter_speckle: match &args.filter_speckle {
            Some(t) => Some(filter_speckle_of(t.as_str())),
            None => None,
        },
        color_precision: match &args.color_precision {
            Some(t) => Some(ranged_of(t.as_str(), 1, 8)),
            None => None,
        },
        gradient_step: match &args.gradient_step {
            Some(t) => Some(ranged_of(t.as_str(), 0, 255)),
            None => None,
        },
        corner_threshold: match &args.corner_threshold {
            Some(t) => Some(ranged_of(t.as_str(), 0, 180)),
            None => None,
        },
        segment_length: match &args.segment_length {
            Some(length) => Some(segment_length_of(length.value)),
            None => None,
        },
        splice_threshold: match &args.splice_threshold {
            Some(t) => Some(ranged_of(t.as_str(), 0, 180)),
            None => None,
        },
        path_precision: match &args.path_precision {
            Some(t) => Some(path_precision_of(t.as_str())),
            None => None,
        },
    }
}

fn fault_in<T>(read: &Option<Result<T, Fault>>) -> (fault: Option<Fault>)
    ensures
        fault == fault_of(*read),
{
    match read {
        Some(Err(fault)) => Some(*fault),
        _ => None,
    }
}

/// The first setting, in the order of reading, that is faulty.
pub fn first_fault(reads: &Reads) -> (found: Option<(Setting, Fault)>)
    ensures
        match found {
            Some((setting, fault)) => reads.fault(setting) == Some(fault) && forall|
                earlier: Setting,
            |
                rank(earlier) < rank(setting) ==> reads.fault(earlier) is None,
            None => reads.sound(),
        },
{
    if let Some(fault) = fault_in(&reads.preset) {
        return Some((Setting::Preset, fault));
    }
    if let Some(fault) = fault_in(&reads.color_mode) {
        return Some((Setting::ColorMode, fault));
    }
    if let Some(fault) = fault_in(&reads.hierarchical) {
        return Some((Setting::Hierarchical, fault));
    }
    if let Some(fault) = fault_in(&reads.mode) {
        return Some((Setting::Mode, fault));
    }
    if let Some(fault) = fault_in(&reads.filter_speckle) {
        return Some((Setting::FilterSpeckle, fault));
    }
    if let Some(fault) = fault_in(&reads.color_precision) {
        return Some((Setting::ColorPrecision, fault));
    }
    if let Some(fault) = fault_in(&reads.gradient_step) {
        return Some((Setting::GradientStep, fault));
    }
    if let Some(fault) = fault_in(&reads.corner_threshold) {
        return Some((Setting::CornerThreshold, fault));
    }
    if let Some(fault) = fault_in(&reads.segment_length) {
        return Some((Setting::SegmentLength, fault));
    }
    if let Some(fault) = fault_in(&reads.splice_threshold) {
        return Some((Setting::SpliceThreshold, fault));
    }
    if let Some(fault) = fault_in(&reads.path_precision) {
        return Some((Setting::PathPrecision, fault));
    }
    None
}

fn pick<T: Copy>(read: &Option<Result<T, Fault>>, base: T) -> (value: T)
    ensures
        value == value_or(*read, base),
{
    match read {
        Some(Ok(value)) => *value,
        _ => base,
    }
}

/// Puts the values that were read over the preset's settings, or the
/// default ones.
pub fn resolve(reads: &Reads) -> (config: Config)
    requires
        reads.in_range(),
    ensures
        config == reads.resolved(),
        config.valid(),
{
    let base = match reads.preset {
        Some(Ok(preset)) => Config::from_preset(preset),
        _ => Config::default(),
    };
    Config {
        color_mode: pick(&reads.color_mode, base.color_mode),
        hierarchical: pick(&reads.hierarchical, base.hierarchical),
        filter_speckle: pick(&reads.filter_speckle, base.filter_speckle),
        color_precision: pick(&reads.color_precision, base.color_precision),
        layer_difference: pick(&reads.gradient_step, base.layer_difference),
        mode: pick(&reads.mode, base.mode),
        corner_threshold: pick(&reads.corner_threshold, base.corner_threshold),
        length_threshold: pick(&reads.segment_length, base.length_threshold),
        max_iterations: base.max_iterations,
        splice_threshold: pick(&reads.splice_threshold, base.splice_threshold),
        path_precision: match reads.path_precision {
            Some(Ok(places)) => Some(places),
            _ => base.path_precision,
        },
    }
}

fn text_or_empty(text: &Option<String>) -> (copy: String)
    ensures
        copy@ == text_of(*text),
{
    match text {
        Some(t) => String::from_str(t.as_str()),
        None => String::new(),
    }
}

/// The text that was given for a setting.
pub fn text_given(args: &Arguments, setting: Setting) -> (text: String)
    ensures
        text@ == args.text(setting),
{
    match setting {
        Setting::Preset => text_or_empty(&args.preset),
        Setting::ColorMode => text_or_empty(&args.color_mode),
        Setting::Hierarchical => text_or_empty(&args.hierarchical),
        Setting::Mode => text_or_empty(&args.mode),
        Setting::FilterSpeckle => text_or_empty(&args.filter_speckle),
        Setting::ColorPrecision => text_or_empty(&args.color_precision),
        Setting::GradientStep => text_or_empty(&args.gradient_step),
        Setting::CornerThreshold => text_or_empty(&args.corner_threshold),
        Setting::SegmentLength => match &args.segment_length {
            Some(length) => String::from_str(length.text.as_str()),
            None => String::new(),
        },
        Setting::SpliceThreshold => text_or_empty(&args.splice_threshold),
        Setting::PathPrecision => text_or_empty(&args.path_precision),
    }
}

/// Reads the settings of a command line. A preset, if named, gives the
/// settings to start from; each other setting that is given replaces one of
/// them. The first setting, in the order of reading, whose text is faulty is
/// turned down, and then no settings are returned.
pub fn config_from_arguments(args: &Arguments) -> (config: Result<Config, ConfigError>)
    ensures
        match config {
            Ok(c) => args.reads().sound() && c == args.reads().resolved() && c.valid(),
            Err(e) => args.reads().fault(e.setting) == Some(e.fault) && e.value@ == args.text(
                e.setting,
            ) && forall|earlier: Setting|
                rank(earlier) < rank(e.setting) ==> args.reads().fault(earlier) is None,
        },
{
    let reads = read_arguments(args);
    match first_fault(&reads) {
        Some((setting, fault)) => Err(
            ConfigError { setting, fault, value: text_given(args, setting) },
        ),
        None => Ok(resolve(&reads)),
    }
}

/// A number in decimal digits, with a minus sign if it is negative.
pub open spec fn signed_decimal(v: int) -> Seq<char> {
    if v < 0 {
        "-"@ + decimal((-v) as nat)
    } else {
        decimal(v as nat)
    }
}

/// The text of a number, for a message.
pub fn number_text(v: i64) -> (text: String)
    ensures
        text@ == signed_decimal(v as int),
{
    let mut text = String::new();
    if v < 0 {
        text.append("-");
        let magnitude: u128 = (0 - (v as i128)) as u128;
        push_decimal(&mut text, magnitude);
    } else {
        push_decimal(&mut text, v as u128);
    }
    assert(text@ =~= signed_decimal(v as int));
    text
}

/// The optional values of an embedding call.
#[derive(Debug, Clone)]
pub struct Options {
    /// `color` or `binary`.
    pub colormode: Option<String>,
    /// `stacked` or `cutout`.
    pub hierarchical: Option<String>,
    /// `spline`, `polygon` or `none`.
    pub mode: Option<String>,
    pub filter_speckle: Option<usize>,
    pub color_precision: Option<i32>,
    pub layer_difference: Option<i32>,
    pub corner_threshold: Option<i32>,
    pub length_threshold: Option<LengthArgument>,
    pub max_iterations: Option<usize>,
    pub splice_threshold: Option<i32>,
    pub path_precision: Option<u32>,
}

impl Options {
    /// The first value, in the order of reading, that is turned down, with
    /// what is wrong with it and its text: a name that is not known, or a
    /// number outside its range. `None` if every value is sound.
    pub open spec fn fault(self) -> Option<(Setting, Fault, Seq<char>)> {
        if self.colormode is Some && color_mode_named(self.colormode->Some_0@) is None {
            Some((Setting::ColorMode, Fault::Unknown, self.colormode->Some_0@))
        } else if self.hierarchical is Some && hierarchical_named(self.hierarchical->Some_0@)
            is None {
            Some((Setting::Hierarchical, Fault::Unknown, self.hierarchical->Some_0@))
        } else if self.mode is Some && path_simplify_mode_named(self.mode->Some_0@) is None {
            Some((Setting::Mode, Fault::Unknown, self.mode->Some_0@))
        } else if self.filter_speckle is Some && self.filter_speckle->Some_0 > 16 {
            Some(
                (
                    Setting::FilterSpeckle,
                    Fault::OutOfRange,
                    signed_decimal(self.filter_speckle->Some_0 as int),
                ),
            )
        } else if self.color_precision is Some && !(1 <= self.color_precision->Some_0 <= 8) {
            Some(
                (
                    Setting::ColorPrecision,
                    Fault::OutOfRange,
                    signed_decimal(self.color_precision->Some_0 as int),
                ),
            )
        } else if self.layer_difference is Some && !(0 <= self.layer_difference->Some_0 <= 255) {
            Some(
                (
                    Setting::GradientStep,
                    Fault::OutOfRange,
                    signed_decimal(self.layer_difference->Some_0 as int),
                ),
            )
        } else if self.corner_threshold is Some && !(0 <= self.corner_threshold->Some_0 <= 180) {
            Some(
                (
                    Setting::CornerThreshold,
                    Fault::OutOfRange,
                    signed_decimal(self.corner_threshold->Some_0 as int),
                ),
            )
        } else if self.length_threshold is Some && read_segment_length(
            self.length_threshold->Some_0.value,
        ) is Err {
            Some(
                (
                    Setting::SegmentLength,
                    read_segment_length(self.length_threshold->Some_0.value)->Err_0,
                    self.length_threshold->Some_0.text@,
                ),
            )
        } else if self.splice_threshold is Some && !(0 <= self.splice_threshold->Some_0 <= 180) {
            Some(
                (
                    Setting::SpliceThreshold,
                    Fault::OutOfRange,
                    signed_decimal(self.splice_threshold->Some_0 as int),
                ),
            )
        } else {
            None
        }
    }

    /// The settings that sound values give: each value that is given, and
    /// the default for each that is absent. The count of decimal places is
    /// taken as it is given, absent or not.
    pub open spec fn settings(self) -> Config {
        let base = default_config();
        Config {
            color_mode: match self.colormode {
                Some(name) => color_mode_named(name@)->Some_0,
                None => base.color_mode,
            },
            hierarchical: match self.hierarchical {
                Some(name) => hierarchical_named(name@)->Some_0,
                None => base.hierarchical,
            },
            mode: match self.mode {
                Some(name) => path_simplify_mode_named(name@)->Some_0,
                None => base.mode,
            },
            filter_speckle: self.filter_speckle.unwrap_or(base.filter_speckle),
            color_precision: self.color_precision.unwrap_or(base.color_precision),
            layer_difference: self.layer_difference.unwrap_or(base.layer_difference),
            corner_threshold: self.corner_threshold.unwrap_or(base.corner_threshold),
            length_threshold: match self.length_threshold {
                Some(length) => length.value->Some_0,
                None => base.length_threshold,
            },
            max_iterations: self.max_iterations.unwrap_or(base.max_iterations),
            splice_threshold: self.splice_threshold.unwrap_or(base.splice_threshold),
            path_precision: self.path_precision,
        }
    }
}

fn out_of_range(setting: Setting, v: i64) -> (error: ConfigError)
    ensures
        error.setting == setting,
        error.fault == Fault::OutOfRange,
        error.value@ == signed_decimal(v as int),
{
    ConfigError { setting, fault: Fault::OutOfRange, value: number_text(v) }
}

/// Builds settings from the optional values of an embedding call. A name
/// that is not known and a number outside its range are turned down, the
/// first of them in the order of reading; otherwise each value that is
/// given is taken, and the default for each that is absent.
pub fn construct_config(options: &Options) -> (config: Result<Config, ConfigError>)
    ensures
        match options.fault() {
            Some((setting, fault, value)) => config matches Err(e) && e.setting == setting
                && e.fault == fault && e.value@ == value,
            None => config == Ok::<Config, ConfigError>(options.settings()) && options.settings(
            ).valid(),
        },
{
    let base = Config::default();
    let color_mode = match &options.colormode {
        Some(name) => match ColorMode::from_str(name.as_str()) {
            Ok(mode) => mode,
            Err(_) => {
                return Err(ConfigError::new(Setting::ColorMode, Fault::Unknown, name.as_str()));
            },
        },
        None => base.color_mode,
    };
    let hierarchical = match &options.hierarchical {
        Some(name) => match Hierarchical::from_str(name.as_str()) {
            Ok(hierarchical) => hierarchical,
            Err(_) => {
                return Err(
                    ConfigError::new(Setting::Hierarchical, Fault::Unknown, name.as_str()),
                );
            },
        },
        None => base.hierarchical,
    };
    let mode = match &options.mode {
        Some(name) => match PathSimplifyMode::from_name(name.as_str()) {
            Some(mode) => mode,
            None => {
                return Err(ConfigError::new(Setting::Mode, Fault::Unknown, name.as_str()));
            },
        },
        None => base.mode,
    };
    let filter_speckle = options.filter_speckle.unwrap_or(base.filter_speckle);
    if filter_speckle > 16 {
        return Err(
            ConfigError {
                setting: Setting::FilterSpeckle,
                fault: Fault::OutOfRange,
                value: crate::text::decimal_string(filter_speckle as u128),
            },
        );
    }
    let color_precision = options.color_precision.unwrap_or(base.color_precision);
    if color_precision < 1 || color_precision > 8 {
        return Err(out_of_range(Setting::ColorPrecision, color_precision as i64));
    }
    let layer_difference = options.layer_difference.unwrap_or(base.layer_difference);
    if layer_difference < 0 || layer_difference > 255 {
        return Err(out_of_range(Setting::GradientStep, layer_difference as i64));
    }
    let corner_threshold = options.corner_threshold.unwrap_or(base.corner_threshold);
    if corner_threshold < 0 || corner_threshold > 180 {
        return Err(out_of_range(Setting::CornerThreshold, corner_threshold as i64));
    }
    let length_threshold = match &options.length_threshold {
        Some(length) => match segment_length_of(length.value) {
            Ok(value) => value,
            Err(fault) => {
                return Err(ConfigError::new(Setting::SegmentLength, fault, length.text.as_str()));
            },
        },
        None => base.length_threshold,
    };
    let splice_threshold = options.splice_threshold.unwrap_or(base.splice_threshold);
    if splice_threshold < 0 || splice_threshold > 180 {
        return Err(out_of_range(Setting::SpliceThreshold, splice_threshold as i64));
    }
    Ok(
        Config {
            color_mode,
            hierarchical,
            filter_speckle,
            color_precision,
            layer_difference,
            mode,
            corner_threshold,
            length_threshold,
            max_iterations: options.max_iterations.unwrap_or(base.max_iterations),
            splice_threshold,
            path_precision: options.path_precision,
        },
    )
}

/// The first setting, in the order of reading, whose value is outside its
/// range; `None` for valid settings.
pub fn first_out_of_range(config: &Config) -> (found: Option<Setting>)
    ensures
        found is None <==> config.valid(),
        found == if config.filter_speckle > 16 {
            Some(Setting::FilterSpeckle)
        } else if !(1 <= config.color_precision <= 8) {
            Some(Setting::ColorPrecision)
        } else if !(0 <= config.layer_difference <= 255) {
            Some(Setting::GradientStep)
        } else if !(0 <= config.corner_threshold <= 180) {
            Some(Setting::CornerThreshold)
        } else if !config.length_threshold.in_range() {
            Some(Setting::SegmentLength)
        } else if !(0 <= config.splice_threshold <= 180) {
            Some(Setting::SpliceThreshold)
        } else {
            None
        },
{
    if config.filter_speckle > 16 {
        Some(Setting::FilterSpeckle)
    } else if config.color_precision < 1 || config.color_precision > 8 {
        Some(Setting::ColorPrecision)
    } else if config.layer_difference < 0 || config.layer_difference > 255 {
        Some(Setting::GradientStep)
    } else if config.corner_threshold < 0 || config.corner_threshold > 180 {
        Some(Setting::CornerThreshold)
    } else if !config.length_threshold.is_in_range() {
        Some(Setting::SegmentLength)
    } else if config.splice_threshold < 0 || config.splice_threshold > 180 {
        Some(Setting::SpliceThreshold)
    } else {
        None
    }
}

} // verus!
