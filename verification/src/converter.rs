//! The staged conversion: keying, one or two segmentation passes, and the
//! emission of paths, taken one bounded step at a time.

use vstd::prelude::*;
use vstd::string::*;
use crate::buffer::PixelBuffer;
use crate::color::Color;
use crate::config::{ColorMode, Config, ConverterConfig, Hierarchical};
use crate::emission::{batch, black, planned_places, wanted, Emission, RegionList};
use crate::keying::{
    apply_key,
    find_unused_color_among,
    first_unused,
    is_black,
    keyed,
    no_unused_color_message,
    should_key,
    should_key_image,
    special_colors,
    NUM_UNUSED_COLOR_ITERATIONS,
};
use crate::random::random_colors;
use crate::segmentation::{
    binary_regions,
    can_report,
    finish_segmentation,
    first_pass,
    first_pass_tuning,
    handle,
    merged_image,
    new_runner,
    progress_defined,
    repainted,
    second_pass,
    second_pass_tuning,
    segmentation_progress,
    segmented,
    run_segmentation,
    start_segmentation,
    threshold_clusters,
    tick_segmentation,
    Handle,
    Region,
    MAX_PIXELS,
    MAX_SEEDS,
};
use crate::svg::SvgFile;

verus! {

/// Where a conversion stands, with what that stage works on.
pub enum Stage {
    Uninitialized,
    Segmenting(visioncortex::color_clusters::IncrementalBuilder),
    Resegmenting(visioncortex::color_clusters::IncrementalBuilder),
    Emitting(Emission),
}

/// Where a conversion stands.
#[derive(Debug, Clone, Copy, PartialEq, Eq, Structural)]
pub enum Phase {
    Uninitialized,
    Segmenting,
    Resegmenting,
    Emitting,
}

impl Stage {
    /// The stage without what it works on.
    pub open spec fn phase(self) -> Phase {
        match self {
            Stage::Uninitialized => Phase::Uninitialized,
            Stage::Segmenting(_) => Phase::Segmenting,
            Stage::Resegmenting(_) => Phase::Resegmenting,
            Stage::Emitting(_) => Phase::Emitting,
        }
    }
}

/// The key color as the engine is handed it. The engine compares all four
/// channels, and a keyed pixel has alpha 0. A black key is all zeros as the
/// engine is handed it, and all zeros stand for no key: the engine then
/// keys nothing, and the transparent pixels form a region like any other.
pub open spec fn engine_key(key: Color) -> Color {
    Color { r: key.r, g: key.g, b: key.b, a: 0 }
}

/// The key color for an image and a list of candidates: the first
/// candidate that the image does not use, where the image is keyed; all
/// zeros where it is not.
pub open spec fn chosen_key(image: PixelBuffer, candidates: Seq<Color>) -> Option<Color> {
    if should_key(image) {
        match first_unused(image.pixels@, candidates) {
            Some(key) => Some(engine_key(key)),
            None => None,
        }
    } else {
        Some(Color { r: 0, g: 0, b: 0, a: 0 })
    }
}

/// The pixels that the first pass works on.
pub open spec fn prepared(image: PixelBuffer, candidates: Seq<Color>) -> Seq<u8> {
    if should_key(image) {
        match first_unused(image.pixels@, candidates) {
            Some(key) => keyed(image.pixels@, key),
            None => image.pixels@,
        }
    } else {
        image.pixels@
    }
}

/// The regions that the conversion of a color image emits: those that a
/// whole pass finds in the image as it is prepared; in cutout mode, those
/// that a whole second pass finds in the image that the first pass's
/// regions paint.
pub open spec fn planned_regions(image: PixelBuffer, candidates: Seq<Color>, params: ConverterConfig)
    -> Seq<Region> {
    let key = match chosen_key(image, candidates) {
        Some(key) => key,
        None => Color { r: 0, g: 0, b: 0, a: 0 },
    };
    let pixels = prepared(image, candidates);
    let first = first_pass(params, image.width, image.height, key);
    match params.hierarchical {
        Hierarchical::Stacked => segmented(pixels, image.width, image.height, first),
        Hierarchical::Cutout => segmented(
            repainted(pixels, image.width, image.height, first),
            image.width,
            image.height,
            second_pass(image.width, image.height, key),
        ),
    }
}

/// The regions that the conversion of a two-level image emits: those of
/// the image's foreground, where pixels that touch at a corner only are no
/// neighbours, all of them black.
pub open spec fn binary_region_list(pixels: Seq<u8>, width: usize, height: usize) -> Seq<Region> {
    Seq::new(
        binary_regions(pixels, width, height, false).len(),
        |i: int| Region { area: binary_regions(pixels, width, height, false)[i] as usize, color: black() },
    )
}

/// Progress in percent: nothing before the start; half of the first pass's
/// own progress while it runs; 50 during a second pass; then 50 and half of
/// the share of regions walked, or 100 at once where there is no region.
pub open spec fn color_progress(phase: Phase, first_pass: int, cursor: int, count: int) -> int {
    match phase {
        Phase::Uninitialized => 0,
        Phase::Segmenting => first_pass / 2,
        Phase::Resegmenting => 50,
        Phase::Emitting => if count == 0 {
            100
        } else {
            50 + 50 * cursor / count
        },
    }
}

/// Progress of the conversion of a two-level image: the share of regions
/// walked, or 100 at once where there is no region.
pub open spec fn binary_progress(cursor: int, count: int) -> int {
    if count == 0 {
        100
    } else {
        100 * cursor / count
    }
}

proof fn lemma_share_monotonic(scale: int, a: int, b: int, count: int)
    requires
        0 <= scale,
        0 <= a <= b <= count,
        0 < count,
    ensures
        0 <= scale * a / count <= scale * b / count <= scale,
        scale * count / count == scale,
{
    assert(scale * a <= scale * b <= scale * count) by (nonlinear_arith)
        requires
            0 <= scale,
            0 <= a <= b <= count,
    ;
    assert(0 <= scale * a) by (nonlinear_arith)
        requires
            0 <= scale,
            0 <= a,
    ;
    vstd::arithmetic::div_mod::lemma_div_is_ordered(scale * a, scale * b, count);
    vstd::arithmetic::div_mod::lemma_div_is_ordered(scale * b, scale * count, count);
    vstd::arithmetic::div_mod::lemma_div_by_multiple(scale, count);
    vstd::arithmetic::div_mod::lemma_div_pos_is_pos(scale * a, count);
}

/// Progress never falls: not within the first pass, whose own progress does
/// not fall, not from one stage to the next, and not while regions are
/// walked. It stays between 0 and 100, and it is 100 when every region has
/// been walked, also where there is no region.
pub proof fn lemma_progress_never_falls(
    first: int,
    later: int,
    cursor: int,
    next: int,
    count: int,
)
    requires
        0 <= first <= later <= 100,
        0 <= cursor <= next <= count,
    ensures
        0 == color_progress(Phase::Uninitialized, first, cursor, count) <= color_progress(
            Phase::Segmenting,
            first,
            cursor,
            count,
        ) <= color_progress(Phase::Segmenting, later, cursor, count) <= color_progress(
            Phase::Resegmenting,
            later,
            cursor,
            count,
        ) == 50 <= color_progress(Phase::Emitting, later, cursor, count) <= color_progress(
            Phase::Emitting,
            later,
            next,
            count,
        ) <= color_progress(Phase::Emitting, later, count, count) == 100,
        0 <= binary_progress(cursor, count) <= binary_progress(next, count) <= binary_progress(
            count,
            count,
        ) == 100,
{
    if count > 0 {
        lemma_share_monotonic(50, cursor, next, count);
        lemma_share_monotonic(50, next, count, count);
        lemma_share_monotonic(100, cursor, next, count);
        lemma_share_monotonic(100, next, count, count);
    }
}

/// The share `scale * cursor / count` of a walk, computed without overflow.
fn share(scale: u32, cursor: usize, count: usize) -> (percent: u32)
    requires
        scale <= 100,
        cursor <= count,
        0 < count,
    ensures
        percent == scale * cursor / (count as int),
        percent <= scale,
{
    proof {
        lemma_share_monotonic(scale as int, cursor as int, count as int, count as int);
        assert(scale * cursor <= 100 * count) by (nonlinear_arith)
            requires
                scale <= 100,
                cursor <= count,
        ;
    }
    let product: u128 = (scale as u128) * (cursor as u128);
    (product / (count as u128)) as u32
}

/// Keys an image where its transparent pixels call for it, with `random` as
/// the key colors to try after the six saturated ones. Returns the image
/// that the first pass works on and the key color that the engine is
/// handed. The image is turned down if it is to be keyed and uses every
/// candidate.
pub fn key_image(image: PixelBuffer, random: &Vec<Color>) -> (keyed: Result<
    (PixelBuffer, Color),
    String,
>)
    requires
        image.wf(),
    ensures
        match chosen_key(image, special_colors() + random@) {
            Some(key) => keyed matches Ok((painted, chosen)) && chosen == key && painted.pixels@
                == prepared(image, special_colors() + random@) && painted.width == image.width
                && painted.height == image.height && painted.wf(),
            None => keyed matches Err(message) && message@ == no_unused_color_message(),
        },
        keyed matches Ok((_, chosen)) ==> (chosen.is_zero() <==> !should_key(image) || is_black(
            first_unused(image.pixels@, special_colors() + random@)->Some_0,
        )),
{
    let mut image = image;
    if should_key_image(&image) {
        match find_unused_color_among(&image, random) {
            Ok(key) => {
                apply_key(&mut image, key);
                Ok((image, Color { r: key.r, g: key.g, b: key.b, a: 0 }))
            },
            Err(message) => Err(message),
        }
    } else {
        Ok((image, Color::default()))
    }
}

/// Where the six saturated colors give a key, or the image is not keyed, the
/// colors drawn change nothing: the key and the prepared image are those
/// for no drawn color, and the key is all zeros exactly if the image is
/// not keyed. Whatever is drawn, a key that is not all zeros is that of a
/// keyed image.
pub proof fn lemma_draws_beyond_need(image: PixelBuffer, random: Seq<Color>)
    ensures
        chosen_key(image, special_colors()) is Some ==> chosen_key(
            image,
            special_colors() + random,
        ) == chosen_key(image, special_colors()) && prepared(image, special_colors() + random)
            == prepared(image, special_colors()),
        special_colors() + Seq::<Color>::empty() == special_colors(),
        chosen_key(image, special_colors() + random) is None ==> should_key(image) && first_unused(
            image.pixels@,
            special_colors(),
        ) is None,
        chosen_key(image, special_colors()) matches Some(key) ==> (should_key(image)
            == !key.is_zero()),
        chosen_key(image, special_colors() + random) matches Some(key) ==> (!key.is_zero()
            ==> should_key(image)),
{
    crate::keying::lemma_first_unused_concat(image.pixels@, special_colors(), random);
    crate::keying::lemma_first_unused_sound(image.pixels@, special_colors() + random);
    crate::keying::lemma_first_unused_sound(image.pixels@, special_colors());
    assert(special_colors() + Seq::<Color>::empty() =~= special_colors());
}

/// The conversion of a color image, one step at a time.
pub struct ColorImageConverter {
    params: ConverterConfig,
    stage: Stage,
    key_color: Color,
    width: usize,
    height: usize,
    reports: bool,
    first_pass: u32,
    said: u32,
}

impl ColorImageConverter {
    /// The parameters that the conversion works with.
    pub closed spec fn params(&self) -> ConverterConfig {
        self.params
    }

    /// Where the conversion stands, with what that stage works on.
    pub closed spec fn stage(&self) -> Stage {
        self.stage
    }

    /// Where the conversion stands.
    pub open spec fn phase(&self) -> Phase {
        self.stage().phase()
    }

    /// The key color that the engine is handed; all zeros for none.
    pub closed spec fn key_color(&self) -> Color {
        self.key_color
    }

    /// Width and height of the image, once the conversion has started.
    pub closed spec fn size(&self) -> (usize, usize) {
        (self.width, self.height)
    }

    /// The furthest that the first pass has said it is, in percent.
    pub closed spec fn first_pass(&self) -> int {
        self.first_pass as int
    }

    /// What the first pass said when it was last asked how far it is, in
    /// percent; 0 if it cannot say.
    pub closed spec fn said(&self) -> int {
        self.said as int
    }

    /// What the running pass holds; meaningful while a pass runs.
    pub open spec fn segmentation(&self) -> Handle {
        match self.stage() {
            Stage::Segmenting(builder) => handle(builder),
            Stage::Resegmenting(builder) => handle(builder),
            _ => arbitrary(),
        }
    }

    /// The emission; meaningful once paths are emitted.
    pub open spec fn emission(&self) -> Emission {
        match self.stage() {
            Stage::Emitting(emission) => emission,
            _ => arbitrary(),
        }
    }

    /// The parameters are valid, and the stage is consistent with them.
    pub closed spec fn wf(&self) -> bool {
        &&& self.params.valid()
        &&& self.said <= self.first_pass <= 100
        &&& self.width <= u32::MAX
        &&& self.height <= u32::MAX
        &&& self.width * self.height <= MAX_PIXELS
        &&& match self.stage {
            Stage::Uninitialized => true,
            Stage::Segmenting(builder) => {
                &&& handle(builder).sound()
                &&& handle(builder).width == self.width
                &&& handle(builder).height == self.height
                &&& self.reports == progress_defined(
                    handle(builder).pixels,
                    handle(builder).tuning,
                )
                &&& self.reports ==> self.said == handle(builder).percent
                &&& !self.reports ==> self.first_pass == 0
            },
            Stage::Resegmenting(builder) => {
                &&& handle(builder).sound()
                &&& handle(builder).width == self.width
                &&& handle(builder).height == self.height
            },
            Stage::Emitting(emission) => {
                &&& emission.wf()
                &&& emission.min_area() == self.params.filter_speckle_area
                &&& emission.output().width == self.width
                &&& emission.output().height == self.height
                &&& emission.output().path_precision == self.params.path_precision
            },
        }
    }

    /// The regions that the conversion emits, as they follow from the stage
    /// that it is in: while the first pass runs, those that a whole pass
    /// finds in its image, or, in cutout mode, those that a whole second
    /// pass finds in the image that the first pass's regions paint; while
    /// the second pass runs, those that a whole pass finds in its image;
    /// then the regions that are emitted.
    pub open spec fn goal(&self) -> Seq<Region> {
        match self.stage() {
            Stage::Uninitialized => Seq::empty(),
            Stage::Segmenting(builder) => {
                let h = handle(builder);
                match self.params().hierarchical {
                    Hierarchical::Stacked => segmented(h.pixels, h.width, h.height, h.tuning),
                    Hierarchical::Cutout => segmented(
                        repainted(h.pixels, h.width, h.height, h.tuning),
                        h.width,
                        h.height,
                        second_pass(h.width, h.height, self.key_color()),
                    ),
                }
            },
            Stage::Resegmenting(builder) => {
                let h = handle(builder);
                segmented(h.pixels, h.width, h.height, h.tuning)
            },
            Stage::Emitting(emission) => emission.regions(),
        }
    }

    /// What a start in steps makes of the conversion `before`, for an image
    /// and the colors drawn: the first pass is at its start on the prepared
    /// image with the first pass's tuning; or, where no key is found,
    /// nothing has changed.
    pub open spec fn starts(
        &self,
        before: ColorImageConverter,
        image: PixelBuffer,
        random: Seq<Color>,
        started: Result<(), String>,
    ) -> bool {
        match chosen_key(image, special_colors() + random) {
            Some(key) => {
                &&& started is Ok
                &&& self.params() == before.params()
                &&& self.said() == self.first_pass()
                &&& self.first_pass() == if progress_defined(
                    self.segmentation().pixels,
                    self.segmentation().tuning,
                ) {
                    self.segmentation().percent as int
                } else {
                    0
                }
                &&& self.phase() == Phase::Segmenting
                &&& self.key_color() == key
                &&& self.size() == (image.width, image.height)
                &&& self.segmentation().sound()
                &&& self.segmentation().pixels == prepared(image, special_colors() + random)
                &&& self.segmentation().width == image.width
                &&& self.segmentation().height == image.height
                &&& self.segmentation().tuning == first_pass(
                    before.params(),
                    image.width,
                    image.height,
                    key,
                )
                &&& self.segmentation().stage == 1
                &&& self.segmentation().iteration == 0
                &&& self.goal() == planned_regions(
                    image,
                    special_colors() + random,
                    before.params(),
                )
            },
            None => {
                &&& started matches Err(message) && message@ == no_unused_color_message()
                &&& *self == before
            },
        }
    }

    /// What a conversion in one go makes of the conversion `before`, for an
    /// image and the colors drawn: the emission begins on the planned
    /// regions; or, where no key is found, nothing has changed.
    pub open spec fn segments(
        &self,
        before: ColorImageConverter,
        image: PixelBuffer,
        random: Seq<Color>,
        started: Result<(), String>,
    ) -> bool {
        match chosen_key(image, special_colors() + random) {
            Some(key) => {
                &&& started is Ok
                &&& self.params() == before.params()
                &&& self.begins_emission()
                &&& self.key_color() == key
                &&& self.size() == (image.width, image.height)
                &&& self.first_pass() == before.first_pass()
                &&& self.emission().regions() == planned_regions(
                    image,
                    special_colors() + random,
                    before.params(),
                )
            },
            None => {
                &&& started matches Err(message) && message@ == no_unused_color_message()
                &&& *self == before
            },
        }
    }

    /// What a tick makes of the conversion `before` while a pass runs. Where
    /// the pass was at its end, the regions that a whole pass finds are
    /// emitted, or, after the first pass in cutout mode, the second pass is
    /// at its start on the image that those regions paint. Where it was
    /// not, the pass has moved on, on the same image with the same tuning.
    /// The first pass's progress is what it was, or what the engine says
    /// after the tick if that is further.
    pub open spec fn pass_ticked(&self, before: ColorImageConverter) -> bool {
        let h = before.segmentation();
        &&& before.phase() == Phase::Segmenting && !h.done() && progress_defined(
            h.pixels,
            h.tuning,
        ) ==> self.said() == self.segmentation().percent
        &&& self.first_pass() == if before.phase() == Phase::Segmenting && progress_defined(
            h.pixels,
            h.tuning,
        ) {
            Self::furthest(
                before.first_pass(),
                Some(
                    if h.done() {
                        h.percent
                    } else {
                        self.segmentation().percent
                    },
                ),
            )
        } else {
            before.first_pass()
        }
        &&& if !h.done() {
            &&& self.phase() == before.phase()
            &&& self.segmentation().same_pass(h)
            &&& self.segmentation().stage >= h.stage
            &&& self.segmentation().stage != h.stage || self.segmentation().iteration
                != h.iteration
        } else if before.phase() == Phase::Resegmenting || before.params().hierarchical
            == Hierarchical::Stacked {
            &&& self.begins_emission()
            &&& self.emission().regions() == segmented(h.pixels, h.width, h.height, h.tuning)
        } else {
            &&& self.phase() == Phase::Resegmenting
            &&& self.segmentation().sound()
            &&& self.segmentation().pixels == repainted(h.pixels, h.width, h.height, h.tuning)
            &&& self.segmentation().width == h.width
            &&& self.segmentation().height == h.height
            &&& self.segmentation().tuning == second_pass(h.width, h.height, before.key_color())
            &&& self.segmentation().stage == 1
            &&& self.segmentation().iteration == 0
        }
    }

    /// The conversion is over: a step has found that no region is left.
    pub open spec fn is_over(&self) -> bool {
        self.phase() == Phase::Emitting && self.emission().finished()
    }

    /// While regions are emitted, the output has the size of the image and
    /// the precision of the parameters, and regions below the smallest area
    /// of the parameters get no path.
    pub proof fn lemma_emission_follows_parameters(&self)
        requires
            self.wf(),
            self.phase() == Phase::Emitting,
        ensures
            self.emission().wf(),
            self.emission().min_area() == self.params().filter_speckle_area,
            self.emission().output().width == self.size().0,
            self.emission().output().height == self.size().1,
            self.emission().output().path_precision == self.params().path_precision,
    {
    }

    /// Whether the next step needs a path from the caller.
    pub open spec fn awaits_path(&self) -> bool {
        self.phase() == Phase::Emitting && wanted(
            self.emission().regions(),
            self.emission().min_area(),
            self.emission().cursor(),
        )
    }

    /// Progress in percent.
    pub open spec fn progress_value(&self) -> int {
        color_progress(
            self.phase(),
            self.first_pass(),
            if self.phase() == Phase::Emitting {
                self.emission().cursor()
            } else {
                0
            },
            if self.phase() == Phase::Emitting {
                self.emission().regions().len() as int
            } else {
                0
            },
        )
    }

    /// A conversion that has not started.
    pub fn new(params: ConverterConfig) -> (converter: ColorImageConverter)
        requires
            params.valid(),
        ensures
            converter.wf(),
            converter.params() == params,
            converter.phase() == Phase::Uninitialized,
            converter.first_pass() == 0,
            converter.said() == 0,
            !converter.is_over(),
    {
        ColorImageConverter {
            params,
            stage: Stage::Uninitialized,
            key_color: Color { r: 0, g: 0, b: 0, a: 0 },
            width: 0,
            height: 0,
            reports: false,
            first_pass: 0,
            said: 0,
        }
    }

    /// Starts the conversion of `image` one step at a time, with `random` as
    /// the key colors to try after the six saturated ones. The image is
    /// keyed if its transparent pixels call for it, and the first pass
    /// begins on it. If the image is to be keyed and no candidate can serve
    /// as key, nothing begins.
    pub fn init_with(&mut self, image: PixelBuffer, random: &Vec<Color>) -> (started: Result<
        (),
        String,
    >)
        requires
            old(self).wf(),
            old(self).phase() == Phase::Uninitialized,
            image.segmentable(),
        ensures
            final(self).wf(),
            final(self).params() == old(self).params(),
            final(self).starts(*old(self), image, random@, started),
    {
        match key_image(image, random) {
            Ok((image, key)) => {
                let tuning = first_pass_tuning(&self.params, image.width, image.height, key);
                self.reports = can_report(&image, &tuning);
                self.width = image.width;
                self.height = image.height;
                self.key_color = key;
                let builder = start_segmentation(new_runner(image, &tuning));
                let percent = if self.reports {
                    segmentation_progress(&builder)
                } else {
                    0
                };
                self.said = percent;
                self.first_pass = percent;
                self.stage = Stage::Segmenting(builder);
                Ok(())
            },
            Err(message) => Err(message),
        }
    }

    /// Converts `image` up to the emission in one go, with `random` as the
    /// key colors to try after the six saturated ones: the image is keyed
    /// if its transparent pixels call for it, the first pass runs from its
    /// start to its end, and so does, in cutout mode, the second pass on the
    /// image that the first pass's regions paint. If the image is to be
    /// keyed and no candidate can serve as key, nothing is done.
    pub fn segment_with(&mut self, image: PixelBuffer, random: &Vec<Color>) -> (started: Result<
        (),
        String,
    >)
        requires
            old(self).wf(),
            old(self).phase() == Phase::Uninitialized,
            image.segmentable(),
        ensures
            final(self).wf(),
            final(self).params() == old(self).params(),
            final(self).segments(*old(self), image, random@, started),
    {
        match key_image(image, random) {
            Ok((image, key)) => {
                let tuning = first_pass_tuning(&self.params, image.width, image.height, key);
                self.width = image.width;
                self.height = image.height;
                self.key_color = key;
                let clusters = run_segmentation(new_runner(image, &tuning));
                match self.params.hierarchical {
                    Hierarchical::Stacked => {
                        self.begin_emission(clusters);
                    },
                    Hierarchical::Cutout => {
                        let merged = merged_image(&clusters);
                        let tuning = second_pass_tuning(merged.width, merged.height, key);
                        let clusters = run_segmentation(new_runner(merged, &tuning));
                        self.begin_emission(clusters);
                    },
                }
                Ok(())
            },
            Err(message) => Err(message),
        }
    }

    /// Converts `image` up to the emission in one go. Where the image is to
    /// be keyed and uses the six saturated colors, six colors drawn at
    /// random are tried: the outcome is that of `segment_with` for six
    /// colors.
    pub fn segment(&mut self, image: PixelBuffer) -> (started: Result<(), String>)
        requires
            old(self).wf(),
            old(self).phase() == Phase::Uninitialized,
            image.segmentable(),
        ensures
            final(self).wf(),
            final(self).params() == old(self).params(),
            exists|random: Seq<Color>|
                random.len() == NUM_UNUSED_COLOR_ITERATIONS && #[trigger] final(self).segments(
                    *old(self),
                    image,
                    random,
                    started,
                ),
            chosen_key(image, special_colors()) is Some ==> final(self).segments(
                *old(self),
                image,
                Seq::empty(),
                started,
            ),
            started matches Err(message) ==> {
                &&& message@ == no_unused_color_message()
                &&& *final(self) == *old(self)
                &&& should_key(image)
                &&& first_unused(image.pixels@, special_colors()) is None
            },
            started is Ok ==> final(self).begins_emission() && final(self).size() == (
                image.width,
                image.height,
            ) && (!final(self).key_color().is_zero() ==> should_key(image)),
    {
        let random = random_colors(NUM_UNUSED_COLOR_ITERATIONS);
        proof {
            lemma_draws_beyond_need(image, random@);
        }
        let started = self.segment_with(image, &random);
        assert(self.segments(*old(self), image, random@, started));
        started
    }

    /// Starts the conversion of `image` one step at a time. Where the image
    /// is to be keyed and uses the six saturated colors, six colors drawn at
    /// random are tried: the outcome is that of `init_with` for six colors.
    pub fn init(&mut self, image: PixelBuffer) -> (started: Result<(), String>)
        requires
            old(self).wf(),
            old(self).phase() == Phase::Uninitialized,
            image.segmentable(),
        ensures
            final(self).wf(),
            final(self).params() == old(self).params(),
            exists|random: Seq<Color>|
                random.len() == NUM_UNUSED_COLOR_ITERATIONS && #[trigger] final(self).starts(
                    *old(self),
                    image,
                    random,
                    started,
                ),
            chosen_key(image, special_colors()) is Some ==> final(self).starts(
                *old(self),
                image,
                Seq::empty(),
                started,
            ),
            chosen_key(image, special_colors()) is Some ==> final(self).segmentation().pixels
                == prepared(image, special_colors()),
            started matches Err(message) ==> {
                &&& message@ == no_unused_color_message()
                &&& *final(self) == *old(self)
                &&& should_key(image)
                &&& first_unused(image.pixels@, special_colors()) is None
            },
            started is Ok ==> final(self).phase() == Phase::Segmenting && final(self).size() == (
                image.width,
                image.height,
            ) && (!final(self).key_color().is_zero() ==> should_key(image)),
    {
        let random = random_colors(NUM_UNUSED_COLOR_ITERATIONS);
        proof {
            lemma_draws_beyond_need(image, random@);
        }
        let started = self.init_with(image, &random);
        assert(self.starts(*old(self), image, random@, started));
        started
    }

    /// The place, in the engine's list, of the region whose path the caller
    /// is asked for; `None` when the next step needs none.
    pub fn path_request(&self) -> (place: Option<usize>)
        requires
            self.wf(),
        ensures
            place is Some == self.awaits_path(),
            place matches Some(r) ==> r == self.emission().regions().len() - 1
                - self.emission().cursor(),
    {
        match &self.stage {
            Stage::Emitting(emission) => emission.request(),
            _ => None,
        }
    }

    /// Takes the path that was asked for. It is added to the output with the
    /// color of its region, and the walk moves on by one region.
    pub fn add_path(&mut self, path: visioncortex::CompoundPath)
        requires
            old(self).wf(),
            old(self).awaits_path(),
        ensures
            final(self).wf(),
            final(self).params() == old(self).params(),
            final(self).key_color() == old(self).key_color(),
            final(self).size() == old(self).size(),
            final(self).goal() == old(self).goal(),
            final(self).first_pass() == old(self).first_pass(),
            final(self).phase() == Phase::Emitting,
            !final(self).is_over(),
            final(self).emission().output().width == old(self).emission().output().width,
            final(self).emission().output().height == old(self).emission().output().height,
            final(self).emission().output().path_precision == old(self).emission().output().path_precision,
            final(self).emission().list() == old(self).emission().list(),
            final(self).emission().regions() == old(self).emission().regions(),
            final(self).emission().min_area() == old(self).emission().min_area(),
            final(self).emission().cursor() == old(self).emission().cursor() + 1,
            final(self).emission().output().paths@ == old(self).emission().output().paths@.push(
                crate::svg::SvgPath {
                    path,
                    color: old(self).emission().regions()[old(self).emission().regions().len() - 1
                        - old(self).emission().cursor()].color,
                },
            ),
            final(self).progress_value() >= old(self).progress_value(),
    {
        match &mut self.stage {
            Stage::Emitting(emission) => {
                proof {
                    emission.lemma_bounds();
                    lemma_share_monotonic(
                        50,
                        emission.cursor(),
                        emission.cursor() + 1,
                        emission.regions().len() as int,
                    );
                }
                emission.supply(path);
            },
            _ => {},
        }
    }

    /// The first pass's progress after the engine has said `percent`: what it
    /// was, or what the engine says if that is further, 100 at most.
    pub open spec fn furthest(first_pass: int, percent: Option<u32>) -> int {
        match percent {
            Some(p) => {
                let said = if p > 100 {
                    100
                } else {
                    p as int
                };
                if said > first_pass {
                    said
                } else {
                    first_pass
                }
            },
            None => first_pass,
        }
    }

    /// Takes in what the engine said after a piece of work on a pass:
    /// whether the pass is done.
    ///
    /// While the pass is not done nothing changes. When the first pass is
    /// done, its regions are emitted, or, in cutout mode, a second pass
    /// begins on the image that the first pass's regions paint. When the
    /// second pass is done, its regions are emitted. Where the pass is at
    /// its end, its regions are those that a whole pass finds.
    pub fn settle(&mut self, finished: bool)
        requires
            old(self).wf(),
            old(self).phase() == Phase::Segmenting || old(self).phase() == Phase::Resegmenting,
        ensures
            final(self).wf(),
            final(self).params() == old(self).params(),
            final(self).key_color() == old(self).key_color(),
            final(self).size() == old(self).size(),
            final(self).first_pass() == old(self).first_pass(),
            final(self).said() == old(self).said(),
            !finished ==> *final(self) == *old(self),
            finished && (old(self).phase() == Phase::Resegmenting || old(self).params().hierarchical
                == Hierarchical::Stacked) ==> {
                &&& final(self).begins_emission()
                &&& old(self).segmentation().done() ==> final(self).emission().regions()
                    == segmented(
                    old(self).segmentation().pixels,
                    old(self).segmentation().width,
                    old(self).segmentation().height,
                    old(self).segmentation().tuning,
                )
            },
            finished && old(self).phase() == Phase::Segmenting && old(self).params().hierarchical
                == Hierarchical::Cutout ==> {
                &&& final(self).phase() == Phase::Resegmenting
                &&& final(self).segmentation().sound()
                &&& final(self).segmentation().width == old(self).size().0
                &&& final(self).segmentation().height == old(self).size().1
                &&& final(self).segmentation().tuning == second_pass(
                    old(self).size().0,
                    old(self).size().1,
                    old(self).key_color(),
                )
                &&& final(self).segmentation().stage == 1
                &&& final(self).segmentation().iteration == 0
                &&& old(self).segmentation().done() ==> final(self).segmentation().pixels
                    == repainted(
                    old(self).segmentation().pixels,
                    old(self).segmentation().width,
                    old(self).segmentation().height,
                    old(self).segmentation().tuning,
                )
            },
            (finished ==> old(self).segmentation().done()) ==> final(self).goal() == old(self).goal(),
            final(self).progress_value() >= old(self).progress_value(),
    {
        if finished {
            let mut stage = Stage::Uninitialized;
            std::mem::swap(&mut self.stage, &mut stage);
            match stage {
                Stage::Segmenting(builder) => {
                    let clusters = finish_segmentation(builder);
                    match self.params.hierarchical {
                        Hierarchical::Stacked => {
                            self.begin_emission(clusters);
                        },
                        Hierarchical::Cutout => {
                            let image = merged_image(&clusters);
                            let tuning = second_pass_tuning(
                                image.width,
                                image.height,
                                self.key_color,
                            );
                            self.stage = Stage::Resegmenting(start_segmentation(new_runner(image, &tuning)));
                        },
                    }
                },
                Stage::Resegmenting(builder) => {
                    let clusters = finish_segmentation(builder);
                    self.begin_emission(clusters);
                },
                _ => {},
            }
        }
    }

    /// Takes one bounded step and returns whether the conversion is done.
    ///
    /// While a pass runs, the engine does one piece of work. The pass ends
    /// at the tick that finds it at its end: then the regions that a whole
    /// pass finds are emitted, or, after the first pass in cutout mode, the
    /// second pass begins on the image that those regions paint. While
    /// regions are emitted, the walk moves past a region that is too small.
    /// The step that finds no region left ends the conversion, and no step
    /// is taken after it. The regions that the conversion emits are the
    /// same before and after every step.
    pub fn tick(&mut self) -> (done: bool)
        requires
            old(self).wf(),
            old(self).phase() != Phase::Uninitialized,
            !old(self).is_over(),
            !old(self).awaits_path(),
        ensures
            final(self).wf(),
            final(self).is_over() == done,
            final(self).params() == old(self).params(),
            final(self).key_color() == old(self).key_color(),
            final(self).size() == old(self).size(),
            final(self).goal() == old(self).goal(),
            done == (old(self).phase() == Phase::Emitting && old(self).emission().done()),
            final(self).progress_value() >= old(self).progress_value(),
            done ==> final(self).progress_value() == 100,
            old(self).phase() != Phase::Emitting ==> final(self).pass_ticked(*old(self)),
            old(self).phase() == Phase::Emitting ==> {
                &&& final(self).first_pass() == old(self).first_pass()
                &&& final(self).phase() == Phase::Emitting
                &&& final(self).emission().list() == old(self).emission().list()
                &&& final(self).emission().regions() == old(self).emission().regions()
                &&& final(self).emission().min_area() == old(self).emission().min_area()
                &&& final(self).emission().output() == old(self).emission().output()
                &&& final(self).emission().cursor() == if done {
                    old(self).emission().cursor()
                } else {
                    old(self).emission().cursor() + 1
                }
            },
    {
        let mut finished = false;
        let mut percent: Option<u32> = None;
        match &mut self.stage {
            Stage::Uninitialized => {
                return false;
            },
            Stage::Segmenting(builder) => {
                finished = tick_segmentation(builder);
                if self.reports {
                    percent = Some(segmentation_progress(builder));
                }
            },
            Stage::Resegmenting(builder) => {
                finished = tick_segmentation(builder);
            },
            Stage::Emitting(emission) => {
                proof {
                    emission.lemma_bounds();
                    if emission.cursor() < emission.regions().len() {
                        lemma_share_monotonic(
                            50,
                            emission.cursor(),
                            emission.cursor() + 1,
                            emission.regions().len() as int,
                        );
                    } else if emission.regions().len() > 0 {
                        lemma_share_monotonic(
                            50,
                            emission.cursor(),
                            emission.cursor(),
                            emission.regions().len() as int,
                        );
                    }
                }
                return emission.advance();
            },
        }
        match percent {
            Some(said) => {
                self.said = said;
                if said > self.first_pass {
                    self.first_pass = said;
                }
            },
            None => {},
        }
        self.settle(finished);
        false
    }

    /// Takes steps while a pass runs, `fuel` steps at most, and returns
    /// whether the emission has begun. The regions that the conversion
    /// emits stay the same.
    pub fn run_passes(&mut self, fuel: usize) -> (reached: bool)
        requires
            old(self).wf(),
            old(self).phase() == Phase::Segmenting || old(self).phase() == Phase::Resegmenting,
        ensures
            final(self).wf(),
            final(self).params() == old(self).params(),
            final(self).key_color() == old(self).key_color(),
            final(self).size() == old(self).size(),
            final(self).goal() == old(self).goal(),
            final(self).phase() != Phase::Uninitialized,
            reached == (final(self).phase() == Phase::Emitting),
            reached ==> final(self).begins_emission(),
    {
        let mut left = fuel;
        while left > 0
            invariant
                self.wf(),
                self.params() == old(self).params(),
                self.key_color() == old(self).key_color(),
                self.size() == old(self).size(),
                self.goal() == old(self).goal(),
                self.phase() == Phase::Segmenting || self.phase() == Phase::Resegmenting,
            decreases left,
        {
            self.tick();
            if self.current_phase() == Phase::Emitting {
                return true;
            }
            left = left - 1;
        }
        false
    }

    /// Walks all the regions at once, with `fit` fitting each path that is
    /// asked for, up to the step that ends the conversion.
    pub fn emit_all<F: Fn(&RegionList, usize) -> visioncortex::CompoundPath>(&mut self, fit: &F)
        requires
            old(self).wf(),
            old(self).phase() == Phase::Emitting,
            !old(self).is_over(),
            old(self).emission().fitted_by(fit),
            forall|place: usize|
                place < old(self).emission().regions().len() ==> fit.requires(
                    (&old(self).emission().list(), place),
                ),
        ensures
            final(self).wf(),
            final(self).params() == old(self).params(),
            final(self).key_color() == old(self).key_color(),
            final(self).size() == old(self).size(),
            final(self).goal() == old(self).goal(),
            final(self).is_over(),
            final(self).emission().done(),
            final(self).emission().list() == old(self).emission().list(),
            final(self).emission().fitted_by(fit),
            final(self).progress_value() == 100,
    {
        match &mut self.stage {
            Stage::Emitting(emission) => {
                emission.run(fit);
                proof {
                    emission.lemma_bounds();
                    if emission.regions().len() > 0 {
                        lemma_share_monotonic(
                            50,
                            emission.cursor(),
                            emission.cursor(),
                            emission.regions().len() as int,
                        );
                    }
                }
            },
            _ => {},
        }
    }

    /// The emission has just begun: no region is walked and there is no
    /// path, and the output has the image's size and the precision asked
    /// for.
    pub open spec fn begins_emission(&self) -> bool {
        &&& self.phase() == Phase::Emitting
        &&& self.emission().cursor() == 0
        &&& !self.emission().finished()
        &&& self.emission().min_area() == self.params().filter_speckle_area
        &&& self.emission().output().paths@.len() == 0
        &&& self.emission().output().width == self.size().0
        &&& self.emission().output().height == self.size().1
        &&& self.emission().output().path_precision == self.params().path_precision
    }

    fn begin_emission(&mut self, clusters: visioncortex::color_clusters::Clusters)
        requires
            old(self).params.valid(),
            old(self).said <= old(self).first_pass <= 100,
            old(self).width <= u32::MAX,
            old(self).height <= u32::MAX,
            old(self).width * old(self).height <= MAX_PIXELS,
        ensures
            final(self).wf(),
            final(self).begins_emission(),
            final(self).emission().list() == RegionList::Color(clusters),
            final(self).emission().regions() == crate::segmentation::clustered(clusters),
            final(self).params == old(self).params,
            final(self).key_color == old(self).key_color,
            final(self).first_pass == old(self).first_pass,
            final(self).said == old(self).said,
            final(self).width == old(self).width,
            final(self).height == old(self).height,
    {
        self.stage = Stage::Emitting(
            Emission::new(
                RegionList::Color(clusters),
                self.params.filter_speckle_area,
                self.width,
                self.height,
                self.params.path_precision,
            ),
        );
    }

    /// Whether the conversion is over.
    pub fn is_done(&self) -> (over: bool)
        ensures
            over == self.is_over(),
    {
        match &self.stage {
            Stage::Emitting(emission) => emission.is_finished(),
            _ => false,
        }
    }

    /// While the first pass runs and the engine can say how far the pass is,
    /// the conversion holds what the pass says at this moment. The progress
    /// is half of the furthest that the pass has said since the start: at
    /// least half of what it says now, and exactly that where the pass has
    /// not said more before. Where the engine cannot say how far the pass
    /// is, the progress is 0.
    pub proof fn lemma_progress_of_first_pass(&self)
        requires
            self.wf(),
            self.phase() == Phase::Segmenting,
        ensures
            progress_defined(self.segmentation().pixels, self.segmentation().tuning)
                ==> self.said() == self.segmentation().percent,
            !progress_defined(self.segmentation().pixels, self.segmentation().tuning)
                ==> self.first_pass() == 0,
            self.said() <= self.first_pass() <= 100,
            self.progress_value() == self.first_pass() / 2,
            self.said() / 2 <= self.progress_value() <= 50,
            self.first_pass() == self.said() ==> self.progress_value() == self.said() / 2,
    {
    }

    /// What the first pass says at this moment of how far it is, in percent;
    /// `None` when no first pass runs or the engine cannot say.
    pub fn pass_progress(&self) -> (percent: Option<u32>)
        requires
            self.wf(),
        ensures
            percent == if self.phase() == Phase::Segmenting && progress_defined(
                self.segmentation().pixels,
                self.segmentation().tuning,
            ) {
                Some(self.segmentation().percent)
            } else {
                None
            },
            percent matches Some(p) ==> p == self.said() && p <= 100 && p / 2
                <= self.progress_value(),
    {
        match &self.stage {
            Stage::Segmenting(_) => if self.reports {
                Some(self.said)
            } else {
                None
            },
            _ => None,
        }
    }

    /// Where the conversion stands.
    pub fn current_phase(&self) -> (phase: Phase)
        ensures
            phase == self.phase(),
    {
        match &self.stage {
            Stage::Uninitialized => Phase::Uninitialized,
            Stage::Segmenting(_) => Phase::Segmenting,
            Stage::Resegmenting(_) => Phase::Resegmenting,
            Stage::Emitting(_) => Phase::Emitting,
        }
    }

    /// The parameters that the conversion works with.
    pub fn parameters(&self) -> (params: &ConverterConfig)
        ensures
            *params == self.params(),
    {
        &self.params
    }

    /// The key color that the engine is handed; all zeros for none.
    pub fn key(&self) -> (key: Color)
        ensures
            key == self.key_color(),
    {
        self.key_color
    }

    /// Progress in percent.
    pub fn progress(&self) -> (percent: i32)
        requires
            self.wf(),
        ensures
            percent == self.progress_value(),
            0 <= percent <= 100,
    {
        match &self.stage {
            Stage::Uninitialized => 0,
            Stage::Segmenting(_) => (self.first_pass / 2) as i32,
            Stage::Resegmenting(_) => 50,
            Stage::Emitting(emission) => {
                let count = emission.count();
                if count == 0 {
                    100
                } else {
                    (50 + share(50, emission.steps(), count)) as i32
                }
            },
        }
    }

    /// The regions that are being emitted, for the one who fits the paths.
    pub fn regions(&self) -> (list: Option<&RegionList>)
        ensures
            list is Some == (self.phase() == Phase::Emitting),
            list matches Some(l) ==> *l == self.emission().list() && l@
                == self.emission().regions(),
    {
        match &self.stage {
            Stage::Emitting(emission) => Some(emission.region_list()),
            _ => None,
        }
    }

    /// The output so far; there is none before the emission.
    pub fn output(&self) -> (output: Option<&SvgFile>)
        ensures
            output is Some == (self.phase() == Phase::Emitting),
            output matches Some(o) ==> *o == self.emission().output(),
    {
        match &self.stage {
            Stage::Emitting(emission) => Some(emission.output_so_far()),
            _ => None,
        }
    }

    /// Ends the conversion and hands out the output; `None` before the
    /// emission.
    pub fn into_svg(self) -> (output: Option<SvgFile>)
        ensures
            output is Some == (self.phase() == Phase::Emitting),
            output matches Some(o) ==> o == self.emission().output(),
    {
        match self.stage {
            Stage::Emitting(emission) => Some(emission.into_output()),
            _ => None,
        }
    }
}

/// A conversion taken in steps and a conversion in one go give the same
/// output. Let both have walked all their regions, for the same image, the
/// same colors drawn and the same parameters: `stepped` was started by
/// `init_with` and brought to its end by `tick` and `add_path`, which keep
/// the regions that a conversion emits, and `whole` was made by
/// `segment_with`. Where every path of either output is the one that `fit`
/// gives for its place, the two outputs hold the same paths with the same
/// colors in the same order.
pub proof fn lemma_steps_match_one_go(
    stepped: ColorImageConverter,
    whole: ColorImageConverter,
    image: PixelBuffer,
    random: Seq<Color>,
    params: ConverterConfig,
    fit: spec_fn(int) -> visioncortex::CompoundPath,
)
    requires
        stepped.wf(),
        whole.wf(),
        stepped.params() == params,
        whole.params() == params,
        stepped.phase() == Phase::Emitting,
        whole.phase() == Phase::Emitting,
        stepped.emission().done(),
        whole.emission().done(),
        stepped.goal() == planned_regions(image, special_colors() + random, params),
        whole.emission().regions() == planned_regions(image, special_colors() + random, params),
        forall|k: int|
            0 <= k < stepped.emission().output().paths@.len() ==> (
            #[trigger] stepped.emission().output().paths@[k]).path == fit(
                crate::emission::planned_places(
                    stepped.emission().regions(),
                    stepped.emission().min_area(),
                    stepped.emission().cursor(),
                )[k],
            ),
        forall|k: int|
            0 <= k < whole.emission().output().paths@.len() ==> (
            #[trigger] whole.emission().output().paths@[k]).path == fit(
                crate::emission::planned_places(
                    whole.emission().regions(),
                    whole.emission().min_area(),
                    whole.emission().cursor(),
                )[k],
            ),
    ensures
        stepped.emission().output().paths@ == whole.emission().output().paths@,
        stepped.emission().output().paths@ == crate::emission::batch(
            planned_regions(image, special_colors() + random, params),
            params.filter_speckle_area,
            fit,
        ),
{
    stepped.lemma_emission_follows_parameters();
    whole.lemma_emission_follows_parameters();
    stepped.emission().lemma_output_is_sliced(fit);
    whole.emission().lemma_output_is_sliced(fit);
}

/// What the conversion of a color image gives when `fit` fits its paths: a
/// drawing of the image's size, with one path for each planned region of at
/// least the smallest area, from the last region to the first, each in the
/// color of its region and fitted by `fit` for its place in some list of
/// the planned regions.
pub open spec fn fitted_output<F: Fn(&RegionList, usize) -> visioncortex::CompoundPath>(
    svg: SvgFile,
    image: PixelBuffer,
    random: Seq<Color>,
    params: ConverterConfig,
    fit: &F,
) -> bool {
    let regions = planned_regions(image, special_colors() + random, params);
    let places = planned_places(regions, params.filter_speckle_area, regions.len() as int);
    &&& regions.len() <= usize::MAX
    &&& svg.width == image.width
    &&& svg.height == image.height
    &&& svg.path_precision == params.path_precision
    &&& svg.paths@.len() == places.len()
    &&& forall|k: int|
        0 <= k < svg.paths@.len() ==> (#[trigger] svg.paths@[k]).color == regions[places[k]].color
    &&& exists|list: RegionList|
        list@ == regions && forall|k: int|
            0 <= k < svg.paths@.len() ==> fit.ensures(
                (&list, places[k] as usize),
                (#[trigger] svg.paths@[k]).path,
            )
}

/// Converts a color image in steps, from the start of the first pass to
/// the step that ends the conversion, with `random` as the key colors to
/// try after the six saturated ones and `fit` fitting each path. At most
/// `fuel` steps are taken while the passes run; `None` is returned when
/// they are not enough, or when the image is to be keyed and uses every
/// candidate.
pub fn convert_in_steps<F: Fn(&RegionList, usize) -> visioncortex::CompoundPath>(
    image: PixelBuffer,
    params: ConverterConfig,
    random: &Vec<Color>,
    fit: &F,
    fuel: usize,
) -> (output: Option<SvgFile>)
    requires
        params.valid(),
        image.segmentable(),
        forall|list: &RegionList, place: usize| place < list@.len() ==> fit.requires((list, place)),
    ensures
        output matches Some(svg) ==> fitted_output(svg, image, random@, params, fit),
        chosen_key(image, special_colors() + random@) is None ==> output is None,
{
    let mut converter = ColorImageConverter::new(params);
    match converter.init_with(image, random) {
        Ok(()) => {
            if converter.run_passes(fuel) {
                proof {
                    lemma_can_fit(converter, fit);
                }
                converter.emit_all(fit);
                let count = match converter.regions() {
                    Some(list) => list.len(),
                    None => 0,
                };
                proof {
                    lemma_fitted(converter, image, random@, params, fit);
                }
                converter.into_svg()
            } else {
                None
            }
        },
        Err(_) => None,
    }
}

/// Converts a color image in one go, with `random` as the key colors to try
/// after the six saturated ones and `fit` fitting each path. `None` is
/// returned when the image is to be keyed and uses every candidate, and
/// only then.
pub fn convert_in_one_go<F: Fn(&RegionList, usize) -> visioncortex::CompoundPath>(
    image: PixelBuffer,
    params: ConverterConfig,
    random: &Vec<Color>,
    fit: &F,
) -> (output: Option<SvgFile>)
    requires
        params.valid(),
        image.segmentable(),
        forall|list: &RegionList, place: usize| place < list@.len() ==> fit.requires((list, place)),
    ensures
        output matches Some(svg) ==> fitted_output(svg, image, random@, params, fit),
        output is None <==> chosen_key(image, special_colors() + random@) is None,
{
    let mut converter = ColorImageConverter::new(params);
    match converter.segment_with(image, random) {
        Ok(()) => {
            proof {
                lemma_can_fit(converter, fit);
            }
            converter.emit_all(fit);
            let count = match converter.regions() {
                Some(list) => list.len(),
                None => 0,
            };
            proof {
                lemma_fitted(converter, image, random@, params, fit);
            }
            converter.into_svg()
        },
        Err(_) => None,
    }
}

proof fn lemma_can_fit<F: Fn(&RegionList, usize) -> visioncortex::CompoundPath>(
    converter: ColorImageConverter,
    fit: &F,
)
    requires
        converter.wf(),
        converter.begins_emission(),
        forall|list: &RegionList, place: usize| place < list@.len() ==> fit.requires((list, place)),
    ensures
        converter.emission().fitted_by(fit),
        forall|place: usize|
            place < converter.emission().regions().len() ==> fit.requires(
                (&converter.emission().list(), place),
            ),
{
    converter.emission().lemma_list();
    let list = converter.emission().list();
    assert forall|place: usize| place < converter.emission().regions().len() implies fit.requires(
        (&converter.emission().list(), place),
    ) by {
        assert(place < (&list)@.len());
    }
}

proof fn lemma_fitted<F: Fn(&RegionList, usize) -> visioncortex::CompoundPath>(
    converter: ColorImageConverter,
    image: PixelBuffer,
    random: Seq<Color>,
    params: ConverterConfig,
    fit: &F,
)
    requires
        converter.wf(),
        converter.params() == params,
        converter.size() == (image.width, image.height),
        converter.phase() == Phase::Emitting,
        converter.emission().done(),
        converter.emission().fitted_by(fit),
        converter.emission().regions().len() <= usize::MAX,
        converter.emission().regions() == planned_regions(
            image,
            special_colors() + random,
            params,
        ),
    ensures
        fitted_output(converter.emission().output(), image, random, params, fit),
{
    converter.lemma_emission_follows_parameters();
    converter.emission().lemma_output_colors();
    converter.emission().lemma_bounds();
    let svg = converter.emission().output();
    let regions = planned_regions(image, special_colors() + random, params);
    let places = planned_places(regions, params.filter_speckle_area, regions.len() as int);
    let list = converter.emission().list();
    converter.emission().lemma_list();
    assert forall|k: int| 0 <= k < svg.paths@.len() implies (#[trigger] svg.paths@[k]).color
        == regions[places[k]].color by {
        assert(crate::emission::fills_of(svg.paths@)[k] == svg.paths@[k].color);
    }
    assert(list@ == regions && forall|k: int|
        0 <= k < svg.paths@.len() ==> fit.ensures(
            (&list, places[k] as usize),
            (#[trigger] svg.paths@[k]).path,
        ));
}

/// A conversion in steps and a conversion in one go give the same drawing.
/// Let both be of the same image with the same parameters and the same
/// colors drawn, and let `fit` give, for each place in a list of the planned
/// regions, the one path `path_of(place)`. Then both drawings hold the same
/// paths with the same colors in the same order: those that the emission in
/// one go lists.
pub proof fn lemma_runs_agree<F: Fn(&RegionList, usize) -> visioncortex::CompoundPath>(
    stepped: SvgFile,
    whole: SvgFile,
    image: PixelBuffer,
    random: Seq<Color>,
    params: ConverterConfig,
    fit: &F,
    path_of: spec_fn(int) -> visioncortex::CompoundPath,
)
    requires
        fitted_output(stepped, image, random, params, fit),
        fitted_output(whole, image, random, params, fit),
        forall|list: RegionList, place: usize, path: visioncortex::CompoundPath|
            list@ == planned_regions(image, special_colors() + random, params) && #[trigger] fit.ensures(
                (&list, place),
                path,
            ) ==> path == path_of(place as int),
    ensures
        stepped.paths@ == whole.paths@,
        stepped.paths@ == batch(
            planned_regions(image, special_colors() + random, params),
            params.filter_speckle_area,
            path_of,
        ),
        stepped.width == whole.width,
        stepped.height == whole.height,
        stepped.path_precision == whole.path_precision,
{
    let regions = planned_regions(image, special_colors() + random, params);
    let places = planned_places(regions, params.filter_speckle_area, regions.len() as int);
    let entry = |r: int| crate::svg::SvgPath { path: path_of(r), color: regions[r].color };
    crate::emission::lemma_sliced_places(
        regions,
        params.filter_speckle_area,
        path_of,
        regions.len() as int,
    );
    crate::emission::lemma_sliced_matches_batch(regions, params.filter_speckle_area, path_of);
    crate::emission::lemma_places_within(regions, params.filter_speckle_area, regions.len() as int);
    lemma_fitted_entries(stepped, image, random, params, fit, path_of);
    lemma_fitted_entries(whole, image, random, params, fit, path_of);
    assert(stepped.paths@ =~= places.map_values(entry));
    assert(whole.paths@ =~= places.map_values(entry));
}

proof fn lemma_fitted_entries<F: Fn(&RegionList, usize) -> visioncortex::CompoundPath>(
    svg: SvgFile,
    image: PixelBuffer,
    random: Seq<Color>,
    params: ConverterConfig,
    fit: &F,
    path_of: spec_fn(int) -> visioncortex::CompoundPath,
)
    requires
        fitted_output(svg, image, random, params, fit),
        forall|list: RegionList, place: usize, path: visioncortex::CompoundPath|
            list@ == planned_regions(image, special_colors() + random, params) && #[trigger] fit.ensures(
                (&list, place),
                path,
            ) ==> path == path_of(place as int),
    ensures
        forall|k: int|
            0 <= k < svg.paths@.len() ==> (#[trigger] svg.paths@[k]).path == path_of(
                planned_places(
                    planned_regions(image, special_colors() + random, params),
                    params.filter_speckle_area,
                    planned_regions(image, special_colors() + random, params).len() as int,
                )[k],
            ),
{
    let regions = planned_regions(image, special_colors() + random, params);
    let places = planned_places(regions, params.filter_speckle_area, regions.len() as int);
    crate::emission::lemma_places_within(regions, params.filter_speckle_area, regions.len() as int);
    let list = choose|list: RegionList|
        list@ == regions && forall|k: int|
            0 <= k < svg.paths@.len() ==> fit.ensures(
                (&list, places[k] as usize),
                (#[trigger] svg.paths@[k]).path,
            );
    assert forall|k: int| 0 <= k < svg.paths@.len() implies (#[trigger] svg.paths@[k]).path
        == path_of(places[k]) by {
        assert(fit.ensures((&list, places[k] as usize), svg.paths@[k].path));
        assert(0 <= places[k] < regions.len());
    }
}

/// The conversion of a two-level image, one step at a time. The image is
/// not keyed and there is no segmentation pass: the regions are emitted as
/// soon as the conversion has started.
pub struct BinaryImageConverter {
    params: ConverterConfig,
    emission: Option<Emission>,
}

impl BinaryImageConverter {
    /// The parameters that the conversion works with.
    pub closed spec fn params(&self) -> ConverterConfig {
        self.params
    }

    /// Whether the conversion has started.
    pub closed spec fn started(&self) -> bool {
        self.emission is Some
    }

    /// The emission; meaningful once the conversion has started.
    pub closed spec fn emission(&self) -> Emission {
        self.emission->Some_0
    }

    /// The emission, once there is one, is consistent with the parameters.
    pub closed spec fn wf(&self) -> bool {
        self.emission matches Some(emission) ==> {
            &&& emission.wf()
            &&& emission.min_area() == self.params.filter_speckle_area
            &&& emission.output().path_precision == self.params.path_precision
        }
    }

    /// The conversion is over: a step has found that no region is left.
    pub open spec fn is_over(&self) -> bool {
        self.started() && self.emission().finished()
    }

    /// Once the conversion has started, the output has the precision of the
    /// parameters, and regions below the smallest area of the parameters
    /// get no path.
    pub proof fn lemma_emission_follows_parameters(&self)
        requires
            self.wf(),
            self.started(),
        ensures
            self.emission().wf(),
            self.emission().min_area() == self.params().filter_speckle_area,
            self.emission().output().path_precision == self.params().path_precision,
    {
    }

    /// Whether the next step needs a path from the caller.
    pub open spec fn awaits_path(&self) -> bool {
        self.started() && wanted(
            self.emission().regions(),
            self.emission().min_area(),
            self.emission().cursor(),
        )
    }

    /// Progress in percent; nothing before the start.
    pub open spec fn progress_value(&self) -> int {
        if self.started() {
            binary_progress(self.emission().cursor(), self.emission().regions().len() as int)
        } else {
            0
        }
    }

    /// A conversion that has not started.
    pub fn new(params: ConverterConfig) -> (converter: BinaryImageConverter)
        ensures
            converter.wf(),
            converter.params() == params,
            !converter.started(),
    {
        BinaryImageConverter { params, emission: None }
    }

    /// Starts the conversion of `image`: a pixel is foreground where its red
    /// is below 128, and the regions of the foreground are found at once.
    pub fn init(&mut self, image: PixelBuffer)
        requires
            old(self).wf(),
            !old(self).started(),
            image.wf(),
            image.seeds() <= MAX_SEEDS,
        ensures
            final(self).wf(),
            final(self).params() == old(self).params(),
            final(self).started(),
            !final(self).is_over(),
            final(self).emission().list() is Binary,
            final(self).emission().regions() == binary_region_list(
                image.pixels@,
                image.width,
                image.height,
            ),
            final(self).emission().cursor() == 0,
            final(self).emission().min_area() == old(self).params().filter_speckle_area,
            final(self).emission().output().paths@.len() == 0,
            final(self).emission().output().width == image.width,
            final(self).emission().output().height == image.height,
            final(self).emission().output().path_precision == old(self).params().path_precision,
    {
        let clusters = threshold_clusters(&image, false);
        assert(RegionList::Binary(clusters)@ =~= binary_region_list(
            image.pixels@,
            image.width,
            image.height,
        ));
        self.emission = Some(
            Emission::new(
                RegionList::Binary(clusters),
                self.params.filter_speckle_area,
                image.width,
                image.height,
                self.params.path_precision,
            ),
        );
    }

    /// The place, in the engine's list, of the region whose path the caller
    /// is asked for; `None` when the next step needs none.
    pub fn path_request(&self) -> (place: Option<usize>)
        requires
            self.wf(),
        ensures
            place is Some == self.awaits_path(),
            place matches Some(r) ==> r == self.emission().regions().len() - 1
                - self.emission().cursor(),
    {
        match &self.emission {
            Some(emission) => emission.request(),
            None => None,
        }
    }

    /// Takes the path that was asked for. It is added to the output in
    /// black, and the walk moves on by one region.
    pub fn add_path(&mut self, path: visioncortex::CompoundPath)
        requires
            old(self).wf(),
            old(self).awaits_path(),
        ensures
            final(self).wf(),
            final(self).params() == old(self).params(),
            final(self).started(),
            !final(self).is_over(),
            final(self).emission().list() == old(self).emission().list(),
            final(self).emission().regions() == old(self).emission().regions(),
            final(self).emission().min_area() == old(self).emission().min_area(),
            final(self).emission().cursor() == old(self).emission().cursor() + 1,
            final(self).emission().output().paths@ == old(self).emission().output().paths@.push(
                crate::svg::SvgPath {
                    path,
                    color: old(self).emission().regions()[old(self).emission().regions().len() - 1
                        - old(self).emission().cursor()].color,
                },
            ),
            final(self).emission().output().width == old(self).emission().output().width,
            final(self).emission().output().height == old(self).emission().output().height,
            final(self).emission().output().path_precision == old(self).emission().output().path_precision,
            final(self).progress_value() >= old(self).progress_value(),
    {
        match &mut self.emission {
            Some(emission) => {
                proof {
                    emission.lemma_bounds();
                    lemma_share_monotonic(
                        100,
                        emission.cursor(),
                        emission.cursor() + 1,
                        emission.regions().len() as int,
                    );
                }
                emission.supply(path);
            },
            None => {},
        }
    }

    /// Takes one step and returns whether the conversion is done: the walk
    /// moves past a region that is too small; the step that finds no region
    /// left ends the conversion, and no step is taken after it.
    pub fn tick(&mut self) -> (done: bool)
        requires
            old(self).wf(),
            old(self).started(),
            !old(self).is_over(),
            !old(self).awaits_path(),
        ensures
            final(self).wf(),
            final(self).is_over() == done,
            final(self).params() == old(self).params(),
            final(self).started(),
            done == old(self).emission().done(),
            final(self).emission().list() == old(self).emission().list(),
            final(self).emission().regions() == old(self).emission().regions(),
            final(self).emission().min_area() == old(self).emission().min_area(),
            final(self).emission().output() == old(self).emission().output(),
            final(self).emission().cursor() == if done {
                old(self).emission().cursor()
            } else {
                old(self).emission().cursor() + 1
            },
            final(self).progress_value() >= old(self).progress_value(),
            done ==> final(self).progress_value() == 100,
    {
        match &mut self.emission {
            Some(emission) => {
                proof {
                    emission.lemma_bounds();
                    if emission.cursor() < emission.regions().len() {
                        lemma_share_monotonic(
                            100,
                            emission.cursor(),
                            emission.cursor() + 1,
                            emission.regions().len() as int,
                        );
                    } else if emission.regions().len() > 0 {
                        lemma_share_monotonic(
                            100,
                            emission.cursor(),
                            emission.cursor(),
                            emission.regions().len() as int,
                        );
                    }
                }
                emission.advance()
            },
            None => false,
        }
    }

    /// Walks all the regions at once, with `fit` fitting each path that is
    /// asked for, up to the step that ends the conversion.
    pub fn emit_all<F: Fn(&RegionList, usize) -> visioncortex::CompoundPath>(&mut self, fit: &F)
        requires
            old(self).wf(),
            old(self).started(),
            !old(self).is_over(),
            old(self).emission().fitted_by(fit),
            forall|place: usize|
                place < old(self).emission().regions().len() ==> fit.requires(
                    (&old(self).emission().list(), place),
                ),
        ensures
            final(self).wf(),
            final(self).params() == old(self).params(),
            final(self).started(),
            final(self).is_over(),
            final(self).emission().done(),
            final(self).emission().list() == old(self).emission().list(),
            final(self).emission().regions() == old(self).emission().regions(),
            final(self).emission().min_area() == old(self).emission().min_area(),
            final(self).emission().output().width == old(self).emission().output().width,
            final(self).emission().output().height == old(self).emission().output().height,
            final(self).emission().fitted_by(fit),
            final(self).progress_value() == 100,
    {
        match &mut self.emission {
            Some(emission) => {
                emission.run(fit);
                proof {
                    emission.lemma_bounds();
                    if emission.regions().len() > 0 {
                        lemma_share_monotonic(
                            100,
                            emission.cursor(),
                            emission.cursor(),
                            emission.regions().len() as int,
                        );
                    }
                }
            },
            None => {},
        }
    }

    /// Whether the conversion is over.
    pub fn is_done(&self) -> (over: bool)
        ensures
            over == self.is_over(),
    {
        match &self.emission {
            Some(emission) => emission.is_finished(),
            None => false,
        }
    }

    /// Whether the conversion has started.
    pub fn is_started(&self) -> (started: bool)
        ensures
            started == self.started(),
    {
        self.emission.is_some()
    }

    /// The parameters that the conversion works with.
    pub fn parameters(&self) -> (params: &ConverterConfig)
        ensures
            *params == self.params(),
    {
        &self.params
    }

    /// Progress in percent.
    pub fn progress(&self) -> (percent: u32)
        requires
            self.wf(),
        ensures
            percent == self.progress_value(),
            percent <= 100,
    {
        match &self.emission {
            Some(emission) => {
                let count = emission.count();
                if count == 0 {
                    100
                } else {
                    share(100, emission.steps(), count)
                }
            },
            None => 0,
        }
    }

    /// The regions that are being emitted, for the one who fits the paths.
    pub fn regions(&self) -> (list: Option<&RegionList>)
        ensures
            list is Some == self.started(),
            list matches Some(l) ==> *l == self.emission().list() && l@
                == self.emission().regions(),
    {
        match &self.emission {
            Some(emission) => Some(emission.region_list()),
            None => None,
        }
    }

    /// The output so far; there is none before the start.
    pub fn output(&self) -> (output: Option<&SvgFile>)
        ensures
            output is Some == self.started(),
            output matches Some(o) ==> *o == self.emission().output(),
    {
        match &self.emission {
            Some(emission) => Some(emission.output_so_far()),
            None => None,
        }
    }

    /// Ends the conversion and hands out the output; `None` before the
    /// start.
    pub fn into_svg(self) -> (output: Option<SvgFile>)
        ensures
            output is Some == self.started(),
            output matches Some(o) ==> o == self.emission().output(),
    {
        match self.emission {
            Some(emission) => Some(emission.into_output()),
            None => None,
        }
    }
}

/// A conversion that has started, of a color image or of a two-level image.
pub enum Conversion {
    Color(ColorImageConverter),
    Binary(BinaryImageConverter),
}

/// What an image must meet for a conversion in this color mode: it is
/// well-formed and within the engine's limits.
pub open spec fn convertible(img: PixelBuffer, mode: ColorMode) -> bool {
    match mode {
        ColorMode::Color => img.segmentable(),
        ColorMode::Binary => img.wf() && img.seeds() <= MAX_SEEDS,
    }
}

/// Whether an image meets what a conversion in this color mode asks of it.
pub fn is_convertible(img: &PixelBuffer, mode: ColorMode) -> (ok: bool)
    ensures
        ok == convertible(*img, mode),
{
    if !img.is_well_formed() {
        return false;
    }
    match mode {
        ColorMode::Color => img.width <= u32::MAX as usize && img.height <= u32::MAX as usize
            && img.pixels.len() / 4 <= MAX_PIXELS,
        ColorMode::Binary => crate::segmentation::count_seeds(img) <= MAX_SEEDS,
    }
}

/// What `convert` returns for an image, settings and the colors drawn. In
/// color mode the emission begins on the planned regions with the key that
/// was chosen, or, where no key is found, the conversion is turned down. In
/// binary mode the emission begins on the regions of the foreground.
pub open spec fn converted(
    img: PixelBuffer,
    config: Config,
    random: Seq<Color>,
    conversion: Result<Conversion, String>,
) -> bool {
    let params = crate::config::derived(config);
    match config.color_mode {
        ColorMode::Color => match chosen_key(img, special_colors() + random) {
            Some(key) => {
                &&& conversion matches Ok(Conversion::Color(converter))
                &&& converter.wf()
                &&& converter.params() == params
                &&& converter.begins_emission()
                &&& converter.size() == (img.width, img.height)
                &&& converter.key_color() == key
                &&& converter.emission().regions() == planned_regions(
                    img,
                    special_colors() + random,
                    params,
                )
            },
            None => conversion matches Err(message) && message@ == no_unused_color_message(),
        },
        ColorMode::Binary => {
            &&& conversion matches Ok(Conversion::Binary(converter))
            &&& converter.wf()
            &&& converter.params() == params
            &&& converter.started()
            &&& !converter.is_over()
            &&& converter.emission().list() is Binary
            &&& converter.emission().regions() == binary_region_list(
                img.pixels@,
                img.width,
                img.height,
            )
            &&& converter.emission().cursor() == 0
            &&& converter.emission().min_area() == params.filter_speckle_area
            &&& converter.emission().output().paths@.len() == 0
            &&& converter.emission().output().width == img.width
            &&& converter.emission().output().height == img.height
            &&& converter.emission().output().path_precision == config.path_precision
        },
    }
}

/// Converts an image with the given settings up to the emission, in one
/// go. In color mode the image is keyed where its transparent pixels call
/// for it, and the segmentation runs from its start to its end; in binary
/// mode the regions of the two-level image are found. Where the image is
/// to be keyed and uses the six saturated colors, six colors drawn at random
/// are tried. The caller then takes the steps of the emission and fits the
/// paths that are asked for.
pub fn convert(img: PixelBuffer, config: Config) -> (conversion: Result<Conversion, String>)
    requires
        config.valid(),
        convertible(img, config.color_mode),
    ensures
        exists|random: Seq<Color>|
            random.len() == NUM_UNUSED_COLOR_ITERATIONS && #[trigger] converted(
                img,
                config,
                random,
                conversion,
            ),
        config.color_mode == ColorMode::Binary || chosen_key(img, special_colors()) is Some
            ==> converted(img, config, Seq::empty(), conversion),
        conversion matches Err(message) ==> {
            &&& config.color_mode == ColorMode::Color
            &&& message@ == no_unused_color_message()
            &&& should_key(img)
            &&& first_unused(img.pixels@, special_colors()) is None
        },
{
    let params = config.into_converter_config();
    match params.color_mode {
        ColorMode::Color => {
            let mut converter = ColorImageConverter::new(params);
            let ghost before = converter;
            let started = converter.segment(img);
            proof {
                let random = choose|random: Seq<Color>|
                    random.len() == NUM_UNUSED_COLOR_ITERATIONS && #[trigger] converter.segments(
                        before,
                        img,
                        random,
                        started,
                    );
                lemma_draws_beyond_need(img, random);
                lemma_draws_beyond_need(img, Seq::empty());
            }
            let conversion = match started {
                Ok(()) => Ok(Conversion::Color(converter)),
                Err(message) => Err(message),
            };
            proof {
                let random = choose|random: Seq<Color>|
                    random.len() == NUM_UNUSED_COLOR_ITERATIONS && #[trigger] converter.segments(
                        before,
                        img,
                        random,
                        started,
                    );
                assert(converted(img, config, random, conversion));
            }
            conversion
        },
        ColorMode::Binary => {
            let mut converter = BinaryImageConverter::new(params);
            converter.init(img);
            let conversion = Ok(Conversion::Binary(converter));
            proof {
                let random = Seq::new(NUM_UNUSED_COLOR_ITERATIONS as nat, |i: int| black());
                assert(converted(img, config, random, conversion));
            }
            conversion
        },
    }
}

} // verus!
