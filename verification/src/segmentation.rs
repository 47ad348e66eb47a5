//! The boundary to the segmentation engine: what it is handed, and what is
//! read of the regions that it finds.

use vstd::prelude::*;
use visioncortex::color_clusters::{Runner, RunnerConfig};
use visioncortex::ColorImage;
use crate::buffer::{color_at, PixelBuffer};
use crate::color::Color;
use crate::config::{ConverterConfig, Hierarchical};

verus! {

/// A segmentation pass of the engine that is under way; nothing is seen
/// inside it.
#[verifier::external_type_specification]
#[verifier::external_body]
pub struct ExIncrementalBuilder(visioncortex::color_clusters::IncrementalBuilder);

/// A pass of the engine that is set up and has not begun; nothing is seen
/// inside it.
#[verifier::external_type_specification]
#[verifier::external_body]
pub struct ExRunner(visioncortex::color_clusters::Runner);

/// The regions that the engine found in a color image; nothing is seen
/// inside them.
#[verifier::external_type_specification]
#[verifier::external_body]
pub struct ExColorClusters(visioncortex::color_clusters::Clusters);

/// The regions that the engine found in a two-level image; nothing is seen
/// inside them.
#[verifier::external_type_specification]
#[verifier::external_body]
pub struct ExBinaryClusters(visioncortex::clusters::Clusters);

/// What becomes of the pixels that have the key color.
#[derive(Debug, Clone, Copy, PartialEq, Eq, Structural)]
pub enum KeyingAction {
    Keep,
    Discard,
}

/// What one segmentation pass is tuned with.
#[derive(Debug, Clone, Copy, PartialEq, Eq, Structural)]
pub struct Tuning {
    /// Whether pixels that touch at a corner are neighbours.
    pub diagonal: bool,
    /// Up to which area regions are merged into a hierarchy.
    pub hierarchical: u32,
    /// Pixels that one step of the first half works through.
    pub batch_size: i32,
    pub good_min_area: usize,
    pub good_max_area: usize,
    /// Bits of a channel that are set aside when two colors are compared.
    pub is_same_color_a: i32,
    /// How far two channels may then be apart.
    pub is_same_color_b: i32,
    /// Color difference from which on a region gets a layer of its own.
    pub deepen_diff: i32,
    pub hollow_neighbours: usize,
    /// The key color; all zeros for none.
    pub key_color: Color,
    pub keying_action: KeyingAction,
}

/// A region as the conversion reads it: its size in pixels and the color
/// that fills it.
#[derive(Debug, Clone, Copy, PartialEq, Eq, Structural)]
pub struct Region {
    pub area: usize,
    pub color: Color,
}

/// What a segmentation under way holds: the image that it works on, the
/// tuning that it was started with, and how far it is.
pub struct Handle {
    /// Its result has not been taken.
    pub live: bool,
    pub pixels: Seq<u8>,
    pub width: usize,
    pub height: usize,
    pub tuning: Tuning,
    /// 1 in the first half of the pass, 2 in the second, 3 when it is done.
    pub stage: nat,
    /// The engine's count of the work done within the stage.
    pub iteration: nat,
    /// How far the pass says it is, in percent.
    pub percent: u32,
}

/// What a pass that is set up holds: the image that it will work on and
/// its tuning.
pub struct Job {
    pub pixels: Seq<u8>,
    pub width: usize,
    pub height: usize,
    pub tuning: Tuning,
}

impl Job {
    /// The image is well-formed and within the engine's limits, and the
    /// engine accepts the tuning.
    pub open spec fn sound(self) -> bool {
        &&& self.pixels.len() == self.width * self.height * 4
        &&& self.width <= u32::MAX
        &&& self.height <= u32::MAX
        &&& self.width * self.height <= MAX_PIXELS
        &&& self.tuning.accepted()
    }
}

impl Handle {
    /// The result has not been taken, the image is well-formed and within
    /// the engine's limits, and the engine accepts the tuning.
    pub open spec fn sound(self) -> bool {
        &&& self.live
        &&& self.pixels.len() == self.width * self.height * 4
        &&& self.width <= u32::MAX
        &&& self.height <= u32::MAX
        &&& self.width * self.height <= MAX_PIXELS
        &&& self.tuning.accepted()
    }

    /// The pass is at its end.
    pub open spec fn done(self) -> bool {
        self.stage >= 3
    }

    /// Both are states of one pass: on the same image, with the same tuning.
    pub open spec fn same_pass(self, other: Handle) -> bool {
        &&& self.live == other.live
        &&& self.pixels == other.pixels
        &&& self.width == other.width
        &&& self.height == other.height
        &&& self.tuning == other.tuning
    }
}

/// The most pixels that the engine's 32-bit sums of channel values hold.
pub const MAX_PIXELS: usize = 16_843_009;

/// The most regions of a two-level image that can begin at a pixel with
/// background above and to the left: the engine numbers them with 16 bits.
pub const MAX_SEEDS: usize = 65_534;

/// What a pass that is set up holds.
pub uninterp spec fn job(runner: visioncortex::color_clusters::Runner) -> Job;

/// The state of a segmentation under way.
pub uninterp spec fn handle(builder: visioncortex::color_clusters::IncrementalBuilder) -> Handle;

/// The regions of a finished segmentation, in the order in which the engine
/// lists them.
pub uninterp spec fn clustered(clusters: visioncortex::color_clusters::Clusters) -> Seq<Region>;

/// Width and height of the image that a finished segmentation is of.
pub uninterp spec fn extent(clusters: visioncortex::color_clusters::Clusters) -> (usize, usize);

/// The bytes of the image that a finished segmentation paints: each region
/// in its color.
pub uninterp spec fn painted(clusters: visioncortex::color_clusters::Clusters) -> Seq<u8>;

/// The sizes of the regions of a two-level image, in the order in which the
/// engine lists them.
pub uninterp spec fn binary_sizes(clusters: visioncortex::clusters::Clusters) -> Seq<nat>;

/// The regions that a whole pass of the engine finds in an image with this
/// tuning, in the order in which the engine lists them.
pub uninterp spec fn segmented(pixels: Seq<u8>, width: usize, height: usize, tuning: Tuning) -> Seq<
    Region,
>;

/// The bytes of the image that the regions of a whole pass paint.
pub uninterp spec fn repainted(pixels: Seq<u8>, width: usize, height: usize, tuning: Tuning) -> Seq<
    u8,
>;

/// The sizes of the regions that the engine finds in the two-level image of
/// an image, in the order in which the engine lists them; `diagonal` says
/// whether pixels that touch at a corner are neighbours.
pub uninterp spec fn binary_regions(pixels: Seq<u8>, width: usize, height: usize, diagonal: bool)
    -> Seq<nat>;

impl PixelBuffer {
    /// Well-formed, and within what the engine's 32-bit numbers hold.
    pub open spec fn segmentable(&self) -> bool {
        &&& self.wf()
        &&& self.width <= u32::MAX
        &&& self.height <= u32::MAX
        &&& self.width * self.height <= MAX_PIXELS
    }
}

impl Tuning {
    /// The engine accepts it: the number of bits set aside is within a
    /// channel, and a step works through at least one pixel.
    pub open spec fn accepted(self) -> bool {
        0 <= self.is_same_color_a < 8 && 0 < self.batch_size
    }

    /// Whether pixels are taken out of the image: there is a key color, and
    /// pixels that have it are discarded.
    pub open spec fn discards(self) -> bool {
        !self.key_color.is_zero() && self.keying_action == KeyingAction::Discard
    }
}

/// Whether some pixel differs from `key` in some channel.
pub open spec fn has_other_pixel(pixels: Seq<u8>, key: Color) -> bool {
    exists|i: int| 0 <= i < pixels.len() / 4 && #[trigger] color_at(pixels, i) != key
}

/// Whether the engine can say how far a pass on these pixels is: there are
/// pixels, and not all of them are discarded.
pub open spec fn progress_defined(pixels: Seq<u8>, tuning: Tuning) -> bool {
    pixels.len() / 4 > 0 && (!tuning.discards() || has_other_pixel(pixels, tuning.key_color))
}

/// The tuning of the first pass.
pub open spec fn first_pass(params: ConverterConfig, width: usize, height: usize, key: Color)
    -> Tuning {
    Tuning {
        diagonal: params.layer_difference == 0,
        hierarchical: u32::MAX,
        batch_size: 25600,
        good_min_area: params.filter_speckle_area,
        good_max_area: (width * height) as usize,
        is_same_color_a: params.color_precision_loss,
        is_same_color_b: 1,
        deepen_diff: params.layer_difference,
        hollow_neighbours: 1,
        key_color: key,
        keying_action: if params.hierarchical == Hierarchical::Cutout {
            KeyingAction::Keep
        } else {
            KeyingAction::Discard
        },
    }
}

/// The tuning of the second pass of the cutout mode: colors are compared as
/// they are, no layers are made and no region is too small.
pub open spec fn second_pass(width: usize, height: usize, key: Color) -> Tuning {
    Tuning {
        diagonal: false,
        hierarchical: 64,
        batch_size: 25600,
        good_min_area: 0,
        good_max_area: (width * height) as usize,
        is_same_color_a: 0,
        is_same_color_b: 1,
        deepen_diff: 0,
        hollow_neighbours: 0,
        key_color: key,
        keying_action: KeyingAction::Discard,
    }
}

/// Builds the tuning of the first pass.
pub fn first_pass_tuning(params: &ConverterConfig, width: usize, height: usize, key: Color) -> (tuning:
    Tuning)
    requires
        params.valid(),
        width * height <= usize::MAX,
    ensures
        tuning == first_pass(*params, width, height, key),
        tuning.accepted(),
{
    Tuning {
        diagonal: params.layer_difference == 0,
        hierarchical: u32::MAX,
        batch_size: 25600,
        good_min_area: params.filter_speckle_area,
        good_max_area: width * height,
        is_same_color_a: params.color_precision_loss,
        is_same_color_b: 1,
        deepen_diff: params.layer_difference,
        hollow_neighbours: 1,
        key_color: key,
        keying_action: match params.hierarchical {
            Hierarchical::Cutout => KeyingAction::Keep,
            Hierarchical::Stacked => KeyingAction::Discard,
        },
    }
}

/// Builds the tuning of the second pass of the cutout mode.
pub fn second_pass_tuning(width: usize, height: usize, key: Color) -> (tuning: Tuning)
    requires
        width * height <= usize::MAX,
    ensures
        tuning == second_pass(width, height, key),
        tuning.accepted(),
{
    Tuning {
        diagonal: false,
        hierarchical: 64,
        batch_size: 25600,
        good_min_area: 0,
        good_max_area: width * height,
        is_same_color_a: 0,
        is_same_color_b: 1,
        deepen_diff: 0,
        hollow_neighbours: 0,
        key_color: key,
        keying_action: KeyingAction::Discard,
    }
}

/// Whether some pixel of the image differs from `key` in some channel.
pub fn any_other_pixel(image: &PixelBuffer, key: Color) -> (found: bool)
    requires
        image.wf(),
    ensures
        found == has_other_pixel(image.pixels@, key),
{
    let len = image.pixels.len();
    let n = len / 4;
    let mut i: usize = 0;
    while i < n
        invariant
            len == image.pixels@.len(),
            n == len / 4,
            i <= n,
            forall|j: int| 0 <= j < i ==> #[trigger] color_at(image.pixels@, j) == key,
        decreases n - i,
    {
        let index = i * 4;
        if image.pixels[index] != key.r || image.pixels[index + 1] != key.g || image.pixels[index
            + 2] != key.b || image.pixels[index + 3] != key.a {
            assert(color_at(image.pixels@, i as int) != key);
            return true;
        }
        i = i + 1;
    }
    false
}

/// Whether the engine can say how far a pass on this image is.
pub fn can_report(image: &PixelBuffer, tuning: &Tuning) -> (ok: bool)
    requires
        image.wf(),
    ensures
        ok == progress_defined(image.pixels@, *tuning),
{
    let discards = !(tuning.key_color.r == 0 && tuning.key_color.g == 0 && tuning.key_color.b == 0
        && tuning.key_color.a == 0) && tuning.keying_action == KeyingAction::Discard;
    image.pixels.len() / 4 > 0 && (!discards || any_other_pixel(image, tuning.key_color))
}

/// `Runner::new`: a pass is set up with this image and this tuning. Nothing
/// is worked on yet.
#[verifier::external_body]
pub(crate) fn new_runner(image: PixelBuffer, tuning: &Tuning) -> (runner:
    visioncortex::color_clusters::Runner)
    ensures
        job(runner) == (Job {
            pixels: image.pixels@,
            width: image.width,
            height: image.height,
            tuning: *tuning,
        }),
{
    let key = tuning.key_color;
    let config = RunnerConfig {
        diagonal: tuning.diagonal, hierarchical: tuning.hierarchical,
        batch_size: tuning.batch_size, hollow_neighbours: tuning.hollow_neighbours,
        good_min_area: tuning.good_min_area, good_max_area: tuning.good_max_area,
        is_same_color_a: tuning.is_same_color_a, is_same_color_b: tuning.is_same_color_b,
        deepen_diff: tuning.deepen_diff,
        key_color: visioncortex::Color::new_rgba(key.r, key.g, key.b, key.a),
        keying_action: match tuning.keying_action {
            KeyingAction::Keep => visioncortex::color_clusters::KeyingAction::Keep,
            KeyingAction::Discard => visioncortex::color_clusters::KeyingAction::Discard,
        },
    };
    Runner::new(config, ColorImage { pixels: image.pixels, width: image.width, height: image.height })
}

/// `Runner::start`. The engine turns down a bit count of 8 or more, and its
/// 32-bit sums hold no more than `MAX_PIXELS` pixels: both are asked of the
/// caller. What comes back is a segmentation under way that holds the
/// image and the tuning of the pass, at the start of its first stage.
#[verifier::external_body]
pub(crate) fn start_segmentation(runner: visioncortex::color_clusters::Runner) -> (builder:
    visioncortex::color_clusters::IncrementalBuilder)
    requires
        job(runner).sound(),
    ensures
        handle(builder).live,
        handle(builder).pixels == job(runner).pixels,
        handle(builder).width == job(runner).width,
        handle(builder).height == job(runner).height,
        handle(builder).tuning == job(runner).tuning,
        handle(builder).stage == 1,
        handle(builder).iteration == 0,
{
    runner.start()
}

/// `Runner::run`: a whole pass, from its start to its end. The limits are
/// those of `start_segmentation`. What comes back are the regions that a
/// whole pass finds in the image with the tuning; the engine draws on
/// nothing else.
#[verifier::external_body]
pub(crate) fn run_segmentation(runner: visioncortex::color_clusters::Runner) -> (clusters:
    visioncortex::color_clusters::Clusters)
    requires
        job(runner).sound(),
    ensures
        extent(clusters) == (job(runner).width, job(runner).height),
        clustered(clusters) == segmented(
            job(runner).pixels,
            job(runner).width,
            job(runner).height,
            job(runner).tuning,
        ),
        painted(clusters) == repainted(
            job(runner).pixels,
            job(runner).width,
            job(runner).height,
            job(runner).tuning,
        ),
{
    runner.run()
}

/// `IncrementalBuilder::tick`: one bounded piece of work. It returns `true`
/// exactly when the pass was at its end already, and then changes nothing.
/// Otherwise it moves on, to a later stage or within the stage, on the
/// same image with the same tuning.
#[verifier::external_body]
pub(crate) fn tick_segmentation(builder: &mut visioncortex::color_clusters::IncrementalBuilder) -> (done:
    bool)
    requires
        handle(*old(builder)).sound(),
    ensures
        done == handle(*old(builder)).done(),
        done ==> handle(*final(builder)) == handle(*old(builder)),
        handle(*final(builder)).same_pass(handle(*old(builder))),
        handle(*final(builder)).stage >= handle(*old(builder)).stage,
        !done ==> handle(*final(builder)).stage != handle(*old(builder)).stage || handle(
            *final(builder),
        ).iteration != handle(*old(builder)).iteration,
{
    builder.tick()
}

/// `IncrementalBuilder::progress`: below 50 in the first half of a pass,
/// below 100 in the second, 100 when the pass is done. The engine divides by
/// the number of pixels, and later by the number of distinct region sizes,
/// so there must be pixels, and not all of them may be discarded.
#[verifier::external_body]
pub(crate) fn segmentation_progress(builder: &visioncortex::color_clusters::IncrementalBuilder) -> (percent:
    u32)
    requires
        handle(*builder).sound(),
        progress_defined(handle(*builder).pixels, handle(*builder).tuning),
    ensures
        percent == handle(*builder).percent,
        percent <= 100,
{
    builder.progress()
}

/// `IncrementalBuilder::result`: the regions found so far, of an image of the
/// size that the segmentation works on. Where the pass is at its end, they
/// are the regions that a whole pass finds: a whole pass is these steps
/// taken until the end. The segmentation is used up.
#[verifier::external_body]
pub(crate) fn finish_segmentation(builder: visioncortex::color_clusters::IncrementalBuilder) -> (clusters:
    visioncortex::color_clusters::Clusters)
    requires
        handle(builder).sound(),
    ensures
        extent(clusters) == (handle(builder).width, handle(builder).height),
        handle(builder).done() ==> clustered(clusters) == segmented(
            handle(builder).pixels,
            handle(builder).width,
            handle(builder).height,
            handle(builder).tuning,
        ),
        handle(builder).done() ==> painted(clusters) == repainted(
            handle(builder).pixels,
            handle(builder).width,
            handle(builder).height,
            handle(builder).tuning,
        ),
{
    let mut builder = builder;
    builder.result()
}

/// `Clusters::output_len`: the number of regions.
#[verifier::external_body]
pub(crate) fn region_count(clusters: &visioncortex::color_clusters::Clusters) -> (count: usize)
    ensures
        count == clustered(*clusters).len(),
{
    clusters.output_len()
}

/// The region at place `index` of the engine's list: `Cluster::area` and
/// `Cluster::residue_color` of the cluster that `ClustersView::get_cluster`
/// gives for that place.
#[verifier::external_body]
pub(crate) fn region_at(clusters: &visioncortex::color_clusters::Clusters, index: usize) -> (region:
    Region)
    requires
        index < clustered(*clusters).len(),
    ensures
        region == clustered(*clusters)[index as int],
{
    let view = clusters.view();
    let cluster = view.get_cluster(view.clusters_output[index]);
    let color = cluster.residue_color();
    Region { area: cluster.area(), color: Color { r: color.r, g: color.g, b: color.b, a: color.a } }
}

/// `ClustersView::to_color_image`: an image of the size that was segmented,
/// each region painted in its color. The size must be within the engine's
/// limits, as that of every image that was segmented is.
#[verifier::external_body]
pub(crate) fn merged_image(clusters: &visioncortex::color_clusters::Clusters) -> (image: PixelBuffer)
    requires
        extent(*clusters).0 <= u32::MAX,
        extent(*clusters).1 <= u32::MAX,
        extent(*clusters).0 * extent(*clusters).1 <= MAX_PIXELS,
    ensures
        image.wf(),
        image.width == extent(*clusters).0,
        image.height == extent(*clusters).1,
        image.pixels@ == painted(*clusters),
{
    let image = clusters.view().to_color_image();
    PixelBuffer { pixels: image.pixels, width: image.width, height: image.height }
}

/// Whether a pixel with this much red is foreground in the two-level image.
pub open spec fn foreground(red: u8) -> bool {
    red < 128
}

/// Whether a pixel with this much red is foreground in the two-level image.
pub fn is_foreground(red: u8) -> (fore: bool)
    ensures
        fore == foreground(red),
{
    red < 128
}

/// Whether a region may begin at pixel `i`: it is foreground, and neither
/// the pixel above it nor the pixel to its left is.
pub open spec fn is_seed(pixels: Seq<u8>, width: int, i: int) -> bool {
    &&& foreground(color_at(pixels, i).r)
    &&& !(i >= width && foreground(color_at(pixels, i - width).r))
    &&& !(i % width != 0 && foreground(color_at(pixels, i - 1).r))
}

/// Number of pixels among the first `n` at which a region may begin.
pub open spec fn seed_count(pixels: Seq<u8>, width: int, n: int) -> nat
    decreases n,
{
    if n <= 0 {
        0
    } else {
        seed_count(pixels, width, n - 1) + if is_seed(pixels, width, n - 1) {
            1nat
        } else {
            0nat
        }
    }
}

impl PixelBuffer {
    /// Number of pixels at which a region of the two-level image may begin.
    pub open spec fn seeds(&self) -> nat {
        seed_count(self.pixels@, self.width as int, self.pixels@.len() as int / 4)
    }
}

proof fn lemma_seed_count_bound(pixels: Seq<u8>, width: int, n: int)
    requires
        0 <= n,
    ensures
        seed_count(pixels, width, n) <= n,
    decreases n,
{
    if n > 0 {
        lemma_seed_count_bound(pixels, width, n - 1);
    }
}

/// Counts the pixels at which a region of the two-level image may begin.
pub fn count_seeds(image: &PixelBuffer) -> (count: usize)
    requires
        image.wf(),
    ensures
        count == image.seeds(),
{
    let len = image.pixels.len();
    let n = len / 4;
    let width = image.width;
    let mut count: usize = 0;
    let mut i: usize = 0;
    while i < n
        invariant
            len == image.pixels@.len(),
            n == len / 4,
            width == image.width,
            i <= n,
            image.wf(),
            count == seed_count(image.pixels@, width as int, i as int),
            count <= i,
        decreases n - i,
    {
        proof {
            lemma_seed_count_bound(image.pixels@, width as int, i as int);
            if width == 0 {
                assert(image.width * image.height * 4 == 0) by (nonlinear_arith)
                    requires
                        image.width == 0,
                ;
            }
            assert(0int % (width as int) == 0) by (nonlinear_arith)
                requires
                    width > 0,
            ;
        }
        let here = is_foreground(image.pixels[i * 4]);
        let above = i >= width && is_foreground(image.pixels[(i - width) * 4]);
        let left = i % width != 0 && is_foreground(image.pixels[(i - 1) * 4]);
        if here && !above && !left {
            count = count + 1;
        }
        i = i + 1;
    }
    count
}

/// `ColorImage::to_binary_image`, with the pixels that `is_foreground`
/// accepts as foreground, then `BinaryImage::to_clusters`, with or without
/// diagonal neighbours. The engine gives up at its 65535th region number;
/// it takes a new number at no pixel but a foreground pixel with
/// background above and to the left, so an image with at most `MAX_SEEDS`
/// such pixels is safe. What comes back are the regions of the image's
/// foreground; the engine draws on nothing else, and it keeps no region
/// without pixels.
#[verifier::external_body]
pub(crate) fn threshold_clusters(image: &PixelBuffer, diagonal: bool) -> (clusters:
    visioncortex::clusters::Clusters)
    requires
        image.wf(),
        image.seeds() <= MAX_SEEDS,
    ensures
        binary_sizes(clusters) == binary_regions(
            image.pixels@,
            image.width,
            image.height,
            diagonal,
        ),
        forall|i: int|
            0 <= i < binary_sizes(clusters).len() ==> #[trigger] binary_sizes(clusters)[i] >= 1,
{
    let image = ColorImage {
        pixels: image.pixels.clone(),
        width: image.width,
        height: image.height,
    };
    image.to_binary_image(|color| is_foreground(color.r)).to_clusters(diagonal)
}

/// `Clusters::len`: the number of regions.
#[verifier::external_body]
pub(crate) fn binary_region_count(clusters: &visioncortex::clusters::Clusters) -> (count: usize)
    ensures
        count == binary_sizes(*clusters).len(),
{
    clusters.len()
}

/// `Cluster::size` of the cluster that `Clusters::get_cluster` gives for
/// place `index`.
#[verifier::external_body]
pub(crate) fn binary_region_size(clusters: &visioncortex::clusters::Clusters, index: usize) -> (size:
    usize)
    requires
        index < binary_sizes(*clusters).len(),
    ensures
        size == binary_sizes(*clusters)[index as int],
{
    clusters.get_cluster(index).size()
}

} // verus!
