//! Emission: the regions of a segmentation are walked from the end of the
//! engine's list to its start, and each region that is large enough gets a
//! path, which is added to the output in that order.

use vstd::prelude::*;
use crate::color::Color;
use crate::segmentation::{
    binary_region_count,
    binary_region_size,
    binary_sizes,
    clustered,
    region_at,
    region_count,
    Region,
};
use crate::svg::{SvgFile, SvgPath};

verus! {

/// The regions that a segmentation found, of a color image or of a
/// two-level image.
pub enum RegionList {
    Color(visioncortex::color_clusters::Clusters),
    Binary(visioncortex::clusters::Clusters),
}

/// Opaque black, the color of every region of a two-level image.
pub open spec fn black() -> Color {
    Color { r: 0, g: 0, b: 0, a: 255 }
}

impl View for RegionList {
    type V = Seq<Region>;

    /// The regions in the engine's order. Those of a two-level image are
    /// black.
    open spec fn view(&self) -> Seq<Region> {
        match *self {
            RegionList::Color(clusters) => clustered(clusters),
            RegionList::Binary(clusters) => Seq::new(
                binary_sizes(clusters).len(),
                |i: int| Region { area: binary_sizes(clusters)[i] as usize, color: black() },
            ),
        }
    }
}

impl RegionList {
    /// Number of regions.
    pub fn len(&self) -> (count: usize)
        ensures
            count == self@.len(),
    {
        match self {
            RegionList::Color(clusters) => region_count(clusters),
            RegionList::Binary(clusters) => binary_region_count(clusters),
        }
    }

    /// The region at place `index` of the engine's list.
    pub fn region(&self, index: usize) -> (region: Region)
        requires
            index < self@.len(),
        ensures
            region == self@[index as int],
    {
        match self {
            RegionList::Color(clusters) => region_at(clusters, index),
            RegionList::Binary(clusters) => Region {
                area: binary_region_size(clusters, index),
                color: Color::black(),
            },
        }
    }
}

/// The place in the engine's list of the region that step `cursor` looks at:
/// the last region comes first.
pub open spec fn region_for(count: int, cursor: int) -> int {
    count - 1 - cursor
}

/// Whether step `cursor` asks for a path: there is a region left, and it has
/// at least `min_area` pixels.
pub open spec fn wanted(regions: Seq<Region>, min_area: usize, cursor: int) -> bool {
    0 <= cursor < regions.len() && regions[region_for(regions.len() as int, cursor)].area
        >= min_area
}

/// The places, in the engine's list, of the regions that the first `cursor`
/// steps asked a path for, in the order of the steps.
pub open spec fn planned_places(regions: Seq<Region>, min_area: usize, cursor: int) -> Seq<int>
    decreases cursor,
{
    if cursor <= 0 {
        Seq::empty()
    } else if wanted(regions, min_area, cursor - 1) {
        planned_places(regions, min_area, cursor - 1).push(
            region_for(regions.len() as int, cursor - 1),
        )
    } else {
        planned_places(regions, min_area, cursor - 1)
    }
}

/// The fill colors of the output after `cursor` steps.
pub open spec fn planned_fills(regions: Seq<Region>, min_area: usize, cursor: int) -> Seq<Color> {
    planned_places(regions, min_area, cursor).map_values(|r: int| regions[r].color)
}

/// The output after `cursor` steps taken one at a time, where the path of
/// the region at place `r` is `fit(r)`.
pub open spec fn sliced(
    regions: Seq<Region>,
    min_area: usize,
    fit: spec_fn(int) -> visioncortex::CompoundPath,
    cursor: int,
) -> Seq<SvgPath>
    decreases cursor,
{
    if cursor <= 0 {
        Seq::empty()
    } else if wanted(regions, min_area, cursor - 1) {
        let r = region_for(regions.len() as int, cursor - 1);
        sliced(regions, min_area, fit, cursor - 1).push(
            SvgPath { path: fit(r), color: regions[r].color },
        )
    } else {
        sliced(regions, min_area, fit, cursor - 1)
    }
}

/// The output of a conversion done in one go: the places of the engine's
/// list from the last to the first, those of large enough regions kept, each
/// with its path and its color.
pub open spec fn batch(
    regions: Seq<Region>,
    min_area: usize,
    fit: spec_fn(int) -> visioncortex::CompoundPath,
) -> Seq<SvgPath> {
    Seq::new(regions.len(), |k: int| region_for(regions.len() as int, k)).filter(
        |r: int| regions[r].area >= min_area,
    ).map_values(|r: int| SvgPath { path: fit(r), color: regions[r].color })
}

/// The fill colors of a sequence of paths.
pub open spec fn fills_of(paths: Seq<SvgPath>) -> Seq<Color> {
    Seq::new(paths.len(), |i: int| paths[i].color)
}

proof fn lemma_sliced_prefix(
    regions: Seq<Region>,
    min_area: usize,
    fit: spec_fn(int) -> visioncortex::CompoundPath,
    cursor: int,
)
    requires
        0 <= cursor <= regions.len(),
    ensures
        sliced(regions, min_area, fit, cursor) == Seq::new(
            regions.len(),
            |k: int| region_for(regions.len() as int, k),
        ).subrange(0, cursor).filter(|r: int| regions[r].area >= min_area).map_values(
            |r: int| SvgPath { path: fit(r), color: regions[r].color },
        ),
    decreases cursor,
{
    let places = Seq::new(regions.len(), |k: int| region_for(regions.len() as int, k));
    let keep = |r: int| regions[r].area >= min_area;
    let entry = |r: int| SvgPath { path: fit(r), color: regions[r].color };
    if cursor == 0 {
        reveal(Seq::filter);
    } else {
        lemma_sliced_prefix(regions, min_area, fit, cursor - 1);
        let before = places.subrange(0, cursor - 1);
        let r = places[cursor - 1];
        assert(places.subrange(0, cursor) =~= before.push(r));
        before.lemma_filter_push(r, keep);
    }
}

/// Taking the steps one at a time gives what the conversion in one go gives:
/// the same paths with the same colors in the same order.
pub proof fn lemma_sliced_matches_batch(
    regions: Seq<Region>,
    min_area: usize,
    fit: spec_fn(int) -> visioncortex::CompoundPath,
)
    ensures
        sliced(regions, min_area, fit, regions.len() as int) == batch(regions, min_area, fit),
{
    lemma_sliced_prefix(regions, min_area, fit, regions.len() as int);
    let places = Seq::new(regions.len(), |k: int| region_for(regions.len() as int, k));
    assert(places.subrange(0, regions.len() as int) =~= places);
}

/// The output of steps taken one at a time holds, for each place that a
/// path was asked for, the path and the color of the region at that place.
pub proof fn lemma_sliced_places(
    regions: Seq<Region>,
    min_area: usize,
    fit: spec_fn(int) -> visioncortex::CompoundPath,
    cursor: int,
)
    ensures
        sliced(regions, min_area, fit, cursor) == planned_places(
            regions,
            min_area,
            cursor,
        ).map_values(|r: int| SvgPath { path: fit(r), color: regions[r].color }),
    decreases cursor,
{
    let entry = |r: int| SvgPath { path: fit(r), color: regions[r].color };
    if cursor > 0 {
        lemma_sliced_places(regions, min_area, fit, cursor - 1);
    }
}

/// Every place that a path is asked for is a place of the list.
pub proof fn lemma_places_within(regions: Seq<Region>, min_area: usize, cursor: int)
    ensures
        forall|k: int|
            0 <= k < planned_places(regions, min_area, cursor).len() ==> 0 <= (
            #[trigger] planned_places(regions, min_area, cursor)[k]) < regions.len(),
    decreases cursor,
{
    if cursor > 0 {
        lemma_places_within(regions, min_area, cursor - 1);
        let before = planned_places(regions, min_area, cursor - 1);
        assert forall|k: int|
            0 <= k < planned_places(regions, min_area, cursor).len() implies 0 <= (
        #[trigger] planned_places(regions, min_area, cursor)[k]) < regions.len() by {
            if k < before.len() {
                assert(planned_places(regions, min_area, cursor)[k] == before[k]);
            }
        }
    }
}

/// The regions of a segmentation, how far they have been walked, and the
/// output so far.
pub struct Emission {
    regions: RegionList,
    cursor: usize,
    min_area: usize,
    output: SvgFile,
    finished: bool,
}

impl Emission {
    /// The regions in the engine's order.
    pub closed spec fn regions(&self) -> Seq<Region> {
        self.regions@
    }

    /// The handle that the regions are read from.
    pub closed spec fn list(&self) -> RegionList {
        self.regions
    }

    /// Number of steps taken.
    pub closed spec fn cursor(&self) -> int {
        self.cursor as int
    }

    /// The smallest size of a region that gets a path.
    pub closed spec fn min_area(&self) -> usize {
        self.min_area
    }

    /// The output so far.
    pub closed spec fn output(&self) -> SvgFile {
        self.output
    }

    /// A step has found that no region is left: the emission is over.
    pub closed spec fn finished(&self) -> bool {
        self.finished
    }

    /// No more steps were taken than there are regions, and the colors of
    /// the output are those of the large enough regions walked so far.
    pub closed spec fn wf(&self) -> bool {
        &&& self.cursor <= self.regions@.len()
        &&& self.finished ==> self.cursor == self.regions@.len()
        &&& fills_of(self.output.paths@) == planned_fills(
            self.regions@,
            self.min_area,
            self.cursor as int,
        )
    }

    /// The walk is within the list.
    pub proof fn lemma_bounds(&self)
        requires
            self.wf(),
        ensures
            0 <= self.cursor() <= self.regions().len(),
            self.finished() ==> self.done(),
    {
    }

    /// The output holds one path for each place that a path was asked for,
    /// in the color of the region at that place.
    pub proof fn lemma_output_colors(&self)
        requires
            self.wf(),
        ensures
            fills_of(self.output().paths@) == planned_fills(
                self.regions(),
                self.min_area(),
                self.cursor(),
            ),
            self.output().paths@.len() == planned_places(
                self.regions(),
                self.min_area(),
                self.cursor(),
            ).len(),
    {
        assert(fills_of(self.output().paths@).len() == self.output().paths@.len());
    }

    /// Where every path of the output is the one that `fit` gives for its
    /// place, the output is what the steps taken one at a time give, and,
    /// once every region has been walked, what the conversion in one go
    /// gives.
    pub proof fn lemma_output_is_sliced(&self, fit: spec_fn(int) -> visioncortex::CompoundPath)
        requires
            self.wf(),
            forall|k: int|
                0 <= k < self.output().paths@.len() ==> (#[trigger] self.output().paths@[k]).path
                    == fit(planned_places(self.regions(), self.min_area(), self.cursor())[k]),
        ensures
            self.output().paths@ == sliced(self.regions(), self.min_area(), fit, self.cursor()),
            self.done() ==> self.output().paths@ == batch(self.regions(), self.min_area(), fit),
    {
        let regions = self.regions();
        let places = planned_places(regions, self.min_area(), self.cursor());
        let paths = self.output().paths@;
        self.lemma_output_colors();
        lemma_sliced_places(regions, self.min_area(), fit, self.cursor());
        let entry = |r: int| SvgPath { path: fit(r), color: regions[r].color };
        assert forall|k: int| 0 <= k < paths.len() implies paths[k] == places.map_values(
            entry,
        )[k] by {
            assert(planned_fills(regions, self.min_area(), self.cursor())[k]
                == regions[places[k]].color);
        }
        if self.done() {
            lemma_sliced_matches_batch(regions, self.min_area(), fit);
        }
    }

    /// The regions are those of the handle that they are read from.
    pub proof fn lemma_list(&self)
        ensures
            self.list()@ == self.regions(),
    {
    }

    /// Every region has been walked.
    pub open spec fn done(&self) -> bool {
        self.cursor() == self.regions().len()
    }

    /// Starts at the end of the list, with no paths.
    pub fn new(
        regions: RegionList,
        min_area: usize,
        width: usize,
        height: usize,
        path_precision: Option<u32>,
    ) -> (emission: Emission)
        ensures
            emission.wf(),
            emission.list() == regions,
            emission.regions() == regions@,
            emission.cursor() == 0,
            !emission.finished(),
            emission.min_area() == min_area,
            emission.output().paths@.len() == 0,
            emission.output().width == width,
            emission.output().height == height,
            emission.output().path_precision == path_precision,
    {
        let output = SvgFile::new(width, height, path_precision);
        assert(fills_of(output.paths@) =~= planned_fills(regions@, min_area, 0));
        Emission { regions, cursor: 0, min_area, output, finished: false }
    }

    /// Number of regions.
    pub fn count(&self) -> (count: usize)
        ensures
            count == self.regions().len(),
    {
        self.regions.len()
    }

    /// Number of steps taken.
    pub fn steps(&self) -> (steps: usize)
        requires
            self.wf(),
        ensures
            steps == self.cursor(),
            steps <= self.regions().len(),
    {
        self.cursor
    }

    /// The place of the region whose path is asked for next; `None` when
    /// the next region is too small, or none is left.
    pub fn request(&self) -> (place: Option<usize>)
        requires
            self.wf(),
        ensures
            place == if wanted(self.regions(), self.min_area(), self.cursor()) {
                Some(region_for(self.regions().len() as int, self.cursor()) as usize)
            } else {
                None
            },
            place matches Some(r) ==> r == self.regions().len() - 1 - self.cursor(),
    {
        let count = self.regions.len();
        if self.cursor < count {
            let place = count - 1 - self.cursor;
            if self.regions.region(place).area >= self.min_area {
                Some(place)
            } else {
                None
            }
        } else {
            None
        }
    }

    /// Takes the path that was asked for: it is added to the output with
    /// the color of its region, and the walk moves on by one region.
    pub fn supply(&mut self, path: visioncortex::CompoundPath)
        requires
            old(self).wf(),
            wanted(old(self).regions(), old(self).min_area(), old(self).cursor()),
        ensures
            final(self).wf(),
            final(self).list() == old(self).list(),
            final(self).regions() == old(self).regions(),
            final(self).min_area() == old(self).min_area(),
            final(self).cursor() == old(self).cursor() + 1,
            !final(self).finished(),
            final(self).output().paths@ == old(self).output().paths@.push(
                SvgPath {
                    path,
                    color: old(self).regions()[region_for(
                        old(self).regions().len() as int,
                        old(self).cursor(),
                    )].color,
                },
            ),
            final(self).output().width == old(self).output().width,
            final(self).output().height == old(self).output().height,
            final(self).output().path_precision == old(self).output().path_precision,
    {
        let count = self.regions.len();
        let place = count - 1 - self.cursor;
        let color = self.regions.region(place).color;
        let ghost before = planned_places(self.regions@, self.min_area, self.cursor as int);
        self.output.add_path(path, color);
        self.cursor = self.cursor + 1;
        let ghost regions = self.regions@;
        assert(before.push(place as int).map_values(|r: int| regions[r].color)
            =~= before.map_values(|r: int| regions[r].color).push(color));
        assert(fills_of(self.output.paths@) =~= planned_fills(
            self.regions@,
            self.min_area,
            self.cursor as int,
        ));
    }

    /// Moves on without a path: past a region that is too small, or, when no
    /// region is left, to the end of the emission. Returns whether no region
    /// was left. The output stays as it is. After the end no step is taken.
    pub fn advance(&mut self) -> (finished: bool)
        requires
            old(self).wf(),
            !old(self).finished(),
            !wanted(old(self).regions(), old(self).min_area(), old(self).cursor()),
        ensures
            final(self).wf(),
            finished == old(self).done(),
            final(self).finished() == finished,
            final(self).list() == old(self).list(),
            final(self).regions() == old(self).regions(),
            final(self).min_area() == old(self).min_area(),
            final(self).cursor() == if finished {
                old(self).cursor()
            } else {
                old(self).cursor() + 1
            },
            final(self).output() == old(self).output(),
    {
        let count = self.regions.len();
        if self.cursor < count {
            self.cursor = self.cursor + 1;
            false
        } else {
            self.finished = true;
            true
        }
    }

    /// Every path of the output is one that `fit` gives for the place that
    /// it was asked for.
    pub open spec fn fitted_by<F: Fn(&RegionList, usize) -> visioncortex::CompoundPath>(
        &self,
        fit: &F,
    ) -> bool {
        forall|k: int|
            0 <= k < self.output().paths@.len() ==> fit.ensures(
                (
                    &self.list(),
                    planned_places(self.regions(), self.min_area(), self.cursor())[k] as usize,
                ),
                (#[trigger] self.output().paths@[k]).path,
            )
    }

    /// Walks all the regions at once, with `fit` fitting each path that is
    /// asked for: every step of the emission is taken, up to the one that
    /// finds no region left.
    pub fn run<F: Fn(&RegionList, usize) -> visioncortex::CompoundPath>(&mut self, fit: &F)
        requires
            old(self).wf(),
            !old(self).finished(),
            old(self).fitted_by(fit),
            forall|place: usize|
                place < old(self).regions().len() ==> fit.requires((&old(self).list(), place)),
        ensures
            final(self).wf(),
            final(self).finished(),
            final(self).done(),
            final(self).list() == old(self).list(),
            final(self).regions() == old(self).regions(),
            final(self).min_area() == old(self).min_area(),
            final(self).output().width == old(self).output().width,
            final(self).output().height == old(self).output().height,
            final(self).output().path_precision == old(self).output().path_precision,
            final(self).fitted_by(fit),
    {
        let mut over = false;
        while !over
            invariant
                self.wf(),
                self.finished() == over,
                self.list() == old(self).list(),
                self.regions() == old(self).regions(),
                self.min_area() == old(self).min_area(),
                self.output().width == old(self).output().width,
                self.output().height == old(self).output().height,
                self.output().path_precision == old(self).output().path_precision,
                self.fitted_by(fit),
                forall|place: usize|
                    place < self.regions().len() ==> fit.requires((&self.list(), place)),
            decreases self.regions().len() - self.cursor() + if over { 0int } else { 1int },
        {
            proof {
                self.lemma_bounds();
                self.lemma_output_colors();
            }
            let ghost before = *self;
            match self.request() {
                Some(place) => {
                    let path = fit(&self.regions, place);
                    self.supply(path);
                    assert(planned_places(self.regions(), self.min_area(), self.cursor())
                        == planned_places(before.regions(), before.min_area(), before.cursor()).push(
                        place as int,
                    ));
                },
                None => {
                    over = self.advance();
                },
            }
        }
    }

    /// Whether the emission is over.
    pub fn is_finished(&self) -> (finished: bool)
        ensures
            finished == self.finished(),
    {
        self.finished
    }

    /// The handle that the regions are read from, for the one who fits the
    /// paths.
    pub fn region_list(&self) -> (list: &RegionList)
        ensures
            *list == self.list(),
            list@ == self.regions(),
    {
        &self.regions
    }

    /// The output so far.
    pub fn output_so_far(&self) -> (output: &SvgFile)
        ensures
            *output == self.output(),
    {
        &self.output
    }

    /// Ends the emission and hands out the output.
    pub fn into_output(self) -> (output: SvgFile)
        ensures
            output == self.output(),
    {
        self.output
    }
}

} // verus!
