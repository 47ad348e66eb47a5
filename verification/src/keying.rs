//! Transparency keying: fully transparent pixels are painted in a color that
//! the image does not use, so that a segmentation that ignores alpha can set
//! them apart.

use vstd::prelude::*;
use crate::buffer::{color_at, PixelBuffer};
use crate::color::Color;
use crate::random::random_colors;

verus! {

/// How many randomly drawn colors are tried after the six saturated ones.
pub const NUM_UNUSED_COLOR_ITERATIONS: usize = 6;

/// Number of fully transparent pixels among the first `n` pixels of row `y`.
pub open spec fn transparent_in_row(pixels: Seq<u8>, width: int, y: int, n: int) -> nat
    decreases n,
{
    if n <= 0 {
        0
    } else {
        transparent_in_row(pixels, width, y, n - 1) + if color_at(pixels, y * width + n - 1).a
            == 0 {
            1nat
        } else {
            0nat
        }
    }
}

/// The `k`-th of the five rows that are looked at: the top row, the rows at a
/// quarter, a half and three quarters of the height, and the bottom row.
pub open spec fn sample_row(height: int, k: int) -> int {
    if k == 0 {
        0
    } else if k == 1 {
        height / 4
    } else if k == 2 {
        height / 2
    } else if k == 3 {
        3 * height / 4
    } else {
        height - 1
    }
}

/// Number of fully transparent pixels in the first `k` sample rows. A row that
/// is sampled twice counts twice.
pub open spec fn transparent_sampled(pixels: Seq<u8>, width: int, height: int, k: int) -> nat
    decreases k,
{
    if k <= 0 {
        0
    } else {
        transparent_sampled(pixels, width, height, k - 1) + transparent_in_row(
            pixels,
            width,
            sample_row(height, k - 1),
            width,
        )
    }
}

/// A fifth of two rows' worth of pixels, rounded up.
pub open spec fn keying_threshold(width: int) -> int {
    (2 * width + 4) / 5
}

/// Whether an image is keyed: it has pixels, and the transparent pixels of its
/// five sample rows reach the threshold.
pub open spec fn should_key(img: PixelBuffer) -> bool {
    !img.is_empty() && transparent_sampled(
        img.pixels@,
        img.width as int,
        img.height as int,
        5,
    ) >= keying_threshold(img.width as int)
}

/// Whether some pixel has the red, green and blue of `color`.
pub open spec fn color_occurs(pixels: Seq<u8>, color: Color) -> bool {
    exists|i: int| 0 <= i < pixels.len() / 4 && #[trigger] color_at(pixels, i).same_rgb(color)
}

/// Red, green, blue, yellow, cyan, magenta: the colors tried first, in this order.
pub open spec fn special_colors() -> Seq<Color> {
    seq![
        Color { r: 255, g: 0, b: 0, a: 255 },
        Color { r: 0, g: 255, b: 0, a: 255 },
        Color { r: 0, g: 0, b: 255, a: 255 },
        Color { r: 255, g: 255, b: 0, a: 255 },
        Color { r: 0, g: 255, b: 255, a: 255 },
        Color { r: 255, g: 0, b: 255, a: 255 },
    ]
}

/// Whether a color has no red, no green and no blue.
pub open spec fn is_black(color: Color) -> bool {
    color.r == 0 && color.g == 0 && color.b == 0
}

/// The first of `candidates` that does not occur in the image, if there is one.
pub open spec fn first_unused(pixels: Seq<u8>, candidates: Seq<Color>) -> Option<Color>
    decreases candidates.len(),
{
    if candidates.len() == 0 {
        None
    } else if !color_occurs(pixels, candidates[0]) {
        Some(candidates[0])
    } else {
        first_unused(pixels, candidates.drop_first())
    }
}

/// The text of the failure when every candidate occurs in the image.
pub open spec fn no_unused_color_message() -> Seq<char> {
    "unable to find unused color in image to use as key"@
}

/// The pixels after keying the first `n` pixels with `key`: such a pixel with
/// alpha 0 has the red, green and blue of `key`; every other byte is as it was.
pub open spec fn keyed_upto(pixels: Seq<u8>, key: Color, n: int) -> Seq<u8> {
    Seq::new(
        pixels.len(),
        |j: int|
            if j / 4 < n && j / 4 < pixels.len() / 4 && pixels[4 * (j / 4) + 3] == 0 {
                if j % 4 == 0 {
                    key.r
                } else if j % 4 == 1 {
                    key.g
                } else if j % 4 == 2 {
                    key.b
                } else {
                    pixels[j]
                }
            } else {
                pixels[j]
            },
    )
}

/// The pixels after keying the whole image with `key`.
pub open spec fn keyed(pixels: Seq<u8>, key: Color) -> Seq<u8> {
    keyed_upto(pixels, key, pixels.len() as int / 4)
}

proof fn lemma_row_count_monotonic(pixels: Seq<u8>, width: int, y: int, n: int, m: int)
    requires
        n <= m,
    ensures
        transparent_in_row(pixels, width, y, n) <= transparent_in_row(pixels, width, y, m),
    decreases m,
{
    if n < m && m > 0 {
        lemma_row_count_monotonic(pixels, width, y, n, m - 1);
    }
}

proof fn lemma_sampled_monotonic(pixels: Seq<u8>, width: int, height: int, k: int, m: int)
    requires
        k <= m,
    ensures
        transparent_sampled(pixels, width, height, k) <= transparent_sampled(
            pixels,
            width,
            height,
            m,
        ),
    decreases m,
{
    if k < m && m > 0 {
        lemma_sampled_monotonic(pixels, width, height, k, m - 1);
    }
}

/// The dimensions of a well-formed buffer with pixels leave room for the
/// arithmetic on rows and columns.
proof fn lemma_dimensions(img: PixelBuffer)
    requires
        img.wf(),
        !img.is_empty(),
        img.pixels@.len() <= usize::MAX,
    ensures
        4 * img.width <= usize::MAX,
        4 * img.height <= usize::MAX,
        img.width * img.height <= usize::MAX,
{
    let w = img.width as int;
    let h = img.height as int;
    assert(w * 4 <= w * h * 4) by (nonlinear_arith)
        requires
            w >= 1,
            h >= 1,
    ;
    assert(h * 4 <= w * h * 4) by (nonlinear_arith)
        requires
            w >= 1,
            h >= 1,
    ;
    assert(w * h <= w * h * 4) by (nonlinear_arith)
        requires
            w >= 1,
            h >= 1,
    ;
}

fn sample_row_of(height: usize, k: usize) -> (y: usize)
    requires
        0 < height,
        4 * height <= usize::MAX,
        k < 5,
    ensures
        y == sample_row(height as int, k as int),
        y < height,
{
    if k == 0 {
        0
    } else if k == 1 {
        height / 4
    } else if k == 2 {
        height / 2
    } else if k == 3 {
        3 * height / 4
    } else {
        height - 1
    }
}

/// Decides whether an image is keyed, from five of its rows.
pub fn should_key_image(img: &PixelBuffer) -> (key: bool)
    requires
        img.wf(),
    ensures
        key == should_key(*img),
        img.is_empty() ==> !key,
{
    if img.width == 0 || img.height == 0 {
        return false;
    }
    let width = img.width;
    let height = img.height;
    let len = img.pixels.len();
    proof {
        lemma_dimensions(*img);
    }
    let threshold = (2 * width + 4) / 5;
    let mut count: usize = 0;
    let mut k: usize = 0;
    while k < 5
        invariant
            img.wf(),
            width == img.width,
            height == img.height,
            0 < width,
            0 < height,
            4 * width <= usize::MAX,
            4 * height <= usize::MAX,
            threshold == keying_threshold(width as int),
            k <= 5,
            count == transparent_sampled(img.pixels@, width as int, height as int, k as int),
            count < threshold,
        decreases 5 - k,
    {
        let y = sample_row_of(height, k);
        let ghost before = count;
        let mut x: usize = 0;
        while x < width
            invariant
                img.wf(),
                width == img.width,
                height == img.height,
                y < height,
                y == sample_row(height as int, k as int),
                x <= width,
                k < 5,
                threshold == keying_threshold(width as int),
                before == transparent_sampled(img.pixels@, width as int, height as int, k as int),
                count == before + transparent_in_row(img.pixels@, width as int, y as int, x as int),
                count < threshold,
                4 * width <= usize::MAX,
            decreases width - x,
        {
            let pixel = img.get_pixel(x, y);
            if pixel.a == 0 {
                count = count + 1;
            }
            x = x + 1;
            if count >= threshold {
                proof {
                    lemma_row_count_monotonic(
                        img.pixels@,
                        width as int,
                        y as int,
                        x as int,
                        width as int,
                    );
                    lemma_sampled_monotonic(
                        img.pixels@,
                        width as int,
                        height as int,
                        k as int + 1,
                        5,
                    );
                }
                return true;
            }
        }
        k = k + 1;
    }
    false
}

/// Whether some pixel of the image has the red, green and blue of `color`.
pub fn color_exists_in_image(img: &PixelBuffer, color: Color) -> (found: bool)
    requires
        img.wf(),
    ensures
        found == color_occurs(img.pixels@, color),
{
    let len = img.pixels.len();
    let n = len / 4;
    let mut i: usize = 0;
    while i < n
        invariant
            len == img.pixels@.len(),
            n == len / 4,
            i <= n,
            forall|j: int| 0 <= j < i ==> !#[trigger] color_at(img.pixels@, j).same_rgb(color),
        decreases n - i,
    {
        let index = i * 4;
        if img.pixels[index] == color.r && img.pixels[index + 1] == color.g && img.pixels[index
            + 2] == color.b {
            assert(color_at(img.pixels@, i as int).same_rgb(color));
            return true;
        }
        i = i + 1;
    }
    false
}

/// The six saturated colors, in the order in which they are tried.
pub fn special_color_list() -> (list: Vec<Color>)
    ensures
        list@ == special_colors(),
{
    let mut list: Vec<Color> = Vec::new();
    list.push(Color::new(255, 0, 0));
    list.push(Color::new(0, 255, 0));
    list.push(Color::new(0, 0, 255));
    list.push(Color::new(255, 255, 0));
    list.push(Color::new(0, 255, 255));
    list.push(Color::new(255, 0, 255));
    list
}

/// What `first_unused` is on a list with one more candidate at its end.
proof fn lemma_first_unused_push(pixels: Seq<u8>, candidates: Seq<Color>, next: Color)
    ensures
        first_unused(pixels, candidates.push(next)) == if first_unused(pixels, candidates)
            is Some {
            first_unused(pixels, candidates)
        } else if color_occurs(pixels, next) {
            None
        } else {
            Some(next)
        },
    decreases candidates.len(),
{
    if candidates.len() == 0 {
        assert(candidates.push(next).drop_first() =~= candidates);
    } else {
        assert(candidates.push(next).drop_first() =~= candidates.drop_first().push(next));
        lemma_first_unused_push(pixels, candidates.drop_first(), next);
    }
}

/// What `first_unused` is on two lists, one after the other.
pub proof fn lemma_first_unused_concat(pixels: Seq<u8>, first: Seq<Color>, second: Seq<Color>)
    ensures
        first_unused(pixels, first + second) == if first_unused(pixels, first) is Some {
            first_unused(pixels, first)
        } else {
            first_unused(pixels, second)
        },
    decreases first.len(),
{
    if first.len() == 0 {
        assert(first + second =~= second);
    } else {
        assert((first + second).drop_first() =~= first.drop_first() + second);
        lemma_first_unused_concat(pixels, first.drop_first(), second);
    }
}

/// A color that `first_unused` returns is one of the candidates and does not
/// occur in the image; it returns none only if every candidate occurs.
pub proof fn lemma_first_unused_sound(pixels: Seq<u8>, candidates: Seq<Color>)
    ensures
        first_unused(pixels, candidates) matches Some(c) ==> candidates.contains(c)
            && !color_occurs(pixels, c),
        first_unused(pixels, candidates) is None <==> forall|k: int|
            0 <= k < candidates.len() ==> color_occurs(pixels, #[trigger] candidates[k]),
    decreases candidates.len(),
{
    if candidates.len() > 0 {
        let rest = candidates.drop_first();
        lemma_first_unused_sound(pixels, rest);
        if color_occurs(pixels, candidates[0]) {
            if first_unused(pixels, rest) is Some {
                let c = first_unused(pixels, rest)->Some_0;
                let k = choose|k: int| 0 <= k < rest.len() && rest[k] == c;
                assert(candidates[k + 1] == c);
                if forall|k: int|
                    0 <= k < candidates.len() ==> color_occurs(pixels, #[trigger] candidates[k]) {
                    assert forall|j: int| 0 <= j < rest.len() implies color_occurs(
                        pixels,
                        #[trigger] rest[j],
                    ) by {
                        assert(rest[j] == candidates[j + 1]);
                    }
                }
            } else {
                assert forall|k: int| 0 <= k < candidates.len() implies color_occurs(
                    pixels,
                    #[trigger] candidates[k],
                ) by {
                    if k > 0 {
                        assert(candidates[k] == rest[k - 1]);
                    }
                }
            }
        }
    }
}

/// Returns the first of `candidates` whose red, green and blue no pixel has.
pub fn first_unused_color(img: &PixelBuffer, candidates: &Vec<Color>) -> (found: Option<Color>)
    requires
        img.wf(),
    ensures
        found == first_unused(img.pixels@, candidates@),
{
    let mut k: usize = 0;
    while k < candidates.len()
        invariant
            img.wf(),
            k <= candidates.len(),
            first_unused(img.pixels@, candidates@.subrange(0, k as int)) is None,
        decreases candidates.len() - k,
    {
        let color = candidates[k];
        proof {
            lemma_first_unused_push(img.pixels@, candidates@.subrange(0, k as int), color);
            assert(candidates@.subrange(0, k as int).push(color) =~= candidates@.subrange(
                0,
                k as int + 1,
            ));
        }
        if !color_exists_in_image(img, color) {
            proof {
                lemma_first_unused_concat(
                    img.pixels@,
                    candidates@.subrange(0, k as int + 1),
                    candidates@.subrange(k as int + 1, candidates@.len() as int),
                );
                assert(candidates@.subrange(0, k as int + 1) + candidates@.subrange(
                    k as int + 1,
                    candidates@.len() as int,
                ) =~= candidates@);
            }
            return Some(color);
        }
        k = k + 1;
    }
    assert(candidates@.subrange(0, k as int) =~= candidates@);
    None
}

/// Picks a key color: the first of the six saturated colors that the image
/// does not use, else the first of `random` that the image does not use.
pub fn find_unused_color_among(img: &PixelBuffer, random: &Vec<Color>) -> (found: Result<
    Color,
    String,
>)
    requires
        img.wf(),
    ensures
        match first_unused(img.pixels@, special_colors() + random@) {
            Some(c) => found == Ok::<Color, String>(c),
            None => found matches Err(message) && message@ == no_unused_color_message(),
        },
        found matches Ok(c) ==> !color_occurs(img.pixels@, c),
{
    let special = special_color_list();
    proof {
        lemma_first_unused_concat(img.pixels@, special_colors(), random@);
        lemma_first_unused_sound(img.pixels@, special_colors() + random@);
    }
    match first_unused_color(img, &special) {
        Some(c) => Ok(c),
        None => match first_unused_color(img, random) {
            Some(c) => Ok(c),
            None => Err(
                String::from_str("unable to find unused color in image to use as key"),
            ),
        },
    }
}

/// What `find_unused_color_among` returns for an image and a list of drawn
/// colors.
pub open spec fn found_among(pixels: Seq<u8>, random: Seq<Color>, found: Result<Color, String>)
    -> bool {
    match first_unused(pixels, special_colors() + random) {
        Some(c) => found == Ok::<Color, String>(c),
        None => found matches Err(message) && message@ == no_unused_color_message(),
    }
}

/// Picks a key color: the first of the six saturated colors that the image
/// does not use; if it uses them all, the first of six colors drawn at
/// random that the image does not use. Fails when those occur in the image
/// too.
pub fn find_unused_color_in_image(img: &PixelBuffer) -> (found: Result<Color, String>)
    requires
        img.wf(),
    ensures
        exists|random: Seq<Color>|
            random.len() == NUM_UNUSED_COLOR_ITERATIONS && #[trigger] found_among(
                img.pixels@,
                random,
                found,
            ),
        found matches Ok(c) ==> !color_occurs(img.pixels@, c),
        first_unused(img.pixels@, special_colors()) matches Some(c) ==> found == Ok::<
            Color,
            String,
        >(c),
        found matches Err(message) ==> message@ == no_unused_color_message() && first_unused(
            img.pixels@,
            special_colors(),
        ) is None,
{
    let random = random_colors(NUM_UNUSED_COLOR_ITERATIONS);
    proof {
        lemma_first_unused_concat(img.pixels@, special_colors(), random@);
    }
    let found = find_unused_color_among(img, &random);
    assert(found_among(img.pixels@, random@, found));
    found
}

/// Paints every fully transparent pixel in the red, green and blue of `key`.
/// Alpha stays as it is.
pub fn apply_key(img: &mut PixelBuffer, key: Color)
    requires
        old(img).wf(),
    ensures
        final(img).pixels@ == keyed(old(img).pixels@, key),
        final(img).width == old(img).width,
        final(img).height == old(img).height,
        final(img).wf(),
{
    let len = img.pixels.len();
    let n = len / 4;
    let mut i: usize = 0;
    while i < n
        invariant
            len == old(img).pixels@.len(),
            n == len / 4,
            i <= n,
            img.width == old(img).width,
            img.height == old(img).height,
            img.pixels@ == keyed_upto(old(img).pixels@, key, i as int),
        decreases n - i,
    {
        let index = i * 4;
        if img.pixels[index + 3] == 0 {
            img.pixels.set(index, key.r);
            img.pixels.set(index + 1, key.g);
            img.pixels.set(index + 2, key.b);
        }
        i = i + 1;
    }
}

/// Keying twice with one color is keying once.
pub proof fn lemma_keying_idempotent(pixels: Seq<u8>, key: Color)
    ensures
        keyed(keyed(pixels, key), key) == keyed(pixels, key),
{
}

/// After keying, a pixel is fully transparent exactly if it was before, and
/// then it has the red, green and blue of the key.
pub proof fn lemma_keyed_pixels(pixels: Seq<u8>, key: Color, i: int)
    requires
        0 <= i < pixels.len() / 4,
    ensures
        color_at(keyed(pixels, key), i).a == color_at(pixels, i).a,
        color_at(pixels, i).a == 0 ==> color_at(keyed(pixels, key), i).same_rgb(key),
        color_at(pixels, i).a != 0 ==> color_at(keyed(pixels, key), i) == color_at(pixels, i),
{
}

/// An image is keyed when a fifth of the pixels of its five sample rows are
/// fully transparent.
pub proof fn lemma_fifth_transparent_is_keyed(img: PixelBuffer)
    requires
        img.wf(),
        !img.is_empty(),
        100 * transparent_sampled(img.pixels@, img.width as int, img.height as int, 5) >= 20 * (5
            * img.width),
    ensures
        should_key(img),
{
}

/// An image without a fully transparent pixel in its five sample rows is not
/// keyed.
pub proof fn lemma_opaque_samples_not_keyed(img: PixelBuffer)
    requires
        img.wf(),
        transparent_sampled(img.pixels@, img.width as int, img.height as int, 5) == 0,
    ensures
        !should_key(img),
{
}

} // verus!
