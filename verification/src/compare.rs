//! Pixel-level comparison of two RGBA images.
//!
//! `compare_images` gathers the exact integer statistics of the
//! per-channel differences; `diff_pixels` paints a heat map of them.

use vstd::prelude::*;

verus! {

/// Per-channel soft threshold for "different enough to count".
pub const SOFT_THRESHOLD: u8 = 5;

/// Factor by which a difference is amplified in the heat map.
pub const AMPLIFICATION: u8 = 10;

/// Green level of a matching pixel in the heat map.
pub const MATCH_GREEN: u8 = 128;

/// Statistics of the difference of two RGBA images.
///
/// The root mean square error of the images is the square root of
/// `sum_squares / (4 * pixel_count)`, and the share of differing pixels
/// is `diff_count / pixel_count`.
#[derive(Clone, Copy, Debug, PartialEq, Eq, Structural)]
pub struct CompareResult {
    /// Sum over all channels of the squared difference.
    pub sum_squares: u64,
    /// Maximum per-channel difference.
    pub max_diff: u8,
    /// Number of pixels with a channel that differs by more than the
    /// soft threshold.
    pub diff_count: usize,
    /// Number of pixels of each image.
    pub pixel_count: usize,
}

/// Distance between two channel values.
pub open spec fn channel_diff(a: u8, e: u8) -> int {
    if a >= e {
        a - e
    } else {
        e - a
    }
}

/// Sum of the squared differences of the first `n` channels.
pub open spec fn sum_squares(actual: Seq<u8>, expected: Seq<u8>, n: int) -> int
    decreases n,
{
    if n <= 0 {
        0
    } else {
        sum_squares(actual, expected, n - 1) + channel_diff(actual[n - 1], expected[n - 1])
            * channel_diff(actual[n - 1], expected[n - 1])
    }
}

/// Largest difference among the first `n` channels; 0 for none.
pub open spec fn max_diff(actual: Seq<u8>, expected: Seq<u8>, n: int) -> int
    decreases n,
{
    if n <= 0 {
        0
    } else if channel_diff(actual[n - 1], expected[n - 1]) > max_diff(actual, expected, n - 1) {
        channel_diff(actual[n - 1], expected[n - 1])
    } else {
        max_diff(actual, expected, n - 1)
    }
}

/// Whether one of the four channels of pixel `i` differs by more than
/// the soft threshold.
pub open spec fn pixel_exceeds(actual: Seq<u8>, expected: Seq<u8>, i: int) -> bool {
    ||| channel_diff(actual[4 * i], expected[4 * i]) > SOFT_THRESHOLD
    ||| channel_diff(actual[4 * i + 1], expected[4 * i + 1]) > SOFT_THRESHOLD
    ||| channel_diff(actual[4 * i + 2], expected[4 * i + 2]) > SOFT_THRESHOLD
    ||| channel_diff(actual[4 * i + 3], expected[4 * i + 3]) > SOFT_THRESHOLD
}

/// Number of pixels among the first `n` that exceed the soft threshold.
pub open spec fn exceeding_pixels(actual: Seq<u8>, expected: Seq<u8>, n: int) -> int
    decreases n,
{
    if n <= 0 {
        0
    } else if pixel_exceeds(actual, expected, n - 1) {
        exceeding_pixels(actual, expected, n - 1) + 1
    } else {
        exceeding_pixels(actual, expected, n - 1)
    }
}

/// Largest difference among the red, green and blue channels of pixel
/// `i`; the alpha channel does not count.
pub open spec fn color_diff(actual: Seq<u8>, expected: Seq<u8>, i: int) -> int {
    let dr = channel_diff(actual[4 * i], expected[4 * i]);
    let dg = channel_diff(actual[4 * i + 1], expected[4 * i + 1]);
    let db = channel_diff(actual[4 * i + 2], expected[4 * i + 2]);
    if dr >= dg && dr >= db {
        dr
    } else if dg >= db {
        dg
    } else {
        db
    }
}

/// The heat-map pixel of a colour difference `d`: green where the
/// difference is within the soft threshold, otherwise red with ten
/// times the difference, capped at 255. The pixel is opaque.
pub open spec fn heat_pixel(d: int) -> Seq<u8> {
    if d <= SOFT_THRESHOLD {
        seq![0u8, MATCH_GREEN, 0u8, 255u8]
    } else if d * AMPLIFICATION >= 255 {
        seq![255u8, 0u8, 0u8, 255u8]
    } else {
        seq![(d * AMPLIFICATION) as u8, 0u8, 0u8, 255u8]
    }
}

/// The heat map of the whole pixels of `actual`.
pub open spec fn diff_image(actual: Seq<u8>, expected: Seq<u8>) -> Seq<u8> {
    Seq::new(
        (actual.len() / 4 * 4) as nat,
        |k: int| heat_pixel(color_diff(actual, expected, k / 4))[k % 4],
    )
}

/// Whether `expected_len` bytes hold the colour channels of the first
/// `pixel_count` pixels.
pub open spec fn holds_colors(expected_len: int, pixel_count: int) -> bool {
    pixel_count > 0 ==> expected_len >= 4 * pixel_count - 1
}

/// The statistics are bounded: no difference exceeds the maximum, the
/// maximum is 0 or the difference of some channel, and no more pixels
/// exceed the threshold than there are.
pub proof fn lemma_statistics_bounds(actual: Seq<u8>, expected: Seq<u8>, n: int)
    requires
        0 <= n,
    ensures
        0 <= max_diff(actual, expected, n) <= 255,
        forall|k: int|
            0 <= k < n ==> #[trigger] channel_diff(actual[k], expected[k]) <= max_diff(
                actual,
                expected,
                n,
            ),
        n > 0 ==> exists|k: int|
            0 <= k < n && #[trigger] channel_diff(actual[k], expected[k]) == max_diff(
                actual,
                expected,
                n,
            ),
        0 <= sum_squares(actual, expected, n) <= 65025 * n,
        0 <= exceeding_pixels(actual, expected, n) <= n,
    decreases n,
{
    if n > 0 {
        lemma_statistics_bounds(actual, expected, n - 1);
        let d = channel_diff(actual[n - 1], expected[n - 1]);
        assert(0 <= d * d <= 65025) by (nonlinear_arith)
            requires
                0 <= d <= 255,
        ;
        if n > 1 && d <= max_diff(actual, expected, n - 1) {
            let k = choose|k: int|
                0 <= k < n - 1 && #[trigger] channel_diff(actual[k], expected[k]) == max_diff(
                    actual,
                    expected,
                    n - 1,
                );
            assert(channel_diff(actual[k], expected[k]) == max_diff(actual, expected, n));
        } else {
            assert(channel_diff(actual[n - 1], expected[n - 1]) == max_diff(actual, expected, n));
        }
    }
}

/// Two equal images differ nowhere.
pub proof fn lemma_identical_images(image: Seq<u8>, n: int)
    requires
        0 <= n,
    ensures
        sum_squares(image, image, n) == 0,
        max_diff(image, image, n) == 0,
        exceeding_pixels(image, image, n) == 0,
    decreases n,
{
    if n > 0 {
        lemma_identical_images(image, n - 1);
    }
}

fn abs_diff(a: u8, e: u8) -> (d: u8)
    ensures
        d == channel_diff(a, e),
{
    if a >= e {
        a - e
    } else {
        e - a
    }
}

/// Compares two RGBA pixel buffers of `width` by `height` pixels and
/// returns the statistics of their difference.
pub fn compare_images(actual: &[u8], expected: &[u8], width: u32, height: u32) -> (result:
    CompareResult)
    requires
        width * height <= u32::MAX,
        actual@.len() == width * height * 4,
        expected@.len() == width * height * 4,
    ensures
        result.pixel_count == width * height,
        result.sum_squares == sum_squares(actual@, expected@, 4 * (width * height)),
        result.max_diff == max_diff(actual@, expected@, 4 * (width * height)),
        result.diff_count == exceeding_pixels(actual@, expected@, width * height),
{
    let len = actual.len();
    let pixel_count = (width * height) as usize;
    let mut sum_sq: u64 = 0;
    let mut max_d: u8 = 0;
    let mut diff_count: usize = 0;
    let mut i: usize = 0;
    while i < pixel_count
        invariant
            0 <= i <= pixel_count,
            pixel_count == width * height,
            pixel_count <= u32::MAX,
            len == actual@.len() == pixel_count * 4,
            expected@.len() == pixel_count * 4,
            sum_sq == sum_squares(actual@, expected@, 4 * i),
            max_d == max_diff(actual@, expected@, 4 * i),
            diff_count == exceeding_pixels(actual@, expected@, i as int),
        decreases pixel_count - i,
    {
        let off = i * 4;
        let mut exceeds = false;
        let mut c: usize = 0;
        while c < 4
            invariant
                0 <= c <= 4,
                i < pixel_count <= u32::MAX,
                off == i * 4,
                len == actual@.len() == pixel_count * 4,
                expected@.len() == pixel_count * 4,
                sum_sq == sum_squares(actual@, expected@, off + c),
                max_d == max_diff(actual@, expected@, off + c),
                exceeds == (exists|k: int|
                    0 <= k < c && #[trigger] channel_diff(actual@[off + k], expected@[off + k])
                        > SOFT_THRESHOLD),
            decreases 4 - c,
        {
            let d = abs_diff(actual[off + c], expected[off + c]);
            proof {
                lemma_statistics_bounds(actual@, expected@, off + c);
                assert(0 <= d * d <= 65025) by (nonlinear_arith)
                    requires
                        0 <= d <= 255,
                ;
            }
            sum_sq = sum_sq + (d as u64) * (d as u64);
            if d > max_d {
                max_d = d;
            }
            if d > SOFT_THRESHOLD {
                exceeds = true;
                assert(channel_diff(actual@[off + c], expected@[off + c]) > SOFT_THRESHOLD);
            }
            c += 1;
        }
        proof {
            lemma_statistics_bounds(actual@, expected@, i as int);
            if exceeds {
                let k = choose|k: int|
                    0 <= k < 4 && #[trigger] channel_diff(actual@[off + k], expected@[off + k])
                        > SOFT_THRESHOLD;
                assert(pixel_exceeds(actual@, expected@, i as int));
            } else {
                assert(channel_diff(actual@[off + 0], expected@[off + 0]) <= SOFT_THRESHOLD);
                assert(channel_diff(actual@[off + 1], expected@[off + 1]) <= SOFT_THRESHOLD);
                assert(channel_diff(actual@[off + 2], expected@[off + 2]) <= SOFT_THRESHOLD);
                assert(channel_diff(actual@[off + 3], expected@[off + 3]) <= SOFT_THRESHOLD);
            }
        }
        if exceeds {
            diff_count += 1;
        }
        i += 1;
    }
    CompareResult { sum_squares: sum_sq, max_diff: max_d, diff_count, pixel_count }
}

/// Generates a diff heat map as RGBA pixels.
///
/// Green = match (within soft threshold), red = differs (amplified
/// 10x). One pixel is returned for every whole pixel of `actual`.
pub fn diff_pixels(actual: &[u8], expected: &[u8]) -> (out: Vec<u8>)
    requires
        holds_colors(expected@.len() as int, actual@.len() as int / 4),
    ensures
        out@ == diff_image(actual@, expected@),
        out@.len() == actual@.len() / 4 * 4,
{
    let len = actual.len();
    let pixel_count = len / 4;
    let mut out: Vec<u8> = Vec::with_capacity(len);
    let mut i: usize = 0;
    while i < pixel_count
        invariant
            0 <= i <= pixel_count,
            len == actual@.len(),
            pixel_count == len / 4,
            holds_colors(expected@.len() as int, pixel_count as int),
            out@.len() == 4 * i,
            forall|k: int|
                0 <= k < 4 * i ==> out@[k] == heat_pixel(color_diff(actual@, expected@, k / 4))[k
                    % 4],
        decreases pixel_count - i,
    {
        let off = i * 4;
        let dr = abs_diff(actual[off], expected[off]);
        let dg = abs_diff(actual[off + 1], expected[off + 1]);
        let db = abs_diff(actual[off + 2], expected[off + 2]);
        let max_d = if dr >= dg && dr >= db {
            dr
        } else if dg >= db {
            dg
        } else {
            db
        };
        if max_d <= SOFT_THRESHOLD {
            out.push(0);
            out.push(MATCH_GREEN);
            out.push(0);
        } else {
            let a: u8 = if max_d >= 26 {
                255
            } else {
                max_d * AMPLIFICATION
            };
            out.push(a);
            out.push(0);
            out.push(0);
        }
        out.push(255);
        i += 1;
    }
    assert(out@ =~= diff_image(actual@, expected@));
    out
}

} // verus!
