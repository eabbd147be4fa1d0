//! The procedural generator: per-pixel iteration counts in, a shaded raster
//! out, plus the configuration it runs with.

use vstd::prelude::*;
use vstd::arithmetic::div_mod::{lemma_fundamental_div_mod, lemma_mod_pos_bound};
use crate::raster::Raster;
use crate::shading::{ChannelPolicy, ChannelSource, gradient_spec, shade_pixel, shade_spec};

verus! {

/// Default canvas width in pixels.
pub const CANVAS_WIDTH: u32 = 800;

/// Default canvas height in pixels.
pub const CANVAS_HEIGHT: u32 = 800;

/// Default cap on escape-time iterations.
pub const MAX_ITERATIONS: u8 = 255;

/// The integer parameters of a generation run. The complex-plane window, the
/// Julia constant and the escape radius belong to the floating-point
/// recurrence, which runs outside this library.
#[derive(Clone, Copy, Debug, PartialEq, Eq, Structural)]
pub struct GeneratorConfig {
    pub width: u32,
    pub height: u32,
    pub max_iterations: u8,
    pub policy: ChannelPolicy,
}

impl GeneratorConfig {
    /// An 800 by 800 canvas with at most 255 iterations per pixel.
    pub fn standard(policy: ChannelPolicy) -> (cfg: GeneratorConfig)
        ensures
            cfg.width == 800,
            cfg.height == 800,
            cfg.max_iterations == 255,
            cfg.policy == policy,
    {
        GeneratorConfig {
            width: CANVAS_WIDTH,
            height: CANVAS_HEIGHT,
            max_iterations: MAX_ITERATIONS,
            policy,
        }
    }
}

/// Whether a `width` by `height` raster, three bytes per pixel, can be held
/// in memory.
pub open spec fn raster_fits(width: int, height: int) -> bool {
    3 * width * height <= usize::MAX
}

/// The iteration count of pixel `(x, y)` in a row-major sequence of counts
/// for a canvas `width` pixels wide.
pub open spec fn count_at(counts: Seq<u8>, width: int, x: int, y: int) -> u8 {
    counts[y * width + x]
}

/// `r` is the `width` by `height` raster whose pixel `(x, y)` is shaded by
/// `policy` from its iteration count in `counts`.
pub open spec fn renders(r: Raster, policy: ChannelPolicy, width: int, height: int, counts: Seq<u8>) -> bool {
    &&& r.wf()
    &&& r.width_spec() == width
    &&& r.height_spec() == height
    &&& forall|x: int, y: int|
        0 <= x < width && 0 <= y < height ==> #[trigger] r.pixel_spec(x, y) == shade_spec(
            policy,
            x,
            y,
            count_at(counts, width, x, y),
        )
}

/// Builds the raster of `config`'s size from `counts`, the escape-time
/// iteration counts of its pixels in row-major order. Returns `None` when
/// `counts` does not hold one count per pixel or the raster is too large to
/// address.
pub fn render(config: &GeneratorConfig, counts: &Vec<u8>) -> (r: Option<Raster>)
    ensures
        r.is_some() <==> (counts@.len() == (config.width as int) * (config.height as int)
            && raster_fits(config.width as int, config.height as int)),
        r matches Some(img) ==> renders(img, config.policy, config.width as int, config.height as int, counts@),
{
    let width = config.width;
    let height = config.height;
    let cells = match (width as usize).checked_mul(height as usize) {
        Some(n) => n,
        None => {
            assert(!raster_fits(width as int, height as int)) by (nonlinear_arith)
                requires (width as int) * (height as int) > usize::MAX;
            return None;
        },
    };
    match cells.checked_mul(3) {
        Some(_) => {},
        None => {
            assert(!raster_fits(width as int, height as int)) by (nonlinear_arith)
                requires cells * 3 > usize::MAX, cells == (width as int) * (height as int);
            return None;
        },
    }
    assert(raster_fits(width as int, height as int)) by (nonlinear_arith)
        requires cells * 3 <= usize::MAX, cells == (width as int) * (height as int);
    if counts.len() != cells {
        return None;
    }
    let mut img = Raster::new(width, height);
    let ghost w = width as int;
    let ghost h = height as int;
    for y in 0..height
        invariant
            w == width,
            h == height,
            counts@.len() == w * h,
            3 * w * h <= usize::MAX,
            img.wf(),
            img.width_spec() == w,
            img.height_spec() == h,
            forall|i: int, j: int|
                0 <= i < w && 0 <= j < y ==> #[trigger] img.pixel_spec(i, j) == shade_spec(
                    config.policy,
                    i,
                    j,
                    count_at(counts@, w, i, j),
                ),
    {
        for x in 0..width
            invariant
                w == width,
                h == height,
                y < h,
                counts@.len() == w * h,
                3 * w * h <= usize::MAX,
                img.wf(),
                img.width_spec() == w,
                img.height_spec() == h,
                forall|i: int, j: int|
                    0 <= i < w && 0 <= j < y ==> #[trigger] img.pixel_spec(i, j) == shade_spec(
                        config.policy,
                        i,
                        j,
                        count_at(counts@, w, i, j),
                    ),
                forall|i: int| 0 <= i < x ==> #[trigger] img.pixel_spec(i, y as int) == shade_spec(
                    config.policy,
                    i,
                    y as int,
                    count_at(counts@, w, i, y as int),
                ),
        {
            assert((y as int) * w <= (y as int) * w + (x as int) < w * h <= usize::MAX) by (nonlinear_arith)
                requires 0 <= x < w, 0 <= y < h, 3 * w * h <= usize::MAX;
            let index = (y as usize) * (width as usize) + (x as usize);
            let color = shade_pixel(config.policy, x, y, counts[index]);
            img.set_pixel(x, y, color);
        }
    }
    Some(img)
}

/// Row-major position `i` of a canvas `width` pixels wide and `height` rows
/// high lies at column `i % width`, row `i / width`.
proof fn lemma_row_major_cell(i: int, width: int, height: int)
    requires
        0 <= i < width * height,
        0 < width,
    ensures
        0 <= i % width < width,
        0 <= i / width < height,
        (i / width) * width + i % width == i,
{
    lemma_fundamental_div_mod(i, width);
    lemma_mod_pos_bound(i, width);
    let q = i / width;
    let m = i % width;
    assert(q * width == width * q) by (nonlinear_arith);
    assert(0 <= q < height) by (nonlinear_arith)
        requires i == width * q + m, 0 <= m < width, 0 <= i < width * height, 0 < width;
}

/// Generation is deterministic: two rasters rendered from the same policy,
/// size and iteration counts are identical pixel for pixel.
pub proof fn lemma_render_deterministic(
    a: Raster,
    b: Raster,
    policy: ChannelPolicy,
    width: int,
    height: int,
    counts: Seq<u8>,
)
    requires
        renders(a, policy, width, height, counts),
        renders(b, policy, width, height, counts),
    ensures
        a.pixels_spec() == b.pixels_spec(),
{
    assert forall|i: int| 0 <= i < a.pixels_spec().len() implies a.pixels_spec()[i] == b.pixels_spec()[i] by {
        assert(0 < width) by (nonlinear_arith)
            requires 0 <= i < width * height, 0 <= width, 0 <= height;
        lemma_row_major_cell(i, width, height);
        let x = i % width;
        let y = i / width;
        assert(a.pixel_spec(x, y) == b.pixel_spec(x, y));
    }
    assert(a.pixels_spec() =~= b.pixels_spec());
}

/// The channels of `color` that `policy` assigns to `source` all hold `value`.
pub open spec fn source_channels_hold(
    policy: ChannelPolicy,
    color: (int, int, int),
    source: ChannelSource,
    value: int,
) -> bool {
    &&& policy.red == source ==> color.0 == value
    &&& policy.green == source ==> color.1 == value
    &&& policy.blue == source ==> color.2 == value
}

/// Every pixel `(x, y)` of a rendered raster carries `min(255, floor(0.3 *
/// x))` on its column-gradient channels, `min(255, floor(0.3 * y))` on its
/// row-gradient channels, and its iteration count on the iteration channels.
pub proof fn lemma_rendered_channels(
    r: Raster,
    policy: ChannelPolicy,
    width: int,
    height: int,
    counts: Seq<u8>,
    x: int,
    y: int,
)
    requires
        renders(r, policy, width, height, counts),
        0 <= x < width,
        0 <= y < height,
    ensures
        source_channels_hold(policy, r.pixel_spec(x, y), ChannelSource::GradientX, gradient_spec(x)),
        source_channels_hold(policy, r.pixel_spec(x, y), ChannelSource::GradientY, gradient_spec(y)),
        source_channels_hold(
            policy,
            r.pixel_spec(x, y),
            ChannelSource::Iterations,
            count_at(counts, width, x, y) as int,
        ),
        gradient_spec(x) == (if (3 * x) / 10 < 255 { (3 * x) / 10 } else { 255 }),
        gradient_spec(y) == (if (3 * y) / 10 < 255 { (3 * y) / 10 } else { 255 }),
{
    assert(r.pixel_spec(x, y) == shade_spec(policy, x, y, count_at(counts, width, x, y)));
}

} // verus!
