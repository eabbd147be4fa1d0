//! Per-pixel colour rules: the gradient levels derived from a coordinate and
//! the channel-assignment policy that places gradient and iteration values on
//! the red, green and blue channels.

use vstd::prelude::*;

verus! {

/// The largest value an 8-bit channel can hold.
pub const CHANNEL_MAX: u8 = 255;

/// Gradient level of a pixel coordinate: `floor(0.3 * coord)`, saturated at
/// the largest channel value.
pub open spec fn gradient_spec(coord: int) -> int {
    if (3 * coord) / 10 > 255 {
        255
    } else {
        (3 * coord) / 10
    }
}

/// Gradient level of `coord`, computed exactly in integers.
pub fn gradient_level(coord: u32) -> (level: u8)
    ensures
        level == gradient_spec(coord as int),
{
    let scaled: u64 = (3 * (coord as u64)) / 10;
    if scaled > 255 {
        CHANNEL_MAX
    } else {
        scaled as u8
    }
}

/// What a colour channel carries.
#[derive(Clone, Copy, Debug, PartialEq, Eq, Structural)]
pub enum ChannelSource {
    /// The gradient level of the pixel's column.
    GradientX,
    /// The gradient level of the pixel's row.
    GradientY,
    /// The escape-time iteration count of the pixel.
    Iterations,
}

/// Which value goes to each of the three colour channels.
#[derive(Clone, Copy, Debug, PartialEq, Eq, Structural)]
pub struct ChannelPolicy {
    pub red: ChannelSource,
    pub green: ChannelSource,
    pub blue: ChannelSource,
}

impl ChannelPolicy {
    /// The "fractal" layout: column gradient in red, iteration count in
    /// green, row gradient in blue.
    pub fn fractal() -> (p: ChannelPolicy)
        ensures
            p.red == ChannelSource::GradientX,
            p.green == ChannelSource::Iterations,
            p.blue == ChannelSource::GradientY,
    {
        ChannelPolicy {
            red: ChannelSource::GradientX,
            green: ChannelSource::Iterations,
            blue: ChannelSource::GradientY,
        }
    }

    /// The "generate" layout: iteration count in red, row gradient in green,
    /// column gradient in blue.
    pub fn generate() -> (p: ChannelPolicy)
        ensures
            p.red == ChannelSource::Iterations,
            p.green == ChannelSource::GradientY,
            p.blue == ChannelSource::GradientX,
    {
        ChannelPolicy {
            red: ChannelSource::Iterations,
            green: ChannelSource::GradientY,
            blue: ChannelSource::GradientX,
        }
    }
}

/// An 8-bit RGB colour.
#[derive(Clone, Copy, Debug, PartialEq, Eq, Structural)]
pub struct Color {
    pub red: u8,
    pub green: u8,
    pub blue: u8,
}

/// The value that `source` puts on a channel of pixel `(x, y)` whose
/// iteration count is `count`.
pub open spec fn channel_spec(source: ChannelSource, x: int, y: int, count: u8) -> int {
    match source {
        ChannelSource::GradientX => gradient_spec(x),
        ChannelSource::GradientY => gradient_spec(y),
        ChannelSource::Iterations => count as int,
    }
}

/// The colour of pixel `(x, y)` with iteration count `count` under `policy`.
pub open spec fn shade_spec(policy: ChannelPolicy, x: int, y: int, count: u8) -> (int, int, int) {
    (
        channel_spec(policy.red, x, y, count),
        channel_spec(policy.green, x, y, count),
        channel_spec(policy.blue, x, y, count),
    )
}

/// The colour as a triple of channel values.
pub open spec fn color_spec(c: Color) -> (int, int, int) {
    (c.red as int, c.green as int, c.blue as int)
}

/// The value `source` puts on a channel of pixel `(x, y)`.
pub fn channel_value(source: ChannelSource, x: u32, y: u32, count: u8) -> (v: u8)
    ensures
        v == channel_spec(source, x as int, y as int, count),
{
    match source {
        ChannelSource::GradientX => gradient_level(x),
        ChannelSource::GradientY => gradient_level(y),
        ChannelSource::Iterations => count,
    }
}

/// The colour of pixel `(x, y)` whose escape-time iteration count is `count`.
pub fn shade_pixel(policy: ChannelPolicy, x: u32, y: u32, count: u8) -> (c: Color)
    ensures
        color_spec(c) == shade_spec(policy, x as int, y as int, count),
{
    Color {
        red: channel_value(policy.red, x, y, count),
        green: channel_value(policy.green, x, y, count),
        blue: channel_value(policy.blue, x, y, count),
    }
}

} // verus!
