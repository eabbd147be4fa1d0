//! Editing steps on images opened through the image crate.

use vstd::prelude::*;
use crate::command::{Rotation, rotation_for, rotation_spec};

verus! {

#[verifier::external_type_specification]
#[verifier::external_body]
pub struct ExDynamicImage(image::DynamicImage);

/// What `DynamicImage::width` returns: the image's width in pixels.
pub uninterp spec fn width_of(img: image::DynamicImage) -> u32;

/// What `DynamicImage::height` returns: the image's height in pixels.
pub uninterp spec fn height_of(img: image::DynamicImage) -> u32;

/// Relies on `DynamicImage::rotate90`: a new image turned a quarter
/// clockwise, built `height` wide and `width` high.
#[verifier::external_body]
fn turn_quarter(img: &image::DynamicImage) -> (r: image::DynamicImage)
    ensures
        width_of(r) == height_of(*img),
        height_of(r) == width_of(*img),
{
    img.rotate90()
}

/// Relies on `DynamicImage::rotate180`: a new image turned half round, of the
/// same size.
#[verifier::external_body]
fn turn_half(img: &image::DynamicImage) -> (r: image::DynamicImage)
    ensures
        width_of(r) == width_of(*img),
        height_of(r) == height_of(*img),
{
    img.rotate180()
}

/// Relies on `DynamicImage::rotate270`: a new image turned three quarters
/// clockwise, built `height` wide and `width` high.
#[verifier::external_body]
fn turn_three_quarters(img: &image::DynamicImage) -> (r: image::DynamicImage)
    ensures
        width_of(r) == height_of(*img),
        height_of(r) == width_of(*img),
{
    img.rotate270()
}

/// Turns `img` clockwise by `degrees` when that is a multiple of 90 modulo a
/// full turn; any other amount returns the image untouched. A quarter or
/// three-quarter turn swaps width and height.
pub fn rotate(img: image::DynamicImage, degrees: u32) -> (r: image::DynamicImage)
    ensures
        rotation_spec(degrees) == Rotation::Unchanged ==> r == img,
        rotation_spec(degrees) == Rotation::Half ==> width_of(r) == width_of(img) && height_of(r)
            == height_of(img),
        rotation_spec(degrees) == Rotation::Quarter || rotation_spec(degrees) == Rotation::ThreeQuarters
            ==> width_of(r) == height_of(img) && height_of(r) == width_of(img),
{
    match rotation_for(degrees) {
        Rotation::Quarter => turn_quarter(&img),
        Rotation::Half => turn_half(&img),
        Rotation::ThreeQuarters => turn_three_quarters(&img),
        Rotation::Unchanged => img,
    }
}

} // verus!
